//! Instants: which ones there are, their order and the seconds between them.
use crate::clock::{Timestamp, TimestampView};
use vstd::prelude::*;

verus! {

/// There are the instants from the year -262143 to the year 262142, by their seconds since
/// 1970 and the nanoseconds after them; the last second of a minute may have twice as many.
pub proof fn instants_are_those_of_the_calendar(secs: i64, nanos: u32, at: Option<Timestamp>)
    requires
        call_ensures(Timestamp::new, (secs, nanos), at),
    ensures
        at is Some <==> -8334601228800 <= secs <= 8210266876799 && (nanos < 1_000_000_000 || (nanos
            < 2_000_000_000 && secs % 60 == 59)),
        at matches Some(t) ==> t@.secs == secs && t@.nanos == nanos,
{
}

/// An instant gives back its seconds and nanoseconds, and comes after those with fewer
/// seconds, and after those with as many seconds and fewer nanoseconds.
pub proof fn instants_give_back_what_they_are(
    t: Timestamp,
    other: Timestamp,
    secs: i64,
    nanos: u32,
    after: bool,
)
    requires
        call_ensures(Timestamp::seconds, (&t,), secs),
        call_ensures(Timestamp::nanoseconds, (&t,), nanos),
        call_ensures(Timestamp::comes_after, (&t, &other), after),
    ensures
        secs == t@.secs,
        nanos == t@.nanos,
        after <==> t@.secs > other@.secs || (t@.secs == other@.secs && t@.nanos > other@.nanos),
{
}

/// Between two instants outside leap seconds lie as many seconds as fit between them: the
/// part of a second that is left over does not count, in either direction.
pub proof fn whole_seconds_lie_between(t: Timestamp, earlier: Timestamp, seconds: i64)
    requires
        call_ensures(Timestamp::seconds_since, (&t, &earlier), seconds),
        t@.nanos < 1_000_000_000,
        earlier@.nanos < 1_000_000_000,
    ensures
        ({
            let way = (t@.secs - earlier@.secs) * 1_000_000_000 + (t@.nanos - earlier@.nanos);
            &&& way >= 0 ==> seconds * 1_000_000_000 <= way < (seconds + 1) * 1_000_000_000
            &&& way <= 0 ==> (seconds - 1) * 1_000_000_000 < way <= seconds * 1_000_000_000
        }),
{
}

/// An instant that is written as a text is read back from it.
pub proof fn instants_are_read_back(
    t: Timestamp,
    words: String,
    text: &str,
    read: Option<Timestamp>,
)
    requires
        call_ensures(Timestamp::to_text, (&t,), words),
        call_ensures(Timestamp::from_text, (text,), read),
        text@ == words@,
        t@.valid(),
    ensures
        read is Some,
        read->0@.secs == t@.secs,
        read->0@.nanos == t@.nanos,
{
    let at: TimestampView = t@;
    assert(text@ == at.text());
}

} // verus!
