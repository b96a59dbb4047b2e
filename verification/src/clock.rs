//! Instants in time, as the seconds since 1970 and the nanoseconds after them.
use vstd::prelude::*;

verus! {

/// Why a text is no instant.
#[verifier::external_type_specification]
#[verifier::external_body]
pub struct ExParseError(chrono::ParseError);

/// The first second of the calendar.
pub const FIRST_SECOND: i64 = -8334601228800;

/// The last second of the calendar.
pub const LAST_SECOND: i64 = 8210266876799;

/// Nanoseconds in a second.
pub const NANOS: u32 = 1_000_000_000;

/// Whether the calendar has an instant: it reaches from the year -262143 to the year
/// 262142. A leap second is counted as more nanoseconds after the last second of a
/// minute.
pub open spec fn in_calendar(secs: int, nanos: int) -> bool {
    &&& FIRST_SECOND <= secs <= LAST_SECOND
    &&& 0 <= nanos < 2 * NANOS
    &&& nanos >= NANOS ==> secs % 60 == 59
}

/// A number of nanoseconds in whole seconds, rounded toward zero.
pub open spec fn whole_seconds(nanos: int) -> int {
    if nanos >= 0 {
        nanos / (NANOS as int)
    } else {
        -((-nanos) / (NANOS as int))
    }
}

/// Seconds in a day.
pub const DAY_SECONDS: i64 = 86_400;

/// The leap second that is still to be counted between two instants. It is counted by
/// the time of day of the two, whatever their days are.
pub open spec fn leap_between(
    later_secs: int,
    later_nanos: int,
    earlier_secs: int,
    earlier_nanos: int,
) -> int {
    if later_secs % (DAY_SECONDS as int) > earlier_secs % (DAY_SECONDS as int) && earlier_nanos
        >= NANOS {
        1
    } else if later_secs % (DAY_SECONDS as int) < earlier_secs % (DAY_SECONDS as int)
        && later_nanos >= NANOS {
        -1
    } else {
        0
    }
}

/// The whole seconds from one instant to another: their difference, with a leap second
/// that is still to be counted, rounded toward zero.
pub open spec fn seconds_between(
    later_secs: int,
    later_nanos: int,
    earlier_secs: int,
    earlier_nanos: int,
) -> int {
    let leap = leap_between(later_secs, later_nanos, earlier_secs, earlier_nanos);
    whole_seconds((later_secs - earlier_secs + leap) * NANOS + (later_nanos - earlier_nanos))
}

/// What `to_rfc3339` gives for an instant.
pub uninterp spec fn rfc3339_of(secs: i64, nanos: u32) -> Seq<char>;

/// What `DateTime::<Utc>::from_str` gives for a text.
pub uninterp spec fn instant_of(text: Seq<char>) -> Option<(i64, u32)>;

/// `Utc::now` reads the clock of the machine. The instant is one of the calendar
/// and not within a leap second. Which one it is is left open. A clock that is set to
/// a time before 1970 stops the program.
#[verifier::external_body]
fn read_clock() -> (instant: (i64, u32))
    ensures
        in_calendar(instant.0 as int, instant.1 as int),
        instant.1 < NANOS,
{
    let now = chrono::Utc::now();
    (now.timestamp(), now.timestamp_subsec_nanos())
}

/// Whether the calendar has an instant.
fn calendar_has(secs: i64, nanos: u32) -> (found: bool)
    ensures
        found == in_calendar(secs as int, nanos as int),
{
    if secs < FIRST_SECOND || secs > LAST_SECOND || nanos >= 2 * NANOS {
        return false;
    }
    // The first second starts a minute.
    nanos < NANOS || (secs - FIRST_SECOND) % 60 == 59
}

/// `signed_duration_since` and `num_seconds` count the whole seconds from one
/// instant to another. Where an instant within a leap second has the earlier time of
/// day of the two, one second is added to the way from it to the other.
#[verifier::external_body]
fn count_seconds(later: (i64, u32), earlier: (i64, u32)) -> (seconds: i64)
    requires
        in_calendar(later.0 as int, later.1 as int),
        in_calendar(earlier.0 as int, earlier.1 as int),
    ensures
        seconds == seconds_between(
            later.0 as int,
            later.1 as int,
            earlier.0 as int,
            earlier.1 as int,
        ),
{
    let to = chrono::DateTime::from_timestamp(later.0, later.1).unwrap();
    let from = chrono::DateTime::from_timestamp(earlier.0, earlier.1).unwrap();
    to.signed_duration_since(from).num_seconds()
}

/// `to_rfc3339` writes an instant as a text.
#[verifier::external_body]
fn format_instant(secs: i64, nanos: u32) -> (text: String)
    requires
        in_calendar(secs as int, nanos as int),
    ensures
        text@ == rfc3339_of(secs, nanos),
{
    chrono::DateTime::from_timestamp(secs, nanos).unwrap().to_rfc3339()
}

/// `DateTime::<Utc>::from_str` reads an instant of the calendar from a text. It
/// reads back what `to_rfc3339` wrote.
#[verifier::external_body]
fn parse_instant(text: &str) -> (instant: Result<(i64, u32), chrono::ParseError>)
    ensures
        match instant {
            Ok(pair) => instant_of(text@) == Some(pair) && in_calendar(
                pair.0 as int,
                pair.1 as int,
            ),
            Err(_) => instant_of(text@) is None,
        },
        forall|t: TimestampView|
            t.valid() && text@ == #[trigger] t.text() ==> instant is Ok && t.is_pair(instant->Ok_0),
{
    text.parse::<chrono::DateTime<chrono::Utc>>().map(
        |at| (at.timestamp(), at.timestamp_subsec_nanos()),
    )
}

/// An instant of the calendar.
#[derive(Clone, Copy, Debug, PartialEq, Eq, Structural)]
pub struct Timestamp {
    secs: i64,
    nanos: u32,
}

/// The value of a [`Timestamp`].
pub struct TimestampView {
    /// Seconds since 1970.
    pub secs: i64,
    /// Nanoseconds after that second.
    pub nanos: u32,
}

impl View for Timestamp {
    type V = TimestampView;

    closed spec fn view(&self) -> TimestampView {
        TimestampView { secs: self.secs, nanos: self.nanos }
    }
}

impl TimestampView {
    /// Whether the calendar has this instant.
    pub open spec fn valid(self) -> bool {
        in_calendar(self.secs as int, self.nanos as int)
    }

    /// Whether a pair holds the seconds and nanoseconds of this instant.
    pub open spec fn is_pair(self, pair: (i64, u32)) -> bool {
        pair.0 == self.secs && pair.1 == self.nanos
    }

    /// Whether the instant is outside leap seconds.
    pub open spec fn is_plain(self) -> bool {
        self.nanos < NANOS
    }

    /// The whole seconds from an earlier instant to this one.
    pub open spec fn since(self, earlier: TimestampView) -> int {
        seconds_between(
            self.secs as int,
            self.nanos as int,
            earlier.secs as int,
            earlier.nanos as int,
        )
    }

    /// Whether this instant comes after another.
    pub open spec fn is_after(self, other: TimestampView) -> bool {
        self.secs > other.secs || (self.secs == other.secs && self.nanos > other.nanos)
    }

    /// This instant as a text.
    pub open spec fn text(self) -> Seq<char> {
        rfc3339_of(self.secs, self.nanos)
    }
}

/// The instant that a text stands for.
pub open spec fn timestamp_of(text: Seq<char>) -> Option<TimestampView> {
    match instant_of(text) {
        Some((secs, nanos)) => Some(TimestampView { secs, nanos }),
        None => None,
    }
}

impl Timestamp {
    #[verifier::type_invariant]
    spec fn well_formed(self) -> bool {
        in_calendar(self.secs as int, self.nanos as int)
    }

    /// Finds an instant by its seconds since 1970 and the nanoseconds after them.
    pub fn new(secs: i64, nanos: u32) -> (at: Option<Timestamp>)
        ensures
            match at {
                Some(t) => t@ == (TimestampView { secs, nanos }) && t@.valid(),
                None => !in_calendar(secs as int, nanos as int),
            },
    {
        if calendar_has(secs, nanos) {
            Some(Timestamp { secs, nanos })
        } else {
            None
        }
    }

    /// Reads the clock of the machine.
    pub fn now() -> (at: Timestamp)
        ensures
            at@.valid(),
            at@.is_plain(),
    {
        let (secs, nanos) = read_clock();
        Timestamp { secs, nanos }
    }

    /// Seconds since 1970.
    pub fn seconds(&self) -> (secs: i64)
        ensures
            secs == self@.secs,
    {
        self.secs
    }

    /// Nanoseconds after the last full second.
    pub fn nanoseconds(&self) -> (nanos: u32)
        ensures
            nanos == self@.nanos,
    {
        self.nanos
    }

    /// Whether this instant comes after another.
    pub fn comes_after(&self, other: &Timestamp) -> (after: bool)
        ensures
            after == self@.is_after(other@),
    {
        self.secs > other.secs || (self.secs == other.secs && self.nanos > other.nanos)
    }

    /// The whole seconds from an earlier instant to this one.
    pub fn seconds_since(&self, earlier: &Timestamp) -> (seconds: i64)
        ensures
            seconds == self@.since(earlier@),
    {
        proof {
            use_type_invariant(self);
            use_type_invariant(earlier);
        }
        count_seconds((self.secs, self.nanos), (earlier.secs, earlier.nanos))
    }

    /// The instant as a text.
    pub fn to_text(&self) -> (text: String)
        ensures
            text@ == self@.text(),
    {
        proof {
            use_type_invariant(self);
        }
        format_instant(self.secs, self.nanos)
    }

    /// Reads an instant from a text. What [`Timestamp::to_text`] wrote is read back.
    pub fn from_text(text: &str) -> (at: Option<Timestamp>)
        ensures
            match at {
                Some(t) => timestamp_of(text@) == Some(t@) && t@.valid(),
                None => timestamp_of(text@) is None,
            },
            forall|t: TimestampView|
                #![trigger t.text()]
                t.valid() && text@ == t.text() ==> timestamp_of(text@) == Some(t),
    {
        match parse_instant(text) {
            Ok((secs, nanos)) => Some(Timestamp { secs, nanos }),
            Err(_) => None,
        }
    }
}

} // verus!
