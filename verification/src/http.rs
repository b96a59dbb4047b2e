//! Methods, status codes and headers of HTTP messages that are passed on.
use crate::text;
use axum::http::response::Builder;
use vstd::prelude::*;

verus! {

/// Whether a character may stand in a method or in the name of a header.
pub open spec fn is_token_char(c: char) -> bool {
    ||| '0' <= c <= '9'
    ||| 'A' <= c <= 'Z'
    ||| 'a' <= c <= 'z'
    ||| c == '!'
    ||| '#' <= c <= '\''
    ||| c == '*'
    ||| c == '+'
    ||| c == '-'
    ||| c == '.'
    ||| '^' <= c <= '`'
    ||| c == '|'
    ||| c == '~'
}

/// Whether a text is a token: not empty, and made of token characters only.
pub open spec fn is_token(s: Seq<char>) -> bool {
    s.len() > 0 && forall|i: int| 0 <= i < s.len() ==> is_token_char(#[trigger] s[i])
}

/// The longest name that a header can have.
pub const MAX_HEADER_NAME: usize = 65535;

/// Whether a text can be the value of a header: it has no control character but the
/// tab.
pub open spec fn is_header_value(s: Seq<char>) -> bool {
    forall|i: int|
        0 <= i < s.len() ==> ((#[trigger] s[i]) as u32 >= 32 && s[i] as u32 != 127) || s[i] == '\t'
}

/// Whether bytes are visible characters of ASCII, blanks and tabs only.
pub open spec fn is_visible(bytes: Seq<u8>) -> bool {
    forall|i: int| 0 <= i < bytes.len() ==> 32 <= (#[trigger] bytes[i]) < 127 || bytes[i] == 9
}

/// The text of ASCII bytes.
pub open spec fn ascii_text(bytes: Seq<u8>) -> Seq<char> {
    Seq::new(bytes.len(), |i: int| bytes[i] as char)
}

/// `Method::from_bytes` takes every token for a method, and nothing else. The
/// method's text is the token.
#[verifier::external_body]
fn method_text(method: &str) -> (known: Option<String>)
    ensures
        match known {
            Some(m) => is_token(method@) && m@ == method@,
            None => !is_token(method@),
        },
{
    reqwest::Method::from_bytes(method.as_bytes()).ok().map(|m| m.as_str().to_string())
}

/// `StatusCode::from_u16` takes the numbers of three digits for status codes.
#[verifier::external_body]
fn status_known(status: u16) -> (known: bool)
    ensures
        known == (100 <= status <= 999),
{
    axum::http::StatusCode::from_u16(status).is_ok()
}

/// `HeaderValue::to_str` gives the text of a value whose bytes are visible ASCII,
/// and no text for another one.
#[verifier::external_body]
fn header_text(value: &[u8]) -> (shown: Option<String>)
    ensures
        match shown {
            Some(s) => is_visible(value@) && s@ == ascii_text(value@),
            None => !is_visible(value@),
        },
{
    let value = axum::http::HeaderValue::from_bytes(value).ok()?;
    value.to_str().ok().map(|s| s.to_string())
}

/// The method to pass on: the one that was asked for, or `GET` where that is none.
pub fn forward_method(method: &str) -> (forwarded: String)
    ensures
        forwarded@ == if is_token(method@) {
            method@
        } else {
            "GET"@
        },
{
    match method_text(method) {
        Some(m) => m,
        None => "GET".to_owned(),
    }
}

/// The status code to pass on: the one that came back, or 500 where that is none.
pub fn forward_status(status: u16) -> (forwarded: u16)
    ensures
        forwarded == if 100 <= status <= 999 {
            status
        } else {
            500
        },
{
    if status_known(status) {
        status
    } else {
        500
    }
}

// ── headers ─────────────────────────────────────────────────────────────────
/// A header whose value may be any bytes.
pub struct RawHeader {
    /// The name.
    pub name: String,
    /// The value.
    pub value: Vec<u8>,
}

/// A header whose value is a text.
#[derive(Debug)]
pub struct Header {
    /// The name.
    pub name: String,
    /// The value.
    pub value: String,
}

/// The headers among the first ones that have a text, by their names. Of several
/// with the same name the last one counts.
pub open spec fn shown_headers(list: Seq<RawHeader>, n: nat) -> Map<Seq<char>, Seq<char>>
    decreases n,
{
    if n == 0 {
        Map::empty()
    } else {
        let before = shown_headers(list, (n - 1) as nat);
        let header = list[n - 1];
        if is_visible(header.value@) {
            before.insert(header.name@, ascii_text(header.value@))
        } else {
            before
        }
    }
}

/// Whether a list holds the headers of a map, each once.
pub open spec fn holds_headers(list: Seq<Header>, map: Map<Seq<char>, Seq<char>>) -> bool {
    &&& forall|i: int, j: int| 0 <= i < j < list.len() ==> list[i].name@ != list[j].name@
    &&& forall|i: int|
        0 <= i < list.len() ==> map.contains_key((#[trigger] list[i]).name@) && map[list[i].name@]
            == list[i].value@
    &&& forall|name: Seq<char>| #[trigger]
        map.contains_key(name) ==> exists|i: int| 0 <= i < list.len() && list[i].name@ == name
}

/// The headers among the first ones of a list, by their names. Of several with the same
/// name the last one counts.
pub open spec fn header_map(list: Seq<Header>, n: nat) -> Map<Seq<char>, Seq<char>>
    decreases n,
{
    if n == 0 {
        Map::empty()
    } else {
        header_map(list, (n - 1) as nat).insert(list[n - 1].name@, list[n - 1].value@)
    }
}

/// The first headers of a list in which no name occurs twice, by their names.
proof fn lemma_header_map(list: Seq<Header>, n: nat)
    requires
        n <= list.len(),
        forall|i: int, j: int| 0 <= i < j < list.len() ==> list[i].name@ != list[j].name@,
    ensures
        forall|i: int|
            0 <= i < n ==> header_map(list, n).contains_key((#[trigger] list[i]).name@)
                && header_map(list, n)[list[i].name@] == list[i].value@,
        forall|name: Seq<char>| #[trigger]
            header_map(list, n).contains_key(name) ==> exists|i: int|
                0 <= i < n && (#[trigger] list[i]).name@ == name,
    decreases n,
{
    if n > 0 {
        let fewer = (n - 1) as nat;
        lemma_header_map(list, fewer);
        assert forall|name: Seq<char>| #[trigger]
            header_map(list, n).contains_key(name) implies exists|i: int|
            0 <= i < n && (#[trigger] list[i]).name@ == name by {
            if name == list[n - 1].name@ {
                assert(list[n - 1].name@ == name);
            } else {
                assert(header_map(list, fewer).contains_key(name));
                let i = choose|i: int| 0 <= i < fewer && (#[trigger] list[i]).name@ == name;
                assert(list[i].name@ == name);
            }
        }
    }
}

/// A list that holds the headers of a map, each once, has just those by their names.
pub proof fn held_headers_are_the_map(list: Seq<Header>, map: Map<Seq<char>, Seq<char>>)
    requires
        holds_headers(list, map),
    ensures
        header_map(list, list.len()) == map,
{
    let all = header_map(list, list.len());
    lemma_header_map(list, list.len());
    assert forall|name: Seq<char>| all.contains_key(name) == map.contains_key(name) && (
    map.contains_key(name) ==> all[name] == map[name]) by {
        if map.contains_key(name) {
            let i = choose|i: int| 0 <= i < list.len() && list[i].name@ == name;
            assert(all.contains_key(list[i].name@));
        }
        if all.contains_key(name) {
            let i = choose|i: int| 0 <= i < list.len() && (#[trigger] list[i]).name@ == name;
            assert(map.contains_key(list[i].name@));
        }
    }
    assert(all =~= map);
}

/// Where a header is in a list, or the length of the list where it is not.
fn header_index(list: &Vec<Header>, name: &str) -> (at: usize)
    ensures
        at <= list@.len(),
        at < list@.len() ==> list@[at as int].name@ == name@,
        at == list@.len() ==> forall|i: int|
            0 <= i < list@.len() ==> (#[trigger] list@[i]).name@ != name@,
{
    let mut at: usize = 0;
    while at < list.len()
        invariant
            at <= list@.len(),
            forall|i: int| 0 <= i < at ==> (#[trigger] list@[i]).name@ != name@,
        decreases list@.len() - at,
    {
        if text::same_text(list[at].name.as_str(), name) {
            return at;
        }
        at = at + 1;
    }
    at
}

/// Puts a header into a list, in the place of one with the same name.
fn put_header(list: &mut Vec<Header>, name: String, value: String, Ghost(map): Ghost<
    Map<Seq<char>, Seq<char>>,
>)
    requires
        holds_headers(old(list)@, map),
    ensures
        holds_headers(final(list)@, map.insert(name@, value@)),
{
    let ghost before = list@;
    let ghost key = name@;
    let ghost more = map.insert(name@, value@);
    let at: usize = header_index(list, name.as_str());
    let header = Header { name, value };
    if at < list.len() {
        list.set(at, header);
    } else {
        list.push(header);
    }
    assert forall|x: Seq<char>| #[trigger] more.contains_key(x) implies exists|i: int|
        0 <= i < list@.len() && list@[i].name@ == x by {
        if x == key {
            assert(list@[at as int].name@ == x);
        } else {
            assert(map.contains_key(x));
            let i = choose|i: int| 0 <= i < before.len() && before[i].name@ == x;
            assert(list@[i].name@ == x);
        }
    }
    assert forall|i: int| 0 <= i < list@.len() implies more.contains_key(
        (#[trigger] list@[i]).name@,
    ) && more[list@[i].name@] == list@[i].value@ by {
        if i != at {
            assert(list@[i] == before[i]);
            if at < before.len() {
                assert(before[i].name@ != before[at as int].name@) by {
                    if i < at {
                        assert(before[i].name@ != before[at as int].name@);
                    } else {
                        assert(before[at as int].name@ != before[i].name@);
                    }
                }
            }
        }
    }
}

/// The headers to pass on: those whose value has a text.
pub fn forward_headers(list: &Vec<RawHeader>) -> (forwarded: Vec<Header>)
    ensures
        holds_headers(forwarded@, shown_headers(list@, list@.len())),
        header_map(forwarded@, forwarded@.len()) == shown_headers(list@, list@.len()),
{
    let mut forwarded: Vec<Header> = Vec::new();
    let mut k: usize = 0;
    while k < list.len()
        invariant
            k <= list@.len(),
            holds_headers(forwarded@, shown_headers(list@, k as nat)),
        decreases list@.len() - k,
    {
        let header = &list[k];
        if let Some(value) = header_text(header.value.as_slice()) {
            put_header(
                &mut forwarded,
                header.name.clone(),
                value,
                Ghost(shown_headers(list@, k as nat)),
            );
        }
        k = k + 1;
    }
    proof {
        held_headers_are_the_map(forwarded@, shown_headers(list@, list@.len()));
    }
    forwarded
}

// ── heads of messages ───────────────────────────────────────────────────────
/// The head of a response that is being built.
#[verifier::external_type_specification]
#[verifier::external_body]
pub struct ExBuilder(Builder);

/// Whether nothing that a builder was given was refused so far.
pub uninterp spec fn is_good(builder: Builder) -> bool;

/// How many headers a builder holds.
pub uninterp spec fn header_count(builder: Builder) -> nat;

/// How many headers there is room for in every head.
pub const SURE_HEADERS: usize = 6554;

/// Whether a name and a value make a header.
pub open spec fn is_header(name: Seq<char>, value: Seq<char>) -> bool {
    is_token(name) && name.len() <= MAX_HEADER_NAME && is_header_value(value)
}

/// Whether a status code and headers can stand in a response.
pub open spec fn is_valid_head(status: u16, headers: Seq<(Seq<char>, Seq<char>)>) -> bool {
    &&& 100 <= status <= 999
    &&& forall|i: int|
        0 <= i < headers.len() ==> is_header((#[trigger] headers[i]).0, headers[i].1)
}

/// Whether an attempt to build a head ended as it may: one that cannot stand in a
/// response is not built, and one that can is, up to [`SURE_HEADERS`] headers. Where
/// there are more it may or may not be built.
pub open spec fn may_end_as(
    built: bool,
    status: u16,
    headers: Seq<(Seq<char>, Seq<char>)>,
) -> bool {
    &&& built ==> is_valid_head(status, headers)
    &&& is_valid_head(status, headers) && headers.len() <= SURE_HEADERS ==> built
}

/// `Builder::status` gives a new builder its status code. A code that does not have
/// three digits is refused.
#[verifier::external_body]
fn start_head(status: u16) -> (builder: Builder)
    ensures
        is_good(builder) == (100 <= status <= 999),
        header_count(builder) == 0,
{
    Builder::new().status(status)
}

/// `Builder::header` gives a builder one more header. Where something was refused
/// before, that stays so. A name that is no token or too long is refused, and so is a
/// value with a control character other than a tab. A header is also refused where the
/// table of headers is full, and the builder does not say when that is: the table takes
/// 24576 names at most, and fewer where many of them share a hash, but never refuses a
/// header while it holds fewer than [`SURE_HEADERS`].
#[verifier::external_body]
fn add_header(builder: Builder, name: &str, value: &str) -> (next: Builder)
    ensures
        is_good(next) ==> is_good(builder) && is_header(name@, value@),
        is_good(builder) && is_header(name@, value@) && header_count(builder) < SURE_HEADERS
            ==> is_good(next),
        header_count(next) <= header_count(builder) + 1,
{
    builder.header(name, value)
}

/// `Builder::body` ends the building. It fails where something was refused.
#[verifier::external_body]
fn end_head(builder: Builder) -> (built: bool)
    ensures
        built == is_good(builder),
{
    builder.body(()).is_ok()
}

/// The names and values of a list of headers.
pub open spec fn header_pairs(list: Seq<Header>) -> Seq<(Seq<char>, Seq<char>)> {
    Seq::new(list.len(), |i: int| (list[i].name@, list[i].value@))
}

/// Lists with the same names and values have the same headers by their names.
pub proof fn pairs_make_the_map(list: Seq<Header>, other: Seq<Header>, n: nat)
    requires
        header_pairs(list) == header_pairs(other),
        n <= list.len(),
    ensures
        header_map(list, n) == header_map(other, n),
    decreases n,
{
    if n > 0 {
        pairs_make_the_map(list, other, (n - 1) as nat);
        assert(header_pairs(list)[n - 1] == header_pairs(other)[n - 1]);
        assert(header_pairs(list).len() == list.len());
        assert(header_pairs(other).len() == other.len());
    }
}

/// Whether a response can be built with a status code and headers.
pub fn can_build(status: u16, headers: &Vec<Header>) -> (can: bool)
    ensures
        may_end_as(can, status, header_pairs(headers@)),
{
    let ghost pairs = header_pairs(headers@);
    let mut builder = start_head(status);
    let mut k: usize = 0;
    while k < headers.len()
        invariant
            k <= headers@.len(),
            pairs == header_pairs(headers@),
            header_count(builder) <= k,
            is_good(builder) ==> is_valid_head(status, pairs.take(k as int)),
            is_valid_head(status, pairs.take(k as int)) && k <= SURE_HEADERS ==> is_good(builder),
        decreases headers@.len() - k,
    {
        builder = add_header(builder, headers[k].name.as_str(), headers[k].value.as_str());
        proof {
            let fewer = pairs.take(k as int);
            let more = pairs.take(k + 1);
            assert(more =~= fewer.push(pairs[k as int]));
            if is_valid_head(status, more) {
                assert(more[k as int] == pairs[k as int]);
                assert forall|i: int| 0 <= i < fewer.len() implies is_header(
                    (#[trigger] fewer[i]).0,
                    fewer[i].1,
                ) by {
                    assert(fewer[i] == more[i]);
                }
            }
        }
        k = k + 1;
    }
    assert(pairs.take(k as int) =~= pairs);
    end_head(builder)
}

} // verus!
