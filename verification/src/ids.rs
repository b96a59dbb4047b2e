//! Identifiers: UUIDs, held as the number that their 128 bits stand for.
use vstd::prelude::*;

verus! {

// ── hexadecimal digits ──────────────────────────────────────────────────────
/// The lower-case hexadecimal digit for a number below sixteen.
pub open spec fn hex_char(d: nat) -> char {
    if d < 10 {
        ('0' as nat + d) as char
    } else {
        ('a' as nat + d - 10) as char
    }
}

/// The last hexadecimal digits of a number, as many as asked for.
pub open spec fn hex_of(n: nat, digits: nat) -> Seq<char>
    decreases digits,
{
    if digits == 0 {
        Seq::empty()
    } else {
        hex_of(n / 16, (digits - 1) as nat).push(hex_char(n % 16))
    }
}

/// The number that a hexadecimal digit of either case stands for.
pub open spec fn hex_value(c: char) -> Option<nat> {
    if '0' <= c <= '9' {
        Some((c as nat - '0' as nat) as nat)
    } else if 'a' <= c <= 'f' {
        Some((c as nat - 'a' as nat + 10) as nat)
    } else if 'A' <= c <= 'F' {
        Some((c as nat - 'A' as nat + 10) as nat)
    } else {
        None
    }
}

/// Whether a text has hexadecimal digits only.
pub open spec fn all_hex(s: Seq<char>) -> bool {
    forall|i: int| 0 <= i < s.len() ==> hex_value(#[trigger] s[i]) is Some
}

/// The number that hexadecimal digits stand for.
pub open spec fn hex_number(s: Seq<char>) -> nat
    decreases s.len(),
{
    if s.len() == 0 {
        0
    } else {
        hex_number(s.drop_last()) * 16 + hex_value(s.last())->0
    }
}

// ── texts of an identifier ──────────────────────────────────────────────────
/// An identifier as 32 digits.
pub open spec fn simple_of(id: u128) -> Seq<char> {
    hex_of(id as nat, 32)
}

/// An identifier as 32 digits in five groups with hyphens between them.
pub open spec fn hyphenated_of(id: u128) -> Seq<char> {
    let all = simple_of(id);
    all.subrange(0, 8) + seq!['-'] + all.subrange(8, 12) + seq!['-'] + all.subrange(12, 16) + seq![
        '-',
    ] + all.subrange(16, 20) + seq!['-'] + all.subrange(20, 32)
}

/// The 32 characters of a hyphenated text that are not its hyphens.
pub open spec fn without_hyphens(s: Seq<char>) -> Option<Seq<char>> {
    if s.len() == 36 && s[8] == '-' && s[13] == '-' && s[18] == '-' && s[23] == '-' {
        Some(
            s.subrange(0, 8) + s.subrange(9, 13) + s.subrange(14, 18) + s.subrange(19, 23)
                + s.subrange(24, 36),
        )
    } else {
        None
    }
}

/// Whether a character is a given one, letters being taken in either case.
pub open spec fn same_letter(c: char, lower: char) -> bool {
    c == lower || 'a' <= lower <= 'z' && c as nat + 32 == lower as nat
}

/// Whether a text starts like the URN of a UUID.
pub open spec fn has_urn_prefix(s: Seq<char>) -> bool {
    let prefix = seq!['u', 'r', 'n', ':', 'u', 'u', 'i', 'd', ':'];
    s.len() >= 9 && forall|i: int| 0 <= i < 9 ==> same_letter(#[trigger] s[i], prefix[i])
}

/// The characters of a text that are to be the digits of an identifier: all 32, or
/// those of a hyphenated text, which may stand in braces or be a URN.
pub open spec fn digits_of(s: Seq<char>) -> Option<Seq<char>> {
    if s.len() == 32 {
        Some(s)
    } else if s.len() == 36 {
        without_hyphens(s)
    } else if s.len() == 38 && s[0] == '{' && s[37] == '}' {
        without_hyphens(s.subrange(1, 37))
    } else if s.len() == 45 && has_urn_prefix(s) {
        without_hyphens(s.subrange(9, 45))
    } else {
        None
    }
}

/// The identifier that a text stands for.
pub open spec fn id_of(s: Seq<char>) -> Option<u128> {
    match digits_of(s) {
        Some(digits) => if all_hex(digits) {
            Some(hex_number(digits) as u128)
        } else {
            None
        },
        None => None,
    }
}

/// `Uuid::new_v4` draws an identifier at random. Four bits of it say that its
/// version is 4 and two that its variant is the one of RFC 4122; the others are
/// left open.
#[verifier::external_body]
pub(crate) fn random_id() -> (id: u128)
    ensures
        (id >> 76u128) & 0xf == 4,
        (id >> 62u128) & 0x3 == 2,
{
    uuid::Uuid::new_v4().as_u128()
}

/// `Simple` formats an identifier as 32 lower-case hexadecimal digits, the most
/// significant one first.
#[verifier::external_body]
pub(crate) fn simple_text(id: u128) -> (text: String)
    ensures
        text@ == simple_of(id),
{
    uuid::Uuid::from_u128(id).simple().to_string()
}

/// `Display` of `Uuid` formats an identifier as lower-case hexadecimal digits in
/// groups of eight, four, four, four and twelve with hyphens between them.
#[verifier::external_body]
pub(crate) fn hyphenated_text(id: u128) -> (text: String)
    ensures
        text@ == hyphenated_of(id),
{
    uuid::Uuid::from_u128(id).to_string()
}

/// `Uuid::parse_str` reads an identifier from 32 hexadecimal digits of either case,
/// or from a hyphenated text, which may stand in braces or after `urn:uuid:`. It
/// takes no other text.
#[verifier::external_body]
pub(crate) fn parse_id(text: &str) -> (id: Option<u128>)
    ensures
        id == id_of(text@),
{
    uuid::Uuid::parse_str(text).ok().map(|id| id.as_u128())
}

// ── laws ────────────────────────────────────────────────────────────────────
spec fn power16(k: nat) -> nat
    decreases k,
{
    if k == 0 {
        1
    } else {
        16 * power16((k - 1) as nat)
    }
}

proof fn lemma_hex(n: nat, k: nat)
    requires
        n < power16(k),
    ensures
        hex_of(n, k).len() == k,
        all_hex(hex_of(n, k)),
        hex_number(hex_of(n, k)) == n,
        !hex_of(n, k).contains('-'),
    decreases k,
{
    if k > 0 {
        let fewer = (k - 1) as nat;
        assert(n / 16 < power16(fewer));
        lemma_hex(n / 16, fewer);
        let s = hex_of(n, k);
        assert(s.drop_last() =~= hex_of(n / 16, fewer));
        assert(s.last() == hex_char(n % 16));
        assert(hex_value(hex_char(n % 16)) == Some(n % 16));
        assert(n == n / 16 * 16 + n % 16);
        assert forall|i: int| 0 <= i < s.len() implies hex_value(#[trigger] s[i]) is Some && s[i]
            != '-' by {
            if i < fewer {
                assert(s[i] == hex_of(n / 16, fewer)[i]);
                assert(hex_of(n / 16, fewer).contains(s[i]));
            }
        }
    }
}

proof fn lemma_simple(id: u128)
    ensures
        simple_of(id).len() == 32,
        all_hex(simple_of(id)),
        hex_number(simple_of(id)) == id,
        !simple_of(id).contains('-'),
{
    assert(power16(8) == 0x1_0000_0000) by {
        reveal_with_fuel(power16, 9);
    }
    assert(power16(16) == 0x1_0000_0000_0000_0000) by {
        reveal_with_fuel(power16, 9);
    }
    assert(power16(24) == 0x1_0000_0000_0000_0000_0000_0000) by {
        reveal_with_fuel(power16, 9);
    }
    assert(power16(32) == 0x1_0000_0000_0000_0000_0000_0000_0000_0000) by {
        reveal_with_fuel(power16, 9);
    }
    lemma_hex(id as nat, 32);
}

/// Both texts of an identifier stand for it.
pub proof fn texts_read_back(id: u128)
    ensures
        id_of(simple_of(id)) == Some(id),
        id_of(hyphenated_of(id)) == Some(id),
{
    lemma_simple(id);
    let s = hyphenated_of(id);
    assert(without_hyphens(s) is Some);
    assert(without_hyphens(s)->0 =~= simple_of(id));
}

/// The text of 32 digits has no hyphen, and no other identifier has the same text.
pub proof fn simple_text_is_unique(a: u128, b: u128)
    ensures
        !simple_of(a).contains('-'),
        simple_of(a) == simple_of(b) ==> a == b,
{
    lemma_simple(a);
    lemma_simple(b);
}

} // verus!
