//! Texts: trimming, splitting, lines, decimal digits and identifiers.
use crate::ids;
use crate::text;
use vstd::prelude::*;

verus! {

/// White space is what Unicode calls so.
pub proof fn white_space_is_what_unicode_says(c: char)
    ensures
        text::white_space(c) <==> (c == ' ' || c == '\t' || c == '\n' || c == '\r' || c as u32
            == 0x0b || c as u32 == 0x0c || c as u32 == 0x85 || c as u32 == 0xa0 || c as u32
            == 0x1680 || (0x2000 <= c as u32 && c as u32 <= 0x200a) || c as u32 == 0x2028
            || c as u32 == 0x2029 || c as u32 == 0x202f || c as u32 == 0x205f || c as u32 == 0x3000),
{
}

/// What is left of a text without the white space at its start is an end of it: all that
/// was cut off is white space, and what is left does not start with any.
pub proof fn cut_at_the_start(s: Seq<char>) -> (from: int)
    ensures
        0 <= from <= s.len(),
        text::trimmed_start(s) == s.skip(from),
        forall|i: int| 0 <= i < from ==> text::white_space(#[trigger] s[i]),
        from < s.len() ==> !text::white_space(s[from]),
    decreases s.len(),
{
    if s.len() > 0 && text::white_space(s[0]) {
        let rest = s.drop_first();
        let k = cut_at_the_start(rest);
        assert(rest.skip(k) =~= s.skip(k + 1));
        assert forall|i: int| 0 <= i < k + 1 implies text::white_space(#[trigger] s[i]) by {
            if i > 0 {
                assert(text::white_space(rest[i - 1]));
            }
        }
        k + 1
    } else {
        assert(s.skip(0) =~= s);
        0
    }
}

proof fn lemma_cut_at_the_end(s: Seq<char>) -> (to: int)
    ensures
        0 <= to <= s.len(),
        text::trimmed_end(s) == s.take(to),
        forall|i: int| to <= i < s.len() ==> text::white_space(#[trigger] s[i]),
        to > 0 ==> !text::white_space(s[to - 1]),
    decreases s.len(),
{
    if s.len() > 0 && text::white_space(s.last()) {
        let rest = s.drop_last();
        let k = lemma_cut_at_the_end(rest);
        assert(rest.take(k) =~= s.take(k));
        assert forall|i: int| k <= i < s.len() implies text::white_space(#[trigger] s[i]) by {
            if i < rest.len() {
                assert(text::white_space(rest[i]));
            }
        }
        k
    } else {
        assert(s.take(s.len() as int) =~= s);
        s.len() as int
    }
}

/// A trimmed text is a part of the text: all that was cut off at either end is white
/// space, and what is left neither starts nor ends with any.
pub proof fn cut_at_both_ends(s: Seq<char>) -> (cut: (int, int))
    ensures
        0 <= cut.0 <= cut.1 <= s.len(),
        text::trimmed(s) == s.subrange(cut.0, cut.1),
        forall|i: int| 0 <= i < cut.0 ==> text::white_space(#[trigger] s[i]),
        forall|i: int| cut.1 <= i < s.len() ==> text::white_space(#[trigger] s[i]),
        cut.0 < cut.1 ==> !text::white_space(s[cut.0]) && !text::white_space(s[cut.1 - 1]),
{
    let from = cut_at_the_start(s);
    let front = s.skip(from);
    let k = lemma_cut_at_the_end(front);
    assert(front.take(k) =~= s.subrange(from, from + k));
    assert forall|i: int| from + k <= i < s.len() implies text::white_space(#[trigger] s[i]) by {
        assert(text::white_space(front[i - from]));
    }
    if k > 0 {
        assert(front[k - 1] == s[from + k - 1]);
        assert(front[0] == s[from]);
    }
    (from, from + k)
}

/// A part that stands in a text is found there.
pub proof fn parts_are_found(before: Seq<char>, part: Seq<char>, after: Seq<char>)
    ensures
        text::has_part(before + part + after, part),
{
    let s = before + part + after;
    assert(s.subrange(before.len() as int, (before.len() + part.len()) as int) =~= part);
    assert(text::has_at(s, part, before.len() as int));
}

/// A part that is found in a text stands there.
pub proof fn found_parts_are_there(s: Seq<char>, part: Seq<char>) -> (at: int)
    requires
        text::has_part(s, part),
    ensures
        0 <= at <= s.len() - part.len(),
        s == s.take(at) + part + s.skip(at + part.len()),
{
    let at = choose|at: int| text::has_at(s, part, at);
    assert(s =~= s.take(at) + part + s.skip(at + part.len()));
    at
}

/// A text is split at the last place of a character: the two parts and the character
/// make the text, and the second part does not have the character.
pub proof fn split_at_the_last_place(s: Seq<char>, c: char)
    ensures
        match text::split_at_last(s, c) {
            Some((before, after)) => s == before + seq![c] + after && !after.contains(c),
            None => !s.contains(c),
        },
    decreases s.len(),
{
    if s.len() > 0 {
        if s.last() == c {
            assert(s =~= s.take(s.len() - 1) + seq![c] + s.skip(s.len() as int));
        } else {
            let rest = s.drop_last();
            split_at_the_last_place(rest, c);
            let at = text::last_at(rest, c);
            lemma_last_at(rest, c);
            if at >= 0 {
                assert(s.take(at) =~= rest.take(at));
                assert(s.skip(at + 1) =~= rest.skip(at + 1).push(s.last()));
                assert(s =~= rest.push(s.last()));
                assert(s =~= s.take(at) + seq![c] + s.skip(at + 1));
                let after = s.skip(at + 1);
                assert forall|i: int| 0 <= i < after.len() implies after[i] != c by {
                    if i < after.len() - 1 {
                        assert(rest.skip(at + 1)[i] == after[i]);
                        assert(rest.skip(at + 1).contains(after[i]));
                    }
                }
            } else {
                assert forall|i: int| 0 <= i < s.len() implies s[i] != c by {
                    if i < rest.len() {
                        assert(rest[i] == s[i]);
                        assert(rest.contains(s[i]));
                    }
                }
            }
        }
    }
}

proof fn lemma_last_at(s: Seq<char>, c: char)
    ensures
        -1 <= text::last_at(s, c) < s.len(),
    decreases s.len(),
{
    if s.len() > 0 && s.last() != c {
        lemma_last_at(s.drop_last(), c);
    }
}

/// A text with one place of a character, and none after it, is split there.
pub proof fn split_finds_the_place(before: Seq<char>, c: char, after: Seq<char>)
    requires
        !after.contains(c),
    ensures
        text::split_at_last(before + seq![c] + after, c) == Some((before, after)),
    decreases after.len(),
{
    let s = before + seq![c] + after;
    lemma_place(before, c, after);
    assert(s.take(before.len() as int) =~= before);
    assert(s.skip(before.len() as int + 1) =~= after);
}

proof fn lemma_place(before: Seq<char>, c: char, after: Seq<char>)
    requires
        !after.contains(c),
    ensures
        text::last_at(before + seq![c] + after, c) == before.len(),
    decreases after.len(),
{
    let s = before + seq![c] + after;
    if after.len() > 0 {
        assert(after.contains(after.last()));
        let fewer = after.drop_last();
        assert forall|i: int| 0 <= i < fewer.len() implies fewer[i] != c by {
            assert(after.contains(after[i]));
        }
        lemma_place(before, c, fewer);
        assert(s.drop_last() =~= before + seq![c] + fewer);
    }
}

/// A text starts with a line that ends at its first line feed, without a carriage return
/// before it, and goes on behind it.
pub proof fn lines_end_at_line_feeds(line: Seq<char>, rest: Seq<char>)
    requires
        !line.contains('\n'),
    ensures
        text::lines_of(Seq::empty()) == Seq::<Seq<char>>::empty(),
        line.len() > 0 ==> text::lines_of(line) == seq![line],
        line.len() == 0 || line.last() != '\r' ==> text::lines_of(line + seq!['\n'] + rest) == seq![
            line,
        ] + text::lines_of(rest),
        text::lines_of(line + seq!['\r', '\n'] + rest) == seq![line] + text::lines_of(rest),
{
    lemma_first_line(line, Seq::empty());
    assert(line + Seq::<char>::empty() =~= line);
    let plain = line + seq!['\n'] + rest;
    lemma_first_line(line, seq!['\n'] + rest);
    assert(plain =~= line + (seq!['\n'] + rest));
    assert(plain.take(line.len() as int) =~= line);
    assert(plain.skip(line.len() as int + 1) =~= rest);
    let longer = line.push('\r');
    let returned = line + seq!['\r', '\n'] + rest;
    assert forall|i: int| 0 <= i < longer.len() implies longer[i] != '\n' by {
        if i < line.len() {
            assert(line.contains(line[i]));
        }
    }
    lemma_first_line(longer, seq!['\n'] + rest);
    assert(returned =~= longer + (seq!['\n'] + rest));
    assert(returned.take(longer.len() as int) =~= longer);
    assert(returned.skip(longer.len() as int + 1) =~= rest);
    assert(longer.drop_last() =~= line);
}

proof fn lemma_first_line(line: Seq<char>, rest: Seq<char>)
    requires
        !line.contains('\n'),
        rest.len() > 0 ==> rest[0] == '\n',
    ensures
        text::first_line_len(line + rest) == line.len(),
    decreases line.len(),
{
    let s = line + rest;
    if line.len() > 0 {
        assert(line.contains(line[0]));
        let fewer = line.drop_first();
        assert forall|i: int| 0 <= i < fewer.len() implies fewer[i] != '\n' by {
            assert(line.contains(line[i + 1]));
        }
        lemma_first_line(fewer, rest);
        assert(s.drop_first() =~= fewer + rest);
    } else {
        assert(s =~= rest);
    }
}

/// Parts are joined in their order, with the separator between each two and nowhere else.
pub proof fn joining_keeps_the_parts(part: Seq<char>, more: Seq<Seq<char>>, separator: Seq<char>)
    ensures
        text::joined(Seq::empty(), separator) == Seq::<char>::empty(),
        text::joined(seq![part], separator) == part,
        more.len() > 0 ==> text::joined(seq![part] + more, separator) == part + separator
            + text::joined(more, separator),
{
    assert((seq![part] + more).drop_first() =~= more);
}

/// A number below ten is its digit, and another one is the digits of its tens with the
/// last digit behind them.
pub proof fn digits_stand_for_the_number(n: nat, d: nat)
    requires
        d < 10,
    ensures
        text::decimal(d) == seq![('0' as u32 + d) as char],
        n > 0 ==> text::decimal(10 * n + d) == text::decimal(n).push(('0' as u32 + d) as char),
{
    assert((10 * n + d) / 10 == n);
    assert((10 * n + d) % 10 == d);
}

/// The digits of a number have no colon and no blank among them.
pub proof fn digits_are_digits(n: nat)
    ensures
        forall|i: int|
            0 <= i < text::decimal(n).len() ==> 48 <= (#[trigger] text::decimal(n)[i]) as u32 <= 57,
        !text::decimal(n).contains(':'),
{
    text::lemma_decimal(n);
    assert forall|i: int| 0 <= i < text::decimal(n).len() implies 48 <= (
    #[trigger] text::decimal(n)[i]) as u32 <= 57 by {
        assert(text::is_digit(text::decimal(n)[i]));
    }
}

/// A number of 32 bits is read from its digits, with or without a plus sign before them,
/// and from nothing else.
pub proof fn numbers_are_read_from_digits(s: Seq<char>, n: u32)
    ensures
        text::u32_of(text::decimal(n as nat)) == Some(n),
        text::u32_of(seq!['+'] + text::decimal(n as nat)) == Some(n),
        text::u32_of(s) is Some ==> s.len() > 0 && forall|i: int|
            0 < i < s.len() ==> 48 <= (#[trigger] s[i]) as u32 <= 57,
        text::u32_of(s) is Some && 48 <= s[0] as u32 <= 57 ==> text::u32_of(s)->0 == value_of(s),
{
    text::lemma_decimal(n as nat);
    let signed = seq!['+'] + text::decimal(n as nat);
    assert(signed.drop_first() =~= text::decimal(n as nat));
    if text::u32_of(s) is Some {
        let digits = text::without_plus(s);
        assert forall|i: int| 0 < i < s.len() implies 48 <= (#[trigger] s[i]) as u32 <= 57 by {
            if s[0] == '+' {
                assert(text::is_digit(digits[i - 1]));
            } else {
                assert(text::is_digit(digits[i]));
            }
        }
        if 48 <= s[0] as u32 <= 57 {
            assert(text::is_digit(digits[0]));
            lemma_value(s);
        }
    }
}

/// Digits alone are read as the number that they stand for, where 32 bits can hold it.
pub proof fn digits_are_read(s: Seq<char>)
    requires
        s.len() > 0,
        forall|i: int| 0 <= i < s.len() ==> 48 <= (#[trigger] s[i]) as u32 <= 57,
        value_of(s) <= u32::MAX,
    ensures
        text::u32_of(s) == Some(value_of(s) as u32),
{
    assert forall|i: int| 0 <= i < s.len() implies text::is_digit(#[trigger] s[i]) by {}
    lemma_value(s);
}

/// A plus sign before digits changes nothing, and a number that 32 bits cannot hold is not
/// read.
pub proof fn large_numbers_are_not_read(s: Seq<char>)
    requires
        s.len() > 0,
        forall|i: int| 0 <= i < s.len() ==> 48 <= (#[trigger] s[i]) as u32 <= 57,
    ensures
        text::u32_of(seq!['+'] + s) == text::u32_of(s),
        value_of(s) > u32::MAX ==> text::u32_of(s) is None,
        text::u32_of(Seq::empty()) is None,
        text::u32_of(seq!['-'] + s) is None,
{
    assert((seq!['+'] + s).drop_first() =~= s);
    assert forall|i: int| 0 <= i < s.len() implies text::is_digit(#[trigger] s[i]) by {}
    lemma_value(s);
    let below = seq!['-'] + s;
    assert(below[0] == '-');
    assert(!text::is_digit(below[0]));
}

/// The number that decimal digits stand for.
pub open spec fn value_of(digits: Seq<char>) -> int
    decreases digits.len(),
{
    if digits.len() == 0 {
        0
    } else {
        10 * value_of(digits.drop_last()) + (digits.last() as u32 - 48)
    }
}

proof fn lemma_value(s: Seq<char>)
    requires
        text::all_digits(s),
    ensures
        value_of(s) == text::number_of(s),
    decreases s.len(),
{
    if s.len() > 0 {
        assert forall|i: int| 0 <= i < s.drop_last().len() implies text::is_digit(
            #[trigger] s.drop_last()[i],
        ) by {
            assert(text::is_digit(s[i]));
        }
        assert(text::is_digit(s[s.len() - 1]));
        lemma_value(s.drop_last());
    }
}

// ── identifiers ─────────────────────────────────────────────────────────────
/// The short text of an identifier is 32 lower-case hexadecimal digits. Its long text is
/// the same digits with hyphens after 8, 12, 16 and 20 of them.
pub proof fn identifiers_have_32_digits(id: u128, i: int)
    requires
        0 <= i < 32,
    ensures
        ({
            let short = ids::simple_of(id);
            let long = ids::hyphenated_of(id);
            let c = short[i] as u32;
            &&& short.len() == 32
            &&& 48 <= c <= 57 || 97 <= c <= 102
            &&& long.len() == 36
            &&& long[8] == '-' && long[13] == '-' && long[18] == '-' && long[23] == '-'
            &&& i < 8 ==> long[i] == short[i]
            &&& 8 <= i < 12 ==> long[i + 1] == short[i]
            &&& 12 <= i < 16 ==> long[i + 2] == short[i]
            &&& 16 <= i < 20 ==> long[i + 3] == short[i]
            &&& 20 <= i ==> long[i + 4] == short[i]
        }),
{
    lemma_digits(id as nat, 32, i);
}

proof fn lemma_digits(n: nat, k: nat, i: int)
    ensures
        ids::hex_of(n, k).len() == k,
        0 <= i < k ==> 48 <= ids::hex_of(n, k)[i] as u32 <= 57 || 97 <= ids::hex_of(n, k)[i] as u32
            <= 102,
    decreases k,
{
    if k > 0 {
        lemma_digits(n / 16, (k - 1) as nat, i);
    }
}

// ── calls ───────────────────────────────────────────────────────────────────
/// Texts are compared, cut, searched, split and joined as it is stated.
pub proof fn texts_are_handled_as_stated(
    a: &str,
    b: &str,
    same: bool,
    begins: bool,
    holds: bool,
    bare: String,
    left: String,
    c: char,
    parts: Option<(String, String)>,
    n: u64,
    digits: String,
    number: Option<u32>,
)
    requires
        call_ensures(text::same_text, (a, b), same),
        call_ensures(text::starts_with, (a, b), begins),
        call_ensures(text::contains, (a, b), holds),
        call_ensures(text::trim, (a,), bare),
        call_ensures(text::trim_start, (a,), left),
        call_ensures(text::rsplit_once, (a, c), parts),
        call_ensures(text::decimal_text, (n,), digits),
        call_ensures(text::parse_u32, (a,), number),
    ensures
        same <==> a@ == b@,
        begins <==> b@.is_prefix_of(a@),
        holds <==> text::has_part(a@, b@),
        bare@ == text::trimmed(a@),
        left@ == text::trimmed_start(a@),
        parts matches Some((before, after)) ==> a@ == before@ + seq![c] + after@
            && !after@.contains(c),
        parts is None <==> !a@.contains(c),
        digits@ == text::decimal(n as nat),
        number == text::u32_of(a@),
{
    split_at_the_last_place(a@, c);
    if let Some((before, after)) = parts {
        assert(a@[before@.len() as int] == c);
        assert(a@.contains(a@[before@.len() as int]));
    }
}

} // verus!
