//! Text as a sequence of characters: trimming, lines, joining, searching and
//! decimal numbers.
use vstd::prelude::*;

verus! {

/// `String::push` appends one character to the text.
pub assume_specification[ String::push ](s: &mut String, c: char)
    ensures
        final(s)@ == old(s)@.push(c),
;

/// The texts that a list of strings holds.
pub open spec fn texts(list: Seq<String>) -> Seq<Seq<char>> {
    Seq::new(list.len(), |i: int| list[i]@)
}

/// The text that a string holds, where there is one.
pub open spec fn maybe(s: Option<String>) -> Option<Seq<char>> {
    match s {
        Some(t) => Some(t@),
        None => None,
    }
}

/// The characters of a text, one by one.
pub fn chars_of(s: &str) -> (chars: Vec<char>)
    ensures
        chars@ == s@,
{
    let mut chars: Vec<char> = Vec::new();
    for c in it: s.chars()
        invariant
            chars@ == s@.take(it.index() as int),
            it.seq() == s@,
    {
        chars.push(c);
        assert(s@.take(it.index() + 1) =~= s@.take(it.index() as int).push(c));
    }
    assert(s@.take(s@.len() as int) =~= s@);
    chars
}

/// The text between two positions of a list of characters.
pub fn slice_text(chars: &Vec<char>, from: usize, to: usize) -> (text: String)
    requires
        from <= to <= chars@.len(),
    ensures
        text@ == chars@.subrange(from as int, to as int),
{
    let mut text = String::new();
    let mut i: usize = from;
    while i < to
        invariant
            from <= i <= to <= chars@.len(),
            text@ == chars@.subrange(from as int, i as int),
        decreases to - i,
    {
        text.push(chars[i]);
        i = i + 1;
        assert(chars@.subrange(from as int, i as int) =~= chars@.subrange(
            from as int,
            i - 1,
        ).push(chars@[i - 1]));
    }
    text
}

/// Whether two texts hold the same characters.
pub fn same_text(a: &str, b: &str) -> (same: bool)
    ensures
        same == (a@ == b@),
{
    let a = a.to_owned();
    let b = b.to_owned();
    a == b
}

// ── white space ─────────────────────────────────────────────────────────────
/// The characters with the Unicode property `White_Space`.
pub open spec fn white_space(c: char) -> bool {
    let n = c as u32;
    ||| 0x9 <= n <= 0xd
    ||| n == 0x20
    ||| n == 0x85
    ||| n == 0xa0
    ||| n == 0x1680
    ||| 0x2000 <= n <= 0x200a
    ||| n == 0x2028
    ||| n == 0x2029
    ||| n == 0x202f
    ||| n == 0x205f
    ||| n == 0x3000
}

/// Whether a character has the Unicode property `White_Space`.
pub fn is_white_space(c: char) -> (white: bool)
    ensures
        white == white_space(c),
{
    let n: u32 = c as u32;
    (0x9 <= n && n <= 0xd) || n == 0x20 || n == 0x85 || n == 0xa0 || n == 0x1680 || (0x2000 <= n
        && n <= 0x200a) || n == 0x2028 || n == 0x2029 || n == 0x202f || n == 0x205f || n == 0x3000
}

/// A text without the white space at its start.
pub open spec fn trimmed_start(s: Seq<char>) -> Seq<char>
    decreases s.len(),
{
    if s.len() > 0 && white_space(s[0]) {
        trimmed_start(s.drop_first())
    } else {
        s
    }
}

/// A text without the white space at its end.
pub open spec fn trimmed_end(s: Seq<char>) -> Seq<char>
    decreases s.len(),
{
    if s.len() > 0 && white_space(s.last()) {
        trimmed_end(s.drop_last())
    } else {
        s
    }
}

/// A text without the white space at either end.
pub open spec fn trimmed(s: Seq<char>) -> Seq<char> {
    trimmed_end(trimmed_start(s))
}

/// Removes the white space at the start of a text.
pub fn trim_start(s: &str) -> (text: String)
    ensures
        text@ == trimmed_start(s@),
{
    let chars = chars_of(s);
    let n: usize = chars.len();
    let mut from: usize = 0;
    assert(s@.skip(0) =~= s@);
    while from < n && is_white_space(chars[from])
        invariant
            chars@ == s@,
            from <= n == chars@.len(),
            trimmed_start(s@) == trimmed_start(s@.skip(from as int)),
        decreases n - from,
    {
        assert(s@.skip(from as int).drop_first() =~= s@.skip(from + 1));
        from = from + 1;
    }
    assert(trimmed_start(s@) == s@.skip(from as int));
    assert(s@.skip(from as int) =~= s@.subrange(from as int, n as int));
    slice_text(&chars, from, n)
}

/// Removes the white space at both ends of a text.
pub fn trim(s: &str) -> (text: String)
    ensures
        text@ == trimmed(s@),
{
    let front = trim_start(s);
    let chars = chars_of(front.as_str());
    let mut to: usize = chars.len();
    assert(front@.take(to as int) =~= front@);
    while to > 0 && is_white_space(chars[to - 1])
        invariant
            chars@ == front@,
            to <= chars@.len(),
            trimmed_end(front@) == trimmed_end(front@.take(to as int)),
        decreases to,
    {
        assert(front@.take(to as int).drop_last() =~= front@.take(to - 1));
        to = to - 1;
    }
    assert(front@.take(to as int) =~= front@.subrange(0, to as int));
    slice_text(&chars, 0, to)
}

// ── prefixes and parts ──────────────────────────────────────────────────────
/// Whether one text starts with another.
pub fn starts_with(s: &str, prefix: &str) -> (r: bool)
    ensures
        r == prefix@.is_prefix_of(s@),
{
    let chars = chars_of(s);
    let start = chars_of(prefix);
    if start.len() > chars.len() {
        return false;
    }
    let mut i: usize = 0;
    while i < start.len()
        invariant
            chars@ == s@,
            start@ == prefix@,
            i <= start@.len() <= chars@.len(),
            forall|j: int| 0 <= j < i ==> start@[j] == chars@[j],
        decreases start@.len() - i,
    {
        if start[i] != chars[i] {
            assert(s@.take(start@.len() as int)[i as int] != prefix@[i as int]);
            return false;
        }
        i = i + 1;
    }
    assert(prefix@ =~= s@.take(prefix@.len() as int));
    true
}

/// Whether a text holds another one at a position.
pub open spec fn has_at(s: Seq<char>, part: Seq<char>, at: int) -> bool {
    &&& 0 <= at
    &&& at + part.len() <= s.len()
    &&& s.subrange(at, at + part.len()) == part
}

/// Whether a text holds another one somewhere.
pub open spec fn has_part(s: Seq<char>, part: Seq<char>) -> bool {
    exists|at: int| has_at(s, part, at)
}

/// Whether a text holds another one somewhere.
pub fn contains(s: &str, part: &str) -> (r: bool)
    ensures
        r == has_part(s@, part@),
{
    let chars = chars_of(s);
    let wanted = chars_of(part);
    let total: usize = chars.len();
    if wanted.len() > total {
        return false;
    }
    let mut at: usize = 0;
    while at <= total - wanted.len()
        invariant
            chars@ == s@,
            wanted@ == part@,
            wanted@.len() <= total == chars@.len(),
            at <= chars@.len() - wanted@.len() + 1,
            forall|k: int| 0 <= k < at ==> !has_at(s@, part@, k),
        decreases chars@.len() - wanted@.len() + 1 - at,
    {
        let mut i: usize = 0;
        while i < wanted.len() && wanted[i] == chars[at + i]
            invariant
                i <= wanted@.len(),
                at + wanted@.len() <= total == chars@.len(),
                forall|j: int| 0 <= j < i ==> wanted@[j] == chars@[at + j],
            decreases wanted@.len() - i,
        {
            i = i + 1;
        }
        if i == wanted.len() {
            assert(s@.subrange(at as int, at + part@.len()) =~= part@);
            assert(has_at(s@, part@, at as int));
            return true;
        }
        assert(s@.subrange(at as int, at + part@.len())[i as int] != part@[i as int]);
        if at == total - wanted.len() {
            assert forall|k: int| !has_at(s@, part@, k) by {
                if has_at(s@, part@, k) && k >= at {
                    assert(k == at);
                }
            }
            return false;
        }
        at = at + 1;
    }
    false
}

/// The last position of a character in a text, or -1 where it has none.
pub open spec fn last_at(s: Seq<char>, c: char) -> int
    decreases s.len(),
{
    if s.len() == 0 {
        -1
    } else if s.last() == c {
        s.len() - 1
    } else {
        last_at(s.drop_last(), c)
    }
}

/// What stands before and after the last place where a character occurs.
pub open spec fn split_at_last(s: Seq<char>, c: char) -> Option<(Seq<char>, Seq<char>)> {
    let at = last_at(s, c);
    if at >= 0 {
        Some((s.take(at), s.skip(at + 1)))
    } else {
        None
    }
}

/// Splits a text at the last place where a character occurs.
pub fn rsplit_once(s: &str, c: char) -> (parts: Option<(String, String)>)
    ensures
        match parts {
            Some((before, after)) => split_at_last(s@, c) == Some((before@, after@)),
            None => split_at_last(s@, c) is None,
        },
{
    let chars = chars_of(s);
    let n: usize = chars.len();
    let mut i: usize = n;
    assert(s@.take(n as int) =~= s@);
    while i > 0
        invariant
            chars@ == s@,
            i <= n == chars@.len(),
            last_at(s@, c) == last_at(s@.take(i as int), c),
        decreases i,
    {
        assert(s@.take(i as int).drop_last() =~= s@.take(i - 1));
        i = i - 1;
        if chars[i] == c {
            let before = slice_text(&chars, 0, i);
            let after = slice_text(&chars, i + 1, n);
            assert(before@ =~= s@.take(i as int));
            assert(after@ =~= s@.skip(i + 1));
            return Some((before, after));
        }
    }
    None
}

// ── lines ───────────────────────────────────────────────────────────────────
/// A line without the carriage return that may end it.
pub open spec fn without_return(line: Seq<char>) -> Seq<char> {
    if line.len() > 0 && line.last() == '\r' {
        line.drop_last()
    } else {
        line
    }
}

/// How many characters stand before the first line feed, or in all where there
/// is none.
pub open spec fn first_line_len(s: Seq<char>) -> nat
    decreases s.len(),
{
    if s.len() == 0 || s[0] == '\n' {
        0
    } else {
        1 + first_line_len(s.drop_first())
    }
}

/// The lines of a text. A line ends with a line feed, which a carriage return may
/// precede; neither belongs to the line. The last line may have no end.
pub open spec fn lines_of(s: Seq<char>) -> Seq<Seq<char>>
    decreases s.len(),
{
    let n = first_line_len(s) as int;
    if s.len() == 0 {
        Seq::empty()
    } else if n < s.len() {
        seq![without_return(s.take(n))] + lines_of(s.skip(n + 1))
    } else {
        seq![s]
    }
}

/// The first line ends at the first line feed.
pub proof fn lemma_first_line(s: Seq<char>, n: int)
    requires
        0 <= n <= s.len(),
        forall|i: int| 0 <= i < n ==> s[i] != '\n',
        n < s.len() ==> s[n] == '\n',
    ensures
        first_line_len(s) == n,
    decreases n,
{
    if n > 0 {
        lemma_first_line(s.drop_first(), n - 1);
    }
}

/// Splits a text into its lines.
pub fn lines(s: &str) -> (list: Vec<String>)
    ensures
        texts(list@) == lines_of(s@),
{
    let chars = chars_of(s);
    let n: usize = chars.len();
    let mut list: Vec<String> = Vec::new();
    let mut start: usize = 0;
    let mut i: usize = 0;
    proof {
        assert(s@.skip(0) =~= s@);
        assert(texts(list@) + lines_of(s@) =~= lines_of(s@));
    }
    while i < n
        invariant
            chars@ == s@,
            start <= i <= n == chars@.len(),
            forall|j: int| start <= j < i ==> chars@[j] != '\n',
            texts(list@) + lines_of(s@.skip(start as int)) == lines_of(s@),
        decreases n - i,
    {
        if chars[i] == '\n' {
            let ghost rest = s@.skip(start as int);
            let ghost before = texts(list@);
            proof {
                lemma_first_line(rest, i - start);
                assert(rest.take(i - start) =~= s@.subrange(start as int, i as int));
                assert(rest.skip(i - start + 1) =~= s@.skip(i + 1));
            }
            let mut end: usize = i;
            if i > start && chars[i - 1] == '\r' {
                end = i - 1;
            }
            let line = slice_text(&chars, start, end);
            assert(line@ =~= without_return(rest.take(i - start)));
            list.push(line);
            start = i + 1;
            assert(texts(list@) =~= before.push(line@));
            assert(texts(list@) + lines_of(s@.skip(start as int)) =~= before + lines_of(rest));
        }
        i = i + 1;
    }
    if start < n {
        let ghost rest = s@.skip(start as int);
        let ghost before = texts(list@);
        proof {
            lemma_first_line(rest, n - start);
        }
        let line = slice_text(&chars, start, n);
        assert(line@ =~= rest);
        list.push(line);
        assert(texts(list@) =~= before + seq![rest]);
    } else {
        assert(s@.skip(start as int).len() == 0);
        assert(texts(list@) + lines_of(s@.skip(start as int)) =~= texts(list@));
    }
    list
}

/// Parts put together, with a separator between each two.
pub open spec fn joined(parts: Seq<Seq<char>>, separator: Seq<char>) -> Seq<char>
    decreases parts.len(),
{
    if parts.len() == 0 {
        Seq::empty()
    } else if parts.len() == 1 {
        parts[0]
    } else {
        parts[0] + separator + joined(parts.drop_first(), separator)
    }
}

/// Puts parts together, with a separator between each two.
pub fn join(parts: &Vec<String>, separator: &str) -> (text: String)
    ensures
        text@ == joined(texts(parts@), separator@),
{
    let mut text = String::new();
    let mut i: usize = 0;
    let ghost all = texts(parts@);
    let ghost sep = separator@;
    proof {
        assert(all.skip(0) =~= all);
        assert(text@ + joined(all, sep) =~= joined(all, sep));
    }
    while i < parts.len()
        invariant
            all == texts(parts@),
            sep == separator@,
            i <= parts@.len(),
            i == 0 ==> text@ == Seq::<char>::empty(),
            0 < i < parts@.len() ==> text@ + sep + joined(all.skip(i as int), sep) == joined(
                all,
                sep,
            ),
            0 < i == parts@.len() ==> text@ == joined(all, sep),
        decreases parts@.len() - i,
    {
        let ghost rest = all.skip(i as int);
        let ghost before = text@;
        if i > 0 {
            text.append(separator);
        }
        text.append(parts[i].as_str());
        i = i + 1;
        proof {
            assert(rest.drop_first() =~= all.skip(i as int));
            assert(rest[0] == parts@[i - 1]@);
            if i == 1 {
                assert(text@ =~= rest[0]);
                assert(rest =~= all);
                if i < parts@.len() {
                    assert(text@ + sep + joined(all.skip(1), sep) =~= joined(all, sep));
                }
            } else {
                assert(text@ =~= before + sep + rest[0]);
                if i < parts@.len() {
                    assert(text@ + sep + joined(all.skip(i as int), sep) =~= before + sep + joined(
                        rest,
                        sep,
                    ));
                } else {
                    assert(joined(rest, sep) == rest[0]);
                    assert(text@ =~= before + sep + joined(rest, sep));
                }
            }
        }
    }
    text
}

// ── decimal numbers ─────────────────────────────────────────────────────────
/// The character of a decimal digit.
pub open spec fn digit_char(d: nat) -> char {
    (48 + d) as char
}

/// A number written in decimal digits, without leading zeros.
pub open spec fn decimal(n: nat) -> Seq<char>
    decreases n,
{
    if n < 10 {
        seq![digit_char(n)]
    } else {
        decimal(n / 10).push(digit_char(n % 10))
    }
}

/// Writes a number in decimal digits.
pub fn decimal_text(n: u64) -> (text: String)
    ensures
        text@ == decimal(n as nat),
    decreases n,
{
    let d: u8 = 48 + (n % 10) as u8;
    if n < 10 {
        let mut text = String::new();
        text.push(d as char);
        assert(text@ =~= decimal(n as nat));
        text
    } else {
        let mut text = decimal_text(n / 10);
        text.push(d as char);
        text
    }
}

/// Whether a character is a decimal digit.
pub open spec fn is_digit(c: char) -> bool {
    48 <= c as u32 <= 57
}

/// Whether a text holds nothing but decimal digits.
pub open spec fn all_digits(s: Seq<char>) -> bool {
    forall|i: int| 0 <= i < s.len() ==> is_digit(#[trigger] s[i])
}

/// The number that a text of decimal digits stands for.
pub open spec fn number_of(s: Seq<char>) -> nat
    decreases s.len(),
{
    if s.len() == 0 {
        0
    } else {
        (number_of(s.drop_last()) * 10 + (s.last() as u32 - 48)) as nat
    }
}

/// A text without the plus sign that may start it.
pub open spec fn without_plus(s: Seq<char>) -> Seq<char> {
    if s.len() > 0 && s[0] == '+' {
        s.drop_first()
    } else {
        s
    }
}

/// The number that a text stands for: digits, after an optional plus sign, of a
/// value that 32 bits can hold.
pub open spec fn u32_of(s: Seq<char>) -> Option<u32> {
    let digits = without_plus(s);
    if digits.len() > 0 && all_digits(digits) && number_of(digits) <= u32::MAX {
        Some(number_of(digits) as u32)
    } else {
        None
    }
}

/// Longer texts of digits stand for numbers that are no smaller.
proof fn lemma_number_grows(s: Seq<char>, n: int)
    requires
        0 <= n <= s.len(),
        all_digits(s),
    ensures
        number_of(s.take(n)) <= number_of(s),
    decreases s.len() - n,
{
    if n < s.len() {
        lemma_number_grows(s, n + 1);
        assert(s.take(n + 1).drop_last() =~= s.take(n));
        assert(is_digit(s[n]));
    } else {
        assert(s.take(n) =~= s);
    }
}

/// Reads a number of 32 bits: digits, after an optional plus sign.
pub fn parse_u32(s: &str) -> (n: Option<u32>)
    ensures
        n == u32_of(s@),
{
    let chars = chars_of(s);
    let mut i: usize = 0;
    if chars.len() > 0 && chars[0] == '+' {
        i = 1;
    }
    let ghost digits = without_plus(s@);
    assert(digits =~= s@.skip(i as int));
    if i == chars.len() {
        return None;
    }
    let first: usize = i;
    let mut value: u64 = 0;
    while i < chars.len()
        invariant
            chars@ == s@,
            digits == s@.skip(first as int),
            first <= i <= chars@.len(),
            all_digits(digits.take(i - first)),
            value == number_of(digits.take(i - first)),
            value <= u32::MAX,
            digits == without_plus(s@),
        decreases chars@.len() - i,
    {
        let c: u32 = chars[i] as u32;
        let ghost k = i - first;
        assert(digits[k] == chars@[i as int]);
        if c < 48 || c > 57 {
            assert(!is_digit(digits[k]));
            return None;
        }
        value = value * 10 + (c - 48) as u64;
        proof {
            assert(digits.take(k + 1).drop_last() =~= digits.take(k));
            assert forall|j: int| 0 <= j < k + 1 implies is_digit(
                #[trigger] digits.take(k + 1)[j],
            ) by {
                if j < k {
                    assert(is_digit(digits.take(k)[j]));
                }
            }
        }
        if value > u32::MAX as u64 {
            proof {
                if all_digits(digits) {
                    lemma_number_grows(digits, k + 1);
                }
            }
            return None;
        }
        i = i + 1;
    }
    assert(digits.take(i - first) =~= digits);
    Some(value as u32)
}

/// Reading a number that was written in decimal digits gives the number back.
pub proof fn decimal_reads_back(n: u32)
    ensures
        u32_of(decimal(n as nat)) == Some(n),
{
    lemma_decimal(n as nat);
}

/// The decimal text of a number has digits alone, at least one, and stands for
/// that number.
pub proof fn lemma_decimal(n: nat)
    ensures
        decimal(n).len() > 0,
        all_digits(decimal(n)),
        number_of(decimal(n)) == n,
        without_plus(decimal(n)) == decimal(n),
    decreases n,
{
    reveal_with_fuel(number_of, 2);
    if n >= 10 {
        lemma_decimal(n / 10);
        let s = decimal(n);
        assert(s.drop_last() =~= decimal(n / 10));
        assert forall|i: int| 0 <= i < s.len() implies is_digit(#[trigger] s[i]) by {
            if i < s.len() - 1 {
                assert(is_digit(decimal(n / 10)[i]));
            }
        }
    }
    assert(is_digit(decimal(n)[0]));
}

} // verus!
