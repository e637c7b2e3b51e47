//! Reading numbers and answers out of the lines that the player types.
//!
//! A line is trimmed of the white space around it before it is read, so the
//! line break that ends what the player typed never matters.

use vstd::prelude::*;

verus! {

/// The characters that count as white space: those with the Unicode property
/// `White_Space`.
pub open spec fn is_whitespace(c: char) -> bool {
    let code = c as u32;
    ||| 0x09 <= code <= 0x0D
    ||| code == 0x20
    ||| code == 0x85
    ||| code == 0xA0
    ||| code == 0x1680
    ||| 0x2000 <= code <= 0x200A
    ||| code == 0x2028
    ||| code == 0x2029
    ||| code == 0x202F
    ||| code == 0x205F
    ||| code == 0x3000
}

/// `s` without the white space at its start.
pub open spec fn trim_start(s: Seq<char>) -> Seq<char>
    decreases s.len(),
{
    if s.len() > 0 && is_whitespace(s.first()) {
        trim_start(s.drop_first())
    } else {
        s
    }
}

/// `s` without the white space at its end.
pub open spec fn trim_end(s: Seq<char>) -> Seq<char>
    decreases s.len(),
{
    if s.len() > 0 && is_whitespace(s.last()) {
        trim_end(s.drop_last())
    } else {
        s
    }
}

/// `s` without the white space at both ends.
pub open spec fn trim(s: Seq<char>) -> Seq<char> {
    trim_end(trim_start(s))
}

/// The ten decimal digits `0` to `9`.
pub open spec fn is_digit(c: char) -> bool {
    0x30 <= c as u32 <= 0x39
}

/// The number that a decimal digit stands for.
pub open spec fn digit_value(c: char) -> nat {
    (c as u32 - 0x30) as nat
}

/// Whether `s` holds decimal digits only.
pub open spec fn all_digits(s: Seq<char>) -> bool {
    forall|i: int| 0 <= i < s.len() ==> is_digit(#[trigger] s[i])
}

/// The number written by a sequence of decimal digits, most significant
/// digit first. The empty sequence writes zero.
pub open spec fn decimal_value(digits: Seq<char>) -> nat
    decreases digits.len(),
{
    if digits.len() == 0 {
        0
    } else {
        decimal_value(digits.drop_last()) * 10 + digit_value(digits.last())
    }
}

/// `s` without one leading plus sign.
pub open spec fn without_sign(s: Seq<char>) -> Seq<char> {
    if s.len() > 0 && s.first() == '+' {
        s.drop_first()
    } else {
        s
    }
}

/// The number that `s` writes: an optional plus sign, then one or more
/// decimal digits that together stay within `u32`. Anything else, a minus
/// sign or white space inside included, writes no number.
pub open spec fn parse_u32(s: Seq<char>) -> Option<u32> {
    let digits = without_sign(s);
    if digits.len() > 0 && all_digits(digits) && decimal_value(digits) <= u32::MAX {
        Some(decimal_value(digits) as u32)
    } else {
        None
    }
}

/// The number that a line of input holds, once trimmed.
pub open spec fn parse_line(line: Seq<char>) -> Option<u32> {
    parse_u32(trim(line))
}

/// Whether a line of input, once trimmed, is the single letter `n`, in
/// either case.
pub open spec fn is_no(line: Seq<char>) -> bool {
    let answer = trim(line);
    answer.len() == 1 && (answer[0] == 'n' || answer[0] == 'N')
}

/// Trimming at the start drops a prefix: the result starts at the first
/// character that is no white space.
proof fn lemma_trim_start_skips(s: Seq<char>, start: int)
    requires
        0 <= start <= s.len(),
        forall|i: int| 0 <= i < start ==> is_whitespace(#[trigger] s[i]),
        start < s.len() ==> !is_whitespace(s[start]),
    ensures
        trim_start(s) == s.subrange(start, s.len() as int),
    decreases start,
{
    if start == 0 {
        assert(s.subrange(0, s.len() as int) == s);
    } else {
        let rest = s.drop_first();
        assert forall|i: int| 0 <= i < start - 1 implies is_whitespace(#[trigger] rest[i]) by {
            assert(rest[i] == s[i + 1]);
        }
        lemma_trim_start_skips(rest, start - 1);
        assert(rest.subrange(start - 1, rest.len() as int) == s.subrange(start, s.len() as int));
    }
}

/// Trimming at the end drops a suffix: the result ends after the last
/// character that is no white space.
proof fn lemma_trim_end_stops(s: Seq<char>, end: int)
    requires
        0 <= end <= s.len(),
        forall|i: int| end <= i < s.len() ==> is_whitespace(#[trigger] s[i]),
        end > 0 ==> !is_whitespace(s[end - 1]),
    ensures
        trim_end(s) == s.subrange(0, end),
    decreases s.len() - end,
{
    if end == s.len() {
        assert(s.subrange(0, end) == s);
    } else {
        let rest = s.drop_last();
        lemma_trim_end_stops(rest, end);
        assert(rest.subrange(0, end) == s.subrange(0, end));
    }
}

/// A number written with more digits is no smaller than the number written
/// by the first of them.
proof fn lemma_decimal_value_grows(digits: Seq<char>, len: int)
    requires
        0 <= len <= digits.len(),
    ensures
        decimal_value(digits.subrange(0, len)) <= decimal_value(digits),
    decreases digits.len() - len,
{
    if len == digits.len() {
        assert(digits.subrange(0, len) == digits);
    } else {
        lemma_decimal_value_grows(digits.drop_last(), len);
        assert(digits.drop_last().subrange(0, len) == digits.subrange(0, len));
    }
}

/// Whether `c` is white space.
pub fn is_whitespace_char(c: char) -> (answer: bool)
    ensures
        answer == is_whitespace(c),
{
    let code: u32 = c as u32;
    (0x09 <= code && code <= 0x0D) || code == 0x20 || code == 0x85 || code == 0xA0
        || code == 0x1680 || (0x2000 <= code && code <= 0x200A) || code == 0x2028
        || code == 0x2029 || code == 0x202F || code == 0x205F || code == 0x3000
}

/// The characters of `line` without the white space at both ends.
pub fn trimmed(line: &str) -> (chars: Vec<char>)
    ensures
        chars@ == trim(line@),
{
    let mut all: Vec<char> = Vec::new();
    for c in it: line.chars()
        invariant
            it.seq() == line@,
            all@ == line@.take(it.index() as int),
    {
        all.push(c);
    }
    assert(all@ == line@);
    let len: usize = all.len();
    let mut start: usize = 0;
    while start < len && is_whitespace_char(all[start])
        invariant
            len == all.len(),
            start <= len,
            forall|i: int| 0 <= i < start ==> is_whitespace(#[trigger] all@[i]),
        decreases len - start,
    {
        start += 1;
    }
    let mut end: usize = len;
    while end > start && is_whitespace_char(all[end - 1])
        invariant
            len == all.len(),
            start <= end <= len,
            forall|i: int| end <= i < len ==> is_whitespace(#[trigger] all@[i]),
        decreases end,
    {
        end -= 1;
    }
    let mut chars: Vec<char> = Vec::new();
    let mut next: usize = start;
    while next < end
        invariant
            start <= next <= end <= all.len(),
            chars@ == all@.subrange(start as int, next as int),
        decreases end - next,
    {
        chars.push(all[next]);
        next += 1;
    }
    proof {
        let left = all@.subrange(start as int, len as int);
        lemma_trim_start_skips(all@, start as int);
        assert forall|i: int| end - start <= i < left.len() implies is_whitespace(
            #[trigger] left[i],
        ) by {
            assert(left[i] == all@[start + i]);
        }
        lemma_trim_end_stops(left, end - start);
        assert(left.subrange(0, end - start) == all@.subrange(start as int, end as int));
    }
    chars
}

/// Reads the number that `chars` writes.
pub fn parse_chars(chars: &Vec<char>) -> (number: Option<u32>)
    ensures
        number == parse_u32(chars@),
{
    let len: usize = chars.len();
    let first: usize = if len > 0 && chars[0] == '+' {
        1
    } else {
        0
    };
    let ghost digits = without_sign(chars@);
    assert(digits == chars@.subrange(first as int, len as int));
    if first == len {
        return None;
    }
    let mut value: u64 = 0;
    let mut next: usize = first;
    while next < len
        invariant
            first <= next <= len == chars.len(),
            digits == without_sign(chars@),
            digits == chars@.subrange(first as int, len as int),
            all_digits(digits.subrange(0, next - first)),
            value == decimal_value(digits.subrange(0, next - first)),
            value <= u32::MAX,
        decreases len - next,
    {
        let code: u32 = chars[next] as u32;
        let ghost seen = digits.subrange(0, next - first);
        let ghost more = digits.subrange(0, next - first + 1);
        assert(more.drop_last() == seen);
        assert(more.last() == chars@[next as int]);
        if code < 0x30 || code > 0x39 {
            assert(!is_digit(digits[next - first]));
            return None;
        }
        value = value * 10 + (code - 0x30) as u64;
        if value > u32::MAX as u64 {
            proof {
                lemma_decimal_value_grows(digits, next - first + 1);
            }
            return None;
        }
        assert forall|i: int| 0 <= i < more.len() implies is_digit(#[trigger] more[i]) by {
            if i < seen.len() {
                assert(more[i] == seen[i]);
            }
        }
        next += 1;
    }
    assert(digits.subrange(0, len - first) == digits);
    Some(value as u32)
}

/// Reads the number that a line of input holds: `None` where it holds none.
pub fn parse_number(line: &str) -> (number: Option<u32>)
    ensures
        number == parse_line(line@),
{
    let chars = trimmed(line);
    parse_chars(&chars)
}

/// Whether a line of input says no: the letter `n`, in either case, with
/// nothing but white space around it.
pub fn says_no(line: &str) -> (answer: bool)
    ensures
        answer == is_no(line@),
{
    let chars = trimmed(line);
    chars.len() == 1 && (chars[0] == 'n' || chars[0] == 'N')
}

} // verus!
