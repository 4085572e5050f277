use vstd::prelude::*;

use crate::cdrom::time::CdTime;

verus! {

/// The ASCII code of a space.
pub const SPACE: u8 = 0x20;

/// Whether `pat` occurs in `s` at `i`.
pub open spec fn matches_at(s: Seq<u8>, pat: Seq<u8>, i: int) -> bool {
    0 <= i && i + pat.len() <= s.len() && s.subrange(i, i + pat.len()) == pat
}

/// Whether `s` starts with `pat`.
pub open spec fn starts_with(s: Seq<u8>, pat: Seq<u8>) -> bool {
    matches_at(s, pat, 0)
}

/// The end of the word that starts at `i`: the first space at or after
/// `i`, or the end of `s`.
pub open spec fn word_end(s: Seq<u8>, i: int) -> int
    decreases s.len() - i,
{
    if i < 0 || i >= s.len() {
        s.len() as int
    } else if s[i] == SPACE {
        i
    } else {
        word_end(s, i + 1)
    }
}

/// Whether `pat` occurs in `s` at `i`.
pub fn bytes_match_at(s: &[u8], pat: &[u8], i: usize) -> (r: bool)
    ensures
        r == matches_at(s@, pat@, i as int),
{
    if i > s.len() || s.len() - i < pat.len() {
        return false;
    }
    let n = s.len();
    let mut k: usize = 0;
    while k < pat.len()
        invariant
            n == s@.len(),
            i <= s@.len(),
            i + pat@.len() <= s@.len(),
            k <= pat@.len(),
            forall|j: int| 0 <= j < k ==> s@[i + j] == pat@[j],
        decreases pat@.len() - k,
    {
        assert(i + k < n);
        if s[i + k] != pat[k] {
            assert(s@.subrange(i as int, i + pat@.len())[k as int] != pat@[k as int]);
            return false;
        }
        k = k + 1;
    }
    assert(s@.subrange(i as int, i + pat@.len()) =~= pat@);
    true
}

/// The end of the word that starts at `i`.
pub fn find_word_end(s: &[u8], i: usize) -> (r: usize)
    requires
        i <= s@.len(),
    ensures
        r == word_end(s@, i as int),
        i <= r <= s@.len(),
{
    let mut j = i;
    while j < s.len() && s[j] != SPACE
        invariant
            i <= j <= s@.len(),
            word_end(s@, j as int) == word_end(s@, i as int),
        decreases s@.len() - j,
    {
        j = j + 1;
    }
    j
}

/// The value of a run of decimal digits.
pub open spec fn decimal_value(digits: Seq<u8>) -> int
    decreases digits.len(),
{
    if digits.len() == 0 {
        0
    } else {
        decimal_value(digits.drop_last()) * 10 + (digits.last() - 0x30)
    }
}

/// Whether every byte is a decimal digit.
pub open spec fn all_digits(s: Seq<u8>) -> bool {
    forall|i: int| 0 <= i < s.len() ==> 0x30 <= #[trigger] s[i] <= 0x39
}

/// The byte of `s` as an unsigned decimal number: an optional `+`, then at
/// least one digit, with a value below 256.
pub open spec fn parse_u8_spec(s: Seq<u8>) -> Option<u8> {
    let digits = if s.len() > 0 && s[0] == 0x2b { s.drop_first() } else { s };
    if digits.len() > 0 && all_digits(digits) && decimal_value(digits) <= 255 {
        Some(decimal_value(digits) as u8)
    } else {
        None
    }
}

/// A longer run of digits has a value at least that of its prefix.
proof fn lemma_decimal_value_grows(digits: Seq<u8>, n: int)
    requires
        0 <= n <= digits.len(),
        all_digits(digits),
    ensures
        decimal_value(digits.subrange(0, n)) <= decimal_value(digits),
        0 <= decimal_value(digits.subrange(0, n)),
    decreases digits.len() - n,
{
    if n < digits.len() {
        let next = digits.subrange(0, n + 1);
        assert(next.drop_last() =~= digits.subrange(0, n));
        assert(all_digits(next));
        lemma_decimal_value_grows(digits, n + 1);
        lemma_decimal_value_nonneg(digits.subrange(0, n));
    } else {
        assert(digits.subrange(0, n) =~= digits);
        lemma_decimal_value_nonneg(digits);
    }
}

/// The value of a run of digits is not negative.
proof fn lemma_decimal_value_nonneg(digits: Seq<u8>)
    requires
        all_digits(digits),
    ensures
        0 <= decimal_value(digits),
    decreases digits.len(),
{
    if digits.len() > 0 {
        assert(all_digits(digits.drop_last()));
        lemma_decimal_value_nonneg(digits.drop_last());
    }
}

/// Parses `s` as an unsigned decimal byte.
pub fn parse_u8(s: &[u8]) -> (r: Option<u8>)
    ensures
        r == parse_u8_spec(s@),
{
    let start: usize = if s.len() > 0 && s[0] == 0x2b { 1 } else { 0 };
    let ghost digits = if s@.len() > 0 && s@[0] == 0x2b { s@.drop_first() } else { s@ };
    assert(digits =~= s@.subrange(start as int, s@.len() as int));
    if start == s.len() {
        return None;
    }
    let mut value: u32 = 0;
    let mut i = start;
    while i < s.len()
        invariant
            start <= i <= s@.len(),
            digits == s@.subrange(start as int, s@.len() as int),
            digits == (if s@.len() > 0 && s@[0] == 0x2b { s@.drop_first() } else { s@ }),
            all_digits(s@.subrange(start as int, i as int)),
            value == decimal_value(s@.subrange(start as int, i as int)),
            value <= 255,
        decreases s@.len() - i,
    {
        let c = s[i];
        if c < 0x30 || c > 0x39 {
            assert(digits[i - start] == c);
            assert(!all_digits(digits));
            return None;
        }
        let ghost prefix = s@.subrange(start as int, i + 1);
        assert(prefix.drop_last() =~= s@.subrange(start as int, i as int));
        assert(prefix.last() == c);
        value = value * 10 + (c - 0x30) as u32;
        assert(decimal_value(prefix) == value);
        i = i + 1;
        assert(prefix =~= s@.subrange(start as int, i as int));
        assert(all_digits(s@.subrange(start as int, i as int)));
        if value > 255 {
            proof {
                if all_digits(digits) {
                    lemma_decimal_value_grows(digits, i - start);
                    assert(digits.subrange(0, i - start) =~= s@.subrange(start as int, i as int));
                }
            }
            return None;
        }
    }
    assert(s@.subrange(start as int, i as int) =~= digits);
    Some(value as u8)
}

/// Why a time does not parse.
#[derive(Debug, Clone, Copy, PartialEq, Eq, Structural)]
pub enum TimeParseError {
    /// The text is not 8 bytes long.
    InvalidLength(usize),
    /// The separators are not colons.
    UnexpectedFormat,
    /// A field is not a number.
    InvalidNumber,
}

/// The time of `MM:SS:FF`, each field an unsigned decimal byte; the fields
/// are not checked against their ranges.
pub open spec fn parse_time_spec(s: Seq<u8>) -> Result<CdTime, TimeParseError> {
    if s.len() != 8 {
        Err(TimeParseError::InvalidLength(s.len() as usize))
    } else if s[2] != 0x3a || s[5] != 0x3a {
        Err(TimeParseError::UnexpectedFormat)
    } else {
        match (parse_u8_spec(s.subrange(0, 2)), parse_u8_spec(s.subrange(3, 5)), parse_u8_spec(s.subrange(6, 8))) {
            (Some(minutes), Some(seconds), Some(frames)) => Ok(CdTime { minutes, seconds, frames }),
            _ => Err(TimeParseError::InvalidNumber),
        }
    }
}

impl CdTime {
    /// Parses a time written `MM:SS:FF`.
    pub fn parse(s: &[u8]) -> (r: Result<CdTime, TimeParseError>)
        ensures
            r == parse_time_spec(s@),
    {
        if s.len() != 8 {
            return Err(TimeParseError::InvalidLength(s.len()));
        }
        if s[2] != 0x3a || s[5] != 0x3a {
            return Err(TimeParseError::UnexpectedFormat);
        }
        let minutes = parse_u8(vstd::slice::slice_subrange(s, 0, 2));
        let seconds = parse_u8(vstd::slice::slice_subrange(s, 3, 5));
        let frames = parse_u8(vstd::slice::slice_subrange(s, 6, 8));
        match (minutes, seconds, frames) {
            (Some(minutes), Some(seconds), Some(frames)) => Ok(CdTime { minutes, seconds, frames }),
            _ => Err(TimeParseError::InvalidNumber),
        }
    }
}

} // verus!
