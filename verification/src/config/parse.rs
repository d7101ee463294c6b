//! Parsing of configuration values: decimal integers and booleans, with the
//! acceptance rules and error texts of the standard library's `FromStr`.
use vstd::prelude::*;

use crate::text::{chars_of, str_eq};

verus! {

/// Why an integer could not be parsed.
#[derive(Debug, Clone, Copy, PartialEq, Eq, Structural)]
pub enum IntErrorKind {
    Empty,
    InvalidDigit,
    PosOverflow,
    NegOverflow,
}

impl IntErrorKind {
    pub open spec fn spec_message(self) -> Seq<char> {
        match self {
            IntErrorKind::Empty => "cannot parse integer from empty string"@,
            IntErrorKind::InvalidDigit => "invalid digit found in string"@,
            IntErrorKind::PosOverflow => "number too large to fit in target type"@,
            IntErrorKind::NegOverflow => "number too small to fit in target type"@,
        }
    }

    pub fn message(self) -> (m: String)
        ensures
            m@ == self.spec_message(),
    {
        match self {
            IntErrorKind::Empty => "cannot parse integer from empty string".to_owned(),
            IntErrorKind::InvalidDigit => "invalid digit found in string".to_owned(),
            IntErrorKind::PosOverflow => "number too large to fit in target type".to_owned(),
            IntErrorKind::NegOverflow => "number too small to fit in target type".to_owned(),
        }
    }
}

pub open spec fn is_digit(c: char) -> bool {
    '0' <= c <= '9'
}

pub open spec fn digit_value(c: char) -> int {
    (c as int) - ('0' as int)
}

/// Reads the digits `d` left to right onto `acc`, failing at the first
/// character that is not a digit or that makes the value exceed `max`.
pub open spec fn scan_up(d: Seq<char>, acc: int, max: int) -> Result<int, IntErrorKind>
    decreases d.len(),
{
    if d.len() == 0 {
        Ok(acc)
    } else if !is_digit(d[0]) {
        Err(IntErrorKind::InvalidDigit)
    } else if acc * 10 + digit_value(d[0]) > max {
        Err(IntErrorKind::PosOverflow)
    } else {
        scan_up(d.drop_first(), acc * 10 + digit_value(d[0]), max)
    }
}

/// Like `scan_up`, for the digits of a negative number (failing below `min`).
pub open spec fn scan_down(d: Seq<char>, acc: int, min: int) -> Result<int, IntErrorKind>
    decreases d.len(),
{
    if d.len() == 0 {
        Ok(acc)
    } else if !is_digit(d[0]) {
        Err(IntErrorKind::InvalidDigit)
    } else if acc * 10 - digit_value(d[0]) < min {
        Err(IntErrorKind::NegOverflow)
    } else {
        scan_down(d.drop_first(), acc * 10 - digit_value(d[0]), min)
    }
}

/// Decimal text of an unsigned integer not above `max`: an optional `+`
/// followed by digits.
pub open spec fn spec_parse_unsigned(s: Seq<char>, max: int) -> Result<int, IntErrorKind> {
    if s.len() == 0 {
        Err(IntErrorKind::Empty)
    } else if s =~= seq!['+'] || s =~= seq!['-'] {
        Err(IntErrorKind::InvalidDigit)
    } else if s[0] == '+' {
        scan_up(s.drop_first(), 0, max)
    } else {
        scan_up(s, 0, max)
    }
}

/// Decimal text of a signed integer in `[min, max]`: an optional sign
/// followed by digits.
pub open spec fn spec_parse_signed(s: Seq<char>, min: int, max: int) -> Result<int, IntErrorKind> {
    if s.len() == 0 {
        Err(IntErrorKind::Empty)
    } else if s =~= seq!['+'] || s =~= seq!['-'] {
        Err(IntErrorKind::InvalidDigit)
    } else if s[0] == '+' {
        scan_up(s.drop_first(), 0, max)
    } else if s[0] == '-' {
        scan_down(s.drop_first(), 0, min)
    } else {
        scan_up(s, 0, max)
    }
}

proof fn lemma_scan_up_bounds(d: Seq<char>, acc: int, max: int)
    requires
        0 <= acc <= max,
    ensures
        scan_up(d, acc, max) matches Ok(v) ==> 0 <= v <= max,
    decreases d.len(),
{
    if d.len() > 0 && is_digit(d[0]) && acc * 10 + digit_value(d[0]) <= max {
        lemma_scan_up_bounds(d.drop_first(), acc * 10 + digit_value(d[0]), max);
    }
}

proof fn lemma_scan_down_bounds(d: Seq<char>, acc: int, min: int)
    requires
        min <= acc <= 0,
    ensures
        scan_down(d, acc, min) matches Ok(v) ==> min <= v <= 0,
    decreases d.len(),
{
    if d.len() > 0 && is_digit(d[0]) && acc * 10 - digit_value(d[0]) >= min {
        lemma_scan_down_bounds(d.drop_first(), acc * 10 - digit_value(d[0]), min);
    }
}

/// Scans `v[start..]` as in `scan_up`.
fn scan_digits_up(v: &Vec<char>, start: usize, max: u64) -> (r: Result<u64, IntErrorKind>)
    requires
        start <= v.len(),
    ensures
        match scan_up(v@.skip(start as int), 0, max as int) {
            Ok(n) => r == Ok::<u64, IntErrorKind>(n as u64),
            Err(e) => r == Err::<u64, IntErrorKind>(e),
        },
{
    let mut acc: u128 = 0;
    let mut i = start;
    proof {
        lemma_scan_up_bounds(v@.skip(start as int), 0, max as int);
    }
    while i < v.len()
        invariant
            start <= i <= v.len(),
            acc <= max,
            scan_up(v@.skip(start as int), 0, max as int) == scan_up(
                v@.skip(i as int),
                acc as int,
                max as int,
            ),
        decreases v.len() - i,
    {
        let c = v[i];
        assert(v@.skip(i as int)[0] == c);
        assert(v@.skip(i as int).drop_first() =~= v@.skip(i + 1));
        if !('0' <= c && c <= '9') {
            return Err(IntErrorKind::InvalidDigit);
        }
        let d = (c as u32 - '0' as u32) as u128;
        assert(d == digit_value(c));
        if acc * 10 + d > max as u128 {
            return Err(IntErrorKind::PosOverflow);
        }
        acc = acc * 10 + d;
        i += 1;
    }
    assert(v@.skip(i as int).len() == 0);
    Ok(acc as u64)
}

/// Scans `v[start..]` as in `scan_down`.
fn scan_digits_down(v: &Vec<char>, start: usize) -> (r: Result<i64, IntErrorKind>)
    requires
        start <= v.len(),
    ensures
        match scan_down(v@.skip(start as int), 0, i64::MIN as int) {
            Ok(n) => r == Ok::<i64, IntErrorKind>(n as i64),
            Err(e) => r == Err::<i64, IntErrorKind>(e),
        },
{
    let mut acc: i128 = 0;
    let mut i = start;
    while i < v.len()
        invariant
            start <= i <= v.len(),
            i64::MIN <= acc <= 0,
            scan_down(v@.skip(start as int), 0, i64::MIN as int) == scan_down(
                v@.skip(i as int),
                acc as int,
                i64::MIN as int,
            ),
        decreases v.len() - i,
    {
        let c = v[i];
        assert(v@.skip(i as int)[0] == c);
        assert(v@.skip(i as int).drop_first() =~= v@.skip(i + 1));
        if !('0' <= c && c <= '9') {
            return Err(IntErrorKind::InvalidDigit);
        }
        let d = (c as u32 - '0' as u32) as i128;
        assert(d == digit_value(c));
        if acc * 10 - d < i64::MIN as i128 {
            return Err(IntErrorKind::NegOverflow);
        }
        acc = acc * 10 - d;
        i += 1;
    }
    assert(v@.skip(i as int).len() == 0);
    Ok(acc as i64)
}

/// Parses an unsigned decimal integer not above `max`.
pub fn parse_unsigned(s: &str, max: u64) -> (r: Result<u64, IntErrorKind>)
    ensures
        match spec_parse_unsigned(s@, max as int) {
            Ok(n) => r == Ok::<u64, IntErrorKind>(n as u64),
            Err(e) => r == Err::<u64, IntErrorKind>(e),
        },
        r matches Ok(n) ==> n <= max,
        spec_parse_unsigned(s@, max as int) matches Ok(n) ==> 0 <= n <= max,
{
    let v = chars_of(s);
    proof {
        lemma_scan_up_bounds(s@, 0, max as int);
        lemma_scan_up_bounds(s@.drop_first(), 0, max as int);
    }
    if v.len() == 0 {
        return Err(IntErrorKind::Empty);
    }
    if v.len() == 1 && (v[0] == '+' || v[0] == '-') {
        assert(s@ =~= seq![v[0]]);
        return Err(IntErrorKind::InvalidDigit);
    }
    assert(!(s@ =~= seq!['+']) && !(s@ =~= seq!['-'])) by {
        if s@ =~= seq!['+'] || s@ =~= seq!['-'] {
            assert(s@.len() == 1);
        }
    }
    assert(v@.skip(1) =~= s@.drop_first());
    assert(v@.skip(0) =~= s@);
    if v[0] == '+' {
        scan_digits_up(&v, 1, max)
    } else {
        scan_digits_up(&v, 0, max)
    }
}

/// Parses a signed decimal integer in the range of `i64`.
pub fn parse_i64(s: &str) -> (r: Result<i64, IntErrorKind>)
    ensures
        match spec_parse_signed(s@, i64::MIN as int, i64::MAX as int) {
            Ok(n) => r == Ok::<i64, IntErrorKind>(n as i64),
            Err(e) => r == Err::<i64, IntErrorKind>(e),
        },
{
    let v = chars_of(s);
    proof {
        lemma_scan_up_bounds(s@, 0, i64::MAX as int);
        lemma_scan_up_bounds(s@.drop_first(), 0, i64::MAX as int);
    }
    if v.len() == 0 {
        return Err(IntErrorKind::Empty);
    }
    if v.len() == 1 && (v[0] == '+' || v[0] == '-') {
        assert(s@ =~= seq![v[0]]);
        return Err(IntErrorKind::InvalidDigit);
    }
    assert(!(s@ =~= seq!['+']) && !(s@ =~= seq!['-'])) by {
        if s@ =~= seq!['+'] || s@ =~= seq!['-'] {
            assert(s@.len() == 1);
        }
    }
    assert(v@.skip(1) =~= s@.drop_first());
    assert(v@.skip(0) =~= s@);
    if v[0] == '-' {
        scan_digits_down(&v, 1)
    } else if v[0] == '+' {
        match scan_digits_up(&v, 1, i64::MAX as u64) {
            Ok(n) => Ok(n as i64),
            Err(e) => Err(e),
        }
    } else {
        match scan_digits_up(&v, 0, i64::MAX as u64) {
            Ok(n) => Ok(n as i64),
            Err(e) => Err(e),
        }
    }
}

/// `bool::from_str`: exactly `true` or `false`.
pub open spec fn spec_parse_bool(s: Seq<char>) -> Option<bool> {
    if s == "true"@ {
        Some(true)
    } else if s == "false"@ {
        Some(false)
    } else {
        None
    }
}

pub fn parse_bool(s: &str) -> (r: Option<bool>)
    ensures
        r == spec_parse_bool(s@),
{
    if str_eq(s, "true") {
        Some(true)
    } else if str_eq(s, "false") {
        Some(false)
    } else {
        None
    }
}

} // verus!
