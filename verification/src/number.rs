//! Whole numbers written in decimal.
//!
//! Configuration values arrive as text. A number is an optional sign followed
//! by at least one decimal digit; anything else is no number.

use crate::text::chars_of;
use vstd::prelude::*;

verus! {

/// One of the ten decimal digits.
pub open spec fn is_digit(c: char) -> bool {
    '0' <= c && c <= '9'
}

/// The value of a decimal digit.
pub open spec fn digit_value(c: char) -> int {
    c as int - '0' as int
}

/// Every character is a decimal digit.
pub open spec fn all_digits(s: Seq<char>) -> bool {
    forall|i: int| 0 <= i < s.len() ==> is_digit(#[trigger] s[i])
}

/// The number that a run of digits writes, the most significant digit first.
pub open spec fn digits_value(s: Seq<char>) -> int
    decreases s.len(),
{
    if s.len() == 0 {
        0
    } else {
        10 * digits_value(s.drop_last()) + digit_value(s.last())
    }
}

/// The digits of a text: what follows its sign, or all of it where it has no
/// sign.
pub open spec fn unsigned_part(s: Seq<char>) -> Seq<char> {
    if s.len() > 0 && (s[0] == '-' || s[0] == '+') {
        s.skip(1)
    } else {
        s
    }
}

/// The number that a text writes, if it writes one.
pub open spec fn integer_value(s: Seq<char>) -> Option<int> {
    let digits = unsigned_part(s);
    if digits.len() > 0 && all_digits(digits) {
        if s[0] == '-' {
            Some(-digits_value(digits))
        } else {
            Some(digits_value(digits))
        }
    } else {
        None
    }
}

/// The number that a text writes, if it writes one from `min` to `max`.
pub open spec fn integer_in(s: Seq<char>, min: int, max: int) -> Option<int> {
    match integer_value(s) {
        Some(v) => if min <= v && v <= max {
            Some(v)
        } else {
            None
        },
        None => None,
    }
}

/// Reads a decimal number from `min` to `max`. Text that writes no number, or
/// one outside these bounds, gives `None`.
pub fn parse_integer(s: &str, min: i64, max: i64) -> (r: Option<i64>)
    ensures
        match r {
            Some(v) => integer_in(s@, min as int, max as int) == Some(v as int),
            None => integer_in(s@, min as int, max as int) is None,
        },
{
    let chars = chars_of(s);
    let n = chars.len();
    if n == 0 {
        return None;
    }
    let negative = chars[0] == '-';
    let start: usize = if chars[0] == '-' || chars[0] == '+' {
        1
    } else {
        0
    };
    if start == n {
        return None;
    }
    let ghost digits = unsigned_part(s@);
    assert(digits == chars@.skip(start as int));
    let limit: u128 = 9223372036854775808;
    let mut magnitude: u128 = 0;
    let mut beyond = false;
    let mut i: usize = start;
    while i < n
        invariant
            start <= i <= n,
            n == chars@.len(),
            digits == chars@.skip(start as int),
            digits == unsigned_part(s@),
            limit == 9223372036854775808,
            all_digits(digits.take(i - start)),
            !beyond ==> magnitude == digits_value(digits.take(i - start)) && magnitude <= limit,
            beyond ==> digits_value(digits.take(i - start)) > limit,
        decreases n - i,
    {
        let c = chars[i];
        assert(digits[i - start] == c);
        if !(c >= '0' && c <= '9') {
            assert(!is_digit(digits[i - start]));
            return None;
        }
        let ghost before = digits.take(i - start);
        let ghost longer = digits.take(i - start + 1);
        assert(longer.drop_last() =~= before);
        assert(longer.last() == c);
        assert forall|k: int| 0 <= k < longer.len() implies is_digit(#[trigger] longer[k]) by {
            if k < before.len() {
                assert(longer[k] == before[k]);
            }
        }
        if !beyond {
            let d: u128 = (c as u32 - '0' as u32) as u128;
            magnitude = magnitude * 10 + d;
            if magnitude > limit {
                beyond = true;
            }
        }
        i += 1;
    }
    assert(digits.take(n - start) =~= digits);
    if beyond {
        return None;
    }
    if negative {
        if magnitude > limit {
            return None;
        }
        let v: i128 = -(magnitude as i128);
        if v < min as i128 || v > max as i128 {
            return None;
        }
        Some(v as i64)
    } else {
        let v: i128 = magnitude as i128;
        if v < min as i128 || v > max as i128 {
            return None;
        }
        Some(v as i64)
    }
}

} // verus!
