//! The id of a todo as it stands in a request path: an optional `+` and then
//! decimal digits, with a value that fits in 64 bits.

use vstd::prelude::*;

verus! {

/// The byte `+`.
pub const PLUS: u8 = 0x2b;

/// The byte `0`.
pub const ZERO: u8 = 0x30;

/// The byte `9`.
pub const NINE: u8 = 0x39;

/// The largest id whose tenfold still fits in 64 bits.
pub const MAX_TENTH: u64 = 1844674407370955161;

/// The path segment did not hold an id.
#[derive(Clone, Copy, Debug, PartialEq, Eq)]
pub struct PathParseError;

/// Whether `b` is one of the bytes `0` to `9`.
pub open spec fn is_digit(b: u8) -> bool {
    ZERO <= b <= NINE
}

/// Whether `s` holds digits only.
pub open spec fn all_digits(s: Seq<u8>) -> bool {
    forall|i: int| 0 <= i < s.len() ==> is_digit(#[trigger] s[i])
}

/// What the digit `b` counts for; nothing, where `b` is no digit.
pub open spec fn digit_value(b: u8) -> nat {
    if is_digit(b) {
        (b - ZERO) as nat
    } else {
        0
    }
}

/// The number that the digits of `s` write in base ten.
pub open spec fn decimal_value(s: Seq<u8>) -> nat
    decreases s.len(),
{
    if s.len() == 0 {
        0
    } else {
        decimal_value(s.drop_last()) * 10 + digit_value(s.last())
    }
}

/// The segment without its sign, where it has one.
pub open spec fn unsigned_part(segment: Seq<u8>) -> Seq<u8> {
    if segment.len() > 0 && segment[0] == PLUS {
        segment.skip(1)
    } else {
        segment
    }
}

/// The id that `segment` writes, if it writes one: at least one digit,
/// nothing but digits after an optional `+`, and a value of at most
/// `u64::MAX`. Leading zeros are accepted.
pub open spec fn id_of(segment: Seq<u8>) -> Option<u64> {
    let digits = unsigned_part(segment);
    if digits.len() > 0 && all_digits(digits) && decimal_value(digits) <= u64::MAX {
        Some(decimal_value(digits) as u64)
    } else {
        None
    }
}

/// A number never gets smaller when more digits follow it.
pub proof fn lemma_decimal_value_grows(s: Seq<u8>, k: int)
    requires
        0 <= k <= s.len(),
    ensures
        decimal_value(s.take(k)) <= decimal_value(s),
    decreases s.len(),
{
    if k == s.len() {
        assert(s.take(k) =~= s);
    } else {
        lemma_decimal_value_grows(s.drop_last(), k);
        assert(s.drop_last().take(k) =~= s.take(k));
    }
}

/// Reads the id that a path segment writes.
pub fn parse_id(segment: &[u8]) -> (parsed: Result<u64, PathParseError>)
    ensures
        match parsed {
            Ok(id) => id_of(segment@) == Some(id),
            Err(_) => id_of(segment@).is_none(),
        },
{
    let n: usize = segment.len();
    let start: usize = if n > 0 && segment[0] == PLUS { 1 } else { 0 };
    let ghost digits = unsigned_part(segment@);
    assert(digits =~= segment@.skip(start as int));
    if start == n {
        return Err(PathParseError);
    }
    let mut value: u64 = 0;
    let mut i: usize = start;
    while i < n
        invariant
            n == segment@.len(),
            start <= i <= n,
            digits == unsigned_part(segment@),
            digits == segment@.skip(start as int),
            all_digits(digits.take(i - start)),
            value == decimal_value(digits.take(i - start)),
        decreases n - i,
    {
        let b: u8 = segment[i];
        assert(digits[i - start] == b);
        if b < ZERO || b > NINE {
            assert(!is_digit(digits[i - start]));
            return Err(PathParseError);
        }
        let digit: u64 = (b - ZERO) as u64;
        proof {
            let next = digits.take(i - start + 1);
            assert(next.drop_last() =~= digits.take(i - start));
            assert(next.last() == b);
            assert(decimal_value(next) == value * 10 + digit);
            lemma_decimal_value_grows(digits, i - start + 1);
        }
        if value > MAX_TENTH || (value == MAX_TENTH && digit > 5) {
            return Err(PathParseError);
        }
        value = value * 10 + digit;
        i = i + 1;
    }
    assert(digits.take(n - start) =~= digits);
    Ok(value)
}

} // verus!
