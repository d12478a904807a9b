//! Reading the words of a command line: signed decimal numbers and fixed
//! names.

use crate::bytes::bytes_equal;
use vstd::prelude::*;
use vstd::string::StringSliceAdditionalSpecFns;

verus! {

/// The byte `-`.
pub const MINUS: u8 = 45;

/// The byte `+`.
pub const PLUS: u8 = 43;

/// The byte `0`.
pub const ZERO: u8 = 48;

/// Whether `byte` is a decimal digit.
pub open spec fn is_digit(byte: u8) -> bool {
    ZERO <= byte <= ZERO + 9
}

/// Whether every byte of `digits` is a decimal digit.
pub open spec fn all_digits(digits: Seq<u8>) -> bool {
    forall|i: int| 0 <= i < digits.len() ==> is_digit(#[trigger] digits[i])
}

/// The number that a run of decimal digits writes.
pub open spec fn digits_value(digits: Seq<u8>) -> int
    decreases digits.len(),
{
    if digits.len() == 0 {
        0
    } else {
        digits_value(digits.drop_last()) * 10 + (digits.last() - ZERO)
    }
}

/// Whether `token` begins with a sign.
pub open spec fn has_sign(token: Seq<u8>) -> bool {
    token.len() > 0 && (token[0] == MINUS || token[0] == PLUS)
}

/// The digits of `token`: what follows its sign, or all of it where it has
/// none.
pub open spec fn digits_of(token: Seq<u8>) -> Seq<u8> {
    if has_sign(token) {
        token.skip(1)
    } else {
        token
    }
}

/// The integer that `token` writes in base 10: an optional sign and then one
/// or more digits, nothing before or behind them.
pub open spec fn signed_decimal(token: Seq<u8>) -> Option<int> {
    let digits = digits_of(token);
    if digits.len() == 0 || !all_digits(digits) {
        None
    } else if token[0] == MINUS {
        Some(-digits_value(digits))
    } else {
        Some(digits_value(digits))
    }
}

/// The index that `token` writes, where it is a signed decimal number that a
/// machine index can hold.
pub open spec fn index_of_token(token: Seq<u8>) -> Option<isize> {
    match signed_decimal(token) {
        Some(value) => if isize::MIN <= value <= isize::MAX {
            Some(value as isize)
        } else {
            None
        },
        None => None,
    }
}

/// A run of digits writes a number that is at least as large as the number
/// written by any of its beginnings.
proof fn lemma_digits_value_grows(digits: Seq<u8>, k: int)
    requires
        all_digits(digits),
        0 <= k <= digits.len(),
    ensures
        0 <= digits_value(digits.take(k)) <= digits_value(digits),
    decreases digits.len() - k,
{
    if k == digits.len() {
        assert(digits.take(k) =~= digits);
        lemma_digits_value_nonnegative(digits);
    } else {
        lemma_digits_value_grows(digits, k + 1);
        let longer = digits.take(k + 1);
        assert(longer.drop_last() =~= digits.take(k));
        assert(is_digit(digits[k]));
        assert(longer.last() == digits[k]);
        lemma_digits_value_nonnegative(digits.take(k));
    }
}

/// A run of digits writes no negative number.
proof fn lemma_digits_value_nonnegative(digits: Seq<u8>)
    requires
        all_digits(digits),
    ensures
        0 <= digits_value(digits),
    decreases digits.len(),
{
    if digits.len() > 0 {
        assert(is_digit(digits.last()));
        assert forall|i: int| 0 <= i < digits.drop_last().len() implies is_digit(
            #[trigger] digits.drop_last()[i],
        ) by {
            assert(digits.drop_last()[i] == digits[i]);
        }
        lemma_digits_value_nonnegative(digits.drop_last());
    }
}

/// Reads `token` as a signed decimal index.
pub fn parse_index(token: &[u8]) -> (r: Option<isize>)
    ensures
        r == index_of_token(token@),
{
    let n = token.len();
    if n == 0 {
        return None;
    }
    let negative = token[0] == MINUS;
    let start: usize = if negative || token[0] == PLUS {
        1
    } else {
        0
    };
    let ghost digits = digits_of(token@);
    assert(digits =~= token@.skip(start as int));
    if start == n {
        return None;
    }
    let mut value: isize = 0;
    let mut i: usize = start;
    assert(digits.take(0) =~= Seq::<u8>::empty());
    while i < n
        invariant
            start <= i <= n,
            n == token@.len(),
            digits == token@.skip(start as int),
            digits == digits_of(token@),
            negative == (token@[0] == MINUS),
            all_digits(digits.take(i - start)),
            negative ==> value == -digits_value(digits.take(i - start)),
            !negative ==> value == digits_value(digits.take(i - start)),
        decreases n - i,
    {
        let byte = token[i];
        assert(byte == digits[i - start]);
        if byte < ZERO || byte > ZERO + 9 {
            assert(!is_digit(digits[i - start]));
            return None;
        }
        let digit: isize = (byte - ZERO) as isize;
        proof {
            let longer = digits.take(i - start + 1);
            assert(longer.drop_last() =~= digits.take(i - start));
            assert(longer.last() == byte);
            assert forall|j: int| 0 <= j < longer.len() implies is_digit(#[trigger] longer[j]) by {
                if j < i - start {
                    assert(longer[j] == digits.take(i - start)[j]);
                }
            }
            if all_digits(digits) {
                lemma_digits_value_grows(digits, i - start + 1);
            }
        }
        let scaled = match value.checked_mul(10) {
            Some(scaled) => scaled,
            None => {
                return None;
            },
        };
        let next = if negative {
            scaled.checked_sub(digit)
        } else {
            scaled.checked_add(digit)
        };
        value =
        match next {
            Some(next) => next,
            None => {
                return None;
            },
        };
        i = i + 1;
    }
    assert(digits.take(n - start) =~= digits);
    Some(value)
}

/// Whether `token` is the word `word`.
pub fn is_word(token: &[u8], word: &str) -> (r: bool)
    ensures
        r == (token@ == word.spec_bytes()),
{
    bytes_equal(token, word.as_bytes())
}

} // verus!
