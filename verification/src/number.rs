//! Arbitrary-precision decimal arithmetic on numerals.
//!
//! A number is held as its numeral: an optional `-`, digits, and optionally a
//! point followed by digits. The arithmetic itself is done by `bigdecimal`.

use vstd::prelude::*;
use vstd::string::*;
use std::str::FromStr;
use bigdecimal::BigDecimal;
use crate::operators::BinaryOperator;

verus! {

/// The greatest length of a numeral that is computed with.
pub const NUMERAL_LIMIT: usize = 0x7fff_ffff;

pub open spec fn is_digit(c: char) -> bool {
    '0' <= c && c <= '9'
}

/// Whether `s[from..to]` is one digit or more, and digits only.
pub open spec fn digits(s: Seq<char>, from: int, to: int) -> bool {
    &&& 0 <= from < to <= s.len()
    &&& forall|i: int| from <= i < to ==> is_digit(#[trigger] s[i])
}

/// Whether `s` from `from` on is digits, optionally followed by a point and digits.
pub open spec fn unsigned_numeral(s: Seq<char>, from: int) -> bool {
    ||| digits(s, from, s.len() as int)
    ||| exists|point: int|
        #![trigger s[point]]
        s[point] == '.' && digits(s, from, point) && digits(s, point + 1, s.len() as int)
}

/// Whether `s` is a numeral: an optional `-`, then digits, optionally
/// followed by a point and digits; and not longer than the limit.
pub open spec fn is_numeral(s: Seq<char>) -> bool {
    &&& s.len() <= NUMERAL_LIMIT
    &&& if s.len() > 0 && s[0] == '-' {
        unsigned_numeral(s, 1)
    } else {
        unsigned_numeral(s, 0)
    }
}

/// Whether every digit of `s` is `0`.
pub open spec fn is_zero_numeral(s: Seq<char>) -> bool {
    forall|i: int| 0 <= i < s.len() && is_digit(#[trigger] s[i]) ==> s[i] == '0'
}

/// The numeral that `bigdecimal` prints for the sum of two numerals.
pub uninterp spec fn decimal_sum(a: Seq<char>, b: Seq<char>) -> Seq<char>;

/// The numeral that `bigdecimal` prints for the difference of two numerals.
pub uninterp spec fn decimal_difference(a: Seq<char>, b: Seq<char>) -> Seq<char>;

/// The numeral that `bigdecimal` prints for the product of two numerals.
pub uninterp spec fn decimal_product(a: Seq<char>, b: Seq<char>) -> Seq<char>;

/// The numeral that `bigdecimal` prints for the quotient of two numerals.
pub uninterp spec fn decimal_quotient(a: Seq<char>, b: Seq<char>) -> Seq<char>;

/// `BigDecimal::from_str` on both numerals, `+`, and `to_string`. Both parse,
/// being numerals; the result is named, not described.
#[verifier::external_body]
fn add_numerals(a: &str, b: &str) -> (r: String)
    requires
        is_numeral(a@),
        is_numeral(b@),
    ensures
        r@ == decimal_sum(a@, b@),
{
    (BigDecimal::from_str(a).unwrap() + BigDecimal::from_str(b).unwrap()).to_string()
}

/// `BigDecimal::from_str` on both numerals, `-`, and `to_string`. Both parse,
/// being numerals; the result is named, not described.
#[verifier::external_body]
fn subtract_numerals(a: &str, b: &str) -> (r: String)
    requires
        is_numeral(a@),
        is_numeral(b@),
    ensures
        r@ == decimal_difference(a@, b@),
{
    (BigDecimal::from_str(a).unwrap() - BigDecimal::from_str(b).unwrap()).to_string()
}

/// `BigDecimal::from_str` on both numerals, `*`, and `to_string`. Both parse,
/// being numerals; the result is named, not described.
#[verifier::external_body]
fn multiply_numerals(a: &str, b: &str) -> (r: String)
    requires
        is_numeral(a@),
        is_numeral(b@),
    ensures
        r@ == decimal_product(a@, b@),
{
    (BigDecimal::from_str(a).unwrap() * BigDecimal::from_str(b).unwrap()).to_string()
}

/// `BigDecimal::from_str` on both numerals, `/`, and `to_string`. Both parse,
/// being numerals, and `/` panics on a zero divisor only, which a numeral
/// with a digit other than `0` is not; the result is named, not described.
#[verifier::external_body]
fn divide_numerals(a: &str, b: &str) -> (r: String)
    requires
        is_numeral(a@),
        is_numeral(b@),
        !is_zero_numeral(b@),
    ensures
        r@ == decimal_quotient(a@, b@),
{
    (BigDecimal::from_str(a).unwrap() / BigDecimal::from_str(b).unwrap()).to_string()
}

fn scan_digits(s: &str, from: usize, length: usize) -> (r: usize)
    requires
        from <= length,
        length == s@.len(),
    ensures
        from <= r <= length,
        forall|i: int| from <= i < r ==> is_digit(#[trigger] s@[i]),
        r < length ==> !is_digit(s@[r as int]),
{
    let mut i: usize = from;
    while i < length
        invariant
            from <= i <= length,
            length == s@.len(),
            forall|j: int| from <= j < i ==> is_digit(#[trigger] s@[j]),
        decreases length - i,
    {
        let c = s.get_char(i);
        if !('0' <= c && c <= '9') {
            return i;
        }
        i += 1;
    }
    i
}

/// Whether `s` is a numeral.
pub fn check_numeral(s: &str) -> (r: bool)
    ensures
        r == is_numeral(s@),
{
    let length: usize = s.unicode_len();
    if length > NUMERAL_LIMIT || length == 0 {
        return false;
    }
    let from: usize = if s.get_char(0) == '-' {
        1
    } else {
        0
    };
    let end: usize = scan_digits(s, from, length);
    if end == from {
        proof {
            if unsigned_numeral(s@, from as int) {
                if !digits(s@, from as int, length as int) {
                    let point = choose|point: int|
                        #![trigger s@[point]]
                        s@[point] == '.' && digits(s@, from as int, point) && digits(
                            s@,
                            point + 1,
                            s@.len() as int,
                        );
                    assert(is_digit(s@[from as int]));
                }
            }
        }
        return false;
    }
    if end == length {
        assert(digits(s@, from as int, length as int));
        return true;
    }
    if s.get_char(end) != '.' {
        proof {
            if unsigned_numeral(s@, from as int) {
                if !digits(s@, from as int, length as int) {
                    let point = choose|point: int|
                        #![trigger s@[point]]
                        s@[point] == '.' && digits(s@, from as int, point) && digits(
                            s@,
                            point + 1,
                            s@.len() as int,
                        );
                    if point < end {
                        assert(is_digit(s@[point]));
                    } else {
                        assert(is_digit(s@[end as int]));
                    }
                }
            }
        }
        return false;
    }
    let last: usize = scan_digits(s, end + 1, length);
    let r = last == length && end + 1 < length;
    proof {
        if r {
            assert(digits(s@, from as int, end as int));
            assert(digits(s@, end + 1, length as int));
        } else if unsigned_numeral(s@, from as int) {
            if digits(s@, from as int, length as int) {
                assert(is_digit(s@[end as int]));
            } else {
                let point = choose|point: int|
                    #![trigger s@[point]]
                    s@[point] == '.' && digits(s@, from as int, point) && digits(
                        s@,
                        point + 1,
                        s@.len() as int,
                    );
                if point < end {
                    assert(is_digit(s@[point]));
                } else if point > end {
                    assert(is_digit(s@[end as int]));
                } else if last < length {
                    assert(is_digit(s@[last as int]));
                }
            }
        }
    }
    r
}

/// Whether every digit of `s` is `0`.
pub fn check_zero_numeral(s: &str) -> (r: bool)
    ensures
        r == is_zero_numeral(s@),
{
    let length: usize = s.unicode_len();
    let mut i: usize = 0;
    while i < length
        invariant
            i <= length,
            length == s@.len(),
            forall|j: int| 0 <= j < i && is_digit(#[trigger] s@[j]) ==> s@[j] == '0',
        decreases length - i,
    {
        let c = s.get_char(i);
        if '1' <= c && c <= '9' {
            assert(is_digit(s@[i as int]));
            return false;
        }
        i += 1;
    }
    true
}

/// What an arithmetic operator makes of two texts.
pub enum Arithmetic {
    /// The numeral of the result.
    Numeral(Seq<char>),
    /// One of the texts is not a numeral.
    Invalid,
    /// A division by zero.
    DivisionByZero,
}

/// What `operator` makes of `a` and `b`. The numeral of a result is the one
/// that `bigdecimal` prints.
pub open spec fn arithmetic(operator: BinaryOperator, a: Seq<char>, b: Seq<char>) -> Arithmetic {
    if !is_numeral(a) || !is_numeral(b) {
        Arithmetic::Invalid
    } else {
        match operator {
            BinaryOperator::Add => Arithmetic::Numeral(decimal_sum(a, b)),
            BinaryOperator::Subtract => Arithmetic::Numeral(decimal_difference(a, b)),
            BinaryOperator::Multiply => Arithmetic::Numeral(decimal_product(a, b)),
            BinaryOperator::Divide => if is_zero_numeral(b) {
                Arithmetic::DivisionByZero
            } else {
                Arithmetic::Numeral(decimal_quotient(a, b))
            },
        }
    }
}

/// What went wrong in a computation.
#[derive(Clone, Copy, PartialEq, Eq, Structural, Debug)]
pub enum ArithmeticError {
    Invalid,
    DivisionByZero,
}

/// Applies `operator` to the numerals `a` and `b`.
pub fn compute(operator: BinaryOperator, a: &str, b: &str) -> (r: Result<String, ArithmeticError>)
    ensures
        match r {
            Ok(numeral) => arithmetic(operator, a@, b@) == Arithmetic::Numeral(numeral@),
            Err(ArithmeticError::Invalid) => arithmetic(operator, a@, b@) == Arithmetic::Invalid,
            Err(ArithmeticError::DivisionByZero) => arithmetic(operator, a@, b@)
                == Arithmetic::DivisionByZero,
        },
{
    if !check_numeral(a) || !check_numeral(b) {
        return Err(ArithmeticError::Invalid);
    }
    match operator {
        BinaryOperator::Add => Ok(add_numerals(a, b)),
        BinaryOperator::Subtract => Ok(subtract_numerals(a, b)),
        BinaryOperator::Multiply => Ok(multiply_numerals(a, b)),
        BinaryOperator::Divide => {
            if check_zero_numeral(b) {
                Err(ArithmeticError::DivisionByZero)
            } else {
                Ok(divide_numerals(a, b))
            }
        },
    }
}

} // verus!
