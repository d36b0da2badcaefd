use wipple::number::{check_numeral, check_zero_numeral, compute, ArithmeticError};
use wipple::operators::BinaryOperator;

#[test]
fn numerals_are_recognised() {
    assert!(check_numeral("0"));
    assert!(check_numeral("42"));
    assert!(check_numeral("-42"));
    assert!(check_numeral("3.14"));
    assert!(check_numeral("-0.5"));
    assert!(check_numeral("007"));
}

#[test]
fn other_texts_are_not_numerals() {
    assert!(!check_numeral(""));
    assert!(!check_numeral("-"));
    assert!(!check_numeral("."));
    assert!(!check_numeral("1."));
    assert!(!check_numeral(".5"));
    assert!(!check_numeral("1.2.3"));
    assert!(!check_numeral("1e5"));
    assert!(!check_numeral("+1"));
    assert!(!check_numeral("--1"));
    assert!(!check_numeral("1 "));
    assert!(!check_numeral("x"));
    assert!(!check_numeral("\u{0661}"));
}

#[test]
fn zero_numerals_are_recognised() {
    assert!(check_zero_numeral("0"));
    assert!(check_zero_numeral("-0.000"));
    assert!(!check_zero_numeral("0.001"));
    assert!(!check_zero_numeral("10"));
}

#[test]
fn sum_of_two_numerals() {
    assert_eq!(compute(BinaryOperator::Add, "1", "2"), Ok("3".to_string()));
    assert_eq!(compute(BinaryOperator::Add, "0.1", "0.2"), Ok("0.3".to_string()));
    assert_eq!(
        compute(BinaryOperator::Add, "99999999999999999999999999", "1"),
        Ok("100000000000000000000000000".to_string())
    );
}

#[test]
fn difference_of_two_numerals() {
    assert_eq!(compute(BinaryOperator::Subtract, "1", "2"), Ok("-1".to_string()));
    assert_eq!(compute(BinaryOperator::Subtract, "5", "0"), Ok("5".to_string()));
}

#[test]
fn product_of_two_numerals() {
    assert_eq!(compute(BinaryOperator::Multiply, "4", "4"), Ok("16".to_string()));
    assert_eq!(compute(BinaryOperator::Multiply, "1.5", "2"), Ok("3.0".to_string()));
}

#[test]
fn quotient_of_two_numerals() {
    assert_eq!(compute(BinaryOperator::Divide, "6", "3"), Ok("2".to_string()));
    assert_eq!(compute(BinaryOperator::Divide, "1", "4"), Ok("0.25".to_string()));
}

#[test]
fn division_by_zero_is_refused() {
    assert_eq!(compute(BinaryOperator::Divide, "1", "0"), Err(ArithmeticError::DivisionByZero));
    assert_eq!(compute(BinaryOperator::Divide, "1", "-0.00"), Err(ArithmeticError::DivisionByZero));
    assert_eq!(compute(BinaryOperator::Divide, "0", "5"), Ok("0".to_string()));
}

#[test]
fn arithmetic_on_what_is_no_numeral_is_refused() {
    assert_eq!(compute(BinaryOperator::Add, "one", "2"), Err(ArithmeticError::Invalid));
    assert_eq!(compute(BinaryOperator::Multiply, "1", "1e3"), Err(ArithmeticError::Invalid));
    assert_eq!(compute(BinaryOperator::Divide, "", "0"), Err(ArithmeticError::Invalid));
}
