use c123chain_cdk::math::{safe_add, safe_div, safe_mul, safe_sub, ArithmeticFault, SafeAdd};

#[test]
fn add_overflow_faults() {
    assert_eq!(safe_add(255u8, 1u8), Err(ArithmeticFault::AddOverflow));
    assert_eq!(safe_add(254u8, 1u8), Ok(255));
    assert_eq!(safe_add(i128::MAX, 1), Err(ArithmeticFault::AddOverflow));
    assert_eq!(7u16.safe_add(8), Ok(15));
}

#[test]
fn divide_by_zero_faults() {
    assert_eq!(safe_div(10u32, 0), Err(ArithmeticFault::DivideByZero));
    assert_eq!(safe_div(10i64, 0), Err(ArithmeticFault::DivideByZero));
    assert_eq!(safe_div(10u32, 3), Ok(3));
}

#[test]
fn signed_division_truncates_and_overflows() {
    assert_eq!(safe_div(-7i32, 2), Ok(-3));
    assert_eq!(safe_div(7i32, -2), Ok(-3));
    assert_eq!(safe_div(i8::MIN, -1), Err(ArithmeticFault::DivideOverflow));
}

#[test]
fn multiply_is_exact_or_faults() {
    assert_eq!(safe_mul(1000u64, 1000u64), Ok(1_000_000));
    assert_eq!(safe_mul(u128::MAX, 2), Err(ArithmeticFault::MulOverflow));
}

#[test]
fn subtract_underflow_faults() {
    assert_eq!(safe_sub(0u64, 1), Err(ArithmeticFault::SubOverflow));
    assert_eq!(safe_sub(i16::MIN, 1), Err(ArithmeticFault::SubOverflow));
    assert_eq!(safe_sub(5i8, 7), Ok(-2));
}

#[test]
fn fault_messages_are_fixed() {
    assert_eq!(ArithmeticFault::AddOverflow.message(), "add overflow");
    assert_eq!(ArithmeticFault::SubOverflow.message(), "subtract overflow");
    assert_eq!(ArithmeticFault::MulOverflow.message(), "multiply overflow");
    assert_eq!(ArithmeticFault::DivideByZero.message(), "divide by zero");
    assert_eq!(ArithmeticFault::DivideOverflow.message(), "divide overflow");
}
