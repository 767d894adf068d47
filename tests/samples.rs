use ast_normalizer::checked::{complex_error_handling, nested_try_catch, safe_divide};
use ast_normalizer::counting::{count, sum_range};

#[test]
fn count_reaches_ten() {
    assert_eq!(count(), 10);
}

#[test]
fn sum_range_values() {
    assert_eq!(sum_range(0), 0);
    assert_eq!(sum_range(1), 0);
    assert_eq!(sum_range(5), 10);
    assert_eq!(sum_range(-3), 0);
    assert_eq!(sum_range(65536), 2147450880);
}

#[test]
fn safe_divide_values() {
    assert_eq!(safe_divide(7, 2), Ok(3));
    assert_eq!(safe_divide(-7, 2), Ok(-3));
    assert_eq!(safe_divide(7, -2), Ok(-3));
    assert_eq!(safe_divide(-7, -2), Ok(3));
    assert_eq!(safe_divide(i32::MIN, 1), Ok(i32::MIN));
    assert_eq!(safe_divide(5, 0), Err("Division by zero".to_string()));
}

#[test]
fn complex_error_handling_values() {
    assert_eq!(complex_error_handling(-4), Err("Negative value not allowed".to_string()));
    assert_eq!(complex_error_handling(0), Err("Zero is invalid".to_string()));
    assert_eq!(complex_error_handling(7), Ok("Valid: 7".to_string()));
    assert_eq!(complex_error_handling(10), Ok("Valid: 10".to_string()));
    assert_eq!(complex_error_handling(1090), Ok("Valid: 1090".to_string()));
    assert_eq!(complex_error_handling(i32::MAX), Ok("Valid: 2147483647".to_string()));
}

#[test]
fn nested_try_catch_values() {
    assert_eq!(nested_try_catch(101), Err("Value too large".to_string()));
    assert_eq!(nested_try_catch(100), Ok(true));
    assert_eq!(nested_try_catch(-5), Ok(true));
}
