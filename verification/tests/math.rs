use nexus::natives::math::{
    __nx_abs_i64, __nx_max_i64, __nx_min_i64, __nx_mod_i64, checked_mod_i64, MathError,
    NX_MATH_ERROR_I64,
};

#[test]
fn mod_i64_zero_returns_explicit_error_value() {
    assert_eq!(__nx_mod_i64(10, 0), NX_MATH_ERROR_I64);
}

#[test]
fn mod_i64_follows_the_sign_of_the_dividend() {
    assert_eq!(__nx_mod_i64(7, 3), 1);
    assert_eq!(__nx_mod_i64(-7, 3), -1);
    assert_eq!(__nx_mod_i64(7, -3), 1);
    assert_eq!(__nx_mod_i64(-7, -3), -1);
    assert_eq!(__nx_mod_i64(i64::MIN, 7), i64::MIN % 7);
}

#[test]
fn checked_mod_reports_division_by_zero() {
    assert_eq!(checked_mod_i64(5, 0), Err(MathError::DivisionByZero));
    assert_eq!(checked_mod_i64(5, 2), Ok(1));
    assert_eq!(MathError::DivisionByZero.message(), "mod: division by zero");
}

#[test]
fn abs_max_min_of_integers() {
    assert_eq!(__nx_abs_i64(-5), 5);
    assert_eq!(__nx_abs_i64(5), 5);
    assert_eq!(__nx_abs_i64(i64::MAX), i64::MAX);
    assert_eq!(__nx_max_i64(-3, 2), 2);
    assert_eq!(__nx_min_i64(-3, 2), -3);
    assert_eq!(__nx_max_i64(4, 4), 4);
}
