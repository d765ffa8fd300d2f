//! Integer helpers of the `math` host library.

use vstd::prelude::*;

verus! {

/// The value the integer math helpers return when an operation has no result.
pub const NX_MATH_ERROR_I64: i64 = -9223372036854775808i64;

/// Why an integer math helper could not produce a result.
#[derive(Debug, Clone, Copy, PartialEq, Eq)]
pub enum MathError {
    DivisionByZero,
}

impl MathError {
    /// The text reported for this error.
    pub open spec fn text(self) -> Seq<char> {
        match self {
            MathError::DivisionByZero => "mod: division by zero"@,
        }
    }

    /// The message reported for this error.
    pub fn message(&self) -> (m: String)
        ensures
            m@ == self.text(),
    {
        match self {
            MathError::DivisionByZero => String::from_str("mod: division by zero"),
        }
    }
}

/// The remainder of truncating division (the sign follows the dividend),
/// as Rust's `%` on signed integers computes it.
pub open spec fn truncated_rem(a: int, b: int) -> int
    recommends
        b != 0,
{
    let m = if b < 0 { -b } else { b };
    if a >= 0 {
        a % m
    } else {
        -((-a) % m)
    }
}

/// The absolute value of `a`.
pub open spec fn abs_of(a: int) -> int {
    if a < 0 {
        -a
    } else {
        a
    }
}

/// The larger of `a` and `b`.
pub open spec fn max_of(a: int, b: int) -> int {
    if a >= b {
        a
    } else {
        b
    }
}

/// The smaller of `a` and `b`.
pub open spec fn min_of(a: int, b: int) -> int {
    if a <= b {
        a
    } else {
        b
    }
}

/// Absolute value of `val`.
pub fn __nx_abs_i64(val: i64) -> (r: i64)
    requires
        val != i64::MIN,
    ensures
        r == abs_of(val as int),
{
    if val < 0 {
        -val
    } else {
        val
    }
}

/// The larger of `a` and `b`.
pub fn __nx_max_i64(a: i64, b: i64) -> (r: i64)
    ensures
        r == max_of(a as int, b as int),
{
    if a >= b {
        a
    } else {
        b
    }
}

/// The smaller of `a` and `b`.
pub fn __nx_min_i64(a: i64, b: i64) -> (r: i64)
    ensures
        r == min_of(a as int, b as int),
{
    if a <= b {
        a
    } else {
        b
    }
}

/// The absolute value is never negative and is the number or its
/// negation: the number itself when it is not negative.
pub proof fn lemma_abs_is_magnitude(a: int)
    ensures
        abs_of(a) >= 0,
        abs_of(a) == a || abs_of(a) == -a,
        a >= 0 ==> abs_of(a) == a,
{
}

/// The minimum and the maximum of two integers are those two integers, the
/// smaller first.
pub proof fn lemma_min_max_split(a: int, b: int)
    ensures
        min_of(a, b) <= max_of(a, b),
        min_of(a, b) + max_of(a, b) == a + b,
{
}

/// The remainder is smaller than the divisor in size, has the sign of the
/// dividend, and the dividend minus the remainder is a multiple of the
/// divisor.
pub proof fn lemma_remainder_bounds(a: int, b: int)
    requires
        b != 0,
    ensures
        abs_of(truncated_rem(a, b)) < abs_of(b),
        a >= 0 ==> truncated_rem(a, b) >= 0,
        a < 0 ==> truncated_rem(a, b) <= 0,
        (a - truncated_rem(a, b)) % abs_of(b) == 0,
{
    let m = abs_of(b);
    if a >= 0 {
        vstd::arithmetic::div_mod::lemma_fundamental_div_mod(a, m);
        vstd::arithmetic::div_mod::lemma_mod_multiples_basic(a / m, m);
        assert((a - a % m) == m * (a / m));
        vstd::arithmetic::mul::lemma_mul_is_commutative(m, a / m);
    } else {
        let na = -a;
        vstd::arithmetic::div_mod::lemma_fundamental_div_mod(na, m);
        assert(a - truncated_rem(a, b) == -(m * (na / m)));
        vstd::arithmetic::mul::lemma_mul_unary_negation(m, na / m);
        vstd::arithmetic::mul::lemma_mul_is_commutative(m, -(na / m));
        vstd::arithmetic::div_mod::lemma_mod_multiples_basic(-(na / m), m);
    }
}

/// `a % b`, or `DivisionByZero` when `b` is zero.
pub fn checked_mod_i64(a: i64, b: i64) -> (r: Result<i64, MathError>)
    requires
        !(a == i64::MIN && b == -1),
    ensures
        b == 0 ==> r == Err::<i64, MathError>(MathError::DivisionByZero),
        b != 0 ==> r == Ok::<i64, MathError>(truncated_rem(a as int, b as int) as i64),
{
    if b == 0 {
        return Err(MathError::DivisionByZero);
    }
    match a.checked_rem(b) {
        Some(r) => Ok(r),
        None => Err(MathError::DivisionByZero),
    }
}

/// `a % b`; a zero divisor gives `NX_MATH_ERROR_I64`.
pub fn __nx_mod_i64(a: i64, b: i64) -> (r: i64)
    requires
        !(a == i64::MIN && b == -1),
    ensures
        b == 0 ==> r == NX_MATH_ERROR_I64,
        b != 0 ==> r == truncated_rem(a as int, b as int),
{
    match checked_mod_i64(a, b) {
        Ok(r) => r,
        Err(_) => NX_MATH_ERROR_I64,
    }
}

} // verus!
