//! Fixed-point numbers: a real value `v` is held as the integer `v * SCALE`.
use vstd::prelude::*;

verus! {

/// Units of a fixed-point value per 1.0.
pub const SCALE: i64 = 1_000_000;

/// Division that rounds toward zero, as Rust's integer `/` does.
pub open spec fn tdiv(a: int, b: int) -> int {
    if a >= 0 {
        a / b
    } else {
        -((-a) / b)
    }
}

/// Product of two fixed-point values, rounded toward zero.
pub open spec fn fixed_mul(a: int, b: int) -> int {
    tdiv(a * b, SCALE as int)
}

/// Quotient of two fixed-point values, rounded toward zero.
pub open spec fn fixed_div(a: int, b: int) -> int {
    tdiv(a * SCALE, b)
}

/// `a / b` rounded toward zero, for a positive divisor.
pub fn div_toward_zero(a: i128, b: i128) -> (r: i128)
    requires
        b > 0,
        a > i128::MIN,
    ensures
        r == tdiv(a as int, b as int),
{
    if a >= 0 {
        a / b
    } else {
        let q = (-a) / b;
        -q
    }
}

} // verus!
