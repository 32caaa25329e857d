//! Whole-number helpers: values held within the range of a machine integer,
//! and division that rounds toward zero.

use vstd::prelude::*;

verus! {

/// `v` brought into the range of `i32`, the nearest end standing for a value
/// beyond it.
pub open spec fn clamp_i32(v: int) -> i32 {
    if v < i32::MIN {
        i32::MIN
    } else if v > i32::MAX {
        i32::MAX
    } else {
        v as i32
    }
}

/// `v` brought into the range of `u32`, the nearest end standing for a value
/// beyond it.
pub open spec fn clamp_u32(v: int) -> u32 {
    if v < 0 {
        0
    } else if v > u32::MAX {
        u32::MAX
    } else {
        v as u32
    }
}

/// `v` brought into the range of `i64`, the nearest end standing for a value
/// beyond it.
pub open spec fn clamp_i64(v: int) -> i64 {
    if v < i64::MIN {
        i64::MIN
    } else if v > i64::MAX {
        i64::MAX
    } else {
        v as i64
    }
}

/// The quotient of `a` by a positive `b`, rounded toward zero.
pub open spec fn trunc_div(a: int, b: int) -> int {
    if a >= 0 {
        a / b
    } else {
        -((-a) / b)
    }
}

/// `v` held within the range of `i32`.
pub fn saturate_i32(v: i64) -> (r: i32)
    ensures
        r == clamp_i32(v as int),
{
    if v < i32::MIN as i64 {
        i32::MIN
    } else if v > i32::MAX as i64 {
        i32::MAX
    } else {
        v as i32
    }
}

/// `v` held within the range of `u32`.
pub fn saturate_u32(v: i64) -> (r: u32)
    ensures
        r == clamp_u32(v as int),
{
    if v < 0 {
        0
    } else if v > u32::MAX as i64 {
        u32::MAX
    } else {
        v as u32
    }
}

/// `v` held within the range of `i64`.
pub fn saturate_i64(v: i128) -> (r: i64)
    ensures
        r == clamp_i64(v as int),
    no_unwind
{
    if v < i64::MIN as i128 {
        i64::MIN
    } else if v > i64::MAX as i128 {
        i64::MAX
    } else {
        v as i64
    }
}

/// The quotient of `a` by `b`, rounded toward zero. `b` must be positive.
pub fn div_toward_zero(a: i128, b: i128) -> (q: i128)
    requires
        b > 0,
        a > i128::MIN,
    ensures
        q == trunc_div(a as int, b as int),
{
    if a >= 0 {
        a / b
    } else {
        let positive: i128 = (-a) / b;
        assert(0 <= positive <= -a) by (nonlinear_arith)
            requires
                positive == (-a) / (b as int),
                b > 0,
                -a >= 0,
        ;
        -positive
    }
}

/// Rounding toward zero leaves a quotient no further from zero than the
/// dividend.
pub proof fn lemma_trunc_div_bounds(a: int, b: int)
    requires
        b > 0,
    ensures
        a >= 0 ==> 0 <= trunc_div(a, b) <= a,
        a <= 0 ==> a <= trunc_div(a, b) <= 0,
        b * trunc_div(a, b) <= a || a <= 0,
        b * trunc_div(a, b) >= a || a >= 0,
{
    if a >= 0 {
        assert(0 <= a / b <= a && b * (a / b) <= a) by (nonlinear_arith)
            requires
                a >= 0,
                b > 0,
        ;
    } else {
        let n = -a;
        assert(0 <= n / b <= n && b * (n / b) <= n) by (nonlinear_arith)
            requires
                n >= 0,
                b > 0,
        ;
        assert(b * (-(n / b)) == -(b * (n / b))) by (nonlinear_arith);
    }
}

} // verus!
