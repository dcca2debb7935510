//! 16.16 fixed-point scalars.
//!
//! All geometry in this crate (positions, sizes, texture coordinates,
//! color components, matrix entries) is carried as an `i64` holding a
//! 16.16 fixed-point value: the integer `v` stands for the real number
//! `v / 65536`. Products and quotients round toward zero, exactly as
//! stated by [`fx_mul_int`] and [`fx_div_int`].

use vstd::prelude::*;

verus! {

/// The fixed-point representation of one.
pub const FX_ONE: i64 = 65536;

/// Largest magnitude accepted by [`fx_mul`] and [`fx_div`].
/// With both arguments bounded by it, the intermediate product fits
/// comfortably in `u128` and the result in `i64`.
pub const FX_ARG_MAX: i64 = 0x80_0000_0000;

/// Integer division truncated toward zero.
pub open spec fn tdiv(p: int, q: int) -> int
    recommends
        q > 0,
{
    if p >= 0 {
        p / q
    } else {
        -((-p) / q)
    }
}

/// The exact value of the fixed-point product of `a` and `b`.
pub open spec fn fx_mul_int(a: int, b: int) -> int {
    tdiv(a * b, 65536)
}

/// The exact value of the fixed-point quotient of `a` by `b`.
pub open spec fn fx_div_int(a: int, b: int) -> int
    recommends
        b != 0,
{
    if b >= 0 {
        tdiv(a * 65536, b)
    } else {
        tdiv(-(a * 65536), -b)
    }
}

/// The product of the magnitudes of `a` and `b` is the magnitude of their
/// product.
proof fn lemma_mul_magnitudes(a: int, b: int, ua: int, ub: int)
    requires
        ua == if a >= 0 {
            a
        } else {
            -a
        },
        ub == if b >= 0 {
            b
        } else {
            -b
        },
    ensures
        ua * ub == if a * b >= 0 {
            a * b
        } else {
            -(a * b)
        },
        a * b >= 0 || ((a < 0) != (b < 0)),
        ((a < 0) == (b < 0)) ==> a * b >= 0,
        ((a < 0) != (b < 0)) ==> a * b <= 0,
{
    assert(ua * ub == if a * b >= 0 {
        a * b
    } else {
        -(a * b)
    } && (a * b >= 0 || ((a < 0) != (b < 0))) && (((a < 0) == (b < 0)) ==> a * b >= 0) && (((a < 0)
        != (b < 0)) ==> a * b <= 0))
        by (nonlinear_arith)
        requires
            ua == if a >= 0 {
                a
            } else {
                -a
            },
            ub == if b >= 0 {
                b
            } else {
                -b
            },
    ;
}

/// Fixed-point multiplication, rounding toward zero.
pub fn fx_mul(a: i64, b: i64) -> (r: i64)
    requires
        -FX_ARG_MAX <= a <= FX_ARG_MAX,
        -FX_ARG_MAX <= b <= FX_ARG_MAX,
    ensures
        r as int == fx_mul_int(a as int, b as int),
{
    let neg = (a < 0) != (b < 0);
    let ua: u128 = if a >= 0 {
        a as u128
    } else {
        (-a) as u128
    };
    let ub: u128 = if b >= 0 {
        b as u128
    } else {
        (-b) as u128
    };
    proof {
        lemma_mul_magnitudes(a as int, b as int, ua as int, ub as int);
        assert(ua * ub <= 0x80_0000_0000u128 * 0x80_0000_0000u128) by (nonlinear_arith)
            requires
                ua <= 0x80_0000_0000u128,
                ub <= 0x80_0000_0000u128,
        ;
    }
    let q: u128 = (ua * ub) / 65536;
    proof {
        vstd::arithmetic::div_mod::lemma_div_is_ordered(
            (ua * ub) as int,
            0x80_0000_0000int * 0x80_0000_0000int,
            65536,
        );
    }
    if neg {
        -(q as i64)
    } else {
        q as i64
    }
}

/// Fixed-point division, rounding toward zero.
pub fn fx_div(a: i64, b: i64) -> (r: i64)
    requires
        -FX_ARG_MAX <= a <= FX_ARG_MAX,
        -0x7FFF_FFFF_FFFF_FFFF <= b,
        b != 0,
    ensures
        r as int == fx_div_int(a as int, b as int),
{
    let neg = (a < 0) != (b < 0);
    let ua: u128 = if a >= 0 {
        a as u128
    } else {
        (-a) as u128
    };
    let ub: u128 = if b >= 0 {
        b as u128
    } else {
        (-b) as u128
    };
    proof {
        lemma_mul_magnitudes(a as int, 65536, ua as int, 65536);
        assert(ua * 65536 <= 0x80_0000_0000u128 * 65536u128) by (nonlinear_arith)
            requires
                ua <= 0x80_0000_0000u128,
        ;
    }
    let q: u128 = (ua * 65536) / ub;
    proof {
        vstd::arithmetic::div_mod::lemma_div_is_ordered_by_denominator(
            (ua * 65536) as int,
            1,
            ub as int,
        );
        vstd::arithmetic::div_mod::lemma_div_basics((ua * 65536) as int);
    }
    if neg {
        -(q as i64)
    } else {
        q as i64
    }
}

/// Bounds the fixed-point product by the product of argument bounds.
pub proof fn lemma_fx_mul_bound(a: int, b: int, m: int, n: int)
    requires
        -m <= a <= m,
        -n <= b <= n,
        0 <= m,
        0 <= n,
    ensures
        -((m * n) / 65536) <= fx_mul_int(a, b) <= (m * n) / 65536,
{
    assert(-(m * n) <= a * b <= m * n) by (nonlinear_arith)
        requires
            -m <= a <= m,
            -n <= b <= n,
            0 <= m,
            0 <= n,
    ;
    if a * b >= 0 {
        vstd::arithmetic::div_mod::lemma_div_is_ordered(a * b, m * n, 65536);
        vstd::arithmetic::div_mod::lemma_div_pos_is_pos(a * b, 65536);
    } else {
        vstd::arithmetic::div_mod::lemma_div_is_ordered(-(a * b), m * n, 65536);
        vstd::arithmetic::div_mod::lemma_div_pos_is_pos(-(a * b), 65536);
    }
}

/// A fixed-point quotient is no larger in magnitude than its dividend
/// when the divisor's magnitude is at least one.
pub proof fn lemma_fx_div_bound(a: int, b: int, m: int)
    requires
        -m <= a <= m,
        0 <= m,
        b >= 65536 || b <= -65536,
    ensures
        -m <= fx_div_int(a, b) <= m,
{
    let p = if a >= 0 {
        a * 65536
    } else {
        -(a * 65536)
    };
    let d = if b >= 0 {
        b
    } else {
        -b
    };
    assert(0 <= p <= m * 65536) by (nonlinear_arith)
        requires
            -m <= a <= m,
            0 <= m,
            p == if a >= 0 {
                a * 65536
            } else {
                -(a * 65536)
            },
    ;
    vstd::arithmetic::div_mod::lemma_div_is_ordered_by_denominator(p, 65536, d);
    vstd::arithmetic::div_mod::lemma_div_is_ordered(p, m * 65536, 65536);
    vstd::arithmetic::div_mod::lemma_div_pos_is_pos(p, d);
    assert((m * 65536) / 65536 == m) by (nonlinear_arith);
}

/// Multiplying by the fixed-point one is exact.
pub proof fn lemma_fx_mul_one(x: int)
    ensures
        fx_mul_int(65536, x) == x,
        fx_mul_int(x, 65536) == x,
{
    assert(65536 * x == x * 65536) by (nonlinear_arith);
    assert(x * 65536 >= 0 ==> (x * 65536) / 65536 == x) by (nonlinear_arith);
    assert(x * 65536 < 0 ==> (-(x * 65536)) == (-x) * 65536) by (nonlinear_arith);
    assert(x * 65536 < 0 ==> ((-x) * 65536) / 65536 == -x) by (nonlinear_arith);
}

/// Multiplying by zero gives zero.
pub proof fn lemma_fx_mul_zero(x: int)
    ensures
        fx_mul_int(0, x) == 0,
        fx_mul_int(x, 0) == 0,
{
    assert(0 * x == 0) by (nonlinear_arith);
    assert(x * 0 == 0) by (nonlinear_arith);
}

/// Negating one factor negates the truncated product exactly.
pub proof fn lemma_fx_mul_neg(a: int, b: int)
    ensures
        fx_mul_int(a, -b) == -fx_mul_int(a, b),
{
    assert(a * (-b) == -(a * b)) by (nonlinear_arith);
}

} // verus!
