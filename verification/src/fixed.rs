//! Signed 16.16 fixed-point scalar arithmetic.
//!
//! A scalar is an `i64` holding a real value scaled by `FX_ONE` (2^16).
//! Every operation is total: results outside the representable range
//! saturate to `i64::MAX` / `i64::MIN`, and division by zero saturates in
//! the direction of the numerator's sign.  Each executable operation is
//! proved equal to an exact mathematical mirror over `int`.

use vstd::prelude::*;

verus! {

/// The fixed-point representation of 1.0.
pub const FX_ONE: i64 = 65536;

/// The fixed-point representation of 0.5.
pub const FX_HALF: i64 = 32768;

/// Saturation of a mathematical integer into the `i64` range.
pub open spec fn sat64(x: int) -> i64 {
    if x > i64::MAX {
        i64::MAX
    } else if x < i64::MIN {
        i64::MIN
    } else {
        x as i64
    }
}

/// Absolute value over `int`.
pub open spec fn fxabs(x: int) -> int {
    if x < 0 {
        -x
    } else {
        x
    }
}

/// Division truncating toward zero, as machine division does.
/// (`/` on `int` is Euclidean, so truncation is stated via magnitudes.)
pub open spec fn quot_trunc(n: int, d: int) -> int
    recommends
        d != 0,
{
    if (n < 0) == (d < 0) {
        fxabs(n) / fxabs(d)
    } else {
        -(fxabs(n) / fxabs(d))
    }
}

pub open spec fn fx_add_spec(a: i64, b: i64) -> i64 {
    sat64(a + b)
}

pub open spec fn fx_sub_spec(a: i64, b: i64) -> i64 {
    sat64(a - b)
}

pub open spec fn fx_neg_spec(a: i64) -> i64 {
    sat64(-a)
}

pub open spec fn fx_mul_spec(a: i64, b: i64) -> i64 {
    sat64(quot_trunc(a * b, FX_ONE as int))
}

pub open spec fn fx_div_spec(a: i64, b: i64) -> i64 {
    if b == 0 {
        if a > 0 {
            i64::MAX
        } else if a < 0 {
            i64::MIN
        } else {
            0
        }
    } else {
        sat64(quot_trunc(a * (FX_ONE as int), b as int))
    }
}

/// Fixed-point addition, saturating at the `i64` range.
pub fn fx_add(a: i64, b: i64) -> (r: i64)
    ensures
        r == fx_add_spec(a, b),
{
    let s: i128 = a as i128 + b as i128;
    if s > i64::MAX as i128 {
        i64::MAX
    } else if s < i64::MIN as i128 {
        i64::MIN
    } else {
        s as i64
    }
}

/// Fixed-point subtraction, saturating at the `i64` range.
pub fn fx_sub(a: i64, b: i64) -> (r: i64)
    ensures
        r == fx_sub_spec(a, b),
{
    let s: i128 = a as i128 - b as i128;
    if s > i64::MAX as i128 {
        i64::MAX
    } else if s < i64::MIN as i128 {
        i64::MIN
    } else {
        s as i64
    }
}

/// Fixed-point negation (the negation of `i64::MIN` saturates).
pub fn fx_neg(a: i64) -> (r: i64)
    ensures
        r == fx_neg_spec(a),
{
    if a == i64::MIN {
        i64::MAX
    } else {
        -a
    }
}

/// Fixed-point multiplication: `(a * b) / 2^16`, truncated toward zero,
/// saturating at the `i64` range.
pub fn fx_mul(a: i64, b: i64) -> (r: i64)
    ensures
        r == fx_mul_spec(a, b),
{
    proof {
        assert((a as int) * (b as int) <= 0x40000000000000000000000000000000int
            && (a as int) * (b as int) >= -0x40000000000000000000000000000000int) by (nonlinear_arith)
            requires
                -0x8000000000000000int <= a <= 0x7fffffffffffffffint,
                -0x8000000000000000int <= b <= 0x7fffffffffffffffint,
        ;
    }
    let p: i128 = (a as i128) * (b as i128);
    let neg: bool = (a < 0) != (b < 0);
    proof {
        assert(((a < 0) != (b < 0)) ==> (a as int) * (b as int) <= 0) by (nonlinear_arith);
        assert(((a < 0) == (b < 0)) ==> (a as int) * (b as int) >= 0) by (nonlinear_arith);
    }
    let mag: u128 = if p < 0 {
        (-p) as u128
    } else {
        p as u128
    };
    let q: u128 = mag / 65536u128;
    if neg {
        if q >= 0x8000000000000000u128 {
            i64::MIN
        } else {
            -(q as i64)
        }
    } else {
        if q > i64::MAX as u128 {
            i64::MAX
        } else {
            q as i64
        }
    }
}

/// Fixed-point division: `(a * 2^16) / b`, truncated toward zero,
/// saturating at the `i64` range; division by zero saturates in the
/// direction of `a`'s sign.
pub fn fx_div(a: i64, b: i64) -> (r: i64)
    ensures
        r == fx_div_spec(a, b),
{
    if b == 0 {
        if a > 0 {
            i64::MAX
        } else if a < 0 {
            i64::MIN
        } else {
            0
        }
    } else {
        let n: i128 = (a as i128) * 65536;
        let neg: bool = (a < 0) != (b < 0);
        let mag_n: u128 = if n < 0 {
            (-n) as u128
        } else {
            n as u128
        };
        let mag_d: u128 = if b < 0 {
            (-(b as i128)) as u128
        } else {
            b as u128
        };
        let q: u128 = mag_n / mag_d;
        proof {
            lemma_quot_sign(a * (FX_ONE as int), b as int, q as int);
        }
        if neg {
            if q >= 0x8000000000000000u128 {
                i64::MIN
            } else {
                -(q as i64)
            }
        } else {
            if q > i64::MAX as u128 {
                i64::MAX
            } else {
                q as i64
            }
        }
    }
}

/// Relates the magnitude quotient to `quot_trunc` for a nonzero divisor.
proof fn lemma_quot_sign(n: int, d: int, q: int)
    requires
        d != 0,
        q == fxabs(n) / fxabs(d),
    ensures
        (n < 0) != (d < 0) ==> quot_trunc(n, d) == -q,
        (n < 0) == (d < 0) ==> quot_trunc(n, d) == q,
{
}

/// Scaling a nonnegative scalar by a factor in [0, 1] cannot exceed it.
pub proof fn lemma_fx_mul_le_factor(t: i64, d: i64)
    requires
        0 <= t <= FX_ONE,
        0 <= d,
    ensures
        0 <= fx_mul_spec(t, d) <= d,
{
    let p = (t as int) * (d as int);
    vstd::arithmetic::mul::lemma_mul_nonnegative(t as int, d as int);
    vstd::arithmetic::mul::lemma_mul_inequality(t as int, 65536, d as int);
    vstd::arithmetic::div_mod::lemma_multiply_divide_le(p, 65536, d as int);
    vstd::arithmetic::div_mod::lemma_div_pos_is_pos(p, 65536);
    assert(quot_trunc(p, FX_ONE as int) == p / 65536);
}

/// Scaling a nonpositive scalar by a factor in [0, 1] cannot go below it.
pub proof fn lemma_fx_mul_ge_factor_neg(t: i64, d: i64)
    requires
        0 <= t <= FX_ONE,
        d <= 0,
    ensures
        d <= fx_mul_spec(t, d) <= 0,
{
    let m = -(d as int);
    let p = (t as int) * (d as int);
    assert(p == -((t as int) * m)) by (nonlinear_arith)
        requires
            m == -(d as int),
            p == (t as int) * (d as int),
    ;
    vstd::arithmetic::mul::lemma_mul_nonnegative(t as int, m);
    vstd::arithmetic::mul::lemma_mul_inequality(t as int, 65536, m);
    vstd::arithmetic::div_mod::lemma_multiply_divide_le((t as int) * m, 65536, m);
    vstd::arithmetic::div_mod::lemma_div_pos_is_pos((t as int) * m, 65536);
    if p == 0 {
        assert(quot_trunc(p, FX_ONE as int) == 0);
    } else {
        assert(quot_trunc(p, FX_ONE as int) == -(((t as int) * m) / 65536));
    }
}

/// `n` scaled to fixed point, saturating for very large `n`.
pub open spec fn fx_from_usize_spec(n: usize) -> i64 {
    sat64(n * (FX_ONE as int))
}

/// Converts a pixel or sample count to a fixed-point scalar.
pub fn fx_from_usize(n: usize) -> (r: i64)
    ensures
        r == fx_from_usize_spec(n),
{
    let w: u128 = (n as u128) * 65536;
    if w > i64::MAX as u128 {
        i64::MAX
    } else {
        w as i64
    }
}

/// `r` is the integer square root of `x`.
pub open spec fn is_isqrt(x: int, r: int) -> bool {
    0 <= r && r * r <= x && x < (r + 1) * (r + 1)
}

/// The integer square root of a nonnegative integer
/// (meaningful under `lemma_isqrt_exists`).
pub open spec fn spec_isqrt(x: int) -> int {
    choose|r: int| is_isqrt(x, r)
}

proof fn lemma_isqrt_construct(x: int) -> (r: int)
    requires
        x >= 0,
    ensures
        is_isqrt(x, r),
    decreases x,
{
    if x == 0 {
        assert(is_isqrt(0, 0));
        0
    } else {
        let p = lemma_isqrt_construct(x - 1);
        if (p + 1) * (p + 1) <= x {
            let r = p + 1;
            assert((r + 1) * (r + 1) > x) by (nonlinear_arith)
                requires
                    0 <= p,
                    r == p + 1,
                    x - 1 < (p + 1) * (p + 1),
            ;
            assert(is_isqrt(x, r));
            r
        } else {
            assert(is_isqrt(x, p));
            p
        }
    }
}

/// An integer square root exists and is unique, so `spec_isqrt` denotes it.
pub proof fn lemma_isqrt_exists(x: int)
    requires
        x >= 0,
    ensures
        is_isqrt(x, spec_isqrt(x)),
{
    let r = lemma_isqrt_construct(x);
    assert(is_isqrt(x, r));
}

pub proof fn lemma_isqrt_unique(x: int, r1: int, r2: int)
    requires
        is_isqrt(x, r1),
        is_isqrt(x, r2),
    ensures
        r1 == r2,
{
    assert(r1 == r2) by (nonlinear_arith)
        requires
            0 <= r1 && r1 * r1 <= x && x < (r1 + 1) * (r1 + 1),
            0 <= r2 && r2 * r2 <= x && x < (r2 + 1) * (r2 + 1),
    ;
}

/// Integer square root of a value below 2^80, by bisection.
fn isqrt_u128(x: u128) -> (r: u64)
    requires
        x < 0x100000000000000000000u128,
    ensures
        is_isqrt(x as int, r as int),
{
    if x == 0 {
        return 0;
    }
    let mut lo: u128 = 0;
    let mut hi: u128 = 0x10000000000u128;
    proof {
        assert(0x10000000000u128 * 0x10000000000u128 == 0x100000000000000000000int) by (nonlinear_arith);
    }
    while lo + 1 < hi
        invariant
            x < 0x100000000000000000000u128,
            lo < hi,
            hi <= 0x10000000000u128,
            lo * lo <= x,
            x < hi * hi,
        decreases hi - lo,
    {
        let mid: u128 = lo + (hi - lo) / 2;
        proof {
            assert(mid * mid < 0x100000000000000000000000000000000int) by (nonlinear_arith)
                requires
                    mid < 0x10000000000u128,
            ;
        }
        if mid * mid <= x {
            lo = mid;
        } else {
            hi = mid;
        }
    }
    proof {
        assert(hi == lo + 1);
    }
    lo as u64
}

/// The fixed-point square root: 0 for nonpositive inputs, else the
/// truncated square root of the scaled value.
pub open spec fn fx_sqrt_spec(a: i64) -> i64 {
    if a <= 0 {
        0
    } else {
        spec_isqrt(a * (FX_ONE as int)) as i64
    }
}

/// Fixed-point square root, truncating.  Nonpositive inputs give 0.
pub fn fx_sqrt(a: i64) -> (r: i64)
    ensures
        r == fx_sqrt_spec(a),
{
    if a <= 0 {
        0
    } else {
        let x: u128 = (a as u128) * 65536;
        let r = isqrt_u128(x);
        proof {
            lemma_isqrt_exists(x as int);
            lemma_isqrt_unique(x as int, r as int, spec_isqrt(x as int));
            assert((r as int) < 0x10000000000int) by (nonlinear_arith)
                requires
                    0 <= r as int,
                    (r as int) * (r as int) <= (x as int),
                    (x as int) < 0x100000000000000000000int,
            ;
            assert(x as int == a * (FX_ONE as int));
        }
        r as i64
    }
}

} // verus!
