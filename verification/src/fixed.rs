//! Saturating fixed-point scalars: the renderer's number type.
//!
//! A scalar is an `i64` holding a real value scaled by `FX_ONE` (2^16).
//! Every operation truncates toward zero (as machine division does) and
//! saturates at `FX_MAX` / `FX_MIN`, so all operations are total: division
//! by zero saturates, standing in for an infinity, and the renderer's
//! screen-bounds checks reject the resulting out-of-range coordinates.

use vstd::prelude::*;

verus! {

/// The fixed-point scale: the representation of the real number 1.
pub const FX_ONE: i64 = 65536;

/// Largest representable scalar (the saturation bound).
pub const FX_MAX: i64 = 0x4000_0000_0000_0000;

/// Smallest representable scalar; symmetric, so negation never saturates.
pub const FX_MIN: i64 = -0x4000_0000_0000_0000;

pub open spec fn abs_i(a: int) -> int {
    if a < 0 {
        -a
    } else {
        a
    }
}

/// Truncating (round-toward-zero) division, the rounding of machine division.
pub open spec fn tdiv(a: int, b: int) -> int {
    if (a < 0) == (b < 0) {
        abs_i(a) / abs_i(b)
    } else {
        -(abs_i(a) / abs_i(b))
    }
}

pub open spec fn fx_clamp_s(v: int) -> int {
    if v > FX_MAX {
        FX_MAX as int
    } else if v < FX_MIN {
        FX_MIN as int
    } else {
        v
    }
}

pub open spec fn fx_add_s(a: int, b: int) -> int {
    fx_clamp_s(a + b)
}

pub open spec fn fx_sub_s(a: int, b: int) -> int {
    fx_clamp_s(a - b)
}

pub open spec fn fx_neg_s(a: int) -> int {
    fx_clamp_s(-a)
}

pub open spec fn fx_mul_s(a: int, b: int) -> int {
    fx_clamp_s(tdiv(a * b, FX_ONE as int))
}

/// Division by zero yields the saturation bound of the dividend's sign,
/// standing in for the infinity a floating-point division would produce.
pub open spec fn fx_div_s(a: int, b: int) -> int {
    if b == 0 {
        if a >= 0 {
            FX_MAX as int
        } else {
            FX_MIN as int
        }
    } else {
        fx_clamp_s(tdiv(a * (FX_ONE as int), b))
    }
}

/// The integer part of a scalar, rounded toward zero.
pub open spec fn fx_trunc_s(a: int) -> int {
    tdiv(a, FX_ONE as int)
}

/// Floor of the square root of a natural number.
pub open spec fn isqrt_s(n: nat) -> nat
    decreases n,
{
    if n == 0 {
        0
    } else {
        let r = isqrt_s((n - 1) as nat);
        if ((r as int) + 1) * ((r as int) + 1) <= n as int {
            (r + 1) as nat
        } else {
            r
        }
    }
}

/// Square root of a scalar; nonpositive inputs map to zero.
pub open spec fn fx_sqrt_s(a: int) -> int {
    if a <= 0 {
        0
    } else {
        isqrt_s((a * (FX_ONE as int)) as nat) as int
    }
}

/// `isqrt_s` is the floor of the square root.
pub proof fn lemma_isqrt_s_bounds(n: nat)
    ensures
        (isqrt_s(n) as int) * (isqrt_s(n) as int) <= n as int,
        (n as int) < ((isqrt_s(n) as int) + 1) * ((isqrt_s(n) as int) + 1),
    decreases n,
{
    if n == 0 {
        assert(isqrt_s(n) == 0);
        assert((isqrt_s(n) as int) * (isqrt_s(n) as int) <= n as int) by (nonlinear_arith)
            requires
                isqrt_s(n) as int == 0,
                n as int == 0,
        ;
        assert((n as int) < ((isqrt_s(n) as int) + 1) * ((isqrt_s(n) as int) + 1))
            by (nonlinear_arith)
            requires
                isqrt_s(n) as int == 0,
                n as int == 0,
        ;
    } else {
        lemma_isqrt_s_bounds((n - 1) as nat);
        let r = isqrt_s((n - 1) as nat);
        let ri = r as int;
        if (ri + 1) * (ri + 1) <= n as int {
            assert(isqrt_s(n) == r + 1);
            assert((isqrt_s(n) as int) * (isqrt_s(n) as int) <= n as int) by (nonlinear_arith)
                requires
                    isqrt_s(n) as int == ri + 1,
                    (ri + 1) * (ri + 1) <= n as int,
            ;
            assert((n as int) < ((isqrt_s(n) as int) + 1) * ((isqrt_s(n) as int) + 1))
                by (nonlinear_arith)
                requires
                    isqrt_s(n) as int == ri + 1,
                    (n as int) - 1 < (ri + 1) * (ri + 1),
                    ri >= 0,
            ;
        } else {
            assert(isqrt_s(n) == r);
            assert((isqrt_s(n) as int) * (isqrt_s(n) as int) <= n as int) by (nonlinear_arith)
                requires
                    isqrt_s(n) as int == ri,
                    ri * ri <= (n as int) - 1,
            ;
            assert((n as int) < ((isqrt_s(n) as int) + 1) * ((isqrt_s(n) as int) + 1))
                by (nonlinear_arith)
                requires
                    isqrt_s(n) as int == ri,
                    (n as int) < (ri + 1) * (ri + 1),
            ;
        }
    }
}

/// A value bracketed by consecutive squares is the floor square root.
pub proof fn lemma_isqrt_unique(n: nat, r: nat)
    requires
        (r as int) * (r as int) <= n as int,
        (n as int) < ((r as int) + 1) * ((r as int) + 1),
    ensures
        r == isqrt_s(n),
{
    lemma_isqrt_s_bounds(n);
    let q = isqrt_s(n) as int;
    let ri = r as int;
    if ri < q {
        assert(false) by (nonlinear_arith)
            requires
                0 <= ri < q,
                q * q <= n as int,
                (n as int) < (ri + 1) * (ri + 1),
        ;
    }
    if q < ri {
        assert(false) by (nonlinear_arith)
            requires
                0 <= q < ri,
                ri * ri <= n as int,
                (n as int) < (q + 1) * (q + 1),
        ;
    }
}

/// Multiplying by zero gives zero, in either argument order.
pub proof fn lemma_fx_mul_zero(b: int)
    ensures
        fx_mul_s(0, b) == 0,
        fx_mul_s(b, 0) == 0,
{
    assert(0 * b == 0 && b * 0 == 0) by (nonlinear_arith);
}

/// Fixed-point multiplication is commutative.
pub proof fn lemma_fx_mul_comm(a: int, b: int)
    ensures
        fx_mul_s(a, b) == fx_mul_s(b, a),
{
    assert(a * b == b * a) by (nonlinear_arith);
}

/// Multiplying a representable scalar by one is the identity, in either
/// argument order.
pub proof fn lemma_fx_mul_one(a: int)
    requires
        FX_MIN <= a <= FX_MAX,
    ensures
        fx_mul_s(a, FX_ONE as int) == a,
        fx_mul_s(FX_ONE as int, a) == a,
{
    if a >= 0 {
        assert(abs_i(a * 65536) == abs_i(a) * 65536);
    } else {
        assert(abs_i(a * 65536) == abs_i(a) * 65536);
    }
    vstd::arithmetic::div_mod::lemma_div_by_multiple(abs_i(a), 65536);
    assert(tdiv(a * (FX_ONE as int), FX_ONE as int) == a);
    lemma_fx_mul_comm(a, FX_ONE as int);
}

fn clamp128(v: i128) -> (r: i64)
    ensures
        r == fx_clamp_s(v as int),
{
    if v > FX_MAX as i128 {
        FX_MAX
    } else if v < FX_MIN as i128 {
        FX_MIN
    } else {
        v as i64
    }
}

pub fn fx_add(a: i64, b: i64) -> (r: i64)
    ensures
        r == fx_add_s(a as int, b as int),
{
    clamp128(a as i128 + b as i128)
}

pub fn fx_sub(a: i64, b: i64) -> (r: i64)
    ensures
        r == fx_sub_s(a as int, b as int),
{
    clamp128(a as i128 - b as i128)
}

pub fn fx_neg(a: i64) -> (r: i64)
    ensures
        r == fx_neg_s(a as int),
{
    clamp128(-(a as i128))
}

/// Clamp a nonnegative magnitude and reapply the sign.
fn signed_clamp(neg: bool, m: u128) -> (r: i64)
    ensures
        r == fx_clamp_s(if neg { -(m as int) } else { m as int }),
{
    let qc: u128 = if m > FX_MAX as u128 {
        FX_MAX as u128
    } else {
        m
    };
    if neg {
        -(qc as i64)
    } else {
        qc as i64
    }
}

pub fn fx_mul(a: i64, b: i64) -> (r: i64)
    ensures
        r == fx_mul_s(a as int, b as int),
{
    proof {
        assert(-0x4000_0000_0000_0000_0000_0000_0000_0000 <= (a as int) * (b as int)
            <= 0x4000_0000_0000_0000_0000_0000_0000_0000) by (nonlinear_arith);
    }
    let p: i128 = (a as i128) * (b as i128);
    let neg: bool = p < 0;
    let pm: u128 = if p < 0 {
        (-p) as u128
    } else {
        p as u128
    };
    let qm: u128 = pm / 65536u128;
    assert(qm == abs_i(p as int) / (FX_ONE as int));
    signed_clamp(neg, qm)
}

pub fn fx_div(a: i64, b: i64) -> (r: i64)
    ensures
        r == fx_div_s(a as int, b as int),
{
    if b == 0 {
        if a >= 0 {
            FX_MAX
        } else {
            FX_MIN
        }
    } else {
        let p: i128 = (a as i128) * 65536i128;
        let neg: bool = (p < 0) != (b < 0);
        let pm: u128 = if p < 0 {
            (-p) as u128
        } else {
            p as u128
        };
        let bm: u128 = if b < 0 {
            (-(b as i128)) as u128
        } else {
            b as u128
        };
        let qm: u128 = pm / bm;
        assert(qm == abs_i(p as int) / abs_i(b as int));
        assert(p < 0 <==> a < 0);
        signed_clamp(neg, qm)
    }
}

pub fn fx_trunc(a: i64) -> (r: i64)
    ensures
        r == fx_trunc_s(a as int),
{
    let neg: bool = a < 0;
    let pm: u64 = if a < 0 {
        (-(a as i128)) as u64
    } else {
        a as u64
    };
    let qm: u64 = pm / 65536u64;
    if neg {
        -(qm as i64)
    } else {
        qm as i64
    }
}

/// Binary search for the floor square root.
fn isqrt(n: u128) -> (r: u64)
    requires
        n < 0x1_0000_0000_0000_0000_0000,
    ensures
        r == isqrt_s(n as nat),
{
    let mut lo: u64 = 0;
    let mut hi: u64 = 0x100_0000_0000;
    assert((hi as int) * (hi as int) == 0x1_0000_0000_0000_0000_0000) by (nonlinear_arith)
        requires
            hi == 0x100_0000_0000,
    ;
    while lo + 1 < hi
        invariant
            lo < hi,
            hi <= 0x100_0000_0000,
            (lo as int) * (lo as int) <= n,
            (n as int) < (hi as int) * (hi as int),
        decreases hi - lo,
    {
        let mid: u64 = lo + (hi - lo) / 2;
        proof {
            assert((mid as int) * (mid as int) <= 0x1_0000_0000_0000_0000_0000)
                by (nonlinear_arith)
                requires
                    0 <= mid <= 0x100_0000_0000,
            ;
        }
        let sq: u128 = (mid as u128) * (mid as u128);
        if sq <= n {
            lo = mid;
        } else {
            hi = mid;
        }
    }
    proof {
        lemma_isqrt_unique(n as nat, lo as nat);
    }
    lo
}

pub fn fx_sqrt(a: i64) -> (r: i64)
    ensures
        r == fx_sqrt_s(a as int),
{
    if a <= 0 {
        0
    } else {
        let n: u128 = (a as u128) * 65536u128;
        let r: u64 = isqrt(n);
        proof {
            lemma_isqrt_s_bounds(n as nat);
            let q = isqrt_s(n as nat) as int;
            if q >= 0x100_0000_0000 {
                assert(q * q >= 0x1_0000_0000_0000_0000_0000) by (nonlinear_arith)
                    requires
                        q >= 0x100_0000_0000,
                ;
            }
        }
        r as i64
    }
}

} // verus!
