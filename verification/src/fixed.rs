//! Fixed-point arithmetic helpers.
//!
//! Every scalar in this crate is an `i64` counting millionths: a speed of
//! `1.0` units per second is `1_000_000`, an angle of one degree is
//! `1_000_000` micro-degrees, and so on. The helpers here give the exact
//! integer semantics that the camera routines are specified against.

use vstd::prelude::*;

verus! {

/// One whole unit: the fixed-point scale factor.
pub const FX_ONE: i64 = 1_000_000;

/// Magnitude of a value, as a spec-level integer.
pub open spec fn abs_spec(v: int) -> int {
    if v >= 0 { v } else { -v }
}

/// The sign-symmetric scaled product `v * k / FX_ONE`: magnitudes are
/// multiplied and divided, and the sign of the true product is reapplied.
pub open spec fn fx_mul_spec(v: int, k: int) -> int {
    let m = abs_spec(v) * abs_spec(k) / (FX_ONE as int);
    if (v < 0) != (k < 0) { -m } else { m }
}

/// `v` clamped into `[lo, hi]`.
pub open spec fn clamp_spec(v: int, lo: int, hi: int) -> int {
    if v < lo { lo } else if v > hi { hi } else { v }
}

/// Fixed-point product of two scalars.
pub fn fx_mul(v: i64, k: i64) -> (r: i64)
    requires
        v > i64::MIN,
        k > i64::MIN,
        abs_spec(v as int) * abs_spec(k as int) <= i64::MAX as int,
    ensures
        r == fx_mul_spec(v as int, k as int),
        abs_spec(r as int) * (FX_ONE as int) <= abs_spec(v as int) * abs_spec(k as int),
{
    let a: i64 = if v < 0 { -v } else { v };
    let b: i64 = if k < 0 { -k } else { k };
    let p: i64 = (a * b) / FX_ONE;
    proof {
        assert(p * FX_ONE <= a * b && 0 <= p) by (nonlinear_arith)
            requires
                0 <= a,
                0 <= b,
                p == (a * b) / (FX_ONE as int),
                FX_ONE == 1_000_000,
        {
        }
    }
    if (v < 0) != (k < 0) {
        -p
    } else {
        p
    }
}

/// The sign-symmetric quotient `v / d`: the magnitude is divided and
/// the sign kept, rounding towards zero.
pub open spec fn div_trunc_spec(v: int, d: int) -> int
    recommends
        d > 0,
{
    if v >= 0 { v / d } else { -((-v) / d) }
}

/// Sign-symmetric division of a scalar by a positive divisor.
pub fn div_trunc(v: i64, d: i64) -> (r: i64)
    requires
        v > i64::MIN,
        d > 0,
    ensures
        r == div_trunc_spec(v as int, d as int),
        d * abs_spec(r as int) <= abs_spec(v as int),
        abs_spec(r as int) <= abs_spec(v as int),
{
    let a: i64 = if v < 0 { -v } else { v };
    let q: i64 = a / d;
    proof {
        assert(d * (a as int / d as int) <= a && 0 <= a as int / d as int <= a)
            by (nonlinear_arith)
            requires
                0 <= a,
                0 < d,
        {
        }
    }
    if v < 0 {
        -q
    } else {
        q
    }
}

/// Clamp a scalar into `[lo, hi]`.
pub fn clamp(v: i64, lo: i64, hi: i64) -> (r: i64)
    requires
        lo <= hi,
    ensures
        r == clamp_spec(v as int, lo as int, hi as int),
        lo <= r <= hi,
{
    if v < lo {
        lo
    } else if v > hi {
        hi
    } else {
        v
    }
}

} // verus!
