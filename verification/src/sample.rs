//! Fixed-point audio samples and their saturating arithmetic.
//!
//! A sample is an `i64` holding `value * SCALE`, so one unit of signal
//! amplitude is `SCALE`. Every arithmetic result is saturated into the
//! symmetric range `[-LIM, LIM]`; the range is symmetric so that negation
//! is always exact. Products are scaled back down by `SCALE` with
//! truncation toward zero. All of this is specified exactly by the
//! `fx_*` spec functions, and the executable operations are proved to
//! match them.

use vstd::arithmetic::div_mod::{lemma_div_is_ordered, lemma_div_multiples_vanish, lemma_div_of0};
use vstd::arithmetic::mul::lemma_mul_upper_bound;
use vstd::math::abs;
use vstd::prelude::*;

verus! {

/// Number of fixed-point steps in one unit of amplitude (2^30).
pub const SCALE: i64 = 1073741824;

/// Largest magnitude a sample may hold (2^40, or 1024 units).
pub const LIM: i64 = 1099511627776;

/// One half of a unit, the gain of the stereo-to-mono downmix.
pub const HALF: i64 = 536870912;

/// A value is a valid sample when it lies in the saturation range.
pub open spec fn sample_ok(v: int) -> bool {
    -LIM <= v <= LIM
}

/// Saturate an unbounded arithmetic result into the sample range.
pub open spec fn fx_clamp(v: int) -> int {
    if v > LIM {
        LIM as int
    } else if v < -LIM {
        -(LIM as int)
    } else {
        v
    }
}

/// Saturating sample addition.
pub open spec fn fx_add(a: int, b: int) -> int {
    fx_clamp(a + b)
}

/// Saturating sample subtraction.
pub open spec fn fx_sub(a: int, b: int) -> int {
    fx_clamp(a - b)
}

/// Saturating sample negation (exact on the symmetric range).
pub open spec fn fx_neg(a: int) -> int {
    fx_clamp(-a)
}

/// Saturating sample product: `a * b / SCALE`, truncated toward zero.
pub open spec fn fx_mul(a: int, b: int) -> int {
    let m = (abs(a) * abs(b)) as int / (SCALE as int);
    if (a < 0) == (b < 0) {
        fx_clamp(m)
    } else {
        fx_clamp(-m)
    }
}

/// Saturation never increases magnitude, and always lands in range.
pub proof fn lemma_clamp(v: int)
    ensures
        abs(fx_clamp(v)) <= abs(v),
        sample_ok(fx_clamp(v)),
        abs(v) <= LIM ==> fx_clamp(v) == v,
{
}

/// A product with zero is zero.
pub proof fn lemma_fx_mul_zero(a: int)
    ensures
        fx_mul(a, 0) == 0,
        fx_mul(0, a) == 0,
{
    assert(abs(a) * abs(0) == 0) by (nonlinear_arith);
    assert(abs(0) * abs(a) == 0) by (nonlinear_arith);
    lemma_div_of0(SCALE as int);
}

/// Multiplying a valid sample by one unit (`SCALE`) returns it exactly.
pub proof fn lemma_fx_mul_one(x: int)
    requires
        sample_ok(x),
    ensures
        fx_mul(SCALE as int, x) == x,
{
    lemma_div_multiples_vanish(abs(x) as int, SCALE as int);
}

/// The magnitude of a scaled product is bounded by the scaled product
/// of the factors' magnitude bounds.
pub proof fn lemma_fx_mul_bound(a: int, b: int, ba: int, bb: int)
    requires
        abs(a) <= ba,
        abs(b) <= bb,
    ensures
        abs(fx_mul(a, b)) <= (ba * bb) / (SCALE as int),
{
    lemma_mul_upper_bound(abs(a) as int, ba, abs(b) as int, bb);
    lemma_div_is_ordered((abs(a) * abs(b)) as int, ba * bb, SCALE as int);
    lemma_clamp((abs(a) * abs(b)) as int / (SCALE as int));
    lemma_clamp(-((abs(a) * abs(b)) as int / (SCALE as int)));
}

/// Saturating fixed-point addition.
pub fn sample_add(a: i64, b: i64) -> (r: i64)
    requires
        sample_ok(a as int),
        sample_ok(b as int),
    ensures
        r as int == fx_add(a as int, b as int),
        sample_ok(r as int),
{
    let s = a + b;
    if s > LIM {
        LIM
    } else if s < -LIM {
        -LIM
    } else {
        s
    }
}

/// Saturating fixed-point subtraction.
pub fn sample_sub(a: i64, b: i64) -> (r: i64)
    requires
        sample_ok(a as int),
        sample_ok(b as int),
    ensures
        r as int == fx_sub(a as int, b as int),
        sample_ok(r as int),
{
    let s = a - b;
    if s > LIM {
        LIM
    } else if s < -LIM {
        -LIM
    } else {
        s
    }
}

/// Fixed-point negation (exact for valid samples).
pub fn sample_neg(a: i64) -> (r: i64)
    requires
        sample_ok(a as int),
    ensures
        r as int == fx_neg(a as int),
        sample_ok(r as int),
{
    -a
}

/// Saturating fixed-point multiplication, scaled back by `SCALE` with
/// truncation toward zero.
pub fn sample_mul(a: i64, b: i64) -> (r: i64)
    requires
        sample_ok(a as int),
        sample_ok(b as int),
    ensures
        r as int == fx_mul(a as int, b as int),
        sample_ok(r as int),
{
    let negate = (a < 0) != (b < 0);
    let ma: u64 = if a < 0 {
        (-a) as u64
    } else {
        a as u64
    };
    let mb: u64 = if b < 0 {
        (-b) as u64
    } else {
        b as u64
    };
    assert(ma as int == abs(a as int));
    assert(mb as int == abs(b as int));
    proof {
        lemma_mul_upper_bound(ma as int, LIM as int, mb as int, LIM as int);
    }
    let p: u128 = (ma as u128) * (mb as u128);
    let q: u128 = p / (SCALE as u128);
    proof {
        lemma_div_is_ordered(p as int, (LIM as int) * (LIM as int), SCALE as int);
        assert((LIM as int) * (LIM as int) / (SCALE as int) < 0x8000_0000_0000_0000);
    }
    let q64: i64 = q as i64;
    let r: i64 = if negate {
        -q64
    } else {
        q64
    };
    if r > LIM {
        LIM
    } else if r < -LIM {
        -LIM
    } else {
        r
    }
}

} // verus!
