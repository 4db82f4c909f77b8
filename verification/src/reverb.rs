//! The reverb algorithms: six fixed topologies of filter primitives,
//! each processing one stereo frame at a time.
//!
//! Every algorithm downmixes the stereo input to mono, runs it through
//! its own fixed graph of allpasses and combs, and re-derives a stereo
//! pair. Delay lengths are design-rate constants scaled to the actual
//! sample rate, identically for every line of an algorithm, so the
//! relative timing of the taps is preserved.

pub mod freeverb;
pub mod jcrev;
pub mod nrev;
pub mod prcrev;
pub mod satrev;
pub mod stk_jcrev;

pub use freeverb::Freeverb;
pub use jcrev::JCRev;
pub use nrev::NRev;
pub use prcrev::PRCRev;
pub use satrev::SATREV;
pub use stk_jcrev::STKJCRev;

pub use crate::delay::window_len;

use crate::sample::{fx_add, fx_mul, sample_add, sample_mul, sample_ok, HALF};
use vstd::arithmetic::div_mod::{
    lemma_div_is_ordered, lemma_div_multiples_vanish, lemma_fundamental_div_mod,
    lemma_fundamental_div_mod_converse, lemma_mod_bound,
};
use vstd::arithmetic::mul::{
    lemma_mul_inequality, lemma_mul_is_associative, lemma_mul_is_commutative,
    lemma_mul_nonnegative, lemma_mul_upper_bound,
};
use vstd::prelude::*;

verus! {

/// A stereo reverberator: one stereo frame in, one stereo frame out.
pub trait Reverb {
    /// The reverb's invariant: every owned primitive well formed.
    spec fn wf(&self) -> bool;

    /// Process one stereo frame, in strict stream order.
    fn process_sample(&mut self, x: (i64, i64)) -> (y: (i64, i64))
        requires
            old(self).wf(),
            sample_ok(x.0 as int),
            sample_ok(x.1 as int),
        ensures
            final(self).wf(),
            sample_ok(y.0 as int),
            sample_ok(y.1 as int),
    ;
}

/// The mono mix every Schroeder reverberator feeds its network:
/// `(left + right) / 2`.
pub open spec fn mono_mix(x: (int, int)) -> int {
    fx_mul(HALF as int, fx_add(x.0, x.1))
}

/// Downmix one stereo frame to mono.
pub fn mono_downmix(l: i64, r: i64) -> (m: i64)
    requires
        sample_ok(l as int),
        sample_ok(r as int),
    ensures
        m as int == mono_mix((l as int, r as int)),
        sample_ok(m as int),
{
    sample_mul(HALF, sample_add(l, r))
}

/// A nominal delay length scaled from the design sample rate to the
/// actual one and truncated to a whole number of samples.
pub open spec fn scaled_len(sample_rate: int, design_rate: int, length: int) -> int {
    (sample_rate * length) / design_rate
}

/// Doubling the sample rate doubles every scaled delay length, up to
/// the one sample that truncation may withhold. Since each algorithm
/// applies the same scaling to all its lines, the whole impulse
/// response — and with it the decaying tail — stretches in proportion
/// to the sample rate.
pub proof fn lemma_scaled_len_doubling(sample_rate: int, design_rate: int, length: int)
    requires
        0 < design_rate,
        0 <= sample_rate,
        0 <= length,
    ensures
        2 * scaled_len(sample_rate, design_rate, length) <= scaled_len(
            2 * sample_rate,
            design_rate,
            length,
        ),
        scaled_len(2 * sample_rate, design_rate, length) <= 2 * scaled_len(
            sample_rate,
            design_rate,
            length,
        ) + 1,
{
    let n = sample_rate * length;
    let q = n / design_rate;
    let r = n % design_rate;
    lemma_fundamental_div_mod(n, design_rate);
    lemma_mod_bound(n, design_rate);
    assert(0 <= n) by {
        lemma_mul_nonnegative(sample_rate, length);
    }
    assert((2 * sample_rate) * length == 2 * n) by {
        lemma_mul_is_associative(2, sample_rate, length);
    }
    assert(2 * n == design_rate * (2 * q) + 2 * r) by (nonlinear_arith)
        requires
            n == design_rate * q + r,
    ;
    if 2 * r < design_rate {
        lemma_fundamental_div_mod_converse(2 * n, design_rate, 2 * q, 2 * r);
    } else {
        assert(2 * n == design_rate * (2 * q + 1) + (2 * r - design_rate)) by (nonlinear_arith)
            requires
                2 * n == design_rate * (2 * q) + 2 * r,
        ;
        lemma_fundamental_div_mod_converse(2 * n, design_rate, 2 * q + 1, 2 * r - design_rate);
    }
}

/// Scale a nominal delay length from the algorithm's design sample
/// rate to the actual one, truncating to a whole sample count. Every
/// nominal length is shorter than its design rate (all are below a
/// tenth of a second), so the result never exceeds the sample rate.
pub fn scale_delay(sample_rate: u32, design_rate: u32, length: u32) -> (n: usize)
    requires
        1 <= design_rate,
        length <= design_rate,
    ensures
        n as int == scaled_len(sample_rate as int, design_rate as int, length as int),
        n <= sample_rate,
{
    proof {
        lemma_mul_upper_bound(sample_rate as int, u32::MAX as int, length as int, u32::MAX as int);
    }
    let p: u64 = (sample_rate as u64) * (length as u64);
    let q: u64 = p / (design_rate as u64);
    proof {
        lemma_mul_is_commutative(sample_rate as int, length as int);
        lemma_mul_inequality(length as int, design_rate as int, sample_rate as int);
        lemma_mul_is_commutative(length as int, sample_rate as int);
        lemma_div_is_ordered(p as int, design_rate as int * sample_rate as int, design_rate as int);
        lemma_div_multiples_vanish(sample_rate as int, design_rate as int);
    }
    q as usize
}

} // verus!
