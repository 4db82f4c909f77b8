//! PRCRev: a lighter Synthesis ToolKit reverberator — two series
//! allpasses feeding two parallel feedback combs, each comb output
//! mixed half-and-half with the dry mono input to form one channel.
//! Design sample rate: 44100 Hz.
//!
//! The comb feedback gains depend on the target reverberation time
//! (T60); the classic recipe is `-10^(-3 * delay / (44100 * t60))` per
//! comb delay, which needs transcendental arithmetic and is therefore
//! computed by the caller and passed in as two fixed-point gains.

use crate::filter::{
    allpass_init, allpass_next, allpass_out, allpass_wf, fbcomb_init, fbcomb_next, fbcomb_out,
    fbcomb_wf, lemma_allpass_silent, lemma_fbcomb_silent, silent, Allpass, AllpassState,
    FbCombState, FeedbackComb, Filter,
};
use crate::reverb::{mono_downmix, mono_mix, scale_delay, scaled_len, window_len, Reverb};
use crate::sample::{
    fx_add, fx_mul, lemma_fx_mul_zero, sample_add, sample_mul, sample_ok, HALF,
};
use vstd::prelude::*;

verus! {

/// -0.7: the allpass gain of both diffusion stages.
pub const PRC_AP_GAIN: i64 = -751619277;

/// The design sample rate the delay lengths were chosen for.
pub const PRC_DESIGN_RATE: u32 = 44100;

/// Mathematical state of a PRCRev instance.
pub struct PRCRevState {
    pub ap0: AllpassState,
    pub ap1: AllpassState,
    pub cb0: FbCombState,
    pub cb1: FbCombState,
}

pub open spec fn prcrev_wf(s: PRCRevState) -> bool {
    &&& allpass_wf(s.ap0)
    &&& allpass_wf(s.ap1)
    &&& fbcomb_wf(s.cb0)
    &&& fbcomb_wf(s.cb1)
}

/// Every delay window holds silence: the state right after construction.
pub open spec fn prcrev_at_rest(s: PRCRevState) -> bool {
    &&& silent(s.ap0.z)
    &&& silent(s.ap1.z)
    &&& silent(s.cb0.z)
    &&& silent(s.cb1.z)
}

/// The state of a freshly built PRCRev: the fixed allpass gains, the
/// caller's comb gains, and every window silent, with each delay length
/// scaled from the design rate.
pub open spec fn prcrev_init(sample_rate: int, g0: int, g1: int) -> PRCRevState {
    let dr = PRC_DESIGN_RATE as int;
    PRCRevState {
        ap0: allpass_init(PRC_AP_GAIN as int, PRC_AP_GAIN as int, window_len(scaled_len(sample_rate, dr, 341))),
        ap1: allpass_init(PRC_AP_GAIN as int, PRC_AP_GAIN as int, window_len(scaled_len(sample_rate, dr, 613))),
        cb0: fbcomb_init(g0, window_len(scaled_len(sample_rate, dr, 1557))),
        cb1: fbcomb_init(g1, window_len(scaled_len(sample_rate, dr, 2137))),
    }
}

/// One step of PRCRev: the mono mix runs through both allpasses in
/// series, drives the two combs in parallel, and each channel is half
/// the dry mono input plus half its comb's output.
pub open spec fn prcrev_step(s: PRCRevState, x: (int, int)) -> (PRCRevState, (int, int)) {
    let mono = mono_mix(x);
    let a0 = allpass_out(s.ap0, mono);
    let a1 = allpass_out(s.ap1, a0);
    let c0 = fbcomb_out(s.cb0, a1);
    let c1 = fbcomb_out(s.cb1, a1);
    (
        PRCRevState {
            ap0: allpass_next(s.ap0, mono),
            ap1: allpass_next(s.ap1, a0),
            cb0: fbcomb_next(s.cb0, a1),
            cb1: fbcomb_next(s.cb1, a1),
        },
        (fx_mul(HALF as int, fx_add(mono, c0)), fx_mul(HALF as int, fx_add(mono, c1))),
    )
}

/// No self-excitation from rest: a zero frame into a resting PRCRev
/// yields a zero frame and leaves it at rest.
pub proof fn lemma_prcrev_silent(s: PRCRevState)
    requires
        prcrev_wf(s),
        prcrev_at_rest(s),
    ensures
        prcrev_step(s, (0int, 0int)).1 == (0int, 0int),
        prcrev_at_rest(prcrev_step(s, (0int, 0int)).0),
        prcrev_wf(prcrev_step(s, (0int, 0int)).0),
{
    lemma_fx_mul_zero(HALF as int);
    lemma_allpass_silent(s.ap0);
    lemma_allpass_silent(s.ap1);
    lemma_fbcomb_silent(s.cb0);
    lemma_fbcomb_silent(s.cb1);
}

/// The output stream of a PRCRev run over an input stream.
pub open spec fn prcrev_run(s: PRCRevState, xs: Seq<(int, int)>) -> Seq<(int, int)>
    decreases xs.len(),
{
    if xs.len() == 0 {
        Seq::empty()
    } else {
        seq![prcrev_step(s, xs[0]).1] + prcrev_run(prcrev_step(s, xs[0]).0, xs.skip(1))
    }
}

/// A run produces exactly one output frame per input frame.
pub proof fn lemma_prcrev_run_len(s: PRCRevState, xs: Seq<(int, int)>)
    ensures
        prcrev_run(s, xs).len() == xs.len(),
    decreases xs.len(),
{
    if xs.len() > 0 {
        lemma_prcrev_run_len(prcrev_step(s, xs[0]).0, xs.skip(1));
    }
}

/// An all-zero input stream into a resting PRCRev produces an all-zero
/// output stream, however long the stream runs.
pub proof fn lemma_prcrev_silent_stream(s: PRCRevState, xs: Seq<(int, int)>)
    requires
        prcrev_wf(s),
        prcrev_at_rest(s),
        forall|i: int| 0 <= i < xs.len() ==> xs[i] == (0int, 0int),
    ensures
        forall|i: int| 0 <= i < xs.len() ==> prcrev_run(s, xs)[i] == (0int, 0int),
    decreases xs.len(),
{
    lemma_prcrev_run_len(s, xs);
    if xs.len() > 0 {
        lemma_prcrev_silent(s);
        let s1 = prcrev_step(s, xs[0]).0;
        lemma_prcrev_run_len(s1, xs.skip(1));
        lemma_prcrev_silent_stream(s1, xs.skip(1));
        let out = prcrev_run(s, xs);
        assert forall|i: int| 0 <= i < xs.len() implies out[i] == (0int, 0int) by {
            if i > 0 {
                assert(out[i] == prcrev_run(s1, xs.skip(1))[i - 1]);
            }
        }
    }
}

/// The PRCRev reverberator.
pub struct PRCRev {
    ap0: Allpass,
    ap1: Allpass,
    cb0: FeedbackComb,
    cb1: FeedbackComb,
}

impl View for PRCRev {
    type V = PRCRevState;

    closed spec fn view(&self) -> PRCRevState {
        PRCRevState { ap0: self.ap0@, ap1: self.ap1@, cb0: self.cb0@, cb1: self.cb1@ }
    }
}

impl PRCRev {
    /// Builds the PRCRev network for the given sample rate: allpass
    /// delays 341, 613 and comb delays 1557, 2137 samples at the
    /// 44100 Hz design rate, all scaled identically. `comb_gains`
    /// holds the T60-derived feedback gain for each comb, in the same
    /// order as the delays.
    pub fn new(sample_rate: u32, comb_gains: [i64; 2]) -> (r: PRCRev)
        requires
            sample_ok(comb_gains[0] as int),
            sample_ok(comb_gains[1] as int),
        ensures
            r.wf(),
            r@ == prcrev_init(sample_rate as int, comb_gains[0] as int, comb_gains[1] as int),
            prcrev_wf(r@),
            prcrev_at_rest(r@),
    {
        let r = PRCRev {
            ap0: Allpass::new(PRC_AP_GAIN, PRC_AP_GAIN, scale_delay(sample_rate, PRC_DESIGN_RATE, 341)),
            ap1: Allpass::new(PRC_AP_GAIN, PRC_AP_GAIN, scale_delay(sample_rate, PRC_DESIGN_RATE, 613)),
            cb0: FeedbackComb::new(comb_gains[0], scale_delay(sample_rate, PRC_DESIGN_RATE, 1557)),
            cb1: FeedbackComb::new(comb_gains[1], scale_delay(sample_rate, PRC_DESIGN_RATE, 2137)),
        };
        proof {
            r.ap0.lemma_wf_state();
            r.ap1.lemma_wf_state();
            r.cb0.lemma_wf_state();
            r.cb1.lemma_wf_state();
        }
        r
    }
}

impl Reverb for PRCRev {
    closed spec fn wf(&self) -> bool {
        &&& self.ap0.wf()
        &&& self.ap1.wf()
        &&& self.cb0.wf()
        &&& self.cb1.wf()
    }

    fn process_sample(&mut self, x: (i64, i64)) -> (y: (i64, i64))
        ensures
            final(self)@ == prcrev_step(old(self)@, (x.0 as int, x.1 as int)).0,
            (y.0 as int, y.1 as int) == prcrev_step(old(self)@, (x.0 as int, x.1 as int)).1,
    {
        let mono = mono_downmix(x.0, x.1);
        let a0 = self.ap0.process_sample(mono);
        let a1 = self.ap1.process_sample(a0);
        let c0 = self.cb0.process_sample(a1);
        let c1 = self.cb1.process_sample(a1);
        (sample_mul(HALF, sample_add(mono, c0)), sample_mul(HALF, sample_add(mono, c1)))
    }
}

} // verus!
