//! NRev: the CCRMA reverberator from the Synthesis ToolKit — six
//! parallel feedback combs summed, three series allpasses, a one-sample
//! feedforward lowpass stage, one more allpass, and two final allpasses
//! whose outputs are each mixed 30/70 with the dry mono input to form
//! the left and right channels. Design sample rate: 25641 Hz.
//!
//! The comb feedback gains depend on the target reverberation time
//! (T60); the classic recipe is `-10^(-3 * delay / (44100 * t60))` per
//! comb delay, which needs transcendental arithmetic and is therefore
//! computed by the caller and passed in as six fixed-point gains.

use crate::filter::{
    allpass_init, allpass_next, allpass_out, allpass_wf, fbcomb_init, fbcomb_next, fbcomb_out,
    fbcomb_wf, ffcomb_init, ffcomb_next, ffcomb_out, ffcomb_wf, lemma_allpass_silent,
    lemma_fbcomb_silent, lemma_ffcomb_silent, silent, Allpass, AllpassState, FbCombState,
    FeedbackComb, FeedforwardComb, FfCombState, Filter,
};
use crate::reverb::{mono_downmix, mono_mix, scale_delay, scaled_len, window_len, Reverb};
use crate::sample::{
    fx_add, fx_mul, lemma_fx_mul_zero, sample_add, sample_mul, sample_ok, HALF,
};
use vstd::prelude::*;

verus! {

/// -0.7: the allpass gain of all six allpass stages.
pub const NREV_AP_GAIN: i64 = -751619277;

/// 0.3: the direct gain of the lowpass stage and of the output mix.
pub const NREV_MIX_03: i64 = 322122547;

/// 0.7: the delayed-tap gain of the lowpass stage and the dry share of
/// the output mix.
pub const NREV_MIX_07: i64 = 751619277;

/// The design sample rate the delay lengths were chosen for.
pub const NREV_DESIGN_RATE: u32 = 25641;

/// Mathematical state of an NRev instance.
pub struct NRevState {
    pub cb0: FbCombState,
    pub cb1: FbCombState,
    pub cb2: FbCombState,
    pub cb3: FbCombState,
    pub cb4: FbCombState,
    pub cb5: FbCombState,
    pub ffc: FfCombState,
    pub ap0: AllpassState,
    pub ap1: AllpassState,
    pub ap2: AllpassState,
    pub ap3: AllpassState,
    pub ap4: AllpassState,
    pub ap5: AllpassState,
}

pub open spec fn nrev_wf(s: NRevState) -> bool {
    &&& fbcomb_wf(s.cb0)
    &&& fbcomb_wf(s.cb1)
    &&& fbcomb_wf(s.cb2)
    &&& fbcomb_wf(s.cb3)
    &&& fbcomb_wf(s.cb4)
    &&& fbcomb_wf(s.cb5)
    &&& ffcomb_wf(s.ffc)
    &&& allpass_wf(s.ap0)
    &&& allpass_wf(s.ap1)
    &&& allpass_wf(s.ap2)
    &&& allpass_wf(s.ap3)
    &&& allpass_wf(s.ap4)
    &&& allpass_wf(s.ap5)
}

/// Every delay window holds silence: the state right after construction.
pub open spec fn nrev_at_rest(s: NRevState) -> bool {
    &&& silent(s.cb0.z)
    &&& silent(s.cb1.z)
    &&& silent(s.cb2.z)
    &&& silent(s.cb3.z)
    &&& silent(s.cb4.z)
    &&& silent(s.cb5.z)
    &&& silent(s.ffc.z)
    &&& silent(s.ap0.z)
    &&& silent(s.ap1.z)
    &&& silent(s.ap2.z)
    &&& silent(s.ap3.z)
    &&& silent(s.ap4.z)
    &&& silent(s.ap5.z)
}

/// The state of a freshly built NRev: the fixed allpass and lowpass
/// gains, the caller's comb gains, and every window silent, with each
/// delay length scaled from the design rate (the lowpass stage keeps
/// its fixed one-sample tap).
pub open spec fn nrev_init(sample_rate: int, gains: Seq<int>) -> NRevState {
    let dr = NREV_DESIGN_RATE as int;
    NRevState {
        cb0: fbcomb_init(gains[0], window_len(scaled_len(sample_rate, dr, 1433))),
        cb1: fbcomb_init(gains[1], window_len(scaled_len(sample_rate, dr, 1601))),
        cb2: fbcomb_init(gains[2], window_len(scaled_len(sample_rate, dr, 1867))),
        cb3: fbcomb_init(gains[3], window_len(scaled_len(sample_rate, dr, 2053))),
        cb4: fbcomb_init(gains[4], window_len(scaled_len(sample_rate, dr, 2251))),
        cb5: fbcomb_init(gains[5], window_len(scaled_len(sample_rate, dr, 2399))),
        ffc: ffcomb_init(NREV_MIX_03 as int, NREV_MIX_07 as int, 1),
        ap0: allpass_init(NREV_AP_GAIN as int, NREV_AP_GAIN as int, window_len(scaled_len(sample_rate, dr, 347))),
        ap1: allpass_init(NREV_AP_GAIN as int, NREV_AP_GAIN as int, window_len(scaled_len(sample_rate, dr, 113))),
        ap2: allpass_init(NREV_AP_GAIN as int, NREV_AP_GAIN as int, window_len(scaled_len(sample_rate, dr, 37))),
        ap3: allpass_init(NREV_AP_GAIN as int, NREV_AP_GAIN as int, window_len(scaled_len(sample_rate, dr, 59))),
        ap4: allpass_init(NREV_AP_GAIN as int, NREV_AP_GAIN as int, window_len(scaled_len(sample_rate, dr, 53))),
        ap5: allpass_init(NREV_AP_GAIN as int, NREV_AP_GAIN as int, window_len(scaled_len(sample_rate, dr, 43))),
    }
}

/// One step of NRev.
pub open spec fn nrev_step(s: NRevState, x: (int, int)) -> (NRevState, (int, int)) {
    let mono = mono_mix(x);
    let c0 = fbcomb_out(s.cb0, mono);
    let c1 = fbcomb_out(s.cb1, mono);
    let c2 = fbcomb_out(s.cb2, mono);
    let c3 = fbcomb_out(s.cb3, mono);
    let c4 = fbcomb_out(s.cb4, mono);
    let c5 = fbcomb_out(s.cb5, mono);
    let csum = fx_add(fx_add(fx_add(fx_add(fx_add(c0, c1), c2), c3), c4), c5);
    let a0 = allpass_out(s.ap0, csum);
    let a1 = allpass_out(s.ap1, a0);
    let a2 = allpass_out(s.ap2, a1);
    let f = ffcomb_out(s.ffc, a2);
    let a3 = allpass_out(s.ap3, f);
    let a4 = allpass_out(s.ap4, a3);
    let a5 = allpass_out(s.ap5, a3);
    (
        NRevState {
            cb0: fbcomb_next(s.cb0, mono),
            cb1: fbcomb_next(s.cb1, mono),
            cb2: fbcomb_next(s.cb2, mono),
            cb3: fbcomb_next(s.cb3, mono),
            cb4: fbcomb_next(s.cb4, mono),
            cb5: fbcomb_next(s.cb5, mono),
            ffc: ffcomb_next(s.ffc, a2),
            ap0: allpass_next(s.ap0, csum),
            ap1: allpass_next(s.ap1, a0),
            ap2: allpass_next(s.ap2, a1),
            ap3: allpass_next(s.ap3, f),
            ap4: allpass_next(s.ap4, a3),
            ap5: allpass_next(s.ap5, a3),
        },
        (
            fx_add(fx_mul(NREV_MIX_03 as int, a4), fx_mul(NREV_MIX_07 as int, mono)),
            fx_add(fx_mul(NREV_MIX_03 as int, a5), fx_mul(NREV_MIX_07 as int, mono)),
        ),
    )
}

/// No self-excitation from rest: a zero frame into a resting NRev
/// yields a zero frame and leaves it at rest.
pub proof fn lemma_nrev_silent(s: NRevState)
    requires
        nrev_wf(s),
        nrev_at_rest(s),
    ensures
        nrev_step(s, (0int, 0int)).1 == (0int, 0int),
        nrev_at_rest(nrev_step(s, (0int, 0int)).0),
        nrev_wf(nrev_step(s, (0int, 0int)).0),
{
    lemma_fx_mul_zero(HALF as int);
    lemma_fbcomb_silent(s.cb0);
    lemma_fbcomb_silent(s.cb1);
    lemma_fbcomb_silent(s.cb2);
    lemma_fbcomb_silent(s.cb3);
    lemma_fbcomb_silent(s.cb4);
    lemma_fbcomb_silent(s.cb5);
    lemma_allpass_silent(s.ap0);
    lemma_allpass_silent(s.ap1);
    lemma_allpass_silent(s.ap2);
    lemma_ffcomb_silent(s.ffc);
    lemma_allpass_silent(s.ap3);
    lemma_allpass_silent(s.ap4);
    lemma_allpass_silent(s.ap5);
    lemma_fx_mul_zero(NREV_MIX_03 as int);
    lemma_fx_mul_zero(NREV_MIX_07 as int);
}

/// The output stream of an NRev run over an input stream.
pub open spec fn nrev_run(s: NRevState, xs: Seq<(int, int)>) -> Seq<(int, int)>
    decreases xs.len(),
{
    if xs.len() == 0 {
        Seq::empty()
    } else {
        seq![nrev_step(s, xs[0]).1] + nrev_run(nrev_step(s, xs[0]).0, xs.skip(1))
    }
}

/// A run produces exactly one output frame per input frame.
pub proof fn lemma_nrev_run_len(s: NRevState, xs: Seq<(int, int)>)
    ensures
        nrev_run(s, xs).len() == xs.len(),
    decreases xs.len(),
{
    if xs.len() > 0 {
        lemma_nrev_run_len(nrev_step(s, xs[0]).0, xs.skip(1));
    }
}

/// An all-zero input stream into a resting NRev produces an all-zero
/// output stream, however long the stream runs.
pub proof fn lemma_nrev_silent_stream(s: NRevState, xs: Seq<(int, int)>)
    requires
        nrev_wf(s),
        nrev_at_rest(s),
        forall|i: int| 0 <= i < xs.len() ==> xs[i] == (0int, 0int),
    ensures
        forall|i: int| 0 <= i < xs.len() ==> nrev_run(s, xs)[i] == (0int, 0int),
    decreases xs.len(),
{
    lemma_nrev_run_len(s, xs);
    if xs.len() > 0 {
        lemma_nrev_silent(s);
        let s1 = nrev_step(s, xs[0]).0;
        lemma_nrev_run_len(s1, xs.skip(1));
        lemma_nrev_silent_stream(s1, xs.skip(1));
        let out = nrev_run(s, xs);
        assert forall|i: int| 0 <= i < xs.len() implies out[i] == (0int, 0int) by {
            if i > 0 {
                assert(out[i] == nrev_run(s1, xs.skip(1))[i - 1]);
            }
        }
    }
}

/// The NRev reverberator.
pub struct NRev {
    cb0: FeedbackComb,
    cb1: FeedbackComb,
    cb2: FeedbackComb,
    cb3: FeedbackComb,
    cb4: FeedbackComb,
    cb5: FeedbackComb,
    ffc: FeedforwardComb,
    ap0: Allpass,
    ap1: Allpass,
    ap2: Allpass,
    ap3: Allpass,
    ap4: Allpass,
    ap5: Allpass,
}

impl View for NRev {
    type V = NRevState;

    closed spec fn view(&self) -> NRevState {
        NRevState {
            cb0: self.cb0@,
            cb1: self.cb1@,
            cb2: self.cb2@,
            cb3: self.cb3@,
            cb4: self.cb4@,
            cb5: self.cb5@,
            ffc: self.ffc@,
            ap0: self.ap0@,
            ap1: self.ap1@,
            ap2: self.ap2@,
            ap3: self.ap3@,
            ap4: self.ap4@,
            ap5: self.ap5@,
        }
    }
}

impl NRev {
    /// Builds the NRev network for the given sample rate: comb delays
    /// 1433, 1601, 1867, 2053, 2251, 2399 and allpass delays 347, 113,
    /// 37, 59, 53, 43 samples at the 25641 Hz design rate, all scaled
    /// identically; the lowpass stage keeps its fixed one-sample tap.
    /// `comb_gains` holds the T60-derived feedback gain for each comb,
    /// in the same order as the delays.
    pub fn new(sample_rate: u32, comb_gains: [i64; 6]) -> (r: NRev)
        requires
            forall|i: int| 0 <= i < 6 ==> sample_ok(#[trigger] comb_gains[i] as int),
        ensures
            r.wf(),
            r@ == nrev_init(sample_rate as int, comb_gains@.map(|_i: int, g: i64| g as int)),
            nrev_wf(r@),
            nrev_at_rest(r@),
    {
        let r = NRev {
            cb0: FeedbackComb::new(comb_gains[0], scale_delay(sample_rate, NREV_DESIGN_RATE, 1433)),
            cb1: FeedbackComb::new(comb_gains[1], scale_delay(sample_rate, NREV_DESIGN_RATE, 1601)),
            cb2: FeedbackComb::new(comb_gains[2], scale_delay(sample_rate, NREV_DESIGN_RATE, 1867)),
            cb3: FeedbackComb::new(comb_gains[3], scale_delay(sample_rate, NREV_DESIGN_RATE, 2053)),
            cb4: FeedbackComb::new(comb_gains[4], scale_delay(sample_rate, NREV_DESIGN_RATE, 2251)),
            cb5: FeedbackComb::new(comb_gains[5], scale_delay(sample_rate, NREV_DESIGN_RATE, 2399)),
            ffc: FeedforwardComb::new(NREV_MIX_03, NREV_MIX_07, 1),
            ap0: Allpass::new(
                NREV_AP_GAIN,
                NREV_AP_GAIN,
                scale_delay(sample_rate, NREV_DESIGN_RATE, 347),
            ),
            ap1: Allpass::new(
                NREV_AP_GAIN,
                NREV_AP_GAIN,
                scale_delay(sample_rate, NREV_DESIGN_RATE, 113),
            ),
            ap2: Allpass::new(
                NREV_AP_GAIN,
                NREV_AP_GAIN,
                scale_delay(sample_rate, NREV_DESIGN_RATE, 37),
            ),
            ap3: Allpass::new(
                NREV_AP_GAIN,
                NREV_AP_GAIN,
                scale_delay(sample_rate, NREV_DESIGN_RATE, 59),
            ),
            ap4: Allpass::new(
                NREV_AP_GAIN,
                NREV_AP_GAIN,
                scale_delay(sample_rate, NREV_DESIGN_RATE, 53),
            ),
            ap5: Allpass::new(
                NREV_AP_GAIN,
                NREV_AP_GAIN,
                scale_delay(sample_rate, NREV_DESIGN_RATE, 43),
            ),
        };
        proof {
            r.cb0.lemma_wf_state();
            r.cb1.lemma_wf_state();
            r.cb2.lemma_wf_state();
            r.cb3.lemma_wf_state();
            r.cb4.lemma_wf_state();
            r.cb5.lemma_wf_state();
            r.ffc.lemma_wf_state();
            r.ap0.lemma_wf_state();
            r.ap1.lemma_wf_state();
            r.ap2.lemma_wf_state();
            r.ap3.lemma_wf_state();
            r.ap4.lemma_wf_state();
            r.ap5.lemma_wf_state();
        }
        r
    }
}

impl Reverb for NRev {
    closed spec fn wf(&self) -> bool {
        &&& self.cb0.wf()
        &&& self.cb1.wf()
        &&& self.cb2.wf()
        &&& self.cb3.wf()
        &&& self.cb4.wf()
        &&& self.cb5.wf()
        &&& self.ffc.wf()
        &&& self.ap0.wf()
        &&& self.ap1.wf()
        &&& self.ap2.wf()
        &&& self.ap3.wf()
        &&& self.ap4.wf()
        &&& self.ap5.wf()
    }

    fn process_sample(&mut self, x: (i64, i64)) -> (y: (i64, i64))
        ensures
            final(self)@ == nrev_step(old(self)@, (x.0 as int, x.1 as int)).0,
            (y.0 as int, y.1 as int) == nrev_step(old(self)@, (x.0 as int, x.1 as int)).1,
    {
        let mono = mono_downmix(x.0, x.1);
        let c0 = self.cb0.process_sample(mono);
        let c1 = self.cb1.process_sample(mono);
        let c2 = self.cb2.process_sample(mono);
        let c3 = self.cb3.process_sample(mono);
        let c4 = self.cb4.process_sample(mono);
        let c5 = self.cb5.process_sample(mono);
        let csum = sample_add(
            sample_add(sample_add(sample_add(sample_add(c0, c1), c2), c3), c4),
            c5,
        );
        let a0 = self.ap0.process_sample(csum);
        let a1 = self.ap1.process_sample(a0);
        let a2 = self.ap2.process_sample(a1);
        let f = self.ffc.process_sample(a2);
        let a3 = self.ap3.process_sample(f);
        let a4 = self.ap4.process_sample(a3);
        let a5 = self.ap5.process_sample(a3);
        (
            sample_add(sample_mul(NREV_MIX_03, a4), sample_mul(NREV_MIX_07, mono)),
            sample_add(sample_mul(NREV_MIX_03, a5), sample_mul(NREV_MIX_07, mono)),
        )
    }
}

} // verus!
