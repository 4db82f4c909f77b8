//! JCRev: the original Schroeder reverberator — three series allpasses
//! feeding four parallel feedback combs, summed pairwise into the left
//! and right outputs. Design sample rate: 25000 Hz.

use crate::filter::{
    allpass_init, allpass_next, allpass_out, allpass_wf, fbcomb_init, fbcomb_next, fbcomb_out,
    fbcomb_wf, lemma_allpass_silent, lemma_fbcomb_silent, silent, Allpass, AllpassState,
    FeedbackComb, FbCombState, Filter,
};
use crate::reverb::{mono_downmix, mono_mix, scale_delay, scaled_len, window_len, Reverb};
use crate::sample::{fx_add, lemma_fx_mul_zero, sample_add, HALF};
use vstd::prelude::*;

verus! {

/// -0.7: the allpass gain of all three diffusion stages.
pub const JC_AP_GAIN: i64 = -751619277;

/// -0.773, -0.802, -0.753, -0.733: the four comb feedback gains.
pub const JC_COMB_GAIN_0: i64 = -830002430;

pub const JC_COMB_GAIN_1: i64 = -861140943;

pub const JC_COMB_GAIN_2: i64 = -808527593;

pub const JC_COMB_GAIN_3: i64 = -787052757;

/// The design sample rate the delay lengths were chosen for.
pub const JC_DESIGN_RATE: u32 = 25000;

/// Mathematical state of a JCRev instance.
pub struct JCRevState {
    pub ap0: AllpassState,
    pub ap1: AllpassState,
    pub ap2: AllpassState,
    pub cb0: FbCombState,
    pub cb1: FbCombState,
    pub cb2: FbCombState,
    pub cb3: FbCombState,
}

pub open spec fn jcrev_wf(s: JCRevState) -> bool {
    &&& allpass_wf(s.ap0)
    &&& allpass_wf(s.ap1)
    &&& allpass_wf(s.ap2)
    &&& fbcomb_wf(s.cb0)
    &&& fbcomb_wf(s.cb1)
    &&& fbcomb_wf(s.cb2)
    &&& fbcomb_wf(s.cb3)
}

/// Every delay window holds silence: the state right after construction.
pub open spec fn jcrev_at_rest(s: JCRevState) -> bool {
    &&& silent(s.ap0.z)
    &&& silent(s.ap1.z)
    &&& silent(s.ap2.z)
    &&& silent(s.cb0.z)
    &&& silent(s.cb1.z)
    &&& silent(s.cb2.z)
    &&& silent(s.cb3.z)
}

/// The state of a freshly built JCRev: all gains at their fixed values
/// and every window silent, with each delay length scaled from the
/// design rate.
pub open spec fn jcrev_init(sample_rate: int) -> JCRevState {
    let dr = JC_DESIGN_RATE as int;
    JCRevState {
        ap0: allpass_init(JC_AP_GAIN as int, JC_AP_GAIN as int, window_len(scaled_len(sample_rate, dr, 347))),
        ap1: allpass_init(JC_AP_GAIN as int, JC_AP_GAIN as int, window_len(scaled_len(sample_rate, dr, 113))),
        ap2: allpass_init(JC_AP_GAIN as int, JC_AP_GAIN as int, window_len(scaled_len(sample_rate, dr, 37))),
        cb0: fbcomb_init(JC_COMB_GAIN_0 as int, window_len(scaled_len(sample_rate, dr, 1687))),
        cb1: fbcomb_init(JC_COMB_GAIN_1 as int, window_len(scaled_len(sample_rate, dr, 1601))),
        cb2: fbcomb_init(JC_COMB_GAIN_2 as int, window_len(scaled_len(sample_rate, dr, 2053))),
        cb3: fbcomb_init(JC_COMB_GAIN_3 as int, window_len(scaled_len(sample_rate, dr, 2251))),
    }
}

/// One step of JCRev: the mono mix runs through the three allpasses in
/// series, the result drives the four combs in parallel, and combs
/// 0 + 2 form the left output, combs 1 + 3 the right.
pub open spec fn jcrev_step(s: JCRevState, x: (int, int)) -> (JCRevState, (int, int)) {
    let mono = mono_mix(x);
    let a0 = allpass_out(s.ap0, mono);
    let a1 = allpass_out(s.ap1, a0);
    let a2 = allpass_out(s.ap2, a1);
    let c0 = fbcomb_out(s.cb0, a2);
    let c1 = fbcomb_out(s.cb1, a2);
    let c2 = fbcomb_out(s.cb2, a2);
    let c3 = fbcomb_out(s.cb3, a2);
    (
        JCRevState {
            ap0: allpass_next(s.ap0, mono),
            ap1: allpass_next(s.ap1, a0),
            ap2: allpass_next(s.ap2, a1),
            cb0: fbcomb_next(s.cb0, a2),
            cb1: fbcomb_next(s.cb1, a2),
            cb2: fbcomb_next(s.cb2, a2),
            cb3: fbcomb_next(s.cb3, a2),
        },
        (fx_add(c0, c2), fx_add(c1, c3)),
    )
}

/// No self-excitation from rest: a zero frame into a resting JCRev
/// yields a zero frame and leaves it at rest, so by induction the
/// output stream of an all-zero input stream is all-zero.
pub proof fn lemma_jcrev_silent(s: JCRevState)
    requires
        jcrev_wf(s),
        jcrev_at_rest(s),
    ensures
        jcrev_step(s, (0int, 0int)).1 == (0int, 0int),
        jcrev_at_rest(jcrev_step(s, (0int, 0int)).0),
        jcrev_wf(jcrev_step(s, (0int, 0int)).0),
{
    lemma_fx_mul_zero(HALF as int);
    lemma_allpass_silent(s.ap0);
    lemma_allpass_silent(s.ap1);
    lemma_allpass_silent(s.ap2);
    lemma_fbcomb_silent(s.cb0);
    lemma_fbcomb_silent(s.cb1);
    lemma_fbcomb_silent(s.cb2);
    lemma_fbcomb_silent(s.cb3);
}

/// The output stream of a JCRev run over an input stream.
pub open spec fn jcrev_run(s: JCRevState, xs: Seq<(int, int)>) -> Seq<(int, int)>
    decreases xs.len(),
{
    if xs.len() == 0 {
        Seq::empty()
    } else {
        seq![jcrev_step(s, xs[0]).1] + jcrev_run(jcrev_step(s, xs[0]).0, xs.skip(1))
    }
}

/// A run produces exactly one output frame per input frame.
pub proof fn lemma_jcrev_run_len(s: JCRevState, xs: Seq<(int, int)>)
    ensures
        jcrev_run(s, xs).len() == xs.len(),
    decreases xs.len(),
{
    if xs.len() > 0 {
        lemma_jcrev_run_len(jcrev_step(s, xs[0]).0, xs.skip(1));
    }
}

/// An all-zero input stream into a resting JCRev produces an all-zero
/// output stream, however long the stream runs.
pub proof fn lemma_jcrev_silent_stream(s: JCRevState, xs: Seq<(int, int)>)
    requires
        jcrev_wf(s),
        jcrev_at_rest(s),
        forall|i: int| 0 <= i < xs.len() ==> xs[i] == (0int, 0int),
    ensures
        forall|i: int| 0 <= i < xs.len() ==> jcrev_run(s, xs)[i] == (0int, 0int),
    decreases xs.len(),
{
    lemma_jcrev_run_len(s, xs);
    if xs.len() > 0 {
        lemma_jcrev_silent(s);
        let s1 = jcrev_step(s, xs[0]).0;
        lemma_jcrev_run_len(s1, xs.skip(1));
        lemma_jcrev_silent_stream(s1, xs.skip(1));
        let out = jcrev_run(s, xs);
        assert forall|i: int| 0 <= i < xs.len() implies out[i] == (0int, 0int) by {
            if i > 0 {
                assert(out[i] == jcrev_run(s1, xs.skip(1))[i - 1]);
            }
        }
    }
}

/// The original Schroeder reverberator.
pub struct JCRev {
    ap0: Allpass,
    ap1: Allpass,
    ap2: Allpass,
    cb0: FeedbackComb,
    cb1: FeedbackComb,
    cb2: FeedbackComb,
    cb3: FeedbackComb,
}

impl View for JCRev {
    type V = JCRevState;

    closed spec fn view(&self) -> JCRevState {
        JCRevState {
            ap0: self.ap0@,
            ap1: self.ap1@,
            ap2: self.ap2@,
            cb0: self.cb0@,
            cb1: self.cb1@,
            cb2: self.cb2@,
            cb3: self.cb3@,
        }
    }
}

impl JCRev {
    /// Builds the JCRev network for the given sample rate: allpass
    /// delays 347, 113, 37 and comb delays 1687, 1601, 2053, 2251
    /// samples at the 25000 Hz design rate, all scaled identically.
    pub fn new(sample_rate: u32) -> (r: JCRev)
        ensures
            r.wf(),
            r@ == jcrev_init(sample_rate as int),
            jcrev_wf(r@),
            jcrev_at_rest(r@),
    {
        let r = JCRev {
            ap0: Allpass::new(JC_AP_GAIN, JC_AP_GAIN, scale_delay(sample_rate, JC_DESIGN_RATE, 347)),
            ap1: Allpass::new(JC_AP_GAIN, JC_AP_GAIN, scale_delay(sample_rate, JC_DESIGN_RATE, 113)),
            ap2: Allpass::new(JC_AP_GAIN, JC_AP_GAIN, scale_delay(sample_rate, JC_DESIGN_RATE, 37)),
            cb0: FeedbackComb::new(JC_COMB_GAIN_0, scale_delay(sample_rate, JC_DESIGN_RATE, 1687)),
            cb1: FeedbackComb::new(JC_COMB_GAIN_1, scale_delay(sample_rate, JC_DESIGN_RATE, 1601)),
            cb2: FeedbackComb::new(JC_COMB_GAIN_2, scale_delay(sample_rate, JC_DESIGN_RATE, 2053)),
            cb3: FeedbackComb::new(JC_COMB_GAIN_3, scale_delay(sample_rate, JC_DESIGN_RATE, 2251)),
        };
        proof {
            r.ap0.lemma_wf_state();
            r.ap1.lemma_wf_state();
            r.ap2.lemma_wf_state();
            r.cb0.lemma_wf_state();
            r.cb1.lemma_wf_state();
            r.cb2.lemma_wf_state();
            r.cb3.lemma_wf_state();
        }
        r
    }
}

impl Reverb for JCRev {
    closed spec fn wf(&self) -> bool {
        &&& self.ap0.wf()
        &&& self.ap1.wf()
        &&& self.ap2.wf()
        &&& self.cb0.wf()
        &&& self.cb1.wf()
        &&& self.cb2.wf()
        &&& self.cb3.wf()
    }

    fn process_sample(&mut self, x: (i64, i64)) -> (y: (i64, i64))
        ensures
            final(self)@ == jcrev_step(old(self)@, (x.0 as int, x.1 as int)).0,
            (y.0 as int, y.1 as int) == jcrev_step(old(self)@, (x.0 as int, x.1 as int)).1,
    {
        let mono = mono_downmix(x.0, x.1);
        let a0 = self.ap0.process_sample(mono);
        let a1 = self.ap1.process_sample(a0);
        let a2 = self.ap2.process_sample(a1);
        let c0 = self.cb0.process_sample(a2);
        let c1 = self.cb1.process_sample(a2);
        let c2 = self.cb2.process_sample(a2);
        let c3 = self.cb3.process_sample(a2);
        (sample_add(c0, c2), sample_add(c1, c3))
    }
}

} // verus!
