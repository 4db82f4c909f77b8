//! SATREV: a classic Schroeder reverberator — four parallel feedback
//! combs summed, then three series allpasses; the stereo output is the
//! mono result and its exact negative (out-of-phase stereo). Design
//! sample rate: 25000 Hz.

use crate::filter::{
    allpass_init, allpass_next, allpass_out, allpass_wf, fbcomb_init, fbcomb_next, fbcomb_out,
    fbcomb_wf, lemma_allpass_silent, lemma_fbcomb_silent, silent, Allpass, AllpassState,
    FbCombState, FeedbackComb, Filter,
};
use crate::reverb::{mono_downmix, mono_mix, scale_delay, scaled_len, window_len, Reverb};
use crate::sample::{fx_add, fx_neg, lemma_fx_mul_zero, sample_add, sample_neg, sample_ok, HALF};
use vstd::prelude::*;

verus! {

/// -0.7: the allpass gain of all three diffusion stages.
pub const SAT_AP_GAIN: i64 = -751619277;

/// -0.805, -0.827, -0.783, -0.764: the four comb feedback gains.
pub const SAT_COMB_GAIN_0: i64 = -864362168;

pub const SAT_COMB_GAIN_1: i64 = -887984488;

pub const SAT_COMB_GAIN_2: i64 = -840739848;

pub const SAT_COMB_GAIN_3: i64 = -820338754;

/// The design sample rate the delay lengths were chosen for.
pub const SAT_DESIGN_RATE: u32 = 25000;

/// Mathematical state of a SATREV instance.
pub struct SATREVState {
    pub cb0: FbCombState,
    pub cb1: FbCombState,
    pub cb2: FbCombState,
    pub cb3: FbCombState,
    pub ap0: AllpassState,
    pub ap1: AllpassState,
    pub ap2: AllpassState,
}

pub open spec fn satrev_wf(s: SATREVState) -> bool {
    &&& fbcomb_wf(s.cb0)
    &&& fbcomb_wf(s.cb1)
    &&& fbcomb_wf(s.cb2)
    &&& fbcomb_wf(s.cb3)
    &&& allpass_wf(s.ap0)
    &&& allpass_wf(s.ap1)
    &&& allpass_wf(s.ap2)
}

/// Every delay window holds silence: the state right after construction.
pub open spec fn satrev_at_rest(s: SATREVState) -> bool {
    &&& silent(s.cb0.z)
    &&& silent(s.cb1.z)
    &&& silent(s.cb2.z)
    &&& silent(s.cb3.z)
    &&& silent(s.ap0.z)
    &&& silent(s.ap1.z)
    &&& silent(s.ap2.z)
}

/// The state of a freshly built SATREV: all gains at their fixed values
/// and every window silent, with each delay length scaled from the
/// design rate.
pub open spec fn satrev_init(sample_rate: int) -> SATREVState {
    let dr = SAT_DESIGN_RATE as int;
    SATREVState {
        cb0: fbcomb_init(SAT_COMB_GAIN_0 as int, window_len(scaled_len(sample_rate, dr, 901))),
        cb1: fbcomb_init(SAT_COMB_GAIN_1 as int, window_len(scaled_len(sample_rate, dr, 778))),
        cb2: fbcomb_init(SAT_COMB_GAIN_2 as int, window_len(scaled_len(sample_rate, dr, 1011))),
        cb3: fbcomb_init(SAT_COMB_GAIN_3 as int, window_len(scaled_len(sample_rate, dr, 1123))),
        ap0: allpass_init(SAT_AP_GAIN as int, SAT_AP_GAIN as int, window_len(scaled_len(sample_rate, dr, 125))),
        ap1: allpass_init(SAT_AP_GAIN as int, SAT_AP_GAIN as int, window_len(scaled_len(sample_rate, dr, 42))),
        ap2: allpass_init(SAT_AP_GAIN as int, SAT_AP_GAIN as int, window_len(scaled_len(sample_rate, dr, 12))),
    }
}

/// One step of SATREV: the mono mix drives the four combs in parallel,
/// their sum runs through the three allpasses in series, and the
/// output pair is that result and its negative.
pub open spec fn satrev_step(s: SATREVState, x: (int, int)) -> (SATREVState, (int, int)) {
    let mono = mono_mix(x);
    let c0 = fbcomb_out(s.cb0, mono);
    let c1 = fbcomb_out(s.cb1, mono);
    let c2 = fbcomb_out(s.cb2, mono);
    let c3 = fbcomb_out(s.cb3, mono);
    let csum = fx_add(fx_add(fx_add(c0, c1), c2), c3);
    let a0 = allpass_out(s.ap0, csum);
    let a1 = allpass_out(s.ap1, a0);
    let a2 = allpass_out(s.ap2, a1);
    (
        SATREVState {
            cb0: fbcomb_next(s.cb0, mono),
            cb1: fbcomb_next(s.cb1, mono),
            cb2: fbcomb_next(s.cb2, mono),
            cb3: fbcomb_next(s.cb3, mono),
            ap0: allpass_next(s.ap0, csum),
            ap1: allpass_next(s.ap1, a0),
            ap2: allpass_next(s.ap2, a1),
        },
        (a2, fx_neg(a2)),
    )
}

/// SATREV's two output channels are exact negatives of each other, for
/// every state and every input, by construction.
pub proof fn lemma_satrev_antiphase(s: SATREVState, x: (int, int))
    ensures
        satrev_step(s, x).1.1 == -satrev_step(s, x).1.0,
        sample_ok(satrev_step(s, x).1.0),
{
}

/// No self-excitation from rest: a zero frame into a resting SATREV
/// yields a zero frame and leaves it at rest.
pub proof fn lemma_satrev_silent(s: SATREVState)
    requires
        satrev_wf(s),
        satrev_at_rest(s),
    ensures
        satrev_step(s, (0int, 0int)).1 == (0int, 0int),
        satrev_at_rest(satrev_step(s, (0int, 0int)).0),
        satrev_wf(satrev_step(s, (0int, 0int)).0),
{
    lemma_fx_mul_zero(HALF as int);
    lemma_fbcomb_silent(s.cb0);
    lemma_fbcomb_silent(s.cb1);
    lemma_fbcomb_silent(s.cb2);
    lemma_fbcomb_silent(s.cb3);
    lemma_allpass_silent(s.ap0);
    lemma_allpass_silent(s.ap1);
    lemma_allpass_silent(s.ap2);
}

/// The output stream of a SATREV run over an input stream.
pub open spec fn satrev_run(s: SATREVState, xs: Seq<(int, int)>) -> Seq<(int, int)>
    decreases xs.len(),
{
    if xs.len() == 0 {
        Seq::empty()
    } else {
        seq![satrev_step(s, xs[0]).1] + satrev_run(satrev_step(s, xs[0]).0, xs.skip(1))
    }
}

/// A run produces exactly one output frame per input frame.
pub proof fn lemma_satrev_run_len(s: SATREVState, xs: Seq<(int, int)>)
    ensures
        satrev_run(s, xs).len() == xs.len(),
    decreases xs.len(),
{
    if xs.len() > 0 {
        lemma_satrev_run_len(satrev_step(s, xs[0]).0, xs.skip(1));
    }
}

/// An all-zero input stream into a resting SATREV produces an all-zero
/// output stream, however long the stream runs.
pub proof fn lemma_satrev_silent_stream(s: SATREVState, xs: Seq<(int, int)>)
    requires
        satrev_wf(s),
        satrev_at_rest(s),
        forall|i: int| 0 <= i < xs.len() ==> xs[i] == (0int, 0int),
    ensures
        forall|i: int| 0 <= i < xs.len() ==> satrev_run(s, xs)[i] == (0int, 0int),
    decreases xs.len(),
{
    lemma_satrev_run_len(s, xs);
    if xs.len() > 0 {
        lemma_satrev_silent(s);
        let s1 = satrev_step(s, xs[0]).0;
        lemma_satrev_run_len(s1, xs.skip(1));
        lemma_satrev_silent_stream(s1, xs.skip(1));
        let out = satrev_run(s, xs);
        assert forall|i: int| 0 <= i < xs.len() implies out[i] == (0int, 0int) by {
            if i > 0 {
                assert(out[i] == satrev_run(s1, xs.skip(1))[i - 1]);
            }
        }
    }
}

/// The SATREV reverberator.
pub struct SATREV {
    cb0: FeedbackComb,
    cb1: FeedbackComb,
    cb2: FeedbackComb,
    cb3: FeedbackComb,
    ap0: Allpass,
    ap1: Allpass,
    ap2: Allpass,
}

impl View for SATREV {
    type V = SATREVState;

    closed spec fn view(&self) -> SATREVState {
        SATREVState {
            cb0: self.cb0@,
            cb1: self.cb1@,
            cb2: self.cb2@,
            cb3: self.cb3@,
            ap0: self.ap0@,
            ap1: self.ap1@,
            ap2: self.ap2@,
        }
    }
}

impl SATREV {
    /// Builds the SATREV network for the given sample rate: comb delays
    /// 901, 778, 1011, 1123 and allpass delays 125, 42, 12 samples at
    /// the 25000 Hz design rate, all scaled identically.
    pub fn new(sample_rate: u32) -> (r: SATREV)
        ensures
            r.wf(),
            r@ == satrev_init(sample_rate as int),
            satrev_wf(r@),
            satrev_at_rest(r@),
    {
        let r = SATREV {
            cb0: FeedbackComb::new(SAT_COMB_GAIN_0, scale_delay(sample_rate, SAT_DESIGN_RATE, 901)),
            cb1: FeedbackComb::new(SAT_COMB_GAIN_1, scale_delay(sample_rate, SAT_DESIGN_RATE, 778)),
            cb2: FeedbackComb::new(
                SAT_COMB_GAIN_2,
                scale_delay(sample_rate, SAT_DESIGN_RATE, 1011),
            ),
            cb3: FeedbackComb::new(
                SAT_COMB_GAIN_3,
                scale_delay(sample_rate, SAT_DESIGN_RATE, 1123),
            ),
            ap0: Allpass::new(SAT_AP_GAIN, SAT_AP_GAIN, scale_delay(sample_rate, SAT_DESIGN_RATE, 125)),
            ap1: Allpass::new(SAT_AP_GAIN, SAT_AP_GAIN, scale_delay(sample_rate, SAT_DESIGN_RATE, 42)),
            ap2: Allpass::new(SAT_AP_GAIN, SAT_AP_GAIN, scale_delay(sample_rate, SAT_DESIGN_RATE, 12)),
        };
        proof {
            r.cb0.lemma_wf_state();
            r.cb1.lemma_wf_state();
            r.cb2.lemma_wf_state();
            r.cb3.lemma_wf_state();
            r.ap0.lemma_wf_state();
            r.ap1.lemma_wf_state();
            r.ap2.lemma_wf_state();
        }
        r
    }
}

impl Reverb for SATREV {
    closed spec fn wf(&self) -> bool {
        &&& self.cb0.wf()
        &&& self.cb1.wf()
        &&& self.cb2.wf()
        &&& self.cb3.wf()
        &&& self.ap0.wf()
        &&& self.ap1.wf()
        &&& self.ap2.wf()
    }

    fn process_sample(&mut self, x: (i64, i64)) -> (y: (i64, i64))
        ensures
            final(self)@ == satrev_step(old(self)@, (x.0 as int, x.1 as int)).0,
            (y.0 as int, y.1 as int) == satrev_step(old(self)@, (x.0 as int, x.1 as int)).1,
            y.1 as int == -(y.0 as int),
    {
        let mono = mono_downmix(x.0, x.1);
        let c0 = self.cb0.process_sample(mono);
        let c1 = self.cb1.process_sample(mono);
        let c2 = self.cb2.process_sample(mono);
        let c3 = self.cb3.process_sample(mono);
        let csum = sample_add(sample_add(sample_add(c0, c1), c2), c3);
        let a0 = self.ap0.process_sample(csum);
        let a1 = self.ap1.process_sample(a0);
        let a2 = self.ap2.process_sample(a1);
        (a2, sample_neg(a2))
    }
}

} // verus!
