//! The Synthesis ToolKit's variant of JCRev — three series allpasses,
//! then four parallel comb sections, each a delay line wrapped around a
//! feedforward comb, summed; the stereo pair mixes two single-tap
//! output delays with the dry mono input. Design sample rate: 44100 Hz.
//!
//! The direct gain of each comb section's feedforward stage depends on
//! the target reverberation time (T60); the classic recipe is
//! `0.8 * 10^(-3 * delay / (44100 * t60))` per comb delay, which needs
//! transcendental arithmetic and is therefore computed by the caller
//! and passed in as four fixed-point gains.

use crate::delay::{zero_window, Delay};
use crate::filter::{
    allpass_init, allpass_next, allpass_out, allpass_wf, ffcomb_init, ffcomb_next, ffcomb_out,
    ffcomb_wf, lemma_allpass_silent, lemma_ffcomb_silent, lemma_step_silent, silent, window_wf,
    Allpass, AllpassState, FeedforwardComb, FfCombState, Filter,
};
use crate::reverb::{mono_downmix, mono_mix, scale_delay, scaled_len, window_len, Reverb};
use crate::sample::{
    fx_add, fx_mul, lemma_fx_mul_zero, sample_add, sample_mul, sample_ok, HALF,
};
use vstd::prelude::*;

verus! {

/// -0.7: the allpass gain of all three diffusion stages.
pub const STK_AP_GAIN: i64 = -751619277;

/// 0.2: the delayed-tap gain of every comb section's feedforward stage.
pub const STK_FF_TAP: i64 = 214748365;

/// 0.3: the delayed share of the output mix.
pub const STK_MIX_03: i64 = 322122547;

/// 0.7: the dry share of the output mix, and the overall output gain.
pub const STK_MIX_07: i64 = 751619277;

/// The design sample rate the delay lengths were chosen for.
pub const STK_DESIGN_RATE: u32 = 44100;

/// Mathematical state of an STKJCRev instance: the allpass chain, four
/// comb sections (a delay window plus a feedforward comb each), and the
/// two output delay windows.
pub struct STKJCRevState {
    pub ap0: AllpassState,
    pub ap1: AllpassState,
    pub ap2: AllpassState,
    pub cd0: Seq<int>,
    pub cd1: Seq<int>,
    pub cd2: Seq<int>,
    pub cd3: Seq<int>,
    pub cf0: FfCombState,
    pub cf1: FfCombState,
    pub cf2: FfCombState,
    pub cf3: FfCombState,
    pub od0: Seq<int>,
    pub od1: Seq<int>,
}

pub open spec fn stk_jcrev_wf(s: STKJCRevState) -> bool {
    &&& allpass_wf(s.ap0)
    &&& allpass_wf(s.ap1)
    &&& allpass_wf(s.ap2)
    &&& window_wf(s.cd0)
    &&& window_wf(s.cd1)
    &&& window_wf(s.cd2)
    &&& window_wf(s.cd3)
    &&& ffcomb_wf(s.cf0)
    &&& ffcomb_wf(s.cf1)
    &&& ffcomb_wf(s.cf2)
    &&& ffcomb_wf(s.cf3)
    &&& window_wf(s.od0)
    &&& window_wf(s.od1)
}

/// Every delay window holds silence: the state right after construction.
pub open spec fn stk_jcrev_at_rest(s: STKJCRevState) -> bool {
    &&& silent(s.ap0.z)
    &&& silent(s.ap1.z)
    &&& silent(s.ap2.z)
    &&& silent(s.cd0)
    &&& silent(s.cd1)
    &&& silent(s.cd2)
    &&& silent(s.cd3)
    &&& silent(s.cf0.z)
    &&& silent(s.cf1.z)
    &&& silent(s.cf2.z)
    &&& silent(s.cf3.z)
    &&& silent(s.od0)
    &&& silent(s.od1)
}

/// The state of a freshly built STKJCRev: the fixed allpass and mix
/// gains, the caller's comb gains, and every window silent, with each
/// delay length scaled from the design rate.
pub open spec fn stk_jcrev_init(sample_rate: int, gains: Seq<int>) -> STKJCRevState {
    let dr = STK_DESIGN_RATE as int;
    STKJCRevState {
        ap0: allpass_init(STK_AP_GAIN as int, STK_AP_GAIN as int, window_len(scaled_len(sample_rate, dr, 225))),
        ap1: allpass_init(STK_AP_GAIN as int, STK_AP_GAIN as int, window_len(scaled_len(sample_rate, dr, 341))),
        ap2: allpass_init(STK_AP_GAIN as int, STK_AP_GAIN as int, window_len(scaled_len(sample_rate, dr, 441))),
        cd0: zero_window(window_len(scaled_len(sample_rate, dr, 1116)) as nat),
        cd1: zero_window(window_len(scaled_len(sample_rate, dr, 1356)) as nat),
        cd2: zero_window(window_len(scaled_len(sample_rate, dr, 1422)) as nat),
        cd3: zero_window(window_len(scaled_len(sample_rate, dr, 1617)) as nat),
        cf0: ffcomb_init(gains[0], STK_FF_TAP as int, window_len(scaled_len(sample_rate, dr, 1116))),
        cf1: ffcomb_init(gains[1], STK_FF_TAP as int, window_len(scaled_len(sample_rate, dr, 1356))),
        cf2: ffcomb_init(gains[2], STK_FF_TAP as int, window_len(scaled_len(sample_rate, dr, 1422))),
        cf3: ffcomb_init(gains[3], STK_FF_TAP as int, window_len(scaled_len(sample_rate, dr, 1617))),
        od0: zero_window(window_len(scaled_len(sample_rate, dr, 211)) as nat),
        od1: zero_window(window_len(scaled_len(sample_rate, dr, 179)) as nat),
    }
}

/// One comb section's output: the diffused input plus the feedforward
/// comb applied to the section's own delayed output.
pub open spec fn stk_comb_out(cf: FfCombState, cd: Seq<int>, diffused: int) -> int {
    fx_add(diffused, ffcomb_out(cf, cd[0]))
}

/// One step of STKJCRev.
pub open spec fn stk_jcrev_step(s: STKJCRevState, x: (int, int)) -> (STKJCRevState, (int, int)) {
    let mono = mono_mix(x);
    let a0 = allpass_out(s.ap0, mono);
    let a1 = allpass_out(s.ap1, a0);
    let a2 = allpass_out(s.ap2, a1);
    let o0 = stk_comb_out(s.cf0, s.cd0, a2);
    let o1 = stk_comb_out(s.cf1, s.cd1, a2);
    let o2 = stk_comb_out(s.cf2, s.cd2, a2);
    let o3 = stk_comb_out(s.cf3, s.cd3, a2);
    let csum = fx_add(fx_add(fx_add(o0, o1), o2), o3);
    let yl = fx_mul(
        STK_MIX_07 as int,
        fx_add(fx_mul(STK_MIX_03 as int, s.od0[0]), fx_mul(STK_MIX_07 as int, mono)),
    );
    let yr = fx_mul(
        STK_MIX_07 as int,
        fx_add(fx_mul(STK_MIX_03 as int, s.od1[0]), fx_mul(STK_MIX_07 as int, mono)),
    );
    (
        STKJCRevState {
            ap0: allpass_next(s.ap0, mono),
            ap1: allpass_next(s.ap1, a0),
            ap2: allpass_next(s.ap2, a1),
            cd0: s.cd0.skip(1).push(o0),
            cd1: s.cd1.skip(1).push(o1),
            cd2: s.cd2.skip(1).push(o2),
            cd3: s.cd3.skip(1).push(o3),
            cf0: ffcomb_next(s.cf0, s.cd0[0]),
            cf1: ffcomb_next(s.cf1, s.cd1[0]),
            cf2: ffcomb_next(s.cf2, s.cd2[0]),
            cf3: ffcomb_next(s.cf3, s.cd3[0]),
            od0: s.od0.skip(1).push(csum),
            od1: s.od1.skip(1).push(csum),
        },
        (yl, yr),
    )
}

/// No self-excitation from rest: a zero frame into a resting STKJCRev
/// yields a zero frame and leaves it at rest.
pub proof fn lemma_stk_jcrev_silent(s: STKJCRevState)
    requires
        stk_jcrev_wf(s),
        stk_jcrev_at_rest(s),
    ensures
        stk_jcrev_step(s, (0int, 0int)).1 == (0int, 0int),
        stk_jcrev_at_rest(stk_jcrev_step(s, (0int, 0int)).0),
        stk_jcrev_wf(stk_jcrev_step(s, (0int, 0int)).0),
{
    lemma_fx_mul_zero(HALF as int);
    lemma_allpass_silent(s.ap0);
    lemma_allpass_silent(s.ap1);
    lemma_allpass_silent(s.ap2);
    lemma_ffcomb_silent(s.cf0);
    lemma_ffcomb_silent(s.cf1);
    lemma_ffcomb_silent(s.cf2);
    lemma_ffcomb_silent(s.cf3);
    lemma_step_silent(s.cd0, 0);
    lemma_step_silent(s.cd1, 0);
    lemma_step_silent(s.cd2, 0);
    lemma_step_silent(s.cd3, 0);
    lemma_step_silent(s.od0, 0);
    lemma_step_silent(s.od1, 0);
    lemma_fx_mul_zero(STK_MIX_03 as int);
    lemma_fx_mul_zero(STK_MIX_07 as int);
}

/// The output stream of an STKJCRev run over an input stream.
pub open spec fn stk_jcrev_run(s: STKJCRevState, xs: Seq<(int, int)>) -> Seq<(int, int)>
    decreases xs.len(),
{
    if xs.len() == 0 {
        Seq::empty()
    } else {
        seq![stk_jcrev_step(s, xs[0]).1] + stk_jcrev_run(stk_jcrev_step(s, xs[0]).0, xs.skip(1))
    }
}

/// A run produces exactly one output frame per input frame.
pub proof fn lemma_stk_jcrev_run_len(s: STKJCRevState, xs: Seq<(int, int)>)
    ensures
        stk_jcrev_run(s, xs).len() == xs.len(),
    decreases xs.len(),
{
    if xs.len() > 0 {
        lemma_stk_jcrev_run_len(stk_jcrev_step(s, xs[0]).0, xs.skip(1));
    }
}

/// An all-zero input stream into a resting STKJCRev produces an
/// all-zero output stream, however long the stream runs.
pub proof fn lemma_stk_jcrev_silent_stream(s: STKJCRevState, xs: Seq<(int, int)>)
    requires
        stk_jcrev_wf(s),
        stk_jcrev_at_rest(s),
        forall|i: int| 0 <= i < xs.len() ==> xs[i] == (0int, 0int),
    ensures
        forall|i: int| 0 <= i < xs.len() ==> stk_jcrev_run(s, xs)[i] == (0int, 0int),
    decreases xs.len(),
{
    lemma_stk_jcrev_run_len(s, xs);
    if xs.len() > 0 {
        lemma_stk_jcrev_silent(s);
        let s1 = stk_jcrev_step(s, xs[0]).0;
        lemma_stk_jcrev_run_len(s1, xs.skip(1));
        lemma_stk_jcrev_silent_stream(s1, xs.skip(1));
        let out = stk_jcrev_run(s, xs);
        assert forall|i: int| 0 <= i < xs.len() implies out[i] == (0int, 0int) by {
            if i > 0 {
                assert(out[i] == stk_jcrev_run(s1, xs.skip(1))[i - 1]);
            }
        }
    }
}

/// JCRev as the Synthesis ToolKit ships it.
pub struct STKJCRev {
    ap0: Allpass,
    ap1: Allpass,
    ap2: Allpass,
    cd0: Delay,
    cd1: Delay,
    cd2: Delay,
    cd3: Delay,
    cf0: FeedforwardComb,
    cf1: FeedforwardComb,
    cf2: FeedforwardComb,
    cf3: FeedforwardComb,
    od0: Delay,
    od1: Delay,
}

impl View for STKJCRev {
    type V = STKJCRevState;

    closed spec fn view(&self) -> STKJCRevState {
        STKJCRevState {
            ap0: self.ap0@,
            ap1: self.ap1@,
            ap2: self.ap2@,
            cd0: self.cd0@,
            cd1: self.cd1@,
            cd2: self.cd2@,
            cd3: self.cd3@,
            cf0: self.cf0@,
            cf1: self.cf1@,
            cf2: self.cf2@,
            cf3: self.cf3@,
            od0: self.od0@,
            od1: self.od1@,
        }
    }
}

impl STKJCRev {
    /// Builds the STKJCRev network for the given sample rate: allpass
    /// delays 225, 341, 441, comb delays 1116, 1356, 1422, 1617, and
    /// output delays 211, 179 samples at the 44100 Hz design rate, all
    /// scaled identically. `comb_gains` holds the T60-derived direct
    /// gain of each comb section's feedforward stage, in the same
    /// order as the comb delays.
    pub fn new(sample_rate: u32, comb_gains: [i64; 4]) -> (r: STKJCRev)
        requires
            forall|i: int| 0 <= i < 4 ==> sample_ok(#[trigger] comb_gains[i] as int),
        ensures
            r.wf(),
            r@ == stk_jcrev_init(sample_rate as int, comb_gains@.map(|_i: int, g: i64| g as int)),
            stk_jcrev_wf(r@),
            stk_jcrev_at_rest(r@),
    {
        let r = STKJCRev {
            ap0: Allpass::new(STK_AP_GAIN, STK_AP_GAIN, scale_delay(sample_rate, STK_DESIGN_RATE, 225)),
            ap1: Allpass::new(STK_AP_GAIN, STK_AP_GAIN, scale_delay(sample_rate, STK_DESIGN_RATE, 341)),
            ap2: Allpass::new(STK_AP_GAIN, STK_AP_GAIN, scale_delay(sample_rate, STK_DESIGN_RATE, 441)),
            cd0: Delay::new(scale_delay(sample_rate, STK_DESIGN_RATE, 1116)),
            cd1: Delay::new(scale_delay(sample_rate, STK_DESIGN_RATE, 1356)),
            cd2: Delay::new(scale_delay(sample_rate, STK_DESIGN_RATE, 1422)),
            cd3: Delay::new(scale_delay(sample_rate, STK_DESIGN_RATE, 1617)),
            cf0: FeedforwardComb::new(
                comb_gains[0],
                STK_FF_TAP,
                scale_delay(sample_rate, STK_DESIGN_RATE, 1116),
            ),
            cf1: FeedforwardComb::new(
                comb_gains[1],
                STK_FF_TAP,
                scale_delay(sample_rate, STK_DESIGN_RATE, 1356),
            ),
            cf2: FeedforwardComb::new(
                comb_gains[2],
                STK_FF_TAP,
                scale_delay(sample_rate, STK_DESIGN_RATE, 1422),
            ),
            cf3: FeedforwardComb::new(
                comb_gains[3],
                STK_FF_TAP,
                scale_delay(sample_rate, STK_DESIGN_RATE, 1617),
            ),
            od0: Delay::new(scale_delay(sample_rate, STK_DESIGN_RATE, 211)),
            od1: Delay::new(scale_delay(sample_rate, STK_DESIGN_RATE, 179)),
        };
        proof {
            let sr = sample_rate as int;
            let dr = STK_DESIGN_RATE as int;
            assert(r@.cd0 =~= zero_window(window_len(scaled_len(sr, dr, 1116)) as nat));
            assert(r@.cd1 =~= zero_window(window_len(scaled_len(sr, dr, 1356)) as nat));
            assert(r@.cd2 =~= zero_window(window_len(scaled_len(sr, dr, 1422)) as nat));
            assert(r@.cd3 =~= zero_window(window_len(scaled_len(sr, dr, 1617)) as nat));
            assert(r@.od0 =~= zero_window(window_len(scaled_len(sr, dr, 211)) as nat));
            assert(r@.od1 =~= zero_window(window_len(scaled_len(sr, dr, 179)) as nat));
            r.ap0.lemma_wf_state();
            r.ap1.lemma_wf_state();
            r.ap2.lemma_wf_state();
            r.cd0.lemma_wf_view();
            r.cd1.lemma_wf_view();
            r.cd2.lemma_wf_view();
            r.cd3.lemma_wf_view();
            r.cf0.lemma_wf_state();
            r.cf1.lemma_wf_state();
            r.cf2.lemma_wf_state();
            r.cf3.lemma_wf_state();
            r.od0.lemma_wf_view();
            r.od1.lemma_wf_view();
        }
        r
    }
}

impl Reverb for STKJCRev {
    closed spec fn wf(&self) -> bool {
        &&& self.ap0.wf()
        &&& self.ap1.wf()
        &&& self.ap2.wf()
        &&& self.cd0.wf()
        &&& self.cd1.wf()
        &&& self.cd2.wf()
        &&& self.cd3.wf()
        &&& self.cf0.wf()
        &&& self.cf1.wf()
        &&& self.cf2.wf()
        &&& self.cf3.wf()
        &&& self.od0.wf()
        &&& self.od1.wf()
    }

    fn process_sample(&mut self, x: (i64, i64)) -> (y: (i64, i64))
        ensures
            final(self)@ == stk_jcrev_step(old(self)@, (x.0 as int, x.1 as int)).0,
            (y.0 as int, y.1 as int) == stk_jcrev_step(old(self)@, (x.0 as int, x.1 as int)).1,
    {
        let mono = mono_downmix(x.0, x.1);
        let a0 = self.ap0.process_sample(mono);
        let a1 = self.ap1.process_sample(a0);
        let a2 = self.ap2.process_sample(a1);
        let o0 = sample_add(a2, self.cf0.process_sample(self.cd0.output()));
        self.cd0.input(o0);
        let o1 = sample_add(a2, self.cf1.process_sample(self.cd1.output()));
        self.cd1.input(o1);
        let o2 = sample_add(a2, self.cf2.process_sample(self.cd2.output()));
        self.cd2.input(o2);
        let o3 = sample_add(a2, self.cf3.process_sample(self.cd3.output()));
        self.cd3.input(o3);
        let csum = sample_add(sample_add(sample_add(o0, o1), o2), o3);
        let yl = sample_mul(
            STK_MIX_07,
            sample_add(sample_mul(STK_MIX_03, self.od0.output()), sample_mul(STK_MIX_07, mono)),
        );
        let yr = sample_mul(
            STK_MIX_07,
            sample_add(sample_mul(STK_MIX_03, self.od1.output()), sample_mul(STK_MIX_07, mono)),
        );
        self.od0.input(csum);
        self.od1.input(csum);
        (yl, yr)
    }
}

} // verus!
