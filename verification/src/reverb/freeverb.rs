//! Freeverb: two independent mono networks, one per ear, the second
//! with every delay lengthened by 23 samples of stereo spread. Each
//! network is eight parallel lowpass feedback combs summed, then four
//! series allpass-equivalent pairs (a feedback comb feeding a
//! feedforward comb). The stereo output is a weighted cross-mix of the
//! two mono outputs plus the scaled dry input. Design sample rate:
//! 44100 Hz.

use crate::filter::{
    fbcomb_init, fbcomb_next, fbcomb_out, fbcomb_wf, ffcomb_init, ffcomb_next, ffcomb_out,
    ffcomb_wf, lfbcomb_init, lfbcomb_next, lfbcomb_out, lfbcomb_wf, lemma_fbcomb_silent,
    lemma_ffcomb_silent, lemma_lfbcomb_silent, silent, FbCombState, FeedbackComb,
    FeedforwardComb, FfCombState, Filter, LfbCombState, LowpassFeedbackComb,
};
use crate::reverb::{scale_delay, scaled_len, window_len, Reverb};
use crate::sample::{
    fx_add, fx_mul, fx_sub, lemma_fx_mul_one, lemma_fx_mul_zero, sample_add, sample_mul,
    sample_ok, sample_sub, HALF, SCALE,
};
use vstd::prelude::*;

verus! {

/// 0.015: the gain applied to the summed stereo input.
pub const FV_INPUT_GAIN: i64 = 16106127;

/// 0.28: the room-size share of the comb feedback gain.
pub const FV_ROOM_SCALE: i64 = 300647711;

/// 0.7: the fixed offset of the comb feedback gain.
pub const FV_ROOM_OFFSET: i64 = 751619277;

/// 1.5: the wet gain scale.
pub const FV_WET_SCALE: i64 = 1610612736;

/// 2.0: the dry gain scale.
pub const FV_DRY_SCALE: i64 = 2147483648;

/// -0.5: the feedback gain of each allpass-equivalent pair.
pub const FV_AP_FEEDBACK: i64 = -536870912;

/// -1.0: the direct gain of each pair's feedforward stage.
pub const FV_AP_DIRECT: i64 = -1073741824;

/// 1.5: the delayed-tap gain of each pair's feedforward stage.
pub const FV_AP_TAP: i64 = 1610612736;

/// The extra delay, in design-rate samples, on the second ear's lines.
pub const FV_STEREO_SPREAD: u32 = 23;

/// The design sample rate the delay lengths were chosen for.
pub const FV_DESIGN_RATE: u32 = 44100;

/// Mathematical state of one ear's mono network.
pub struct MonoFreeverbState {
    pub lf0: LfbCombState,
    pub lf1: LfbCombState,
    pub lf2: LfbCombState,
    pub lf3: LfbCombState,
    pub lf4: LfbCombState,
    pub lf5: LfbCombState,
    pub lf6: LfbCombState,
    pub lf7: LfbCombState,
    pub af0: FbCombState,
    pub af1: FbCombState,
    pub af2: FbCombState,
    pub af3: FbCombState,
    pub ff0: FfCombState,
    pub ff1: FfCombState,
    pub ff2: FfCombState,
    pub ff3: FfCombState,
}

pub open spec fn mono_freeverb_wf(s: MonoFreeverbState) -> bool {
    &&& lfbcomb_wf(s.lf0)
    &&& lfbcomb_wf(s.lf1)
    &&& lfbcomb_wf(s.lf2)
    &&& lfbcomb_wf(s.lf3)
    &&& lfbcomb_wf(s.lf4)
    &&& lfbcomb_wf(s.lf5)
    &&& lfbcomb_wf(s.lf6)
    &&& lfbcomb_wf(s.lf7)
    &&& fbcomb_wf(s.af0)
    &&& fbcomb_wf(s.af1)
    &&& fbcomb_wf(s.af2)
    &&& fbcomb_wf(s.af3)
    &&& ffcomb_wf(s.ff0)
    &&& ffcomb_wf(s.ff1)
    &&& ffcomb_wf(s.ff2)
    &&& ffcomb_wf(s.ff3)
}

pub open spec fn mono_freeverb_at_rest(s: MonoFreeverbState) -> bool {
    &&& silent(s.lf0.z1) && silent(s.lf0.zn)
    &&& silent(s.lf1.z1) && silent(s.lf1.zn)
    &&& silent(s.lf2.z1) && silent(s.lf2.zn)
    &&& silent(s.lf3.z1) && silent(s.lf3.zn)
    &&& silent(s.lf4.z1) && silent(s.lf4.zn)
    &&& silent(s.lf5.z1) && silent(s.lf5.zn)
    &&& silent(s.lf6.z1) && silent(s.lf6.zn)
    &&& silent(s.lf7.z1) && silent(s.lf7.zn)
    &&& silent(s.af0.z)
    &&& silent(s.af1.z)
    &&& silent(s.af2.z)
    &&& silent(s.af3.z)
    &&& silent(s.ff0.z)
    &&& silent(s.ff1.z)
    &&& silent(s.ff2.z)
    &&& silent(s.ff3.z)
}

/// The state of a freshly built ear: the given feedback and damping in
/// every comb of the bank, the fixed pair gains, and every window
/// silent, each delay length carrying the ear's stereo spread and
/// scaled from the design rate.
pub open spec fn mono_freeverb_init(sample_rate: int, feedback: int, damp: int, spread: int)
    -> MonoFreeverbState {
    let dr = FV_DESIGN_RATE as int;
    MonoFreeverbState {
        lf0: lfbcomb_init(feedback, damp, window_len(scaled_len(sample_rate, dr, 1557 + spread))),
        lf1: lfbcomb_init(feedback, damp, window_len(scaled_len(sample_rate, dr, 1617 + spread))),
        lf2: lfbcomb_init(feedback, damp, window_len(scaled_len(sample_rate, dr, 1491 + spread))),
        lf3: lfbcomb_init(feedback, damp, window_len(scaled_len(sample_rate, dr, 1422 + spread))),
        lf4: lfbcomb_init(feedback, damp, window_len(scaled_len(sample_rate, dr, 1277 + spread))),
        lf5: lfbcomb_init(feedback, damp, window_len(scaled_len(sample_rate, dr, 1356 + spread))),
        lf6: lfbcomb_init(feedback, damp, window_len(scaled_len(sample_rate, dr, 1188 + spread))),
        lf7: lfbcomb_init(feedback, damp, window_len(scaled_len(sample_rate, dr, 1116 + spread))),
        af0: fbcomb_init(FV_AP_FEEDBACK as int, window_len(scaled_len(sample_rate, dr, 225 + spread))),
        af1: fbcomb_init(FV_AP_FEEDBACK as int, window_len(scaled_len(sample_rate, dr, 556 + spread))),
        af2: fbcomb_init(FV_AP_FEEDBACK as int, window_len(scaled_len(sample_rate, dr, 441 + spread))),
        af3: fbcomb_init(FV_AP_FEEDBACK as int, window_len(scaled_len(sample_rate, dr, 341 + spread))),
        ff0: ffcomb_init(FV_AP_DIRECT as int, FV_AP_TAP as int, window_len(scaled_len(sample_rate, dr, 225 + spread))),
        ff1: ffcomb_init(FV_AP_DIRECT as int, FV_AP_TAP as int, window_len(scaled_len(sample_rate, dr, 556 + spread))),
        ff2: ffcomb_init(FV_AP_DIRECT as int, FV_AP_TAP as int, window_len(scaled_len(sample_rate, dr, 441 + spread))),
        ff3: ffcomb_init(FV_AP_DIRECT as int, FV_AP_TAP as int, window_len(scaled_len(sample_rate, dr, 341 + spread))),
    }
}

/// One step of an ear's network: the comb bank in parallel, summed,
/// then the four series pairs, each a feedback comb feeding a
/// feedforward comb.
pub open spec fn mono_freeverb_step(s: MonoFreeverbState, x: int) -> (MonoFreeverbState, int) {
    let lsum = fx_add(
        fx_add(
            fx_add(
                fx_add(
                    fx_add(
                        fx_add(fx_add(lfbcomb_out(s.lf0, x), lfbcomb_out(s.lf1, x)), lfbcomb_out(s.lf2, x)),
                        lfbcomb_out(s.lf3, x),
                    ),
                    lfbcomb_out(s.lf4, x),
                ),
                lfbcomb_out(s.lf5, x),
            ),
            lfbcomb_out(s.lf6, x),
        ),
        lfbcomb_out(s.lf7, x),
    );
    let v0 = fbcomb_out(s.af0, lsum);
    let a0 = ffcomb_out(s.ff0, v0);
    let v1 = fbcomb_out(s.af1, a0);
    let a1 = ffcomb_out(s.ff1, v1);
    let v2 = fbcomb_out(s.af2, a1);
    let a2 = ffcomb_out(s.ff2, v2);
    let v3 = fbcomb_out(s.af3, a2);
    let a3 = ffcomb_out(s.ff3, v3);
    (
        MonoFreeverbState {
            lf0: lfbcomb_next(s.lf0, x),
            lf1: lfbcomb_next(s.lf1, x),
            lf2: lfbcomb_next(s.lf2, x),
            lf3: lfbcomb_next(s.lf3, x),
            lf4: lfbcomb_next(s.lf4, x),
            lf5: lfbcomb_next(s.lf5, x),
            lf6: lfbcomb_next(s.lf6, x),
            lf7: lfbcomb_next(s.lf7, x),
            af0: fbcomb_next(s.af0, lsum),
            af1: fbcomb_next(s.af1, a0),
            af2: fbcomb_next(s.af2, a1),
            af3: fbcomb_next(s.af3, a2),
            ff0: ffcomb_next(s.ff0, v0),
            ff1: ffcomb_next(s.ff1, v1),
            ff2: ffcomb_next(s.ff2, v2),
            ff3: ffcomb_next(s.ff3, v3),
        },
        a3,
    )
}

/// An ear's network at rest stays at rest.
pub proof fn lemma_mono_freeverb_silent(s: MonoFreeverbState)
    requires
        mono_freeverb_wf(s),
        mono_freeverb_at_rest(s),
    ensures
        mono_freeverb_step(s, 0).1 == 0,
        mono_freeverb_at_rest(mono_freeverb_step(s, 0).0),
        mono_freeverb_wf(mono_freeverb_step(s, 0).0),
{
    lemma_lfbcomb_silent(s.lf0);
    lemma_lfbcomb_silent(s.lf1);
    lemma_lfbcomb_silent(s.lf2);
    lemma_lfbcomb_silent(s.lf3);
    lemma_lfbcomb_silent(s.lf4);
    lemma_lfbcomb_silent(s.lf5);
    lemma_lfbcomb_silent(s.lf6);
    lemma_lfbcomb_silent(s.lf7);
    lemma_fbcomb_silent(s.af0);
    lemma_ffcomb_silent(s.ff0);
    lemma_fbcomb_silent(s.af1);
    lemma_ffcomb_silent(s.ff1);
    lemma_fbcomb_silent(s.af2);
    lemma_ffcomb_silent(s.ff2);
    lemma_fbcomb_silent(s.af3);
    lemma_ffcomb_silent(s.ff3);
}

/// One ear's mono network.
struct MonoFreeverb {
    lf0: LowpassFeedbackComb,
    lf1: LowpassFeedbackComb,
    lf2: LowpassFeedbackComb,
    lf3: LowpassFeedbackComb,
    lf4: LowpassFeedbackComb,
    lf5: LowpassFeedbackComb,
    lf6: LowpassFeedbackComb,
    lf7: LowpassFeedbackComb,
    af0: FeedbackComb,
    af1: FeedbackComb,
    af2: FeedbackComb,
    af3: FeedbackComb,
    ff0: FeedforwardComb,
    ff1: FeedforwardComb,
    ff2: FeedforwardComb,
    ff3: FeedforwardComb,
}

impl View for MonoFreeverb {
    type V = MonoFreeverbState;

    closed spec fn view(&self) -> MonoFreeverbState {
        MonoFreeverbState {
            lf0: self.lf0@,
            lf1: self.lf1@,
            lf2: self.lf2@,
            lf3: self.lf3@,
            lf4: self.lf4@,
            lf5: self.lf5@,
            lf6: self.lf6@,
            lf7: self.lf7@,
            af0: self.af0@,
            af1: self.af1@,
            af2: self.af2@,
            af3: self.af3@,
            ff0: self.ff0@,
            ff1: self.ff1@,
            ff2: self.ff2@,
            ff3: self.ff3@,
        }
    }
}

impl MonoFreeverb {
    /// Builds one ear's network: comb delays 1557, 1617, 1491, 1422,
    /// 1277, 1356, 1188, 1116 and pair delays 225, 556, 441, 341
    /// samples at the 44100 Hz design rate, each lengthened by the
    /// ear's stereo spread and scaled identically. `feedback` and
    /// `damp` go to every comb of the bank.
    fn new(sample_rate: u32, feedback: i64, damp: i64, stereo_spread: u32) -> (m: MonoFreeverb)
        requires
            sample_ok(feedback as int),
            sample_ok(damp as int),
            stereo_spread <= FV_STEREO_SPREAD,
        ensures
            m.wf(),
            m@ == mono_freeverb_init(
                sample_rate as int,
                feedback as int,
                damp as int,
                stereo_spread as int,
            ),
            mono_freeverb_wf(m@),
            mono_freeverb_at_rest(m@),
    {
        let m = MonoFreeverb {
            lf0: LowpassFeedbackComb::new(
                feedback,
                damp,
                scale_delay(sample_rate, FV_DESIGN_RATE, 1557 + stereo_spread),
            ),
            lf1: LowpassFeedbackComb::new(
                feedback,
                damp,
                scale_delay(sample_rate, FV_DESIGN_RATE, 1617 + stereo_spread),
            ),
            lf2: LowpassFeedbackComb::new(
                feedback,
                damp,
                scale_delay(sample_rate, FV_DESIGN_RATE, 1491 + stereo_spread),
            ),
            lf3: LowpassFeedbackComb::new(
                feedback,
                damp,
                scale_delay(sample_rate, FV_DESIGN_RATE, 1422 + stereo_spread),
            ),
            lf4: LowpassFeedbackComb::new(
                feedback,
                damp,
                scale_delay(sample_rate, FV_DESIGN_RATE, 1277 + stereo_spread),
            ),
            lf5: LowpassFeedbackComb::new(
                feedback,
                damp,
                scale_delay(sample_rate, FV_DESIGN_RATE, 1356 + stereo_spread),
            ),
            lf6: LowpassFeedbackComb::new(
                feedback,
                damp,
                scale_delay(sample_rate, FV_DESIGN_RATE, 1188 + stereo_spread),
            ),
            lf7: LowpassFeedbackComb::new(
                feedback,
                damp,
                scale_delay(sample_rate, FV_DESIGN_RATE, 1116 + stereo_spread),
            ),
            af0: FeedbackComb::new(
                FV_AP_FEEDBACK,
                scale_delay(sample_rate, FV_DESIGN_RATE, 225 + stereo_spread),
            ),
            af1: FeedbackComb::new(
                FV_AP_FEEDBACK,
                scale_delay(sample_rate, FV_DESIGN_RATE, 556 + stereo_spread),
            ),
            af2: FeedbackComb::new(
                FV_AP_FEEDBACK,
                scale_delay(sample_rate, FV_DESIGN_RATE, 441 + stereo_spread),
            ),
            af3: FeedbackComb::new(
                FV_AP_FEEDBACK,
                scale_delay(sample_rate, FV_DESIGN_RATE, 341 + stereo_spread),
            ),
            ff0: FeedforwardComb::new(
                FV_AP_DIRECT,
                FV_AP_TAP,
                scale_delay(sample_rate, FV_DESIGN_RATE, 225 + stereo_spread),
            ),
            ff1: FeedforwardComb::new(
                FV_AP_DIRECT,
                FV_AP_TAP,
                scale_delay(sample_rate, FV_DESIGN_RATE, 556 + stereo_spread),
            ),
            ff2: FeedforwardComb::new(
                FV_AP_DIRECT,
                FV_AP_TAP,
                scale_delay(sample_rate, FV_DESIGN_RATE, 441 + stereo_spread),
            ),
            ff3: FeedforwardComb::new(
                FV_AP_DIRECT,
                FV_AP_TAP,
                scale_delay(sample_rate, FV_DESIGN_RATE, 341 + stereo_spread),
            ),
        };
        proof {
            m.lf0.lemma_wf_state();
            m.lf1.lemma_wf_state();
            m.lf2.lemma_wf_state();
            m.lf3.lemma_wf_state();
            m.lf4.lemma_wf_state();
            m.lf5.lemma_wf_state();
            m.lf6.lemma_wf_state();
            m.lf7.lemma_wf_state();
            m.af0.lemma_wf_state();
            m.af1.lemma_wf_state();
            m.af2.lemma_wf_state();
            m.af3.lemma_wf_state();
            m.ff0.lemma_wf_state();
            m.ff1.lemma_wf_state();
            m.ff2.lemma_wf_state();
            m.ff3.lemma_wf_state();
        }
        m
    }
}

impl Filter for MonoFreeverb {
    closed spec fn wf(&self) -> bool {
        &&& self.lf0.wf()
        &&& self.lf1.wf()
        &&& self.lf2.wf()
        &&& self.lf3.wf()
        &&& self.lf4.wf()
        &&& self.lf5.wf()
        &&& self.lf6.wf()
        &&& self.lf7.wf()
        &&& self.af0.wf()
        &&& self.af1.wf()
        &&& self.af2.wf()
        &&& self.af3.wf()
        &&& self.ff0.wf()
        &&& self.ff1.wf()
        &&& self.ff2.wf()
        &&& self.ff3.wf()
    }

    fn process_sample(&mut self, x: i64) -> (y: i64)
        ensures
            y as int == mono_freeverb_step(old(self)@, x as int).1,
            final(self)@ == mono_freeverb_step(old(self)@, x as int).0,
    {
        let lsum = sample_add(
            sample_add(
                sample_add(
                    sample_add(
                        sample_add(
                            sample_add(
                                sample_add(
                                    self.lf0.process_sample(x),
                                    self.lf1.process_sample(x),
                                ),
                                self.lf2.process_sample(x),
                            ),
                            self.lf3.process_sample(x),
                        ),
                        self.lf4.process_sample(x),
                    ),
                    self.lf5.process_sample(x),
                ),
                self.lf6.process_sample(x),
            ),
            self.lf7.process_sample(x),
        );
        let v0 = self.af0.process_sample(lsum);
        let a0 = self.ff0.process_sample(v0);
        let v1 = self.af1.process_sample(a0);
        let a1 = self.ff1.process_sample(v1);
        let v2 = self.af2.process_sample(a1);
        let a2 = self.ff2.process_sample(v2);
        let v3 = self.af3.process_sample(a2);
        let a3 = self.ff3.process_sample(v3);
        a3
    }
}

/// Mathematical state of a Freeverb instance: the two ears' networks
/// and the three mix coefficients.
pub struct FreeverbState {
    pub m0: MonoFreeverbState,
    pub m1: MonoFreeverbState,
    pub wet1: int,
    pub wet2: int,
    pub dry: int,
}

pub open spec fn freeverb_wf(s: FreeverbState) -> bool {
    &&& mono_freeverb_wf(s.m0)
    &&& mono_freeverb_wf(s.m1)
    &&& sample_ok(s.wet1)
    &&& sample_ok(s.wet2)
    &&& sample_ok(s.dry)
}

pub open spec fn freeverb_at_rest(s: FreeverbState) -> bool {
    &&& mono_freeverb_at_rest(s.m0)
    &&& mono_freeverb_at_rest(s.m1)
}

/// The state of a freshly built Freeverb: both ears' networks at rest
/// with the comb feedback `0.28 * roomsize + 0.7`, the second ear's
/// delays carrying the fixed stereo spread, and the mix coefficients
/// `wet1 = 1.5 * wet * (1 + width)`, `wet2 = 1.5 * wet * (1 - width)`,
/// `dry' = 2 * dry`.
pub open spec fn freeverb_init(
    sample_rate: int,
    roomsize: int,
    damp: int,
    width: int,
    wet: int,
    dry: int,
) -> FreeverbState {
    let feedback = fx_add(fx_mul(FV_ROOM_SCALE as int, roomsize), FV_ROOM_OFFSET as int);
    FreeverbState {
        m0: mono_freeverb_init(sample_rate, feedback, damp, 0),
        m1: mono_freeverb_init(sample_rate, feedback, damp, FV_STEREO_SPREAD as int),
        wet1: fx_mul(fx_mul(FV_WET_SCALE as int, wet), fx_add(SCALE as int, width)),
        wet2: fx_mul(fx_mul(FV_WET_SCALE as int, wet), fx_sub(SCALE as int, width)),
        dry: fx_mul(FV_DRY_SCALE as int, dry),
    }
}

/// One step of Freeverb: the scaled input sum drives both ears'
/// networks, and each output channel is the wet cross-mix of the two
/// mono outputs plus the scaled dry input of its own side.
pub open spec fn freeverb_step(s: FreeverbState, x: (int, int)) -> (FreeverbState, (int, int)) {
    let input = fx_mul(FV_INPUT_GAIN as int, fx_add(x.0, x.1));
    let o0 = mono_freeverb_step(s.m0, input).1;
    let o1 = mono_freeverb_step(s.m1, input).1;
    (
        FreeverbState {
            m0: mono_freeverb_step(s.m0, input).0,
            m1: mono_freeverb_step(s.m1, input).0,
            wet1: s.wet1,
            wet2: s.wet2,
            dry: s.dry,
        },
        (
            fx_add(fx_add(fx_mul(s.wet1, o0), fx_mul(s.wet2, o1)), fx_mul(s.dry, x.0)),
            fx_add(fx_add(fx_mul(s.wet1, o1), fx_mul(s.wet2, o0)), fx_mul(s.dry, x.1)),
        ),
    )
}

/// No self-excitation from rest: a zero frame into a resting Freeverb
/// yields a zero frame and leaves it at rest.
pub proof fn lemma_freeverb_silent(s: FreeverbState)
    requires
        freeverb_wf(s),
        freeverb_at_rest(s),
    ensures
        freeverb_step(s, (0int, 0int)).1 == (0int, 0int),
        freeverb_at_rest(freeverb_step(s, (0int, 0int)).0),
        freeverb_wf(freeverb_step(s, (0int, 0int)).0),
{
    lemma_fx_mul_zero(FV_INPUT_GAIN as int);
    lemma_mono_freeverb_silent(s.m0);
    lemma_mono_freeverb_silent(s.m1);
    lemma_fx_mul_zero(s.wet1);
    lemma_fx_mul_zero(s.wet2);
    lemma_fx_mul_zero(s.dry);
}

/// The dry-identity law: with both wet taps zero and the dry
/// coefficient at exactly one unit, every frame passes through
/// unchanged, whatever the internal state.
pub proof fn lemma_freeverb_dry_identity(s: FreeverbState, x: (int, int))
    requires
        s.wet1 == 0,
        s.wet2 == 0,
        s.dry == SCALE,
        sample_ok(x.0),
        sample_ok(x.1),
    ensures
        freeverb_step(s, x).1 == x,
{
    let input = fx_mul(FV_INPUT_GAIN as int, fx_add(x.0, x.1));
    let o0 = mono_freeverb_step(s.m0, input).1;
    let o1 = mono_freeverb_step(s.m1, input).1;
    lemma_fx_mul_zero(o0);
    lemma_fx_mul_zero(o1);
    lemma_fx_mul_one(x.0);
    lemma_fx_mul_one(x.1);
}

/// The wet coefficients vanish whenever the `wet` parameter is zero,
/// whatever the width, and the dry coefficient is exactly one unit
/// when the `dry` parameter is one half: the parameters under which
/// the dry-identity law applies to a freshly built Freeverb.
pub proof fn lemma_freeverb_identity_params(width: int)
    ensures
        fx_mul(fx_mul(FV_WET_SCALE as int, 0), fx_add(SCALE as int, width)) == 0,
        fx_mul(fx_mul(FV_WET_SCALE as int, 0), fx_sub(SCALE as int, width)) == 0,
        fx_mul(FV_DRY_SCALE as int, HALF as int) == SCALE as int,
{
    lemma_fx_mul_zero(FV_WET_SCALE as int);
    lemma_fx_mul_zero(fx_add(SCALE as int, width));
    lemma_fx_mul_zero(fx_sub(SCALE as int, width));
    assert(fx_mul(FV_DRY_SCALE as int, HALF as int) == SCALE as int) by {
        assert((FV_DRY_SCALE as int) * (HALF as int) == 0x1000000000000000);
    }
}

/// The dry-identity law, end to end: a Freeverb built with `wet == 0`
/// and `dry` at one half (so that the doubled dry coefficient is
/// exactly one unit) reproduces every frame unchanged, whatever the
/// room size, damping, width and sample rate. The step function keeps
/// the mix coefficients, so the identity persists across the stream.
pub proof fn lemma_freeverb_identity_config(
    sample_rate: int,
    roomsize: int,
    damp: int,
    width: int,
    x: (int, int),
)
    requires
        sample_ok(x.0),
        sample_ok(x.1),
    ensures
        freeverb_step(freeverb_init(sample_rate, roomsize, damp, width, 0, HALF as int), x).1
            == x,
{
    lemma_freeverb_identity_params(width);
    lemma_freeverb_dry_identity(
        freeverb_init(sample_rate, roomsize, damp, width, 0, HALF as int),
        x,
    );
}

/// The output stream of a Freeverb run over an input stream.
pub open spec fn freeverb_run(s: FreeverbState, xs: Seq<(int, int)>) -> Seq<(int, int)>
    decreases xs.len(),
{
    if xs.len() == 0 {
        Seq::empty()
    } else {
        seq![freeverb_step(s, xs[0]).1] + freeverb_run(freeverb_step(s, xs[0]).0, xs.skip(1))
    }
}

/// A run produces exactly one output frame per input frame.
pub proof fn lemma_freeverb_run_len(s: FreeverbState, xs: Seq<(int, int)>)
    ensures
        freeverb_run(s, xs).len() == xs.len(),
    decreases xs.len(),
{
    if xs.len() > 0 {
        lemma_freeverb_run_len(freeverb_step(s, xs[0]).0, xs.skip(1));
    }
}

/// An all-zero input stream into a resting Freeverb produces an
/// all-zero output stream, however long the stream runs.
pub proof fn lemma_freeverb_silent_stream(s: FreeverbState, xs: Seq<(int, int)>)
    requires
        freeverb_wf(s),
        freeverb_at_rest(s),
        forall|i: int| 0 <= i < xs.len() ==> xs[i] == (0int, 0int),
    ensures
        forall|i: int| 0 <= i < xs.len() ==> freeverb_run(s, xs)[i] == (0int, 0int),
    decreases xs.len(),
{
    lemma_freeverb_run_len(s, xs);
    if xs.len() > 0 {
        lemma_freeverb_silent(s);
        let s1 = freeverb_step(s, xs[0]).0;
        lemma_freeverb_run_len(s1, xs.skip(1));
        lemma_freeverb_silent_stream(s1, xs.skip(1));
        let out = freeverb_run(s, xs);
        assert forall|i: int| 0 <= i < xs.len() implies out[i] == (0int, 0int) by {
            if i > 0 {
                assert(out[i] == freeverb_run(s1, xs.skip(1))[i - 1]);
            }
        }
    }
}

/// The Freeverb reverberator.
pub struct Freeverb {
    m0: MonoFreeverb,
    m1: MonoFreeverb,
    wet1: i64,
    wet2: i64,
    dry: i64,
}

impl View for Freeverb {
    type V = FreeverbState;

    closed spec fn view(&self) -> FreeverbState {
        FreeverbState {
            m0: self.m0@,
            m1: self.m1@,
            wet1: self.wet1 as int,
            wet2: self.wet2 as int,
            dry: self.dry as int,
        }
    }
}

impl Freeverb {
    /// Builds Freeverb for the given sample rate and fixed-point
    /// parameters. The comb feedback is `0.28 * roomsize + 0.7`, the
    /// wet taps are `1.5 * wet * (1 +/- width)`, and the dry
    /// coefficient is `2 * dry`; the second ear's delays carry the
    /// fixed stereo spread. No parameter range is enforced beyond the
    /// sample range itself: out-of-range gains build an unstable
    /// network rather than fail, exactly as documented.
    pub fn new(sample_rate: u32, roomsize: i64, damp: i64, width: i64, wet: i64, dry: i64) -> (r:
        Freeverb)
        requires
            sample_ok(roomsize as int),
            sample_ok(damp as int),
            sample_ok(width as int),
            sample_ok(wet as int),
            sample_ok(dry as int),
        ensures
            r.wf(),
            r@ == freeverb_init(
                sample_rate as int,
                roomsize as int,
                damp as int,
                width as int,
                wet as int,
                dry as int,
            ),
            freeverb_wf(r@),
            freeverb_at_rest(r@),
    {
        let feedback = sample_add(sample_mul(FV_ROOM_SCALE, roomsize), FV_ROOM_OFFSET);
        let r = Freeverb {
            m0: MonoFreeverb::new(sample_rate, feedback, damp, 0),
            m1: MonoFreeverb::new(sample_rate, feedback, damp, FV_STEREO_SPREAD),
            wet1: sample_mul(sample_mul(FV_WET_SCALE, wet), sample_add(SCALE, width)),
            wet2: sample_mul(sample_mul(FV_WET_SCALE, wet), sample_sub(SCALE, width)),
            dry: sample_mul(FV_DRY_SCALE, dry),
        };
        r
    }
}

impl Reverb for Freeverb {
    closed spec fn wf(&self) -> bool {
        &&& self.m0.wf()
        &&& self.m1.wf()
        &&& sample_ok(self.wet1 as int)
        &&& sample_ok(self.wet2 as int)
        &&& sample_ok(self.dry as int)
    }

    fn process_sample(&mut self, x: (i64, i64)) -> (y: (i64, i64))
        ensures
            final(self)@ == freeverb_step(old(self)@, (x.0 as int, x.1 as int)).0,
            (y.0 as int, y.1 as int) == freeverb_step(old(self)@, (x.0 as int, x.1 as int)).1,
    {
        let input = sample_mul(FV_INPUT_GAIN, sample_add(x.0, x.1));
        let o0 = self.m0.process_sample(input);
        let o1 = self.m1.process_sample(input);
        (
            sample_add(
                sample_add(sample_mul(self.wet1, o0), sample_mul(self.wet2, o1)),
                sample_mul(self.dry, x.0),
            ),
            sample_add(
                sample_add(sample_mul(self.wet1, o1), sample_mul(self.wet2, o0)),
                sample_mul(self.dry, x.1),
            ),
        )
    }
}

} // verus!
