//! The four elementary one-sample-in/one-sample-out filter primitives:
//! allpass, feedforward comb, feedback comb, and lowpass feedback comb.
//!
//! Each filter owns one or two delay lines and a few gain coefficients
//! fixed at construction. Its mathematical state (coefficients plus
//! delay windows) is a plain spec datatype, and `process_sample` is
//! proved to advance that state by the filter's closed-form step
//! function while returning exactly the step's output.

use crate::delay::{window_len, zero_window, Delay};
use crate::sample::{
    fx_add, fx_mul, fx_sub, lemma_fx_mul_bound, lemma_fx_mul_zero, sample_add, sample_mul,
    sample_ok, sample_sub, SCALE,
};
use vstd::arithmetic::div_mod::lemma_div_multiples_vanish;
use vstd::arithmetic::mul::lemma_mul_is_distributive_sub_other_way;
use vstd::math::abs;
use vstd::prelude::*;

verus! {

/// Every sample of the window is silence.
pub open spec fn silent(z: Seq<int>) -> bool {
    forall|i: int| 0 <= i < z.len() ==> z[i] == 0
}

/// Every sample of the window has magnitude at most `bound`.
pub open spec fn bounded(z: Seq<int>, bound: int) -> bool {
    forall|i: int| 0 <= i < z.len() ==> abs(#[trigger] z[i]) <= bound
}

/// A well-formed window: at least one slot, every sample in range.
pub open spec fn window_wf(z: Seq<int>) -> bool {
    &&& z.len() >= 1
    &&& forall|i: int| 0 <= i < z.len() ==> sample_ok(#[trigger] z[i])
}

/// The state of a freshly built allpass: the given gains and a silent
/// window of `len` samples.
pub open spec fn allpass_init(am: int, b0: int, len: int) -> AllpassState {
    AllpassState { am, b0, z: zero_window(len as nat) }
}

/// The state of a freshly built feedforward comb.
pub open spec fn ffcomb_init(b0: int, bm: int, len: int) -> FfCombState {
    FfCombState { b0, bm, z: zero_window(len as nat) }
}

/// The state of a freshly built feedback comb.
pub open spec fn fbcomb_init(am: int, len: int) -> FbCombState {
    FbCombState { am, z: zero_window(len as nat) }
}

/// The state of a freshly built lowpass feedback comb: a one-sample
/// lowpass memory and a silent main window of `len` samples.
pub open spec fn lfbcomb_init(f: int, d: int, len: int) -> LfbCombState {
    LfbCombState { f, d, z1: zero_window(1), zn: zero_window(len as nat) }
}

/// A stateful one-sample transform.
pub trait Filter {
    /// The filter's invariant: coefficients and stored samples valid.
    spec fn wf(&self) -> bool;

    /// Consume one input sample and produce one output sample,
    /// advancing the internal delay state by exactly one position.
    fn process_sample(&mut self, x: i64) -> (y: i64)
        requires
            old(self).wf(),
            sample_ok(x as int),
        ensures
            final(self).wf(),
            sample_ok(y as int),
    ;
}

// ---------------------------------------------------------------------
// Allpass
// ---------------------------------------------------------------------

/// Mathematical state of an allpass filter: feedback gain `am`,
/// feedforward gain `b0`, and the delay window `z` (oldest first).
pub struct AllpassState {
    pub am: int,
    pub b0: int,
    pub z: Seq<int>,
}

pub open spec fn allpass_wf(s: AllpassState) -> bool {
    &&& sample_ok(s.am)
    &&& sample_ok(s.b0)
    &&& window_wf(s.z)
}

/// The value fed back into the delay line: `v = x - am * z[0]`.
pub open spec fn allpass_v(s: AllpassState, x: int) -> int {
    fx_sub(x, fx_mul(s.am, s.z[0]))
}

/// The allpass output: `y = b0 * v + z[0]`.
pub open spec fn allpass_out(s: AllpassState, x: int) -> int {
    fx_add(fx_mul(s.b0, allpass_v(s, x)), s.z[0])
}

/// The state after one step: the window advances by `v`.
pub open spec fn allpass_next(s: AllpassState, x: int) -> AllpassState {
    AllpassState { am: s.am, b0: s.b0, z: s.z.skip(1).push(allpass_v(s, x)) }
}

/// An allpass at rest stays at rest: silence in, silence out.
pub proof fn lemma_allpass_silent(s: AllpassState)
    requires
        allpass_wf(s),
        silent(s.z),
    ensures
        allpass_out(s, 0) == 0,
        silent(allpass_next(s, 0).z),
        allpass_wf(allpass_next(s, 0)),
{
    lemma_fx_mul_zero(s.am);
    lemma_fx_mul_zero(s.b0);
    lemma_step_silent(s.z, allpass_v(s, 0));
}

/// Advancing a silent window by a silent sample keeps it silent,
/// and advancing a valid window by a valid sample keeps it valid.
pub proof fn lemma_step_silent(z: Seq<int>, v: int)
    requires
        z.len() >= 1,
    ensures
        silent(z) && v == 0 ==> silent(z.skip(1).push(v)),
        window_wf(z) && sample_ok(v) ==> window_wf(z.skip(1).push(v)),
{
    let z1 = z.skip(1).push(v);
    assert forall|i: int| 0 <= i < z1.len() implies (silent(z) && v == 0 ==> z1[i] == 0) && (
    window_wf(z) && sample_ok(v) ==> sample_ok(z1[i])) by {
        if i < z.len() - 1 {
            assert(z1[i] == z[i + 1]);
        }
    }
}

/// Unconditional stability of the allpass (one step): with a feedback
/// gain strictly below one unit and a feedforward gain of at most one
/// unit, a window bounded by `b` and an input bounded by `m` satisfying
/// `m * SCALE <= b * (SCALE - g)` keep the fed-back value within `b`
/// and the output within `2 * b`.
pub proof fn lemma_allpass_bibo_step(s: AllpassState, x: int, g: int, m: int, b: int)
    requires
        s.z.len() >= 1,
        abs(s.am) <= g,
        0 <= g < SCALE,
        abs(s.b0) <= SCALE,
        0 <= m,
        bounded(s.z, b),
        abs(x) <= m,
        m * (SCALE as int) <= b * (SCALE - g),
    ensures
        abs(allpass_out(s, x)) <= 2 * b,
        bounded(allpass_next(s, x).z, b),
{
    assert(abs(s.z[0]) <= b);
    lemma_feedback_tap_bound(s.am, s.z[0], g, m, b);
    let v = allpass_v(s, x);
    assert(abs(v) <= b) by {
        assert(abs(fx_sub(x, fx_mul(s.am, s.z[0]))) <= abs(x - fx_mul(s.am, s.z[0])));
    }
    assert(abs(fx_mul(s.b0, v)) <= b) by {
        lemma_fx_mul_bound(s.b0, v, SCALE as int, b);
        lemma_div_multiples_vanish(b, SCALE as int);
    }
    let z1 = allpass_next(s, x).z;
    assert forall|i: int| 0 <= i < z1.len() implies abs(#[trigger] z1[i]) <= b by {
        if i < s.z.len() - 1 {
            assert(z1[i] == s.z[i + 1]);
        }
    }
}

/// The state of an allpass after it has consumed every sample of `xs`,
/// in order.
pub open spec fn allpass_run_state(s: AllpassState, xs: Seq<int>) -> AllpassState
    decreases xs.len(),
{
    if xs.len() == 0 {
        s
    } else {
        allpass_run_state(allpass_next(s, xs[0]), xs.skip(1))
    }
}

/// The samples an allpass emits while consuming every sample of `xs`,
/// in order.
pub open spec fn allpass_run_out(s: AllpassState, xs: Seq<int>) -> Seq<int>
    decreases xs.len(),
{
    if xs.len() == 0 {
        Seq::empty()
    } else {
        seq![allpass_out(s, xs[0])] + allpass_run_out(allpass_next(s, xs[0]), xs.skip(1))
    }
}

/// Unconditional stability of the allpass: with a feedback gain
/// strictly below one unit, an input stream bounded by `m` never
/// drives the output beyond `2 * b`, however long the stream runs,
/// provided `m * SCALE <= b * (SCALE - g)` (the discrete form of
/// `m / (1 - g/SCALE) <= b`).
pub proof fn lemma_allpass_bibo(s: AllpassState, xs: Seq<int>, g: int, m: int, b: int)
    requires
        s.z.len() >= 1,
        abs(s.am) <= g,
        0 <= g < SCALE,
        abs(s.b0) <= SCALE,
        0 <= m,
        bounded(s.z, b),
        forall|i: int| 0 <= i < xs.len() ==> abs(#[trigger] xs[i]) <= m,
        m * (SCALE as int) <= b * (SCALE - g),
    ensures
        bounded(allpass_run_out(s, xs), 2 * b),
        bounded(allpass_run_state(s, xs).z, b),
    decreases xs.len(),
{
    if xs.len() > 0 {
        lemma_allpass_bibo_step(s, xs[0], g, m, b);
        let s1 = allpass_next(s, xs[0]);
        assert(forall|i: int|
            0 <= i < xs.skip(1).len() ==> abs(#[trigger] xs.skip(1)[i]) <= m);
        lemma_allpass_bibo(s1, xs.skip(1), g, m, b);
        let out = allpass_run_out(s, xs);
        assert forall|i: int| 0 <= i < out.len() implies abs(#[trigger] out[i]) <= 2 * b by {
            if i > 0 {
                assert(out[i] == allpass_run_out(s1, xs.skip(1))[i - 1]);
            }
        }
    }
}

/// The allpass filter: one delay line of length `m`, gains `am` and `b0`.
pub struct Allpass {
    am: i64,
    b0: i64,
    zm: Delay,
}

impl View for Allpass {
    type V = AllpassState;

    closed spec fn view(&self) -> AllpassState {
        AllpassState { am: self.am as int, b0: self.b0 as int, z: self.zm@ }
    }
}

impl Allpass {
    /// A fresh allpass with the given gains and a silent window of
    /// `m` samples (one sample when `m == 0`).
    pub fn new(am: i64, b0: i64, m: usize) -> (f: Allpass)
        requires
            sample_ok(am as int),
            sample_ok(b0 as int),
        ensures
            f.wf(),
            f@.am == am as int,
            f@.b0 == b0 as int,
            f@ == allpass_init(am as int, b0 as int, window_len(m as int)),
            silent(f@.z),
    {
        let f = Allpass { am, b0, zm: Delay::new(m) };
        proof {
            assert(f@.z =~= zero_window(window_len(m as int) as nat));
        }
        f
    }

    /// A well-formed allpass has a well-formed mathematical state.
    pub proof fn lemma_wf_state(&self)
        requires
            self.wf(),
        ensures
            allpass_wf(self@),
    {
        self.zm.lemma_wf_view();
    }
}

impl Filter for Allpass {
    closed spec fn wf(&self) -> bool {
        &&& sample_ok(self.am as int)
        &&& sample_ok(self.b0 as int)
        &&& self.zm.wf()
    }

    fn process_sample(&mut self, x: i64) -> (y: i64)
        ensures
            y as int == allpass_out(old(self)@, x as int),
            final(self)@ == allpass_next(old(self)@, x as int),
    {
        let z0 = self.zm.output();
        let v = sample_sub(x, sample_mul(self.am, z0));
        let y = sample_add(sample_mul(self.b0, v), z0);
        self.zm.input(v);
        y
    }
}

// ---------------------------------------------------------------------
// Feedforward comb
// ---------------------------------------------------------------------

/// Mathematical state of a feedforward comb: direct gain `b0`,
/// delayed-tap gain `bm`, and the delay window `z`.
pub struct FfCombState {
    pub b0: int,
    pub bm: int,
    pub z: Seq<int>,
}

pub open spec fn ffcomb_wf(s: FfCombState) -> bool {
    &&& sample_ok(s.b0)
    &&& sample_ok(s.bm)
    &&& window_wf(s.z)
}

/// The feedforward comb output: `y = b0 * x + bm * z[0]`.
pub open spec fn ffcomb_out(s: FfCombState, x: int) -> int {
    fx_add(fx_mul(s.b0, x), fx_mul(s.bm, s.z[0]))
}

/// The state after one step: the window advances by the input itself.
pub open spec fn ffcomb_next(s: FfCombState, x: int) -> FfCombState {
    FfCombState { b0: s.b0, bm: s.bm, z: s.z.skip(1).push(x) }
}

/// A feedforward comb at rest stays at rest.
pub proof fn lemma_ffcomb_silent(s: FfCombState)
    requires
        ffcomb_wf(s),
        silent(s.z),
    ensures
        ffcomb_out(s, 0) == 0,
        silent(ffcomb_next(s, 0).z),
        ffcomb_wf(ffcomb_next(s, 0)),
{
    lemma_fx_mul_zero(s.b0);
    lemma_fx_mul_zero(s.bm);
    lemma_step_silent(s.z, 0);
}

/// The feedforward comb filter (pure FIR; always stable).
pub struct FeedforwardComb {
    b0: i64,
    bm: i64,
    zm: Delay,
}

impl View for FeedforwardComb {
    type V = FfCombState;

    closed spec fn view(&self) -> FfCombState {
        FfCombState { b0: self.b0 as int, bm: self.bm as int, z: self.zm@ }
    }
}

impl FeedforwardComb {
    /// A fresh feedforward comb with the given gains and a silent
    /// window of `m` samples (one sample when `m == 0`).
    pub fn new(b0: i64, bm: i64, m: usize) -> (f: FeedforwardComb)
        requires
            sample_ok(b0 as int),
            sample_ok(bm as int),
        ensures
            f.wf(),
            f@.b0 == b0 as int,
            f@.bm == bm as int,
            f@ == ffcomb_init(b0 as int, bm as int, window_len(m as int)),
            silent(f@.z),
    {
        let f = FeedforwardComb { b0, bm, zm: Delay::new(m) };
        proof {
            assert(f@.z =~= zero_window(window_len(m as int) as nat));
        }
        f
    }

    /// A well-formed feedforward comb has a well-formed mathematical state.
    pub proof fn lemma_wf_state(&self)
        requires
            self.wf(),
        ensures
            ffcomb_wf(self@),
    {
        self.zm.lemma_wf_view();
    }
}

impl Filter for FeedforwardComb {
    closed spec fn wf(&self) -> bool {
        &&& sample_ok(self.b0 as int)
        &&& sample_ok(self.bm as int)
        &&& self.zm.wf()
    }

    fn process_sample(&mut self, x: i64) -> (y: i64)
        ensures
            y as int == ffcomb_out(old(self)@, x as int),
            final(self)@ == ffcomb_next(old(self)@, x as int),
    {
        let y = sample_add(sample_mul(self.b0, x), sample_mul(self.bm, self.zm.output()));
        self.zm.input(x);
        y
    }
}

// ---------------------------------------------------------------------
// Feedback comb
// ---------------------------------------------------------------------

/// Mathematical state of a feedback comb: feedback gain `am` and the
/// delay window `z`.
pub struct FbCombState {
    pub am: int,
    pub z: Seq<int>,
}

pub open spec fn fbcomb_wf(s: FbCombState) -> bool {
    &&& sample_ok(s.am)
    &&& window_wf(s.z)
}

/// The feedback comb output: `v = x - am * z[0]`.
pub open spec fn fbcomb_out(s: FbCombState, x: int) -> int {
    fx_sub(x, fx_mul(s.am, s.z[0]))
}

/// The state after one step: the window advances by the output itself.
pub open spec fn fbcomb_next(s: FbCombState, x: int) -> FbCombState {
    FbCombState { am: s.am, z: s.z.skip(1).push(fbcomb_out(s, x)) }
}

/// A feedback comb at rest stays at rest.
pub proof fn lemma_fbcomb_silent(s: FbCombState)
    requires
        fbcomb_wf(s),
        silent(s.z),
    ensures
        fbcomb_out(s, 0) == 0,
        silent(fbcomb_next(s, 0).z),
        fbcomb_wf(fbcomb_next(s, 0)),
{
    lemma_fx_mul_zero(s.am);
    lemma_step_silent(s.z, fbcomb_out(s, 0));
}

/// Bounded input gives bounded output (one step). When the feedback
/// gain stays strictly below one unit (`abs(am) <= g < SCALE`), a
/// window bounded by `b` and an input bounded by `m` satisfying
/// `m * SCALE <= b * (SCALE - g)` produce an output bounded by `b`,
/// and the window stays bounded by `b`.
pub proof fn lemma_fbcomb_bibo_step(s: FbCombState, x: int, g: int, m: int, b: int)
    requires
        s.z.len() >= 1,
        abs(s.am) <= g,
        0 <= g < SCALE,
        0 <= m,
        bounded(s.z, b),
        abs(x) <= m,
        m * (SCALE as int) <= b * (SCALE - g),
    ensures
        abs(fbcomb_out(s, x)) <= b,
        bounded(fbcomb_next(s, x).z, b),
{
    lemma_feedback_tap_bound(s.am, s.z[0], g, m, b);
    let t = fx_mul(s.am, s.z[0]);
    assert(abs(fx_sub(x, t)) <= abs(x - t));
    let z1 = fbcomb_next(s, x).z;
    assert forall|i: int| 0 <= i < z1.len() implies abs(#[trigger] z1[i]) <= b by {
        if i < s.z.len() - 1 {
            assert(z1[i] == s.z[i + 1]);
        }
    }
}

/// The feedback tap is bounded by `b - m` under the BIBO side
/// condition, which is what makes a feedback loop contractive.
proof fn lemma_feedback_tap_bound(am: int, z0: int, g: int, m: int, b: int)
    requires
        abs(am) <= g,
        0 <= g < SCALE,
        0 <= m,
        abs(z0) <= b,
        m * (SCALE as int) <= b * (SCALE - g),
    ensures
        abs(fx_mul(am, z0)) <= b - m,
        0 <= b - m,
{
    assert(0 <= b) by {
        assert(abs(z0) >= 0);
    }
    lemma_fx_mul_bound(am, z0, g, b);
    // g * b <= b * SCALE - m * SCALE == (b - m) * SCALE, so the scaled
    // product g * b / SCALE is at most b - m.
    lemma_mul_is_distributive_sub_other_way(SCALE as int, b, m);
    assert(b * (SCALE - g) == b * (SCALE as int) - b * g) by {
        vstd::arithmetic::mul::lemma_mul_is_distributive_sub(b, SCALE as int, g);
    }
    assert(g * b <= (b - m) * (SCALE as int)) by {
        vstd::arithmetic::mul::lemma_mul_is_commutative(g, b);
    }
    assert((g * b) / (SCALE as int) <= b - m) by {
        vstd::arithmetic::div_mod::lemma_div_is_ordered(g * b, (b - m) * (SCALE as int), SCALE as int);
        lemma_div_multiples_vanish(b - m, SCALE as int);
    }
}

/// The state of a feedback comb after it has consumed every sample
/// of `xs`, in order.
pub open spec fn fbcomb_run_state(s: FbCombState, xs: Seq<int>) -> FbCombState
    decreases xs.len(),
{
    if xs.len() == 0 {
        s
    } else {
        fbcomb_run_state(fbcomb_next(s, xs[0]), xs.skip(1))
    }
}

/// The samples a feedback comb emits while consuming every sample of
/// `xs`, in order.
pub open spec fn fbcomb_run_out(s: FbCombState, xs: Seq<int>) -> Seq<int>
    decreases xs.len(),
{
    if xs.len() == 0 {
        Seq::empty()
    } else {
        seq![fbcomb_out(s, xs[0])] + fbcomb_run_out(fbcomb_next(s, xs[0]), xs.skip(1))
    }
}

/// BIBO stability of the feedback comb: with a feedback gain strictly
/// below one unit, an input stream bounded by `m` never drives the
/// output beyond `b`, however long the stream runs, provided
/// `m * SCALE <= b * (SCALE - g)` (the discrete form of
/// `m / (1 - g/SCALE) <= b`).
pub proof fn lemma_fbcomb_bibo(s: FbCombState, xs: Seq<int>, g: int, m: int, b: int)
    requires
        s.z.len() >= 1,
        abs(s.am) <= g,
        0 <= g < SCALE,
        0 <= m,
        bounded(s.z, b),
        forall|i: int| 0 <= i < xs.len() ==> abs(#[trigger] xs[i]) <= m,
        m * (SCALE as int) <= b * (SCALE - g),
    ensures
        bounded(fbcomb_run_out(s, xs), b),
        bounded(fbcomb_run_state(s, xs).z, b),
    decreases xs.len(),
{
    if xs.len() > 0 {
        lemma_fbcomb_bibo_step(s, xs[0], g, m, b);
        let s1 = fbcomb_next(s, xs[0]);
        assert(forall|i: int|
            0 <= i < xs.skip(1).len() ==> abs(#[trigger] xs.skip(1)[i]) <= m);
        lemma_fbcomb_bibo(s1, xs.skip(1), g, m, b);
        let out = fbcomb_run_out(s, xs);
        assert forall|i: int| 0 <= i < out.len() implies abs(#[trigger] out[i]) <= b by {
            if i > 0 {
                assert(out[i] == fbcomb_run_out(s1, xs.skip(1))[i - 1]);
            }
        }
    }
}

/// The feedback comb filter.
pub struct FeedbackComb {
    am: i64,
    zm: Delay,
}

impl View for FeedbackComb {
    type V = FbCombState;

    closed spec fn view(&self) -> FbCombState {
        FbCombState { am: self.am as int, z: self.zm@ }
    }
}

impl FeedbackComb {
    /// A fresh feedback comb with the given gain and a silent window
    /// of `m` samples (one sample when `m == 0`).
    pub fn new(am: i64, m: usize) -> (f: FeedbackComb)
        requires
            sample_ok(am as int),
        ensures
            f.wf(),
            f@.am == am as int,
            f@ == fbcomb_init(am as int, window_len(m as int)),
            silent(f@.z),
    {
        let f = FeedbackComb { am, zm: Delay::new(m) };
        proof {
            assert(f@.z =~= zero_window(window_len(m as int) as nat));
        }
        f
    }

    /// A well-formed feedback comb has a well-formed mathematical state.
    pub proof fn lemma_wf_state(&self)
        requires
            self.wf(),
        ensures
            fbcomb_wf(self@),
    {
        self.zm.lemma_wf_view();
    }
}

impl Filter for FeedbackComb {
    closed spec fn wf(&self) -> bool {
        &&& sample_ok(self.am as int)
        &&& self.zm.wf()
    }

    fn process_sample(&mut self, x: i64) -> (y: i64)
        ensures
            y as int == fbcomb_out(old(self)@, x as int),
            final(self)@ == fbcomb_next(old(self)@, x as int),
    {
        let v = sample_sub(x, sample_mul(self.am, self.zm.output()));
        self.zm.input(v);
        v
    }
}

// ---------------------------------------------------------------------
// Lowpass feedback comb
// ---------------------------------------------------------------------

/// Mathematical state of a lowpass feedback comb: feedback gain `f`,
/// damping `d`, the one-sample lowpass memory `z1`, and the main delay
/// window `zn`.
pub struct LfbCombState {
    pub f: int,
    pub d: int,
    pub z1: Seq<int>,
    pub zn: Seq<int>,
}

pub open spec fn lfbcomb_wf(s: LfbCombState) -> bool {
    &&& sample_ok(s.f)
    &&& sample_ok(s.d)
    &&& window_wf(s.z1)
    &&& window_wf(s.zn)
}

/// The lowpass state inside the loop:
/// `filterstore = (1 - d) * zn[0] + d * z1[0]`.
pub open spec fn lfbcomb_store(s: LfbCombState) -> int {
    fx_add(fx_mul(fx_sub(SCALE as int, s.d), s.zn[0]), fx_mul(s.d, s.z1[0]))
}

/// The lowpass feedback comb output: `y = x + f * filterstore`.
pub open spec fn lfbcomb_out(s: LfbCombState, x: int) -> int {
    fx_add(x, fx_mul(s.f, lfbcomb_store(s)))
}

/// The state after one step: the lowpass memory advances by
/// `filterstore` and the main window advances by the output.
pub open spec fn lfbcomb_next(s: LfbCombState, x: int) -> LfbCombState {
    LfbCombState {
        f: s.f,
        d: s.d,
        z1: s.z1.skip(1).push(lfbcomb_store(s)),
        zn: s.zn.skip(1).push(lfbcomb_out(s, x)),
    }
}

/// A lowpass feedback comb at rest stays at rest.
pub proof fn lemma_lfbcomb_silent(s: LfbCombState)
    requires
        lfbcomb_wf(s),
        silent(s.z1),
        silent(s.zn),
    ensures
        lfbcomb_out(s, 0) == 0,
        silent(lfbcomb_next(s, 0).z1),
        silent(lfbcomb_next(s, 0).zn),
        lfbcomb_wf(lfbcomb_next(s, 0)),
{
    lemma_fx_mul_zero(fx_sub(SCALE as int, s.d));
    lemma_fx_mul_zero(s.d);
    lemma_fx_mul_zero(s.f);
    lemma_step_silent(s.z1, lfbcomb_store(s));
    lemma_step_silent(s.zn, lfbcomb_out(s, 0));
}

/// The lowpass feedback comb filter: Freeverb's core building block.
pub struct LowpassFeedbackComb {
    f: i64,
    d: i64,
    z1: Delay,
    zn: Delay,
}

impl View for LowpassFeedbackComb {
    type V = LfbCombState;

    closed spec fn view(&self) -> LfbCombState {
        LfbCombState { f: self.f as int, d: self.d as int, z1: self.z1@, zn: self.zn@ }
    }
}

impl LowpassFeedbackComb {
    /// A fresh lowpass feedback comb with feedback `f`, damping `d`,
    /// a one-sample lowpass memory, and a silent main window of `n`
    /// samples (one sample when `n == 0`).
    pub fn new(f: i64, d: i64, n: usize) -> (c: LowpassFeedbackComb)
        requires
            sample_ok(f as int),
            sample_ok(d as int),
        ensures
            c.wf(),
            c@.f == f as int,
            c@.d == d as int,
            c@ == lfbcomb_init(f as int, d as int, window_len(n as int)),
            silent(c@.z1),
            silent(c@.zn),
    {
        let c = LowpassFeedbackComb { f, d, z1: Delay::new(1), zn: Delay::new(n) };
        proof {
            assert(c@.z1 =~= zero_window(1));
            assert(c@.zn =~= zero_window(window_len(n as int) as nat));
        }
        c
    }

    /// A well-formed lowpass feedback comb has a well-formed
    /// mathematical state.
    pub proof fn lemma_wf_state(&self)
        requires
            self.wf(),
        ensures
            lfbcomb_wf(self@),
    {
        self.z1.lemma_wf_view();
        self.zn.lemma_wf_view();
    }
}

impl Filter for LowpassFeedbackComb {
    closed spec fn wf(&self) -> bool {
        &&& sample_ok(self.f as int)
        &&& sample_ok(self.d as int)
        &&& self.z1.wf()
        &&& self.zn.wf()
    }

    fn process_sample(&mut self, x: i64) -> (y: i64)
        ensures
            y as int == lfbcomb_out(old(self)@, x as int),
            final(self)@ == lfbcomb_next(old(self)@, x as int),
    {
        let filterstore = sample_add(
            sample_mul(sample_sub(SCALE, self.d), self.zn.output()),
            sample_mul(self.d, self.z1.output()),
        );
        let y = sample_add(x, sample_mul(self.f, filterstore));
        self.z1.input(filterstore);
        self.zn.input(y);
        y
    }
}

} // verus!
