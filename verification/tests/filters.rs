use accent::sample::{HALF, LIM, SCALE};
use accent::{
    sample_add, sample_mul, sample_neg, sample_sub, Allpass, FeedbackComb, FeedforwardComb,
    Filter, LowpassFeedbackComb,
};

/// A real-valued gain as a fixed-point sample.
fn fx(v: f64) -> i64 {
    (v * SCALE as f64).round() as i64
}

#[test]
fn sample_arithmetic_saturates() {
    assert_eq!(sample_add(LIM, LIM), LIM);
    assert_eq!(sample_add(-LIM, -LIM), -LIM);
    assert_eq!(sample_sub(-LIM, LIM), -LIM);
    assert_eq!(sample_mul(LIM, LIM), LIM);
    assert_eq!(sample_mul(-LIM, LIM), -LIM);
}

#[test]
fn sample_mul_is_exact_scaled_product() {
    assert_eq!(sample_mul(fx(0.5), fx(0.5)), fx(0.25));
    assert_eq!(sample_mul(SCALE, fx(0.3)), fx(0.3));
    assert_eq!(sample_mul(fx(-0.5), fx(0.5)), fx(-0.25));
    assert_eq!(sample_mul(fx(0.5), 0), 0);
}

#[test]
fn sample_mul_truncates_toward_zero() {
    // One fixed-point step times one unit-scaled step: the exact
    // product is -1/SCALE, which truncation toward zero makes 0
    // (flooring would give -1).
    assert_eq!(sample_mul(-1, 1), 0);
    assert_eq!(sample_mul(1, -1), 0);
}

#[test]
fn sample_neg_is_exact() {
    assert_eq!(sample_neg(fx(0.7)), fx(-0.7));
    assert_eq!(sample_neg(0), 0);
    assert_eq!(sample_neg(-LIM), LIM);
}

#[test]
fn allpass_impulse_response_prefix() {
    // am = b0 = -0.7, delay 2: the response to a unit impulse starts
    // b0, 0, z (1 - 0.7^2), 0, ... with exact fixed-point truncation.
    let mut f = Allpass::new(fx(-0.7), fx(-0.7), 2);
    assert_eq!(f.process_sample(SCALE), -751619277);
    assert_eq!(f.process_sample(0), 0);
    assert_eq!(f.process_sample(0), 547608330);
    assert_eq!(f.process_sample(0), 0);
    assert_eq!(f.process_sample(0), 383325832);
}

#[test]
fn feedforward_comb_recurrence() {
    // b0 = 0.5, bm = 0.25, delay 1: y_k = 0.5 x_k + 0.25 x_{k-1}.
    let mut f = FeedforwardComb::new(fx(0.5), fx(0.25), 1);
    assert_eq!(f.process_sample(SCALE), HALF);
    assert_eq!(f.process_sample(HALF), 536870912);
    assert_eq!(f.process_sample(0), 134217728);
}

#[test]
fn feedback_comb_impulse_decays_geometrically() {
    // am = -0.5, delay 1: v_k = x_k + 0.5 v_{k-1}, so the impulse
    // response is 1, 1/2, 1/4, 1/8, ...
    let mut f = FeedbackComb::new(fx(-0.5), 1);
    assert_eq!(f.process_sample(SCALE), 1073741824);
    assert_eq!(f.process_sample(0), 536870912);
    assert_eq!(f.process_sample(0), 268435456);
    assert_eq!(f.process_sample(0), 134217728);
}

#[test]
fn lowpass_feedback_comb_recurrence() {
    // f = 0.5, d = 0.5, delay 1, impulse input:
    // y_0 = 1, then filterstore mixes the two memories half-and-half.
    let mut f = LowpassFeedbackComb::new(fx(0.5), fx(0.5), 1);
    assert_eq!(f.process_sample(SCALE), 1073741824);
    assert_eq!(f.process_sample(0), 268435456);
    assert_eq!(f.process_sample(0), 201326592);
}

#[test]
fn filters_stay_silent_at_rest() {
    let mut ap = Allpass::new(fx(-0.7), fx(-0.7), 13);
    let mut ff = FeedforwardComb::new(fx(0.3), fx(0.7), 7);
    let mut fb = FeedbackComb::new(fx(-0.8), 11);
    let mut lf = LowpassFeedbackComb::new(fx(0.84), fx(0.2), 9);
    for _ in 0..1000 {
        assert_eq!(ap.process_sample(0), 0);
        assert_eq!(ff.process_sample(0), 0);
        assert_eq!(fb.process_sample(0), 0);
        assert_eq!(lf.process_sample(0), 0);
    }
}
