use accent::sample::{HALF, SCALE};
use accent::{Allpass, FeedbackComb, Filter, Freeverb, JCRev, NRev, PRCRev, Reverb, SATREV,
    STKJCRev};

/// A real-valued gain as a fixed-point sample.
fn fx(v: f64) -> i64 {
    (v * SCALE as f64).round() as i64
}

/// A sample back as a real value.
fn to_f(v: i64) -> f64 {
    v as f64 / SCALE as f64
}

/// The classic T60 recipe: `-10^(-3 * delay / (44100 * t60))`.
fn t60_gain(delay: u32, t60: f64) -> i64 {
    fx(-(10f64).powf(-3.0 * delay as f64 / (44100.0 * t60)))
}

/// The Synthesis ToolKit variant: `0.8 * 10^(-3 * delay / (44100 * t60))`.
fn stk_gain(delay: u32, t60: f64) -> i64 {
    fx(0.8 * (10f64).powf(-3.0 * delay as f64 / (44100.0 * t60)))
}

/// A small linear-congruential noise source, amplitude about half a unit.
struct Noise(u64);

impl Noise {
    fn next(&mut self) -> i64 {
        self.0 = self.0.wrapping_mul(6364136223846793005).wrapping_add(1442695040888963407);
        ((self.0 >> 24) as i64 % SCALE) - HALF
    }
}

#[test]
fn allpass_conserves_energy_on_noise() {
    // An allpass with |a| < 1 has unit magnitude response at every
    // frequency, so on a long pseudo-random input the output RMS must
    // match the input RMS once the transient is over.
    let mut f = Allpass::new(fx(-0.7), fx(-0.7), 347);
    let mut noise = Noise(42);
    let n = 200_000;
    let mut in_energy = 0f64;
    let mut out_energy = 0f64;
    for _ in 0..n {
        let x = noise.next();
        let y = f.process_sample(x);
        in_energy += to_f(x) * to_f(x);
        out_energy += to_f(y) * to_f(y);
    }
    let ratio = (out_energy / in_energy).sqrt();
    assert!((ratio - 1.0).abs() < 0.02, "RMS ratio was {ratio}");
}

#[test]
fn feedback_comb_is_bibo_stable_over_a_million_samples() {
    // |a| = 0.875 < 1 (exact in fixed point) with unit-amplitude
    // input: the output must stay within 1 / (1 - 0.875) = 8 units
    // forever.
    let mut f = FeedbackComb::new(fx(-0.875), 1000);
    let mut noise = Noise(3);
    let bound = 8 * SCALE;
    for _ in 0..1_000_000 {
        // Unit-amplitude noise: twice the generator's half-unit swing.
        let x = 2 * noise.next();
        let y = f.process_sample(x);
        assert!(y.abs() <= bound, "feedback comb diverged: {y}");
    }
}

/// The last step at which a reverb's impulse response is still above
/// the threshold, scanning `n` steps after a unit impulse on both
/// channels.
fn tail_length<R: Reverb>(r: &mut R, n: usize, threshold: i64) -> usize {
    let mut last = 0;
    let (l, rr) = r.process_sample((SCALE, SCALE));
    if l.abs() > threshold || rr.abs() > threshold {
        last = 1;
    }
    for k in 2..=n {
        let (l, rr) = r.process_sample((0, 0));
        if l.abs() > threshold || rr.abs() > threshold {
            last = k;
        }
    }
    last
}

/// Doubling the sample rate must roughly double the length of the
/// decaying tail, since every delay length scales with the rate.
fn check_tail_scaling(t1: usize, t2: usize) {
    assert!(t1 > 100, "tail too short to measure: {t1}");
    let ratio = t2 as f64 / t1 as f64;
    assert!((1.6..=2.4).contains(&ratio), "tail ratio was {ratio} ({t1} vs {t2})");
}

#[test]
fn jcrev_tail_scales_with_sample_rate() {
    let thr = SCALE / 1000;
    let t1 = tail_length(&mut JCRev::new(16000), 200_000, thr);
    let t2 = tail_length(&mut JCRev::new(32000), 200_000, thr);
    check_tail_scaling(t1, t2);
}

#[test]
fn satrev_tail_scales_with_sample_rate() {
    let thr = SCALE / 1000;
    let t1 = tail_length(&mut SATREV::new(16000), 200_000, thr);
    let t2 = tail_length(&mut SATREV::new(32000), 200_000, thr);
    check_tail_scaling(t1, t2);
}

#[test]
fn prcrev_tail_scales_with_sample_rate() {
    let thr = SCALE / 1000;
    let gains = [t60_gain(1557, 0.5), t60_gain(2137, 0.5)];
    let t1 = tail_length(&mut PRCRev::new(16000, gains), 100_000, thr);
    let t2 = tail_length(&mut PRCRev::new(32000, gains), 100_000, thr);
    check_tail_scaling(t1, t2);
}

#[test]
fn nrev_tail_scales_with_sample_rate() {
    let thr = SCALE / 1000;
    let gains = [
        t60_gain(1433, 0.5),
        t60_gain(1601, 0.5),
        t60_gain(1867, 0.5),
        t60_gain(2053, 0.5),
        t60_gain(2251, 0.5),
        t60_gain(2399, 0.5),
    ];
    let t1 = tail_length(&mut NRev::new(16000, gains), 100_000, thr);
    let t2 = tail_length(&mut NRev::new(32000, gains), 100_000, thr);
    check_tail_scaling(t1, t2);
}

#[test]
fn stk_jcrev_tail_scales_with_sample_rate() {
    let thr = SCALE / 2000;
    let gains = [
        stk_gain(1116, 0.5),
        stk_gain(1356, 0.5),
        stk_gain(1422, 0.5),
        stk_gain(1617, 0.5),
    ];
    let t1 = tail_length(&mut STKJCRev::new(16000, gains), 100_000, thr);
    let t2 = tail_length(&mut STKJCRev::new(32000, gains), 100_000, thr);
    check_tail_scaling(t1, t2);
}

#[test]
fn freeverb_tail_scales_with_sample_rate() {
    let thr = SCALE / 10000;
    let mut f1 = Freeverb::new(16000, fx(0.5), fx(0.2), fx(1.0), fx(1.0), 0);
    let mut f2 = Freeverb::new(32000, fx(0.5), fx(0.2), fx(1.0), fx(1.0), 0);
    let t1 = tail_length(&mut f1, 150_000, thr);
    let t2 = tail_length(&mut f2, 150_000, thr);
    check_tail_scaling(t1, t2);
}
