use accent::reverb::scale_delay;
use accent::sample::{HALF, SCALE};
use accent::{Freeverb, JCRev, NRev, PRCRev, Reverb, SATREV, STKJCRev};

/// A real-valued gain as a fixed-point sample.
fn fx(v: f64) -> i64 {
    (v * SCALE as f64).round() as i64
}

/// The classic T60 recipe: `-10^(-3 * delay / (44100 * t60))`.
fn t60_gain(delay: u32, t60: f64) -> i64 {
    fx(-(10f64).powf(-3.0 * delay as f64 / (44100.0 * t60)))
}

/// The Synthesis ToolKit variant: `0.8 * 10^(-3 * delay / (44100 * t60))`.
fn stk_gain(delay: u32, t60: f64) -> i64 {
    fx(0.8 * (10f64).powf(-3.0 * delay as f64 / (44100.0 * t60)))
}

fn prcrev(sample_rate: u32, t60: f64) -> PRCRev {
    PRCRev::new(sample_rate, [t60_gain(1557, t60), t60_gain(2137, t60)])
}

fn nrev(sample_rate: u32, t60: f64) -> NRev {
    NRev::new(
        sample_rate,
        [
            t60_gain(1433, t60),
            t60_gain(1601, t60),
            t60_gain(1867, t60),
            t60_gain(2053, t60),
            t60_gain(2251, t60),
            t60_gain(2399, t60),
        ],
    )
}

fn stk_jcrev(sample_rate: u32, t60: f64) -> STKJCRev {
    STKJCRev::new(
        sample_rate,
        [
            stk_gain(1116, t60),
            stk_gain(1356, t60),
            stk_gain(1422, t60),
            stk_gain(1617, t60),
        ],
    )
}

/// A small linear-congruential noise source, amplitude about half a unit.
struct Noise(u64);

impl Noise {
    fn next(&mut self) -> i64 {
        self.0 = self.0.wrapping_mul(6364136223846793005).wrapping_add(1442695040888963407);
        ((self.0 >> 24) as i64 % SCALE) - HALF
    }
}

fn assert_zero_stream<R: Reverb>(mut r: R, steps: usize) {
    for _ in 0..steps {
        assert_eq!(r.process_sample((0, 0)), (0, 0));
    }
}

#[test]
fn jcrev_zero_in_zero_out() {
    assert_zero_stream(JCRev::new(44100), 10_000);
}

#[test]
fn satrev_zero_in_zero_out() {
    assert_zero_stream(SATREV::new(44100), 10_000);
}

#[test]
fn prcrev_zero_in_zero_out() {
    assert_zero_stream(prcrev(44100, 1.0), 10_000);
}

#[test]
fn nrev_zero_in_zero_out() {
    assert_zero_stream(nrev(44100, 1.0), 10_000);
}

#[test]
fn stk_jcrev_zero_in_zero_out() {
    assert_zero_stream(stk_jcrev(44100, 1.0), 10_000);
}

#[test]
fn freeverb_zero_in_zero_out() {
    assert_zero_stream(Freeverb::new(44100, fx(0.5), fx(0.5), fx(1.0), fx(1.0), 0), 10_000);
}

#[test]
fn satrev_channels_are_exact_negatives() {
    let mut r = SATREV::new(32000);
    let mut noise = Noise(7);
    for _ in 0..10_000 {
        let (l, rgt) = r.process_sample((noise.next(), noise.next()));
        assert_eq!(rgt, -l);
    }
}

#[test]
fn freeverb_dry_identity() {
    // wet = 0 and dry = 1/2 make the internal dry coefficient exactly
    // one unit, so the reverb passes any input through unchanged.
    let mut r = Freeverb::new(48000, fx(0.3), fx(0.25), fx(0.7), 0, HALF);
    let mut noise = Noise(99);
    for _ in 0..10_000 {
        let x = (noise.next(), noise.next());
        assert_eq!(r.process_sample(x), x);
    }
}

/// The exact stereo output at a handful of impulse-response steps:
/// a unit impulse on both channels, then zeros.
fn impulse_points<R: Reverb>(r: &mut R, points: &[(usize, i64, i64)]) {
    let mut out = r.process_sample((SCALE, SCALE));
    for &(step, l, rr) in points {
        for _ in 0..step {
            out = r.process_sample((0, 0));
        }
        assert_eq!(out, (l, rr), "at impulse step {step}");
    }
}

#[test]
fn jcrev_impulse_response_points() {
    // The direct path through the three allpasses is (-0.7)^3 of the
    // impulse into each comb pair; the first echo arrives after the
    // shortest allpass delay (37 samples at the design rate).
    impulse_points(
        &mut JCRev::new(25000),
        &[(0, -736586890, -736586890), (37, 536656166, 536656166), (37, 375659316, 375659316)],
    );
}

#[test]
fn satrev_impulse_response_points() {
    impulse_points(
        &mut SATREV::new(25000),
        &[(0, -1473173783, 1473173783), (12, 1073312328, -1073312328), (12, 751318630, -751318630)],
    );
}

#[test]
fn prcrev_impulse_response_points() {
    // Comb gains pinned to the exact fixed-point values of the T60
    // recipe at t60 = 1.
    let mut r = PRCRev::new(44100, [-841359306, -768290955]);
    impulse_points(
        &mut r,
        &[(0, 799937659, 799937659), (341, -191662915, -191662915), (272, -191662916, -191662916)],
    );
}

#[test]
fn nrev_impulse_response_points() {
    let mut r = NRev::new(
        25641,
        [-857860906, -835580517, -801480697, -778466639, -754693515, -737399079],
    );
    impulse_points(
        &mut r,
        &[(0, 654168832, 654168832), (1, -227384373, -227384373), (36, 70999610, 70999610)],
    );
}

#[test]
fn stk_jcrev_impulse_response_points() {
    // The two output delays differ (211 and 179 samples), so the comb
    // tail reaches the right channel first.
    let mut r = STKJCRev::new(44100, [721226191, 694616282, 687472235, 666791196]);
    impulse_points(
        &mut r,
        &[(0, 526133494, 526133494), (179, 0, -309366493), (32, -309366493, 0)],
    );
}

#[test]
fn freeverb_impulse_response_points() {
    // The second ear's lines carry 23 extra samples of stereo spread,
    // so its first allpass echo lands 23 samples later.
    impulse_points(
        &mut Freeverb::new(44100, fx(0.5), fx(0.2), SCALE, SCALE, 0),
        &[(0, 773094096, 773094096), (225, -773094096, 0), (23, 0, -773094096)],
    );
}

#[test]
fn scale_delay_truncates_exactly() {
    assert_eq!(scale_delay(44100, 25000, 1687), 2975);
    assert_eq!(scale_delay(48000, 44100, 1116), 1214);
    assert_eq!(scale_delay(25000, 25000, 347), 347);
    assert_eq!(scale_delay(12500, 25000, 1687), 843);
}

#[test]
fn reverbs_produce_a_wet_tail_after_an_impulse() {
    // Each algorithm must keep emitting signal after the impulse has
    // passed: a reverberator, not a pass-through.
    let mut tails = 0usize;
    let mut jc = JCRev::new(25000);
    let mut sat = SATREV::new(25000);
    let mut prc = prcrev(44100, 1.0);
    let mut nr = nrev(25641, 1.0);
    let mut stk = stk_jcrev(44100, 1.0);
    let mut fv = Freeverb::new(44100, fx(0.5), fx(0.2), fx(1.0), fx(1.0), 0);
    jc.process_sample((SCALE, SCALE));
    sat.process_sample((SCALE, SCALE));
    prc.process_sample((SCALE, SCALE));
    nr.process_sample((SCALE, SCALE));
    stk.process_sample((SCALE, SCALE));
    fv.process_sample((SCALE, SCALE));
    for _ in 0..20_000 {
        let outs = vec![
            jc.process_sample((0, 0)),
            sat.process_sample((0, 0)),
            prc.process_sample((0, 0)),
            nr.process_sample((0, 0)),
            stk.process_sample((0, 0)),
            fv.process_sample((0, 0)),
        ];
        for (l, r) in &outs {
            if *l != 0 || *r != 0 {
                tails += 1;
            }
        }
    }
    assert!(tails > 6 * 10_000, "all six tails must still ring: {tails}");
}
