use accent::sample::SCALE;
use accent::Delay;

/// The exact FIFO delay law: after an impulse into a resting line of
/// length `n`, reading the oldest sample right after each input gives
/// zero for `n - 1` steps and the impulse itself on the `n`-th.
fn check_impulse_delay(n: usize) {
    let mut d = Delay::new(n);
    // Feeding zeros first must leave the line silent.
    for _ in 0..n {
        d.input(0);
        assert_eq!(d.output(), 0);
    }
    d.input(SCALE);
    for step in 1..=n {
        if step == n {
            assert_eq!(d.output(), SCALE, "impulse must appear on step {n}");
        } else {
            assert_eq!(d.output(), 0, "step {step} of {n} must still be silent");
            d.input(0);
        }
    }
}

#[test]
fn impulse_delay_law_small() {
    check_impulse_delay(1);
    check_impulse_delay(2);
    check_impulse_delay(3);
}

#[test]
fn impulse_delay_law_larger() {
    check_impulse_delay(8);
    check_impulse_delay(37);
    check_impulse_delay(1687);
}

#[test]
fn zero_length_returns_most_recent_write() {
    let mut d = Delay::new(0);
    assert_eq!(d.output(), 0);
    d.input(123456);
    assert_eq!(d.output(), 123456);
    d.input(-77);
    assert_eq!(d.output(), -77);
}

#[test]
fn output_is_a_pure_read() {
    let mut d = Delay::new(4);
    d.input(10);
    d.input(20);
    assert_eq!(d.output(), 0);
    assert_eq!(d.output(), 0);
    d.input(30);
    d.input(40);
    assert_eq!(d.output(), 10);
    assert_eq!(d.output(), 10);
    d.input(50);
    assert_eq!(d.output(), 20);
}

#[test]
fn window_rolls_one_position_per_input() {
    let mut d = Delay::new(2);
    d.input(1);
    d.input(2);
    assert_eq!(d.output(), 1);
    d.input(3);
    assert_eq!(d.output(), 2);
    d.input(4);
    assert_eq!(d.output(), 3);
}
