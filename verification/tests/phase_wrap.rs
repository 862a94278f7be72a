use chirp_generator::phase::{full_turn, wrap, Wrap, TURN_BITS};
use chirp_generator::single::Single;
use chirp_generator::sweep::{check_exponential_start, check_linear_start};
use std::f32::consts::TAU;

fn of(x: f32) -> Single {
    Single::from_bits(x.to_bits())
}

/// The wrap that the two comparisons of a phase with one turn call for.
fn expected(phi: f32) -> Wrap {
    if phi > TAU {
        Wrap::Down
    } else if -phi > TAU {
        Wrap::Up
    } else {
        Wrap::Keep
    }
}

/// Brings a phase back by the wrap that the library decides, and holds the
/// decision against the comparisons made in floating point.
fn settle(phi: f32) -> f32 {
    let decided: Wrap = wrap(of(phi));
    assert_eq!(decided, expected(phi), "{:#010x}", phi.to_bits());
    match decided {
        Wrap::Down => phi - TAU,
        Wrap::Up => phi + TAU,
        Wrap::Keep => phi,
    }
}

fn linear(begin: f32, end: f32, samples: usize, rate: u32) -> Vec<f32> {
    assert!(check_linear_start(of(begin)).is_ok());
    let mut signal: Vec<f32> = vec![0.0; samples];
    let dt: f32 = 1.0 / rate as f32;
    let mut phi: f32 = 0.0;
    let mut dphidt: f32 = TAU * begin;
    let ddphi: f32 = TAU * (end - begin) / samples as f32;
    for sample in signal.iter_mut() {
        *sample = phi.cos();
        phi += dt * dphidt;
        dphidt += ddphi;
        phi = settle(phi);
    }
    signal
}

fn exponential(begin: f32, end: f32, samples: usize, rate: u32) -> Vec<f32> {
    assert!(check_exponential_start(of(begin)).is_ok());
    let mut signal: Vec<f32> = vec![0.0; samples];
    let dt: f32 = 1.0 / rate as f32;
    let mut phi: f32 = 0.0;
    let mut x: f32 = (TAU * begin).log2();
    let dx: f32 = dt * (end / begin).log2();
    for sample in signal.iter_mut() {
        *sample = phi.cos();
        phi += dt * x.exp2();
        x += dx;
        phi = settle(phi);
    }
    signal
}

/// Counts the sign changes in a stretch of a waveform.
fn crossings(signal: &[f32]) -> usize {
    let mut count: usize = 0;
    for pair in signal.windows(2) {
        if (pair[0] < 0.0) != (pair[1] < 0.0) {
            count += 1;
        }
    }
    count
}

#[test]
fn one_turn_is_the_single_nearest_to_twice_pi() {
    assert_eq!(TURN_BITS, TAU.to_bits());
    assert_eq!(full_turn().bits, TAU.to_bits());
    assert_eq!(f32::from_bits(TURN_BITS), (2.0 * std::f64::consts::PI) as f32);
    assert_eq!(f32::from_bits(TURN_BITS) as f64, 13_176_795.0 / 2_097_152.0);
}

#[test]
fn a_phase_within_one_turn_is_kept() {
    assert_eq!(wrap(of(0.0)), Wrap::Keep);
    assert_eq!(wrap(of(-0.0)), Wrap::Keep);
    assert_eq!(wrap(of(1.0)), Wrap::Keep);
    assert_eq!(wrap(of(-3.0)), Wrap::Keep);
    assert_eq!(wrap(of(TAU)), Wrap::Keep);
    assert_eq!(wrap(of(-TAU)), Wrap::Keep);
    assert_eq!(wrap(Single::from_bits(TURN_BITS - 1)), Wrap::Keep);
}

#[test]
fn a_phase_above_one_turn_goes_down() {
    assert_eq!(wrap(Single::from_bits(TURN_BITS + 1)), Wrap::Down);
    assert_eq!(wrap(of(7.0)), Wrap::Down);
    assert_eq!(wrap(of(1.0e6)), Wrap::Down);
    assert_eq!(wrap(of(f32::MAX)), Wrap::Down);
    assert_eq!(wrap(of(f32::INFINITY)), Wrap::Down);
}

#[test]
fn a_phase_below_minus_one_turn_goes_up() {
    assert_eq!(wrap(Single::from_bits(0x8000_0000 + TURN_BITS + 1)), Wrap::Up);
    assert_eq!(wrap(of(-7.0)), Wrap::Up);
    assert_eq!(wrap(of(-1.0e6)), Wrap::Up);
    assert_eq!(wrap(of(f32::MIN)), Wrap::Up);
    assert_eq!(wrap(of(f32::NEG_INFINITY)), Wrap::Up);
}

#[test]
fn a_phase_that_is_not_a_number_is_kept() {
    assert_eq!(wrap(of(f32::NAN)), Wrap::Keep);
    assert_eq!(wrap(Single::from_bits(0x7F80_0001)), Wrap::Keep);
    assert_eq!(wrap(Single::from_bits(0xFFC0_0000)), Wrap::Keep);
    assert_eq!(wrap(Single::from_bits(0xFFFF_FFFF)), Wrap::Keep);
}

#[test]
fn wrap_is_the_two_comparisons_with_one_turn() {
    let mut bits: u32 = 0;
    loop {
        let phi: f32 = f32::from_bits(bits);
        assert_eq!(wrap(of(phi)), expected(phi), "{:#010x}", bits);
        match bits.checked_add(0x0003_1415) {
            Some(next) => bits = next,
            None => break,
        }
    }
}

#[test]
fn after_going_down_nothing_goes_up() {
    let mut bits: u32 = TURN_BITS + 1;
    while bits <= 0x7F80_0000 {
        let phi: f32 = f32::from_bits(bits);
        assert_eq!(wrap(of(phi)), Wrap::Down);
        assert_ne!(wrap(of(phi - TAU)), Wrap::Up);
        bits += 0x0001_0001;
    }
}

#[test]
fn linear_sweep_of_one_second() {
    let signal: Vec<f32> = linear(100.0, 1000.0, 44100, 44100);
    assert_eq!(signal.len(), 44100);
    assert_eq!(signal[0], 1.0);
    for sample in signal.iter() {
        assert!(sample.is_finite());
        assert!(-1.0 <= *sample && *sample <= 1.0);
    }
    let first: usize = crossings(&signal[..4410]);
    let last: usize = crossings(&signal[39690..]);
    // a tenth of a second at f Hz crosses zero about f / 5 times
    assert!(28 <= first && first <= 30, "{}", first);
    assert!(185 <= last && last <= 195, "{}", last);
}

#[test]
fn exponential_sweep_of_one_second() {
    let signal: Vec<f32> = exponential(20.0, 20000.0, 44100, 44100);
    assert_eq!(signal.len(), 44100);
    assert_eq!(signal[0], 1.0);
    for sample in signal.iter() {
        assert!(sample.is_finite());
        assert!(-1.0 <= *sample && *sample <= 1.0);
    }
    let mut before: usize = 0;
    for tenth in 0..10 {
        let count: usize = crossings(&signal[tenth * 4410..(tenth + 1) * 4410]);
        assert!(count >= before, "{} then {}", before, count);
        before = count;
    }
    assert!(before > 1000);
}

#[test]
fn a_sweep_between_equal_frequencies_is_a_sinusoid() {
    let signal: Vec<f32> = linear(440.0, 440.0, 4410, 44100);
    for (k, sample) in signal.iter().enumerate() {
        let exact: f64 = (2.0 * std::f64::consts::PI * 440.0 * k as f64 / 44100.0).cos();
        assert!((*sample as f64 - exact).abs() < 1.0e-2, "sample {}", k);
    }
}

#[test]
fn a_sweep_of_no_samples_is_empty() {
    assert!(linear(0.0, 22050.0, 0, 44100).is_empty());
    assert!(exponential(20.0, 20000.0, 0, 44100).is_empty());
}

#[test]
fn a_downward_sweep_wraps_like_an_upward_one() {
    let signal: Vec<f32> = linear(1000.0, 100.0, 44100, 44100);
    assert_eq!(signal.len(), 44100);
    assert_eq!(signal[0], 1.0);
    let first: usize = crossings(&signal[..4410]);
    let last: usize = crossings(&signal[39690..]);
    assert!(first > last);
}

#[test]
fn equal_inputs_give_equal_waveforms() {
    let one: Vec<f32> = linear(100.0, 1000.0, 4410, 44100);
    let two: Vec<f32> = linear(100.0, 1000.0, 4410, 44100);
    assert_eq!(one.len(), two.len());
    for (a, b) in one.iter().zip(two.iter()) {
        assert_eq!(a.to_bits(), b.to_bits());
    }
}
