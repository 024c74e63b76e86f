use kickforge::dsp::click::{ClickType, CLICK_SEED, CLICK_TYPE_COUNT};
use kickforge::dsp::distortion::{DistortionType, DISTORTION_TYPE_COUNT};
use kickforge::dsp::filter::{FilterMode, FILTER_MODE_COUNT};
use kickforge::dsp::noise::{xorshift32, NoiseType, Xorshift32, NOISE_SEED, NOISE_TYPE_COUNT};
use kickforge::dsp::oscillator::{Waveform, WAVEFORM_COUNT};
use kickforge::dsp::pitch_envelope::{PitchCurve, PITCH_CURVE_COUNT};

#[test]
fn distortion_type_indices() {
    let all = [
        DistortionType::Tanh,
        DistortionType::HardClip,
        DistortionType::Foldback,
        DistortionType::Asymmetric,
        DistortionType::Bitcrush,
    ];
    assert_eq!(DISTORTION_TYPE_COUNT, 5);
    for (i, t) in all.iter().enumerate() {
        assert_eq!(t.to_index(), i);
        assert_eq!(DistortionType::from_index(i), *t);
    }
    assert_eq!(DistortionType::from_index(5), DistortionType::Tanh);
    assert_eq!(DistortionType::from_index(usize::MAX), DistortionType::Tanh);
}

#[test]
fn filter_mode_indices() {
    let all = [FilterMode::LowPass, FilterMode::HighPass, FilterMode::BandPass, FilterMode::Notch];
    assert_eq!(FILTER_MODE_COUNT, 4);
    for (i, t) in all.iter().enumerate() {
        assert_eq!(t.to_index(), i);
        assert_eq!(FilterMode::from_index(i), *t);
    }
    assert_eq!(FilterMode::from_index(4), FilterMode::LowPass);
}

#[test]
fn noise_type_indices() {
    let all = [NoiseType::White, NoiseType::Pink, NoiseType::Filtered];
    assert_eq!(NOISE_TYPE_COUNT, 3);
    for (i, t) in all.iter().enumerate() {
        assert_eq!(t.to_index(), i);
        assert_eq!(NoiseType::from_index(i), *t);
    }
    assert_eq!(NoiseType::from_index(3), NoiseType::White);
}

#[test]
fn waveform_indices() {
    let all = [Waveform::Sine, Waveform::Triangle, Waveform::Saw, Waveform::Pulse, Waveform::SineFold];
    assert_eq!(WAVEFORM_COUNT, 5);
    for (i, t) in all.iter().enumerate() {
        assert_eq!(t.to_index(), i);
        assert_eq!(Waveform::from_index(i), *t);
    }
    assert_eq!(Waveform::from_index(99), Waveform::Sine);
}

#[test]
fn pitch_curve_indices() {
    let all = [
        PitchCurve::Exponential,
        PitchCurve::Logarithmic,
        PitchCurve::Linear,
        PitchCurve::SCurve,
        PitchCurve::Punch,
    ];
    assert_eq!(PITCH_CURVE_COUNT, 5);
    for (i, t) in all.iter().enumerate() {
        assert_eq!(t.to_index(), i);
        assert_eq!(PitchCurve::from_index(i), *t);
    }
    assert_eq!(PitchCurve::from_index(5), PitchCurve::Exponential);
}

#[test]
fn click_type_indices() {
    let all = [ClickType::Noise, ClickType::Sine, ClickType::Punch];
    assert_eq!(CLICK_TYPE_COUNT, 3);
    for (i, t) in all.iter().enumerate() {
        assert_eq!(t.to_index(), i);
        assert_eq!(ClickType::from_index(i), *t);
    }
    assert_eq!(ClickType::from_index(3), ClickType::Noise);
}

#[test]
fn xorshift_step_values() {
    assert_eq!(xorshift32(NOISE_SEED), 0x477d_20b7);
    assert_eq!(xorshift32(0x477d_20b7), 0x8e1d_9142);
    assert_eq!(xorshift32(CLICK_SEED), 0x8798_5aa5);
    assert_eq!(xorshift32(1), 0x0004_2021);
    assert_eq!(xorshift32(0), 0);
}

#[test]
fn xorshift_generator_sequence() {
    let mut g = Xorshift32::new(NOISE_SEED).unwrap();
    assert_eq!(g.state(), 0xDEAD_BEEF);
    assert_eq!(g.next_u32(), 0x477d_20b7);
    assert_eq!(g.next_u32(), 0x8e1d_9142);
    assert_eq!(g.state(), 0x8e1d_9142);
}

#[test]
fn xorshift_zero_seed_refused() {
    assert!(Xorshift32::new(0).is_none());
}

#[test]
fn xorshift_never_reaches_zero() {
    // Law: a non-zero state never steps to zero.
    let mut g = Xorshift32::new(CLICK_SEED).unwrap();
    for _ in 0..100_000 {
        assert_ne!(g.next_u32(), 0);
    }
    for x in [1u32, 2, 0x8000_0000, u32::MAX, 0x0001_0000, 12345] {
        assert_ne!(xorshift32(x), 0);
    }
}
