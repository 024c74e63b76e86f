use kickforge::dsp::distortion::DistortionType;
use kickforge::engine::{
    distortion_from_selector, fx_chain, layer_mix, slot_effect, EditorThrottle, FxKind, FxStage,
    HoldCounter, LayerMix, WaveformCapture, refresh_interval, EDITOR_REFRESH_RATE,
};
use kickforge::params::{FX_COMP, FX_DIST, FX_EMPTY, FX_EQ, FX_TRANS, NUM_FX_SLOTS};

#[test]
fn layers_without_solo_all_heard() {
    assert_eq!(layer_mix(false, false, false, false), LayerMix { click: true, body: true, noise: true });
}

#[test]
fn layers_with_solo() {
    assert_eq!(layer_mix(true, false, false, false), LayerMix { click: true, body: false, noise: false });
    assert_eq!(layer_mix(false, true, false, false), LayerMix { click: false, body: true, noise: false });
    // The sub is part of the body.
    assert_eq!(layer_mix(false, false, true, false), LayerMix { click: false, body: true, noise: false });
    assert_eq!(layer_mix(false, false, false, true), LayerMix { click: false, body: false, noise: true });
    assert_eq!(layer_mix(true, false, false, true), LayerMix { click: true, body: false, noise: true });
    assert_eq!(layer_mix(true, true, true, true), LayerMix { click: true, body: true, noise: true });
}

#[test]
fn slot_types_and_effects() {
    assert_eq!((FX_EMPTY, FX_EQ, FX_COMP, FX_DIST, FX_TRANS), (0, 1, 2, 3, 4));
    assert_eq!(NUM_FX_SLOTS, 8);
    assert_eq!(slot_effect(FX_EQ, true), Some(FxKind::Eq));
    assert_eq!(slot_effect(FX_COMP, true), Some(FxKind::Compressor));
    assert_eq!(slot_effect(FX_DIST, true), Some(FxKind::Distortion));
    assert_eq!(slot_effect(FX_TRANS, true), Some(FxKind::Transient));
    assert_eq!(slot_effect(FX_EMPTY, true), None);
    assert_eq!(slot_effect(5, true), None);
    assert_eq!(slot_effect(-1, true), None);
    assert_eq!(slot_effect(FX_EQ, false), None);
}

#[test]
fn fx_chain_in_slot_order() {
    let types = [1, 0, 3, 9, 2, 4, 4, 1];
    let enabled = [true, true, false, true, true, true, false, true];
    let chain = fx_chain(&types, &enabled);
    assert_eq!(
        chain,
        vec![
            FxStage { slot: 0, kind: FxKind::Eq },
            FxStage { slot: 4, kind: FxKind::Compressor },
            FxStage { slot: 5, kind: FxKind::Transient },
            FxStage { slot: 7, kind: FxKind::Eq },
        ]
    );
    // Law: stages come in strictly increasing slot order.
    for w in chain.windows(2) {
        assert!(w[0].slot < w[1].slot);
    }
}

#[test]
fn fx_chain_default_rack_is_empty() {
    let types = [0; 8];
    let enabled = [true; 8];
    assert!(fx_chain(&types, &enabled).is_empty());
}

#[test]
fn distortion_selector_mapping() {
    assert_eq!(distortion_from_selector(0), DistortionType::Tanh);
    assert_eq!(distortion_from_selector(1), DistortionType::HardClip);
    assert_eq!(distortion_from_selector(2), DistortionType::Foldback);
    assert_eq!(distortion_from_selector(3), DistortionType::Asymmetric);
    assert_eq!(distortion_from_selector(4), DistortionType::Bitcrush);
    assert_eq!(distortion_from_selector(7), DistortionType::Bitcrush);
    // Unlike the enum's index lookup, a large selector chooses Bitcrush.
    assert_eq!(DistortionType::from_index(7), DistortionType::Tanh);
    for t in [
        DistortionType::Tanh,
        DistortionType::HardClip,
        DistortionType::Foldback,
        DistortionType::Asymmetric,
        DistortionType::Bitcrush,
    ] {
        assert_eq!(distortion_from_selector(t.to_index()), t);
    }
}

#[test]
fn hold_counter_window() {
    let mut h = HoldCounter::new();
    assert_eq!(h.remaining(), 0);
    assert!(!h.step());
    h.start(3);
    assert!(h.step());
    assert!(h.step());
    assert!(h.step());
    assert!(!h.step());
    assert!(!h.step());
    assert_eq!(h.remaining(), 0);
    h.start(5);
    h.step();
    h.reset();
    assert!(!h.step());
}

#[test]
fn hold_zero_samples_decays_at_once() {
    let mut h = HoldCounter::new();
    h.start(0);
    assert!(!h.step());
}

#[test]
fn capture_idle_until_triggered() {
    let mut c = WaveformCapture::new(4);
    assert!(!c.is_capturing());
    assert_eq!(c.next_slot(), None);
    assert_eq!(c.position(), 0);
}

#[test]
fn capture_fills_buffer_once() {
    let mut c = WaveformCapture::new(4);
    c.start();
    assert!(c.is_capturing());
    assert_eq!(c.next_slot(), Some(0));
    assert_eq!(c.next_slot(), Some(1));
    assert_eq!(c.next_slot(), Some(2));
    assert_eq!(c.next_slot(), Some(3));
    assert!(!c.is_capturing());
    assert_eq!(c.next_slot(), None);
    assert_eq!(c.next_slot(), None);
}

#[test]
fn capture_retrigger_restarts() {
    let mut c = WaveformCapture::new(512);
    c.start();
    for i in 0..100 {
        assert_eq!(c.next_slot(), Some(i));
    }
    c.start();
    assert_eq!(c.next_slot(), Some(0));
    let mut n = 1;
    while let Some(i) = c.next_slot() {
        assert_eq!(i, n);
        n += 1;
    }
    assert_eq!(n, 512);
}

#[test]
fn throttle_fires_every_interval() {
    let mut t = EditorThrottle::with_interval(512);
    assert_eq!(t.interval(), 512);
    assert!(!t.tick(256));
    assert_eq!(t.counter(), 256);
    assert!(t.tick(256));
    assert_eq!(t.counter(), 0);
    assert!(!t.tick(511));
    assert!(t.tick(1));
    assert!(t.tick(4096));
    assert_eq!(t.counter(), 0);
    assert!(!t.tick(0));
}

#[test]
fn refresh_interval_for_rates() {
    assert_eq!(EDITOR_REFRESH_RATE, 30);
    assert_eq!(refresh_interval(44100), 1470);
    assert_eq!(refresh_interval(48000), 1600);
    assert_eq!(refresh_interval(96000), 3200);
    assert_eq!(refresh_interval(29), 1);
    assert_eq!(refresh_interval(0), 1);
}

#[test]
fn about_thirty_packets_per_second() {
    // One second at 44.1 kHz, one sample at a time: exactly 30 packets.
    let mut t = EditorThrottle::with_interval(refresh_interval(44100));
    let sent = (0..44100).filter(|_| t.tick(1)).count();
    assert_eq!(sent, 30);
    // One second in 90 blocks of 490 samples: 30 packets.
    let mut t = EditorThrottle::with_interval(refresh_interval(44100));
    let sent = (0..90).filter(|_| t.tick(490)).count();
    assert_eq!(sent, 30);
    // 86 blocks of 512 samples (44032 samples): 44032 / 1470 = 29 packets.
    let mut t = EditorThrottle::with_interval(refresh_interval(44100));
    let sent = (0..86).filter(|_| t.tick(512)).count();
    assert_eq!(sent, 29);
    // 43 blocks of 1024 samples (44032 samples): also 29.
    let mut t = EditorThrottle::with_interval(refresh_interval(44100));
    let sent = (0..43).filter(|_| t.tick(1024)).count();
    assert_eq!(sent, 29);
}

#[test]
fn throttle_carries_remainder() {
    let mut t = EditorThrottle::with_interval(1470);
    assert!(!t.tick(1024));
    assert!(t.tick(1024));
    assert_eq!(t.counter(), 578);
    // A block longer than the interval sends one packet and keeps the rest.
    assert!(t.tick(4096));
    assert_eq!(t.counter(), (578 + 4096) % 1470);
}
