use sharedroid::haptics::{Effect, LegacyFallback, VibrationRequest, Vibrator, Waveform};
use std::time::Duration;

#[test]
fn waveform_builders_append_steps() {
    let w = Waveform::new().on(100).off(50).step(70, 128);
    assert_eq!(w.steps, vec![(100, 255), (50, 0), (70, 128)]);
    assert!(Waveform::default().steps.is_empty());
}

#[test]
fn play_uses_predefined_ids_and_fallbacks() {
    let expected = [
        (Effect::Click, 0, 30),
        (Effect::DoubleClick, 1, 60),
        (Effect::Tick, 2, 30),
        (Effect::HeavyClick, 5, 80),
    ];
    for (effect, id, fallback) in expected {
        assert_eq!(
            Vibrator::play(effect),
            VibrationRequest::Predefined { effect_id: id, fallback_ms: fallback, fallback_amplitude: 255 }
        );
    }
}

#[test]
fn effect_names_match_debug() {
    for e in [Effect::Click, Effect::DoubleClick, Effect::HeavyClick, Effect::Tick] {
        assert_eq!(e.name(), format!("{:?}", e));
    }
}

#[test]
fn buzz_converts_duration_to_millis() {
    assert_eq!(
        Vibrator::buzz(Duration::from_millis(1500)),
        VibrationRequest::OneShot { ms: 1500, amplitude: 255 }
    );
    assert_eq!(
        Vibrator::buzz(Duration::from_secs(2)),
        VibrationRequest::OneShot { ms: 2000, amplitude: 255 }
    );
}

#[test]
fn pattern_splits_timings_and_amplitudes() {
    let w = Waveform::new().on(100).off(50).on(200);
    assert_eq!(
        Vibrator::pattern(w),
        VibrationRequest::Waveform {
            timings: vec![100, 50, 200],
            amplitudes: vec![255, 0, 255],
            repeat: -1,
            legacy: LegacyFallback::Millis(300),
        }
    );
}

#[test]
fn pattern_of_silence_has_no_legacy_fallback() {
    let w = Waveform::new().off(40).step(10, 0);
    assert_eq!(
        Vibrator::pattern(w),
        VibrationRequest::Waveform {
            timings: vec![40, 10],
            amplitudes: vec![0, 0],
            repeat: -1,
            legacy: LegacyFallback::Silent,
        }
    );
}

#[test]
fn empty_pattern_does_nothing() {
    assert_eq!(Vibrator::pattern(Waveform::new()), VibrationRequest::Idle);
}

#[test]
fn waveform_is_an_alias_of_pattern() {
    let a = Vibrator::pattern(Waveform::new().step(100, 50).step(100, 255));
    let b = Vibrator::waveform(Waveform::new().step(100, 50).step(100, 255));
    assert_eq!(a, b);
}

#[test]
fn cancel_requests_cancel() {
    assert_eq!(Vibrator::cancel(), VibrationRequest::Cancel);
}

#[test]
fn pattern_plays_waveforms_whose_total_overflows() {
    let w = Waveform::new().on(u64::MAX).off(5).on(1);
    assert_eq!(
        Vibrator::pattern(w),
        VibrationRequest::Waveform {
            timings: vec![-1, 5, 1],
            amplitudes: vec![255, 0, 255],
            repeat: -1,
            legacy: LegacyFallback::Overflow,
        }
    );
}

#[test]
fn pattern_total_that_just_fits() {
    let w = Waveform::new().on(u64::MAX - 1).on(1);
    match Vibrator::pattern(w) {
        VibrationRequest::Waveform { legacy, .. } => assert_eq!(legacy, LegacyFallback::Millis(u64::MAX as i64)),
        other => panic!("unexpected {:?}", other),
    }
}
