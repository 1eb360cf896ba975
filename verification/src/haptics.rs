//! Haptic feedback: predefined effects, one-shot buzzes and amplitude waveforms.
//!
//! Each `Vibrator` operation returns the `VibrationRequest` that the platform layer
//! performs through `android.os.Vibrator` / `VibrationEffect`.

use std::time::Duration;
use crate::durations::{duration_as_millis, total_millis};
use vstd::prelude::*;

verus! {

/// A pre-defined haptic effect.
#[derive(Debug, Clone, Copy, PartialEq, Eq, Structural)]
pub enum Effect {
    Click,
    DoubleClick,
    HeavyClick,
    Tick,
}

/// The name of an effect, as its `Debug` form prints it.
pub open spec fn effect_name(effect: Effect) -> Seq<char> {
    match effect {
        Effect::Click => "Click"@,
        Effect::DoubleClick => "DoubleClick"@,
        Effect::HeavyClick => "HeavyClick"@,
        Effect::Tick => "Tick"@,
    }
}

impl Effect {
    /// The effect's name, as its `Debug` form prints it.
    pub fn name(self) -> (s: &'static str)
        ensures
            s@ == effect_name(self),
    {
        match self {
            Effect::Click => "Click",
            Effect::DoubleClick => "DoubleClick",
            Effect::HeavyClick => "HeavyClick",
            Effect::Tick => "Tick",
        }
    }
}

/// Identifier of the effect in `VibrationEffect.createPredefined` (API 29+):
/// CLICK = 0, DOUBLE_CLICK = 1, TICK = 2, HEAVY_CLICK = 5.
pub open spec fn predefined_effect_id(effect: Effect) -> i32 {
    match effect {
        Effect::Click => 0,
        Effect::DoubleClick => 1,
        Effect::Tick => 2,
        Effect::HeavyClick => 5,
    }
}

/// Length in milliseconds of the one-shot buzz used when predefined effects are
/// not available.
pub open spec fn effect_fallback_ms(effect: Effect) -> i64 {
    match effect {
        Effect::Click | Effect::Tick => 30,
        Effect::DoubleClick => 60,
        Effect::HeavyClick => 80,
    }
}

/// Amplitude that stands for "full intensity".
pub open spec fn max_amplitude() -> u8 {
    255
}

/// A haptic waveform: a sequence of `(duration_ms, amplitude)` steps.
///
/// Amplitude `0` means the vibrator is off; `255` is maximum intensity.
#[derive(Debug)]
pub struct Waveform {
    pub steps: Vec<(u64, u8)>,
}

impl Default for Waveform {
    fn default() -> (w: Self)
        ensures
            w.steps@ == Seq::<(u64, u8)>::empty(),
    {
        Waveform { steps: Vec::new() }
    }
}

impl Waveform {
    /// An empty waveform.
    pub fn new() -> (w: Self)
        ensures
            w.steps@ == Seq::<(u64, u8)>::empty(),
    {
        Self::default()
    }

    /// Appends a step of `ms` milliseconds at full amplitude.
    pub fn on(self, ms: u64) -> (w: Self)
        ensures
            w.steps@ == self.steps@.push((ms, max_amplitude())),
    {
        let mut s = self;
        s.steps.push((ms, 255));
        s
    }

    /// Appends a silent step of `ms` milliseconds.
    pub fn off(self, ms: u64) -> (w: Self)
        ensures
            w.steps@ == self.steps@.push((ms, 0u8)),
    {
        let mut s = self;
        s.steps.push((ms, 0));
        s
    }

    /// Appends a step of `duration` milliseconds at the given amplitude.
    pub fn step(self, duration: u64, amplitude: u8) -> (w: Self)
        ensures
            w.steps@ == self.steps@.push((duration, amplitude)),
    {
        let mut s = self;
        s.steps.push((duration, amplitude));
        s
    }
}

/// Sum of the durations of the steps whose amplitude is not zero.
pub open spec fn audible_ms(steps: Seq<(u64, u8)>) -> int
    decreases steps.len(),
{
    if steps.len() == 0 {
        0
    } else {
        audible_ms(steps.drop_last()) + if steps.last().1 > 0 {
            steps.last().0 as int
        } else {
            0
        }
    }
}

/// The timing array handed to `VibrationEffect.createWaveform`.
pub open spec fn waveform_timings(steps: Seq<(u64, u8)>) -> Seq<i64> {
    steps.map_values(|s: (u64, u8)| s.0 as i64)
}

/// The amplitude array handed to `VibrationEffect.createWaveform`.
pub open spec fn waveform_amplitudes(steps: Seq<(u64, u8)>) -> Seq<i32> {
    steps.map_values(|s: (u64, u8)| s.1 as i32)
}

/// The legacy fallback of a waveform, for devices without `createWaveform`: one
/// `vibrate(ms)` for the total time of the audible steps.
#[derive(Debug, Clone, Copy, PartialEq, Eq, Structural)]
pub enum LegacyFallback {
    /// No step is audible: nothing to play.
    Silent,
    /// Vibrate for this many milliseconds (the total, cast to `i64` as the legacy
    /// call takes it).
    Millis(i64),
    /// The total does not fit in `u64`: summing it is an arithmetic overflow.
    Overflow,
}

/// The legacy fallback of the waveform made of `steps`.
pub open spec fn legacy_fallback(steps: Seq<(u64, u8)>) -> LegacyFallback {
    if audible_ms(steps) == 0 {
        LegacyFallback::Silent
    } else if audible_ms(steps) <= u64::MAX {
        LegacyFallback::Millis(audible_ms(steps) as i64)
    } else {
        LegacyFallback::Overflow
    }
}

/// What the platform layer is asked to do with the device vibrator.
#[derive(Debug, Clone, PartialEq)]
pub enum VibrationRequest {
    /// Nothing to do.
    Idle,
    /// `VibrationEffect.createPredefined(effect_id)`; where that is unavailable, a
    /// one-shot of `fallback_ms` at `fallback_amplitude`.
    Predefined { effect_id: i32, fallback_ms: i64, fallback_amplitude: i32 },
    /// `VibrationEffect.createOneShot(ms, amplitude)`; where that is unavailable, the
    /// legacy `vibrate(ms)`.
    OneShot { ms: i64, amplitude: i32 },
    /// `VibrationEffect.createWaveform(timings, amplitudes, repeat)`; where that is
    /// unavailable, the legacy `vibrate(ms)` as `legacy` says.
    Waveform { timings: Vec<i64>, amplitudes: Vec<i32>, repeat: i32, legacy: LegacyFallback },
    /// `Vibrator.cancel()`.
    Cancel,
}

/// `r` is the request that plays the waveform made of `steps`.
pub open spec fn is_pattern_request(steps: Seq<(u64, u8)>, r: VibrationRequest) -> bool {
    if steps.len() == 0 {
        r is Idle
    } else {
        &&& r matches VibrationRequest::Waveform { timings, amplitudes, repeat, legacy }
        &&& r->timings@ == waveform_timings(steps)
        &&& r->amplitudes@ == waveform_amplitudes(steps)
        &&& r->repeat == -1i32
        &&& r->legacy == legacy_fallback(steps)
    }
}

/// The device vibrator.
pub struct Vibrator;

impl Vibrator {
    /// The request that plays a pre-defined effect.
    pub open spec fn play_spec(effect: Effect) -> VibrationRequest {
        VibrationRequest::Predefined {
            effect_id: predefined_effect_id(effect),
            fallback_ms: effect_fallback_ms(effect),
            fallback_amplitude: 255,
        }
    }

    /// Plays a pre-defined haptic effect.
    pub fn play(effect: Effect) -> (r: VibrationRequest)
        ensures
            r == Self::play_spec(effect),
    {
        let effect_id: i32 = match effect {
            Effect::Click => 0,
            Effect::DoubleClick => 1,
            Effect::Tick => 2,
            Effect::HeavyClick => 5,
        };
        let fallback_ms: i64 = match effect {
            Effect::Click | Effect::Tick => 30,
            Effect::DoubleClick => 60,
            Effect::HeavyClick => 80,
        };
        VibrationRequest::Predefined { effect_id, fallback_ms, fallback_amplitude: 255 }
    }

    /// Vibrates continuously for `duration`, at full amplitude.
    pub fn buzz(duration: Duration) -> (r: VibrationRequest)
        ensures
            r == (VibrationRequest::OneShot {
                ms: duration_as_millis(duration) as i64,
                amplitude: 255,
            }),
    {
        let ms = total_millis(duration) as i64;
        VibrationRequest::OneShot { ms, amplitude: 255 }
    }

    /// Plays a waveform pattern, once, step by step; an empty waveform does nothing.
    pub fn pattern(waveform: Waveform) -> (r: VibrationRequest)
        ensures
            is_pattern_request(waveform.steps@, r),
    {
        let steps = &waveform.steps;
        if steps.len() == 0 {
            return VibrationRequest::Idle;
        }
        let ghost all = steps@;
        let mut timings: Vec<i64> = Vec::new();
        let mut amplitudes: Vec<i32> = Vec::new();
        let mut total: u64 = 0;
        let mut overflow = false;
        let mut i: usize = 0;
        while i < steps.len()
            invariant
                all == steps@,
                0 <= i <= all.len(),
                timings@ == waveform_timings(all.take(i as int)),
                amplitudes@ == waveform_amplitudes(all.take(i as int)),
                overflow ==> audible_ms(all.take(i as int)) > u64::MAX,
                !overflow ==> total == audible_ms(all.take(i as int)),
            decreases all.len() - i,
        {
            let (ms, amp) = steps[i];
            proof {
                assert(all.take(i + 1).drop_last() =~= all.take(i as int));
            }
            timings.push(ms as i64);
            amplitudes.push(amp as i32);
            if amp > 0 && !overflow {
                match total.checked_add(ms) {
                    Some(t) => total = t,
                    None => overflow = true,
                }
            }
            i = i + 1;
            proof {
                assert(timings@ =~= waveform_timings(all.take(i as int)));
                assert(amplitudes@ =~= waveform_amplitudes(all.take(i as int)));
            }
        }
        proof {
            assert(all.take(i as int) =~= all);
        }
        let legacy = if overflow {
            LegacyFallback::Overflow
        } else if total > 0 {
            LegacyFallback::Millis(total as i64)
        } else {
            LegacyFallback::Silent
        };
        VibrationRequest::Waveform { timings, amplitudes, repeat: -1, legacy }
    }

    /// Alias for `pattern`.
    pub fn waveform(waveform: Waveform) -> (r: VibrationRequest)
        ensures
            is_pattern_request(waveform.steps@, r),
    {
        Self::pattern(waveform)
    }

    /// Stops any ongoing vibration.
    pub fn cancel() -> (r: VibrationRequest)
        ensures
            r is Cancel,
    {
        VibrationRequest::Cancel
    }
}

/// The audible total is never negative, and it is zero exactly when no step both
/// lasts and sounds.
proof fn lemma_audible_zero(steps: Seq<(u64, u8)>)
    ensures
        audible_ms(steps) >= 0,
        audible_ms(steps) == 0 <==> forall|i: int| 0 <= i < steps.len() ==> steps[i].0 == 0 || steps[i].1 == 0,
    decreases steps.len(),
{
    if steps.len() > 0 {
        let init = steps.drop_last();
        lemma_audible_zero(init);
        assert forall|i: int| 0 <= i < init.len() implies init[i] == steps[i] by {}
        if audible_ms(steps) == 0 {
            assert forall|i: int| 0 <= i < steps.len() implies steps[i].0 == 0 || steps[i].1 == 0 by {
                if i < init.len() {
                    assert(init[i] == steps[i]);
                }
            }
        } else {
            if forall|i: int| 0 <= i < steps.len() ==> steps[i].0 == 0 || steps[i].1 == 0 {
                assert(steps[steps.len() - 1] == steps.last());
                assert forall|i: int| 0 <= i < init.len() implies init[i].0 == 0 || init[i].1 == 0 by {
                    assert(init[i] == steps[i]);
                }
            }
        }
    }
}

/// Playing a waveform hands the platform its steps exactly as given, in order:
/// the `i`-th timing is the `i`-th step's duration and the `i`-th amplitude its
/// amplitude, played once (`repeat` is -1). An empty waveform plays nothing, and
/// the legacy fallback stays silent exactly when no step both lasts and sounds.
pub proof fn lemma_pattern_plays_steps_as_given(steps: Seq<(u64, u8)>, r: VibrationRequest)
    requires
        is_pattern_request(steps, r),
    ensures
        steps.len() == 0 <==> r is Idle,
        steps.len() > 0 ==> {
            &&& r is Waveform
            &&& r->timings@.len() == steps.len()
            &&& r->amplitudes@.len() == steps.len()
            &&& r->repeat == -1i32
            &&& forall|i: int|
                0 <= i < steps.len() ==> r->timings@[i] == steps[i].0 as i64 && r->amplitudes@[i]
                    == steps[i].1 as i32
            &&& (r->legacy is Silent <==> forall|i: int|
                0 <= i < steps.len() ==> steps[i].0 == 0 || steps[i].1 == 0)
        },
{
    lemma_audible_zero(steps);
}

} // verus!
