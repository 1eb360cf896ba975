//! Motion and environment sensors: which sensor, how often it is sampled, and when
//! a native event queue that keeps failing is given up.

use vstd::prelude::*;

verus! {

/// A hardware sensor.
#[derive(Debug, Clone, Copy, PartialEq, Eq, Structural)]
pub enum Sensor {
    Accelerometer,
    Gyroscope,
    Magnetometer,
    Barometer,
    Light,
    Proximity,
    StepCounter,
    RotationVector,
}

/// How often a sensor is sampled.
#[derive(Debug, Clone, Copy, PartialEq, Eq, Structural)]
pub enum SamplingRate {
    /// ~5 Hz (200 ms)
    Normal,
    /// ~16 Hz (62 ms)
    Ui,
    /// ~50 Hz (20 ms)
    Game,
    /// Fastest rate (5 ms)
    Fastest,
}

/// The sampling period of a rate, in milliseconds.
pub open spec fn period_ms(rate: SamplingRate) -> u64 {
    match rate {
        SamplingRate::Normal => 200,
        SamplingRate::Ui => 62,
        SamplingRate::Game => 20,
        SamplingRate::Fastest => 5,
    }
}

impl SamplingRate {
    /// The sampling period in milliseconds.
    pub fn interval_ms(self) -> (ms: u64)
        ensures
            ms == period_ms(self),
    {
        match self {
            SamplingRate::Normal => 200,
            SamplingRate::Ui => 62,
            SamplingRate::Game => 20,
            SamplingRate::Fastest => 5,
        }
    }

    /// The sampling period in microseconds, as the native event queue takes it.
    pub fn interval_us(self) -> (us: i32)
        ensures
            us == period_ms(self) * 1000,
    {
        (self.interval_ms() * 1000) as i32
    }
}

/// A faster rate never has a longer period.
pub proof fn lemma_rates_ordered()
    ensures
        period_ms(SamplingRate::Fastest) < period_ms(SamplingRate::Game) < period_ms(SamplingRate::Ui)
            < period_ms(SamplingRate::Normal),
{
}

/// How many failed reads in a row are tolerated (about five seconds of polling).
pub open spec fn max_consecutive_errors() -> nat {
    50
}

/// What to do after reading the native event queue.
#[derive(Debug, Clone, Copy, PartialEq, Eq, Structural)]
pub enum PollDecision {
    /// Deliver that many events from the buffer.
    Deliver(usize),
    /// A transient failure: poll again.
    Retry,
    /// Too many failures in a row: disable the sensor and stop.
    GiveUp,
}

/// The failures counted after a read that returned `n`, starting from `failures`.
pub open spec fn failures_after(failures: nat, n: int) -> nat {
    if n >= 0 {
        0
    } else if failures + 1 > max_consecutive_errors() {
        max_consecutive_errors() + 1
    } else {
        failures + 1
    }
}

/// The decision after a read that returned `n`, with `failures` failures before it.
pub open spec fn decision_after(failures: nat, n: int) -> PollDecision {
    if n >= 0 {
        PollDecision::Deliver(n as usize)
    } else if failures + 1 > max_consecutive_errors() {
        PollDecision::GiveUp
    } else {
        PollDecision::Retry
    }
}

/// Counts consecutive failed reads of a sensor event queue.
pub struct SensorPoll {
    consecutive_errors: u32,
}

impl SensorPoll {
    /// Number of failed reads since the last successful one.
    pub closed spec fn failures(&self) -> nat {
        self.consecutive_errors as nat
    }

    /// The count never passes the point at which the queue is given up.
    pub closed spec fn well_formed(&self) -> bool {
        self.consecutive_errors <= 51
    }

    pub fn new() -> (p: Self)
        ensures
            p.failures() == 0,
            p.well_formed(),
    {
        SensorPoll { consecutive_errors: 0 }
    }

    /// Records the result `n` of `ASensorEventQueue_getEvents` (negative on failure).
    pub fn on_events(&mut self, n: isize) -> (d: PollDecision)
        requires
            old(self).well_formed(),
        ensures
            final(self).well_formed(),
            final(self).failures() == failures_after(old(self).failures(), n as int),
            d == decision_after(old(self).failures(), n as int),
    {
        if n < 0 {
            if self.consecutive_errors >= 50 {
                self.consecutive_errors = 51;
                PollDecision::GiveUp
            } else {
                self.consecutive_errors = self.consecutive_errors + 1;
                PollDecision::Retry
            }
        } else {
            self.consecutive_errors = 0;
            PollDecision::Deliver(n as usize)
        }
    }
}

/// Failures counted over `k` failed reads in a row, from a fresh count.
pub open spec fn failures_over(k: nat) -> nat
    decreases k,
{
    if k == 0 {
        0
    } else {
        failures_after(failures_over((k - 1) as nat), -1)
    }
}

/// A queue is retried through its first 50 failures in a row and given up at
/// the 51st; any successful read in between starts the count again.
pub proof fn lemma_gives_up_at_51st_failure(k: nat)
    ensures
        failures_over(k) == if k <= 51 {
            k
        } else {
            51
        },
        k < 50 ==> decision_after(failures_over(k), -1) == PollDecision::Retry,
        k >= 50 ==> decision_after(failures_over(k), -1) == PollDecision::GiveUp,
        forall|n: int| n >= 0 ==> failures_after(failures_over(k), n) == 0,
    decreases k,
{
    if k > 0 {
        lemma_gives_up_at_51st_failure((k - 1) as nat);
    }
}

} // verus!
