//! Background work: work requests and their constraints, the registry of enqueued
//! work, and the status that each run of a work closure leads to.

use std::future::Future;
use std::time::Duration;
use crate::durations::{duration_from_secs, duration_saturating_mul, scaled, seconds};
use crate::text::opt_text;
use vstd::prelude::*;
use vstd::string::*;

verus! {

/// Opaque identifier of an enqueued task.
#[derive(Debug, Clone, PartialEq, Eq, Hash)]
pub struct WorkId(String);

impl View for WorkId {
    type V = Seq<char>;

    closed spec fn view(&self) -> Seq<char> {
        self.0@
    }
}

/// A lowercase hexadecimal digit.
pub open spec fn is_lower_hex(c: char) -> bool {
    ('0' <= c <= '9') || ('a' <= c <= 'f')
}

/// The hyphenated text of a random (version 4) UUID: 36 characters, `-` at
/// positions 8, 13, 18 and 23, lowercase hexadecimal digits elsewhere, `4` at
/// position 14 and one of `8`, `9`, `a`, `b` at position 19.
pub open spec fn is_uuid_v4_text(s: Seq<char>) -> bool {
    &&& s.len() == 36
    &&& forall|i: int|
        0 <= i < 36 ==> if i == 8 || i == 13 || i == 18 || i == 23 {
            s[i] == '-'
        } else {
            is_lower_hex(s[i])
        }
    &&& s[14] == '4'
    &&& (s[19] == '8' || s[19] == '9' || s[19] == 'a' || s[19] == 'b')
}

/// Calls `uuid::Uuid::new_v4()` and formats it with `to_string`: a random UUID in
/// its hyphenated lowercase form, with the version digit `4` and an RFC 4122
/// variant digit. Which UUID comes out is left free.
#[verifier::external_body]
fn random_uuid_text() -> (s: String)
    ensures
        is_uuid_v4_text(s@),
{
    uuid::Uuid::new_v4().to_string()
}

impl WorkId {
    /// A fresh random identifier.
    fn new() -> (id: Self)
        ensures
            is_uuid_v4_text(id@),
    {
        WorkId(random_uuid_text())
    }

    /// The identifier's text.
    pub fn to_string(&self) -> (s: String)
        ensures
            s@ == self@,
    {
        self.0.clone()
    }

    /// Whether two identifiers are the same.
    pub fn same_as(&self, other: &WorkId) -> (r: bool)
        ensures
            r == (self@ == other@),
    {
        self.0 == other.0
    }
}

/// What a work closure reports.
#[derive(Debug, Clone, PartialEq, Eq, Structural)]
pub enum WorkResult {
    /// The work succeeded.
    Success,
    /// Permanent failure: the work is not tried again.
    Failure,
    /// Transient failure: the work is to be rescheduled with back-off.
    Retry,
}

/// Observable state of a task.
#[derive(Debug, Clone, PartialEq, Eq, Structural)]
pub enum WorkStatus {
    Enqueued,
    Running,
    Succeeded,
    Failed,
    Cancelled,
    /// Waiting for its constraints (network, battery, ...) or its initial delay.
    Blocked,
}

/// Conditions that must hold before a task runs.
#[derive(Debug, Clone)]
pub struct Constraints {
    /// Requires a network connection (any kind).
    pub requires_network: bool,
    /// Requires an unmetered network (Wi-Fi or Ethernet).
    pub requires_unmetered_network: bool,
    /// Requires the device to be charging.
    pub requires_charging: bool,
    /// Requires the battery level to be above the minimum.
    pub requires_battery_not_low: bool,
    /// Requires the device to be idle.
    pub requires_device_idle: bool,
    /// Requires available storage space.
    pub requires_storage_not_low: bool,
}

/// No condition at all.
pub open spec fn no_constraints(c: Constraints) -> bool {
    &&& !c.requires_network
    &&& !c.requires_unmetered_network
    &&& !c.requires_charging
    &&& !c.requires_battery_not_low
    &&& !c.requires_device_idle
    &&& !c.requires_storage_not_low
}

impl Default for Constraints {
    fn default() -> (c: Self)
        ensures
            no_constraints(c),
    {
        Constraints {
            requires_network: false,
            requires_unmetered_network: false,
            requires_charging: false,
            requires_battery_not_low: false,
            requires_device_idle: false,
            requires_storage_not_low: false,
        }
    }
}

impl Constraints {
    pub fn new() -> (c: Self)
        ensures
            no_constraints(c),
    {
        Self::default()
    }

    pub fn requires_network(self) -> (c: Self)
        ensures
            c == (Constraints { requires_network: true, ..self }),
    {
        let mut c = self;
        c.requires_network = true;
        c
    }

    pub fn requires_unmetered_network(self) -> (c: Self)
        ensures
            c == (Constraints { requires_unmetered_network: true, ..self }),
    {
        let mut c = self;
        c.requires_unmetered_network = true;
        c
    }

    pub fn requires_charging(self) -> (c: Self)
        ensures
            c == (Constraints { requires_charging: true, ..self }),
    {
        let mut c = self;
        c.requires_charging = true;
        c
    }

    pub fn requires_battery_not_low(self) -> (c: Self)
        ensures
            c == (Constraints { requires_battery_not_low: true, ..self }),
    {
        let mut c = self;
        c.requires_battery_not_low = true;
        c
    }

    pub fn requires_device_idle(self) -> (c: Self)
        ensures
            c == (Constraints { requires_device_idle: true, ..self }),
    {
        let mut c = self;
        c.requires_device_idle = true;
        c
    }
}

/// How a failed task is rescheduled.
#[derive(Debug, Clone)]
pub enum BackoffStrategy {
    Linear,
    Exponential,
}

/// Back-off applied before a task that asked for a retry runs again.
#[derive(Debug, Clone)]
pub struct BackoffPolicy {
    pub strategy: BackoffStrategy,
    pub initial_delay: Duration,
}

impl Default for BackoffPolicy {
    /// Exponential back-off starting at 30 seconds.
    fn default() -> (b: Self)
        ensures
            b.strategy is Exponential,
            b.initial_delay == duration_from_secs(30),
    {
        BackoffPolicy { strategy: BackoffStrategy::Exponential, initial_delay: seconds(30) }
    }
}

/// What the multiplier of the back-off delay is before retry number `attempt`
/// (counted from 1): the attempt number for linear back-off, a doubling from 1
/// for exponential back-off.
pub open spec fn backoff_factor(strategy: BackoffStrategy, attempt: nat) -> nat {
    match strategy {
        BackoffStrategy::Linear => attempt,
        BackoffStrategy::Exponential => doubling((attempt - 1) as nat),
    }
}

/// `2` to the power `k`.
pub open spec fn doubling(k: nat) -> nat
    decreases k,
{
    if k == 0 {
        1
    } else {
        2 * doubling((k - 1) as nat)
    }
}

/// `n`, or `u32::MAX` where it does not fit.
pub open spec fn clamp_u32(n: nat) -> u32 {
    if n <= u32::MAX {
        n as u32
    } else {
        u32::MAX
    }
}

/// The delay before retry number `attempt` (from 1): the initial delay times the
/// strategy's factor, saturating.
pub open spec fn retry_delay(policy: BackoffPolicy, attempt: nat) -> Duration {
    duration_saturating_mul(policy.initial_delay, clamp_u32(backoff_factor(policy.strategy, attempt)))
}

impl BackoffPolicy {
    /// The factor by which the initial delay grows before retry number `attempt`.
    pub fn factor(&self, attempt: u32) -> (f: u32)
        requires
            attempt >= 1,
        ensures
            f == clamp_u32(backoff_factor(self.strategy, attempt as nat)),
    {
        match self.strategy {
            BackoffStrategy::Linear => attempt,
            BackoffStrategy::Exponential => {
                let mut f: u32 = 1;
                let mut k: u32 = 1;
                while k < attempt
                    invariant
                        1 <= k <= attempt,
                        f == clamp_u32(doubling((k - 1) as nat)),
                    decreases attempt - k,
                {
                    if f > u32::MAX / 2 {
                        f = u32::MAX;
                    } else {
                        f = f * 2;
                    }
                    k = k + 1;
                }
                f
            },
        }
    }

    /// How long to wait before retry number `attempt` (from 1); the first retry
    /// waits the initial delay.
    pub fn delay_for(&self, attempt: u32) -> (d: Duration)
        requires
            attempt >= 1,
        ensures
            d == retry_delay(*self, attempt as nat),
            attempt == 1 ==> d == self.initial_delay,
    {
        let f = self.factor(attempt);
        scaled(self.initial_delay, f)
    }
}

/// Where a task stands: how it repeats, how it waits first, how it backs off, and
/// how many retries in a row it has asked for.
pub struct WorkRun {
    /// The interval of a periodic task; `None` for a one-time task.
    pub period: Option<Duration>,
    /// The delay before the first run of a one-time task.
    pub initial_delay: Option<Duration>,
    pub backoff: BackoffPolicy,
    /// Retries asked for since the last run that did not ask for one.
    pub retries: u32,
}

/// What happened to a task.
#[derive(Debug, Clone, PartialEq)]
pub enum WorkEvent {
    /// It was just enqueued.
    Enqueued,
    /// The wait that was asked for is over; `registered` tells whether the task is
    /// still registered (a cancelled task is not).
    WaitOver { registered: bool },
    /// Its work closure finished with this result.
    Finished(WorkResult),
}

/// What the runner of a task does next.
#[derive(Debug, Clone, PartialEq)]
pub enum WorkAction {
    /// Sleep for this long, then report `WaitOver`.
    Wait(Duration),
    /// Run the work closure, then report `Finished`.
    Run,
    /// Remove the task from the registry and stop.
    Remove,
    /// Stop (the task is already gone).
    Stop,
}

/// The statuses to report, in order, and what to do next.
pub struct WorkStep {
    pub reports: Vec<WorkStatus>,
    pub action: WorkAction,
}

/// How a task answers an event: its new state, the statuses it reports and what
/// it does next.
///
/// A one-time task without delay is `Enqueued`, then `Running`; with a delay it is
/// `Blocked` until the delay is over. A periodic task is `Enqueued` and runs after
/// each interval. A retry is `Enqueued` again and runs after the back-off delay;
/// a failure is `Failed` and removed; a one-time success is `Succeeded` and
/// removed, a periodic one waits for the next interval. A task no longer
/// registered when a wait is over stops.
pub open spec fn work_step(run: WorkRun, event: WorkEvent) -> (WorkRun, Seq<WorkStatus>, WorkAction) {
    match event {
        WorkEvent::Enqueued => match run.period {
            Some(p) => (run, seq![WorkStatus::Enqueued], WorkAction::Wait(p)),
            None => match run.initial_delay {
                Some(d) => (run, seq![WorkStatus::Blocked], WorkAction::Wait(d)),
                None => (run, seq![WorkStatus::Enqueued, WorkStatus::Running], WorkAction::Run),
            },
        },
        WorkEvent::WaitOver { registered } => if registered {
            (run, seq![WorkStatus::Running], WorkAction::Run)
        } else {
            (run, Seq::empty(), WorkAction::Stop)
        },
        WorkEvent::Finished(result) => match result {
            WorkResult::Success => match run.period {
                Some(p) => (WorkRun { retries: 0, ..run }, seq![WorkStatus::Succeeded], WorkAction::Wait(p)),
                None => (WorkRun { retries: 0, ..run }, seq![WorkStatus::Succeeded], WorkAction::Remove),
            },
            WorkResult::Failure => (WorkRun { retries: 0, ..run }, seq![WorkStatus::Failed], WorkAction::Remove),
            WorkResult::Retry => {
                let attempt = clamp_u32((run.retries + 1) as nat);
                (
                    WorkRun { retries: attempt, ..run },
                    seq![WorkStatus::Enqueued],
                    WorkAction::Wait(retry_delay(run.backoff, attempt as nat)),
                )
            },
        },
    }
}

impl WorkRun {
    /// A one-time task with the given initial delay and back-off.
    pub fn for_one_time(initial_delay: Option<Duration>, backoff: BackoffPolicy) -> (r: Self)
        ensures
            r == (WorkRun { period: None, initial_delay, backoff, retries: 0 }),
    {
        WorkRun { period: None, initial_delay, backoff, retries: 0 }
    }

    /// A periodic task with the given interval and back-off.
    pub fn for_periodic(interval: Duration, backoff: BackoffPolicy) -> (r: Self)
        ensures
            r == (WorkRun { period: Some(interval), initial_delay: None, backoff, retries: 0 }),
    {
        WorkRun { period: Some(interval), initial_delay: None, backoff, retries: 0 }
    }

    /// Answers an event: updates the task and returns what to report and do.
    pub fn step(&mut self, event: &WorkEvent) -> (s: WorkStep)
        ensures
            (*final(self), s.reports@, s.action) == work_step(*old(self), *event),
    {
        match event {
            WorkEvent::Enqueued => match self.period {
                Some(p) => WorkStep { reports: vec![WorkStatus::Enqueued], action: WorkAction::Wait(p) },
                None => match self.initial_delay {
                    Some(d) => WorkStep { reports: vec![WorkStatus::Blocked], action: WorkAction::Wait(d) },
                    None => WorkStep {
                        reports: vec![WorkStatus::Enqueued, WorkStatus::Running],
                        action: WorkAction::Run,
                    },
                },
            },
            WorkEvent::WaitOver { registered } => if *registered {
                WorkStep { reports: vec![WorkStatus::Running], action: WorkAction::Run }
            } else {
                WorkStep { reports: Vec::new(), action: WorkAction::Stop }
            },
            WorkEvent::Finished(result) => match result {
                WorkResult::Success => {
                    self.retries = 0;
                    match self.period {
                        Some(p) => WorkStep {
                            reports: vec![WorkStatus::Succeeded],
                            action: WorkAction::Wait(p),
                        },
                        None => WorkStep { reports: vec![WorkStatus::Succeeded], action: WorkAction::Remove },
                    }
                },
                WorkResult::Failure => {
                    self.retries = 0;
                    WorkStep { reports: vec![WorkStatus::Failed], action: WorkAction::Remove }
                },
                WorkResult::Retry => {
                    let attempt = if self.retries == u32::MAX {
                        u32::MAX
                    } else {
                        self.retries + 1
                    };
                    self.retries = attempt;
                    let delay = self.backoff.delay_for(attempt);
                    WorkStep { reports: vec![WorkStatus::Enqueued], action: WorkAction::Wait(delay) }
                },
            },
        }
    }
}

/// A retry is never reported as a failure and never removes the task: it is
/// enqueued again and runs after the back-off delay, whose factor is 1 for the
/// first retry (so that it waits the initial delay, see `delay_for`). Only a
/// failure, a finished one-time task or a cancellation ends a task; a periodic
/// success waits for the next interval.
pub proof fn lemma_retry_reschedules(run: WorkRun)
    ensures
        ({
            let (next, reports, action) = work_step(run, WorkEvent::Finished(WorkResult::Retry));
            &&& reports == seq![WorkStatus::Enqueued]
            &&& action == WorkAction::Wait(retry_delay(run.backoff, next.retries as nat))
            &&& run.retries == 0 ==> next.retries == 1 && backoff_factor(run.backoff.strategy, 1) == 1
        }),
        work_step(run, WorkEvent::Finished(WorkResult::Failure)).1 == seq![WorkStatus::Failed],
        work_step(run, WorkEvent::Finished(WorkResult::Failure)).2 == WorkAction::Remove,
        run.period is Some ==> work_step(run, WorkEvent::Finished(WorkResult::Success)).2
            == WorkAction::Wait(run.period->0),
        run.period is None ==> work_step(run, WorkEvent::Finished(WorkResult::Success)).2
            == WorkAction::Remove,
        work_step(run, WorkEvent::WaitOver { registered: false }).2 == WorkAction::Stop,
{
}

/// Enqueueing never runs a task before its time: a one-time task with an initial
/// delay `d` is `Blocked` and waits exactly `d`, a periodic task waits its
/// interval, and only a one-time task without delay runs at once. Enqueueing
/// changes nothing of the task itself.
pub proof fn lemma_enqueue_respects_delays(run: WorkRun)
    ensures
        ({
            let (next, reports, action) = work_step(run, WorkEvent::Enqueued);
            &&& next == run
            &&& (action is Run <==> run.period is None && run.initial_delay is None)
            &&& run.period is None && run.initial_delay is Some ==> reports == seq![WorkStatus::Blocked]
                && action == WorkAction::Wait(run.initial_delay->0)
            &&& run.period is None && run.initial_delay is None ==> reports == seq![
                WorkStatus::Enqueued,
                WorkStatus::Running,
            ] && action == WorkAction::Run
            &&& run.period is Some ==> reports == seq![WorkStatus::Enqueued] && action
                == WorkAction::Wait(run.period->0)
        }),
{
}

/// A one-time task without delay whose work succeeds reports `Enqueued`, then
/// `Running`, then `Succeeded`, and is removed.
pub proof fn lemma_one_time_success_sequence(backoff: BackoffPolicy)
    ensures
        ({
            let run = WorkRun { period: None, initial_delay: None, backoff, retries: 0 };
            let (run1, r1, a1) = work_step(run, WorkEvent::Enqueued);
            let (run2, r2, a2) = work_step(run1, WorkEvent::Finished(WorkResult::Success));
            &&& r1 + r2 == seq![WorkStatus::Enqueued, WorkStatus::Running, WorkStatus::Succeeded]
            &&& a1 == WorkAction::Run
            &&& a2 == WorkAction::Remove
        }),
{
    let run = WorkRun { period: None, initial_delay: None, backoff, retries: 0 };
    let (run1, r1, a1) = work_step(run, WorkEvent::Enqueued);
    let (run2, r2, a2) = work_step(run1, WorkEvent::Finished(WorkResult::Success));
    assert(r1 + r2 =~= seq![WorkStatus::Enqueued, WorkStatus::Running, WorkStatus::Succeeded]);
}

/// Linear back-off grows by the initial delay each retry; exponential back-off
/// doubles.
pub proof fn lemma_backoff_factors(attempt: nat)
    requires
        attempt >= 1,
    ensures
        backoff_factor(BackoffStrategy::Linear, attempt) == attempt,
        backoff_factor(BackoffStrategy::Exponential, attempt + 1) == 2 * backoff_factor(
            BackoffStrategy::Exponential,
            attempt,
        ),
        backoff_factor(BackoffStrategy::Exponential, 1) == 1,
{
}

/// A task that runs once, right away or after a delay.
pub struct OneTimeWorkRequest<F> {
    pub id: WorkId,
    pub tag: Option<String>,
    pub constraints: Constraints,
    pub initial_delay: Option<Duration>,
    pub backoff: BackoffPolicy,
    pub work: F,
}

impl<F> OneTimeWorkRequest<F> {
    /// A request that runs the async closure `work`, with a fresh id, no tag, no
    /// constraints, no delay and the default back-off.
    pub fn new<Fut>(work: F) -> (r: Self) where
        F: Fn() -> Fut + Send + Sync + 'static,
        Fut: Future<Output = WorkResult> + Send + 'static,

        ensures
            is_uuid_v4_text(r.id@),
            r.tag is None,
            no_constraints(r.constraints),
            r.initial_delay is None,
            r.backoff.strategy is Exponential,
            r.backoff.initial_delay == duration_from_secs(30),
            r.work == work,
    {
        OneTimeWorkRequest {
            id: WorkId::new(),
            tag: None,
            constraints: Constraints::default(),
            initial_delay: None,
            backoff: BackoffPolicy::default(),
            work,
        }
    }

    pub fn tag(self, tag: &str) -> (r: Self)
        ensures
            opt_text(r.tag) == Some(tag@),
            r.id == self.id,
            r.constraints == self.constraints,
            r.initial_delay == self.initial_delay,
            r.backoff == self.backoff,
            r.work == self.work,
    {
        let mut r = self;
        r.tag = Some(String::from_str(tag));
        r
    }

    pub fn constraints(self, c: Constraints) -> (r: Self)
        ensures
            r == (OneTimeWorkRequest { constraints: c, ..self }),
    {
        let mut r = self;
        r.constraints = c;
        r
    }

    pub fn initial_delay(self, d: Duration) -> (r: Self)
        ensures
            r == (OneTimeWorkRequest { initial_delay: Some(d), ..self }),
    {
        let mut r = self;
        r.initial_delay = Some(d);
        r
    }

    pub fn backoff(self, b: BackoffPolicy) -> (r: Self)
        ensures
            r == (OneTimeWorkRequest { backoff: b, ..self }),
    {
        let mut r = self;
        r.backoff = b;
        r
    }
}

/// A task that repeats at a fixed interval (at least 15 minutes on a device).
pub struct PeriodicWorkRequest<F> {
    pub id: WorkId,
    pub tag: Option<String>,
    pub interval: Duration,
    pub flex_interval: Option<Duration>,
    pub constraints: Constraints,
    pub backoff: BackoffPolicy,
    pub work: F,
}

impl<F> PeriodicWorkRequest<F> {
    /// A request that runs the async closure `work` every `interval`, with a fresh
    /// id, no tag, no flex window, no constraints and the default back-off.
    pub fn new<Fut>(interval: Duration, work: F) -> (r: Self) where
        F: Fn() -> Fut + Send + Sync + 'static,
        Fut: Future<Output = WorkResult> + Send + 'static,

        ensures
            is_uuid_v4_text(r.id@),
            r.tag is None,
            r.interval == interval,
            r.flex_interval is None,
            no_constraints(r.constraints),
            r.backoff.strategy is Exponential,
            r.backoff.initial_delay == duration_from_secs(30),
            r.work == work,
    {
        PeriodicWorkRequest {
            id: WorkId::new(),
            tag: None,
            interval,
            flex_interval: None,
            constraints: Constraints::default(),
            backoff: BackoffPolicy::default(),
            work,
        }
    }

    pub fn tag(self, tag: &str) -> (r: Self)
        ensures
            opt_text(r.tag) == Some(tag@),
            r.id == self.id,
            r.interval == self.interval,
            r.flex_interval == self.flex_interval,
            r.constraints == self.constraints,
            r.backoff == self.backoff,
            r.work == self.work,
    {
        let mut r = self;
        r.tag = Some(String::from_str(tag));
        r
    }

    pub fn constraints(self, c: Constraints) -> (r: Self)
        ensures
            r == (PeriodicWorkRequest { constraints: c, ..self }),
    {
        let mut r = self;
        r.constraints = c;
        r
    }

    /// The window within each interval in which the task may run, which lets the
    /// system batch work to save battery.
    pub fn flex_interval(self, d: Duration) -> (r: Self)
        ensures
            r == (PeriodicWorkRequest { flex_interval: Some(d), ..self }),
    {
        let mut r = self;
        r.flex_interval = Some(d);
        r
    }
}

/// Position of the first entry for `id`, or the number of entries where there is
/// none.
pub open spec fn index_of_id<S>(entries: Seq<(Seq<char>, S)>, id: Seq<char>) -> nat
    decreases entries.len(),
{
    if entries.len() == 0 {
        0
    } else if entries[0].0 == id {
        0
    } else {
        1 + index_of_id(entries.drop_first(), id)
    }
}

/// `i` is the position of the first entry for `id`.
pub proof fn lemma_index_of_found<S>(entries: Seq<(Seq<char>, S)>, id: Seq<char>, i: int)
    requires
        0 <= i < entries.len(),
        entries[i].0 == id,
        forall|j: int| 0 <= j < i ==> entries[j].0 != id,
    ensures
        index_of_id(entries, id) == i,
    decreases entries.len(),
{
    if i > 0 {
        let rest = entries.drop_first();
        assert forall|j: int| 0 <= j < i - 1 implies rest[j].0 != id by {
            assert(rest[j] == entries[j + 1]);
        }
        lemma_index_of_found(rest, id, i - 1);
    }
}

/// Without an entry for `id`, its position is the number of entries.
pub proof fn lemma_index_of_missing<S>(entries: Seq<(Seq<char>, S)>, id: Seq<char>)
    requires
        forall|j: int| 0 <= j < entries.len() ==> entries[j].0 != id,
    ensures
        index_of_id(entries, id) == entries.len(),
    decreases entries.len(),
{
    if entries.len() > 0 {
        let rest = entries.drop_first();
        assert forall|j: int| 0 <= j < rest.len() implies rest[j].0 != id by {
            assert(rest[j] == entries[j + 1]);
        }
        lemma_index_of_missing(rest, id);
    }
}

/// The position of an entry never passes the number of entries, and the entry at
/// a position within them is for `id`.
pub proof fn lemma_index_of_bounds<S>(entries: Seq<(Seq<char>, S)>, id: Seq<char>)
    ensures
        index_of_id(entries, id) <= entries.len(),
        index_of_id(entries, id) < entries.len() ==> entries[index_of_id(entries, id) as int].0
            == id,
        forall|j: int| 0 <= j < index_of_id(entries, id) ==> entries[j].0 != id,
    decreases entries.len(),
{
    if entries.len() > 0 && entries[0].0 != id {
        let rest = entries.drop_first();
        lemma_index_of_bounds(rest, id);
        assert forall|j: int| 0 <= j < index_of_id(entries, id) implies entries[j].0 != id by {
            if j > 0 {
                assert(entries[j] == rest[j - 1]);
            }
        }
    }
}

/// A task registered under an identifier that was not registered yet is found
/// under it, and removing it gives its handle back and leaves the registry as it
/// was before.
pub proof fn lemma_register_then_remove<S>(entries: Seq<(Seq<char>, S)>, id: Seq<char>, handle: S)
    requires
        forall|j: int| 0 <= j < entries.len() ==> entries[j].0 != id,
    ensures
        index_of_id(entries.push((id, handle)), id) == entries.len(),
        entries.push((id, handle))[entries.len() as int].1 == handle,
        entries.push((id, handle)).remove(entries.len() as int) == entries,
{
    let grown = entries.push((id, handle));
    assert forall|j: int| 0 <= j < entries.len() implies grown[j].0 != id by {
        assert(grown[j] == entries[j]);
    }
    lemma_index_of_found(grown, id, entries.len() as int);
    assert(grown.remove(entries.len() as int) =~= entries);
}

/// Registering another task does not change which entry an identifier finds, nor
/// makes a missing identifier found.
pub proof fn lemma_register_keeps_others<S>(
    entries: Seq<(Seq<char>, S)>,
    id: Seq<char>,
    other: Seq<char>,
    handle: S,
)
    requires
        other != id,
    ensures
        index_of_id(entries, id) < entries.len() ==> index_of_id(entries.push((other, handle)), id)
            == index_of_id(entries, id),
        index_of_id(entries, id) >= entries.len() ==> index_of_id(
            entries.push((other, handle)),
            id,
        ) == entries.len() + 1,
{
    let grown = entries.push((other, handle));
    lemma_index_of_bounds(entries, id);
    let i = index_of_id(entries, id) as int;
    if i < entries.len() {
        assert forall|j: int| 0 <= j < i implies grown[j].0 != id by {
            assert(grown[j] == entries[j]);
        }
        lemma_index_of_found(grown, id, i);
    } else {
        assert forall|j: int| 0 <= j < grown.len() implies grown[j].0 != id by {
            if j < entries.len() {
                assert(grown[j] == entries[j]);
            }
        }
        lemma_index_of_missing(grown, id);
    }
}

/// Once the only entry for an identifier is removed, the identifier is no longer
/// found.
pub proof fn lemma_remove_unique<S>(entries: Seq<(Seq<char>, S)>, id: Seq<char>, i: int)
    requires
        0 <= i < entries.len(),
        entries[i].0 == id,
        forall|j: int| 0 <= j < entries.len() && j != i ==> entries[j].0 != id,
    ensures
        index_of_id(entries, id) == i,
        index_of_id(entries.remove(i), id) == entries.len() - 1,
{
    lemma_index_of_found(entries, id, i);
    let rest = entries.remove(i);
    assert forall|j: int| 0 <= j < rest.len() implies rest[j].0 != id by {
        if j < i {
            assert(rest[j] == entries[j]);
        } else {
            assert(rest[j] == entries[j + 1]);
        }
    }
    lemma_index_of_missing(rest, id);
}

/// The enqueued tasks, each with the handle through which its status is reported.
pub struct WorkRegistry<S> {
    entries: Vec<(WorkId, S)>,
}

impl<S> View for WorkRegistry<S> {
    type V = Seq<(Seq<char>, S)>;

    closed spec fn view(&self) -> Seq<(Seq<char>, S)> {
        self.entries@.map_values(|e: (WorkId, S)| (e.0@, e.1))
    }
}

impl<S> WorkRegistry<S> {
    /// An empty registry.
    pub fn new() -> (r: Self)
        ensures
            r@ == Seq::<(Seq<char>, S)>::empty(),
    {
        let r = WorkRegistry { entries: Vec::new() };
        proof {
            assert(r@ =~= Seq::<(Seq<char>, S)>::empty());
        }
        r
    }

    /// Number of registered tasks.
    pub fn len(&self) -> (n: usize)
        ensures
            n == self@.len(),
    {
        self.entries.len()
    }

    /// Records a task at the end of the registry.
    pub fn register(&mut self, id: WorkId, handle: S)
        ensures
            final(self)@ == old(self)@.push((id@, handle)),
    {
        let ghost before = self.entries@;
        self.entries.push((id, handle));
        proof {
            assert(self.entries@.map_values(|e: (WorkId, S)| (e.0@, e.1)) =~= before.map_values(
                |e: (WorkId, S)| (e.0@, e.1),
            ).push((id@, handle)));
        }
    }

    /// Position of the first entry for `id`, if there is one.
    fn position(&self, id: &WorkId) -> (r: usize)
        ensures
            r == index_of_id(self@, id@),
    {
        let mut i: usize = 0;
        while i < self.entries.len()
            invariant
                0 <= i <= self.entries@.len(),
                forall|j: int| 0 <= j < i ==> self@[j].0 != id@,
            decreases self.entries@.len() - i,
        {
            if self.entries[i].0.same_as(id) {
                proof {
                    lemma_index_of_found(self@, id@, i as int);
                }
                return i;
            }
            i = i + 1;
        }
        proof {
            lemma_index_of_missing(self@, id@);
        }
        i
    }

    /// Takes out the first entry for `id` and returns its handle; `None`, with the
    /// registry unchanged, where there is none.
    pub fn remove(&mut self, id: &WorkId) -> (r: Option<S>)
        ensures
            ({
                let i = index_of_id(old(self)@, id@) as int;
                if i < old(self)@.len() {
                    r == Some(old(self)@[i].1) && final(self)@ == old(self)@.remove(i)
                } else {
                    r is None && final(self)@ == old(self)@
                }
            }),
    {
        let i = self.position(id);
        if i < self.entries.len() {
            let ghost before = self.entries@;
            let (_, handle) = self.entries.remove(i);
            proof {
                assert(self.entries@.map_values(|e: (WorkId, S)| (e.0@, e.1)) =~= before.map_values(
                    |e: (WorkId, S)| (e.0@, e.1),
                ).remove(i as int));
            }
            Some(handle)
        } else {
            None
        }
    }

    /// The handle of the first entry for `id`.
    pub fn find(&self, id: &WorkId) -> (r: Option<&S>)
        ensures
            ({
                let i = index_of_id(self@, id@) as int;
                if i < self@.len() {
                    r matches Some(h) && *h == self@[i].1
                } else {
                    r is None
                }
            }),
    {
        let i = self.position(id);
        if i < self.entries.len() {
            Some(&self.entries[i].1)
        } else {
            None
        }
    }

    /// Takes out every entry and returns their handles, in order.
    pub fn drain_all(&mut self) -> (handles: Vec<S>)
        ensures
            final(self)@ == Seq::<(Seq<char>, S)>::empty(),
            handles@ == old(self)@.map_values(|e: (Seq<char>, S)| e.1),
    {
        let mut taken: Vec<(WorkId, S)> = Vec::new();
        std::mem::swap(&mut taken, &mut self.entries);
        let ghost hs = taken@.map_values(|e: (WorkId, S)| e.1);
        proof {
            assert(hs =~= old(self)@.map_values(|e: (Seq<char>, S)| e.1));
            assert(self@ =~= Seq::<(Seq<char>, S)>::empty());
        }
        let mut reversed: Vec<S> = Vec::new();
        while taken.len() > 0
            invariant
                hs == taken@.map_values(|e: (WorkId, S)| e.1) + reversed@.reverse(),
            decreases taken@.len(),
        {
            let ghost before = taken@;
            let e = taken.pop().unwrap();
            let ghost rev_before = reversed@;
            reversed.push(e.1);
            proof {
                assert(before.map_values(|e: (WorkId, S)| e.1) =~= taken@.map_values(
                    |e: (WorkId, S)| e.1,
                ).push(e.1));
                assert(reversed@.reverse() =~= seq![e.1] + rev_before.reverse());
                assert(hs =~= taken@.map_values(|e: (WorkId, S)| e.1) + reversed@.reverse());
            }
        }
        proof {
            assert(hs =~= reversed@.reverse());
        }
        let mut handles: Vec<S> = Vec::new();
        while reversed.len() > 0
            invariant
                hs == handles@ + reversed@.reverse(),
            decreases reversed@.len(),
        {
            let ghost rev_before = reversed@;
            let h = reversed.pop().unwrap();
            handles.push(h);
            proof {
                assert(rev_before.reverse() =~= seq![h] + reversed@.reverse());
                assert(hs =~= handles@ + reversed@.reverse());
            }
        }
        proof {
            assert(hs =~= handles@);
        }
        handles
    }
}

} // verus!
