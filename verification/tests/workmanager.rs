use sharedroid::workmanager::{
    BackoffPolicy, BackoffStrategy, Constraints, OneTimeWorkRequest, PeriodicWorkRequest, WorkAction,
    WorkEvent, WorkRegistry, WorkResult, WorkRun, WorkStatus,
};
use std::time::Duration;

async fn ok() -> WorkResult {
    WorkResult::Success
}

#[test]
fn constraints_builders_set_one_flag_each() {
    let c = Constraints::new();
    assert!(!c.requires_network && !c.requires_charging && !c.requires_storage_not_low);
    let c = Constraints::new().requires_network().requires_charging();
    assert!(c.requires_network && c.requires_charging);
    assert!(!c.requires_unmetered_network && !c.requires_battery_not_low && !c.requires_device_idle);
    let c = Constraints::new().requires_unmetered_network().requires_battery_not_low().requires_device_idle();
    assert!(c.requires_unmetered_network && c.requires_battery_not_low && c.requires_device_idle);
    assert!(!c.requires_network);
}

#[test]
fn default_backoff_is_exponential_30s() {
    let b = BackoffPolicy::default();
    assert!(matches!(b.strategy, BackoffStrategy::Exponential));
    assert_eq!(b.initial_delay, Duration::from_secs(30));
}

#[test]
fn one_time_request_defaults_and_builders() {
    let r = OneTimeWorkRequest::new(ok);
    assert_eq!(r.id.to_string().len(), 36);
    assert!(r.tag.is_none() && r.initial_delay.is_none());
    let r = r
        .tag("sync")
        .constraints(Constraints::new().requires_network())
        .initial_delay(Duration::from_millis(250))
        .backoff(BackoffPolicy { strategy: BackoffStrategy::Linear, initial_delay: Duration::from_secs(5) });
    assert_eq!(r.tag.as_deref(), Some("sync"));
    assert!(r.constraints.requires_network);
    assert_eq!(r.initial_delay, Some(Duration::from_millis(250)));
    assert!(matches!(r.backoff.strategy, BackoffStrategy::Linear));
}

#[test]
fn periodic_request_defaults_and_builders() {
    let r = PeriodicWorkRequest::new(Duration::from_secs(900), ok);
    assert_eq!(r.interval, Duration::from_secs(900));
    assert!(r.flex_interval.is_none());
    let r = r.tag("p").flex_interval(Duration::from_secs(60)).constraints(Constraints::new().requires_charging());
    assert_eq!(r.flex_interval, Some(Duration::from_secs(60)));
    assert_eq!(r.tag.as_deref(), Some("p"));
    assert!(r.constraints.requires_charging);
}

fn is_uuid_v4(s: &str) -> bool {
    let b = s.as_bytes();
    b.len() == 36
        && b.iter().enumerate().all(|(i, c)| match i {
            8 | 13 | 18 | 23 => *c == b'-',
            _ => c.is_ascii_digit() || (b'a'..=b'f').contains(c),
        })
        && b[14] == b'4'
        && b"89ab".contains(&b[19])
}

#[test]
fn fresh_ids_are_v4_uuids() {
    let a = OneTimeWorkRequest::new(ok).id;
    assert!(is_uuid_v4(&a.to_string()));
    assert!(a.same_as(&a.clone()));
    let p = PeriodicWorkRequest::new(Duration::from_secs(1), ok).id;
    assert!(is_uuid_v4(&p.to_string()));
}

fn policy(strategy: BackoffStrategy, secs: u64) -> BackoffPolicy {
    BackoffPolicy { strategy, initial_delay: Duration::from_secs(secs) }
}

#[test]
fn one_time_success_reports_enqueued_running_succeeded() {
    let mut run = WorkRun::for_one_time(None, BackoffPolicy::default());
    let s = run.step(&WorkEvent::Enqueued);
    assert_eq!(s.reports, vec![WorkStatus::Enqueued, WorkStatus::Running]);
    assert_eq!(s.action, WorkAction::Run);
    let s = run.step(&WorkEvent::Finished(WorkResult::Success));
    assert_eq!(s.reports, vec![WorkStatus::Succeeded]);
    assert_eq!(s.action, WorkAction::Remove);
}

#[test]
fn one_time_delay_blocks_then_runs() {
    let mut run = WorkRun::for_one_time(Some(Duration::from_millis(250)), BackoffPolicy::default());
    let s = run.step(&WorkEvent::Enqueued);
    assert_eq!(s.reports, vec![WorkStatus::Blocked]);
    assert_eq!(s.action, WorkAction::Wait(Duration::from_millis(250)));
    let s = run.step(&WorkEvent::WaitOver { registered: true });
    assert_eq!(s.reports, vec![WorkStatus::Running]);
    assert_eq!(s.action, WorkAction::Run);
    let s = run.step(&WorkEvent::WaitOver { registered: false });
    assert!(s.reports.is_empty());
    assert_eq!(s.action, WorkAction::Stop);
}

#[test]
fn one_time_retry_is_rescheduled_with_backoff() {
    let mut run = WorkRun::for_one_time(None, policy(BackoffStrategy::Exponential, 30));
    run.step(&WorkEvent::Enqueued);
    let s = run.step(&WorkEvent::Finished(WorkResult::Retry));
    assert_eq!(s.reports, vec![WorkStatus::Enqueued]);
    assert_eq!(s.action, WorkAction::Wait(Duration::from_secs(30)));
    let s = run.step(&WorkEvent::Finished(WorkResult::Retry));
    assert_eq!(s.action, WorkAction::Wait(Duration::from_secs(60)));
    let s = run.step(&WorkEvent::Finished(WorkResult::Retry));
    assert_eq!(s.action, WorkAction::Wait(Duration::from_secs(120)));
    assert_eq!(run.retries, 3);
    let s = run.step(&WorkEvent::Finished(WorkResult::Failure));
    assert_eq!(s.reports, vec![WorkStatus::Failed]);
    assert_eq!(s.action, WorkAction::Remove);
}

#[test]
fn linear_backoff_grows_by_the_initial_delay() {
    let p = policy(BackoffStrategy::Linear, 10);
    assert_eq!(p.delay_for(1), Duration::from_secs(10));
    assert_eq!(p.delay_for(4), Duration::from_secs(40));
    assert_eq!(p.factor(7), 7);
}

#[test]
fn exponential_factor_saturates() {
    let p = policy(BackoffStrategy::Exponential, 1);
    assert_eq!(p.factor(1), 1);
    assert_eq!(p.factor(32), 1 << 31);
    assert_eq!(p.factor(33), u32::MAX);
    assert_eq!(p.factor(u32::MAX), u32::MAX);
    assert_eq!(p.delay_for(33), Duration::from_secs(1).saturating_mul(u32::MAX));
}

#[test]
fn periodic_runs_every_interval_until_failure() {
    let mut run = WorkRun::for_periodic(Duration::from_secs(900), policy(BackoffStrategy::Linear, 5));
    let s = run.step(&WorkEvent::Enqueued);
    assert_eq!(s.reports, vec![WorkStatus::Enqueued]);
    assert_eq!(s.action, WorkAction::Wait(Duration::from_secs(900)));
    let s = run.step(&WorkEvent::WaitOver { registered: true });
    assert_eq!(s.action, WorkAction::Run);
    let s = run.step(&WorkEvent::Finished(WorkResult::Retry));
    assert_eq!(s.action, WorkAction::Wait(Duration::from_secs(5)));
    let s = run.step(&WorkEvent::Finished(WorkResult::Success));
    assert_eq!(s.reports, vec![WorkStatus::Succeeded]);
    assert_eq!(s.action, WorkAction::Wait(Duration::from_secs(900)));
    assert_eq!(run.retries, 0);
    let s = run.step(&WorkEvent::Finished(WorkResult::Failure));
    assert_eq!(s.action, WorkAction::Remove);
}

#[test]
fn registry_register_find_remove() {
    let a = OneTimeWorkRequest::new(ok).id;
    let b = OneTimeWorkRequest::new(ok).id;
    let mut reg: WorkRegistry<u32> = WorkRegistry::new();
    reg.register(a.clone(), 1);
    reg.register(b.clone(), 2);
    assert_eq!(reg.len(), 2);
    assert_eq!(reg.find(&a), Some(&1));
    assert_eq!(reg.find(&b), Some(&2));
    assert_eq!(reg.remove(&a), Some(1));
    assert_eq!(reg.find(&a), None);
    assert_eq!(reg.remove(&a), None);
    assert_eq!(reg.len(), 1);
}

#[test]
fn registry_drain_all_in_order() {
    let mut reg: WorkRegistry<&str> = WorkRegistry::new();
    for name in ["x", "y", "z"] {
        reg.register(OneTimeWorkRequest::new(ok).id, name);
    }
    assert_eq!(reg.drain_all(), vec!["x", "y", "z"]);
    assert_eq!(reg.len(), 0);
}

#[test]
fn backoff_and_constraints_clone_keep_values() {
    let b = BackoffPolicy { strategy: BackoffStrategy::Linear, initial_delay: Duration::from_millis(1234) };
    let c = b.clone();
    assert_eq!(c.initial_delay, Duration::from_millis(1234));
    assert!(matches!(c.strategy, BackoffStrategy::Linear));
    let k = Constraints::new().requires_device_idle().clone();
    assert!(k.requires_device_idle);
}
