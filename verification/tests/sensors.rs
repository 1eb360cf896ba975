use sharedroid::sensors::{PollDecision, SamplingRate, SensorPoll};

#[test]
fn sampling_intervals() {
    assert_eq!(SamplingRate::Normal.interval_ms(), 200);
    assert_eq!(SamplingRate::Ui.interval_ms(), 62);
    assert_eq!(SamplingRate::Game.interval_ms(), 20);
    assert_eq!(SamplingRate::Fastest.interval_ms(), 5);
    assert_eq!(SamplingRate::Normal.interval_us(), 200_000);
    assert_eq!(SamplingRate::Fastest.interval_us(), 5_000);
}

#[test]
fn poll_gives_up_at_the_51st_failure_in_a_row() {
    let mut p = SensorPoll::new();
    for _ in 0..50 {
        assert_eq!(p.on_events(-1), PollDecision::Retry);
    }
    assert_eq!(p.on_events(-1), PollDecision::GiveUp);
    assert_eq!(p.on_events(-1), PollDecision::GiveUp);
}

#[test]
fn poll_success_resets_the_count() {
    let mut p = SensorPoll::new();
    for _ in 0..50 {
        assert_eq!(p.on_events(-1), PollDecision::Retry);
    }
    assert_eq!(p.on_events(3), PollDecision::Deliver(3));
    for _ in 0..50 {
        assert_eq!(p.on_events(-2), PollDecision::Retry);
    }
    assert_eq!(p.on_events(0), PollDecision::Deliver(0));
}
