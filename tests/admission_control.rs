use tarussh::admission::{acceptor_step, count_after_event, AcceptorAction, CountEvent, LiveCount};

#[test]
fn acceptor_accepts_below_ceiling() {
    assert_eq!(acceptor_step(0, 2048, false), AcceptorAction::Accept);
    assert_eq!(acceptor_step(2047, 2048, false), AcceptorAction::Accept);
}

#[test]
fn acceptor_backs_off_at_ceiling() {
    assert_eq!(acceptor_step(2048, 2048, false), AcceptorAction::Backoff);
    assert_eq!(acceptor_step(3000, 2048, false), AcceptorAction::Backoff);
    assert_eq!(acceptor_step(0, 0, false), AcceptorAction::Backoff);
}

#[test]
fn acceptor_stops_on_shutdown() {
    assert_eq!(acceptor_step(0, 2048, true), AcceptorAction::Stop);
    assert_eq!(acceptor_step(5000, 2048, true), AcceptorAction::Stop);
}

#[test]
fn single_slot_holds_second_client_until_first_leaves() {
    let mut count = LiveCount::new();
    assert_eq!(acceptor_step(count.live, 1, false), AcceptorAction::Accept);
    assert_eq!(count.record(CountEvent::Admitted), 1);
    // The second client waits in the backlog while the first one is live.
    for _ in 0..5 {
        assert_eq!(acceptor_step(count.live, 1, false), AcceptorAction::Backoff);
        assert_eq!(count.live, 1);
    }
    assert_eq!(count.record(CountEvent::Terminated), 0);
    assert_eq!(acceptor_step(count.live, 1, false), AcceptorAction::Accept);
    assert_eq!(count.record(CountEvent::Admitted), 1);
}

#[test]
fn count_is_admissions_minus_terminations() {
    let mut count = LiveCount::new();
    for _ in 0..7 {
        count.record(CountEvent::Admitted);
    }
    for _ in 0..3 {
        count.record(CountEvent::Terminated);
    }
    assert_eq!(count.live, 4);
    count.record(CountEvent::Admitted);
    assert_eq!(count.record(CountEvent::Terminated), 4);
}

#[test]
fn count_after_event_from_previous_value() {
    assert_eq!(count_after_event(0, CountEvent::Admitted), Some(1));
    assert_eq!(count_after_event(5, CountEvent::Terminated), Some(4));
    assert_eq!(count_after_event(1, CountEvent::Terminated), Some(0));
}

#[test]
fn count_after_event_out_of_range() {
    assert_eq!(count_after_event(u32::MAX, CountEvent::Admitted), None);
    assert_eq!(count_after_event(0, CountEvent::Terminated), None);
}
