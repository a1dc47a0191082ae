use oracle::poll::{
    classify_status, next_poll_delay, should_poll_status, BackoffState, Status,
    POLL_MAX_DELAY_MS, POLL_START_DELAY_MS, POLL_TIMEOUT_MS,
};

#[test]
fn running_statuses_are_polled() {
    assert!(should_poll_status("queued"));
    assert!(should_poll_status("in_progress"));
    assert!(should_poll_status("cancelling"));
    assert!(!should_poll_status("completed"));
    assert!(!should_poll_status("incomplete"));
    assert!(!should_poll_status("failed"));
    assert!(!should_poll_status("requires_action"));
    assert!(!should_poll_status("cancelled"));
    assert!(!should_poll_status("Queued"));
    assert!(!should_poll_status(""));
    assert!(!should_poll_status("unknown"));
}

#[test]
fn statuses_are_classified_by_name() {
    assert_eq!(classify_status("queued"), Status::Queued);
    assert_eq!(classify_status("in_progress"), Status::InProgress);
    assert_eq!(classify_status("cancelling"), Status::Cancelling);
    assert_eq!(classify_status("completed"), Status::Completed);
    assert_eq!(classify_status("incomplete"), Status::Incomplete);
    assert_eq!(classify_status("failed"), Status::Failed);
    assert_eq!(classify_status("requires_action"), Status::RequiresAction);
    assert_eq!(classify_status("cancelled"), Status::Cancelled);
    assert_eq!(classify_status("unknown"), Status::Unexpected);
    assert_eq!(classify_status("COMPLETED"), Status::Unexpected);
    assert_eq!(classify_status(" queued"), Status::Unexpected);
}

#[test]
fn delays_grow_by_half_up_to_the_cap() {
    assert_eq!(next_poll_delay(0), 500);
    assert_eq!(next_poll_delay(500), 750);
    assert_eq!(next_poll_delay(750), 1125);
    assert_eq!(next_poll_delay(1125), 1687);
    assert_eq!(next_poll_delay(1687), 2530);
    assert_eq!(next_poll_delay(2530), 3795);
    assert_eq!(next_poll_delay(3795), 5000);
    assert_eq!(next_poll_delay(5000), 5000);
    assert_eq!(next_poll_delay(3333), 4999);
    assert_eq!(next_poll_delay(3334), 5000);
    assert_eq!(next_poll_delay(1), 1);
    assert_eq!(next_poll_delay(2), 3);
    assert_eq!(next_poll_delay(u64::MAX), 5000);
}

#[test]
fn waiting_follows_the_schedule_until_the_deadline() {
    let mut backoff = BackoffState::new();
    assert_eq!(backoff.delay_ms(), POLL_START_DELAY_MS);
    assert_eq!(backoff.elapsed_ms(), 0);
    assert!(!backoff.timed_out());

    let mut delays = Vec::new();
    while let Some(delay) = backoff.wait() {
        assert!(delay <= POLL_MAX_DELAY_MS);
        assert!(backoff.elapsed_ms() - delay < POLL_TIMEOUT_MS);
        delays.push(delay);
    }
    assert_eq!(&delays[..7], &[500, 750, 1125, 1687, 2530, 3795, 5000]);
    assert!(delays[7..].iter().all(|delay| *delay == 5000));
    assert_eq!(delays.len(), 28);
    assert_eq!(backoff.elapsed_ms(), 120_387);
    assert!(backoff.timed_out());
    assert_eq!(backoff.delay_ms(), 5000);

    assert_eq!(backoff.wait(), None);
    assert_eq!(backoff.elapsed_ms(), 120_387);
}
