use loopback_auth::scheduler::{
    scheduler_step, sleep_seconds, SchedulerAction, SchedulerEvent, SchedulerState,
    NEAR_EXPIRY_RETRY_SECONDS, NO_TOKEN_RETRY_SECONDS, REFRESH_MARGIN_SECONDS,
};
use loopback_auth::token::{StoredToken, TokenResponse};

fn stored(issued_at: i64, expires_in: i64) -> Option<StoredToken> {
    Some(StoredToken::received(
        TokenResponse {
            access_token: "AT".to_string(),
            refresh_token: Some("RT".to_string()),
            expires_in,
            token_type: "Bearer".to_string(),
            id_token: None,
        },
        issued_at,
    ))
}

#[test]
fn sleep_ends_sixty_seconds_before_expiry() {
    assert_eq!(sleep_seconds(&stored(1700000000, 3600), 1700000000), 3540);
    assert_eq!(sleep_seconds(&stored(1700000000, 3600), 1700003539), 1);
}

#[test]
fn sleep_is_flat_near_or_past_expiry() {
    assert_eq!(sleep_seconds(&stored(1700000000, 3600), 1700003540), 300);
    assert_eq!(sleep_seconds(&stored(1700000000, 3600), 1700003600), 300);
    assert_eq!(sleep_seconds(&stored(1700000000, 3600), 1800000000), 300);
}

#[test]
fn sleep_without_a_token_is_a_minute() {
    assert_eq!(sleep_seconds(&None, 1700000000), 60);
}

#[test]
fn sleep_saturates_beyond_the_range() {
    assert_eq!(sleep_seconds(&stored(i64::MAX, i64::MAX), i64::MIN), u64::MAX);
    assert_eq!(sleep_seconds(&stored(i64::MAX, 0), 0), (i64::MAX as u64) - 60);
}

#[test]
fn scheduler_constants() {
    assert_eq!(REFRESH_MARGIN_SECONDS, 60);
    assert_eq!(NO_TOKEN_RETRY_SECONDS, 60);
    assert_eq!(NEAR_EXPIRY_RETRY_SECONDS, 300);
}

#[test]
fn timer_with_a_token_asks_for_a_refresh() {
    assert_eq!(
        scheduler_step(SchedulerState::Waiting, true, SchedulerEvent::TimerFired),
        (SchedulerState::Waiting, SchedulerAction::RefreshThenWait { margin_seconds: 60 })
    );
}

#[test]
fn timer_without_a_token_only_waits_again() {
    assert_eq!(
        scheduler_step(SchedulerState::Waiting, false, SchedulerEvent::TimerFired),
        (SchedulerState::Waiting, SchedulerAction::Wait)
    );
}

#[test]
fn cancellation_stops_the_loop_for_good() {
    let (state, action) =
        scheduler_step(SchedulerState::Waiting, true, SchedulerEvent::Signal(true));
    assert_eq!(state, SchedulerState::Cancelled);
    assert_eq!(action, SchedulerAction::Stop);
    for event in [SchedulerEvent::TimerFired, SchedulerEvent::Signal(false), SchedulerEvent::Signal(true)] {
        for present in [true, false] {
            assert_eq!(
                scheduler_step(state, present, event),
                (SchedulerState::Cancelled, SchedulerAction::Stop)
            );
        }
    }
}

#[test]
fn signal_that_is_not_a_cancellation_keeps_waiting() {
    assert_eq!(
        scheduler_step(SchedulerState::Waiting, true, SchedulerEvent::Signal(false)),
        (SchedulerState::Waiting, SchedulerAction::Wait)
    );
}
