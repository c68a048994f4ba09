//! The background refresh scheduler: how long it sleeps, and the two-edge
//! state machine that a timer and a cancellation signal drive.

use vstd::prelude::*;
use crate::token::{StoredToken, StoredModel, expires_at, stored_model};

verus! {

/// Safety window, in seconds, that the scheduler keeps before the expiry instant.
pub const REFRESH_MARGIN_SECONDS: i64 = 60;

/// Sleep, in seconds, while the store holds no token for the session's user.
pub const NO_TOKEN_RETRY_SECONDS: u64 = 60;

/// Sleep, in seconds, once the stored token is within the margin of its expiry or past it.
pub const NEAR_EXPIRY_RETRY_SECONDS: u64 = 300;

/// The sleep before the next wake: none stored gives the short retry; a token
/// with more than the margin left gives the time up to the margin; otherwise
/// the flat near-expiry retry.
pub open spec fn refresh_delay(stored: Option<StoredModel>, now: int) -> int {
    match stored {
        None => 60,
        Some(s) => if expires_at(s) - now - 60 > 0 {
            expires_at(s) - now - 60
        } else {
            300
        },
    }
}

/// Computes [`refresh_delay`]; a delay beyond the range of `u64` is reported as `u64::MAX`.
pub fn sleep_seconds(stored: &Option<StoredToken>, now: i64) -> (secs: u64)
    ensures
        refresh_delay(stored_model(*stored), now as int) <= u64::MAX ==> secs == refresh_delay(
            stored_model(*stored),
            now as int,
        ),
        refresh_delay(stored_model(*stored), now as int) > u64::MAX ==> secs == u64::MAX,
        secs > 0,
{
    match stored {
        None => NO_TOKEN_RETRY_SECONDS,
        Some(s) => {
            let left: i128 = s.expires_at() - now as i128 - REFRESH_MARGIN_SECONDS as i128;
            if left > 0 {
                if left > u64::MAX as i128 {
                    u64::MAX
                } else {
                    left as u64
                }
            } else {
                NEAR_EXPIRY_RETRY_SECONDS
            }
        },
    }
}

/// The scheduler either waits for its next wake or has been cancelled for good.
#[derive(Clone, Copy, Debug, PartialEq, Eq, Structural)]
pub enum SchedulerState {
    Waiting,
    Cancelled,
}

/// What ended a wait: the timer, or a change of the cancellation signal to the given value.
#[derive(Clone, Copy, Debug, PartialEq, Eq, Structural)]
pub enum SchedulerEvent {
    TimerFired,
    Signal(bool),
}

/// What the driver of the scheduler does next.
#[derive(Clone, Copy, Debug, PartialEq, Eq, Structural)]
pub enum SchedulerAction {
    /// Ensure a valid token with this margin, ignore any failure, then wait again.
    RefreshThenWait { margin_seconds: i64 },
    /// Reload the stored token and wait again, without any refresh call.
    Wait,
    /// Leave the loop.
    Stop,
}

/// One wake of the scheduler. `token_present` says whether the wait that just
/// ended had been computed from a stored token.
pub open spec fn step(state: SchedulerState, token_present: bool, event: SchedulerEvent) -> (
    SchedulerState,
    SchedulerAction,
) {
    match state {
        SchedulerState::Cancelled => (SchedulerState::Cancelled, SchedulerAction::Stop),
        SchedulerState::Waiting => match event {
            SchedulerEvent::Signal(true) => (SchedulerState::Cancelled, SchedulerAction::Stop),
            SchedulerEvent::Signal(false) => (SchedulerState::Waiting, SchedulerAction::Wait),
            SchedulerEvent::TimerFired => if token_present {
                (SchedulerState::Waiting, SchedulerAction::RefreshThenWait { margin_seconds: 60 })
            } else {
                (SchedulerState::Waiting, SchedulerAction::Wait)
            },
        },
    }
}

/// Advances the scheduler by one wake and says what to do next.
pub fn scheduler_step(state: SchedulerState, token_present: bool, event: SchedulerEvent) -> (r: (
    SchedulerState,
    SchedulerAction,
))
    ensures
        r == step(state, token_present, event),
{
    match state {
        SchedulerState::Cancelled => (SchedulerState::Cancelled, SchedulerAction::Stop),
        SchedulerState::Waiting => match event {
            SchedulerEvent::Signal(cancel) => if cancel {
                (SchedulerState::Cancelled, SchedulerAction::Stop)
            } else {
                (SchedulerState::Waiting, SchedulerAction::Wait)
            },
            SchedulerEvent::TimerFired => if token_present {
                (
                    SchedulerState::Waiting,
                    SchedulerAction::RefreshThenWait { margin_seconds: REFRESH_MARGIN_SECONDS },
                )
            } else {
                (SchedulerState::Waiting, SchedulerAction::Wait)
            },
        },
    }
}

/// The state reached from `state` after the first `n` wakes of a history.
pub open spec fn state_after(state: SchedulerState, wakes: Seq<(bool, SchedulerEvent)>, n: nat) -> SchedulerState
    decreases n,
{
    if n == 0 || n > wakes.len() {
        state
    } else {
        step(state_after(state, wakes, (n - 1) as nat), wakes[n - 1].0, wakes[n - 1].1).0
    }
}

/// The action that wake number `i` of a history asks for.
pub open spec fn action_at(state: SchedulerState, wakes: Seq<(bool, SchedulerEvent)>, i: nat) -> SchedulerAction {
    step(state_after(state, wakes, i), wakes[i as int].0, wakes[i as int].1).1
}

/// Once cancelled, the scheduler stays cancelled whatever wakes follow.
pub proof fn cancelled_is_terminal(wakes: Seq<(bool, SchedulerEvent)>, n: nat)
    requires
        n <= wakes.len(),
    ensures
        state_after(SchedulerState::Cancelled, wakes, n) == SchedulerState::Cancelled,
    decreases n,
{
    if n > 0 {
        cancelled_is_terminal(wakes, (n - 1) as nat);
    }
}

/// A cancellation signal ends the loop at the very wake that observes it, and
/// no wake after it asks for a refresh: every later action is `Stop`.
pub proof fn cancellation_stops_refreshing(
    start: SchedulerState,
    wakes: Seq<(bool, SchedulerEvent)>,
    k: nat,
    i: nat,
)
    requires
        k <= i < wakes.len(),
        wakes[k as int].1 == SchedulerEvent::Signal(true),
    ensures
        action_at(start, wakes, i) == SchedulerAction::Stop,
        state_after(start, wakes, i + 1) == SchedulerState::Cancelled,
    decreases i,
{
    if i > k {
        cancellation_stops_refreshing(start, wakes, k, (i - 1) as nat);
    }
}

/// A refresh is asked for only by a timer that fired while a token was stored
/// and the scheduler had not been cancelled.
pub proof fn refresh_only_on_timer(state: SchedulerState, token_present: bool, event: SchedulerEvent)
    ensures
        step(state, token_present, event).1 is RefreshThenWait <==> (state
            == SchedulerState::Waiting && token_present && event == SchedulerEvent::TimerFired),
        step(state, token_present, event).1 is RefreshThenWait ==> step(
            state,
            token_present,
            event,
        ).1 == (SchedulerAction::RefreshThenWait { margin_seconds: 60 }),
{
}

} // verus!
