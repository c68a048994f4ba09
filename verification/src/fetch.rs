//! The protected-resource client: one request with a bearer token, and at most
//! one retry after a forced refresh when the resource answers 401.

use vstd::prelude::*;
use crate::error::AuthError;

verus! {

/// Margin of the first token check of a fetch.
pub const FETCH_MARGIN_SECONDS: i64 = 60;

/// Margin of the forced check after a 401.
pub const FORCED_MARGIN_SECONDS: i64 = 0;

/// HTTP status that triggers the forced refresh.
pub const UNAUTHORIZED: u16 = 401;

/// Where a fetch stands.
#[derive(Clone, Copy, Debug, PartialEq, Eq, Structural)]
pub enum FetchState {
    /// Waiting for the token of the first attempt.
    AwaitingToken,
    /// The first request is in flight.
    AwaitingResponse,
    /// Waiting for the token of the forced refresh.
    AwaitingForcedToken,
    /// The retry is in flight.
    AwaitingRetryResponse,
    /// The fetch has produced its result.
    Finished,
}

/// What the driver reports back.
#[derive(Debug, PartialEq, Eq)]
pub enum FetchEvent {
    /// The token check succeeded with this access token.
    TokenReady(String),
    /// The token check failed.
    TokenFailed(AuthError),
    /// The resource answered with this status and body.
    Responded { status: u16, body: String },
    /// The request never got an answer.
    TransportFailed,
}

/// What the driver does next.
#[derive(Debug, PartialEq, Eq)]
pub enum FetchAction {
    /// Send the request with this bearer token.
    SendRequest { bearer: String },
    /// Ensure a valid token with this margin, then report back.
    EnsureToken { margin_seconds: i64 },
    /// Return this body.
    ReturnBody(String),
    /// Return this failure.
    Fail(AuthError),
    /// The event does not belong to the state: nothing to do.
    Ignore,
}

/// Mathematical value of a [`FetchEvent`].
pub enum EventModel {
    TokenReady(Seq<char>),
    TokenFailed(AuthError),
    Responded { status: u16, body: Seq<char> },
    TransportFailed,
}

/// Mathematical value of a [`FetchAction`].
pub enum ActionModel {
    SendRequest { bearer: Seq<char> },
    EnsureToken { margin_seconds: i64 },
    ReturnBody(Seq<char>),
    Fail(AuthError),
    Ignore,
}

impl View for FetchEvent {
    type V = EventModel;

    open spec fn view(&self) -> EventModel {
        match self {
            FetchEvent::TokenReady(t) => EventModel::TokenReady(t@),
            FetchEvent::TokenFailed(e) => EventModel::TokenFailed(*e),
            FetchEvent::Responded { status, body } => EventModel::Responded {
                status: *status,
                body: body@,
            },
            FetchEvent::TransportFailed => EventModel::TransportFailed,
        }
    }
}

impl View for FetchAction {
    type V = ActionModel;

    open spec fn view(&self) -> ActionModel {
        match self {
            FetchAction::SendRequest { bearer } => ActionModel::SendRequest { bearer: bearer@ },
            FetchAction::EnsureToken { margin_seconds } => ActionModel::EnsureToken {
                margin_seconds: *margin_seconds,
            },
            FetchAction::ReturnBody(b) => ActionModel::ReturnBody(b@),
            FetchAction::Fail(e) => ActionModel::Fail(*e),
            FetchAction::Ignore => ActionModel::Ignore,
        }
    }
}

/// The first action of every fetch: ensure a token with the ordinary margin.
pub open spec fn first_check() -> ActionModel {
    ActionModel::EnsureToken { margin_seconds: 60 }
}

/// The forced refresh: ensure a token with margin zero.
pub open spec fn forced_refresh() -> ActionModel {
    ActionModel::EnsureToken { margin_seconds: 0 }
}

/// The transition relation of a fetch: a token is sent as the bearer of the
/// next request; a 401 on the first attempt forces a refresh; any other
/// answer, and every answer to the retry, is returned with its body.
pub open spec fn step(state: FetchState, event: EventModel) -> (FetchState, ActionModel) {
    match (state, event) {
        (FetchState::AwaitingToken, EventModel::TokenReady(t)) => (
            FetchState::AwaitingResponse,
            ActionModel::SendRequest { bearer: t },
        ),
        (FetchState::AwaitingToken, EventModel::TokenFailed(e)) => (
            FetchState::Finished,
            ActionModel::Fail(e),
        ),
        (FetchState::AwaitingResponse, EventModel::Responded { status, body }) => if status == 401 {
            (FetchState::AwaitingForcedToken, forced_refresh())
        } else {
            (FetchState::Finished, ActionModel::ReturnBody(body))
        },
        (FetchState::AwaitingResponse, EventModel::TransportFailed) => (
            FetchState::Finished,
            ActionModel::Fail(AuthError::NetworkError),
        ),
        (FetchState::AwaitingForcedToken, EventModel::TokenReady(t)) => (
            FetchState::AwaitingRetryResponse,
            ActionModel::SendRequest { bearer: t },
        ),
        (FetchState::AwaitingForcedToken, EventModel::TokenFailed(e)) => (
            FetchState::Finished,
            ActionModel::Fail(e),
        ),
        (FetchState::AwaitingRetryResponse, EventModel::Responded { status, body }) => (
            FetchState::Finished,
            ActionModel::ReturnBody(body),
        ),
        (FetchState::AwaitingRetryResponse, EventModel::TransportFailed) => (
            FetchState::Finished,
            ActionModel::Fail(AuthError::NetworkError),
        ),
        _ => (state, ActionModel::Ignore),
    }
}

/// Begins a fetch: the driver first ensures a valid token with the ordinary margin.
pub fn fetch_start() -> (r: (FetchState, FetchAction))
    ensures
        r.0 == FetchState::AwaitingToken,
        r.1@ == first_check(),
{
    (FetchState::AwaitingToken, FetchAction::EnsureToken { margin_seconds: FETCH_MARGIN_SECONDS })
}

/// Advances a fetch by one event and says what to do next.
pub fn fetch_step(state: FetchState, event: FetchEvent) -> (r: (FetchState, FetchAction))
    ensures
        r.0 == step(state, event@).0,
        r.1@ == step(state, event@).1,
{
    match state {
        FetchState::AwaitingToken => match event {
            FetchEvent::TokenReady(t) => (
                FetchState::AwaitingResponse,
                FetchAction::SendRequest { bearer: t },
            ),
            FetchEvent::TokenFailed(e) => (FetchState::Finished, FetchAction::Fail(e)),
            _ => (state, FetchAction::Ignore),
        },
        FetchState::AwaitingResponse => match event {
            FetchEvent::Responded { status, body } => if status == UNAUTHORIZED {
                (
                    FetchState::AwaitingForcedToken,
                    FetchAction::EnsureToken { margin_seconds: FORCED_MARGIN_SECONDS },
                )
            } else {
                (FetchState::Finished, FetchAction::ReturnBody(body))
            },
            FetchEvent::TransportFailed => (
                FetchState::Finished,
                FetchAction::Fail(AuthError::NetworkError),
            ),
            _ => (state, FetchAction::Ignore),
        },
        FetchState::AwaitingForcedToken => match event {
            FetchEvent::TokenReady(t) => (
                FetchState::AwaitingRetryResponse,
                FetchAction::SendRequest { bearer: t },
            ),
            FetchEvent::TokenFailed(e) => (FetchState::Finished, FetchAction::Fail(e)),
            _ => (state, FetchAction::Ignore),
        },
        FetchState::AwaitingRetryResponse => match event {
            FetchEvent::Responded { status, body } => (
                FetchState::Finished,
                FetchAction::ReturnBody(body),
            ),
            FetchEvent::TransportFailed => (
                FetchState::Finished,
                FetchAction::Fail(AuthError::NetworkError),
            ),
            _ => (state, FetchAction::Ignore),
        },
        FetchState::Finished => (state, FetchAction::Ignore),
    }
}

/// The actions that a history of events draws from a fetch in `state`, in order.
pub open spec fn actions(state: FetchState, events: Seq<EventModel>) -> Seq<ActionModel>
    decreases events.len(),
{
    if events.len() == 0 {
        Seq::empty()
    } else {
        seq![step(state, events[0]).1] + actions(step(state, events[0]).0, events.drop_first())
    }
}

/// How many of `acts` are forced refreshes.
pub open spec fn forced_refreshes(acts: Seq<ActionModel>) -> nat
    decreases acts.len(),
{
    if acts.len() == 0 {
        0
    } else {
        (if acts[0] == forced_refresh() {
            1nat
        } else {
            0nat
        }) + forced_refreshes(acts.drop_first())
    }
}

/// How many of `acts` send a request.
pub open spec fn requests_sent(acts: Seq<ActionModel>) -> nat
    decreases acts.len(),
{
    if acts.len() == 0 {
        0
    } else {
        (if acts[0] is SendRequest {
            1nat
        } else {
            0nat
        }) + requests_sent(acts.drop_first())
    }
}

/// How many forced refreshes a fetch in `state` can still ask for.
pub open spec fn refreshes_left(state: FetchState) -> nat {
    match state {
        FetchState::AwaitingToken | FetchState::AwaitingResponse => 1,
        _ => 0,
    }
}

/// How many requests a fetch in `state` can still send.
pub open spec fn requests_left(state: FetchState) -> nat {
    match state {
        FetchState::AwaitingToken => 2,
        FetchState::AwaitingResponse | FetchState::AwaitingForcedToken => 1,
        _ => 0,
    }
}

/// Whatever events arrive, a fetch asks for no more forced refreshes and sends
/// no more requests than its state leaves.
pub proof fn bounded_from(state: FetchState, events: Seq<EventModel>)
    ensures
        forced_refreshes(actions(state, events)) <= refreshes_left(state),
        requests_sent(actions(state, events)) <= requests_left(state),
    decreases events.len(),
{
    if events.len() > 0 {
        let next = step(state, events[0]).0;
        bounded_from(next, events.drop_first());
        let rest = actions(next, events.drop_first());
        assert(actions(state, events).drop_first() =~= rest);
    }
}

/// Whatever events arrive, one fetch performs at most one forced refresh and
/// sends at most two requests: the first attempt and a single retry.
pub proof fn at_most_one_retry(events: Seq<EventModel>)
    ensures
        forced_refreshes(actions(FetchState::AwaitingToken, events)) <= 1,
        requests_sent(actions(FetchState::AwaitingToken, events)) <= 2,
{
    bounded_from(FetchState::AwaitingToken, events);
}

/// A 401 on the first attempt followed by any answer on the retry gives
/// exactly one forced refresh and exactly one retry; the retry carries the
/// refreshed token, and its answer is returned whatever its status.
pub proof fn unauthorized_then_answer(
    first_token: Seq<char>,
    rejected_body: Seq<char>,
    fresh_token: Seq<char>,
    retry_status: u16,
    retry_body: Seq<char>,
)
    ensures
        actions(
            FetchState::AwaitingToken,
            seq![
                EventModel::TokenReady(first_token),
                EventModel::Responded { status: 401, body: rejected_body },
                EventModel::TokenReady(fresh_token),
                EventModel::Responded { status: retry_status, body: retry_body },
            ],
        ) == seq![
            ActionModel::SendRequest { bearer: first_token },
            forced_refresh(),
            ActionModel::SendRequest { bearer: fresh_token },
            ActionModel::ReturnBody(retry_body),
        ],
{
    let e = seq![
        EventModel::TokenReady(first_token),
        EventModel::Responded { status: 401, body: rejected_body },
        EventModel::TokenReady(fresh_token),
        EventModel::Responded { status: retry_status, body: retry_body },
    ];
    let e1 = e.drop_first();
    let e2 = e1.drop_first();
    let e3 = e2.drop_first();
    let e4 = e3.drop_first();
    assert(e4.len() == 0);
    assert(actions(FetchState::Finished, e4) =~= Seq::empty());
    assert(actions(FetchState::AwaitingRetryResponse, e3) =~= seq![
        ActionModel::ReturnBody(retry_body),
    ]);
    assert(actions(FetchState::AwaitingForcedToken, e2) =~= seq![
        ActionModel::SendRequest { bearer: fresh_token },
        ActionModel::ReturnBody(retry_body),
    ]);
    assert(actions(FetchState::AwaitingResponse, e1) =~= seq![
        forced_refresh(),
        ActionModel::SendRequest { bearer: fresh_token },
        ActionModel::ReturnBody(retry_body),
    ]);
    assert(actions(FetchState::AwaitingToken, e) =~= seq![
        ActionModel::SendRequest { bearer: first_token },
        forced_refresh(),
        ActionModel::SendRequest { bearer: fresh_token },
        ActionModel::ReturnBody(retry_body),
    ]);
}

} // verus!
