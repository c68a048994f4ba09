//! Token records, their expiry arithmetic, and the decision whether a stored
//! token may be used as it is or has to be refreshed first.

use vstd::prelude::*;
use crate::error::AuthError;
use crate::text::{text_of, copy_text};
use crate::exchange::{TokenRequest, RequestModel, refresh_request_of, refresh_access_token};

verus! {

/// A token exactly as the provider's token endpoint returned it.
#[derive(Debug)]
pub struct TokenResponse {
    pub access_token: String,
    pub refresh_token: Option<String>,
    pub expires_in: i64,
    pub token_type: String,
    pub id_token: Option<String>,
}

/// The durable unit: a token together with the epoch second at which it was received.
#[derive(Debug)]
pub struct StoredToken {
    pub token: TokenResponse,
    pub issued_at: i64,
}

/// Mathematical value of a [`TokenResponse`].
pub struct TokenModel {
    pub access_token: Seq<char>,
    pub refresh_token: Option<Seq<char>>,
    pub expires_in: int,
    pub token_type: Seq<char>,
    pub id_token: Option<Seq<char>>,
}

/// Mathematical value of a [`StoredToken`].
pub struct StoredModel {
    pub token: TokenModel,
    pub issued_at: int,
}

impl View for TokenResponse {
    type V = TokenModel;

    open spec fn view(&self) -> TokenModel {
        TokenModel {
            access_token: self.access_token@,
            refresh_token: text_of(self.refresh_token),
            expires_in: self.expires_in as int,
            token_type: self.token_type@,
            id_token: text_of(self.id_token),
        }
    }
}

impl View for StoredToken {
    type V = StoredModel;

    open spec fn view(&self) -> StoredModel {
        StoredModel { token: self.token@, issued_at: self.issued_at as int }
    }
}

/// The epoch second at which a stored token stops being usable.
pub open spec fn expires_at(s: StoredModel) -> int {
    s.issued_at + s.token.expires_in
}

/// A refresh is due once `now + margin` has reached the expiry instant.
pub open spec fn refresh_due(s: StoredModel, now: int, margin: int) -> bool {
    now + margin >= expires_at(s)
}

/// A token is valid while `now + margin` lies strictly before its expiry instant.
pub open spec fn is_valid(s: StoredModel, now: int, margin: int) -> bool {
    now + margin < expires_at(s)
}

impl Clone for TokenResponse {
    fn clone(&self) -> (r: Self)
        ensures
            r@ == self@,
    {
        TokenResponse {
            access_token: self.access_token.clone(),
            refresh_token: copy_text(&self.refresh_token),
            expires_in: self.expires_in,
            token_type: self.token_type.clone(),
            id_token: copy_text(&self.id_token),
        }
    }
}

impl Clone for StoredToken {
    fn clone(&self) -> (r: Self)
        ensures
            r@ == self@,
    {
        StoredToken { token: self.token.clone(), issued_at: self.issued_at }
    }
}

impl StoredToken {
    /// Binds a freshly received token to the instant of its receipt.
    pub fn received(token: TokenResponse, now: i64) -> (r: StoredToken)
        ensures
            r@ == (StoredModel { token: token@, issued_at: now as int }),
    {
        StoredToken { token, issued_at: now }
    }

    /// The expiry instant, `issued_at + expires_in`, computed without overflow.
    pub fn expires_at(&self) -> (r: i128)
        ensures
            r == expires_at(self@),
    {
        self.issued_at as i128 + self.token.expires_in as i128
    }

    /// Whether a refresh is due at `now` for the safety window `margin_seconds`.
    pub fn refresh_due(&self, now: i64, margin_seconds: i64) -> (r: bool)
        ensures
            r == refresh_due(self@, now as int, margin_seconds as int),
            r == !is_valid(self@, now as int, margin_seconds as int),
    {
        now as i128 + margin_seconds as i128 >= self.expires_at()
    }
}

/// What has to happen before a caller may use the token of a user.
#[derive(Debug)]
pub enum TokenDecision {
    /// The stored token is still valid: use it unchanged.
    UseCached(TokenResponse),
    /// The stored token is due: send this request to the token endpoint,
    /// persist the token it returns, and use that one.
    Refresh(TokenRequest),
}

/// Mathematical value of a [`TokenDecision`].
pub enum DecisionModel {
    UseCached(TokenModel),
    Refresh(RequestModel),
}

impl View for TokenDecision {
    type V = DecisionModel;

    open spec fn view(&self) -> DecisionModel {
        match self {
            TokenDecision::UseCached(t) => DecisionModel::UseCached(t@),
            TokenDecision::Refresh(r) => DecisionModel::Refresh(r@),
        }
    }
}

/// The expiry policy: no record fails; a valid record is served from the
/// cache; a due record is refreshed with its refresh token, and fails without one.
pub open spec fn validity_decision(
    stored: Option<StoredModel>,
    client_id: Seq<char>,
    tenant_id: Seq<char>,
    now: int,
    margin: int,
) -> Result<DecisionModel, AuthError> {
    match stored {
        None => Err(AuthError::NoStoredToken),
        Some(s) => if !refresh_due(s, now, margin) {
            Ok(DecisionModel::UseCached(s.token))
        } else {
            match s.token.refresh_token {
                Some(r) => Ok(DecisionModel::Refresh(refresh_request_of(r, client_id, tenant_id))),
                None => Err(AuthError::MissingRefreshToken),
            }
        },
    }
}

/// The value of an optional stored token.
pub open spec fn stored_model(stored: Option<StoredToken>) -> Option<StoredModel> {
    match stored {
        Some(s) => Some(s@),
        None => None,
    }
}

/// The value of the outcome of [`ensure_valid_token`].
pub open spec fn decision_model(r: Result<TokenDecision, AuthError>) -> Result<
    DecisionModel,
    AuthError,
> {
    match r {
        Ok(d) => Ok(d@),
        Err(e) => Err(e),
    }
}

/// Decides, for the record loaded from the credential store, whether its token
/// is returned as it is or a refresh has to be performed first, and with what
/// request.
pub fn ensure_valid_token(
    stored: Option<StoredToken>,
    client_id: &str,
    tenant_id: &str,
    now: i64,
    margin_seconds: i64,
) -> (r: Result<TokenDecision, AuthError>)
    ensures
        decision_model(r) == validity_decision(
            stored_model(stored),
            client_id@,
            tenant_id@,
            now as int,
            margin_seconds as int,
        ),
{
    match stored {
        None => Err(AuthError::NoStoredToken),
        Some(s) => {
            if !s.refresh_due(now, margin_seconds) {
                Ok(TokenDecision::UseCached(s.token))
            } else {
                match s.token.refresh_token {
                    Some(r) => Ok(
                        TokenDecision::Refresh(
                            refresh_access_token(r.as_str(), client_id, tenant_id),
                        ),
                    ),
                    None => Err(AuthError::MissingRefreshToken),
                }
            }
        },
    }
}

/// The policy did not serve the cached token: a refresh was called for.
pub open spec fn refresh_triggered(decision: Result<DecisionModel, AuthError>) -> bool {
    !(decision matches Ok(DecisionModel::UseCached(_)))
}

/// For a stored token, a refresh is triggered exactly when `now + margin` has
/// reached `issued_at + expires_in`; before that the cached token is returned
/// unchanged, and from then on the stored refresh token is presented to the
/// token endpoint, or missed.
pub proof fn refresh_iff_due(
    s: StoredModel,
    client_id: Seq<char>,
    tenant_id: Seq<char>,
    now: int,
    margin: int,
)
    ensures
        refresh_triggered(validity_decision(Some(s), client_id, tenant_id, now, margin)) <==> now
            + margin >= s.issued_at + s.token.expires_in,
        now + margin < s.issued_at + s.token.expires_in ==> validity_decision(
            Some(s),
            client_id,
            tenant_id,
            now,
            margin,
        ) == Ok::<DecisionModel, AuthError>(DecisionModel::UseCached(s.token)),
        now + margin >= s.issued_at + s.token.expires_in ==> validity_decision(
            Some(s),
            client_id,
            tenant_id,
            now,
            margin,
        ) == (match s.token.refresh_token {
            Some(r) => Ok::<DecisionModel, AuthError>(
                DecisionModel::Refresh(refresh_request_of(r, client_id, tenant_id)),
            ),
            None => Err::<DecisionModel, AuthError>(AuthError::MissingRefreshToken),
        }),
{
}

/// A token received at `now` that lasts longer than the margin is served from
/// the cache at that same instant: a check right after a refresh calls for no
/// second refresh.
pub proof fn fresh_record_is_served(
    token: TokenModel,
    client_id: Seq<char>,
    tenant_id: Seq<char>,
    now: int,
    margin: int,
)
    requires
        token.expires_in > margin,
    ensures
        validity_decision(
            Some(StoredModel { token: token, issued_at: now }),
            client_id,
            tenant_id,
            now,
            margin,
        ) == Ok::<DecisionModel, AuthError>(DecisionModel::UseCached(token)),
{
}

} // verus!
