//! The authorization coordinator: the URL the browser is sent to, and the
//! order of the steps of one login attempt, each of whose failures ends it.

use vstd::prelude::*;
use vstd::utf8::encode_utf8;
use crate::capture::{digit_char, redirect_uri, redirect_uri_of};
use crate::error::AuthError;
use crate::exchange::{TokenRequest, code_request_of, exchange_code_for_token};
use crate::pkce::{all_alphanumeric, challenge_of, generate_pkce};

verus! {

/// Seconds the coordinator waits for the authorization code.
pub const CODE_WAIT_SECONDS: u64 = 300;

/// A byte that stays as it is inside a URL: an ASCII letter or digit, or one
/// of `-`, `.`, `_` and `~`.
pub open spec fn is_unreserved(b: u8) -> bool {
    (0x30 <= b && b <= 0x39) || (0x41 <= b && b <= 0x5a) || (0x61 <= b && b <= 0x7a) || b == 0x2d
        || b == 0x2e || b == 0x5f || b == 0x7e
}

/// The upper-case hexadecimal digit of a value below sixteen.
pub open spec fn hex_digit(d: nat) -> char {
    if d < 10 {
        digit_char(d)
    } else if d == 10 {
        'A'
    } else if d == 11 {
        'B'
    } else if d == 12 {
        'C'
    } else if d == 13 {
        'D'
    } else if d == 14 {
        'E'
    } else {
        'F'
    }
}

/// One byte inside a URL: itself if unreserved, else `%` and its two
/// hexadecimal digits.
pub open spec fn encoded_byte(b: u8) -> Seq<char> {
    if is_unreserved(b) {
        seq![b as char]
    } else {
        seq!['%', hex_digit((b / 16) as nat), hex_digit((b % 16) as nat)]
    }
}

/// The percent-encoding of a byte string.
pub open spec fn percent_encoded_bytes(data: Seq<u8>) -> Seq<char>
    decreases data.len(),
{
    if data.len() == 0 {
        Seq::empty()
    } else {
        encoded_byte(data[0]) + percent_encoded_bytes(data.drop_first())
    }
}

/// The percent-encoding of a text for use inside a URL: that of its UTF-8 bytes.
pub open spec fn percent_encoded(text: Seq<char>) -> Seq<char> {
    percent_encoded_bytes(encode_utf8(text))
}

/// Encodes with `urlencoding::encode`, which percent-encodes every byte of the
/// UTF-8 text except ASCII letters, digits, `-`, `_`, `.` and `~`, with
/// upper-case hexadecimal digits.
#[verifier::external_body]
fn percent_encode(text: &str) -> (encoded: String)
    ensures
        encoded@ == percent_encoded(text@),
{
    urlencoding::encode(text).into_owned()
}

/// The authorization URL for an already encoded redirect URI.
pub open spec fn authorization_url_with(
    tenant_id: Seq<char>,
    client_id: Seq<char>,
    encoded_redirect_uri: Seq<char>,
    code_challenge: Seq<char>,
) -> Seq<char> {
    "https://login.microsoftonline.com/"@ + tenant_id + "/oauth2/v2.0/authorize?client_id="@
        + client_id + "&response_type=code&redirect_uri="@ + encoded_redirect_uri
        + "&response_mode=query&scope=User.Read%20openid%20profile%20offline_access&code_challenge="@
        + code_challenge + "&code_challenge_method=S256"@
}

/// The authorization URL of a login attempt.
pub open spec fn authorization_url_of(
    tenant_id: Seq<char>,
    client_id: Seq<char>,
    redirect_uri: Seq<char>,
    code_challenge: Seq<char>,
) -> Seq<char> {
    authorization_url_with(tenant_id, client_id, percent_encoded(redirect_uri), code_challenge)
}

/// Assembles the authorization URL around an already encoded redirect URI.
pub fn assemble_authorization_url(
    tenant_id: &str,
    client_id: &str,
    encoded_redirect_uri: &str,
    code_challenge: &str,
) -> (url: String)
    ensures
        url@ == authorization_url_with(
            tenant_id@,
            client_id@,
            encoded_redirect_uri@,
            code_challenge@,
        ),
{
    let mut url = String::from_str("https://login.microsoftonline.com/");
    url.append(tenant_id);
    url.append("/oauth2/v2.0/authorize?client_id=");
    url.append(client_id);
    url.append("&response_type=code&redirect_uri=");
    url.append(encoded_redirect_uri);
    url.append(
        "&response_mode=query&scope=User.Read%20openid%20profile%20offline_access&code_challenge=",
    );
    url.append(code_challenge);
    url.append("&code_challenge_method=S256");
    url
}

/// Builds the URL that the browser is sent to: the tenant's authorize
/// endpoint with the client, the encoded redirect URI, the scopes and the
/// PKCE challenge with method `S256`.
pub fn authorization_url(tenant_id: &str, client_id: &str, redirect_uri: &str, code_challenge: &str) -> (url:
    String)
    ensures
        url@ == authorization_url_of(tenant_id@, client_id@, redirect_uri@, code_challenge@),
{
    let encoded = percent_encode(redirect_uri);
    assemble_authorization_url(tenant_id, client_id, encoded.as_str(), code_challenge)
}

/// What one login attempt holds from its preparation to the exchange: the
/// client and tenant it is for, the redirect URI of its capture server, and
/// its own PKCE pair.
#[derive(Debug)]
pub struct LoginAttempt {
    pub client_id: String,
    pub tenant_id: String,
    pub redirect_uri: String,
    pub code_verifier: String,
    pub code_challenge: String,
}

impl LoginAttempt {
    /// The verifier has 128 ASCII letters and digits, and the challenge is its own.
    pub open spec fn well_formed(&self) -> bool {
        &&& self.code_verifier@.len() == 128
        &&& all_alphanumeric(self.code_verifier@)
        &&& self.code_challenge@ == challenge_of(self.code_verifier@)
    }

    /// Prepares an attempt for a capture server that listens on `port`, with a
    /// fresh PKCE pair.
    pub fn prepare(client_id: &str, tenant_id: &str, port: u16) -> (attempt: LoginAttempt)
        ensures
            attempt.well_formed(),
            attempt.client_id@ == client_id@,
            attempt.tenant_id@ == tenant_id@,
            attempt.redirect_uri@ == redirect_uri_of(port as nat),
    {
        let (code_verifier, code_challenge) = generate_pkce();
        LoginAttempt {
            client_id: String::from_str(client_id),
            tenant_id: String::from_str(tenant_id),
            redirect_uri: redirect_uri(port),
            code_verifier,
            code_challenge,
        }
    }

    /// The URL the browser is sent to: it carries the challenge, never the verifier.
    pub fn authorization_url(&self) -> (url: String)
        ensures
            url@ == authorization_url_of(
                self.tenant_id@,
                self.client_id@,
                self.redirect_uri@,
                self.code_challenge@,
            ),
    {
        authorization_url(
            self.tenant_id.as_str(),
            self.client_id.as_str(),
            self.redirect_uri.as_str(),
            self.code_challenge.as_str(),
        )
    }

    /// The request that redeems the captured code: it carries the verifier of
    /// this attempt and the redirect URI that the authorization URL named.
    pub fn token_request(&self, code: &str) -> (request: TokenRequest)
        ensures
            request@ == code_request_of(
                code@,
                self.code_verifier@,
                self.redirect_uri@,
                self.client_id@,
                self.tenant_id@,
            ),
    {
        exchange_code_for_token(
            code,
            self.code_verifier.as_str(),
            self.redirect_uri.as_str(),
            self.client_id.as_str(),
            self.tenant_id.as_str(),
        )
    }
}

/// Where a login attempt stands.
#[derive(Clone, Copy, Debug, PartialEq, Eq, Structural)]
pub enum LoginState {
    /// The PKCE pair exists and the capture server listens; nothing was sent yet.
    Prepared,
    /// The browser is being opened on the authorization URL.
    OpeningBrowser,
    /// Waiting on the code channel.
    AwaitingCode,
    /// The code is being exchanged for a token.
    Exchanging,
    /// The attempt is over, with a session or with a failure.
    Finished,
}

/// What the driver reports back.
#[derive(Clone, Copy, Debug, PartialEq, Eq, Structural)]
pub enum LoginEvent {
    Begin,
    BrowserOpened,
    BrowserFailed,
    CodeReceived,
    /// The code channel yielded nothing in time, or was closed.
    CodeWaitExpired,
    TokenAccepted,
    TokenRejected(AuthError),
}

/// What the driver does next.
#[derive(Clone, Copy, Debug, PartialEq, Eq, Structural)]
pub enum LoginAction {
    /// Open the browser on the authorization URL.
    OpenBrowser,
    /// Wait on the code channel for up to this many seconds.
    AwaitCode { seconds: u64 },
    /// Redeem the code at the token endpoint.
    ExchangeCode,
    /// Persist the token, cancel the previous scheduler if told so, then start
    /// a scheduler for the new session and return the token with its user.
    StartSession { cancel_previous: bool },
    /// Return this failure.
    Fail(AuthError),
    /// The event does not belong to the state: nothing to do.
    Ignore,
}

/// The transition relation of a login attempt. `refresher_active` says whether
/// a scheduler of an earlier session is still running.
pub open spec fn step(state: LoginState, event: LoginEvent, refresher_active: bool) -> (
    LoginState,
    LoginAction,
) {
    match (state, event) {
        (LoginState::Prepared, LoginEvent::Begin) => (
            LoginState::OpeningBrowser,
            LoginAction::OpenBrowser,
        ),
        (LoginState::OpeningBrowser, LoginEvent::BrowserOpened) => (
            LoginState::AwaitingCode,
            LoginAction::AwaitCode { seconds: 300 },
        ),
        (LoginState::OpeningBrowser, LoginEvent::BrowserFailed) => (
            LoginState::Finished,
            LoginAction::Fail(AuthError::BrowserLaunchError),
        ),
        (LoginState::AwaitingCode, LoginEvent::CodeReceived) => (
            LoginState::Exchanging,
            LoginAction::ExchangeCode,
        ),
        (LoginState::AwaitingCode, LoginEvent::CodeWaitExpired) => (
            LoginState::Finished,
            LoginAction::Fail(AuthError::AuthTimeout),
        ),
        (LoginState::Exchanging, LoginEvent::TokenAccepted) => (
            LoginState::Finished,
            LoginAction::StartSession { cancel_previous: refresher_active },
        ),
        (LoginState::Exchanging, LoginEvent::TokenRejected(e)) => (
            LoginState::Finished,
            LoginAction::Fail(e),
        ),
        _ => (state, LoginAction::Ignore),
    }
}

/// Advances a login attempt by one event and says what to do next.
pub fn login_step(state: LoginState, event: LoginEvent, refresher_active: bool) -> (r: (
    LoginState,
    LoginAction,
))
    ensures
        r == step(state, event, refresher_active),
{
    match state {
        LoginState::Prepared => match event {
            LoginEvent::Begin => (LoginState::OpeningBrowser, LoginAction::OpenBrowser),
            _ => (state, LoginAction::Ignore),
        },
        LoginState::OpeningBrowser => match event {
            LoginEvent::BrowserOpened => (
                LoginState::AwaitingCode,
                LoginAction::AwaitCode { seconds: CODE_WAIT_SECONDS },
            ),
            LoginEvent::BrowserFailed => (
                LoginState::Finished,
                LoginAction::Fail(AuthError::BrowserLaunchError),
            ),
            _ => (state, LoginAction::Ignore),
        },
        LoginState::AwaitingCode => match event {
            LoginEvent::CodeReceived => (LoginState::Exchanging, LoginAction::ExchangeCode),
            LoginEvent::CodeWaitExpired => (
                LoginState::Finished,
                LoginAction::Fail(AuthError::AuthTimeout),
            ),
            _ => (state, LoginAction::Ignore),
        },
        LoginState::Exchanging => match event {
            LoginEvent::TokenAccepted => (
                LoginState::Finished,
                LoginAction::StartSession { cancel_previous: refresher_active },
            ),
            LoginEvent::TokenRejected(e) => (LoginState::Finished, LoginAction::Fail(e)),
            _ => (state, LoginAction::Ignore),
        },
        LoginState::Finished => (state, LoginAction::Ignore),
    }
}

/// How far a login attempt has come.
pub open spec fn progress(state: LoginState) -> nat {
    match state {
        LoginState::Prepared => 0,
        LoginState::OpeningBrowser => 1,
        LoginState::AwaitingCode => 2,
        LoginState::Exchanging => 3,
        LoginState::Finished => 4,
    }
}

/// No step is retried: an event either is ignored and leaves the state as it
/// is, or moves the attempt strictly forward; and every failure ends it.
pub proof fn every_step_moves_forward(state: LoginState, event: LoginEvent, refresher_active: bool)
    ensures
        step(state, event, refresher_active).1 == LoginAction::Ignore ==> step(
            state,
            event,
            refresher_active,
        ).0 == state,
        step(state, event, refresher_active).1 != LoginAction::Ignore ==> progress(
            step(state, event, refresher_active).0,
        ) > progress(state),
        step(state, event, refresher_active).1 is Fail ==> step(state, event, refresher_active).0
            == LoginState::Finished,
        state == LoginState::Finished ==> step(state, event, refresher_active) == (
            LoginState::Finished,
            LoginAction::Ignore,
        ),
{
}

/// A new session is started only by an accepted token, and the previous
/// scheduler is cancelled first exactly if one is running.
pub proof fn session_start_cancels_previous(
    state: LoginState,
    event: LoginEvent,
    refresher_active: bool,
)
    ensures
        step(state, event, refresher_active).1 is StartSession <==> (state == LoginState::Exchanging
            && event == LoginEvent::TokenAccepted),
        step(state, event, refresher_active).1 is StartSession ==> step(
            state,
            event,
            refresher_active,
        ).1 == (LoginAction::StartSession { cancel_previous: refresher_active }),
{
}

} // verus!
