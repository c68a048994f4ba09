//! The token exchange client's rules: the two requests to the provider's token
//! endpoint and how its reply is judged.

use vstd::prelude::*;
use crate::error::AuthError;
use crate::text::pairs_text;
use crate::token::{TokenResponse, TokenModel};

verus! {

/// A form-encoded POST to the token endpoint.
#[derive(Debug)]
pub struct TokenRequest {
    pub url: String,
    pub form: Vec<(String, String)>,
}

/// Mathematical value of a [`TokenRequest`].
pub struct RequestModel {
    pub url: Seq<char>,
    pub form: Seq<(Seq<char>, Seq<char>)>,
}

impl View for TokenRequest {
    type V = RequestModel;

    open spec fn view(&self) -> RequestModel {
        RequestModel { url: self.url@, form: pairs_text(self.form@) }
    }
}

/// The token endpoint of a tenant.
pub open spec fn token_endpoint_of(tenant_id: Seq<char>) -> Seq<char> {
    "https://login.microsoftonline.com/"@ + tenant_id + "/oauth2/v2.0/token"@
}

/// The form of the `authorization_code` grant.
pub open spec fn authorization_code_form(
    code: Seq<char>,
    code_verifier: Seq<char>,
    redirect_uri: Seq<char>,
    client_id: Seq<char>,
) -> Seq<(Seq<char>, Seq<char>)> {
    seq![
        ("client_id"@, client_id),
        ("code"@, code),
        ("redirect_uri"@, redirect_uri),
        ("grant_type"@, "authorization_code"@),
        ("code_verifier"@, code_verifier),
    ]
}

/// The form of the `refresh_token` grant.
pub open spec fn refresh_token_form(refresh_token: Seq<char>, client_id: Seq<char>) -> Seq<
    (Seq<char>, Seq<char>),
> {
    seq![
        ("client_id"@, client_id),
        ("grant_type"@, "refresh_token"@),
        ("refresh_token"@, refresh_token),
    ]
}

/// The request of the `authorization_code` grant.
pub open spec fn code_request_of(
    code: Seq<char>,
    code_verifier: Seq<char>,
    redirect_uri: Seq<char>,
    client_id: Seq<char>,
    tenant_id: Seq<char>,
) -> RequestModel {
    RequestModel {
        url: token_endpoint_of(tenant_id),
        form: authorization_code_form(code, code_verifier, redirect_uri, client_id),
    }
}

/// The request of the `refresh_token` grant.
pub open spec fn refresh_request_of(
    refresh_token: Seq<char>,
    client_id: Seq<char>,
    tenant_id: Seq<char>,
) -> RequestModel {
    RequestModel {
        url: token_endpoint_of(tenant_id),
        form: refresh_token_form(refresh_token, client_id),
    }
}

/// Builds the URL of a tenant's token endpoint.
pub fn token_endpoint(tenant_id: &str) -> (url: String)
    ensures
        url@ == token_endpoint_of(tenant_id@),
{
    String::from_str("https://login.microsoftonline.com/").concat(tenant_id).concat(
        "/oauth2/v2.0/token",
    )
}

/// One form field.
fn field(name: &str, value: &str) -> (pair: (String, String))
    ensures
        pair.0@ == name@,
        pair.1@ == value@,
{
    (String::from_str(name), String::from_str(value))
}

/// The request that redeems an authorization code, bound to the verifier of
/// the login attempt that asked for it.
pub fn exchange_code_for_token(
    code: &str,
    code_verifier: &str,
    redirect_uri: &str,
    client_id: &str,
    tenant_id: &str,
) -> (request: TokenRequest)
    ensures
        request@ == code_request_of(code@, code_verifier@, redirect_uri@, client_id@, tenant_id@),
{
    let mut form: Vec<(String, String)> = Vec::new();
    form.push(field("client_id", client_id));
    form.push(field("code", code));
    form.push(field("redirect_uri", redirect_uri));
    form.push(field("grant_type", "authorization_code"));
    form.push(field("code_verifier", code_verifier));
    assert(pairs_text(form@) =~= authorization_code_form(
        code@,
        code_verifier@,
        redirect_uri@,
        client_id@,
    ));
    TokenRequest { url: token_endpoint(tenant_id), form }
}

/// The request that trades a refresh token for a new token.
pub fn refresh_access_token(refresh_token: &str, client_id: &str, tenant_id: &str) -> (request:
    TokenRequest)
    ensures
        request@ == refresh_request_of(refresh_token@, client_id@, tenant_id@),
{
    let mut form: Vec<(String, String)> = Vec::new();
    form.push(field("client_id", client_id));
    form.push(field("grant_type", "refresh_token"));
    form.push(field("refresh_token", refresh_token));
    assert(pairs_text(form@) =~= refresh_token_form(refresh_token@, client_id@));
    TokenRequest { url: token_endpoint(tenant_id), form }
}

/// What came back from the token endpoint.
#[derive(Debug)]
pub enum TokenReply {
    /// The request failed in transport: no answer at all.
    Unreachable,
    /// An answer with this status; `token` is the body where it was a well-formed token.
    Answered { status: u16, token: Option<TokenResponse> },
}

/// An HTTP status of the success class.
pub open spec fn is_success(status: u16) -> bool {
    200 <= status <= 299
}

/// The value of the outcome of judging a reply.
pub open spec fn token_result_model(r: Result<TokenResponse, AuthError>) -> Result<
    TokenModel,
    AuthError,
> {
    match r {
        Ok(t) => Ok(t@),
        Err(e) => Err(e),
    }
}

/// How a reply is judged: no answer is a network error; a status outside the
/// success class or a malformed body is a provider error; else the token.
pub open spec fn judged(reply: TokenReply) -> Result<TokenModel, AuthError> {
    match reply {
        TokenReply::Unreachable => Err(AuthError::NetworkError),
        TokenReply::Answered { status, token } => if !is_success(status) {
            Err(AuthError::ProviderError)
        } else {
            match token {
                Some(t) => Ok(t@),
                None => Err(AuthError::ProviderError),
            }
        },
    }
}

/// Judges the reply of the token endpoint.
pub fn accept_token_reply(reply: TokenReply) -> (r: Result<TokenResponse, AuthError>)
    ensures
        token_result_model(r) == judged(reply),
{
    match reply {
        TokenReply::Unreachable => Err(AuthError::NetworkError),
        TokenReply::Answered { status, token } => {
            if status < 200 || status > 299 {
                Err(AuthError::ProviderError)
            } else {
                match token {
                    Some(t) => Ok(t),
                    None => Err(AuthError::ProviderError),
                }
            }
        },
    }
}

} // verus!
