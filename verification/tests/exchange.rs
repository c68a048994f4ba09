use loopback_auth::error::AuthError;
use loopback_auth::exchange::{
    accept_token_reply, exchange_code_for_token, refresh_access_token, token_endpoint, TokenReply,
};
use loopback_auth::token::TokenResponse;

fn token(access: &str) -> TokenResponse {
    TokenResponse {
        access_token: access.to_string(),
        refresh_token: Some("RT".to_string()),
        expires_in: 3600,
        token_type: "Bearer".to_string(),
        id_token: None,
    }
}

fn pair(k: &str, v: &str) -> (String, String) {
    (k.to_string(), v.to_string())
}

#[test]
fn token_endpoint_is_built_from_the_tenant() {
    assert_eq!(
        token_endpoint("contoso"),
        "https://login.microsoftonline.com/contoso/oauth2/v2.0/token"
    );
}

#[test]
fn authorization_code_grant_carries_its_five_fields() {
    let r = exchange_code_for_token("CODE", "VERIFIER", "http://localhost:4000", "CLIENT", "TENANT");
    assert_eq!(r.url, "https://login.microsoftonline.com/TENANT/oauth2/v2.0/token");
    assert_eq!(
        r.form,
        vec![
            pair("client_id", "CLIENT"),
            pair("code", "CODE"),
            pair("redirect_uri", "http://localhost:4000"),
            pair("grant_type", "authorization_code"),
            pair("code_verifier", "VERIFIER"),
        ]
    );
}

#[test]
fn refresh_grant_carries_its_three_fields() {
    let r = refresh_access_token("RT1", "CLIENT", "TENANT");
    assert_eq!(r.url, "https://login.microsoftonline.com/TENANT/oauth2/v2.0/token");
    assert_eq!(
        r.form,
        vec![
            pair("client_id", "CLIENT"),
            pair("grant_type", "refresh_token"),
            pair("refresh_token", "RT1"),
        ]
    );
}

#[test]
fn unreachable_endpoint_is_a_network_error() {
    assert!(matches!(accept_token_reply(TokenReply::Unreachable), Err(AuthError::NetworkError)));
}

#[test]
fn failure_status_is_a_provider_error() {
    for status in [199u16, 300, 400, 401, 500] {
        let reply = TokenReply::Answered { status, token: Some(token("AT")) };
        assert!(matches!(accept_token_reply(reply), Err(AuthError::ProviderError)));
    }
}

#[test]
fn malformed_body_is_a_provider_error() {
    let reply = TokenReply::Answered { status: 200, token: None };
    assert!(matches!(accept_token_reply(reply), Err(AuthError::ProviderError)));
}

#[test]
fn success_status_with_a_token_is_accepted() {
    for status in [200u16, 201, 299] {
        let reply = TokenReply::Answered { status, token: Some(token("AT2")) };
        match accept_token_reply(reply) {
            Ok(t) => {
                assert_eq!(t.access_token, "AT2");
                assert_eq!(t.refresh_token.as_deref(), Some("RT"));
            }
            Err(e) => panic!("expected a token, got {:?}", e),
        }
    }
}
