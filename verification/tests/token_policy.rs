use loopback_auth::error::AuthError;
use loopback_auth::token::{ensure_valid_token, StoredToken, TokenDecision, TokenResponse};

fn token(access: &str, refresh: Option<&str>, expires_in: i64) -> TokenResponse {
    TokenResponse {
        access_token: access.to_string(),
        refresh_token: refresh.map(|r| r.to_string()),
        expires_in,
        token_type: "Bearer".to_string(),
        id_token: None,
    }
}

#[test]
fn received_keeps_the_instant_of_receipt() {
    let stored = StoredToken::received(token("AT1", None, 3600), 1700000000);
    assert_eq!(stored.issued_at, 1700000000);
    assert_eq!(stored.token.access_token, "AT1");
    assert_eq!(stored.token.expires_in, 3600);
    assert_eq!(stored.expires_at(), 1700003600);
}

#[test]
fn cached_token_is_returned_seventy_seconds_before_expiry() {
    let stored = StoredToken::received(token("AT1", Some("RT1"), 3600), 1700000000);
    match ensure_valid_token(Some(stored), "CLIENT", "TENANT", 1700003530, 60) {
        Ok(TokenDecision::UseCached(t)) => {
            assert_eq!(t.access_token, "AT1");
            assert_eq!(t.refresh_token.as_deref(), Some("RT1"));
            assert_eq!(t.expires_in, 3600);
            assert_eq!(t.token_type, "Bearer");
            assert_eq!(t.id_token, None);
        }
        other => panic!("expected the cached token, got {:?}", other),
    }
}

#[test]
fn refresh_is_triggered_fifty_nine_seconds_before_expiry() {
    let stored = StoredToken::received(token("AT1", Some("RT1"), 3600), 1700000000);
    match ensure_valid_token(Some(stored), "CLIENT", "TENANT", 1700003541, 60) {
        Ok(TokenDecision::Refresh(request)) => {
            assert_eq!(request.url, "https://login.microsoftonline.com/TENANT/oauth2/v2.0/token");
            assert_eq!(
                request.form,
                vec![
                    ("client_id".to_string(), "CLIENT".to_string()),
                    ("grant_type".to_string(), "refresh_token".to_string()),
                    ("refresh_token".to_string(), "RT1".to_string()),
                ]
            );
        }
        other => panic!("expected a refresh, got {:?}", other),
    }
}

#[test]
fn refresh_is_triggered_exactly_at_the_margin() {
    let stored = StoredToken::received(token("AT1", Some("RT1"), 3600), 1700000000);
    assert!(stored.refresh_due(1700003540, 60));
    assert!(!stored.refresh_due(1700003539, 60));
    assert!(matches!(
        ensure_valid_token(Some(stored), "CLIENT", "TENANT", 1700003540, 60),
        Ok(TokenDecision::Refresh(_))
    ));
}

#[test]
fn forced_check_uses_the_token_until_its_last_second() {
    let stored = StoredToken::received(token("AT1", Some("RT1"), 3600), 1700000000);
    assert!(!stored.refresh_due(1700003599, 0));
    assert!(stored.refresh_due(1700003600, 0));
}

#[test]
fn missing_record_is_no_stored_token() {
    assert!(matches!(ensure_valid_token(None, "CLIENT", "TENANT", 1700000000, 60), Err(AuthError::NoStoredToken)));
}

#[test]
fn due_token_without_refresh_token_is_an_error() {
    let stored = StoredToken::received(token("AT1", None, 3600), 1700000000);
    assert!(matches!(
        ensure_valid_token(Some(stored), "CLIENT", "TENANT", 1700003541, 60),
        Err(AuthError::MissingRefreshToken)
    ));
}

#[test]
fn valid_token_without_refresh_token_is_served() {
    let stored = StoredToken::received(token("AT1", None, 3600), 1700000000);
    assert!(matches!(
        ensure_valid_token(Some(stored), "CLIENT", "TENANT", 1700003530, 60),
        Ok(TokenDecision::UseCached(_))
    ));
}

#[test]
fn expiry_arithmetic_does_not_overflow() {
    let stored = StoredToken::received(token("AT1", None, i64::MAX), i64::MAX);
    assert_eq!(stored.expires_at(), 2 * (i64::MAX as i128));
    assert!(stored.refresh_due(i64::MAX, i64::MAX));
    assert!(!stored.refresh_due(i64::MAX, i64::MAX - 1));
    let early = StoredToken::received(token("AT1", None, i64::MIN), i64::MIN);
    assert!(early.refresh_due(i64::MIN, i64::MIN));
}

#[test]
fn clone_keeps_every_field() {
    let mut t = token("AT1", Some("RT1"), 10);
    t.id_token = Some("a.b.c".to_string());
    let stored = StoredToken::received(t, 5);
    let copy = stored.clone();
    assert_eq!(copy.issued_at, 5);
    assert_eq!(copy.token.access_token, "AT1");
    assert_eq!(copy.token.refresh_token.as_deref(), Some("RT1"));
    assert_eq!(copy.token.expires_in, 10);
    assert_eq!(copy.token.token_type, "Bearer");
    assert_eq!(copy.token.id_token.as_deref(), Some("a.b.c"));
}

#[test]
fn token_received_now_is_served_right_after() {
    let stored = StoredToken::received(token("AT2", Some("RT2"), 3600), 1700003541);
    match ensure_valid_token(Some(stored), "CLIENT", "TENANT", 1700003541, 60) {
        Ok(TokenDecision::UseCached(t)) => assert_eq!(t.access_token, "AT2"),
        other => panic!("expected the cached token, got {:?}", other),
    }
}

#[test]
fn every_error_has_its_message() {
    assert_eq!(AuthError::AuthTimeout.message(), "Authentication timeout");
    assert_eq!(AuthError::BrowserLaunchError.message(), "failed to open the browser");
    assert_eq!(AuthError::NetworkError.message(), "token endpoint unreachable");
    assert_eq!(AuthError::ProviderError.message(), "token endpoint rejected the request");
    assert_eq!(AuthError::NoStoredToken.message(), "no stored token found");
    assert_eq!(AuthError::MissingRefreshToken.message(), "no refresh_token available");
    assert_eq!(AuthError::StoreError.message(), "credential store failure");
}
