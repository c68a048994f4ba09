use loopback_auth::identity::{
    extract_user_from_id_token_or_os, find_byte, middle_segment, pick_username,
    user_from_id_token, Claim,
};
use loopback_auth::token::TokenResponse;

fn token_with(id_token: Option<&str>) -> TokenResponse {
    TokenResponse {
        access_token: "AT".to_string(),
        refresh_token: None,
        expires_in: 3600,
        token_type: "Bearer".to_string(),
        id_token: id_token.map(|t| t.to_string()),
    }
}

#[test]
fn find_byte_gives_the_first_occurrence_or_the_length() {
    assert_eq!(find_byte(b"a.b.c", b'.', 0), 1);
    assert_eq!(find_byte(b"a.b.c", b'.', 2), 3);
    assert_eq!(find_byte(b"a.b.c", b'.', 4), 5);
    assert_eq!(find_byte(b"", b'.', 0), 0);
    assert_eq!(find_byte(b".", b'.', 0), 0);
}

#[test]
fn middle_segment_is_what_stands_between_the_first_two_dots() {
    assert_eq!(middle_segment(b"head.body.sig"), Some(b"body".to_vec()));
    assert_eq!(middle_segment(b"head.body"), Some(b"body".to_vec()));
    assert_eq!(middle_segment(b"head."), Some(Vec::new()));
    assert_eq!(middle_segment(b"a..c"), Some(Vec::new()));
    assert_eq!(middle_segment(b"a.b.c.d"), Some(b"b".to_vec()));
    assert_eq!(middle_segment(b"nodots"), None);
    assert_eq!(middle_segment(b""), None);
}

#[test]
fn first_present_claim_wins() {
    let text = |s: &str| Claim::Text(s.to_string());
    assert_eq!(pick_username(text("p"), text("u"), text("e")), Some("p".to_string()));
    assert_eq!(pick_username(Claim::Absent, text("u"), text("e")), Some("u".to_string()));
    assert_eq!(pick_username(Claim::Absent, Claim::Absent, text("e")), Some("e".to_string()));
    assert_eq!(pick_username(Claim::Absent, Claim::Absent, Claim::Absent), None);
}

#[test]
fn a_present_claim_that_is_no_string_names_nobody() {
    let text = |s: &str| Claim::Text(s.to_string());
    assert_eq!(pick_username(Claim::NotText, text("u"), text("e")), None);
    assert_eq!(pick_username(Claim::Absent, Claim::NotText, text("e")), None);
    assert_eq!(pick_username(Claim::Absent, Claim::Absent, Claim::NotText), None);
}

#[test]
fn preferred_username_is_read_from_the_id_token() {
    let id = "h.eyJwcmVmZXJyZWRfdXNlcm5hbWUiOiJhbGljZUBleGFtcGxlLmNvbSIsInVwbiI6ImFAdXBuIiwiZW1haWwiOiJhQG1haWwifQ.s";
    assert_eq!(user_from_id_token(id), Some("alice@example.com".to_string()));
}

#[test]
fn upn_is_read_when_no_preferred_username_is_there() {
    let id = "h.eyJ1cG4iOiJib2JAY29ycC5leGFtcGxlIiwiZW1haWwiOiJiQG1haWwifQ.s";
    assert_eq!(user_from_id_token(id), Some("bob@corp.example".to_string()));
}

#[test]
fn email_is_read_last() {
    let id = "h.eyJlbWFpbCI6ImNhcm9sQGV4YW1wbGUub3JnIn0";
    assert_eq!(user_from_id_token(id), Some("carol@example.org".to_string()));
}

#[test]
fn escaped_claim_text_is_decoded() {
    let id = "h.eyJwcmVmZXJyZWRfdXNlcm5hbWUiOiJcdTAwZTlsb1x1MDBlZnNlIn0.s";
    assert_eq!(user_from_id_token(id), Some("\u{e9}lo\u{ef}se".to_string()));
}

#[test]
fn unusable_id_tokens_name_nobody() {
    assert_eq!(user_from_id_token("nodots"), None);
    assert_eq!(user_from_id_token("h.***.s"), None);
    assert_eq!(user_from_id_token("h.bm90IGpzb24.s"), None);
    assert_eq!(user_from_id_token("h.eyJuYW1lIjoibm9ib2R5In0.s"), None);
    assert_eq!(
        user_from_id_token("h.eyJwcmVmZXJyZWRfdXNlcm5hbWUiOjQyLCJ1cG4iOiJkYXZlQGNvcnAuZXhhbXBsZSJ9.s"),
        None
    );
    assert_eq!(user_from_id_token("h.eyJlbWFpbCI6ImNhcm9sQGV4YW1wbGUub3JnIn0=.s"), None);
}

#[test]
fn user_comes_from_the_id_token_before_the_local_account() {
    let t = token_with(Some("h.eyJlbWFpbCI6ImNhcm9sQGV4YW1wbGUub3JnIn0.s"));
    assert_eq!(
        extract_user_from_id_token_or_os(&t, Some("winuser".to_string()), Some("nixuser".to_string())),
        "carol@example.org"
    );
}

#[test]
fn local_account_is_the_fallback() {
    let t = token_with(None);
    assert_eq!(
        extract_user_from_id_token_or_os(&t, Some("winuser".to_string()), Some("nixuser".to_string())),
        "winuser"
    );
    assert_eq!(extract_user_from_id_token_or_os(&t, None, Some("nixuser".to_string())), "nixuser");
    let bad = token_with(Some("garbage"));
    assert_eq!(extract_user_from_id_token_or_os(&bad, None, Some("nixuser".to_string())), "nixuser");
}

#[test]
fn unknown_is_the_last_resort() {
    assert_eq!(extract_user_from_id_token_or_os(&token_with(None), None, None), "unknown");
}
