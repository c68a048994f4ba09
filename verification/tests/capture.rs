use loopback_auth::capture::{
    deadline_elapsed, decimal, find_code, redirect_uri, response_for, serve_request, success_page,
    CaptureState, CAPTURE_DEADLINE_SECONDS,
};

fn pairs(items: &[(&str, &str)]) -> Vec<(String, String)> {
    items.iter().map(|(k, v)| (k.to_string(), v.to_string())).collect()
}

#[test]
fn decimal_writes_numbers_without_leading_zeros() {
    assert_eq!(decimal(0), "0");
    assert_eq!(decimal(7), "7");
    assert_eq!(decimal(10), "10");
    assert_eq!(decimal(8080), "8080");
    assert_eq!(decimal(65535), "65535");
}

#[test]
fn redirect_uri_names_localhost_and_the_port() {
    assert_eq!(redirect_uri(49152), "http://localhost:49152");
    assert_eq!(redirect_uri(1), "http://localhost:1");
}

#[test]
fn request_with_code_delivers_exactly_that_code_once() {
    let (state, code) = serve_request(CaptureState::Listening, "/?code=XYZ");
    assert_eq!(code, Some("XYZ".to_string()));
    assert_eq!(state, CaptureState::Closed);
    let (state, again) = serve_request(state, "/?code=XYZ");
    assert_eq!(again, None);
    assert_eq!(state, CaptureState::Closed);
}

#[test]
fn code_is_found_among_other_parameters() {
    let (_, code) = serve_request(CaptureState::Listening, "/?state=1&code=abc&session_state=9");
    assert_eq!(code, Some("abc".to_string()));
    let (_, first) = serve_request(CaptureState::Listening, "/cb?code=one&code=two");
    assert_eq!(first, Some("one".to_string()));
}

#[test]
fn code_is_percent_decoded() {
    let (_, code) = serve_request(CaptureState::Listening, "/?code=a%2Fb%20c+d");
    assert_eq!(code, Some("a/b c d".to_string()));
}

#[test]
fn request_without_code_delivers_nothing_and_closes() {
    let (state, code) = serve_request(CaptureState::Listening, "/?error=access_denied");
    assert_eq!(code, None);
    assert_eq!(state, CaptureState::Closed);
    let (state, code) = serve_request(CaptureState::Listening, "/favicon.ico");
    assert_eq!(code, None);
    assert_eq!(state, CaptureState::Closed);
}

#[test]
fn empty_code_is_still_a_code() {
    let (_, code) = serve_request(CaptureState::Listening, "/?code=");
    assert_eq!(code, Some(String::new()));
}

#[test]
fn deadline_closes_the_listener() {
    assert_eq!(deadline_elapsed(CaptureState::Listening), CaptureState::Closed);
    assert_eq!(deadline_elapsed(CaptureState::Closed), CaptureState::Closed);
    let (_, code) = serve_request(deadline_elapsed(CaptureState::Listening), "/?code=late");
    assert_eq!(code, None);
    assert_eq!(CAPTURE_DEADLINE_SECONDS, 300);
}

#[test]
fn find_code_takes_the_first_pair_named_code() {
    assert_eq!(find_code(&pairs(&[("a", "1"), ("code", "c1"), ("code", "c2")])), Some("c1".to_string()));
    assert_eq!(find_code(&pairs(&[("Code", "x"), ("codes", "y")])), None);
    assert_eq!(find_code(&pairs(&[])), None);
}

#[test]
fn success_page_tells_the_user_to_close_the_window() {
    assert_eq!(
        success_page(),
        "<html><body><h1>Authentication successful!</h1><p>You can close this window.</p></body></html>"
    );
}

#[test]
fn page_is_sent_exactly_when_a_code_was_delivered() {
    let (_, code) = serve_request(CaptureState::Listening, "/?code=XYZ");
    assert_eq!(response_for(&code), Some(success_page()));
    let (_, none) = serve_request(CaptureState::Listening, "/?error=denied");
    assert_eq!(response_for(&none), None);
}
