use loopback_auth::monitor::{check_message, down_notice, greet, record_check, Probe, Website};
use loopback_auth::photo::fetch_user_photo;

fn site(is_down: bool, cleared: bool) -> Website {
    Website {
        url: "https://example.com".to_string(),
        is_down,
        last_checked: "2025-11-28".to_string(),
        notification_cleared: cleared,
    }
}

#[test]
fn photo_becomes_a_data_url() {
    assert_eq!(
        fetch_user_photo(200, Some("image/png".to_string()), &[0xff, 0xd8, 0xff, 0xe0, 0x00]),
        Some("data:image/png;base64,/9j/4AA=".to_string())
    );
}

#[test]
fn photo_without_content_type_counts_as_jpeg() {
    assert_eq!(fetch_user_photo(200, None, &[]), Some("data:image/jpeg;base64,".to_string()));
}

#[test]
fn other_statuses_carry_no_photo() {
    assert_eq!(fetch_user_photo(404, Some("image/png".to_string()), &[1, 2, 3]), None);
    assert_eq!(fetch_user_photo(201, None, &[1, 2, 3]), None);
    assert_eq!(fetch_user_photo(401, None, &[]), None);
}

#[test]
fn site_that_goes_down_is_notified_once() {
    let mut s = site(false, false);
    assert!(record_check(&mut s, Probe::Unreachable, "t1".to_string()));
    assert!(s.is_down);
    assert_eq!(s.last_checked, "t1");
    assert_eq!(s.url, "https://example.com");
    assert!(!record_check(&mut s, Probe::Answered(500), "t2".to_string()));
    assert!(s.is_down);
    assert_eq!(s.last_checked, "t2");
}

#[test]
fn cleared_notification_is_not_repeated_until_the_site_came_back() {
    let mut s = site(false, true);
    assert!(!record_check(&mut s, Probe::Answered(503), "t1".to_string()));
    assert!(s.notification_cleared);
    assert!(!record_check(&mut s, Probe::Answered(204), "t2".to_string()));
    assert!(!s.is_down);
    assert!(!s.notification_cleared);
    assert!(record_check(&mut s, Probe::Answered(404), "t3".to_string()));
}

#[test]
fn success_statuses_mean_up() {
    for status in [200u16, 204, 299] {
        let mut s = site(false, false);
        assert!(!record_check(&mut s, Probe::Answered(status), "t".to_string()));
        assert!(!s.is_down);
    }
    for status in [199u16, 300, 301] {
        let mut s = site(false, false);
        assert!(record_check(&mut s, Probe::Answered(status), "t".to_string()));
        assert!(s.is_down);
    }
}

#[test]
fn monitor_messages() {
    assert_eq!(down_notice("https://example.com"), "https://example.com is not responding");
    assert_eq!(
        check_message("2025-11-28 10:00:00"),
        "Websites checked successfully at 2025-11-28 10:00:00!"
    );
    assert_eq!(greet("Ada"), "Hello, Ada! You've been greeted from Rust!");
}
