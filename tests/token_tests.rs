use redrust::token::{expiry_after, token_file_name, TokenStorage};

fn storage(access: Option<&str>, refresh: Option<&str>, expires: Option<u64>) -> TokenStorage {
    TokenStorage {
        client_id: "cid".to_string(),
        access_token: access.map(|s| s.to_string()),
        refresh_token: refresh.map(|s| s.to_string()),
        token_expires_at: expires,
        last_updated: 0,
    }
}

#[test]
fn new_storage_is_empty() {
    let s = TokenStorage::new_at("abc", 42);
    assert_eq!(s.client_id, "abc");
    assert!(s.access_token.is_none());
    assert!(s.refresh_token.is_none());
    assert!(s.token_expires_at.is_none());
    assert_eq!(s.last_updated, 42);
    let t = TokenStorage::new("xyz");
    assert_eq!(t.client_id, "xyz");
    assert!(!t.is_access_token_valid());
}

#[test]
fn validity_keeps_a_five_minute_margin() {
    let s = storage(Some("tok"), None, Some(1300));
    assert!(s.is_access_token_valid_at(999));
    assert!(!s.is_access_token_valid_at(1000));
    assert!(!s.is_access_token_valid_at(2000));
    assert!(!storage(None, None, Some(1300)).is_access_token_valid_at(0));
    assert!(!storage(Some("tok"), None, None).is_access_token_valid_at(0));
    assert!(!storage(Some("tok"), None, Some(u64::MAX)).is_access_token_valid_at(u64::MAX));
}

#[test]
fn refresh_token_presence() {
    assert!(storage(None, Some("r"), None).has_refresh_token());
    assert!(!storage(Some("a"), None, None).has_refresh_token());
}

#[test]
fn record_grant_keeps_refresh_token_when_none_given() {
    let mut s = storage(Some("old"), Some("keep"), Some(5));
    s.record_grant("new_id", "fresh", None, 900, 100);
    assert_eq!(s.client_id, "new_id");
    assert_eq!(s.access_token, Some("fresh".to_string()));
    assert_eq!(s.refresh_token, Some("keep".to_string()));
    assert_eq!(s.token_expires_at, Some(900));
    assert_eq!(s.last_updated, 100);
    s.record_grant("new_id", "fresh2", Some("r2"), 901, 101);
    assert_eq!(s.refresh_token, Some("r2".to_string()));
}

#[test]
fn record_refresh_keeps_identity() {
    let mut s = storage(Some("old"), Some("keep"), Some(5));
    s.record_refresh("newer", 77, 7);
    assert_eq!(s.client_id, "cid");
    assert_eq!(s.refresh_token, Some("keep".to_string()));
    assert_eq!(s.access_token, Some("newer".to_string()));
    assert_eq!(s.token_expires_at, Some(77));
    assert_eq!(s.last_updated, 7);
}

#[test]
fn expiry_saturates() {
    assert_eq!(expiry_after(1000, 3600), 4600);
    assert_eq!(expiry_after(u64::MAX - 1, 5), u64::MAX);
}

#[test]
fn token_file_is_named_after_client() {
    assert_eq!(token_file_name("abc"), "abc.json");
}
