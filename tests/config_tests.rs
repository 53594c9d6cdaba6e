use redrust::config::{parse_unsigned, AppConfig};

fn pair(k: &str, v: &str) -> (String, String) {
    (k.to_string(), v.to_string())
}

#[test]
fn test_loading_default_config() {
    let config = AppConfig::default();
    assert!(config.client_id.is_none());
    assert_eq!(config.user_agent, String::new());
    assert_eq!(config.token_expires_in, 3600);
}

#[test]
fn test_loading_from_env_vars() {
    let vars = vec![
        pair("REDDIT_CLIENT_ID", "test_client_id"),
        pair("REDDIT_USER_AGENT", "test_user_agent"),
        pair("REDDIT_OAUTH_PORT", "9999"),
        pair("REDDIT_TOKEN_EXPIRES_IN", "7200"),
    ];
    let config = AppConfig::from_env(&vars);
    assert_eq!(config.client_id, Some("test_client_id".to_string()));
    assert_eq!(config.user_agent, "test_user_agent".to_string());
    assert_eq!(config.oauth_port, Some(9999));
    assert_eq!(config.token_expires_in, 7200);
}

#[test]
fn test_require_methods() {
    let mut config = AppConfig::default();
    config.client_id = Some("test_id".to_string());
    assert_eq!(config.require_client_id(), "test_id");
}

#[test]
fn require_methods_return_each_setting() {
    let mut config = AppConfig::default();
    config.client_secret = Some("s".to_string());
    config.username = Some("u".to_string());
    config.password = Some("p".to_string());
    config.thing_id = Some("t3_x".to_string());
    assert_eq!(config.require_client_secret(), "s");
    assert_eq!(config.require_username(), "u");
    assert_eq!(config.require_password(), "p");
    assert_eq!(config.require_thing_id(), "t3_x");
}

#[test]
fn env_values_that_do_not_parse_keep_defaults() {
    let vars = vec![
        pair("REDDIT_OAUTH_PORT", "65536"),
        pair("REDDIT_TOKEN_EXPIRES_IN", "soon"),
        pair("REDDIT_ACCESS_TOKEN", "tok"),
        pair("REDDIT_THING_ID", "t1_abc"),
        pair("OTHER", "x"),
    ];
    let config = AppConfig::from_env(&vars);
    assert_eq!(config.oauth_port, None);
    assert_eq!(config.token_expires_in, 3600);
    assert_eq!(config.access_token, Some("tok".to_string()));
    assert_eq!(config.thing_id, Some("t1_abc".to_string()));
    assert_eq!(config.client_id, None);
    assert_eq!(config.user_agent, "");
}

#[test]
fn env_all_credentials() {
    let vars = vec![
        pair("REDDIT_CLIENT_SECRET", "sec"),
        pair("REDDIT_USERNAME", "me"),
        pair("REDDIT_PASSWORD", "pw"),
        pair("REDDIT_REFRESH_TOKEN", "rt"),
        pair("REDDIT_OAUTH_PORT", "+8081"),
    ];
    let config = AppConfig::from_env(&vars);
    assert_eq!(config.client_secret, Some("sec".to_string()));
    assert_eq!(config.username, Some("me".to_string()));
    assert_eq!(config.password, Some("pw".to_string()));
    assert_eq!(config.refresh_token, Some("rt".to_string()));
    assert_eq!(config.oauth_port, Some(8081));
}

#[test]
fn parse_unsigned_cases() {
    assert_eq!(parse_unsigned("0", 65535), Some(0));
    assert_eq!(parse_unsigned("65535", 65535), Some(65535));
    assert_eq!(parse_unsigned("65536", 65535), None);
    assert_eq!(parse_unsigned("+12", 100), Some(12));
    assert_eq!(parse_unsigned("+", 100), None);
    assert_eq!(parse_unsigned("", 100), None);
    assert_eq!(parse_unsigned("-1", 100), None);
    assert_eq!(parse_unsigned("1 2", 100), None);
    assert_eq!(parse_unsigned("18446744073709551615", u64::MAX), Some(u64::MAX));
    assert_eq!(parse_unsigned("18446744073709551616", u64::MAX), None);
    assert_eq!(parse_unsigned("99999999999999999999x", u64::MAX), None);
}
