use redrust::auth::{
    access_token_in, answer_callback, answer_query, authorization_code_form, basic_authorization,
    bearer_authorization, config_tokens_at, ensure_storage_at, http_failure_message,
    installed_client_form, next_auth_step_at, password_form, read_token_reply,
    record_browser_grant_at, record_manual_tokens_at, record_refreshed_at, refresh_form,
    refresh_request, stored_tokens_at, stored_tokens_used_at, AuthStep, BrowserAuthPlan,
    CallbackOutcome, TokenCall, TokenGrant,
};
use redrust::config::AppConfig;
use redrust::json::{Json, JsonNumber};
use redrust::token::TokenStorage;

fn s(v: &str) -> String {
    v.to_string()
}

fn obj(members: Vec<(&str, Json)>) -> Json {
    Json::Object(members.into_iter().map(|(k, v)| (s(k), v)).collect())
}

fn storage(access: Option<&str>, refresh: Option<&str>, expires: Option<u64>) -> TokenStorage {
    TokenStorage {
        client_id: s("cid"),
        access_token: access.map(s),
        refresh_token: refresh.map(s),
        token_expires_at: expires,
        last_updated: 1,
    }
}

fn pairs(v: &[(&str, &str)]) -> Vec<(String, String)> {
    v.iter().map(|(a, b)| (s(a), s(b))).collect()
}

#[test]
fn basic_authorization_encodes_credentials() {
    assert_eq!(basic_authorization("abc", ""), "Basic YWJjOg==");
    assert_eq!(basic_authorization("abc", "def"), "Basic YWJjOmRlZg==");
    assert_eq!(bearer_authorization("tok"), "Bearer tok");
}

#[test]
fn grant_forms() {
    assert_eq!(
        installed_client_form(),
        pairs(&[
            ("grant_type", "https://oauth.reddit.com/grants/installed_client"),
            ("device_id", "DO_NOT_TRACK_THIS_DEVICE"),
        ])
    );
    assert_eq!(refresh_form("r1"), pairs(&[("grant_type", "refresh_token"), ("refresh_token", "r1")]));
    assert_eq!(
        password_form("me", "pw"),
        pairs(&[
            ("grant_type", "password"),
            ("username", "me"),
            ("password", "pw"),
            ("scope", "submit identity read"),
        ])
    );
    assert_eq!(
        authorization_code_form("c0de", "http://localhost:8080/callback"),
        pairs(&[
            ("grant_type", "authorization_code"),
            ("code", "c0de"),
            ("redirect_uri", "http://localhost:8080/callback"),
        ])
    );
}

#[test]
fn token_reply_with_all_fields() {
    let json = obj(vec![
        ("access_token", Json::Str(s("AT"))),
        ("refresh_token", Json::Str(s("RT"))),
        ("expires_in", Json::Number(JsonNumber::PosInt(86400))),
    ]);
    let g = read_token_reply(&TokenCall::CodeExchange, &json).unwrap();
    assert_eq!(g.access_token, "AT");
    assert_eq!(g.refresh_token, Some(s("RT")));
    assert_eq!(g.expires_in, 86400);
}

#[test]
fn token_reply_defaults_lifetime() {
    let json = obj(vec![
        ("access_token", Json::Str(s("AT"))),
        ("expires_in", Json::Number(JsonNumber::NegInt(-5))),
    ]);
    let g = read_token_reply(&TokenCall::Password, &json).unwrap();
    assert_eq!(g.refresh_token, None);
    assert_eq!(g.expires_in, 3600);
}

#[test]
fn token_reply_errors() {
    let json = obj(vec![("error", Json::Str(s("invalid_grant"))), ("access_token", Json::Str(s("AT")))]);
    assert_eq!(
        read_token_reply(&TokenCall::Refresh, &json).err(),
        Some(s("Token refresh failed: invalid_grant"))
    );
    assert_eq!(
        read_token_reply(&TokenCall::Password, &json).err(),
        Some(s("Authentication failed: invalid_grant"))
    );
    let empty = obj(vec![("access_token", Json::Number(JsonNumber::PosInt(1)))]);
    assert_eq!(
        read_token_reply(&TokenCall::CodeExchange, &empty).err(),
        Some(s("Failed to extract access token from response"))
    );
    assert_eq!(
        access_token_in(&Json::Null).err(),
        Some(s("Failed to extract access token from response"))
    );
    let with_error = obj(vec![("error", Json::Str(s("x"))), ("access_token", Json::Str(s("AT")))]);
    assert_eq!(access_token_in(&with_error), Ok(s("AT")));
    assert_eq!(
        http_failure_message(&TokenCall::CodeExchange, "401 Unauthorized", "nope"),
        "Token exchange failed: HTTP 401 Unauthorized: nope"
    );
}

#[test]
fn stored_tokens_use_only_valid_token() {
    let (a, st) = stored_tokens_at("cid", Some(storage(Some("tok"), None, Some(10_000))), 100);
    assert_eq!(a, Some(s("tok")));
    assert_eq!(st.unwrap().access_token, Some(s("tok")));
    let (a, st) = stored_tokens_at("cid", Some(storage(Some("tok"), None, Some(350))), 100);
    assert_eq!(a, None);
    assert!(st.is_some());
    let (a, st) = stored_tokens_at("new", None, 5);
    assert_eq!(a, None);
    let st = st.unwrap();
    assert_eq!(st.client_id, "new");
    assert_eq!(st.last_updated, 5);
}

#[test]
fn config_access_token_wins() {
    let mut config = AppConfig::default();
    config.client_id = Some(s("cid"));
    config.access_token = Some(s("direct"));
    let (a, st) = config_tokens_at(&config, Some(storage(Some("tok"), None, Some(10_000))), 100);
    assert_eq!(a, Some(s("direct")));
    assert_eq!(st.unwrap().access_token, Some(s("tok")));
    let plain = AppConfig::default();
    let (a, st) = config_tokens_at(&plain, None, 100);
    assert_eq!(a, None);
    assert!(st.is_none());
}

#[test]
fn manual_tokens_create_storage() {
    let mut st: Option<TokenStorage> = None;
    record_manual_tokens_at(&mut st, "cid", "AT", Some("RT"), 3600, 1000);
    let v = st.clone().unwrap();
    assert_eq!(v.client_id, "cid");
    assert_eq!(v.access_token, Some(s("AT")));
    assert_eq!(v.refresh_token, Some(s("RT")));
    assert_eq!(v.token_expires_at, Some(4600));
    assert_eq!(v.last_updated, 1000);
    record_manual_tokens_at(&mut st, "cid2", "AT2", None, u64::MAX, 1);
    let v = st.unwrap();
    assert_eq!(v.client_id, "cid2");
    assert_eq!(v.refresh_token, Some(s("RT")));
    assert_eq!(v.token_expires_at, Some(u64::MAX));
}

#[test]
fn browser_grant_and_refresh_are_recorded() {
    let mut st = Some(storage(None, Some("old"), None));
    let grant = TokenGrant { access_token: s("AT"), refresh_token: None, expires_in: 60 };
    record_browser_grant_at(&mut st, "other", &grant, 10);
    let v = st.clone().unwrap();
    assert_eq!(v.client_id, "other");
    assert_eq!(v.refresh_token, Some(s("old")));
    assert_eq!(v.token_expires_at, Some(70));
    let again = TokenGrant { access_token: s("AT2"), refresh_token: Some(s("x")), expires_in: 5 };
    record_refreshed_at(&mut st, &again, 20);
    let v = st.unwrap();
    assert_eq!(v.access_token, Some(s("AT2")));
    assert_eq!(v.refresh_token, Some(s("old")));
    assert_eq!(v.token_expires_at, Some(25));
    let mut none: Option<TokenStorage> = None;
    record_refreshed_at(&mut none, &again, 20);
    assert!(none.is_none());
}

#[test]
fn ensure_storage_keeps_existing() {
    let mut st = Some(storage(Some("a"), None, None));
    ensure_storage_at(&mut st, "zzz", 9);
    assert_eq!(st.unwrap().client_id, "cid");
    let mut none: Option<TokenStorage> = None;
    ensure_storage_at(&mut none, "zzz", 9);
    assert_eq!(none.unwrap().client_id, "zzz");
}

#[test]
fn refresh_request_needs_refresh_token() {
    assert_eq!(refresh_request(&None).err(), Some(s("No refresh token available")));
    assert_eq!(
        refresh_request(&Some(storage(Some("a"), None, None))).err(),
        Some(s("No refresh token available"))
    );
    let req = refresh_request(&Some(storage(None, Some("RT"), None))).ok().unwrap();
    assert_eq!(req.authorization, "Basic Y2lkOg==");
    assert_eq!(req.form, pairs(&[("grant_type", "refresh_token"), ("refresh_token", "RT")]));
}

#[test]
fn auth_step_order() {
    let valid = storage(Some("tok"), Some("r"), Some(1000));
    assert!(matches!(next_auth_step_at(&valid, 10), AuthStep::UseStored(ref t) if t == "tok"));
    assert!(matches!(next_auth_step_at(&valid, 800), AuthStep::Refresh));
    let bare = storage(Some("tok"), None, Some(1000));
    assert!(matches!(next_auth_step_at(&bare, 800), AuthStep::Browser));
    assert!(stored_tokens_used_at(&Some(valid), 800));
    assert!(stored_tokens_used_at(&Some(storage(Some("tok"), None, Some(1000))), 10));
    assert!(!stored_tokens_used_at(&Some(bare), 800));
    assert!(!stored_tokens_used_at(&None, 0));
}

#[test]
fn browser_plan_defaults() {
    let plan = BrowserAuthPlan::with_state("cid", None, None, "st4te");
    assert_eq!(plan.port, 8080);
    assert_eq!(plan.listen_addr, "127.0.0.1:8080");
    assert_eq!(plan.redirect_uri, "http://localhost:8080/callback");
    assert_eq!(
        plan.auth_url,
        "https://www.reddit.com/api/v1/authorize?client_id=cid&response_type=code&state=st4te&redirect_uri=http://localhost:8080/callback&duration=permanent&scope=identity read submit"
    );
    let plan = BrowserAuthPlan::with_state("c", Some(9000), Some("read"), "x");
    assert_eq!(plan.redirect_uri, "http://localhost:9000/callback");
    assert!(plan.auth_url.ends_with("&scope=read"));
}

#[test]
fn browser_plan_draws_a_state() {
    let plan = BrowserAuthPlan::new("cid", Some(1234), None);
    assert_eq!(plan.state.chars().count(), 16);
    assert!(plan.state.chars().all(|c| c.is_ascii_alphanumeric()));
    assert!(plan.auth_url.contains(&format!("&state={}&", plan.state)));
}

#[test]
fn callback_answers() {
    let ok = answer_callback("/callback?state=abc&code=x%20y", "abc");
    assert_eq!(ok.status, 200);
    assert!(matches!(ok.outcome, Some(CallbackOutcome::Code(ref c)) if c == "x y"));
    let other = answer_callback("/favicon.ico", "abc");
    assert_eq!(other.status, 404);
    assert_eq!(other.page, "<html><body><h1>404 Not Found</h1></body></html>");
    assert!(other.outcome.is_none());
    let bad = answer_callback("/callback?state=zzz&code=1", "abc");
    assert_eq!(bad.status, 400);
    assert!(matches!(bad.outcome, Some(CallbackOutcome::Failed(ref m)) if m == "State mismatch - possible CSRF attack"));
    let denied = answer_callback("/callback?error=access_denied&state=abc", "abc");
    assert_eq!(
        denied.page,
        "<html><body><h1>Authentication Error</h1><p>access_denied</p></body></html>"
    );
    assert!(matches!(denied.outcome, Some(CallbackOutcome::Failed(ref m)) if m == "Authorization error: access_denied"));
}

#[test]
fn query_answers() {
    let no_state = answer_query(&pairs(&[("code", "c")]), "abc");
    assert!(matches!(no_state.outcome, Some(CallbackOutcome::Failed(ref m)) if m == "No state parameter received"));
    let no_code = answer_query(&pairs(&[("state", "abc")]), "abc");
    assert!(matches!(no_code.outcome, Some(CallbackOutcome::Failed(ref m)) if m == "No authorization code received"));
    let last_wins = answer_query(&pairs(&[("state", "zzz"), ("state", "abc"), ("code", "1"), ("code", "2")]), "abc");
    assert!(matches!(last_wins.outcome, Some(CallbackOutcome::Code(ref c)) if c == "2"));
}
