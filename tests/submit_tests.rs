use redrust::json::{Json, JsonNumber};
use redrust::submit::{
    clean_subreddit, comment_form, comment_http_failure, display_subreddit, post_http_failure,
    read_comment_reply, read_post_reply, require_access_token, submit_form,
};

fn s(v: &str) -> String {
    v.to_string()
}

fn obj(members: Vec<(&str, Json)>) -> Json {
    Json::Object(members.into_iter().map(|(k, v)| (s(k), v)).collect())
}

fn arr(items: Vec<Json>) -> Json {
    Json::Array(items)
}

fn js(v: &str) -> Json {
    Json::Str(s(v))
}

fn n(v: u64) -> Json {
    Json::Number(JsonNumber::PosInt(v))
}

fn pairs(v: &[(&str, &str)]) -> Vec<(String, String)> {
    v.iter().map(|(a, b)| (s(a), s(b))).collect()
}

#[test]
fn subreddit_names() {
    assert_eq!(clean_subreddit("r/rust"), "rust");
    assert_eq!(clean_subreddit("rust"), "rust");
    assert_eq!(display_subreddit("rust"), "r/rust");
    assert_eq!(display_subreddit("r/rust"), "r/rust");
}

#[test]
fn forms_of_submissions() {
    assert_eq!(
        submit_form("r/test", "Hi", "Body"),
        pairs(&[("sr", "test"), ("title", "Hi"), ("text", "Body"), ("kind", "self")])
    );
    assert_eq!(
        comment_form("t3_abc", "Nice"),
        pairs(&[("api_type", "json"), ("thing_id", "t3_abc"), ("text", "Nice")])
    );
}

#[test]
fn access_token_is_required() {
    assert_eq!(
        require_access_token(&None).err(),
        Some(s("No access token available. Call get_access_token() first."))
    );
    assert_eq!(require_access_token(&Some(s("t"))), Ok(s("t")));
}

#[test]
fn http_failures() {
    assert_eq!(post_http_failure("403 Forbidden", "x"), "Failed to create post: HTTP 403 Forbidden: x");
    assert_eq!(comment_http_failure("500", ""), "Failed to create comment: HTTP 500: ");
}

#[test]
fn post_reply_redirect() {
    let json = obj(vec![
        ("success", Json::Bool(true)),
        (
            "jquery",
            arr(vec![
                arr(vec![n(0), n(1), js("call"), arr(vec![js("body")])]),
                arr(vec![n(1), n(2), js("attr"), js("redirect")]),
                arr(vec![n(2), n(3), js("call"), arr(vec![js("https://www.reddit.com/r/t/comments/1/x/")])]),
            ]),
        ),
    ]);
    assert_eq!(read_post_reply(&json, "[]"), Ok(s("https://www.reddit.com/r/t/comments/1/x/")));
}

#[test]
fn post_reply_user_required() {
    let json = obj(vec![
        ("success", Json::Bool(false)),
        ("jquery", arr(vec![arr(vec![n(0), n(1), js("call"), arr(vec![js(".error.USER_REQUIRED")])])])),
    ]);
    let err = read_post_reply(&json, "[]").err().unwrap();
    assert!(err.starts_with("Reddit requires user authentication with 'submit' scope to create posts."));
}

#[test]
fn post_reply_call_error() {
    let json = obj(vec![
        ("success", Json::Bool(false)),
        ("jquery", arr(vec![arr(vec![n(0), n(1), js("call"), arr(vec![js("Please log in")])])])),
    ]);
    assert_eq!(read_post_reply(&json, "[]"), Err(s("Reddit API error: Please log in")));
}

#[test]
fn post_reply_errors_and_data_url() {
    let errors = obj(vec![("json", obj(vec![("errors", arr(vec![js("RATELIMIT")]))]))]);
    assert_eq!(
        read_post_reply(&errors, "[String(\"RATELIMIT\")]"),
        Err(s("Reddit API returned an error: [String(\"RATELIMIT\")]"))
    );
    let data = obj(vec![(
        "json",
        obj(vec![("errors", arr(vec![])), ("data", obj(vec![("url", js("https://redd.it/1"))]))]),
    )]);
    assert_eq!(read_post_reply(&data, "[]"), Ok(s("https://redd.it/1")));
    let bare_success = obj(vec![("success", Json::Bool(true))]);
    assert_eq!(read_post_reply(&bare_success, "[]"), Ok(s("Post was successful, but couldn't extract the URL")));
    assert_eq!(
        read_post_reply(&Json::Null, "[]"),
        Err(s("Failed to create post. Reddit requires user authentication with proper scopes for this operation."))
    );
}

#[test]
fn comment_replies() {
    let made = obj(vec![(
        "json",
        obj(vec![(
            "data",
            obj(vec![(
                "things",
                arr(vec![obj(vec![("data", obj(vec![("name", js("t1_x")), ("permalink", js("/r/a/comments/1/b/x/"))]))])]),
            )]),
        )]),
    )]);
    assert_eq!(read_comment_reply(&made, "[]"), Ok(s("https://reddit.com/r/a/comments/1/b/x/")));
    let named = obj(vec![(
        "json",
        obj(vec![("data", obj(vec![("things", arr(vec![obj(vec![("data", obj(vec![("name", js("t1_y"))]))])]))]))]),
    )]);
    assert_eq!(read_comment_reply(&named, "[]"), Ok(s("Comment created successfully with ID: t1_y")));
    let forbidden = obj(vec![("error", n(403))]);
    assert!(read_comment_reply(&forbidden, "[]").err().unwrap().contains("to create comments"));
    let errors = obj(vec![("json", obj(vec![("errors", arr(vec![js("x")]))]))]);
    assert_eq!(read_comment_reply(&errors, "E"), Err(s("Reddit API returned an error: E")));
    assert_eq!(
        read_comment_reply(&obj(vec![]), "[]"),
        Ok(s("Comment was created successfully, but couldn't extract the details"))
    );
}
