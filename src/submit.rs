//! Creating posts and comments: the forms sent, and what the API's answer
//! means (the URL of what was created, or why it failed).
use vstd::prelude::*;
use vstd::string::*;

use crate::auth::{form_view, opt_view};
use crate::json::Json;
use crate::text::{concat, contains, contains_str, drop_chars, has_prefix, starts_with};

verus! {

pub open spec fn no_token_message() -> Seq<char> {
    "No access token available. Call get_access_token() first."@
}

/// The access token that posting and commenting need.
pub fn require_access_token(access_token: &Option<String>) -> (r: Result<String, String>)
    ensures
        match access_token {
            Some(t) => r is Ok && r->Ok_0 == t,
            None => r is Err && r->Err_0@ == no_token_message(),
        },
{
    match access_token {
        Some(t) => Ok(t.clone()),
        None => Err(String::from_str("No access token available. Call get_access_token() first.")),
    }
}

/// A subreddit name without a leading `r/`.
pub open spec fn bare_subreddit(s: Seq<char>) -> Seq<char> {
    if has_prefix(s, "r/"@) {
        s.subrange(2, s.len() as int)
    } else {
        s
    }
}

/// A subreddit name without a leading `r/`.
pub fn clean_subreddit(subreddit: &str) -> (r: String)
    ensures
        r@ == bare_subreddit(subreddit@),
{
    if starts_with(subreddit, "r/") {
        proof {
            reveal_strlit("r/");
        }
        drop_chars(subreddit, 2)
    } else {
        String::from_str(subreddit)
    }
}

/// A subreddit name as displayed: with a leading `r/`.
pub fn display_subreddit(subreddit: &str) -> (r: String)
    ensures
        has_prefix(subreddit@, "r/"@) ==> r@ == subreddit@,
        !has_prefix(subreddit@, "r/"@) ==> r@ == "r/"@ + subreddit@,
{
    if starts_with(subreddit, "r/") {
        String::from_str(subreddit)
    } else {
        concat("r/", subreddit)
    }
}

fn field(name: &str, value: &str) -> (r: (String, String))
    ensures
        r.0@ == name@,
        r.1@ == value@,
{
    (String::from_str(name), String::from_str(value))
}

/// The form of a text post submission.
pub fn submit_form(subreddit: &str, title: &str, text: &str) -> (r: Vec<(String, String)>)
    ensures
        form_view(r@) == seq![
            ("sr"@, bare_subreddit(subreddit@)),
            ("title"@, title@),
            ("text"@, text@),
            ("kind"@, "self"@),
        ],
{
    let sr = clean_subreddit(subreddit);
    let r = vec![
        field("sr", sr.as_str()),
        field("title", title),
        field("text", text),
        field("kind", "self"),
    ];
    assert(form_view(r@) =~= seq![
        ("sr"@, bare_subreddit(subreddit@)),
        ("title"@, title@),
        ("text"@, text@),
        ("kind"@, "self"@),
    ]);
    r
}

/// The form of a comment on the thing `thing_id` (`t3_…` a post, `t1_…` a comment).
pub fn comment_form(thing_id: &str, text: &str) -> (r: Vec<(String, String)>)
    ensures
        form_view(r@) == seq![("api_type"@, "json"@), ("thing_id"@, thing_id@), ("text"@, text@)],
{
    let r = vec![field("api_type", "json"), field("thing_id", thing_id), field("text", text)];
    assert(form_view(r@) =~= seq![
        ("api_type"@, "json"@),
        ("thing_id"@, thing_id@),
        ("text"@, text@),
    ]);
    r
}

/// The message of a submission that the server answered with an HTTP error.
pub fn post_http_failure(status: &str, body: &str) -> (r: String)
    ensures
        r@ == "Failed to create post: HTTP "@ + status@ + ": "@ + body@,
{
    let mut r = concat("Failed to create post: HTTP ", status);
    r.append(": ");
    r.append(body);
    r
}

/// The message of a comment that the server answered with an HTTP error.
pub fn comment_http_failure(status: &str, body: &str) -> (r: String)
    ensures
        r@ == "Failed to create comment: HTTP "@ + status@ + ": "@ + body@,
{
    let mut r = concat("Failed to create comment: HTTP ", status);
    r.append(": ");
    r.append(body);
    r
}

// ------------------------------------------------------- submission answer

pub open spec fn post_user_required_message() -> Seq<char> {
    "Reddit requires user authentication with 'submit' scope to create posts. The current authentication method (application-only) only supports reading public data. You need to implement the full OAuth flow with a Reddit account."@
}

pub open spec fn post_unconfirmed_message() -> Seq<char> {
    "Post was successful, but couldn't extract the URL"@
}

pub open spec fn post_refused_message() -> Seq<char> {
    "Failed to create post. Reddit requires user authentication with proper scopes for this operation."@
}

/// Element 0 of the array at position 3 of a jQuery instruction, if there
/// is such a non-empty array.
pub open spec fn first_call_arg(item: Json) -> Option<Json> {
    match item.at(3).array_view() {
        Some(args) => if args.len() > 0 {
            Some(args[0])
        } else {
            None
        },
        None => None,
    }
}

/// The instruction says that a user login is required.
pub open spec fn user_required_at(item: Json) -> bool {
    match first_call_arg(item) {
        Some(a) => a.str_view() == Some(".error.USER_REQUIRED"@),
        None => false,
    }
}

/// The error text of a `call` instruction that reports one.
pub open spec fn call_error_at(item: Json) -> Option<Seq<char>> {
    if item.at(2).str_view() == Some("call"@) {
        match first_call_arg(item) {
            Some(a) => match a.str_view() {
                Some(m) => if has_prefix(m, "Please"@) || contains(m, "error"@) {
                    Some(m)
                } else {
                    None
                },
                None => None,
            },
            None => None,
        }
    } else {
        None
    }
}

/// The first failure reported by the instructions from position `i` on.
pub open spec fn failure_scan(items: Seq<Json>, i: int) -> Option<Seq<char>>
    decreases items.len() - i,
{
    if i < 0 || i >= items.len() {
        None
    } else if user_required_at(items[i]) {
        Some(post_user_required_message())
    } else {
        match call_error_at(items[i]) {
            Some(m) => Some("Reddit API error: "@ + m),
            None => failure_scan(items, i + 1),
        }
    }
}

/// The URL that an `attr redirect` instruction points at: the first call
/// argument of the instruction it names by index.
pub open spec fn redirect_at(items: Seq<Json>, item: Json) -> Option<Seq<char>> {
    if item.at(2).str_view() == Some("attr"@) && item.at(3).str_view() == Some("redirect"@) {
        let n: int = match item.at(1).u64_view() {
            Some(n) => n as int,
            None => 0,
        };
        if n < items.len() && items[n].at(2).str_view() == Some("call"@) {
            match first_call_arg(items[n]) {
                Some(a) => a.str_view(),
                None => None,
            }
        } else {
            None
        }
    } else {
        None
    }
}

/// The first redirect URL of the instructions from position `i` on.
pub open spec fn redirect_scan(items: Seq<Json>, i: int) -> Option<Seq<char>>
    decreases items.len() - i,
{
    if i < 0 || i >= items.len() {
        None
    } else {
        match redirect_at(items, items[i]) {
            Some(u) => Some(u),
            None => redirect_scan(items, i + 1),
        }
    }
}

/// The answer's `json.errors` array, when it has elements.
pub open spec fn has_errors(json: Json) -> bool {
    match json.field("json"@).field("errors"@).array_view() {
        Some(e) => e.len() > 0,
        None => false,
    }
}

/// What a submission answer means. `errors_text` is how the HTTP layer
/// prints the answer's `json.errors` array.
pub open spec fn post_reply(json: Json, errors_text: Seq<char>) -> Result<Seq<char>, Seq<char>> {
    let success = json.field("success"@).bool_view();
    let jq = json.field("jquery"@).array_view();
    if success == Some(false) && jq is Some && failure_scan(jq.unwrap(), 0) is Some {
        Err(failure_scan(jq.unwrap(), 0).unwrap())
    } else if has_errors(json) {
        Err("Reddit API returned an error: "@ + errors_text)
    } else if success == Some(true) && jq is Some && redirect_scan(jq.unwrap(), 0) is Some {
        Ok(redirect_scan(jq.unwrap(), 0).unwrap())
    } else if json.field("json"@).field("data"@).field("url"@).str_view() is Some {
        Ok(json.field("json"@).field("data"@).field("url"@).str_view().unwrap())
    } else if success == Some(true) {
        Ok(post_unconfirmed_message())
    } else {
        Err(post_refused_message())
    }
}

pub open spec fn result_view(r: Result<String, String>) -> Result<Seq<char>, Seq<char>> {
    match r {
        Ok(s) => Ok(s@),
        Err(s) => Err(s@),
    }
}

fn at_str(j: &Json, i: usize) -> (r: Option<&String>)
    ensures
        r is Some <==> j.at(i as int).str_view() is Some,
        r is Some ==> r.unwrap()@ == j.at(i as int).str_view().unwrap(),
{
    match j.index(i) {
        Some(v) => v.as_str(),
        None => None,
    }
}

fn str_is(s: Option<&String>, lit: &str) -> (r: bool)
    ensures
        r == (s is Some && s.unwrap()@ == lit@),
{
    match s {
        Some(t) => {
            let l = String::from_str(lit);
            *t == l
        },
        None => false,
    }
}

fn call_arg(item: &Json) -> (r: Option<&Json>)
    ensures
        r is Some <==> first_call_arg(*item) is Some,
        r is Some ==> *r.unwrap() == first_call_arg(*item).unwrap(),
{
    match item.index(3) {
        Some(a) => match a.as_array() {
            Some(args) => if args.len() > 0 {
                Some(&args[0])
            } else {
                None
            },
            None => None,
        },
        None => None,
    }
}

fn user_required(item: &Json) -> (r: bool)
    ensures
        r == user_required_at(*item),
{
    match call_arg(item) {
        Some(a) => str_is(a.as_str(), ".error.USER_REQUIRED"),
        None => false,
    }
}

fn call_error(item: &Json) -> (r: Option<String>)
    ensures
        opt_view(r) == call_error_at(*item),
{
    if !str_is(at_str(item, 2), "call") {
        return None;
    }
    match call_arg(item) {
        Some(a) => match a.as_str() {
            Some(m) => if starts_with(m.as_str(), "Please") || contains_str(m.as_str(), "error") {
                Some(m.clone())
            } else {
                None
            },
            None => None,
        },
        None => None,
    }
}

fn redirect_target(items: &Vec<Json>, item: &Json) -> (r: Option<String>)
    ensures
        opt_view(r) == redirect_at(items@, *item),
{
    if !(str_is(at_str(item, 2), "attr") && str_is(at_str(item, 3), "redirect")) {
        return None;
    }
    let n: u64 = match item.index(1) {
        Some(v) => match v.as_u64() {
            Some(n) => n,
            None => 0,
        },
        None => 0,
    };
    if n < items.len() as u64 {
        let target = &items[n as usize];
        if str_is(at_str(target, 2), "call") {
            match call_arg(target) {
                Some(a) => match a.as_str() {
                    Some(u) => return Some(u.clone()),
                    None => return None,
                },
                None => return None,
            }
        }
    }
    None
}

fn first_failure(items: &Vec<Json>) -> (r: Option<String>)
    ensures
        opt_view(r) == failure_scan(items@, 0),
{
    let mut i: usize = 0;
    while i < items.len()
        invariant
            i <= items@.len(),
            failure_scan(items@, 0) == failure_scan(items@, i as int),
        decreases items@.len() - i,
    {
        if user_required(&items[i]) {
            return Some(
                String::from_str(
                    "Reddit requires user authentication with 'submit' scope to create posts. The current authentication method (application-only) only supports reading public data. You need to implement the full OAuth flow with a Reddit account.",
                ),
            );
        }
        match call_error(&items[i]) {
            Some(m) => return Some(concat("Reddit API error: ", m.as_str())),
            None => {},
        }
        i = i + 1;
    }
    None
}

fn first_redirect(items: &Vec<Json>) -> (r: Option<String>)
    ensures
        opt_view(r) == redirect_scan(items@, 0),
{
    let mut i: usize = 0;
    while i < items.len()
        invariant
            i <= items@.len(),
            redirect_scan(items@, 0) == redirect_scan(items@, i as int),
        decreases items@.len() - i,
    {
        match redirect_target(items, &items[i]) {
            Some(u) => return Some(u),
            None => {},
        }
        i = i + 1;
    }
    None
}

fn errors_present(json: &Json) -> (r: bool)
    ensures
        r == has_errors(*json),
{
    match json.get("json") {
        Some(j) => match j.get("errors") {
            Some(e) => match e.as_array() {
                Some(a) => a.len() > 0,
                None => false,
            },
            None => false,
        },
        None => false,
    }
}

fn data_str<'a>(json: &'a Json, key: &str) -> (r: Option<&'a String>)
    ensures
        r is Some <==> json.field("json"@).field("data"@).field(key@).str_view() is Some,
        r is Some ==> r.unwrap()@ == json.field("json"@).field("data"@).field(key@).str_view().unwrap(),
{
    match json.get("json") {
        Some(j) => match j.get("data") {
            Some(d) => d.str_field(key),
            None => None,
        },
        None => None,
    }
}

/// Reads the answer to a post submission that succeeded at the HTTP level.
/// `errors_text` is how the HTTP layer prints the answer's `json.errors`.
pub fn read_post_reply(json: &Json, errors_text: &str) -> (r: Result<String, String>)
    ensures
        result_view(r) == post_reply(*json, errors_text@),
{
    let success = match json.get("success") {
        Some(v) => v.as_bool(),
        None => None,
    };
    let jquery = match json.get("jquery") {
        Some(v) => v.as_array(),
        None => None,
    };
    if success == Some(false) {
        match jquery {
            Some(items) => match first_failure(items) {
                Some(m) => return Err(m),
                None => {},
            },
            None => {},
        }
    }
    if errors_present(json) {
        return Err(concat("Reddit API returned an error: ", errors_text));
    }
    if success == Some(true) {
        match jquery {
            Some(items) => match first_redirect(items) {
                Some(u) => return Ok(u),
                None => {},
            },
            None => {},
        }
    }
    match data_str(json, "url") {
        Some(u) => return Ok(u.clone()),
        None => {},
    }
    if success == Some(true) {
        Ok(String::from_str("Post was successful, but couldn't extract the URL"))
    } else {
        Err(
            String::from_str(
                "Failed to create post. Reddit requires user authentication with proper scopes for this operation.",
            ),
        )
    }
}

// --------------------------------------------------------- comment answer

pub open spec fn comment_user_required_message() -> Seq<char> {
    "Reddit requires user authentication with 'submit' scope to create comments. The current authentication method (application-only) only supports reading public data."@
}

pub open spec fn comment_unconfirmed_message() -> Seq<char> {
    "Comment was created successfully, but couldn't extract the details"@
}

/// What a comment answer means. `errors_text` is how the HTTP layer prints
/// the answer's `json.errors` array.
pub open spec fn comment_reply(json: Json, errors_text: Seq<char>) -> Result<Seq<char>, Seq<char>> {
    let things = json.field("json"@).field("data"@).field("things"@).array_view();
    if has_errors(json) {
        Err("Reddit API returned an error: "@ + errors_text)
    } else if json.field("error"@).i64_view() == Some(403int) {
        Err(comment_user_required_message())
    } else if things is Some && things.unwrap().len() > 0 {
        let d = things.unwrap()[0].field("data"@);
        let name = d.field("name"@).str_view();
        let link = d.field("permalink"@).str_view();
        if name is Some && link is Some {
            Ok("https://reddit.com"@ + link.unwrap())
        } else if name is Some {
            Ok("Comment created successfully with ID: "@ + name.unwrap())
        } else {
            Ok(comment_unconfirmed_message())
        }
    } else {
        Ok(comment_unconfirmed_message())
    }
}

/// Reads the answer to a comment that succeeded at the HTTP level.
/// `errors_text` is how the HTTP layer prints the answer's `json.errors`.
pub fn read_comment_reply(json: &Json, errors_text: &str) -> (r: Result<String, String>)
    ensures
        result_view(r) == comment_reply(*json, errors_text@),
{
    if errors_present(json) {
        return Err(concat("Reddit API returned an error: ", errors_text));
    }
    let forbidden = match json.get("error") {
        Some(e) => match e.as_i64() {
            Some(code) => code == 403,
            None => false,
        },
        None => false,
    };
    if forbidden {
        return Err(
            String::from_str(
                "Reddit requires user authentication with 'submit' scope to create comments. The current authentication method (application-only) only supports reading public data.",
            ),
        );
    }
    let things = match json.get("json") {
        Some(j) => match j.get("data") {
            Some(d) => match d.get("things") {
                Some(t) => t.as_array(),
                None => None,
            },
            None => None,
        },
        None => None,
    };
    match things {
        Some(items) => if items.len() > 0 {
            let (name, link) = match items[0].get("data") {
                Some(d) => (d.str_field("name"), d.str_field("permalink")),
                None => (None, None),
            };
            match (name, link) {
                (Some(_), Some(l)) => return Ok(concat("https://reddit.com", l.as_str())),
                (Some(n), None) => return Ok(
                    concat("Comment created successfully with ID: ", n.as_str()),
                ),
                _ => {},
            }
        },
        None => {},
    }
    Ok(String::from_str("Comment was created successfully, but couldn't extract the details"))
}

} // verus!
