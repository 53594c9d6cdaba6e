//! The options and results of each command, and how a command's outcome
//! becomes its result. An error reaches these functions as the text that the
//! HTTP layer prints for it.
use vstd::prelude::*;
use vstd::string::*;

use crate::text::concat;

verus! {

pub open spec fn posted_message(url: Seq<char>) -> Seq<char> {
    "Post created successfully! URL: "@ + url
}

pub open spec fn post_error_message(err: Seq<char>) -> Seq<char> {
    "Error creating post: "@ + err
}

pub open spec fn auth_error_message(err: Seq<char>) -> Seq<char> {
    "Failed to authenticate with Reddit API: "@ + err
}

/// The result fields of a post attempt: on success the URL, otherwise the
/// error; `auth_failed` marks a failure before posting.
pub open spec fn post_fields(
    outcome: Result<String, String>,
    success: bool,
    post_url: Option<String>,
    message: Seq<char>,
) -> bool {
    match outcome {
        Ok(url) => success && post_url == Some(url) && message == posted_message(url@),
        Err(e) => !success && post_url is None && message == post_error_message(e@),
    }
}

fn post_parts(outcome: Result<String, String>) -> (r: (bool, Option<String>, String))
    ensures
        post_fields(outcome, r.0, r.1, r.2@),
{
    match outcome {
        Ok(url) => {
            let message = concat("Post created successfully! URL: ", url.as_str());
            (true, Some(url), message)
        },
        Err(e) => (false, None, concat("Error creating post: ", e.as_str())),
    }
}

/// Options of a post made with the client as it is configured.
pub struct CreateOptions {
    pub subreddit: String,
    pub title: String,
    pub text: String,
}

/// Result of a post attempt.
pub struct CreateResult {
    pub success: bool,
    pub post_url: Option<String>,
    pub message: String,
}

impl CreateResult {
    /// The result of a post attempt with the given outcome.
    pub fn from_outcome(outcome: Result<String, String>) -> (r: Self)
        ensures
            post_fields(outcome, r.success, r.post_url, r.message@),
    {
        let (success, post_url, message) = post_parts(outcome);
        CreateResult { success, post_url, message }
    }
}

/// Options of a post made with a script app's credentials.
pub struct ApiCreateOptions {
    pub subreddit: String,
    pub title: String,
    pub text: String,
    pub client_id: String,
    pub client_secret: String,
    pub username: String,
    pub password: String,
}

/// Result of a post made with a script app's credentials.
pub struct ApiCreateResult {
    pub success: bool,
    pub post_url: Option<String>,
    pub message: String,
}

impl ApiCreateResult {
    /// The result when authentication failed with error `err`.
    pub fn auth_failed(err: &str) -> (r: Self)
        ensures
            !r.success,
            r.post_url is None,
            r.message@ == auth_error_message(err@),
    {
        ApiCreateResult {
            success: false,
            post_url: None,
            message: concat("Failed to authenticate with Reddit API: ", err),
        }
    }

    /// The result of the post attempt that followed authentication.
    pub fn from_outcome(outcome: Result<String, String>) -> (r: Self)
        ensures
            post_fields(outcome, r.success, r.post_url, r.message@),
    {
        let (success, post_url, message) = post_parts(outcome);
        ApiCreateResult { success, post_url, message }
    }
}

/// Options of a post made after a username/password login.
pub struct UserCreateOptions {
    pub subreddit: String,
    pub title: String,
    pub text: String,
    pub client_id: String,
    pub username: String,
    pub password: String,
}

/// Result of a post made after a username/password login.
pub struct UserCreateResult {
    pub success: bool,
    pub post_url: Option<String>,
    pub message: String,
}

impl UserCreateResult {
    /// The result when authentication failed with error `err`.
    pub fn auth_failed(err: &str) -> (r: Self)
        ensures
            !r.success,
            r.post_url is None,
            r.message@ == auth_error_message(err@),
    {
        UserCreateResult {
            success: false,
            post_url: None,
            message: concat("Failed to authenticate with Reddit API: ", err),
        }
    }

    /// The result of the post attempt that followed authentication.
    pub fn from_outcome(outcome: Result<String, String>) -> (r: Self)
        ensures
            post_fields(outcome, r.success, r.post_url, r.message@),
    {
        let (success, post_url, message) = post_parts(outcome);
        UserCreateResult { success, post_url, message }
    }
}

/// Options of a post made with tokens supplied by hand.
pub struct TokenCreateOptions {
    pub subreddit: String,
    pub title: String,
    pub text: String,
    pub client_id: String,
    pub access_token: String,
    pub refresh_token: Option<String>,
    pub expires_in: u64,
}

/// Result of a post made with tokens supplied by hand.
pub struct TokenCreateResult {
    pub success: bool,
    pub post_url: Option<String>,
    pub message: String,
}

impl TokenCreateResult {
    /// The result when the tokens could not be stored (error `err`).
    pub fn tokens_rejected(err: &str) -> (r: Self)
        ensures
            !r.success,
            r.post_url is None,
            r.message@ == "Failed to set tokens: "@ + err@,
    {
        TokenCreateResult {
            success: false,
            post_url: None,
            message: concat("Failed to set tokens: ", err),
        }
    }

    /// The result of the post attempt that followed.
    pub fn from_outcome(outcome: Result<String, String>) -> (r: Self)
        ensures
            post_fields(outcome, r.success, r.post_url, r.message@),
    {
        let (success, post_url, message) = post_parts(outcome);
        TokenCreateResult { success, post_url, message }
    }
}

/// Options of a post made after browser authentication.
pub struct BrowserCreateOptions {
    pub subreddit: String,
    pub title: String,
    pub text: String,
    pub client_id: String,
    /// Port of the local callback server (8080 when not given).
    pub port: Option<u16>,
}

/// Result of a post made after browser authentication.
pub struct BrowserCreateResult {
    pub success: bool,
    pub post_url: Option<String>,
    pub message: String,
    /// Whether cached tokens were used instead of a browser login.
    pub used_stored_tokens: bool,
}

impl BrowserCreateResult {
    /// The result when authentication failed with error `err`.
    pub fn auth_failed(err: &str) -> (r: Self)
        ensures
            !r.success,
            r.post_url is None,
            r.message@ == auth_error_message(err@),
            !r.used_stored_tokens,
    {
        BrowserCreateResult {
            success: false,
            post_url: None,
            message: concat("Failed to authenticate with Reddit API: ", err),
            used_stored_tokens: false,
        }
    }

    /// The result of the post attempt that followed authentication.
    pub fn from_outcome(outcome: Result<String, String>, used_stored_tokens: bool) -> (r: Self)
        ensures
            post_fields(outcome, r.success, r.post_url, r.message@),
            r.used_stored_tokens == used_stored_tokens,
    {
        let (success, post_url, message) = post_parts(outcome);
        BrowserCreateResult { success, post_url, message, used_stored_tokens }
    }
}

/// Options of a comment.
pub struct CommentOptions {
    /// The parent: `t3_…` for a post, `t1_…` for a comment.
    pub thing_id: String,
    pub text: String,
    pub client_id: String,
}

/// Result of a comment attempt.
pub struct CommentResult {
    pub success: bool,
    pub comment_url: Option<String>,
    pub message: String,
}

pub open spec fn comment_note() -> Seq<char> {
    "\n\nNote: Commenting requires OAuth authentication with the 'submit' scope."@
}

impl CommentResult {
    /// The result when authentication failed with error `err`.
    pub fn auth_failed(err: &str) -> (r: Self)
        ensures
            !r.success,
            r.comment_url is None,
            r.message@ == auth_error_message(err@),
    {
        CommentResult {
            success: false,
            comment_url: None,
            message: concat("Failed to authenticate with Reddit API: ", err),
        }
    }

    /// The result of the comment attempt that followed authentication.
    pub fn from_outcome(outcome: Result<String, String>) -> (r: Self)
        ensures
            match outcome {
                Ok(url) => r.success && r.comment_url == Some(url) && r.message@
                    == "Comment created successfully! URL or ID: "@ + url@,
                Err(e) => !r.success && r.comment_url is None && r.message@ == "Error creating comment: "@
                    + e@ + comment_note(),
            },
    {
        match outcome {
            Ok(url) => {
                let message = concat("Comment created successfully! URL or ID: ", url.as_str());
                CommentResult { success: true, comment_url: Some(url), message }
            },
            Err(e) => {
                let mut message = concat("Error creating comment: ", e.as_str());
                message.append(
                    "\n\nNote: Commenting requires OAuth authentication with the 'submit' scope.",
                );
                CommentResult { success: false, comment_url: None, message }
            },
        }
    }
}

} // verus!
