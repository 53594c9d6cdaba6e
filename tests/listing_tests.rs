use redrust::listing::{
    format_listing, front_page_new_url, popular_new_url, status_error_message, subreddit_new_url,
    PostView, PostsOptions,
};
use redrust::operations::{
    ApiCreateResult, BrowserCreateResult, CommentResult, CreateResult, TokenCreateResult,
    UserCreateResult,
};
use redrust::text::{contains_str, decimal_string, replace, starts_with, trim};

fn post() -> PostView {
    PostView {
        id: "abc".to_string(),
        title: "Hello".to_string(),
        author: "bob".to_string(),
        subreddit: "rust".to_string(),
        subreddit_name_prefixed: "r/rust".to_string(),
        permalink: "/r/rust/comments/abc/hello/".to_string(),
        url: "https://www.reddit.com/r/rust/comments/abc/hello/".to_string(),
        selftext: "Body".to_string(),
        link_flair_text: Some("News".to_string()),
        score: 42,
        upvote_percent: 97,
        num_comments: 5,
        created_utc: 0,
        is_self: true,
        is_video: false,
        over_18: false,
        spoiler: true,
        is_original_content: false,
        stickied: false,
        locked: false,
    }
}

#[test]
fn listing_urls() {
    assert_eq!(subreddit_new_url(true, "rust", 5), "https://oauth.reddit.com/r/rust/new.json?limit=5");
    assert_eq!(subreddit_new_url(false, "rust", -1), "https://www.reddit.com/r/rust/new.json?limit=-1");
    assert_eq!(front_page_new_url(false, 25), "https://www.reddit.com/new.json?feed=home&limit=25");
    assert_eq!(popular_new_url(true, 3), "https://oauth.reddit.com/r/popular/new.json?limit=3");
    assert_eq!(status_error_message("429 Too Many Requests"), "Server returned error status: 429 Too Many Requests");
}

#[test]
fn posts_options_default() {
    let o = PostsOptions::default();
    assert_eq!(o.count, 10);
    assert!(o.subreddit.is_none());
    assert!(!o.brief);
    assert!(o.user_agent.is_none());
}

#[test]
fn summary_of_a_text_post() {
    assert_eq!(
        post().format_summary(),
        "Title: Hello\nAuthor: u/bob\nSubreddit: r/rust\nScore: 42 (97% upvoted) | Comments: 5\nFlags: [Self Post, Spoiler]\nFlair: News\n\nContent:\n---------\nBody\n---------\n\nPermalink: https://reddit.com/r/rust/comments/abc/hello/"
    );
}

#[test]
fn summary_of_a_link_post() {
    let mut p = post();
    p.is_self = false;
    p.spoiler = false;
    p.link_flair_text = Some(String::new());
    p.url = "https://example.com/a".to_string();
    assert_eq!(
        p.format_summary(),
        "Title: Hello\nAuthor: u/bob\nSubreddit: r/rust\nScore: 42 (97% upvoted) | Comments: 5\n\nPermalink: https://reddit.com/r/rust/comments/abc/hello/\nExternal URL: https://example.com/a"
    );
}

#[test]
fn long_text_is_cut_at_five_hundred_bytes() {
    let mut p = post();
    p.selftext = "a".repeat(600);
    let out = p.format_summary();
    assert!(out.contains(&format!("\n---------\n{}...\n---------\n", "a".repeat(500))));
    p.selftext = format!("{}é", "a".repeat(499));
    let out = p.format_summary();
    assert!(out.contains(&format!("\n---------\n{}...\n---------\n", "a".repeat(499))));
}

#[test]
fn short_summary() {
    assert_eq!(post().format_short_summary(), "[r/rust | 42 pts] Hello - by u/bob");
}

#[test]
fn utc_timestamp() {
    assert_eq!(post().format_timestamp(), "1970-01-01 00:00:00 UTC");
}

#[test]
fn brief_line_of_a_text_post() {
    assert_eq!(
        post().brief_line(1),
        " 1. [T] [16:00] Hello (\"Body\") r/rust | ID: t3_abc | https://reddit.com/r/rust/comments/abc/hello/\n"
    );
}

#[test]
fn brief_line_shortens_long_fields() {
    let mut p = post();
    p.is_self = false;
    p.title = "abcdefghijklmnopqrstuvwxyz0123456789".to_string();
    p.url = "https://i.redd.it/abcdefghijklmnopqrstuvwxyz.jpg".to_string();
    assert_eq!(
        p.brief_line(12),
        "12. [I] [16:00] abcdefghijklmnopqrstuvwxyz0... (i.redd.it/abcdefghijklmnopq...) r/rust | ID: t3_abc | https://reddit.com/r/rust/comments/abc/hello/\n"
    );
    let mut q = post();
    q.selftext = "  line one\nline two and then quite a lot more text  ".to_string();
    assert!(q.brief_line(3).contains("(\"line one line two and then ...\")"));
    q.selftext = "   ".to_string();
    assert!(q.brief_line(3).contains("([No content])"));
}

#[test]
fn listing_output() {
    assert_eq!(format_listing(&vec![], true), "No posts found.\n");
    let brief = format_listing(&vec![post(), post()], true);
    assert!(brief.starts_with("Found 2 posts\n 1. [T]"));
    assert!(brief.contains("\n 2. [T]"));
    assert!(brief.ends_with("[G] = Gallery\n[L] = Link\n"));
    let detailed = format_listing(&vec![post()], false);
    assert!(detailed.starts_with(
        "Found 1 posts\n\n============ POST =============\n[1969-12-31 16:00:00] [Los Angeles time]\nThing ID: t3_abc (use this for commenting)\nTitle: Hello"
    ));
    assert!(detailed.ends_with("\n================================\n\n"));
}

#[test]
fn text_helpers() {
    assert_eq!(decimal_string(-120), "-120");
    assert_eq!(decimal_string(i64::MIN), "-9223372036854775808");
    assert!(contains_str("https://imgur.com/x", "imgur.com"));
    assert!(!contains_str("imgur", "imgur.com"));
    assert!(starts_with("r/x", "r/"));
    assert_eq!(trim("\t a b \n"), "a b");
    assert_eq!(replace("a\nb", '\n', ' '), "a b");
}

#[test]
fn operation_results() {
    let ok = CreateResult::from_outcome(Ok("u".to_string()));
    assert!(ok.success);
    assert_eq!(ok.post_url, Some("u".to_string()));
    assert_eq!(ok.message, "Post created successfully! URL: u");
    let err = UserCreateResult::from_outcome(Err("ApiError(\"x\")".to_string()));
    assert!(!err.success);
    assert_eq!(err.message, "Error creating post: ApiError(\"x\")");
    assert_eq!(ApiCreateResult::auth_failed("E").message, "Failed to authenticate with Reddit API: E");
    assert_eq!(TokenCreateResult::tokens_rejected("E").message, "Failed to set tokens: E");
    assert!(TokenCreateResult::from_outcome(Ok("v".to_string())).success);
    let b = BrowserCreateResult::from_outcome(Ok("w".to_string()), true);
    assert!(b.used_stored_tokens);
    assert!(!BrowserCreateResult::auth_failed("E").used_stored_tokens);
    let c = CommentResult::from_outcome(Err("E".to_string()));
    assert_eq!(
        c.message,
        "Error creating comment: E\n\nNote: Commenting requires OAuth authentication with the 'submit' scope."
    );
    assert_eq!(
        CommentResult::from_outcome(Ok("l".to_string())).message,
        "Comment created successfully! URL or ID: l"
    );
    assert_eq!(CommentResult::auth_failed("E").comment_url, None);
    assert_eq!(ApiCreateResult::from_outcome(Err("E".to_string())).post_url, None);
}
