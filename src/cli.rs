//! The commands of the command-line program, as plain data.
use vstd::prelude::*;

verus! {

/// A parsed command line.
pub struct Cli {
    pub command: Commands,
}

/// The commands of the program.
#[allow(inconsistent_fields)]
pub enum Commands {
    /// Fetch posts from a subreddit, or from the public front page.
    Posts { count: i32, subreddit: Option<String>, brief: bool },
    /// Post with the client as configured.
    Create { subreddit: String, title: String, text: String },
    /// Post after a username/password login (script apps).
    UserCreate { subreddit: String, title: String, text: String },
    /// Post after browser authentication.
    BrowserCreate { subreddit: String, title: String, text: String, port: Option<u16> },
    /// Post with tokens supplied by hand.
    TokenCreate { subreddit: String, title: String, text: String, expires_in: u64 },
    /// Post with a script app's credentials.
    ApiCreate { subreddit: String, title: String, text: String },
    /// Comment with the client as configured.
    Comment { thing_id: String, text: String },
    /// Comment after browser authentication.
    BrowserComment { thing_id: String, text: String, port: Option<u16> },
    /// Comment after a username/password login.
    UserComment { thing_id: String, text: String },
}

} // verus!
