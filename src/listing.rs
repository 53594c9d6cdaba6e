//! Fetching listings of new posts: the URLs asked for, and how posts are
//! shown (a detailed block or a one-line summary per post).
use vstd::prelude::*;
use vstd::string::*;

use crate::text::{
    concat, contains, contains_str, decimal, first_chars, has_prefix, push_decimal, push_signed,
    replace, replace_char, signed_decimal, starts_with, take_chars, trim, trimmed, drop_chars,
};

verus! {

// ------------------------------------------------------------------ requests

/// Options of a listing fetch.
pub struct PostsOptions {
    /// How many posts to ask for.
    pub count: i32,
    /// The subreddit; the public front page when `None`.
    pub subreddit: Option<String>,
    /// One line per post instead of a detailed block.
    pub brief: bool,
    pub user_agent: Option<String>,
}

impl Default for PostsOptions {
    fn default() -> (r: Self)
        ensures
            r.count == 10,
            r.subreddit is None,
            !r.brief,
            r.user_agent is None,
    {
        PostsOptions { count: 10, subreddit: None, brief: false, user_agent: None }
    }
}

/// The API host: the OAuth one when a token is sent, the public one otherwise.
pub open spec fn api_base(has_token: bool) -> Seq<char> {
    if has_token {
        "https://oauth.reddit.com"@
    } else {
        "https://www.reddit.com"@
    }
}

fn base(has_token: bool) -> (r: &'static str)
    ensures
        r@ == api_base(has_token),
{
    if has_token {
        "https://oauth.reddit.com"
    } else {
        "https://www.reddit.com"
    }
}

/// The URL of a subreddit's newest posts.
pub fn subreddit_new_url(has_token: bool, subreddit: &str, limit: i32) -> (r: String)
    ensures
        r@ == api_base(has_token) + "/r/"@ + subreddit@ + "/new.json?limit="@ + signed_decimal(
            limit as int,
        ),
{
    let mut r = concat(base(has_token), "/r/");
    r.append(subreddit);
    r.append("/new.json?limit=");
    push_signed(&mut r, limit as i64);
    r
}

/// The URL of the newest posts of the front page.
pub fn front_page_new_url(has_token: bool, limit: i32) -> (r: String)
    ensures
        r@ == api_base(has_token) + "/new.json?feed=home&limit="@ + signed_decimal(limit as int),
{
    let mut r = concat(base(has_token), "/new.json?feed=home&limit=");
    push_signed(&mut r, limit as i64);
    r
}

/// The URL tried when the front page cannot be reached: r/popular's newest.
pub fn popular_new_url(has_token: bool, limit: i32) -> (r: String)
    ensures
        r@ == api_base(has_token) + "/r/popular/new.json?limit="@ + signed_decimal(limit as int),
{
    let mut r = concat(base(has_token), "/r/popular/new.json?limit=");
    push_signed(&mut r, limit as i64);
    r
}

/// The message of a listing request answered with an HTTP error.
pub fn status_error_message(status: &str) -> (r: String)
    ensures
        r@ == "Server returned error status: "@ + status@,
{
    concat("Server returned error status: ", status)
}

// ---------------------------------------------------------------- times

/// The name of chrono's rendering, with `pattern`, of the Unix time `ts` as
/// wall-clock time in America/Los_Angeles (`None` when out of its range).
pub uninterp spec fn local_time_text_of(ts: int, pattern: Seq<char>) -> Option<Seq<char>>;

/// The name of chrono's rendering, with `pattern`, of the Unix time `ts` in
/// UTC (`None` when out of its range).
pub uninterp spec fn utc_time_text_of(ts: int, pattern: Seq<char>) -> Option<Seq<char>>;

/// The patterns of the Los Angeles times shown (chrono's `format` panics on
/// malformed ones, so only these are handed to it).
pub open spec fn is_local_pattern(p: Seq<char>) -> bool {
    p == "%H:%M"@ || p == "%Y-%m-%d %H:%M:%S"@
}

/// The pattern of the UTC creation time of a post.
pub const UTC_PATTERN: &'static str = "%Y-%m-%d %H:%M:%S UTC";

/// Relies on chrono's DateTime::from_timestamp and format, with chrono-tz's
/// America/Los_Angeles zone: the text depends on `ts` and `pattern` alone.
#[verifier::external_body]
fn los_angeles_text(ts: i64, pattern: &str) -> (r: Option<String>)
    requires
        is_local_pattern(pattern@),
    ensures
        r is Some <==> local_time_text_of(ts as int, pattern@) is Some,
        r is Some ==> r.unwrap()@ == local_time_text_of(ts as int, pattern@).unwrap(),
{
    match chrono::DateTime::from_timestamp(ts, 0) {
        Some(t) => Some(t.with_timezone(&chrono_tz::America::Los_Angeles).format(pattern).to_string()),
        None => None,
    }
}

/// Relies on chrono's TimeZone::timestamp_opt (Utc) and format: the text
/// depends on `ts` and `pattern` alone.
#[verifier::external_body]
fn utc_text(ts: i64, pattern: &str) -> (r: Option<String>)
    requires
        pattern@ == UTC_PATTERN@,
    ensures
        r is Some <==> utc_time_text_of(ts as int, pattern@) is Some,
        r is Some ==> r.unwrap()@ == utc_time_text_of(ts as int, pattern@).unwrap(),
{
    match chrono::TimeZone::timestamp_opt(&chrono::Utc, ts, 0).single() {
        Some(t) => Some(t.format(pattern).to_string()),
        None => None,
    }
}

/// Relies on chrono's Utc::now and format: the current time rendered with
/// `pattern`. Nothing is promised of the text.
#[verifier::external_body]
fn utc_now_text(pattern: &str) -> (r: String)
    requires
        pattern@ == UTC_PATTERN@,
{
    chrono::Utc::now().format(pattern).to_string()
}

/// The Los Angeles wall-clock text of `ts`, or `--` when chrono cannot place it.
pub open spec fn local_or_dash(ts: int, pattern: Seq<char>) -> Seq<char> {
    match local_time_text_of(ts, pattern) {
        Some(t) => t,
        None => "--"@,
    }
}

fn local_text(ts: i64, pattern: &str) -> (r: String)
    requires
        is_local_pattern(pattern@),
    ensures
        r@ == local_or_dash(ts as int, pattern@),
{
    match los_angeles_text(ts, pattern) {
        Some(t) => t,
        None => String::from_str("--"),
    }
}

// ---------------------------------------------------------------- posts

/// What the listing shows of a post.
pub struct PostView {
    pub id: String,
    pub title: String,
    pub author: String,
    pub subreddit: String,
    pub subreddit_name_prefixed: String,
    pub permalink: String,
    pub url: String,
    pub selftext: String,
    pub link_flair_text: Option<String>,
    pub score: i32,
    /// Share of upvotes in percent, rounded towards zero.
    pub upvote_percent: i32,
    pub num_comments: i32,
    /// Creation time, in whole seconds since the Unix epoch.
    pub created_utc: i64,
    pub is_self: bool,
    pub is_video: bool,
    pub over_18: bool,
    pub spoiler: bool,
    pub is_original_content: bool,
    pub stickied: bool,
    pub locked: bool,
}

/// The items joined with `sep` between neighbours.
pub open spec fn join(items: Seq<Seq<char>>, sep: Seq<char>) -> Seq<char>
    decreases items.len(),
{
    if items.len() == 0 {
        Seq::empty()
    } else if items.len() == 1 {
        items[0]
    } else {
        join(items.drop_last(), sep) + sep + items.last()
    }
}

pub open spec fn strs_view(v: Seq<String>) -> Seq<Seq<char>> {
    v.map_values(|s: String| s@)
}

pub open spec fn flag_if(on: bool, name: Seq<char>) -> Seq<Seq<char>> {
    if on {
        seq![name]
    } else {
        Seq::empty()
    }
}

/// The number of bytes of the UTF-8 encoding of `c`.
pub open spec fn utf8_width(c: char) -> nat {
    if (c as u32) < 0x80 {
        1
    } else if (c as u32) < 0x800 {
        2
    } else if (c as u32) < 0x10000 {
        3
    } else {
        4
    }
}

/// The byte length of the UTF-8 encoding of `s`.
pub open spec fn utf8_len(s: Seq<char>) -> nat
    decreases s.len(),
{
    if s.len() == 0 {
        0
    } else {
        utf8_len(s.drop_last()) + utf8_width(s.last())
    }
}

fn char_width(c: char) -> (r: usize)
    ensures
        r == utf8_width(c),
{
    if (c as u32) < 0x80 {
        1
    } else if (c as u32) < 0x800 {
        2
    } else if (c as u32) < 0x10000 {
        3
    } else {
        4
    }
}

/// Whether the UTF-8 encoding of `s` is longer than `limit` bytes.
fn utf8_longer_than(s: &str, limit: usize) -> (r: bool)
    requires
        limit <= 1000,
    ensures
        r == (utf8_len(s@) > limit),
{
    let n = s.unicode_len();
    let mut acc: usize = 0;
    let mut i: usize = 0;
    while i < n
        invariant
            n == s@.len(),
            i <= n,
            acc == utf8_len(s@.take(i as int)),
            acc <= limit,
            limit <= 1000,
        decreases n - i,
    {
        assert(s@.take(i + 1).drop_last() =~= s@.take(i as int));
        acc = acc + char_width(s.get_char(i));
        if acc > limit {
            proof {
                lemma_utf8_len_prefix(s@, i + 1);
            }
            return true;
        }
        i = i + 1;
    }
    assert(s@.take(n as int) =~= s@);
    false
}

/// A prefix is no longer than the whole.
proof fn lemma_utf8_len_prefix(s: Seq<char>, k: int)
    requires
        0 <= k <= s.len(),
    ensures
        utf8_len(s.take(k)) <= utf8_len(s),
    decreases s.len() - k,
{
    if k < s.len() {
        lemma_utf8_len_prefix(s, k + 1);
        assert(s.take(k + 1).drop_last() =~= s.take(k));
    } else {
        assert(s.take(k) =~= s);
    }
}

/// The number of leading characters of `s`, from `k` on, that fit in
/// `limit` bytes: it stops before the first one that would not fit.
pub open spec fn fitting_chars(s: Seq<char>, limit: nat, k: nat) -> nat
    decreases s.len() - k,
{
    if k >= s.len() {
        s.len()
    } else if utf8_len(s.take(k + 1 as int)) > limit {
        k
    } else {
        fitting_chars(s, limit, k + 1)
    }
}

/// The longest prefix of `s` that fits in `limit` bytes.
pub open spec fn byte_prefix(s: Seq<char>, limit: nat) -> Seq<char> {
    s.take(fitting_chars(s, limit, 0) as int)
}

/// Longest text of a post shown in full, in bytes.
pub const EXCERPT_BYTES: usize = 500;

/// Longest title or excerpt shown on one line, in characters.
pub const LINE_FIELD_CHARS: usize = 30;

/// What is kept of a longer title or excerpt on one line, in characters.
pub const LINE_KEEP_CHARS: usize = 27;

impl PostView {
    pub open spec fn flags(self) -> Seq<Seq<char>> {
        flag_if(self.is_self, "Self Post"@) + flag_if(self.over_18, "NSFW"@) + flag_if(
            self.spoiler,
            "Spoiler"@,
        ) + flag_if(self.is_video, "Video"@) + flag_if(self.is_original_content, "OC"@) + flag_if(
            self.stickied,
            "Stickied"@,
        ) + flag_if(self.locked, "Locked"@)
    }

    pub open spec fn header_spec(self) -> Seq<char> {
        "Title: "@ + self.title@ + "\nAuthor: u/"@ + self.author@ + "\nSubreddit: r/"@
            + self.subreddit@ + "\nScore: "@ + signed_decimal(self.score as int) + " ("@
            + signed_decimal(self.upvote_percent as int) + "% upvoted) | Comments: "@
            + signed_decimal(self.num_comments as int) + "\n"@
    }

    pub open spec fn flags_spec(self) -> Seq<char> {
        if self.flags().len() > 0 {
            "Flags: ["@ + join(self.flags(), ", "@) + "]\n"@
        } else {
            Seq::empty()
        }
    }

    pub open spec fn flair_spec(self) -> Seq<char> {
        match self.link_flair_text {
            Some(f) => if f@.len() > 0 {
                "Flair: "@ + f@ + "\n"@
            } else {
                Seq::empty()
            },
            None => Seq::empty(),
        }
    }

    /// The post's text, cut to its first 500 bytes (whole characters) and
    /// marked with `...` when longer.
    pub open spec fn excerpt_spec(self) -> Seq<char> {
        if utf8_len(self.selftext@) > EXCERPT_BYTES {
            byte_prefix(self.selftext@, EXCERPT_BYTES as nat) + "..."@
        } else {
            self.selftext@
        }
    }

    pub open spec fn content_spec(self) -> Seq<char> {
        if self.is_self && self.selftext@.len() > 0 {
            "\nContent:\n---------\n"@ + self.excerpt_spec() + "\n---------\n"@
        } else {
            Seq::empty()
        }
    }

    pub open spec fn links_spec(self) -> Seq<char> {
        "\nPermalink: https://reddit.com"@ + self.permalink@ + if !self.is_self && self.url@
            != "https://reddit.com"@ + self.permalink@ {
            "\nExternal URL: "@ + self.url@
        } else {
            Seq::empty()
        }
    }

    /// The detailed description of a post.
    pub open spec fn summary_spec(self) -> Seq<char> {
        self.header_spec() + self.flags_spec() + self.flair_spec() + self.content_spec()
            + self.links_spec()
    }

    /// The one-line description of a post.
    pub open spec fn short_summary_spec(self) -> Seq<char> {
        "["@ + self.subreddit_name_prefixed@ + " | "@ + signed_decimal(self.score as int)
            + " pts] "@ + self.title@ + " - by u/"@ + self.author@
    }

    /// The post's kind as one letter: text, video, image, gallery or link.
    pub open spec fn kind_letter(self) -> Seq<char> {
        if self.is_self {
            "T"@
        } else if self.is_video {
            "V"@
        } else if contains(self.url@, "i.redd.it"@) || contains(self.url@, "imgur.com"@) {
            "I"@
        } else if contains(self.url@, "reddit.com/gallery"@) {
            "G"@
        } else {
            "L"@
        }
    }

    /// The title on one line: at most 30 characters, else 27 and `...`.
    pub open spec fn line_title(self) -> Seq<char> {
        if self.title@.len() > LINE_FIELD_CHARS {
            self.title@.take(LINE_KEEP_CHARS as int) + "..."@
        } else {
            self.title@
        }
    }

    /// The URL on one line: one over 30 bytes loses its scheme, and is cut
    /// to 27 characters and `...` if still over 30 bytes.
    pub open spec fn line_url(self) -> Seq<char> {
        let u = self.url@;
        if utf8_len(u) > LINE_FIELD_CHARS {
            let s = if has_prefix(u, "https://"@) {
                u.subrange(8, u.len() as int)
            } else if has_prefix(u, "http://"@) {
                u.subrange(7, u.len() as int)
            } else {
                u
            };
            if utf8_len(s) > LINE_FIELD_CHARS {
                take_chars(s, LINE_KEEP_CHARS as nat) + "..."@
            } else {
                s
            }
        } else {
            u
        }
    }

    /// What a line shows of the content: a quoted excerpt of a text post
    /// (newlines as spaces), the URL of any other.
    pub open spec fn line_content(self) -> Seq<char> {
        if self.is_self {
            let t = trimmed(self.selftext@);
            if t.len() == 0 {
                "[No content]"@
            } else if t.len() > LINE_FIELD_CHARS {
                "\""@ + replace_char(t.take(LINE_KEEP_CHARS as int), '\n', ' ') + "...\""@
            } else {
                "\""@ + replace_char(t, '\n', ' ') + "\""@
            }
        } else {
            self.line_url()
        }
    }

    /// The line of the post listed at position `n` (from 1).
    pub open spec fn brief_line_spec(self, n: nat) -> Seq<char> {
        (if n < 10 {
            " "@
        } else {
            Seq::empty()
        }) + decimal(n) + ". ["@ + self.kind_letter() + "] ["@ + local_or_dash(
            self.created_utc as int,
            "%H:%M"@,
        ) + "] "@ + self.line_title() + " ("@ + self.line_content() + ") r/"@ + self.subreddit@
            + " | ID: t3_"@ + self.id@ + " | https://reddit.com"@ + self.permalink@ + "\n"@
    }

    /// The detailed block of the post in a listing.
    pub open spec fn detailed_spec(self) -> Seq<char> {
        "\n============ POST =============\n["@ + local_or_dash(
            self.created_utc as int,
            "%Y-%m-%d %H:%M:%S"@,
        ) + "] [Los Angeles time]\nThing ID: t3_"@ + self.id@ + " (use this for commenting)\n"@
            + self.summary_spec() + "\n================================\n\n"@
    }

    fn push_flag(flags: &mut Vec<String>, on: bool, name: &str)
        ensures
            strs_view(final(flags)@) == strs_view(old(flags)@) + flag_if(on, name@),
    {
        let ghost before = strs_view(flags@);
        if on {
            flags.push(String::from_str(name));
        }
        assert(strs_view(flags@) =~= before + flag_if(on, name@));
    }

    fn join_flags(v: &Vec<String>) -> (r: String)
        ensures
            r@ == join(strs_view(v@), ", "@),
    {
        let mut r = String::new();
        let mut i: usize = 0;
        while i < v.len()
            invariant
                i <= v@.len(),
                r@ == join(strs_view(v@.take(i as int)), ", "@),
            decreases v@.len() - i,
        {
            let ghost prev = strs_view(v@.take(i as int));
            let ghost next = strs_view(v@.take(i + 1));
            assert(next.drop_last() =~= prev);
            assert(next.last() == v@[i as int]@);
            if i > 0 {
                r.append(", ");
            }
            r.append(v[i].as_str());
            assert(r@ =~= join(next, ", "@));
            i = i + 1;
        }
        assert(v@.take(v@.len() as int) =~= v@);
        r
    }

    fn excerpt(&self) -> (r: String)
        ensures
            r@ == self.excerpt_spec(),
    {
        let s = self.selftext.as_str();
        if !utf8_longer_than(s, EXCERPT_BYTES) {
            return String::from_str(s);
        }
        let n = s.unicode_len();
        let mut k: usize = 0;
        let mut used: usize = 0;
        while k < n
            invariant
                n == s@.len(),
                k <= n,
                used == utf8_len(s@.take(k as int)),
                used <= EXCERPT_BYTES,
                fitting_chars(s@, EXCERPT_BYTES as nat, 0) == fitting_chars(
                    s@,
                    EXCERPT_BYTES as nat,
                    k as nat,
                ),
            ensures
                fitting_chars(s@, EXCERPT_BYTES as nat, 0) == k,
            decreases n - k,
        {
            assert(s@.take(k + 1).drop_last() =~= s@.take(k as int));
            let w = char_width(s.get_char(k));
            if used + w > EXCERPT_BYTES {
                assert(utf8_len(s@.take(k + 1)) == used + w);
                assert(fitting_chars(s@, EXCERPT_BYTES as nat, k as nat) == k);
                break;
            }
            used = used + w;
            k = k + 1;
        }
        let mut r = String::from_str(s.substring_char(0, k));
        r.append("...");
        assert(s@.subrange(0, k as int) =~= s@.take(k as int));
        r
    }

    fn header(&self) -> (r: String)
        ensures
            r@ == self.header_spec(),
    {
        let mut r = concat("Title: ", self.title.as_str());
        r.append("\nAuthor: u/");
        r.append(self.author.as_str());
        r.append("\nSubreddit: r/");
        r.append(self.subreddit.as_str());
        r.append("\nScore: ");
        push_signed(&mut r, self.score as i64);
        r.append(" (");
        push_signed(&mut r, self.upvote_percent as i64);
        r.append("% upvoted) | Comments: ");
        push_signed(&mut r, self.num_comments as i64);
        r.append("\n");
        assert(r@ =~= self.header_spec());
        r
    }

    fn flags_text(&self) -> (r: String)
        ensures
            r@ == self.flags_spec(),
    {
        let mut flags: Vec<String> = Vec::new();
        Self::push_flag(&mut flags, self.is_self, "Self Post");
        Self::push_flag(&mut flags, self.over_18, "NSFW");
        Self::push_flag(&mut flags, self.spoiler, "Spoiler");
        Self::push_flag(&mut flags, self.is_video, "Video");
        Self::push_flag(&mut flags, self.is_original_content, "OC");
        Self::push_flag(&mut flags, self.stickied, "Stickied");
        Self::push_flag(&mut flags, self.locked, "Locked");
        assert(strs_view(flags@) =~= self.flags());
        if flags.len() > 0 {
            let mut r = String::from_str("Flags: [");
            let joined = Self::join_flags(&flags);
            r.append(joined.as_str());
            r.append("]\n");
            r
        } else {
            String::new()
        }
    }

    fn flair_text(&self) -> (r: String)
        ensures
            r@ == self.flair_spec(),
    {
        match &self.link_flair_text {
            Some(f) => if f.as_str().unicode_len() > 0 {
                let mut r = concat("Flair: ", f.as_str());
                r.append("\n");
                r
            } else {
                String::new()
            },
            None => String::new(),
        }
    }

    fn content_text(&self) -> (r: String)
        ensures
            r@ == self.content_spec(),
    {
        if self.is_self && self.selftext.as_str().unicode_len() > 0 {
            let text = self.excerpt();
            let mut r = String::from_str("\nContent:\n---------\n");
            r.append(text.as_str());
            r.append("\n---------\n");
            r
        } else {
            String::new()
        }
    }

    fn links_text(&self) -> (r: String)
        ensures
            r@ == self.links_spec(),
    {
        let mut r = concat("\nPermalink: https://reddit.com", self.permalink.as_str());
        let link = concat("https://reddit.com", self.permalink.as_str());
        if !self.is_self && self.url != link {
            r.append("\nExternal URL: ");
            r.append(self.url.as_str());
        }
        assert(r@ =~= self.links_spec());
        r
    }

    /// The detailed description of a post.
    pub fn format_summary(&self) -> (r: String)
        ensures
            r@ == self.summary_spec(),
    {
        let mut r = self.header();
        let flags = self.flags_text();
        r.append(flags.as_str());
        let flair = self.flair_text();
        r.append(flair.as_str());
        let content = self.content_text();
        r.append(content.as_str());
        let links = self.links_text();
        r.append(links.as_str());
        assert(r@ =~= self.summary_spec());
        r
    }

    /// The one-line description of a post.
    pub fn format_short_summary(&self) -> (r: String)
        ensures
            r@ == self.short_summary_spec(),
    {
        let mut r = concat("[", self.subreddit_name_prefixed.as_str());
        r.append(" | ");
        push_signed(&mut r, self.score as i64);
        r.append(" pts] ");
        r.append(self.title.as_str());
        r.append(" - by u/");
        r.append(self.author.as_str());
        assert(r@ =~= self.short_summary_spec());
        r
    }

    /// The creation time as `YYYY-MM-DD HH:MM:SS UTC`; when chrono cannot
    /// place it, the current time is shown instead.
    pub fn format_timestamp(&self) -> (r: String)
        ensures
            utc_time_text_of(self.created_utc as int, UTC_PATTERN@) is Some ==> r@
                == utc_time_text_of(self.created_utc as int, UTC_PATTERN@).unwrap(),
    {
        match utc_text(self.created_utc, UTC_PATTERN) {
            Some(t) => t,
            None => utc_now_text(UTC_PATTERN),
        }
    }

    fn kind(&self) -> (r: &'static str)
        ensures
            r@ == self.kind_letter(),
    {
        let u = self.url.as_str();
        if self.is_self {
            "T"
        } else if self.is_video {
            "V"
        } else if contains_str(u, "i.redd.it") || contains_str(u, "imgur.com") {
            "I"
        } else if contains_str(u, "reddit.com/gallery") {
            "G"
        } else {
            "L"
        }
    }

    fn title_on_line(&self) -> (r: String)
        ensures
            r@ == self.line_title(),
    {
        let t = self.title.as_str();
        if t.unicode_len() > LINE_FIELD_CHARS {
            let mut r = first_chars(t, LINE_KEEP_CHARS);
            r.append("...");
            r
        } else {
            String::from_str(t)
        }
    }

    fn url_on_line(&self) -> (r: String)
        ensures
            r@ == self.line_url(),
    {
        let u = self.url.as_str();
        if utf8_longer_than(u, LINE_FIELD_CHARS) {
            proof {
                reveal_strlit("https://");
                reveal_strlit("http://");
            }
            let s = if starts_with(u, "https://") {
                drop_chars(u, 8)
            } else if starts_with(u, "http://") {
                drop_chars(u, 7)
            } else {
                String::from_str(u)
            };
            if utf8_longer_than(s.as_str(), LINE_FIELD_CHARS) {
                let mut r = first_chars(s.as_str(), LINE_KEEP_CHARS);
                r.append("...");
                r
            } else {
                s
            }
        } else {
            String::from_str(u)
        }
    }

    fn content_on_line(&self) -> (r: String)
        ensures
            r@ == self.line_content(),
    {
        if self.is_self {
            let t = trim(self.selftext.as_str());
            let n = t.as_str().unicode_len();
            if n == 0 {
                String::from_str("[No content]")
            } else if n > LINE_FIELD_CHARS {
                let head = first_chars(t.as_str(), LINE_KEEP_CHARS);
                let mut r = String::from_str("\"");
                let shown = replace(head.as_str(), '\n', ' ');
                r.append(shown.as_str());
                r.append("...\"");
                r
            } else {
                let mut r = String::from_str("\"");
                let shown = replace(t.as_str(), '\n', ' ');
                r.append(shown.as_str());
                r.append("\"");
                r
            }
        } else {
            self.url_on_line()
        }
    }

    /// The line of the post listed at position `n` (from 1).
    pub fn brief_line(&self, n: u64) -> (r: String)
        ensures
            r@ == self.brief_line_spec(n as nat),
    {
        let mut r = if n < 10 {
            String::from_str(" ")
        } else {
            String::new()
        };
        push_decimal(&mut r, n);
        r.append(". [");
        r.append(self.kind());
        r.append("] [");
        let time = local_text(self.created_utc, "%H:%M");
        r.append(time.as_str());
        r.append("] ");
        let title = self.title_on_line();
        r.append(title.as_str());
        r.append(" (");
        let content = self.content_on_line();
        r.append(content.as_str());
        r.append(") r/");
        r.append(self.subreddit.as_str());
        r.append(" | ID: t3_");
        r.append(self.id.as_str());
        r.append(" | https://reddit.com");
        r.append(self.permalink.as_str());
        r.append("\n");
        assert(r@ =~= self.brief_line_spec(n as nat));
        r
    }

    /// The detailed block of the post in a listing.
    pub fn detailed_block(&self) -> (r: String)
        ensures
            r@ == self.detailed_spec(),
    {
        let mut r = String::from_str("\n============ POST =============\n[");
        let time = local_text(self.created_utc, "%Y-%m-%d %H:%M:%S");
        r.append(time.as_str());
        r.append("] [Los Angeles time]\nThing ID: t3_");
        r.append(self.id.as_str());
        r.append(" (use this for commenting)\n");
        let summary = self.format_summary();
        r.append(summary.as_str());
        r.append("\n================================\n\n");
        assert(r@ =~= self.detailed_spec());
        r
    }
}

// ---------------------------------------------------------------- output

/// The lines of the first `n` posts.
pub open spec fn brief_lines(posts: Seq<PostView>, n: nat) -> Seq<char>
    decreases n,
{
    if n == 0 || n > posts.len() {
        Seq::empty()
    } else {
        brief_lines(posts, (n - 1) as nat) + posts[n - 1].brief_line_spec(n)
    }
}

/// The detailed blocks of the first `n` posts.
pub open spec fn detailed_blocks(posts: Seq<PostView>, n: nat) -> Seq<char>
    decreases n,
{
    if n == 0 || n > posts.len() {
        Seq::empty()
    } else {
        detailed_blocks(posts, (n - 1) as nat) + posts[n - 1].detailed_spec()
    }
}

pub open spec fn legend() -> Seq<char> {
    "\nPost Type Legend:\n[T] = Text post\n[V] = Video\n[I] = Image\n[G] = Gallery\n[L] = Link\n"@
}

/// What a listing fetch shows: a count, then a line per post and the legend
/// of the kind letters, or a detailed block per post.
pub open spec fn listing_spec(posts: Seq<PostView>, brief: bool) -> Seq<char> {
    if posts.len() == 0 {
        "No posts found.\n"@
    } else {
        "Found "@ + decimal(posts.len()) + " posts\n"@ + if brief {
            brief_lines(posts, posts.len()) + legend()
        } else {
            detailed_blocks(posts, posts.len())
        }
    }
}

/// What a listing fetch shows for the posts received.
pub fn format_listing(posts: &Vec<PostView>, brief: bool) -> (r: String)
    ensures
        r@ == listing_spec(posts@, brief),
{
    if posts.len() == 0 {
        return String::from_str("No posts found.\n");
    }
    let mut r = String::from_str("Found ");
    push_decimal(&mut r, posts.len() as u64);
    r.append(" posts\n");
    let ghost head = r@;
    let mut i: usize = 0;
    while i < posts.len()
        invariant
            i <= posts@.len(),
            r@ == head + if brief {
                brief_lines(posts@, i as nat)
            } else {
                detailed_blocks(posts@, i as nat)
            },
        decreases posts@.len() - i,
    {
        if brief {
            let line = posts[i].brief_line((i + 1) as u64);
            r.append(line.as_str());
        } else {
            let block = posts[i].detailed_block();
            r.append(block.as_str());
        }
        assert(r@ =~= head + if brief {
            brief_lines(posts@, (i + 1) as nat)
        } else {
            detailed_blocks(posts@, (i + 1) as nat)
        });
        i = i + 1;
    }
    if brief {
        r.append(
            "\nPost Type Legend:\n[T] = Text post\n[V] = Video\n[I] = Image\n[G] = Gallery\n[L] = Link\n",
        );
    }
    assert(r@ =~= listing_spec(posts@, brief));
    r
}

} // verus!
