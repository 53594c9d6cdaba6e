//! Settings read from the environment (and a `.env` file).
use vstd::prelude::*;
use vstd::string::*;

use crate::auth::{form_view, last_value, lookup_last, opt_view};
use crate::token::DEFAULT_EXPIRES_IN;

verus! {

/// Settings read from the environment.
pub struct AppConfig {
    pub client_id: Option<String>,
    pub client_secret: Option<String>,
    pub username: Option<String>,
    pub password: Option<String>,
    /// User agent of API requests; empty when not set.
    pub user_agent: String,
    pub oauth_port: Option<u16>,
    pub access_token: Option<String>,
    pub refresh_token: Option<String>,
    pub token_expires_in: u64,
    pub thing_id: Option<String>,
}

impl Default for AppConfig {
    fn default() -> (r: Self)
        ensures
            r.client_id is None,
            r.client_secret is None,
            r.username is None,
            r.password is None,
            r.user_agent@ == Seq::<char>::empty(),
            r.oauth_port is None,
            r.access_token is None,
            r.refresh_token is None,
            r.token_expires_in == DEFAULT_EXPIRES_IN,
            r.thing_id is None,
    {
        AppConfig {
            client_id: None,
            client_secret: None,
            username: None,
            password: None,
            user_agent: String::new(),
            oauth_port: None,
            access_token: None,
            refresh_token: None,
            token_expires_in: DEFAULT_EXPIRES_IN,
            thing_id: None,
        }
    }
}

fn required(v: &Option<String>) -> (r: String)
    requires
        v is Some,
    ensures
        r == v.unwrap(),
{
    match v {
        Some(s) => s.clone(),
        None => String::new(),
    }
}

impl AppConfig {
    /// The client id (`REDDIT_CLIENT_ID`), which must be set.
    pub fn require_client_id(&self) -> (r: String)
        requires
            self.client_id is Some,
        ensures
            r == self.client_id.unwrap(),
    {
        required(&self.client_id)
    }

    /// The client secret (`REDDIT_CLIENT_SECRET`), which must be set.
    pub fn require_client_secret(&self) -> (r: String)
        requires
            self.client_secret is Some,
        ensures
            r == self.client_secret.unwrap(),
    {
        required(&self.client_secret)
    }

    /// The username (`REDDIT_USERNAME`), which must be set.
    pub fn require_username(&self) -> (r: String)
        requires
            self.username is Some,
        ensures
            r == self.username.unwrap(),
    {
        required(&self.username)
    }

    /// The password (`REDDIT_PASSWORD`), which must be set.
    pub fn require_password(&self) -> (r: String)
        requires
            self.password is Some,
        ensures
            r == self.password.unwrap(),
    {
        required(&self.password)
    }

    /// The thing id (`REDDIT_THING_ID`), which must be set.
    pub fn require_thing_id(&self) -> (r: String)
        requires
            self.thing_id is Some,
        ensures
            r == self.thing_id.unwrap(),
    {
        required(&self.thing_id)
    }
}

// ------------------------------------------------------------ numbers

pub open spec fn is_digit(c: char) -> bool {
    '0' <= c && c <= '9'
}

pub open spec fn all_digits(s: Seq<char>) -> bool {
    forall|i: int| 0 <= i < s.len() ==> is_digit(#[trigger] s[i])
}

/// The number that a string of decimal digits denotes.
pub open spec fn digits_value(s: Seq<char>) -> nat
    decreases s.len(),
{
    if s.len() == 0 {
        0
    } else {
        digits_value(s.drop_last()) * 10 + ((s.last() as u32) - ('0' as u32)) as nat
    }
}

/// The number that an unsigned integer literal denotes, as `str::parse`
/// reads one: an optional `+`, then one or more decimal digits.
pub open spec fn unsigned_value(s: Seq<char>) -> Option<nat> {
    let d = if s.len() > 0 && s[0] == '+' {
        s.drop_first()
    } else {
        s
    };
    if d.len() > 0 && all_digits(d) {
        Some(digits_value(d))
    } else {
        None
    }
}

/// The unsigned number written in `s`, if it is one and at most `max`.
pub fn parse_unsigned(s: &str, max: u64) -> (r: Option<u64>)
    ensures
        r == match unsigned_value(s@) {
            Some(v) => if v <= max {
                Some(v as u64)
            } else {
                None::<u64>
            },
            None => None::<u64>,
        },
{
    let n = s.unicode_len();
    let start: usize = if n > 0 && s.get_char(0) == '+' {
        1
    } else {
        0
    };
    let ghost d = if s@.len() > 0 && s@[0] == '+' {
        s@.drop_first()
    } else {
        s@
    };
    assert(d =~= s@.subrange(start as int, n as int));
    if start >= n {
        return None;
    }
    let mut acc: u64 = 0;
    let mut over = false;
    let mut i: usize = start;
    while i < n
        invariant
            n == s@.len(),
            start <= i <= n,
            d == s@.subrange(start as int, n as int),
            unsigned_value(s@) == if d.len() > 0 && all_digits(d) {
                Some(digits_value(d))
            } else {
                None
            },
            all_digits(s@.subrange(start as int, i as int)),
            !over ==> acc as nat == digits_value(s@.subrange(start as int, i as int)) && acc <= max,
            over ==> digits_value(s@.subrange(start as int, i as int)) > max,
        decreases n - i,
    {
        let c = s.get_char(i);
        let ghost prev = s@.subrange(start as int, i as int);
        let ghost next = s@.subrange(start as int, i + 1);
        assert(next.drop_last() =~= prev);
        if !('0' <= c && c <= '9') {
            assert(d[i - start] == c);
            assert(!is_digit(d[i - start]));
            assert(!all_digits(d));
            assert(unsigned_value(s@) is None);
            return None;
        }
        assert(all_digits(next)) by {
            assert forall|k: int| 0 <= k < next.len() implies is_digit(#[trigger] next[k]) by {
                if k < prev.len() {
                    assert(next[k] == prev[k]);
                }
            }
        }
        let v: u64 = (c as u32 - '0' as u32) as u64;
        assert(digits_value(next) == digits_value(prev) * 10 + v);
        if !over {
            if v > max || acc > (max - v) / 10 {
                over = true;
                assert(digits_value(prev) * 10 + v > max) by (nonlinear_arith)
                    requires
                        digits_value(prev) == acc,
                        v > max || acc > (max - v) / 10,
                ;
            } else {
                assert(acc * 10 + v <= max) by (nonlinear_arith)
                    requires
                        acc <= (max - v) / 10,
                        v <= max,
                ;
                acc = acc * 10 + v;
            }
        } else {
            assert(digits_value(prev) * 10 + v > max) by (nonlinear_arith)
                requires
                    digits_value(prev) > max,
            ;
        }
        i = i + 1;
    }
    assert(s@.subrange(start as int, n as int) == d);
    if over {
        None
    } else {
        Some(acc)
    }
}

// ------------------------------------------------------------ environment

/// The value given to `name` by the environment pairs.
pub open spec fn env_value(vars: Seq<(String, String)>, name: Seq<char>) -> Option<Seq<char>> {
    last_value(form_view(vars), name)
}

pub open spec fn parsed_or(v: Option<Seq<char>>, max: nat) -> Option<nat> {
    match v {
        Some(t) => match unsigned_value(t) {
            Some(n) => if n <= max {
                Some(n)
            } else {
                None
            },
            None => None,
        },
        None => None,
    }
}

impl AppConfig {
    /// The settings that the given environment (name, value) pairs make:
    /// each `REDDIT_…` variable that is set fills its setting; the port and
    /// lifetime only when they parse as numbers of their type.
    pub open spec fn from_env_spec(vars: Seq<(String, String)>, r: AppConfig) -> bool {
        &&& opt_view(r.client_id) == env_value(vars, "REDDIT_CLIENT_ID"@)
        &&& opt_view(r.client_secret) == env_value(vars, "REDDIT_CLIENT_SECRET"@)
        &&& opt_view(r.username) == env_value(vars, "REDDIT_USERNAME"@)
        &&& opt_view(r.password) == env_value(vars, "REDDIT_PASSWORD"@)
        &&& r.user_agent@ == match env_value(vars, "REDDIT_USER_AGENT"@) {
            Some(u) => u,
            None => Seq::empty(),
        }
        &&& match parsed_or(env_value(vars, "REDDIT_OAUTH_PORT"@), u16::MAX as nat) {
            Some(p) => r.oauth_port == Some(p as u16),
            None => r.oauth_port is None,
        }
        &&& opt_view(r.access_token) == env_value(vars, "REDDIT_ACCESS_TOKEN"@)
        &&& opt_view(r.refresh_token) == env_value(vars, "REDDIT_REFRESH_TOKEN"@)
        &&& r.token_expires_in == match parsed_or(
            env_value(vars, "REDDIT_TOKEN_EXPIRES_IN"@),
            u64::MAX as nat,
        ) {
            Some(n) => n as u64,
            None => DEFAULT_EXPIRES_IN,
        }
        &&& opt_view(r.thing_id) == env_value(vars, "REDDIT_THING_ID"@)
    }

    /// The settings that the given environment (name, value) pairs make.
    pub fn from_env(vars: &Vec<(String, String)>) -> (r: AppConfig)
        ensures
            Self::from_env_spec(vars@, r),
    {
        let mut config = AppConfig::default();
        config.client_id = lookup_last(vars, "REDDIT_CLIENT_ID");
        config.client_secret = lookup_last(vars, "REDDIT_CLIENT_SECRET");
        config.username = lookup_last(vars, "REDDIT_USERNAME");
        config.password = lookup_last(vars, "REDDIT_PASSWORD");
        match lookup_last(vars, "REDDIT_USER_AGENT") {
            Some(u) => {
                config.user_agent = u;
            },
            None => {},
        }
        match lookup_last(vars, "REDDIT_OAUTH_PORT") {
            Some(t) => match parse_unsigned(t.as_str(), u16::MAX as u64) {
                Some(p) => {
                    config.oauth_port = Some(p as u16);
                },
                None => {},
            },
            None => {},
        }
        config.access_token = lookup_last(vars, "REDDIT_ACCESS_TOKEN");
        config.refresh_token = lookup_last(vars, "REDDIT_REFRESH_TOKEN");
        match lookup_last(vars, "REDDIT_TOKEN_EXPIRES_IN") {
            Some(t) => match parse_unsigned(t.as_str(), u64::MAX) {
                Some(n) => {
                    config.token_expires_in = n;
                },
                None => {},
            },
            None => {},
        }
        config.thing_id = lookup_last(vars, "REDDIT_THING_ID");
        config
    }
}

} // verus!
