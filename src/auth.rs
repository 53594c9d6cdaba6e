//! The OAuth side of the client: request forms and headers for each grant
//! flow, reading the token endpoint's answer, the browser flow's authorize
//! URL and callback handling, and how cached tokens are used and updated.
use vstd::prelude::*;
use vstd::string::*;

use crate::config::AppConfig;
use crate::json::Json;
use crate::text::{concat, push_decimal, decimal, starts_with, has_prefix};
use crate::token::{
    TokenStorage, expiry_after, expiry_at, unix_now, DEFAULT_EXPIRES_IN, EXPIRY_MARGIN_SECS,
};

verus! {

// ---------------------------------------------------------------- headers

/// The name of what base64's standard engine (padded) makes of some bytes.
pub uninterp spec fn base64_of(bytes: Seq<u8>) -> Seq<char>;

/// Relies on base64's STANDARD engine (`Engine::encode`): the padded base64
/// text of the UTF-8 bytes of `s`, which depends on those bytes alone.
#[verifier::external_body]
fn base64_encode(s: &str) -> (r: String)
    ensures
        r@ == base64_of(s.spec_bytes()),
{
    base64::Engine::encode(&base64::engine::general_purpose::STANDARD, s)
}

/// The HTTP Basic credentials `client_id:client_secret`, encoded.
pub open spec fn basic_credentials(client_id: Seq<char>, client_secret: Seq<char>) -> Seq<char> {
    "Basic "@ + base64_of(vstd::utf8::encode_utf8(client_id + ":"@ + client_secret))
}

/// The `Authorization` header of a token request. Installed apps have no
/// secret and pass an empty one.
pub fn basic_authorization(client_id: &str, client_secret: &str) -> (r: String)
    ensures
        r@ == basic_credentials(client_id@, client_secret@),
{
    let mut pair = concat(client_id, ":");
    pair.append(client_secret);
    let encoded = base64_encode(pair.as_str());
    concat("Basic ", encoded.as_str())
}

/// The `Authorization` header that carries an access token.
pub fn bearer_authorization(token: &str) -> (r: String)
    ensures
        r@ == "Bearer "@ + token@,
{
    concat("Bearer ", token)
}

// ------------------------------------------------------------------ forms

/// The characters of each name and value of a form.
pub open spec fn form_view(form: Seq<(String, String)>) -> Seq<(Seq<char>, Seq<char>)> {
    form.map_values(|p: (String, String)| (p.0@, p.1@))
}

fn field(name: &str, value: &str) -> (r: (String, String))
    ensures
        r.0@ == name@,
        r.1@ == value@,
{
    (String::from_str(name), String::from_str(value))
}

/// The form of an application-only (installed client) token request.
pub fn installed_client_form() -> (r: Vec<(String, String)>)
    ensures
        form_view(r@) == seq![
            ("grant_type"@, "https://oauth.reddit.com/grants/installed_client"@),
            ("device_id"@, "DO_NOT_TRACK_THIS_DEVICE"@),
        ],
{
    let r = vec![
        field("grant_type", "https://oauth.reddit.com/grants/installed_client"),
        field("device_id", "DO_NOT_TRACK_THIS_DEVICE"),
    ];
    assert(form_view(r@) =~= seq![
        ("grant_type"@, "https://oauth.reddit.com/grants/installed_client"@),
        ("device_id"@, "DO_NOT_TRACK_THIS_DEVICE"@),
    ]);
    r
}

/// The form of a refresh-token grant.
pub fn refresh_form(refresh_token: &str) -> (r: Vec<(String, String)>)
    ensures
        form_view(r@) == seq![("grant_type"@, "refresh_token"@), ("refresh_token"@, refresh_token@)],
{
    let r = vec![field("grant_type", "refresh_token"), field("refresh_token", refresh_token)];
    assert(form_view(r@) =~= seq![
        ("grant_type"@, "refresh_token"@),
        ("refresh_token"@, refresh_token@),
    ]);
    r
}

/// The form of a password grant, asking for the scopes that posting needs.
pub fn password_form(username: &str, password: &str) -> (r: Vec<(String, String)>)
    ensures
        form_view(r@) == seq![
            ("grant_type"@, "password"@),
            ("username"@, username@),
            ("password"@, password@),
            ("scope"@, "submit identity read"@),
        ],
{
    let r = vec![
        field("grant_type", "password"),
        field("username", username),
        field("password", password),
        field("scope", "submit identity read"),
    ];
    assert(form_view(r@) =~= seq![
        ("grant_type"@, "password"@),
        ("username"@, username@),
        ("password"@, password@),
        ("scope"@, "submit identity read"@),
    ]);
    r
}

/// The form that exchanges an authorization code for tokens.
pub fn authorization_code_form(code: &str, redirect_uri: &str) -> (r: Vec<(String, String)>)
    ensures
        form_view(r@) == seq![
            ("grant_type"@, "authorization_code"@),
            ("code"@, code@),
            ("redirect_uri"@, redirect_uri@),
        ],
{
    let r = vec![
        field("grant_type", "authorization_code"),
        field("code", code),
        field("redirect_uri", redirect_uri),
    ];
    assert(form_view(r@) =~= seq![
        ("grant_type"@, "authorization_code"@),
        ("code"@, code@),
        ("redirect_uri"@, redirect_uri@),
    ]);
    r
}

// ------------------------------------------------------ token endpoint answer

/// The grant flows that ask the token endpoint for tokens.
pub enum TokenCall {
    /// A refresh-token grant.
    Refresh,
    /// The exchange of a browser authorization code.
    CodeExchange,
    /// A password grant (script apps).
    Password,
}

impl TokenCall {
    pub open spec fn context_view(self) -> Seq<char> {
        match self {
            TokenCall::Refresh => "Token refresh failed"@,
            TokenCall::CodeExchange => "Token exchange failed"@,
            TokenCall::Password => "Authentication failed"@,
        }
    }

    /// The words that open this flow's error messages.
    pub fn context(&self) -> (r: &'static str)
        ensures
            r@ == self.context_view(),
    {
        match self {
            TokenCall::Refresh => "Token refresh failed",
            TokenCall::CodeExchange => "Token exchange failed",
            TokenCall::Password => "Authentication failed",
        }
    }
}

/// The message of a token request that the server answered with an HTTP error.
pub fn http_failure_message(call: &TokenCall, status: &str, body: &str) -> (r: String)
    ensures
        r@ == call.context_view() + ": HTTP "@ + status@ + ": "@ + body@,
{
    let mut r = concat(call.context(), ": HTTP ");
    r.append(status);
    r.append(": ");
    r.append(body);
    r
}

/// Tokens granted by the token endpoint.
pub struct TokenGrant {
    pub access_token: String,
    pub refresh_token: Option<String>,
    pub expires_in: u64,
}

pub open spec fn missing_token_message() -> Seq<char> {
    "Failed to extract access token from response"@
}

pub open spec fn opt_view(o: Option<String>) -> Option<Seq<char>> {
    match o {
        Some(s) => Some(s@),
        None => None,
    }
}

pub open spec fn str_opt_view(o: Option<&str>) -> Option<Seq<char>> {
    match o {
        Some(s) => Some(s@),
        None => None,
    }
}

/// What a successful token answer grants: the access token, the refresh
/// token if any, and the lifetime (an hour when none is stated).
pub open spec fn grant_of(json: Json, g: TokenGrant) -> bool {
    &&& json.field("access_token"@).str_view() == Some(g.access_token@)
    &&& opt_view(g.refresh_token) == json.field("refresh_token"@).str_view()
    &&& g.expires_in == match json.field("expires_in"@).u64_view() {
        Some(n) => n,
        None => DEFAULT_EXPIRES_IN,
    }
}

fn clone_opt(s: Option<&String>) -> (r: Option<String>)
    ensures
        opt_view(r) == match s {
            Some(t) => Some(t@),
            None => None::<Seq<char>>,
        },
{
    match s {
        Some(t) => Some(t.clone()),
        None => None,
    }
}

/// The access token of an answer, without looking for an error member
/// (the application-only flow reads it so).
pub fn access_token_in(json: &Json) -> (r: Result<String, String>)
    ensures
        match json.field("access_token"@).str_view() {
            Some(t) => r is Ok && r->Ok_0@ == t,
            None => r is Err && r->Err_0@ == missing_token_message(),
        },
{
    match json.str_field("access_token") {
        Some(t) => Ok(t.clone()),
        None => Err(String::from_str("Failed to extract access token from response")),
    }
}

/// Reads the answer of a token request that succeeded at the HTTP level: an
/// `error` member fails the call, then the access token must be there.
pub fn read_token_reply(call: &TokenCall, json: &Json) -> (r: Result<TokenGrant, String>)
    ensures
        match json.field("error"@).str_view() {
            Some(e) => r is Err && r->Err_0@ == call.context_view() + ": "@ + e,
            None => match json.field("access_token"@).str_view() {
                Some(_) => r is Ok && grant_of(*json, r->Ok_0),
                None => r is Err && r->Err_0@ == missing_token_message(),
            },
        },
{
    match json.str_field("error") {
        Some(e) => {
            let mut m = concat(call.context(), ": ");
            m.append(e.as_str());
            return Err(m);
        },
        None => {},
    }
    let access_token = match access_token_in(json) {
        Ok(t) => t,
        Err(m) => return Err(m),
    };
    let refresh_token = clone_opt(json.str_field("refresh_token"));
    let expires_in = match json.get("expires_in") {
        Some(v) => match v.as_u64() {
            Some(n) => n,
            None => DEFAULT_EXPIRES_IN,
        },
        None => DEFAULT_EXPIRES_IN,
    };
    Ok(TokenGrant { access_token, refresh_token, expires_in })
}

// ------------------------------------------------------ cached token use

/// What the client's token state becomes for `client_id`, given the cache
/// record found on disk (if any) at `now`: the record (or a fresh one) is
/// kept, and its access token is used only while it is valid.
pub open spec fn stored_tokens_spec(
    client_id: Seq<char>,
    loaded: Option<TokenStorage>,
    now: u64,
    r: (Option<String>, Option<TokenStorage>),
) -> bool {
    match loaded {
        Some(s) => {
            &&& r.1 == Some(s)
            &&& r.0 == if s.valid_at(now as int) {
                s.access_token
            } else {
                None
            }
        },
        None => {
            &&& r.0 is None
            &&& r.1 is Some
            &&& TokenStorage::fresh(client_id, now, r.1.unwrap())
        },
    }
}

/// The access token and cache record that a client for `client_id` starts
/// with, given the record loaded from disk.
pub fn stored_tokens_at(client_id: &str, loaded: Option<TokenStorage>, now: u64) -> (r: (
    Option<String>,
    Option<TokenStorage>,
))
    ensures
        stored_tokens_spec(client_id@, loaded, now, r),
{
    match loaded {
        Some(s) => {
            let access = if s.is_access_token_valid_at(now) {
                match &s.access_token {
                    Some(t) => Some(t.clone()),
                    None => None,
                }
            } else {
                None
            };
            (access, Some(s))
        },
        None => (None, Some(TokenStorage::new_at(client_id, now))),
    }
}

/// The starting token state for `client_id` at the current time.
pub fn stored_tokens(client_id: &str, loaded: Option<TokenStorage>) -> (r: (
    Option<String>,
    Option<TokenStorage>,
))
    ensures
        exists|now: u64| #[trigger] stored_tokens_spec(client_id@, loaded, now, r),
{
    let now = unix_now();
    stored_tokens_at(client_id, loaded, now)
}

/// The starting token state of a client built from `config` at `now`:
/// with a client id, as for that id; a configured access token wins.
pub open spec fn config_tokens_spec(
    config: AppConfig,
    loaded: Option<TokenStorage>,
    now: u64,
    r: (Option<String>, Option<TokenStorage>),
) -> bool {
    &&& match config.client_id {
        Some(id) => exists|a: Option<String>|
            #[trigger] stored_tokens_spec(id@, loaded, now, (a, r.1)) && (config.access_token is None ==> r.0
                == a),
        None => r.1 is None && (config.access_token is None ==> r.0 is None),
    }
    &&& config.access_token is Some ==> opt_view(r.0) == opt_view(config.access_token)
}

/// The access token and cache record of a client built from `config`, given
/// the record loaded from disk for its client id.
pub fn config_tokens_at(config: &AppConfig, loaded: Option<TokenStorage>, now: u64) -> (r: (
    Option<String>,
    Option<TokenStorage>,
))
    ensures
        config_tokens_spec(*config, loaded, now, r),
{
    let (mut access, storage) = match &config.client_id {
        Some(id) => stored_tokens_at(id.as_str(), loaded, now),
        None => (None, None),
    };
    match &config.access_token {
        Some(t) => {
            access = Some(t.clone());
        },
        None => {},
    }
    (access, storage)
}

/// The starting token state of a client built from `config`, now.
pub fn config_tokens(config: &AppConfig, loaded: Option<TokenStorage>) -> (r: (
    Option<String>,
    Option<TokenStorage>,
))
    ensures
        exists|now: u64| #[trigger] config_tokens_spec(*config, loaded, now, r),
{
    let now = unix_now();
    config_tokens_at(config, loaded, now)
}

/// Makes sure there is a cache record, creating an empty one for
/// `client_id` stamped with `now`.
pub fn ensure_storage_at(storage: &mut Option<TokenStorage>, client_id: &str, now: u64)
    ensures
        (*old(storage)) is Some ==> *final(storage) == *old(storage),
        (*old(storage)) is None ==> (*final(storage)) is Some && TokenStorage::fresh(
            client_id@,
            now,
            (*final(storage)).unwrap(),
        ),
{
    if storage.is_none() {
        *storage = Some(TokenStorage::new_at(client_id, now));
    }
}

/// Makes sure there is a cache record, creating an empty one for `client_id`.
pub fn ensure_storage(storage: &mut Option<TokenStorage>, client_id: &str)
    ensures
        (*old(storage)) is Some ==> *final(storage) == *old(storage),
        (*old(storage)) is None ==> exists|now: u64|
            #[trigger] TokenStorage::fresh(client_id@, now, (*final(storage)).unwrap()),
        (*final(storage)) is Some,
{
    let now = unix_now();
    ensure_storage_at(storage, client_id, now);
}

/// The cache record after tokens were supplied by hand at `now`: it exists,
/// belongs to `client_id`, holds the access token with its expiry, and the
/// refresh token when one is given.
pub open spec fn manual_tokens_spec(
    before: Option<TokenStorage>,
    client_id: Seq<char>,
    access_token: Seq<char>,
    refresh_token: Option<Seq<char>>,
    expires_in: u64,
    now: u64,
    after: Option<TokenStorage>,
) -> bool {
    &&& after is Some
    &&& after.unwrap().client_id@ == client_id
    &&& opt_view(after.unwrap().access_token) == Some(access_token)
    &&& after.unwrap().token_expires_at == Some(expiry_at(now, expires_in))
    &&& after.unwrap().last_updated == now
    &&& opt_view(after.unwrap().refresh_token) == match refresh_token {
        Some(t) => Some(t),
        None => match before {
            Some(b) => opt_view(b.refresh_token),
            None => None,
        },
    }
}

/// A token recorded at `now` with a lifetime longer than the safety margin
/// is used from `now` until the margin before its expiry, and not after.
pub proof fn lemma_recorded_token_validity(
    before: Option<TokenStorage>,
    client_id: Seq<char>,
    access_token: Seq<char>,
    refresh_token: Option<Seq<char>>,
    expires_in: u64,
    now: u64,
    after: Option<TokenStorage>,
    t: u64,
)
    requires
        manual_tokens_spec(before, client_id, access_token, refresh_token, expires_in, now, after),
        now + expires_in <= u64::MAX,
    ensures
        after.unwrap().valid_at(t as int) <==> t + EXPIRY_MARGIN_SECS < now + expires_in,
        expires_in > EXPIRY_MARGIN_SECS ==> after.unwrap().valid_at(now as int),
{
}

/// Records tokens supplied by hand (headless use) at `now`.
pub fn record_manual_tokens_at(
    storage: &mut Option<TokenStorage>,
    client_id: &str,
    access_token: &str,
    refresh_token: Option<&str>,
    expires_in: u64,
    now: u64,
)
    ensures
        manual_tokens_spec(
            *old(storage),
            client_id@,
            access_token@,
            str_opt_view(refresh_token),
            expires_in,
            now,
            *final(storage),
        ),
{
    ensure_storage_at(storage, client_id, now);
    let expires_at = expiry_after(now, expires_in);
    match storage {
        Some(s) => s.record_grant(client_id, access_token, refresh_token, expires_at, now),
        None => {},
    }
}

/// Records tokens supplied by hand (headless use), now.
pub fn record_manual_tokens(
    storage: &mut Option<TokenStorage>,
    client_id: &str,
    access_token: &str,
    refresh_token: Option<&str>,
    expires_in: u64,
)
    ensures
        exists|now: u64|
            #[trigger] manual_tokens_spec(
                *old(storage),
                client_id@,
                access_token@,
                str_opt_view(refresh_token),
                expires_in,
                now,
                *final(storage),
            ),
{
    let now = unix_now();
    record_manual_tokens_at(storage, client_id, access_token, refresh_token, expires_in, now);
}

/// Records tokens obtained through the browser flow at `now`: as if supplied
/// by hand, with the lifetime that the server stated.
pub fn record_browser_grant_at(
    storage: &mut Option<TokenStorage>,
    client_id: &str,
    grant: &TokenGrant,
    now: u64,
)
    ensures
        manual_tokens_spec(
            *old(storage),
            client_id@,
            grant.access_token@,
            opt_view(grant.refresh_token),
            grant.expires_in,
            now,
            *final(storage),
        ),
{
    let refresh = match &grant.refresh_token {
        Some(t) => Some(t.as_str()),
        None => None,
    };
    record_manual_tokens_at(
        storage,
        client_id,
        grant.access_token.as_str(),
        refresh,
        grant.expires_in,
        now,
    );
}

/// Records tokens obtained through the browser flow, now.
pub fn record_browser_grant(storage: &mut Option<TokenStorage>, client_id: &str, grant: &TokenGrant)
    ensures
        exists|now: u64|
            #[trigger] manual_tokens_spec(
                *old(storage),
                client_id@,
                grant.access_token@,
                opt_view(grant.refresh_token),
                grant.expires_in,
                now,
                *final(storage),
            ),
{
    let now = unix_now();
    record_browser_grant_at(storage, client_id, grant, now);
}

/// Records a refreshed access token at `now` in the cache record, if any.
pub fn record_refreshed_at(storage: &mut Option<TokenStorage>, grant: &TokenGrant, now: u64)
    ensures
        (*old(storage)) is None ==> (*final(storage)) is None,
        (*old(storage)) is Some ==> {
            let b = (*old(storage)).unwrap();
            let a = (*final(storage)).unwrap();
            &&& (*final(storage)) is Some
            &&& a.client_id == b.client_id
            &&& a.refresh_token == b.refresh_token
            &&& opt_view(a.access_token) == Some(grant.access_token@)
            &&& a.token_expires_at == Some(expiry_at(now, grant.expires_in))
            &&& a.last_updated == now
        },
{
    let expires_at = expiry_after(now, grant.expires_in);
    match storage {
        Some(s) => s.record_refresh(grant.access_token.as_str(), expires_at, now),
        None => {},
    }
}

/// Records a refreshed access token in the cache record, if any, now.
pub fn record_refreshed(storage: &mut Option<TokenStorage>, grant: &TokenGrant)
    ensures
        (*old(storage)) is None ==> (*final(storage)) is None,
        (*old(storage)) is Some ==> {
            let b = (*old(storage)).unwrap();
            let a = (*final(storage)).unwrap();
            &&& (*final(storage)) is Some
            &&& a.client_id == b.client_id
            &&& a.refresh_token == b.refresh_token
            &&& opt_view(a.access_token) == Some(grant.access_token@)
            &&& exists|now: u64| a.token_expires_at == Some(#[trigger] expiry_at(now, grant.expires_in))
        },
{
    let now = unix_now();
    record_refreshed_at(storage, grant, now);
}

/// What a refresh-token grant sends.
pub struct RefreshRequest {
    pub authorization: String,
    pub form: Vec<(String, String)>,
}

pub open spec fn no_refresh_token_message() -> Seq<char> {
    "No refresh token available"@
}

/// The request that refreshes the cached access token; an error when no
/// refresh token is cached.
pub fn refresh_request(storage: &Option<TokenStorage>) -> (r: Result<RefreshRequest, String>)
    ensures
        match storage {
            Some(s) if s.refresh_token is Some => r is Ok && r->Ok_0.authorization@
                == basic_credentials(s.client_id@, Seq::empty()) && form_view(r->Ok_0.form@)
                == seq![
                ("grant_type"@, "refresh_token"@),
                ("refresh_token"@, s.refresh_token.unwrap()@),
            ],
            _ => r is Err && r->Err_0@ == no_refresh_token_message(),
        },
{
    match storage {
        Some(s) => match &s.refresh_token {
            Some(t) => {
                let authorization = basic_authorization(s.client_id.as_str(), "");
                proof {
                    reveal_strlit("");
                }
                assert(""@ =~= Seq::<char>::empty());
                Ok(RefreshRequest { authorization, form: refresh_form(t.as_str()) })
            },
            None => Err(String::from_str("No refresh token available")),
        },
        None => Err(String::from_str("No refresh token available")),
    }
}

/// The next step of the stored-or-browser flow.
pub enum AuthStep {
    /// The cached access token is still valid: use it.
    UseStored(String),
    /// Try the cached refresh token (and fall back to the browser if that fails).
    Refresh,
    /// Run the browser flow.
    Browser,
}

/// Chooses how to authenticate from the cache record at `now`: a valid
/// cached token first, then a refresh, then the browser.
pub fn next_auth_step_at(storage: &TokenStorage, now: u64) -> (r: AuthStep)
    ensures
        storage.valid_at(now as int) ==> r is UseStored && r->UseStored_0
            == storage.access_token.unwrap(),
        !storage.valid_at(now as int) && storage.refresh_token is Some ==> r is Refresh,
        !storage.valid_at(now as int) && storage.refresh_token is None ==> r is Browser,
{
    if storage.is_access_token_valid_at(now) {
        match &storage.access_token {
            Some(t) => return AuthStep::UseStored(t.clone()),
            None => {},
        }
    }
    if storage.has_refresh_token() {
        AuthStep::Refresh
    } else {
        AuthStep::Browser
    }
}

/// Chooses how to authenticate from the cache record, now.
pub fn next_auth_step(storage: &TokenStorage) -> (r: AuthStep)
    ensures
        exists|now: u64|
            {
                &&& #[trigger] storage.valid_at(now as int) ==> r is UseStored && r->UseStored_0
                    == storage.access_token.unwrap()
                &&& !storage.valid_at(now as int) && storage.refresh_token is Some ==> r is Refresh
                &&& !storage.valid_at(now as int) && storage.refresh_token is None ==> r is Browser
            },
{
    let now = unix_now();
    next_auth_step_at(storage, now)
}

/// Whether a post made after the stored-or-browser flow counts as made with
/// cached tokens: the record holds a valid token at `now`, or a refresh token.
pub fn stored_tokens_used_at(storage: &Option<TokenStorage>, now: u64) -> (r: bool)
    ensures
        r == match storage {
            Some(s) => s.valid_at(now as int) || s.refresh_token is Some,
            None => false,
        },
{
    match storage {
        Some(s) => s.is_access_token_valid_at(now) || s.has_refresh_token(),
        None => false,
    }
}

/// Whether a post made after the stored-or-browser flow counts as made with
/// cached tokens, now.
pub fn stored_tokens_used(storage: &Option<TokenStorage>) -> (r: bool)
    ensures
        storage is None ==> !r,
        storage is Some && storage.unwrap().refresh_token is Some ==> r,
        r ==> storage is Some && (storage.unwrap().refresh_token is Some || exists|now: u64|
            #[trigger] storage.unwrap().valid_at(now as int)),
{
    let now = unix_now();
    stored_tokens_used_at(storage, now)
}


// ------------------------------------------------------------- browser flow

/// Port of the local callback server when none is given.
pub const DEFAULT_REDIRECT_PORT: u16 = 8080;

/// Length of the anti-forgery `state` token of the browser flow.
pub const STATE_LEN: usize = 16;

pub open spec fn is_ascii_alphanumeric(c: char) -> bool {
    ('a' <= c && c <= 'z') || ('A' <= c && c <= 'Z') || ('0' <= c && c <= '9')
}

/// Relies on rand's thread_rng sampled with the Alphanumeric distribution:
/// `len` characters, each an ASCII letter or digit (which ones is chance).
#[verifier::external_body]
fn random_alphanumeric(len: usize) -> (r: String)
    ensures
        r@.len() == len,
        forall|i: int| 0 <= i < r@.len() ==> is_ascii_alphanumeric(#[trigger] r@[i]),
{
    rand::Rng::sample_iter(rand::thread_rng(), rand::distributions::Alphanumeric)
        .take(len)
        .map(char::from)
        .collect()
}

/// Where the browser flow listens and what it asks Reddit for.
pub struct BrowserAuthPlan {
    pub port: u16,
    /// Address the local callback server binds to.
    pub listen_addr: String,
    pub redirect_uri: String,
    /// The anti-forgery token that the callback must echo.
    pub state: String,
    /// The page the user authorizes the app on.
    pub auth_url: String,
}

pub open spec fn redirect_uri_of(port: u16) -> Seq<char> {
    "http://localhost:"@ + decimal(port as nat) + "/callback"@
}

pub open spec fn auth_url_of(
    client_id: Seq<char>,
    state: Seq<char>,
    redirect_uri: Seq<char>,
    scopes: Seq<char>,
) -> Seq<char> {
    "https://www.reddit.com/api/v1/authorize?client_id="@ + client_id + "&response_type=code&state="@
        + state + "&redirect_uri="@ + redirect_uri + "&duration=permanent&scope="@ + scopes
}

impl BrowserAuthPlan {
    /// The plan for `client_id` with the given `state` token: the port
    /// defaults to 8080, the scopes to `identity read submit`.
    pub open spec fn spec_of(
        client_id: Seq<char>,
        port: Option<u16>,
        scopes: Option<Seq<char>>,
        state: Seq<char>,
        r: BrowserAuthPlan,
    ) -> bool {
        let p = match port {
            Some(p) => p,
            None => DEFAULT_REDIRECT_PORT,
        };
        let sc = match scopes {
            Some(s) => s,
            None => "identity read submit"@,
        };
        &&& r.port == p
        &&& r.listen_addr@ == "127.0.0.1:"@ + decimal(p as nat)
        &&& r.redirect_uri@ == redirect_uri_of(p)
        &&& r.state@ == state
        &&& r.auth_url@ == auth_url_of(client_id, state, redirect_uri_of(p), sc)
    }

    /// The plan with a fresh random `state` token.
    pub fn new(client_id: &str, port: Option<u16>, scopes: Option<&str>) -> (r: Self)
        ensures
            r.state@.len() == STATE_LEN,
            forall|i: int| 0 <= i < r.state@.len() ==> is_ascii_alphanumeric(#[trigger] r.state@[i]),
            Self::spec_of(client_id@, port, str_opt_view(scopes), r.state@, r),
    {
        let state = random_alphanumeric(STATE_LEN);
        Self::with_state(client_id, port, scopes, state.as_str())
    }

    /// The plan with the given `state` token.
    pub fn with_state(client_id: &str, port: Option<u16>, scopes: Option<&str>, state: &str) -> (r:
        Self)
        ensures
            Self::spec_of(client_id@, port, str_opt_view(scopes), state@, r),
    {
        let p = match port {
            Some(p) => p,
            None => DEFAULT_REDIRECT_PORT,
        };
        let sc = match scopes {
            Some(s) => s,
            None => "identity read submit",
        };
        let mut listen_addr = String::from_str("127.0.0.1:");
        push_decimal(&mut listen_addr, p as u64);
        let mut redirect_uri = String::from_str("http://localhost:");
        push_decimal(&mut redirect_uri, p as u64);
        redirect_uri.append("/callback");
        let mut auth_url = concat("https://www.reddit.com/api/v1/authorize?client_id=", client_id);
        auth_url.append("&response_type=code&state=");
        auth_url.append(state);
        auth_url.append("&redirect_uri=");
        auth_url.append(redirect_uri.as_str());
        auth_url.append("&duration=permanent&scope=");
        auth_url.append(sc);
        let r = BrowserAuthPlan {
            port: p,
            listen_addr,
            redirect_uri,
            state: String::from_str(state),
            auth_url,
        };
        assert(r.auth_url@ =~= auth_url_of(client_id@, state@, redirect_uri_of(p), sc@));
        r
    }
}

/// The name of the query pairs that the url crate reads from a URL
/// (`None` when the text does not parse as a URL).
pub uninterp spec fn query_pairs_of(url: Seq<char>) -> Option<Seq<(Seq<char>, Seq<char>)>>;

/// Relies on url's Url::parse and Url::query_pairs: whether the text parses,
/// and the percent-decoded query pairs in order, which depend on it alone.
#[verifier::external_body]
fn parse_query_pairs(url: &str) -> (r: Option<Vec<(String, String)>>)
    ensures
        r is Some <==> query_pairs_of(url@) is Some,
        r is Some ==> form_view(r.unwrap()@) == query_pairs_of(url@).unwrap(),
{
    url::Url::parse(url).ok().map(
        |u| u.query_pairs().map(|(k, v)| (k.to_string(), v.to_string())).collect(),
    )
}

/// The value of the last pair named `key` (as a map built from the pairs holds it).
pub open spec fn last_value(pairs: Seq<(Seq<char>, Seq<char>)>, key: Seq<char>) -> Option<
    Seq<char>,
>
    decreases pairs.len(),
{
    if pairs.len() == 0 {
        None
    } else if pairs.last().0 == key {
        Some(pairs.last().1)
    } else {
        last_value(pairs.drop_last(), key)
    }
}

pub(crate) fn lookup_last(pairs: &Vec<(String, String)>, key: &str) -> (r: Option<String>)
    ensures
        opt_view(r) == last_value(form_view(pairs@), key@),
{
    let k = String::from_str(key);
    let mut found: Option<String> = None;
    let mut i: usize = 0;
    while i < pairs.len()
        invariant
            i <= pairs@.len(),
            k@ == key@,
            opt_view(found) == last_value(form_view(pairs@.take(i as int)), key@),
        decreases pairs@.len() - i,
    {
        assert(form_view(pairs@.take(i + 1)).drop_last() =~= form_view(pairs@.take(i as int)));
        if pairs[i].0 == k {
            found = Some(pairs[i].1.clone());
        }
        i = i + 1;
    }
    assert(pairs@.take(pairs@.len() as int) =~= pairs@);
    found
}

/// What the authorization callback yields.
pub enum CallbackOutcome {
    /// The authorization code to exchange for tokens.
    Code(String),
    /// Why the authorization failed.
    Failed(String),
}

/// The local server's answer to one request during the browser flow. When
/// `outcome` is set the flow has its result and the server stops.
pub struct CallbackReply {
    pub status: u16,
    pub page: String,
    pub outcome: Option<CallbackOutcome>,
}

pub open spec fn error_page(m: Seq<char>) -> Seq<char> {
    "<html><body><h1>Authentication Error</h1><p>"@ + m + "</p></body></html>"@
}

pub open spec fn success_page() -> Seq<char> {
    "<html><body><h1>Authentication Successful</h1><p>You can now close this window and return to the application.</p></body></html>"@
}

pub open spec fn not_found_page() -> Seq<char> {
    "<html><body><h1>404 Not Found</h1></body></html>"@
}

pub open spec fn invalid_callback_page() -> Seq<char> {
    "<html><body><h1>Error</h1><p>Invalid callback URL</p></body></html>"@
}

/// A reply with the given status and page, and a failure with message `m`
/// (when `fail` is set) or no outcome.
pub open spec fn reply_is(
    r: CallbackReply,
    status: u16,
    page: Seq<char>,
    outcome: Option<Result<Seq<char>, Seq<char>>>,
) -> bool {
    &&& r.status == status
    &&& r.page@ == page
    &&& match outcome {
        None => r.outcome is None,
        Some(Ok(c)) => r.outcome is Some && r.outcome.unwrap() is Code
            && r.outcome.unwrap()->Code_0@ == c,
        Some(Err(m)) => r.outcome is Some && r.outcome.unwrap() is Failed
            && r.outcome.unwrap()->Failed_0@ == m,
    }
}

/// The answer to a callback whose query has the given pairs: an `error`
/// from Reddit first, then the `state` must match, then a `code` must be there.
pub open spec fn query_reply_spec(
    q: Seq<(Seq<char>, Seq<char>)>,
    expected_state: Seq<char>,
    r: CallbackReply,
) -> bool {
    match last_value(q, "error"@) {
        Some(e) => reply_is(r, 400, error_page(e), Some(Err("Authorization error: "@ + e))),
        None => match last_value(q, "state"@) {
            Some(s) => if s == expected_state {
                match last_value(q, "code"@) {
                    Some(c) => reply_is(r, 200, success_page(), Some(Ok(c))),
                    None => reply_is(
                        r,
                        400,
                        error_page("No authorization code received"@),
                        Some(Err("No authorization code received"@)),
                    ),
                }
            } else {
                reply_is(
                    r,
                    400,
                    error_page("State mismatch - possible CSRF attack"@),
                    Some(Err("State mismatch - possible CSRF attack"@)),
                )
            },
            None => reply_is(
                r,
                400,
                error_page("No state parameter received"@),
                Some(Err("No state parameter received"@)),
            ),
        },
    }
}

/// A callback yields an authorization code only when it carries no error
/// and echoes the expected `state` token: a forged callback gets no code.
pub proof fn lemma_code_needs_matching_state(
    q: Seq<(Seq<char>, Seq<char>)>,
    expected_state: Seq<char>,
    r: CallbackReply,
)
    requires
        query_reply_spec(q, expected_state, r),
    ensures
        (r.outcome is Some && r.outcome.unwrap() is Code) ==> {
            &&& last_value(q, "error"@) is None
            &&& last_value(q, "state"@) == Some(expected_state)
            &&& last_value(q, "code"@) == Some(r.outcome.unwrap()->Code_0@)
        },
{
}

fn failure(status: u16, m: &str) -> (r: CallbackReply)
    ensures
        reply_is(r, status, error_page(m@), Some(Err(m@))),
{
    let mut page = concat("<html><body><h1>Authentication Error</h1><p>", m);
    page.append("</p></body></html>");
    CallbackReply { status, page, outcome: Some(CallbackOutcome::Failed(String::from_str(m))) }
}

/// The answer to a callback request with the given query pairs.
pub fn answer_query(pairs: &Vec<(String, String)>, expected_state: &str) -> (r: CallbackReply)
    ensures
        query_reply_spec(form_view(pairs@), expected_state@, r),
{
    match lookup_last(pairs, "error") {
        Some(e) => {
            let mut r = failure(400, e.as_str());
            r.outcome = Some(CallbackOutcome::Failed(concat("Authorization error: ", e.as_str())));
            return r;
        },
        None => {},
    }
    match lookup_last(pairs, "state") {
        Some(s) => {
            let expected = String::from_str(expected_state);
            if s == expected {
                match lookup_last(pairs, "code") {
                    Some(c) => CallbackReply {
                        status: 200,
                        page: String::from_str(
                            "<html><body><h1>Authentication Successful</h1><p>You can now close this window and return to the application.</p></body></html>",
                        ),
                        outcome: Some(CallbackOutcome::Code(c)),
                    },
                    None => failure(400, "No authorization code received"),
                }
            } else {
                failure(400, "State mismatch - possible CSRF attack")
            }
        },
        None => failure(400, "No state parameter received"),
    }
}

/// The answer of the local server to a request for `path` (path and query)
/// during the browser flow: other paths get a 404, a callback whose URL does
/// not parse a 400, and neither ends the flow.
pub fn answer_callback(path: &str, expected_state: &str) -> (r: CallbackReply)
    ensures
        !has_prefix(path@, "/callback"@) ==> reply_is(r, 404, not_found_page(), None),
        has_prefix(path@, "/callback"@) ==> match query_pairs_of("http://localhost"@ + path@) {
            None => reply_is(r, 400, invalid_callback_page(), None),
            Some(q) => query_reply_spec(q, expected_state@, r),
        },
{
    if !starts_with(path, "/callback") {
        return CallbackReply {
            status: 404,
            page: String::from_str("<html><body><h1>404 Not Found</h1></body></html>"),
            outcome: None,
        };
    }
    let url = concat("http://localhost", path);
    match parse_query_pairs(url.as_str()) {
        Some(pairs) => answer_query(&pairs, expected_state),
        None => CallbackReply {
            status: 400,
            page: String::from_str(
                "<html><body><h1>Error</h1><p>Invalid callback URL</p></body></html>",
            ),
            outcome: None,
        },
    }
}

} // verus!
