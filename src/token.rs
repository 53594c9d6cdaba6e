//! The on-disk token cache record and the rules for trusting its token.
use vstd::prelude::*;
use vstd::string::*;

verus! {

/// Seconds before its expiry from which a cached access token is no longer used.
pub const EXPIRY_MARGIN_SECS: u64 = 300;

/// Lifetime assumed for a token when the server does not state one.
pub const DEFAULT_EXPIRES_IN: u64 = 3600;

/// Relies on chrono's Utc::now: the current Unix time in seconds, cast to `u64`
/// as the cache record stores it. Nothing is promised of the value.
#[verifier::external_body]
pub(crate) fn unix_now() -> (r: u64) {
    chrono::Utc::now().timestamp() as u64
}

/// The instant `expires_in` seconds after `now`, held at `u64::MAX`.
pub open spec fn expiry_at(now: u64, expires_in: u64) -> u64 {
    if now + expires_in <= u64::MAX {
        (now + expires_in) as u64
    } else {
        u64::MAX
    }
}

/// The instant `expires_in` seconds after `now`, held at `u64::MAX`.
pub fn expiry_after(now: u64, expires_in: u64) -> (r: u64)
    ensures
        r == expiry_at(now, expires_in),
{
    now.saturating_add(expires_in)
}

/// OAuth tokens cached for one client id.
#[derive(Clone, Debug)]
pub struct TokenStorage {
    pub client_id: String,
    pub access_token: Option<String>,
    pub refresh_token: Option<String>,
    pub token_expires_at: Option<u64>,
    pub last_updated: u64,
}

impl TokenStorage {
    /// The cached access token may be used at `now`: there is one, with an
    /// expiry more than the margin ahead.
    pub open spec fn valid_at(&self, now: int) -> bool {
        &&& self.access_token is Some
        &&& self.token_expires_at is Some
        &&& now + EXPIRY_MARGIN_SECS < self.token_expires_at.unwrap()
    }

    /// An empty record for `client_id`, stamped with `now`.
    pub open spec fn fresh(client_id: Seq<char>, now: u64, r: TokenStorage) -> bool {
        &&& r.client_id@ == client_id
        &&& r.access_token is None
        &&& r.refresh_token is None
        &&& r.token_expires_at is None
        &&& r.last_updated == now
    }

    /// An empty record for `client_id`, stamped with the current time.
    pub fn new(client_id: &str) -> (r: Self)
        ensures
            r.client_id@ == client_id@,
            r.access_token is None,
            r.refresh_token is None,
            r.token_expires_at is None,
    {
        Self::new_at(client_id, unix_now())
    }

    /// An empty record for `client_id`, stamped with `now`.
    pub fn new_at(client_id: &str, now: u64) -> (r: Self)
        ensures
            Self::fresh(client_id@, now, r),
    {
        TokenStorage {
            client_id: String::from_str(client_id),
            access_token: None,
            refresh_token: None,
            token_expires_at: None,
            last_updated: now,
        }
    }

    /// Whether the cached access token may be used now.
    pub fn is_access_token_valid(&self) -> (r: bool)
        ensures
            r ==> exists|now: u64| self.valid_at(now as int),
            !(exists|now: u64| self.valid_at(now as int)) ==> !r,
    {
        self.is_access_token_valid_at(unix_now())
    }

    /// Whether the cached access token may be used at `now`.
    pub fn is_access_token_valid_at(&self, now: u64) -> (r: bool)
        ensures
            r == self.valid_at(now as int),
    {
        match (&self.access_token, self.token_expires_at) {
            (Some(_), Some(expiry)) => now < expiry && expiry - now > EXPIRY_MARGIN_SECS,
            _ => false,
        }
    }

    /// Whether a refresh token is cached.
    pub fn has_refresh_token(&self) -> (r: bool)
        ensures
            r == self.refresh_token is Some,
    {
        self.refresh_token.is_some()
    }

    /// Records a newly granted access token for `client_id`; the refresh
    /// token is replaced only when one is given.
    pub fn record_grant(
        &mut self,
        client_id: &str,
        access_token: &str,
        refresh_token: Option<&str>,
        expires_at: u64,
        now: u64,
    )
        ensures
            final(self).client_id@ == client_id@,
            final(self).access_token is Some,
            final(self).access_token.unwrap()@ == access_token@,
            final(self).token_expires_at == Some(expires_at),
            final(self).last_updated == now,
            refresh_token is None ==> final(self).refresh_token == old(self).refresh_token,
            refresh_token is Some ==> final(self).refresh_token is Some
                && final(self).refresh_token.unwrap()@ == refresh_token.unwrap()@,
    {
        self.client_id = String::from_str(client_id);
        self.access_token = Some(String::from_str(access_token));
        self.token_expires_at = Some(expires_at);
        self.last_updated = now;
        match refresh_token {
            Some(t) => {
                self.refresh_token = Some(String::from_str(t));
            },
            None => {},
        }
    }

    /// Records a refreshed access token; the client id and refresh token stay.
    pub fn record_refresh(&mut self, access_token: &str, expires_at: u64, now: u64)
        ensures
            final(self).client_id == old(self).client_id,
            final(self).refresh_token == old(self).refresh_token,
            final(self).access_token is Some,
            final(self).access_token.unwrap()@ == access_token@,
            final(self).token_expires_at == Some(expires_at),
            final(self).last_updated == now,
    {
        self.access_token = Some(String::from_str(access_token));
        self.token_expires_at = Some(expires_at);
        self.last_updated = now;
    }
}

/// Name of the cache file of a client id.
pub fn token_file_name(client_id: &str) -> (r: String)
    ensures
        r@ == client_id@ + ".json"@,
{
    crate::text::concat(client_id, ".json")
}

} // verus!
