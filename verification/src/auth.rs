//! The access-token cache shared by the Google and Spotify clients.
use crate::json::{at, str_of, u64_of, Json, JsonV};
use crate::text::owned;
use vstd::prelude::*;

verus! {

/// Seconds that a fresh token is trusted: its announced lifetime (3600 when absent) less five
/// minutes, never below zero.
pub open spec fn lifetime(body: JsonV) -> nat {
    let expires_in: nat = match u64_of(at(body, "expires_in"@)) {
        Some(e) => e as nat,
        None => 3600,
    };
    if expires_in >= 300 {
        (expires_in - 300) as nat
    } else {
        0
    }
}

/// A cached access token with the instant (in seconds) at which it stops being used.
pub struct TokenCache {
    pub cached: Option<(String, u64)>,
}

/// The error given when the token endpoint answers without a token.
pub open spec fn missing_token_error() -> Seq<char> {
    "Pas d'access_token dans la réponse"@
}

impl TokenCache {
    /// An empty cache.
    pub fn new() -> (r: TokenCache)
        ensures
            r.cached is None,
    {
        TokenCache { cached: None }
    }

    /// The cached token, where one is cached and `now` is before its end.
    pub open spec fn valid_at(&self, now: u64) -> Option<Seq<char>> {
        match self.cached {
            Some((t, end)) => if now < end { Some(t@) } else { None },
            None => None,
        }
    }

    /// The cached token, if it is still valid at `now`.
    pub fn valid_token(&self, now: u64) -> (r: Option<String>)
        ensures
            match r {
                Some(t) => self.valid_at(now) == Some(t@),
                None => self.valid_at(now) is None,
            },
    {
        match &self.cached {
            Some((t, end)) => if now < *end { Some(owned(t.as_str())) } else { None },
            None => None,
        }
    }

    /// The seconds that the token of an answer is trusted.
    pub fn lifetime_secs(body: &Json) -> (r: u64)
        ensures
            r == lifetime(body@),
    {
        let expires_in: u64 = match body.get("expires_in") {
            Some(j) => match j.as_u64() {
                Some(e) => e,
                None => 3600,
            },
            None => 3600,
        };
        expires_in.saturating_sub(300)
    }

    /// Reads the token endpoint's answer received at `now`: caches `access_token` until
    /// `now + lifetime(body)` and gives it, or fails (cache unchanged) when there is none.
    pub fn store(&mut self, body: &Json, now: u64) -> (r: Result<String, String>)
        requires
            now + lifetime(body@) <= u64::MAX,
        ensures
            match str_of(at(body@, "access_token"@)) {
                Some(t) => r is Ok && r->Ok_0@ == t
                    && (final(self).cached matches Some((tok, end)) && tok@ == t
                        && end == now + lifetime(body@)),
                None => r is Err && r->Err_0@ == missing_token_error() && final(self).cached == old(self).cached,
            },
    {
        let token = match body.get("access_token") {
            Some(j) => match j.as_str() {
                Some(s) => owned(s.as_str()),
                None => { return Err(owned("Pas d'access_token dans la réponse")); },
            },
            None => { return Err(owned("Pas d'access_token dans la réponse")); },
        };
        let secs = Self::lifetime_secs(body);
        let end = now + secs;
        self.cached = Some((owned(token.as_str()), end));
        Ok(token)
    }
}

/// A token stored from an answer at `now` is handed out again at every instant before
/// `now + lifetime`, and never from that instant on.
pub proof fn lemma_token_reused_until_expiry(cache: TokenCache, body: JsonV, now: u64, later: u64)
    requires
        str_of(at(body, "access_token"@)) is Some,
        cache.cached matches Some((tok, end)) && tok@ == str_of(at(body, "access_token"@))->0
            && end == now + lifetime(body),
    ensures
        later < now + lifetime(body) ==> cache.valid_at(later) == str_of(at(body, "access_token"@)),
        later >= now + lifetime(body) ==> cache.valid_at(later) is None,
{
}

} // verus!
