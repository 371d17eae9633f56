//! The registry engine's decision rules: how a response's status and
//! challenge headers steer the single 401-then-authenticate round, and the
//! bounded TTL cache that keeps credentials per resource URL.

use vstd::prelude::*;

use crate::auth::Credential;
use crate::manifest::{ManifestError, ManifestV2Schema};

verus! {

/// A failure of the registry engine.
#[derive(Debug)]
pub enum RegistryError {
    /// The HTTP transport failed; carries a plain description.
    ReqwestError(String),
    InvalidAuthenticationChallenge(String),
    CouldNotGetToken(u16),
    CouldNotAuthenticate,
    ManifestError(ManifestError),
    UnsupportedManifestSchema(ManifestV2Schema),
    ImageSpecError(crate::image_config::ImageSpecError),
    /// A manifest list held no entry for the requested platform.
    NoMatchingPlatform,
}

/// What the engine does with the first response of a GET.
#[derive(Debug, Clone, Copy, PartialEq, Eq, Structural)]
pub enum GetDecision {
    /// A success status: hand the response back as it is.
    Accept,
    /// 401 with a `WWW-Authenticate` header: run the challenge.
    Authenticate,
    /// 401 without a challenge: invalid authentication challenge.
    FailInvalidChallenge,
    /// Any other status: the token (or resource) could not be had.
    FailStatus,
}

/// The engine's rule: 2xx is accepted; only 401 triggers authentication,
/// and only when a challenge header is present; everything else fails with
/// the response's status.
pub open spec fn get_decision_spec(status: u16, has_challenge: bool) -> GetDecision {
    if 200 <= status < 300 {
        GetDecision::Accept
    } else if status == 401 && has_challenge {
        GetDecision::Authenticate
    } else if status == 401 {
        GetDecision::FailInvalidChallenge
    } else {
        GetDecision::FailStatus
    }
}

/// Decide what to do with the first response of a GET, from its status and
/// whether it carries a `WWW-Authenticate` header.
pub fn classify_response(status: u16, has_challenge: bool) -> (r: GetDecision)
    ensures
        r == get_decision_spec(status, has_challenge),
{
    if 200 <= status && status < 300 {
        GetDecision::Accept
    } else if status == 401 && has_challenge {
        GetDecision::Authenticate
    } else if status == 401 {
        GetDecision::FailInvalidChallenge
    } else {
        GetDecision::FailStatus
    }
}

/// Authentication is attempted only for a 401 response that carries a
/// challenge; every other failing status is surfaced without a retry.
pub proof fn lemma_auth_only_on_unauthorized(status: u16, has_challenge: bool)
    ensures
        get_decision_spec(status, has_challenge) == GetDecision::Authenticate ==> status == 401
            && has_challenge,
        status != 401 && !(200 <= status < 300) ==> get_decision_spec(status, has_challenge)
            == GetDecision::FailStatus,
{
}

/// The bounded time the engine keeps a credential that does not name its
/// own lifetime, in seconds.
pub const DEFAULT_CREDENTIAL_TTL_SECS: u64 = 60;

/// The longest lifetime the cache accepts, in seconds (ten years). A bound
/// is needed because adding an unbounded span to the current instant can
/// overflow the clock's representation.
pub const MAX_CREDENTIAL_TTL_SECS: u64 = 315360000;

/// The lifetime a credential is cached for: its own `expires_in` when the
/// realm named one, the bounded default otherwise; a realm-supplied
/// lifetime is clamped to the cache's maximum.
pub open spec fn credential_ttl_spec(cred: Credential) -> u64 {
    match cred {
        Credential::Token(t) => match t.expires_in {
            Some(e) => if e <= MAX_CREDENTIAL_TTL_SECS {
                e
            } else {
                MAX_CREDENTIAL_TTL_SECS
            },
            None => DEFAULT_CREDENTIAL_TTL_SECS,
        },
    }
}

/// The lifetime to cache a credential for, clamped to the cache's maximum.
pub fn credential_ttl(cred: &Credential) -> (r: u64)
    ensures
        r == credential_ttl_spec(*cred),
        r <= MAX_CREDENTIAL_TTL_SECS,
{
    match cred {
        Credential::Token(t) => match t.expires_in {
            Some(e) => if e <= MAX_CREDENTIAL_TTL_SECS {
                e
            } else {
                MAX_CREDENTIAL_TTL_SECS
            },
            None => DEFAULT_CREDENTIAL_TTL_SECS,
        },
    }
}

#[verifier::external_type_specification]
#[verifier::external_body]
#[verifier::reject_recursive_types(K)]
#[verifier::reject_recursive_types(V)]
#[verifier::reject_recursive_types(S)]
pub struct ExTtlCache<K: core::cmp::Eq + core::hash::Hash, V, S: core::hash::BuildHasher>(
    ttl_cache::TtlCache<K, V, S>,
);

/// A bounded cache of credentials keyed by resource URL, each entry with
/// its own time to live.
pub struct CredentialCache {
    inner: ttl_cache::TtlCache<String, Credential, std::collections::hash_map::RandomState>,
}

/// The entries a credential cache holds, by URL. An entry may stop being
/// served at any time: its lifetime may lapse, and insertions evict the
/// oldest entry once the cache is full.
pub uninterp spec fn cache_entries(c: CredentialCache) -> Map<Seq<char>, Credential>;

impl CredentialCache {
    /// Relies on ttl_cache::TtlCache::new: an empty cache holding at most
    /// `capacity` entries.
    #[verifier::external_body]
    pub fn new(capacity: usize) -> (r: CredentialCache)
        requires
            capacity >= 1,
        ensures
            forall|k: Seq<char>| !cache_entries(r).dom().contains(k),
    {
        CredentialCache { inner: ttl_cache::TtlCache::new(capacity) }
    }

    /// Relies on ttl_cache::TtlCache::get: a credential the cache holds for
    /// this URL, or nothing once the entry's lifetime has lapsed.
    #[verifier::external_body]
    pub fn get(&self, url: &str) -> (r: Option<Credential>)
        ensures
            r matches Some(c) ==> cache_entries(*self).contains_pair(url@, c),
    {
        self.inner.get(url).cloned()
    }

    /// Relies on ttl_cache::TtlCache::insert: the entry is stored under the
    /// URL with the given lifetime in seconds; entries beyond the new one
    /// survive only if they were already held. The lifetime is bounded
    /// because the crate adds it to the current instant, which panics when
    /// the sum cannot be represented.
    #[verifier::external_body]
    pub fn insert(&mut self, url: String, cred: Credential, ttl_secs: u64)
        requires
            ttl_secs <= MAX_CREDENTIAL_TTL_SECS,
        ensures
            cache_entries(*final(self)).contains_pair(url@, cred),
            forall|k: Seq<char>, v: Credential|
                #[trigger] cache_entries(*final(self)).contains_pair(k, v) ==> k == url@
                    || cache_entries(*old(self)).contains_pair(k, v),
    {
        self.inner.insert(url, cred, std::time::Duration::from_secs(ttl_secs));
    }
}

} // verus!
