//! Decision logic of the authentication endpoints.
//!
//! Three endpoints share two stores: the challenge filter (a time-bounded
//! mapping from a freshly minted challenge to the caller identifier it was
//! handed to) and the per-identifier authentication status. The functions
//! here make every decision those endpoints make; minting the challenge,
//! the HTTP exchange with the identity provider and the JSON decoding stay
//! with the embedding process, which serializes access to the shared
//! stores.

use vstd::prelude::*;

use crate::auth::cas::{AuthenticationFailure, CasResponse, ServiceResponse};
use crate::config::{auth_url_of, request_url_of, CasConfig};
use crate::helper::{
    lemma_map_view_insert, lemma_map_view_remove, map_view, spec_insert, spec_remove,
    AutoRemoveHashMap,
};
use crate::{AuthStatus, AuthStatusView};

verus! {

use vstd::hash_map::StringHashMap;
use vstd::string::StringExecFns;

/// Authentication status per caller identifier, shared by the concurrent
/// request handlers; the embedding process serializes access.
pub struct AuthStore {
    inner: StringHashMap<AuthStatus>,
}

impl View for AuthStore {
    type V = Map<Seq<char>, AuthStatusView>;

    closed spec fn view(&self) -> Map<Seq<char>, AuthStatusView> {
        map_view(self.inner@)
    }
}

impl AuthStore {
    /// An empty store.
    pub fn new() -> (r: Self)
        ensures
            r@ == Map::<Seq<char>, AuthStatusView>::empty(),
    {
        let r = AuthStore { inner: StringHashMap::new() };
        proof {
            assert(map_view(r.inner@) =~= Map::<Seq<char>, AuthStatusView>::empty());
        }
        r
    }

    /// Records `status` for `identifier`, overwriting any earlier record.
    pub fn insert(&mut self, identifier: String, status: AuthStatus)
        ensures
            final(self)@ == old(self)@.insert(identifier@, status@),
    {
        let ghost m0 = self.inner@;
        let ghost gstatus = status;
        self.inner.insert(identifier, status);
        proof {
            lemma_map_view_insert(m0, identifier@, gstatus);
        }
    }

    /// Drops the record for `identifier`, if any.
    pub fn remove(&mut self, identifier: &str)
        ensures
            final(self)@ == old(self)@.remove(identifier@),
    {
        let ghost m0 = self.inner@;
        self.inner.remove(identifier);
        proof {
            lemma_map_view_remove::<AuthStatus>(m0, identifier@);
        }
    }

    /// Whether a record exists for `identifier`.
    pub fn contains_key(&self, identifier: &str) -> (r: bool)
        ensures
            r == self@.contains_key(identifier@),
    {
        self.inner.contains_key(identifier)
    }
}

/// Builds the login URL for a freshly minted challenge and records the
/// hand-out: the challenge maps to the caller's identifier in the
/// time-bounded challenge filter, and the caller's status becomes
/// assigned. Minting the challenge (a fresh random identifier) is the
/// embedding process's job.
pub fn create_auth_url(
    cas: &CasConfig,
    filter: &mut AutoRemoveHashMap,
    status: &mut AuthStore,
    challenge: &str,
    identifier: &str,
    now: u64,
) -> (url: String)
    requires
        now + old(filter)@.ttl <= u64::MAX,
    ensures
        url@ == auth_url_of(cas@, challenge@),
        final(filter)@ == spec_insert(old(filter)@, now as int, challenge@, identifier@),
        final(status)@ == old(status)@.insert(identifier@, AuthStatusView::Assigned),
{
    let url = cas.gen_auth_url(challenge);
    let _previous = filter.insert(now, String::from_str(challenge), String::from_str(identifier));
    status.insert(String::from_str(identifier), AuthStatus::Assigned);
    url
}

/// The status lookup behind the status endpoint: a caller with no record
/// is reported as failed.
pub fn get_auth_status(status: &AuthStore, identifier: &str) -> (r: AuthStatus)
    ensures
        status@.contains_key(identifier@) ==> r@ == status@[identifier@],
        !status@.contains_key(identifier@) ==> r is Failed,
{
    match status.inner.get(identifier) {
        Some(s) => s.duplicate(),
        None => AuthStatus::Failed,
    }
}

/// How the ticket-callback endpoint answers before any ticket is
/// validated.
pub enum CasAdmission {
    /// No identity provider is configured.
    Forbidden,
    /// The challenge is unknown: never handed out, already consumed, or
    /// expired out of the filter.
    BadRequest,
    /// The challenge was consumed: the caller identifier it was minted
    /// for, and the ticket-validation URL to fetch.
    Proceed(String, String),
}

/// The admission half of the ticket callback: requires a configured provider
/// and an outstanding challenge, consumes the challenge, and yields the
/// validation URL for the presented ticket.
pub fn cas_admit(
    cas: Option<&CasConfig>,
    filter: &mut AutoRemoveHashMap,
    challenge: &str,
    ticket: &str,
) -> (r: CasAdmission)
    ensures
        match cas {
            None => r is Forbidden && final(filter)@ == old(filter)@,
            Some(c) => {
                &&& !old(filter)@.entries.contains_key(challenge@) ==> r is BadRequest
                    && final(filter)@ == old(filter)@
                &&& old(filter)@.entries.contains_key(challenge@) ==> (r matches CasAdmission::Proceed(
                    id,
                    url,
                ) && id@ == old(filter)@.entries[challenge@] && url@ == request_url_of(
                    c@,
                    challenge@,
                    ticket@,
                ) && final(filter)@ == spec_remove(old(filter)@, challenge@))
            },
        },
{
    let c = match cas {
        None => {
            return CasAdmission::Forbidden;
        },
        Some(c) => c,
    };
    if !filter.contains_key(challenge) {
        return CasAdmission::BadRequest;
    }
    let id = match filter.remove(challenge) {
        Some(id) => id,
        None => {
            proof {
                assert(false);
            }
            String::new()
        },
    };
    let url = c.gen_request_url(challenge, ticket);
    CasAdmission::Proceed(id, url)
}

/// The ticket-callback endpoint's answer once the provider has replied.
pub enum CasOutcome {
    /// The ticket was accepted; the greeting shown to the caller.
    Welcome(String),
    /// The ticket was rejected; the provider's failure record.
    Denied(AuthenticationFailure),
}

/// The resolution half of the ticket callback, applied to the provider's
/// parsed reply: on success the caller is recorded as authenticated under
/// the first provider-reported session identifier and greeted; on failure
/// the caller's record is dropped and the failure handed back.
pub fn cas_apply_response(
    status: &mut AuthStore,
    identifier: &str,
    response: CasResponse,
) -> (r: CasOutcome)
    requires
        response.service_response matches ServiceResponse::AuthenticationSuccess(s)
            ==> s.attributes.sid@.len() >= 1,
    ensures
        match response.service_response {
            ServiceResponse::AuthenticationSuccess(s) => final(status)@ == old(status)@.insert(
                identifier@,
                AuthStatusView::Authed(s.attributes.sid@[0]@),
            ) && (r matches CasOutcome::Welcome(msg) && msg@ == "Welcome back, "@
                + s.attributes.sid@[0]@),
            ServiceResponse::AuthenticationFailure(f) => final(status)@ == old(status)@.remove(
                identifier@,
            ) && (r matches CasOutcome::Denied(g) && g.code@ == f.code@ && g.description@
                == f.description@),
        },
{
    match response.service_response {
        ServiceResponse::AuthenticationSuccess(s) => {
            let sid = &s.attributes.sid[0];
            let mut msg = String::from_str("Welcome back, ");
            msg.append(sid.as_str());
            status.insert(String::from_str(identifier), AuthStatus::Authed(sid.clone()));
            CasOutcome::Welcome(msg)
        },
        ServiceResponse::AuthenticationFailure(f) => {
            status.remove(identifier);
            CasOutcome::Denied(f)
        },
    }
}

} // verus!
