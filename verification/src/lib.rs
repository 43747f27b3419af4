//! Ephemeral container sessions gated by short-lived credentials.
//!
//! The crate has two centerpieces: a key/value store whose entries are
//! removed a fixed duration after insertion (`helper`), and the lifecycle
//! plus interactive-attach protocol of a provisioned container session
//! (`docker`). Around them sit the daemon configuration (`config`), the
//! ticket-validation data model (`auth`) and the decision logic of the
//! authentication endpoints (`containerd`). All I/O — the container
//! runtime, the terminal, HTTP — is performed by the embedding process,
//! which hands the results to the functions here as plain values.

use vstd::prelude::*;

pub mod auth;
pub mod config;
pub mod containerd;
pub mod docker;
pub mod helper;

verus! {

/// Authentication progress recorded for one caller identifier.
#[derive(Debug)]
pub enum AuthStatus {
    /// A challenge has been handed out and no ticket has come back yet.
    Assigned,
    /// The identity provider accepted the ticket; the payload is the
    /// session identifier it reported.
    Authed(String),
    /// No record exists, or the identity provider rejected the ticket.
    Failed,
}

/// The abstract value of an [`AuthStatus`]: the session identifier is
/// abstracted to its character sequence.
pub enum AuthStatusView {
    Assigned,
    Authed(Seq<char>),
    Failed,
}

impl View for AuthStatus {
    type V = AuthStatusView;

    open spec fn view(&self) -> AuthStatusView {
        match self {
            AuthStatus::Assigned => AuthStatusView::Assigned,
            AuthStatus::Authed(sid) => AuthStatusView::Authed(sid@),
            AuthStatus::Failed => AuthStatusView::Failed,
        }
    }
}

impl AuthStatus {
    /// An owned copy with the same abstract value.
    pub fn duplicate(&self) -> (r: AuthStatus)
        ensures
            r@ == self@,
    {
        match self {
            AuthStatus::Assigned => AuthStatus::Assigned,
            AuthStatus::Authed(sid) => AuthStatus::Authed(sid.clone()),
            AuthStatus::Failed => AuthStatus::Failed,
        }
    }
}

impl PartialEq for AuthStatus {
    fn eq(&self, other: &AuthStatus) -> (r: bool) {
        match (self, other) {
            (AuthStatus::Assigned, AuthStatus::Assigned) => true,
            (AuthStatus::Authed(a), AuthStatus::Authed(b)) => *a == *b,
            (AuthStatus::Failed, AuthStatus::Failed) => true,
            _ => false,
        }
    }
}

impl vstd::std_specs::cmp::PartialEqSpecImpl for AuthStatus {
    open spec fn obeys_eq_spec() -> bool {
        true
    }

    open spec fn eq_spec(&self, other: &AuthStatus) -> bool {
        self@ == other@
    }
}

impl Eq for AuthStatus {}

} // verus!
