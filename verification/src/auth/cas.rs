//! The identity provider's ticket-validation reply, as this daemon reads
//! it. The HTTP fetch and the JSON decoding live with the embedding
//! process, which hands the parsed reply to the decision logic as one of
//! these values.

use vstd::prelude::*;

verus! {

/// The provider's reply to a ticket-validation request.
pub struct CasResponse {
    pub service_response: ServiceResponse,
}

/// A validation either succeeds with the caller's attributes or fails with
/// a coded reason.
pub enum ServiceResponse {
    AuthenticationSuccess(AuthenticationSuccess),
    AuthenticationFailure(AuthenticationFailure),
}

/// A successful validation: the authenticated user and their attributes.
pub struct AuthenticationSuccess {
    pub attributes: Attributes,
    pub user: String,
}

/// A failed validation: the provider's error code and its description.
pub struct AuthenticationFailure {
    pub code: String,
    pub description: String,
}

/// The attributes the provider reports for an authenticated user.
pub struct Attributes {
    pub id: Vec<String>,
    pub sid: Vec<String>,
}

} // verus!
