//! Authentication against the external identity provider.

pub mod cas;
