//! Session and token lifecycle for a credential backend: token pair issuance,
//! expiry, refresh-token rotation, revocation, and the request-time guards
//! that resolve a bearer token to an authenticated, non-blocked identity.

pub mod auth;
pub mod codec;
pub mod fault;
pub mod guard;
pub mod store;
pub mod token;
pub mod user;
