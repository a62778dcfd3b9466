//! The client side: the documents of the remote service, the exchange of
//! credentials for a token, and the requests of each endpoint.

pub mod auth;
#[allow(clippy::module_inception)]
pub mod client;
pub mod envelope;
pub mod types;
