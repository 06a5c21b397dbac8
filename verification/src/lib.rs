//! Client-side session layer for a REST API that issues short-lived bearer
//! tokens through an initial basic-auth credential exchange.
//!
//! The crate models three cooperating pieces: an endpoint resolver that maps
//! logical operations to URLs, a credential store that holds basic-auth
//! material or an issued token pair, and an immutable request builder that
//! accumulates method, target and authentication choice before materializing
//! a transport-ready request descriptor.

pub mod creds;
pub mod errors;
pub mod foreign;
pub mod laws;
pub mod request;
pub mod uri;
