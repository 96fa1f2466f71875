//! The HTTP interface: request validation, the API key check and the
//! bodies of responses.

pub mod auth;
pub mod http_error;
pub mod response;
pub mod routes;

pub use routes::unban::UnBanRequest;



use vstd::prelude::*;

verus! {

/// The header that carries the API key.
pub const API_KEY_HEADER: &'static str = "X-API-KEY";

} // verus!
