//! The executors: the services that apply bans, and the requests this
//! service forwards to them.

pub mod config;
pub mod pool;

pub use pool::Pool;

use vstd::prelude::*;

verus! {

/// What came of one request to an executor: it could not be sent or
/// answered (with the error's text), or the executor answered with a status.
#[derive(Debug, Clone)]
pub enum RequestOutcome {
    Failed(String),
    Responded(u16),
}

/// The HTTP methods of the requests to executors.
#[derive(Debug, Clone, Copy, PartialEq, Eq, Structural)]
pub enum HttpMethod {
    Get,
    Post,
    Delete,
}

} // verus!
