//! Where the executors are.

use vstd::prelude::*;

verus! {

/// An executor's name and the base URL of its API.
#[derive(Debug, Clone)]
pub struct ExecutorConfig {
    pub name: String,
    pub base_url: String,
}

} // verus!
