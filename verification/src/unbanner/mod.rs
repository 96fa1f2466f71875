//! Lifting the bans that an unban request names.

use vstd::prelude::*;

use crate::api::routes::unban::UnBanRequest;

pub use crate::unban::{Executor, UnbanStatus};

verus! {

/// Lifts the bans that an unban request names.
pub trait UnBanner {
    fn unban(&self, ur: UnBanRequest) -> Result<(), Vec<UnbanStatus>>;
}

} // verus!
