//! Answers to a ban check.

use vstd::prelude::*;

verus! {

/// The time at which a ban ends, in seconds since the Unix epoch.
#[derive(Debug, Clone, Copy, PartialEq, Eq, Structural)]
pub struct BannedBanStatus {
    pub ban_expires_at: u64,
}

/// Whether a target is banned.
#[derive(Debug, Clone, Copy, PartialEq, Eq, Structural)]
pub enum BanStatus {
    Free,
    Banned(BannedBanStatus),
}

} // verus!
