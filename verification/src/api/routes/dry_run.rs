//! Switching the executors' dry-run mode: `PATCH /api/dry-run-mode`.

use vstd::prelude::*;

verus! {

/// The body of a dry-run mode switch.
#[derive(Debug, Clone, Copy, PartialEq, Eq, Structural)]
pub struct DryRunModeRequest {
    pub enabled: bool,
}

} // verus!
