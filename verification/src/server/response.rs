//! The body of a ban check that answers errors with the same body shape as
//! statuses.

use vstd::prelude::*;

use crate::api::response::BanStatus;

pub use crate::api::response::BannedBanStatus;

verus! {

/// The answer to a ban check: a status, with the expiry repeated for a ban,
/// or an error.
#[derive(Debug, Clone)]
pub struct CheckBanResponse {
    pub status: Option<BanStatus>,
    pub ban_expires_at: Option<u64>,
    pub error: Option<String>,
}

/// The answer for a target that is not banned.
pub fn response_free() -> (r: CheckBanResponse)
    ensures
        r.status == Some(BanStatus::Free),
        r.ban_expires_at is None,
        r.error is None,
{
    CheckBanResponse { status: Some(BanStatus::Free), ban_expires_at: None, error: None }
}

/// The answer for a target banned until `expiration_time`.
pub fn response_ban(expiration_time: u64) -> (r: CheckBanResponse)
    ensures
        r.status == Some(BanStatus::Banned(BannedBanStatus { ban_expires_at: expiration_time })),
        r.ban_expires_at == Some(expiration_time),
        r.error is None,
{
    CheckBanResponse {
        status: Some(BanStatus::Banned(BannedBanStatus { ban_expires_at: expiration_time })),
        ban_expires_at: Some(expiration_time),
        error: None,
    }
}

/// The answer for a check that failed with `error`.
pub fn response_error(error: String) -> (r: CheckBanResponse)
    ensures
        r.status is None,
        r.ban_expires_at is None,
        r.error == Some(error),
{
    CheckBanResponse { status: None, ban_expires_at: None, error: Some(error) }
}

impl CheckBanResponse {
    /// The HTTP status of the answer: 200, or 500 for an error.
    pub fn status_code(&self) -> (s: u16)
        ensures
            s == (if self.error is None {
                200u16
            } else {
                500u16
            }),
    {
        if self.error.is_none() {
            200
        } else {
            500
        }
    }
}

} // verus!
