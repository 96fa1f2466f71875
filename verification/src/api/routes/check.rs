//! The ban check: `POST /api/check-ban`.
//!
//! The caller looks the key up in the ban store between the two steps here.

use vstd::prelude::*;

use crate::api::http_error::{conversion_error_response, ErrorResponse, ErrorResponseView};
use crate::api::response::{BanStatus, BannedBanStatus};
use crate::ban_checker::redis::{lookup_answer, reply_lookup};
use crate::error::{BanTargetConversionError, CheckBanError};
use crate::model::BanTarget;

verus! {

/// The body of a ban check.
#[derive(Debug, Clone)]
pub struct BanTargetRequest {
    pub target: BanTarget,
}

impl BanTargetRequest {
    /// Accepts a target with at least one field.
    pub fn verify(&self) -> (r: Result<(), BanTargetConversionError>)
        ensures
            r == (if self.target.has_field() {
                Ok::<(), BanTargetConversionError>(())
            } else {
                Err(BanTargetConversionError::EmptyRequest)
            }),
    {
        if self.target.ip.is_none() && self.target.user_agent.is_none() {
            return Err(BanTargetConversionError::EmptyRequest);
        }
        Ok(())
    }
}

/// The first step of a ban check: the key to look up, or the response to a
/// request without a usable target.
pub fn check_ban_key(req: &BanTargetRequest) -> (r: Result<String, ErrorResponse>)
    ensures
        match r {
            Ok(k) => req.target.has_field() && k@ == req.target.key(),
            Err(e) => !req.target.has_field() && e@ == conversion_error_response(
                BanTargetConversionError::EmptyRequest,
            ),
        },
{
    match req.verify() {
        Err(e) => Err(e.to_error_response()),
        Ok(()) => Ok(req.target.to_string()),
    }
}

/// The answer to a ban check, given the lookup's result and the current
/// time in seconds since the Unix epoch: not banned, banned until `now`
/// plus the remaining time, or a 500 response with the error's message.
pub open spec fn ban_answer(lookup: Result<Option<u64>, CheckBanError>, now: u64) -> Result<
    BanStatus,
    ErrorResponseView,
> {
    match lookup {
        Ok(None) => Ok(BanStatus::Free),
        Ok(Some(ttl)) => Ok(BanStatus::Banned(BannedBanStatus { ban_expires_at: (now + ttl) as u64 })),
        Err(e) => Err(ErrorResponseView { code: 500, reason: e.message(), details: None }),
    }
}

/// A ban check's answer as plain values.
pub open spec fn answer_view(r: Result<BanStatus, ErrorResponse>) -> Result<BanStatus, ErrorResponseView> {
    match r {
        Ok(s) => Ok(s),
        Err(e) => Err(e@),
    }
}

/// The second step of a ban check: the answer for the lookup's result.
pub fn check_ban_answer(lookup: Result<Option<u64>, CheckBanError>, now: u64) -> (r: Result<
    BanStatus,
    ErrorResponse,
>)
    requires
        lookup matches Ok(Some(ttl)) ==> now + ttl <= u64::MAX,
    ensures
        answer_view(r) == ban_answer(lookup, now),
{
    match lookup {
        Ok(None) => Ok(BanStatus::Free),
        Ok(Some(ttl)) => Ok(BanStatus::Banned(BannedBanStatus { ban_expires_at: now + ttl })),
        Err(e) => Err(ErrorResponse { code: 500, reason: e.to_string(), details: None }),
    }
}

/// What a ban check answers for the store's TTL reply: a missing key is
/// `free`, a TTL of `t` seconds is a ban that expires `t` seconds from now,
/// and any other reply is a 500 error.
pub proof fn lemma_check_answer_for_reply(ttl: i128, key: String, now: u64)
    ensures
        ttl == -2 ==> ban_answer(lookup_answer(reply_lookup(ttl, key)), now) == Ok::<
            BanStatus,
            ErrorResponseView,
        >(BanStatus::Free),
        0 <= ttl <= u64::MAX && now + ttl <= u64::MAX ==> ban_answer(
            lookup_answer(reply_lookup(ttl, key)),
            now,
        ) == Ok::<BanStatus, ErrorResponseView>(
            BanStatus::Banned(BannedBanStatus { ban_expires_at: (now + ttl) as u64 }),
        ),
        (ttl == -1 || ttl < -2 || ttl > u64::MAX) ==> (ban_answer(lookup_answer(reply_lookup(ttl, key)), now)
            matches Err(e) && e.code == 500),
{
}

} // verus!
