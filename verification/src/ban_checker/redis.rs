//! What a TTL reply of the ban store means for a ban lookup.
//!
//! The store keeps one key per banned target, expiring when the ban ends.
//! A lookup asks for the key's remaining time to live: the store answers
//! `-2` for a missing key, `-1` for a key without expiry, and otherwise the
//! number of seconds left.

use vstd::prelude::*;

use crate::error::{CheckBanError, Redis};

verus! {

/// `num_traits::ToPrimitive::to_u64` on an `i128`: the value itself when it
/// lies in `0..=u64::MAX`, and `None` otherwise (as the crate's source shows:
/// it checks the sign and the upper bound before the cast).
#[verifier::external_body]
fn ttl_to_u64(ttl: i128) -> (r: Option<u64>)
    ensures
        r == (if 0 <= ttl <= u64::MAX {
            Some(ttl as u64)
        } else {
            None::<u64>
        }),
{
    num_traits::ToPrimitive::to_u64(&ttl)
}

/// The store key of a target: the configured prefix followed by the
/// target's own key.
pub fn prefixed_key(prefix: &str, key: &str) -> (s: String)
    ensures
        s@ == prefix@ + key@,
{
    let mut s = String::from_str(prefix);
    s.append(key);
    s
}

/// The meaning of the store's TTL reply `ttl` for `key`.
pub open spec fn reply_lookup(ttl: i128, key: String) -> Result<Option<u64>, Redis> {
    if ttl == -2 {
        Err(Redis::KeyNotExist(key))
    } else if ttl == -1 {
        Err(Redis::NoTTL(key))
    } else if 0 <= ttl <= u64::MAX {
        Ok(Some(ttl as u64))
    } else {
        Err(Redis::BadTTL)
    }
}

/// The answer to a ban lookup: a missing key means that the target is not
/// banned; every other store error is reported.
pub open spec fn lookup_answer(lookup: Result<Option<u64>, Redis>) -> Result<Option<u64>, CheckBanError> {
    match lookup {
        Ok(t) => Ok(t),
        Err(Redis::KeyNotExist(_)) => Ok(None),
        Err(e) => Err(CheckBanError::Error(e)),
    }
}

/// Interprets the store's TTL reply for `key`: a missing key, a key that
/// never expires, the seconds left, or a TTL that does not fit in `u64`.
pub fn ttl_from_reply(ttl: i128, key: String) -> (r: Result<Option<u64>, Redis>)
    ensures
        r == reply_lookup(ttl, key),
{
    if ttl == -2 {
        Err(Redis::KeyNotExist(key))
    } else if ttl == -1 {
        Err(Redis::NoTTL(key))
    } else {
        match ttl_to_u64(ttl) {
            Some(t) => Ok(Some(t)),
            None => Err(Redis::BadTTL),
        }
    }
}

/// The answer to a ban lookup (see `lookup_answer`).
pub fn ban_ttl_from_lookup(lookup: Result<Option<u64>, Redis>) -> (r: Result<Option<u64>, CheckBanError>)
    ensures
        r == lookup_answer(lookup),
{
    match lookup {
        Ok(t) => Ok(t),
        Err(e) => match e {
            Redis::KeyNotExist(_) => Ok(None),
            _ => Err(CheckBanError::Error(e)),
        },
    }
}

/// What a lookup answers for each TTL reply: a missing key is no ban, a
/// TTL of `t` seconds is a ban for `t` seconds, and every other reply (a key
/// without expiry, a TTL out of range) is an error.
pub proof fn lemma_reply_answer(ttl: i128, key: String)
    ensures
        ttl == -2 ==> lookup_answer(reply_lookup(ttl, key)) == Ok::<Option<u64>, CheckBanError>(None),
        0 <= ttl <= u64::MAX ==> lookup_answer(reply_lookup(ttl, key))
            == Ok::<Option<u64>, CheckBanError>(Some(ttl as u64)),
        (ttl == -1 || ttl < -2 || ttl > u64::MAX) ==> lookup_answer(reply_lookup(ttl, key)) is Err,
{
}

} // verus!
