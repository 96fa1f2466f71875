//! Lifting bans: `DELETE /api/bans`.

use vstd::prelude::*;

use crate::api::auth::{header_bytes, key_check, ApiKeyChecker};
use crate::api::http_error::{conversion_error_response, ErrorResponse, ErrorResponseView};
use crate::error::BanTargetConversionError;
use crate::model::UnbanEntity;

verus! {

/// The body of an unban request.
#[derive(Debug, Clone)]
pub struct UnBanRequest {
    pub target: Option<UnbanEntity>,
}

impl UnBanRequest {
    /// The error that `verify` reports for this request, if any.
    pub open spec fn verify_error(&self) -> Option<BanTargetConversionError> {
        match self.target {
            Some(ube) => ube.verify_error(),
            None => Some(BanTargetConversionError::TargetRequired),
        }
    }

    /// Accepts a request whose target is present and valid.
    pub fn verify(&self) -> (r: Result<(), BanTargetConversionError>)
        ensures
            match self.verify_error() {
                None => r is Ok,
                Some(e) => r == Err::<(), BanTargetConversionError>(e),
            },
    {
        match self.target.as_ref() {
            Some(ube) => ube.verify(),
            None => Err(BanTargetConversionError::TargetRequired),
        }
    }
}

/// Whether an unban request goes on to the executors, and otherwise its
/// response: the API key is checked first, the body second.
pub open spec fn unban_admission(key: Seq<char>, header: Option<Seq<u8>>, req: UnBanRequest) -> Option<
    ErrorResponseView,
> {
    match key_check(key, header) {
        Some(e) => Some(e),
        None => match req.verify_error() {
            Some(e) => Some(conversion_error_response(e)),
            None => None,
        },
    }
}

/// An unban request goes on to the executors exactly when its API key is
/// accepted and its body is valid; a refused key is answered before the
/// body is looked at, and a valid key with an invalid body gets the body's
/// 400 response.
pub proof fn lemma_unban_admission(key: Seq<char>, header: Option<Seq<u8>>, req: UnBanRequest)
    ensures
        unban_admission(key, header, req) is None <==> (key_check(key, header) is None && req.verify_error() is None),
        key_check(key, header) is Some ==> unban_admission(key, header, req) == key_check(key, header),
        key_check(key, header) is None ==> (req.verify_error() matches Some(e) ==> unban_admission(
            key,
            header,
            req,
        ) == Some(conversion_error_response(e))),
        key_check(key, header) is None && req.target is None ==> (unban_admission(key, header, req) matches Some(
            r,
        ) && r.code == 400),
{
}

/// Decides whether an unban request goes on to the executors.
pub fn admit_unban(checker: &ApiKeyChecker, api_key_header: Option<&[u8]>, req: &UnBanRequest) -> (r:
    Result<(), ErrorResponse>)
    ensures
        match unban_admission(checker.key@, header_bytes(api_key_header), *req) {
            None => r is Ok,
            Some(e) => r matches Err(resp) && resp@ == e,
        },
{
    checker.check(api_key_header)?;
    match req.verify() {
        Err(e) => Err(e.to_error_response()),
        Ok(()) => Ok(()),
    }
}

} // verus!
