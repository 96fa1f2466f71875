//! The API key check.

use vstd::prelude::*;

use crate::api::http_error::{ErrorResponse, ErrorResponseView};
use crate::api::API_KEY_HEADER;

verus! {

/// A byte that a header value may hold and still be read as text: a
/// visible ASCII character, a space, or a tab.
pub open spec fn is_visible_ascii(b: u8) -> bool {
    (32 <= b && b < 127) || b == 9
}

/// Every byte of a header value is visible ASCII.
pub open spec fn is_visible_text(bytes: Seq<u8>) -> bool {
    forall|i: int| 0 <= i < bytes.len() ==> is_visible_ascii(#[trigger] bytes[i])
}

/// The text of a header value whose bytes are ASCII.
pub open spec fn header_text(bytes: Seq<u8>) -> Seq<char> {
    bytes.map_values(|b: u8| b as char)
}

/// `actix_web::http::header::HeaderValue::from_bytes` followed by `to_str`.
/// Claims what the `http` crate's source shows: the text is returned exactly
/// when every byte is visible ASCII (`from_bytes` refuses control bytes but a
/// tab, `to_str` also refuses bytes from 127 up), and it is the bytes read as
/// ASCII characters.
#[verifier::external_body]
fn header_value_to_str(bytes: &[u8]) -> (r: Option<String>)
    ensures
        r is Some <==> is_visible_text(bytes@),
        r matches Some(s) ==> s@ == header_text(bytes@),
{
    match actix_web::http::header::HeaderValue::from_bytes(bytes) {
        Ok(value) => match value.to_str() {
            Ok(text) => Some(text.to_string()),
            Err(_) => None,
        },
        Err(_) => None,
    }
}

/// The response to a request without the API key header.
pub open spec fn missing_key_response() -> ErrorResponseView {
    ErrorResponseView { code: 401, reason: "X-API-KEY"@ + " header is required"@, details: None }
}

/// The response to an API key header that is not text.
pub open spec fn unreadable_key_response() -> ErrorResponseView {
    ErrorResponseView {
        code: 400,
        reason: "can't convert "@ + "X-API-KEY"@ + " header to string"@,
        details: None,
    }
}

/// The response to a wrong API key.
pub open spec fn wrong_key_response() -> ErrorResponseView {
    ErrorResponseView { code: 403, reason: "X-API-KEY"@ + " header is invalid"@, details: None }
}

/// The answer of the API key check to a request whose API key header holds
/// `header` (`None` where the request has no such header).
pub open spec fn key_check(key: Seq<char>, header: Option<Seq<u8>>) -> Option<ErrorResponseView> {
    match header {
        None => Some(missing_key_response()),
        Some(bytes) => if !is_visible_text(bytes) {
            Some(unreadable_key_response())
        } else if header_text(bytes) != key {
            Some(wrong_key_response())
        } else {
            None
        },
    }
}

/// The bytes of an optional header value.
pub open spec fn header_bytes(header: Option<&[u8]>) -> Option<Seq<u8>> {
    match header {
        Some(h) => Some(h@),
        None => None,
    }
}

/// The API key check admits a request exactly when its header holds, byte
/// for byte, the key as visible ASCII text, whatever the key's length;
/// otherwise it answers 401 for a missing header, 400 for a header that is
/// not text, and 403 for any other value.
pub proof fn lemma_key_check_verdict(key: Seq<char>, header: Option<Seq<u8>>)
    ensures
        header is None ==> (key_check(key, header) matches Some(e) && e.code == 401),
        header matches Some(b) ==> ((key_check(key, header) is None) <==> (b.len() == key.len() && forall|i: int|
            0 <= i < b.len() ==> ((32 <= #[trigger] b[i] && b[i] < 127) || b[i] == 9) && b[i] as char == key[i])),
        header matches Some(b) ==> ((exists|i: int| 0 <= i < b.len() && !((32 <= #[trigger] b[i] && b[i] < 127) || b[i] == 9))
            ==> (key_check(key, header) matches Some(e) && e.code == 400)),
        header matches Some(b) ==> ((forall|i: int| 0 <= i < b.len() ==> ((32 <= #[trigger] b[i] && b[i] < 127) || b[i] == 9))
            && (b.len() != key.len() || exists|i: int| 0 <= i < b.len() && #[trigger] b[i] as char != key[i]) ==> (key_check(
            key,
            header,
        ) matches Some(e) && e.code == 403)),
{
    match header {
        None => {},
        Some(b) => {
            if is_visible_text(b) && header_text(b) == key {
                assert forall|i: int| 0 <= i < b.len() implies ((32 <= #[trigger] b[i] && b[i] < 127) || b[i] == 9)
                    && b[i] as char == key[i] by {
                    assert(is_visible_ascii(b[i]));
                    assert(header_text(b)[i] == b[i] as char);
                }
            }
            if b.len() == key.len() && forall|i: int|
                0 <= i < b.len() ==> ((32 <= #[trigger] b[i] && b[i] < 127) || b[i] == 9) && b[i] as char == key[i] {
                assert(is_visible_text(b));
                assert(header_text(b) =~= key);
            }
            if is_visible_text(b) && header_text(b) != key {
                if b.len() == key.len() {
                    let i = choose|i: int| 0 <= i < b.len() && header_text(b)[i] != key[i];
                    assert(b[i] as char != key[i]);
                }
            }
            if exists|i: int| 0 <= i < b.len() && !((32 <= #[trigger] b[i] && b[i] < 127) || b[i] == 9) {
                let i = choose|i: int| 0 <= i < b.len() && !((32 <= #[trigger] b[i] && b[i] < 127) || b[i] == 9);
                assert(!is_visible_ascii(b[i]));
            }
            if (forall|i: int| 0 <= i < b.len() ==> ((32 <= #[trigger] b[i] && b[i] < 127) || b[i] == 9))
                && (b.len() != key.len() || exists|i: int| 0 <= i < b.len() && #[trigger] b[i] as char != key[i]) {
                assert(is_visible_text(b));
                if b.len() == key.len() {
                    let i = choose|i: int| 0 <= i < b.len() && #[trigger] b[i] as char != key[i];
                    assert(header_text(b)[i] != key[i]);
                }
            }
        },
    }
}

/// Admits requests that carry the configured API key.
pub struct ApiKeyChecker {
    pub key: String,
}

impl ApiKeyChecker {
    /// A checker for `key`.
    pub fn new(key: String) -> (r: Self)
        ensures
            r.key == key,
    {
        ApiKeyChecker { key }
    }

    /// Checks the value of the API key header of a request: it must be
    /// present, be text, and equal the key.
    pub fn check(&self, header: Option<&[u8]>) -> (r: Result<(), ErrorResponse>)
        ensures
            match key_check(self.key@, header_bytes(header)) {
                None => r is Ok,
                Some(e) => r matches Err(resp) && resp@ == e,
            },
    {
        match header {
            None => {
                let mut reason = String::from_str(API_KEY_HEADER);
                reason.append(" header is required");
                Err(ErrorResponse { code: 401, reason, details: None })
            },
            Some(bytes) => match header_value_to_str(bytes) {
                None => {
                    let mut reason = String::from_str("can't convert ");
                    reason.append(API_KEY_HEADER);
                    reason.append(" header to string");
                    Err(ErrorResponse { code: 400, reason, details: None })
                },
                Some(text) => {
                    if self.key != text {
                        let mut reason = String::from_str(API_KEY_HEADER);
                        reason.append(" header is invalid");
                        Err(ErrorResponse { code: 403, reason, details: None })
                    } else {
                        Ok(())
                    }
                },
            },
        }
    }
}

} // verus!
