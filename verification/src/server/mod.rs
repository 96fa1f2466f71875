//! Ban check answers that carry the status, the expiry and any error in
//! one body.

pub mod response;

pub use self::response::{response_ban, response_error, response_free, BannedBanStatus, CheckBanResponse};
