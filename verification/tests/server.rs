use firewall_api::api::response::BanStatus;
use firewall_api::http_error::BanTargetConversionError;
use firewall_api::api::http_error::ErrorDetails;
use firewall_api::server::{response_ban, response_error, response_free, BannedBanStatus};

#[test]
fn check_ban_response_bodies() {
    let f = response_free();
    assert_eq!(f.status, Some(BanStatus::Free));
    assert_eq!(f.status_code(), 200);
    let b = response_ban(1651846618);
    assert_eq!(b.status, Some(BanStatus::Banned(BannedBanStatus { ban_expires_at: 1651846618 })));
    assert_eq!(b.ban_expires_at, Some(1651846618));
    assert_eq!(b.status_code(), 200);
    let e = response_error("timeout".into());
    assert_eq!(e.error, Some("timeout".to_string()));
    assert!(e.status.is_none());
    assert_eq!(e.status_code(), 500);
}

#[test]
fn field_required_error() {
    let e = BanTargetConversionError::FieldRequired;
    assert_eq!(e.to_string(), "at least on field required: 'ip', 'user-agent'");
    assert_eq!(e.status_code(), 400);
    let r = e.error_response();
    assert_eq!(r.code, 400);
    assert_eq!(r.reason, "Provided request does not match the constraints");
    assert!(matches!(r.details, Some(ErrorDetails::Message(m)) if m == "at least on field required: 'ip', 'user-agent'"));
}
