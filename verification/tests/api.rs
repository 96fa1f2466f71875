use firewall_api::api::auth::ApiKeyChecker;
use firewall_api::api::http_error::{field_required_response, merge_fields, missing_field_name, ErrorDetails, ErrorResponse};
use firewall_api::api::response::{BanStatus, BannedBanStatus};
use firewall_api::api::routes::check::{check_ban_answer, check_ban_key, BanTargetRequest};
use firewall_api::api::routes::unban::{admit_unban, UnBanRequest};
use firewall_api::error::{BanTargetConversionError, CheckBanError, ExecutorError, Redis};
use firewall_api::model::{BanTarget, UnbanEntity};

fn message(details: &Option<ErrorDetails>) -> String {
    match details {
        Some(ErrorDetails::Message(m)) => m.clone(),
        _ => panic!("expected a message"),
    }
}

fn fields(details: &Option<ErrorDetails>) -> Vec<(String, String)> {
    match details {
        Some(ErrorDetails::Fields(f)) => f.clone(),
        _ => panic!("expected fields"),
    }
}

#[test]
fn api_key_missing() {
    let c = ApiKeyChecker::new("secret".into());
    let e = c.check(None).unwrap_err();
    assert_eq!(e.code, 401);
    assert_eq!(e.reason, "X-API-KEY header is required");
    assert!(e.details.is_none());
}

#[test]
fn api_key_not_text() {
    let c = ApiKeyChecker::new("secret".into());
    let e = c.check(Some(&[0x73, 0xe9, 0x63][..])).unwrap_err();
    assert_eq!(e.code, 400);
    assert_eq!(e.reason, "can't convert X-API-KEY header to string");
    let e = c.check(Some(&[0x73, 0x01][..])).unwrap_err();
    assert_eq!(e.code, 400);
}

#[test]
fn api_key_wrong() {
    let c = ApiKeyChecker::new("secret".into());
    let e = c.check(Some(b"Secret")).unwrap_err();
    assert_eq!(e.code, 403);
    assert_eq!(e.reason, "X-API-KEY header is invalid");
    let e = c.check(Some(b"")).unwrap_err();
    assert_eq!(e.code, 403);
}

#[test]
fn api_key_right() {
    let c = ApiKeyChecker::new("secret".into());
    assert!(c.check(Some(b"secret")).is_ok());
    let c = ApiKeyChecker::new("a b\tc".into());
    assert!(c.check(Some(b"a b\tc")).is_ok());
}

#[test]
fn check_ban_key_for_valid_target() {
    let req = BanTargetRequest {
        target: BanTarget { ip: Some("11.12.13.14".into()), user_agent: Some("curl user-agent".into()) },
    };
    assert!(req.verify().is_ok());
    assert_eq!(check_ban_key(&req).unwrap(), "ip:11.12.13.14__user_agent:curl user-agent");
}

#[test]
fn check_ban_key_for_empty_target() {
    let req = BanTargetRequest { target: BanTarget { ip: None, user_agent: None } };
    assert_eq!(req.verify(), Err(BanTargetConversionError::EmptyRequest));
    let e = check_ban_key(&req).unwrap_err();
    assert_eq!(e.code, 400);
    assert_eq!(e.reason, "Provided request does not match the constraints");
    assert_eq!(message(&e.details), "at least on field required: 'ip', 'user_agent'");
    assert_eq!(e.status_code(), 400);
}

#[test]
fn check_ban_answers() {
    assert_eq!(check_ban_answer(Ok(None), 1651846000).unwrap(), BanStatus::Free);
    assert_eq!(
        check_ban_answer(Ok(Some(618)), 1651846000).unwrap(),
        BanStatus::Banned(BannedBanStatus { ban_expires_at: 1651846618 })
    );
    let e = check_ban_answer(Err(CheckBanError::Error(Redis::Timeout)), 1).unwrap_err();
    assert_eq!(e.code, 500);
    assert_eq!(e.reason, "timeout");
    assert!(e.details.is_none());
    assert_eq!(e.status_code(), 500);
}

#[test]
fn error_response_status_code() {
    let mut e = ErrorResponse { code: 404, reason: String::new(), details: None };
    assert_eq!(e.status_code(), 404);
    e.code = 100;
    assert_eq!(e.status_code(), 100);
    e.code = 999;
    assert_eq!(e.status_code(), 999);
    e.code = 99;
    assert_eq!(e.status_code(), 500);
    e.code = 1000;
    assert_eq!(e.status_code(), 500);
    e.code = 0;
    assert_eq!(e.status_code(), 500);
}

#[test]
fn unban_request_verify() {
    assert_eq!(UnBanRequest { target: None }.verify(), Err(BanTargetConversionError::TargetRequired));
    assert_eq!(
        UnBanRequest { target: Some(UnbanEntity::Pattern("x".into())) }.verify(),
        Err(BanTargetConversionError::PatternUnsupported)
    );
    assert_eq!(
        UnBanRequest { target: Some(UnbanEntity::Target(BanTarget { ip: None, user_agent: None })) }
            .verify(),
        Err(BanTargetConversionError::EmptyRequest)
    );
    assert_eq!(UnBanRequest { target: Some(UnbanEntity::Pattern("*".into())) }.verify(), Ok(()));
}

#[test]
fn admit_unban_checks_key_first() {
    let c = ApiKeyChecker::new("k".into());
    let bad_body = UnBanRequest { target: None };
    assert_eq!(admit_unban(&c, None, &bad_body).unwrap_err().code, 401);
    assert_eq!(admit_unban(&c, Some(b"x"), &bad_body).unwrap_err().code, 403);
    let e = admit_unban(&c, Some(b"k"), &bad_body).unwrap_err();
    assert_eq!(e.code, 400);
    assert_eq!(e.reason, "Provided request does not match the constraints");
    assert_eq!(fields(&e.details), vec![("target".to_string(), "This field is required".to_string())]);
    let good = UnBanRequest { target: Some(UnbanEntity::Pattern("*".into())) };
    assert!(admit_unban(&c, Some(b"k"), &good).is_ok());
}

#[test]
fn merge_fields_keeps_last_description() {
    let pairs = vec![
        ("a".to_string(), "1".to_string()),
        ("b".to_string(), "2".to_string()),
        ("a".to_string(), "3".to_string()),
    ];
    let mut merged = merge_fields(&pairs);
    merged.sort();
    assert_eq!(merged, vec![("a".to_string(), "3".to_string()), ("b".to_string(), "2".to_string())]);
    assert!(merge_fields(&Vec::new()).is_empty());
}

#[test]
fn executor_errors_response() {
    let e = ErrorResponse::from_unban_errors(vec![
        ExecutorError { executor_name: "executor_2".into(), error_desc: "Internal Server Error".into() },
    ]);
    assert_eq!(e.code, 500);
    assert_eq!(e.reason, "Some executors didn't response with success");
    assert_eq!(fields(&e.details), vec![("executor_2".to_string(), "Internal Server Error".to_string())]);
}

#[test]
fn dry_run_report_response() {
    let e = ErrorResponse::from_dry_run_report(vec![
        ("executor_1".to_string(), "OK".to_string()),
        ("executor_2".to_string(), "500 INTERNAL SERVER ERROR".to_string()),
    ]);
    assert_eq!(e.code, 500);
    assert_eq!(e.reason, "Some executors didn't set dry run successfully");
    let mut f = fields(&e.details);
    f.sort();
    assert_eq!(
        f,
        vec![
            ("executor_1".to_string(), "OK".to_string()),
            ("executor_2".to_string(), "500 INTERNAL SERVER ERROR".to_string())
        ]
    );
    assert_eq!(e.status_code(), 500);
}

#[test]
fn conversion_error_response() {
    let e = BanTargetConversionError::PatternUnsupported.to_error_response();
    assert_eq!(e.code, 400);
    assert_eq!(message(&e.details), "\"*\" is only allowed pattern");
}

#[test]
fn missing_field_response() {
    let e = field_required_response("enabled".into());
    assert_eq!(e.code, 400);
    assert_eq!(e.reason, "Provided request does not match the constraints");
    assert_eq!(fields(&e.details), vec![("enabled".to_string(), "This field is required".to_string())]);
    let e = BanTargetConversionError::TargetRequired.to_error_response();
    assert_eq!(fields(&e.details), vec![("target".to_string(), "This field is required".to_string())]);
    let e = BanTargetConversionError::EmptyRequest.to_error_response();
    assert_eq!(message(&e.details), "at least on field required: 'ip', 'user_agent'");
}

#[test]
fn missing_field_names() {
    assert_eq!(missing_field_name("missing field `target` at line 1 column 2"), Some("target".to_string()));
    assert_eq!(missing_field_name("missing field `enabled`"), Some("enabled".to_string()));
    assert_eq!(missing_field_name("missing field ``"), Some(String::new()));
    assert_eq!(missing_field_name("missing field `target"), None);
    assert_eq!(missing_field_name("invalid type: integer `1`, expected a string"), None);
    assert_eq!(missing_field_name(""), None);
}
