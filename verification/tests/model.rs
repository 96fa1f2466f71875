use firewall_api::error::BanTargetConversionError;
use firewall_api::model::{BanTarget, UnbanEntity};

struct TestCase {
    pub input: BanTarget,
    pub want: String,
}

#[test]
fn target_to_key_ip() {
    let tc = TestCase {
        input: BanTarget {
            ip: Some("1.1.1.1".into()),
            user_agent: None,
        },
        want: "ip:1.1.1.1".into(),
    };

    assert_eq!(tc.input.to_string(), tc.want);
}

#[test]
fn target_to_key_user_agent() {
    let tc = TestCase {
        input: BanTarget {
            ip: None,
            user_agent: Some("abc".into()),
        },
        want: "user_agent:abc".into(),
    };

    assert_eq!(tc.input.to_string(), tc.want);
}

#[test]
fn target_to_key_ip_and_user_agent() {
    let tc = TestCase {
        input: BanTarget {
            ip: Some("1.1.1.1".into()),
            user_agent: Some("abc".into()),
        },
        want: "ip:1.1.1.1__user_agent:abc".into(),
    };

    assert_eq!(tc.input.to_string(), tc.want);
}

#[test]
fn target_to_key_keeps_empty_fields() {
    let t = BanTarget { ip: Some(String::new()), user_agent: Some(String::new()) };
    assert_eq!(t.to_string(), "ip:__user_agent:");
}

#[test]
fn unban_entity_target_needs_a_field() {
    let empty = UnbanEntity::Target(BanTarget { ip: None, user_agent: None });
    assert_eq!(empty.verify(), Err(BanTargetConversionError::EmptyRequest));
    let ip = UnbanEntity::Target(BanTarget { ip: Some("10.0.0.1".into()), user_agent: None });
    assert_eq!(ip.verify(), Ok(()));
    let ua = UnbanEntity::Target(BanTarget { ip: None, user_agent: Some("curl".into()) });
    assert_eq!(ua.verify(), Ok(()));
}

#[test]
fn unban_entity_pattern_must_be_star() {
    assert_eq!(UnbanEntity::Pattern("*".into()).verify(), Ok(()));
    assert_eq!(
        UnbanEntity::Pattern("**".into()).verify(),
        Err(BanTargetConversionError::PatternUnsupported)
    );
    assert_eq!(
        UnbanEntity::Pattern("".into()).verify(),
        Err(BanTargetConversionError::PatternUnsupported)
    );
    assert_eq!(
        UnbanEntity::Pattern("1.1.1.*".into()).verify(),
        Err(BanTargetConversionError::PatternUnsupported)
    );
}

#[test]
fn conversion_error_messages() {
    assert_eq!(
        BanTargetConversionError::EmptyRequest.to_string(),
        "at least on field required: 'ip', 'user_agent'"
    );
    assert_eq!(
        BanTargetConversionError::PatternUnsupported.to_string(),
        "\"*\" is only allowed pattern"
    );
    assert_eq!(
        BanTargetConversionError::TargetRequired.to_string(),
        "'target' field is required"
    );
}
