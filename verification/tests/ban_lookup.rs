use firewall_api::ban_checker::redis::{ban_ttl_from_lookup, prefixed_key, ttl_from_reply};
use firewall_api::error::{CheckBanError, Redis};

#[test]
fn prefixed_key_concatenates() {
    assert_eq!(prefixed_key("bans:", "ip:1.1.1.1"), "bans:ip:1.1.1.1");
    assert_eq!(prefixed_key("", "ip:1.1.1.1"), "ip:1.1.1.1");
}

#[test]
fn ttl_reply_missing_key() {
    match ttl_from_reply(-2, "k".to_string()) {
        Err(Redis::KeyNotExist(k)) => assert_eq!(k, "k"),
        other => panic!("unexpected {:?}", other),
    }
}

#[test]
fn ttl_reply_no_expiry() {
    match ttl_from_reply(-1, "k".to_string()) {
        Err(Redis::NoTTL(k)) => assert_eq!(k, "k"),
        other => panic!("unexpected {:?}", other),
    }
}

#[test]
fn ttl_reply_seconds_left() {
    assert!(matches!(ttl_from_reply(0, "k".to_string()), Ok(Some(0))));
    assert!(matches!(ttl_from_reply(3600, "k".to_string()), Ok(Some(3600))));
    assert!(matches!(
        ttl_from_reply(u64::MAX as i128, "k".to_string()),
        Ok(Some(u64::MAX))
    ));
}

#[test]
fn ttl_reply_out_of_range() {
    assert!(matches!(ttl_from_reply(-3, "k".to_string()), Err(Redis::BadTTL)));
    assert!(matches!(ttl_from_reply(i128::MIN, "k".to_string()), Err(Redis::BadTTL)));
    assert!(matches!(
        ttl_from_reply(u64::MAX as i128 + 1, "k".to_string()),
        Err(Redis::BadTTL)
    ));
}

#[test]
fn lookup_answer_missing_key_is_free() {
    let r = ban_ttl_from_lookup(ttl_from_reply(-2, "k".to_string()));
    assert!(matches!(r, Ok(None)));
    let r = ban_ttl_from_lookup(ttl_from_reply(60, "k".to_string()));
    assert!(matches!(r, Ok(Some(60))));
}

#[test]
fn lookup_answer_other_errors_are_reported() {
    let r = ban_ttl_from_lookup(ttl_from_reply(-1, "k".to_string()));
    match r {
        Err(CheckBanError::Error(Redis::NoTTL(k))) => assert_eq!(k, "k"),
        other => panic!("unexpected {:?}", other),
    }
    assert!(matches!(
        ban_ttl_from_lookup(Err(Redis::Timeout)),
        Err(CheckBanError::Error(Redis::Timeout))
    ));
}

#[test]
fn store_error_messages() {
    assert_eq!(Redis::KeyNotExist("k".into()).to_string(), "key 'k' not found");
    assert_eq!(Redis::NoTTL("k".into()).to_string(), "key 'k' has not ttl");
    assert_eq!(Redis::BadTTL.to_string(), "bad ttl");
    assert_eq!(
        Redis::Cmd("IoError".into(), "TTL".into()).to_string(),
        "execute 'TTL': IoError"
    );
    assert_eq!(Redis::GetConnection("e".into()).to_string(), "get connection: e");
    assert_eq!(Redis::BuildPool("e".into()).to_string(), "build pool: e");
    assert_eq!(
        Redis::CreateConnManager("e".into()).to_string(),
        "create connection manager: e"
    );
    assert_eq!(Redis::Timeout.to_string(), "timeout");
    assert_eq!(CheckBanError::Error(Redis::Timeout).to_string(), "timeout");
}
