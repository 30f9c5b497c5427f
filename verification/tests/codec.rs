use issue_sync::digits::{parse_dec, u64_to_dec};
use issue_sync::keys::{channel_key, comment_key, message_key};
use issue_sync::store::MemStore;

#[test]
fn renders_zero() {
    assert_eq!(u64_to_dec(0), "0");
}

#[test]
fn renders_one_digit() {
    assert_eq!(u64_to_dec(7), "7");
}

#[test]
fn renders_many_digits() {
    assert_eq!(u64_to_dec(42), "42");
    assert_eq!(u64_to_dec(90210), "90210");
}

#[test]
fn renders_u64_max() {
    assert_eq!(u64_to_dec(u64::MAX), "18446744073709551615");
}

#[test]
fn parses_canonical() {
    assert_eq!(parse_dec("0"), Some(0));
    assert_eq!(parse_dec("42"), Some(42));
    assert_eq!(parse_dec("18446744073709551615"), Some(u64::MAX));
}

#[test]
fn parse_rejects_empty() {
    assert_eq!(parse_dec(""), None);
}

#[test]
fn parse_rejects_leading_zero() {
    assert_eq!(parse_dec("007"), None);
    assert_eq!(parse_dec("00"), None);
}

#[test]
fn parse_rejects_non_digits() {
    assert_eq!(parse_dec("1x"), None);
    assert_eq!(parse_dec("+1"), None);
    assert_eq!(parse_dec(" 1"), None);
    assert_eq!(parse_dec("-1"), None);
}

#[test]
fn parse_rejects_overflow() {
    assert_eq!(parse_dec("18446744073709551616"), None);
    assert_eq!(parse_dec("99999999999999999999999"), None);
}

#[test]
fn parse_inverts_render() {
    for n in [0u64, 1, 9, 10, 11, 12345, u64::MAX - 1, u64::MAX] {
        assert_eq!(parse_dec(u64_to_dec(n).as_str()), Some(n));
    }
}

#[test]
fn key_families() {
    assert_eq!(channel_key(42), "42:channel");
    assert_eq!(message_key(42), "42:message");
    assert_eq!(comment_key(7), "7:cmt_msg");
}

#[test]
fn store_absence_is_none() {
    let store = MemStore::new();
    assert_eq!(store.get(&"42:channel".to_string()), None);
}

#[test]
fn store_reads_back_most_recent_write() {
    let mut store = MemStore::new();
    store.set(channel_key(42), 2002);
    store.set(message_key(42), 1001);
    assert_eq!(store.get(&"42:channel".to_string()), Some(2002));
    assert_eq!(store.get(&"42:message".to_string()), Some(1001));
    store.set(channel_key(42), 3003);
    assert_eq!(store.get(&"42:channel".to_string()), Some(3003));
    assert_eq!(store.get(&"42:message".to_string()), Some(1001));
}
