use chat_engine::codec::{decode_record, derive_identity, encode_record, text_eq, u64_to_dec};
use chat_engine::message::Role;

#[test]
fn identity_is_deterministic() {
    let content = String::from("hello");
    let a = derive_identity(Role::User, &content, &None);
    let b = derive_identity(Role::User, &content, &None);
    assert_eq!(a, b);
}

#[test]
fn identity_follows_the_triple() {
    let c1 = String::from("hello");
    let c2 = String::from("hello!");
    let base = derive_identity(Role::User, &c1, &None);
    assert_ne!(base, derive_identity(Role::Assistant, &c1, &None));
    assert_ne!(base, derive_identity(Role::User, &c2, &None));
    assert_ne!(
        base,
        derive_identity(Role::User, &c1, &Some(String::from("123")))
    );
}

#[test]
fn record_round_trip_without_parent() {
    let content = String::from("hello, store");
    let bytes = encode_record(Role::User, &content, &None);
    let (role, text, parent) = decode_record(&bytes).expect("canonical bytes decode");
    assert!(matches!(role, Role::User));
    assert_eq!(text, "hello, store");
    assert!(parent.is_none());
}

#[test]
fn record_round_trip_with_parent_and_unicode() {
    let content = String::from("gr\u{00fc}\u{00df} dich \u{1f600}");
    let parent = Some(String::from("4211170339011"));
    let bytes = encode_record(Role::Assistant, &content, &parent);
    let (role, text, back) = decode_record(&bytes).expect("canonical bytes decode");
    assert!(matches!(role, Role::Assistant));
    assert_eq!(text, content);
    assert_eq!(back, parent);
}

#[test]
fn decode_refuses_foreign_bytes() {
    assert!(decode_record(&vec![]).is_none());
    assert!(decode_record(&vec![5u8, 0u8, 65u8]).is_none());
    assert!(decode_record(&vec![117u8, 7u8]).is_none());
    // role and parent marker without the promised length prefix
    assert!(decode_record(&vec![117u8, 1u8, 3u8]).is_none());
    // content bytes that are not valid UTF-8
    assert!(decode_record(&vec![117u8, 0u8, 0xffu8, 0xfeu8]).is_none());
}

#[test]
fn decimal_rendering() {
    assert_eq!(u64_to_dec(0), "0");
    assert_eq!(u64_to_dec(7), "7");
    assert_eq!(u64_to_dec(1024), "1024");
    assert_eq!(u64_to_dec(u64::MAX), "18446744073709551615");
}

#[test]
fn text_equality() {
    assert!(text_eq("ok", "ok"));
    assert!(!text_eq("ok", "err"));
    assert!(!text_eq("ok", "ok "));
    assert!(text_eq("", ""));
}
