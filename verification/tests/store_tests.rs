use chat_engine::codec::{derive_identity, encode_record};
use chat_engine::message::{Chat, Role};
use chat_engine::store::{
    decode_chat_doc, decode_get_response, decode_put_response, emit_chat_doc, emit_get_request,
    emit_put_request, get_outcome, put_outcome, StoreError,
};

fn ok_put_envelope(key: &str) -> Vec<u8> {
    format!("{{\"status\":\"ok\",\"key\":\"{}\"}}", key).into_bytes()
}

fn ok_get_envelope(payload: &[u8]) -> Vec<u8> {
    let mut map = serde_json::Map::new();
    map.insert(
        String::from("status"),
        serde_json::Value::String(String::from("ok")),
    );
    map.insert(
        String::from("value"),
        serde_json::Value::Array(payload.iter().map(|b| serde_json::Value::from(*b)).collect()),
    );
    serde_json::to_vec(&serde_json::Value::Object(map)).unwrap()
}

#[test]
fn put_request_shape() {
    let s = emit_put_request(&vec![1u8, 2u8, 255u8]);
    assert_eq!(s, "{\"_type\":\"request\",\"data\":{\"Put\":[1,2,255]}}");
    let v: serde_json::Value = serde_json::from_str(&s).unwrap();
    assert_eq!(v.get("_type").unwrap().as_str(), Some("request"));
    let put = v.get("data").unwrap().get("Put").unwrap().as_array().unwrap();
    assert_eq!(put.len(), 3);
    assert_eq!(put[2].as_u64(), Some(255));
}

#[test]
fn put_request_of_empty_payload() {
    let s = emit_put_request(&vec![]);
    assert_eq!(s, "{\"_type\":\"request\",\"data\":{\"Put\":[]}}");
}

#[test]
fn get_request_escapes_the_key() {
    let id = "odd\"key\\with\ncontrol";
    let s = emit_get_request(id);
    let v: serde_json::Value = serde_json::from_str(&s).unwrap();
    assert_eq!(v.get("_type").unwrap().as_str(), Some("request"));
    assert_eq!(v.get("data").unwrap().get("Get").unwrap().as_str(), Some(id));
}

#[test]
fn put_response_success_carries_the_key() {
    let r = decode_put_response(&ok_put_envelope("4211"));
    assert_eq!(r, Ok(String::from("4211")));
}

#[test]
fn put_response_non_success_is_rejected() {
    let r = decode_put_response(&b"{\"status\":\"full\",\"key\":\"4211\"}".to_vec());
    assert_eq!(r, Err(StoreError::Rejected));
}

#[test]
fn put_response_without_key_is_malformed() {
    let r = decode_put_response(&b"{\"status\":\"ok\"}".to_vec());
    assert_eq!(r, Err(StoreError::MalformedResponse));
    let r = decode_put_response(&b"not json at all".to_vec());
    assert_eq!(r, Err(StoreError::MalformedResponse));
}

#[test]
fn stored_message_round_trip() {
    let content = String::from("hello, store");
    let parent = Some(String::from("77"));
    let payload = encode_record(Role::User, &content, &parent);
    let id = derive_identity(Role::User, &content, &parent);
    let m = decode_get_response(&ok_get_envelope(&payload), id.clone()).expect("round trip");
    assert!(matches!(m.role, Role::User));
    assert_eq!(m.content, content);
    assert_eq!(m.parent, parent);
    assert_eq!(m.id, Some(id));
}

#[test]
fn absent_key_is_not_found() {
    let r = decode_get_response(&b"{\"status\":\"missing\"}".to_vec(), String::from("9"));
    assert_eq!(r.unwrap_err(), StoreError::NotFound);
}

#[test]
fn undecodable_payload_is_malformed() {
    let r = decode_get_response(&ok_get_envelope(&[9u8, 9u8]), String::from("9"));
    assert_eq!(r.unwrap_err(), StoreError::MalformedResponse);
    let r = decode_get_response(&b"{\"status\":\"ok\"}".to_vec(), String::from("9"));
    assert_eq!(r.unwrap_err(), StoreError::MalformedResponse);
    // a value field whose entries are not byte values
    let r = decode_get_response(
        &b"{\"status\":\"ok\",\"value\":[300]}".to_vec(),
        String::from("9"),
    );
    assert_eq!(r.unwrap_err(), StoreError::MalformedResponse);
}

#[test]
fn outcome_tables() {
    assert_eq!(put_outcome(false, Some(String::from("k"))), Err(StoreError::Rejected));
    assert_eq!(put_outcome(true, None), Err(StoreError::MalformedResponse));
    assert_eq!(put_outcome(true, Some(String::from("k"))), Ok(String::from("k")));
    assert_eq!(get_outcome(false, Some(vec![1u8])), Err(StoreError::NotFound));
    assert_eq!(get_outcome(true, None), Err(StoreError::MalformedResponse));
    assert_eq!(get_outcome(true, Some(vec![1u8])), Ok(vec![1u8]));
}

#[test]
fn chat_doc_round_trip() {
    let doc = emit_chat_doc(&Chat { head: None });
    assert_eq!(doc, "{\"head\":null}");
    assert_eq!(decode_chat_doc(&doc.into_bytes()).head, None);

    let head = Some(String::from("level\"42\""));
    let doc = emit_chat_doc(&Chat { head: head.clone() });
    assert_eq!(decode_chat_doc(&doc.into_bytes()).head, head);
}
