use chat_engine::channel::{decode_command, interpret_command, route_request, Command, Route};
use chat_engine::completion::{build_completion_turns, emit_completion_request, role_name};
use chat_engine::message::{Message, Role};

#[test]
fn send_message_frames_decode() {
    let frame = b"{\"type\":\"send_message\",\"content\":\"hello\"}".to_vec();
    match decode_command(&frame) {
        Command::SendMessage { content } => assert_eq!(content, "hello"),
        _ => panic!("expected a send command"),
    }
}

#[test]
fn get_messages_frames_decode() {
    let frame = b"{\"type\":\"get_messages\"}".to_vec();
    assert!(matches!(decode_command(&frame), Command::GetMessages));
}

#[test]
fn foreign_frames_are_ignored() {
    assert!(matches!(
        decode_command(&b"{\"type\":\"reboot\"}".to_vec()),
        Command::Unknown
    ));
    assert!(matches!(
        decode_command(&b"{\"content\":\"hello\"}".to_vec()),
        Command::Unknown
    ));
    assert!(matches!(
        decode_command(&b"{\"type\":\"send_message\"}".to_vec()),
        Command::Unknown
    ));
    assert!(matches!(decode_command(&b"not json".to_vec()), Command::Unknown));
}

#[test]
fn interpretation_table() {
    assert!(matches!(interpret_command(None, None), Command::Unknown));
    assert!(matches!(
        interpret_command(Some(String::from("get_messages")), Some(String::from("x"))),
        Command::GetMessages
    ));
    match interpret_command(Some(String::from("send_message")), Some(String::from("hi"))) {
        Command::SendMessage { content } => assert_eq!(content, "hi"),
        _ => panic!("expected a send command"),
    }
}

#[test]
fn routing_table() {
    assert_eq!(route_request("GET", "/"), Route::Index);
    assert_eq!(route_request("GET", "/index.html"), Route::Index);
    assert_eq!(route_request("GET", "/styles.css"), Route::Styles);
    assert_eq!(route_request("GET", "/chat.js"), Route::Script);
    assert_eq!(route_request("GET", "/api/messages"), Route::ApiMessages);
    assert_eq!(route_request("GET", "/nothing"), Route::NotFound);
    assert_eq!(route_request("POST", "/api/messages"), Route::NotFound);
}

#[test]
fn completion_turns_keep_role_and_content_only() {
    let history = vec![
        Message::new(Role::User, String::from("hello"), None).with_id(String::from("k1")),
        Message::new(Role::Assistant, String::from("hi"), Some(String::from("k1")))
            .with_id(String::from("k2")),
    ];
    let turns = build_completion_turns(&history);
    assert_eq!(turns.len(), 2);
    assert_eq!(turns[0].role, "user");
    assert_eq!(turns[0].content, "hello");
    assert_eq!(turns[1].role, "assistant");
    assert_eq!(turns[1].content, "hi");
    assert_eq!(role_name(Role::User), "user");
    assert_eq!(role_name(Role::Assistant), "assistant");
}

#[test]
fn empty_history_is_a_valid_completion_request() {
    let turns = build_completion_turns(&vec![]);
    assert!(turns.is_empty());
    let body = emit_completion_request("m-1", &turns);
    assert_eq!(body, "{\"model\":\"m-1\",\"max_tokens\":1024,\"messages\":[]}");
}

#[test]
fn completion_request_body_shape() {
    let history = vec![
        Message::new(Role::User, String::from("say \"hi\"\n"), None).with_id(String::from("k1")),
        Message::new(Role::Assistant, String::from("hi"), Some(String::from("k1")))
            .with_id(String::from("k2")),
    ];
    let body = emit_completion_request("m-1", &build_completion_turns(&history));
    let v: serde_json::Value = serde_json::from_str(&body).unwrap();
    assert_eq!(v.get("model").unwrap().as_str(), Some("m-1"));
    assert_eq!(v.get("max_tokens").unwrap().as_u64(), Some(1024));
    let msgs = v.get("messages").unwrap().as_array().unwrap();
    assert_eq!(msgs.len(), 2);
    assert_eq!(msgs[0].get("role").unwrap().as_str(), Some("user"));
    // the escaping round-trips arbitrary content through real JSON
    assert_eq!(msgs[0].get("content").unwrap().as_str(), Some("say \"hi\"\n"));
    assert_eq!(msgs[1].get("role").unwrap().as_str(), Some("assistant"));
    assert_eq!(msgs[1].get("content").unwrap().as_str(), Some("hi"));
}
