use chat_engine::history::HistoryWalk;
use chat_engine::message::{Message, Role};
use chat_engine::orchestrator::State;

#[test]
fn empty_conversation_reads_as_empty_without_any_fetch() {
    let state = State::new(None, String::from("test-credential"), String::from("kv-actor"));
    let mut walk = state.get_message_history();
    // nothing is pending: the walk never asks for a single store call
    assert!(walk.next_needed().is_none());
    assert!(walk.done());
    assert_eq!(walk.finish().len(), 0);
}

#[test]
fn walk_reverses_into_oldest_first_order() {
    let a = Message::new(Role::User, String::from("one"), None).with_id(String::from("k1"));
    let b = Message::new(Role::Assistant, String::from("two"), Some(String::from("k1")))
        .with_id(String::from("k2"));
    let c = Message::new(Role::User, String::from("three"), Some(String::from("k2")))
        .with_id(String::from("k3"));

    let mut walk = HistoryWalk::start(Some(String::from("k3")));
    assert_eq!(walk.next_needed().cloned(), Some(String::from("k3")));
    walk.supply(c);
    assert_eq!(walk.next_needed().cloned(), Some(String::from("k2")));
    walk.supply(b);
    assert_eq!(walk.next_needed().cloned(), Some(String::from("k1")));
    walk.supply(a);
    assert!(walk.done());

    let history = walk.finish();
    assert_eq!(history.len(), 3);
    assert_eq!(history[0].content, "one");
    assert_eq!(history[1].content, "two");
    assert_eq!(history[2].content, "three");
    assert!(history[0].parent.is_none());
    assert_eq!(history[1].parent, history[0].id);
    assert_eq!(history[2].parent, history[1].id);
}
