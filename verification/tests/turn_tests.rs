use std::collections::HashMap;

use chat_engine::codec::derive_identity;
use chat_engine::completion::{extract_reply_text, CompletionError};
use chat_engine::message::{Message, Role};
use chat_engine::orchestrator::{State, Turn, TurnAction, TurnError};
use chat_engine::store::StoreError;

fn fresh_state() -> State {
    State::new(None, String::from("test-credential"), String::from("kv-actor"))
}

/// Plays the content-addressed backend for one put: derives the key the
/// store would assign and records the finalized message under it.
fn backend_put(
    store: &mut HashMap<String, Message>,
    role: Role,
    content: &str,
    parent: Option<String>,
) -> String {
    let key = derive_identity(role, &String::from(content), &parent);
    store.insert(
        key.clone(),
        Message::new(role, String::from(content), parent).with_id(key.clone()),
    );
    key
}

/// Drives one fully successful turn against the fake backend.
fn run_turn(
    state: &mut State,
    store: &mut HashMap<String, Message>,
    content: &str,
    reply: &str,
) -> (Message, Message) {
    let parent_before = state.chat.head.clone();
    let (mut turn, act) = Turn::start(state, String::from(content));
    assert!(matches!(act, TurnAction::Put(_)));

    let ukey = backend_put(store, Role::User, content, parent_before);
    let mut act = turn.on_user_persisted(state, Ok(ukey.clone()));
    assert_eq!(state.chat.head, Some(ukey.clone()));

    while let TurnAction::Get(id) = act {
        let m = store.get(&id).expect("chained identifier is stored").clone();
        act = turn.on_context_fetched(Ok(m));
    }
    match &act {
        TurnAction::Complete(turns) => {
            assert!(!turns.is_empty());
            assert_eq!(turns.last().unwrap().role, "user");
            assert_eq!(turns.last().unwrap().content, content);
        }
        other => panic!("expected a completion request, got {:?}", turn_kind(other)),
    }

    let act = turn.on_completion(Ok(String::from(reply)));
    assert!(matches!(act, TurnAction::Put(_)));
    let akey = backend_put(store, Role::Assistant, reply, Some(ukey.clone()));
    let act = turn.on_reply_persisted(state, Ok(akey.clone()));
    assert_eq!(state.chat.head, Some(akey.clone()));
    match act {
        TurnAction::Finished(Ok((user, assistant))) => {
            assert_eq!(user.id, Some(ukey));
            assert_eq!(assistant.id, Some(akey));
            (user, assistant)
        }
        _ => panic!("turn should have finished successfully"),
    }
}

fn turn_kind(act: &TurnAction) -> &'static str {
    match act {
        TurnAction::Put(_) => "put",
        TurnAction::Get(_) => "get",
        TurnAction::Complete(_) => "complete",
        TurnAction::Finished(_) => "finished",
    }
}

/// Reads the whole history back through the walk, as the read endpoint
/// does.
fn read_history(state: &State, store: &HashMap<String, Message>) -> Vec<Message> {
    let mut walk = state.get_message_history();
    while let Some(id) = walk.next_needed().cloned() {
        let m = store.get(&id).expect("chained identifier is stored").clone();
        walk.supply(m);
    }
    walk.finish()
}

#[test]
fn first_turn_scenario() {
    let mut state = fresh_state();
    let mut store = HashMap::new();
    let (user, assistant) = run_turn(&mut state, &mut store, "hello", "hi there");
    assert!(user.parent.is_none());
    assert_eq!(assistant.parent, user.id);

    let history = read_history(&state, &store);
    assert_eq!(history.len(), 2);
    assert!(matches!(history[0].role, Role::User));
    assert!(matches!(history[1].role, Role::Assistant));
    assert!(history[0].parent.is_none());
    assert_eq!(history[0].content, "hello");
    assert_eq!(history[1].content, "hi there");
}

#[test]
fn chain_integrity_over_turns() {
    let mut state = fresh_state();
    let mut store = HashMap::new();
    run_turn(&mut state, &mut store, "first question", "first answer");
    run_turn(&mut state, &mut store, "second question", "second answer");

    let history = read_history(&state, &store);
    assert_eq!(history.len(), 4);
    for (i, m) in history.iter().enumerate() {
        if i % 2 == 0 {
            assert!(matches!(m.role, Role::User));
        } else {
            assert!(matches!(m.role, Role::Assistant));
        }
        if i == 0 {
            assert!(m.parent.is_none());
        } else {
            assert_eq!(m.parent, history[i - 1].id);
        }
    }
}

#[test]
fn idempotent_resubmission_collides_to_the_same_key() {
    let mut state = fresh_state();
    let mut store = HashMap::new();
    let parent = state.chat.head.clone();
    let k1 = backend_put(&mut store, Role::User, "hello", parent.clone());
    let k2 = backend_put(&mut store, Role::User, "hello", parent);
    assert_eq!(k1, k2);
    assert_eq!(store.len(), 1);
}

#[test]
fn user_persist_failure_leaves_state_untouched() {
    let mut state = fresh_state();
    let (mut turn, _) = Turn::start(&state, String::from("hello"));
    let act = turn.on_user_persisted(&mut state, Err(StoreError::Unavailable));
    match act {
        TurnAction::Finished(Err(TurnError::PersistUser(StoreError::Unavailable))) => {}
        _ => panic!("expected the persist failure to end the turn"),
    }
    assert_eq!(state.chat.head, None);
}

#[test]
fn reconstruct_failure_propagates_without_retry() {
    let mut state = fresh_state();
    let mut store = HashMap::new();
    let parent = state.chat.head.clone();
    let (mut turn, _) = Turn::start(&state, String::from("hello"));
    let ukey = backend_put(&mut store, Role::User, "hello", parent);
    let act = turn.on_user_persisted(&mut state, Ok(ukey.clone()));
    assert!(matches!(act, TurnAction::Get(_)));
    let act = turn.on_context_fetched(Err(StoreError::NotFound));
    match act {
        TurnAction::Finished(Err(TurnError::ReconstructHistory(StoreError::NotFound))) => {}
        _ => panic!("expected the fetch failure to end the turn"),
    }
    // the user's message is durably recorded: the head stays advanced
    assert_eq!(state.chat.head, Some(ukey));
}

#[test]
fn completion_failure_leaves_a_valid_user_headed_history() {
    let mut state = fresh_state();
    let mut store = HashMap::new();
    run_turn(&mut state, &mut store, "first question", "first answer");

    // second turn: the completion call fails after the user persist
    let parent = state.chat.head.clone();
    let (mut turn, _) = Turn::start(&state, String::from("second question"));
    let ukey = backend_put(&mut store, Role::User, "second question", parent);
    let mut act = turn.on_user_persisted(&mut state, Ok(ukey.clone()));
    while let TurnAction::Get(id) = act {
        act = turn.on_context_fetched(Ok(store.get(&id).unwrap().clone()));
    }
    assert!(matches!(act, TurnAction::Complete(_)));
    let act = turn.on_completion(Err(CompletionError::MalformedResponse));
    match act {
        TurnAction::Finished(Err(TurnError::Completion(CompletionError::MalformedResponse))) => {}
        _ => panic!("expected the completion failure to end the turn"),
    }
    // the head remains at the user message and no assistant was stored
    assert_eq!(state.chat.head, Some(ukey.clone()));
    let history = read_history(&state, &store);
    assert_eq!(history.len(), 3);
    assert!(matches!(history.last().unwrap().role, Role::User));

    // a following successful turn chains off the stranded user message
    let (user, _) = run_turn(&mut state, &mut store, "third question", "third answer");
    assert_eq!(user.parent, Some(ukey));
    assert_eq!(read_history(&state, &store).len(), 5);
}

#[test]
fn assistant_persist_failure_keeps_head_at_the_user() {
    let mut state = fresh_state();
    let mut store = HashMap::new();
    let parent = state.chat.head.clone();
    let (mut turn, _) = Turn::start(&state, String::from("hello"));
    let ukey = backend_put(&mut store, Role::User, "hello", parent);
    let mut act = turn.on_user_persisted(&mut state, Ok(ukey.clone()));
    while let TurnAction::Get(id) = act {
        act = turn.on_context_fetched(Ok(store.get(&id).unwrap().clone()));
    }
    let act = turn.on_completion(Ok(String::from("hi there")));
    assert!(matches!(act, TurnAction::Put(_)));
    let act = turn.on_reply_persisted(&mut state, Err(StoreError::Rejected));
    match act {
        TurnAction::Finished(Err(TurnError::PersistAssistant(StoreError::Rejected))) => {}
        _ => panic!("expected the persist failure to end the turn"),
    }
    assert_eq!(state.chat.head, Some(ukey));
}

#[test]
fn reply_text_extraction() {
    let body = b"{\"content\":[{\"type\":\"text\",\"text\":\"hi there\"}]}".to_vec();
    assert_eq!(extract_reply_text(&body), Ok(String::from("hi there")));

    let missing = b"{\"content\":[{\"type\":\"image\"}]}".to_vec();
    assert_eq!(
        extract_reply_text(&missing),
        Err(CompletionError::MalformedResponse)
    );
    let empty = b"{\"content\":[]}".to_vec();
    assert_eq!(
        extract_reply_text(&empty),
        Err(CompletionError::MalformedResponse)
    );
    let garbage = b"no json".to_vec();
    assert_eq!(
        extract_reply_text(&garbage),
        Err(CompletionError::MalformedResponse)
    );
}
