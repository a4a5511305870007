use chat_stream::{ChatMessage, ConversationStore, Elapsed, MessageContent, StoreError, TurnUpdate};

#[test]
fn new_store_is_empty() {
    let store = ConversationStore::new();
    assert_eq!(store.len(), 0);
    assert!(store.is_empty());
    assert!(store.snapshot().is_empty());
    assert!(store.last().is_none());
    assert!(store.get(0).is_none());
}

#[test]
fn append_keeps_the_order() {
    let mut store = ConversationStore::new();
    store.append(ChatMessage::user("one", "t1"));
    store.append(ChatMessage::placeholder("t2"));
    store.append(ChatMessage::error("three", "t3"));
    assert_eq!(store.len(), 3);
    assert!(!store.is_empty());
    let turns = store.snapshot();
    assert_eq!(turns[0], ChatMessage::user("one", "t1"));
    assert_eq!(turns[1], ChatMessage::placeholder("t2"));
    assert_eq!(turns[2], ChatMessage::error("three", "t3"));
    assert_eq!(store.get(1), Some(&ChatMessage::placeholder("t2")));
    assert_eq!(store.get(3), None);
    assert_eq!(store.last(), Some(&ChatMessage::error("three", "t3")));
}

#[test]
fn mutate_last_on_empty_store_fails_with_no_open_turn() {
    let mut store = ConversationStore::new();
    assert_eq!(
        store.mutate_last(TurnUpdate::Delta("x".to_string())),
        Err(StoreError::NoOpenTurn)
    );
    assert_eq!(
        store.mutate_last(TurnUpdate::Finish(Elapsed::from_secs(1))),
        Err(StoreError::NoOpenTurn)
    );
    assert_eq!(store.mutate_last(TurnUpdate::Fail("x".to_string())), Err(StoreError::NoOpenTurn));
    assert!(store.is_empty());
}

#[test]
fn mutate_last_changes_the_last_turn_only() {
    let mut store = ConversationStore::new();
    store.append(ChatMessage::placeholder("early"));
    store.append(ChatMessage::user("q", "t"));
    store.append(ChatMessage::placeholder("late"));
    assert_eq!(store.mutate_last(TurnUpdate::Delta("Hi".to_string())), Ok(()));
    assert_eq!(store.len(), 3);
    assert_eq!(store.get(0), Some(&ChatMessage::placeholder("early")));
    assert_eq!(store.get(1), Some(&ChatMessage::user("q", "t")));
    let last = store.last().unwrap();
    assert_eq!(last.text(), Some("Hi"));
    assert_eq!(last.token_count(), 1);
    assert_eq!(last.timestamp(), "late");
}

#[test]
fn mutate_last_on_a_closed_turn_fails_and_changes_nothing() {
    let mut store = ConversationStore::new();
    store.append(ChatMessage::placeholder("t"));
    store.append(ChatMessage::user("q", "t"));
    assert_eq!(
        store.mutate_last(TurnUpdate::Delta("x".to_string())),
        Err(StoreError::NoOpenTurn)
    );
    assert_eq!(store.len(), 2);
    assert_eq!(store.get(0), Some(&ChatMessage::placeholder("t")));
    assert_eq!(store.last(), Some(&ChatMessage::user("q", "t")));
}

#[test]
fn mutate_last_finishes_then_refuses() {
    let mut store = ConversationStore::new();
    store.append(ChatMessage::placeholder("t"));
    assert_eq!(store.mutate_last(TurnUpdate::Finish(Elapsed::from_secs(3))), Ok(()));
    assert_eq!(store.last().unwrap().response_duration(), Some(Elapsed::from_secs(3)));
    assert_eq!(
        store.mutate_last(TurnUpdate::Delta("late".to_string())),
        Err(StoreError::NoOpenTurn)
    );
    assert_eq!(store.last().unwrap().text(), Some(""));
}

#[test]
fn mutate_last_fails_a_placeholder() {
    let mut store = ConversationStore::new();
    store.append(ChatMessage::placeholder("t"));
    assert_eq!(store.mutate_last(TurnUpdate::Fail("down".to_string())), Ok(()));
    assert_eq!(store.last().unwrap().content(), &MessageContent::Error("down".to_string()));
    assert_eq!(store.len(), 1);
}
