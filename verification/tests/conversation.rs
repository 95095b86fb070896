use fs_ai::conversation::{
    ConversationStore, ConversationTurn, InMemoryConversationStore, TomlConversationStore, TurnRole,
};

fn store() -> InMemoryConversationStore {
    InMemoryConversationStore::new()
}

#[test]
fn starts_empty() {
    assert!(store().is_empty());
}

#[test]
fn append_and_history() {
    let mut s = store();
    s.append(ConversationTurn::now(TurnRole::User, "Hello"));
    assert_eq!(s.len(), 1);
    assert_eq!(s.history()[0].role, TurnRole::User);
}

#[test]
fn multiple_turns_preserved_in_order() {
    let mut s = store();
    s.append(ConversationTurn::now(TurnRole::User, "Question"));
    s.append(ConversationTurn::now(TurnRole::Assistant, "Answer"));
    let h = s.history();
    assert_eq!(h.len(), 2);
    assert_eq!(h[0].role, TurnRole::User);
    assert_eq!(h[1].role, TurnRole::Assistant);
}

#[test]
fn clear_empties_history() {
    let mut s = store();
    s.append(ConversationTurn::now(TurnRole::User, "Foo"));
    s.clear();
    assert!(s.is_empty());
}

#[test]
fn turn_role_labels() {
    assert_eq!(TurnRole::User.label(), "You");
    assert_eq!(TurnRole::Assistant.label(), "AI");
}

#[test]
fn history_gives_back_appended_turns_exactly() {
    let mut s = store();
    let t = ConversationTurn::at(TurnRole::Assistant, "Answer", "2024-05-01T10:00:00+00:00");
    s.append(t.clone());
    let h = s.history();
    assert_eq!(h, vec![t]);
    assert_eq!(h[0].content, "Answer");
    assert_eq!(h[0].timestamp, "2024-05-01T10:00:00+00:00");
}

#[test]
fn history_is_a_copy() {
    let mut s = store();
    s.append(ConversationTurn::at(TurnRole::User, "a", "t1"));
    let h = s.history();
    s.append(ConversationTurn::at(TurnRole::User, "b", "t2"));
    assert_eq!(h.len(), 1);
    assert_eq!(s.len(), 2);
}

#[test]
fn clear_then_append_starts_over() {
    let mut s = store();
    s.append(ConversationTurn::at(TurnRole::User, "a", "t1"));
    s.clear();
    s.append(ConversationTurn::at(TurnRole::Assistant, "b", "t2"));
    let h = s.history();
    assert_eq!(h.len(), 1);
    assert_eq!(h[0].content, "b");
}

#[test]
fn now_keeps_role_and_content_and_stamps_utc() {
    let t = ConversationTurn::now(TurnRole::User, "Hello");
    assert_eq!(t.role, TurnRole::User);
    assert_eq!(t.content, "Hello");
    assert!(t.timestamp.len() >= 25);
    assert!(t.timestamp.ends_with("+00:00"));
    assert_eq!(&t.timestamp[10..11], "T");
}

#[test]
fn default_store_is_empty() {
    let s = InMemoryConversationStore::default();
    assert!(s.is_empty());
    assert_eq!(s.len(), 0);
}

#[test]
fn file_store_starts_with_loaded_turns() {
    let loaded = vec![
        ConversationTurn::at(TurnRole::User, "q", "t1"),
        ConversationTurn::at(TurnRole::Assistant, "a", "t2"),
    ];
    let s = TomlConversationStore::new(Some(loaded.clone()));
    assert_eq!(s.history(), loaded);
    assert_eq!(s.len(), 2);
}

#[test]
fn file_store_without_file_starts_empty() {
    let mut s = TomlConversationStore::new(None);
    assert!(s.is_empty());
    s.append(ConversationTurn::at(TurnRole::User, "q", "t1"));
    assert_eq!(s.len(), 1);
    s.clear();
    assert!(s.is_empty());
}

#[test]
fn file_store_history_after_series_of_changes() {
    let loaded = vec![ConversationTurn::at(TurnRole::User, "old", "t0")];
    let mut s = TomlConversationStore::new(Some(loaded));
    s.append(ConversationTurn::at(TurnRole::User, "a", "t1"));
    s.append(ConversationTurn::at(TurnRole::Assistant, "b", "t2"));
    let contents: Vec<String> = s.history().into_iter().map(|t| t.content).collect();
    assert_eq!(contents, vec!["old", "a", "b"]);
    s.clear();
    s.append(ConversationTurn::at(TurnRole::User, "c", "t3"));
    let contents: Vec<String> = s.history().into_iter().map(|t| t.content).collect();
    assert_eq!(contents, vec!["c"]);
}
