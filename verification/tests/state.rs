use wald::types::state::SyncState;

#[test]
fn test_default_state() {
    let state = SyncState::default();
    assert!(state.last_sync.is_none());
}

#[test]
fn test_update_last_sync() {
    let mut state = SyncState::default();
    state.update_last_sync("abc123");
    assert_eq!(state.last_sync, Some("abc123".to_string()));
}

#[test]
fn update_last_sync_replaces_the_commit() {
    let mut state = SyncState::default();
    state.update_last_sync("abc123");
    state.update_last_sync("def456");
    assert_eq!(state.last_sync.as_deref(), Some("def456"));
}
