use shortcut_core::overlay::OverlayMessage;
use shortcut_core::overlay::OverlayState;

fn msg(id: &str, content: &str, timestamp: u64) -> OverlayMessage {
    OverlayMessage { id: id.to_string(), content: content.to_string(), timestamp }
}

#[test]
fn messages_are_kept_in_arrival_order() {
    let mut state = OverlayState::new();
    assert!(state.snapshot().is_empty());
    state.push_message(msg("1", "first", 10));
    state.push_message(msg("2", "second", 20));
    let snap = state.snapshot();
    assert_eq!(snap.len(), 2);
    assert_eq!(snap[0].id, "1");
    assert_eq!(snap[0].content, "first");
    assert_eq!(snap[0].timestamp, 10);
    assert_eq!(snap[1].id, "2");
}

#[test]
fn clear_removes_everything() {
    let mut state = OverlayState::new();
    state.push_message(msg("1", "first", 10));
    state.clear();
    assert!(state.snapshot().is_empty());
    state.push_message(msg("3", "third", 30));
    assert_eq!(state.snapshot().len(), 1);
}
