use shortcut_core::bus::CommandBus;
use shortcut_core::dispatch::move_target;
use shortcut_core::dispatch::resize_target;
use shortcut_core::dispatch::resolve_index;
use shortcut_core::dispatch::submit_agent_toggle;
use shortcut_core::dispatch::toggle_target;
use shortcut_core::grammar::parse;
use shortcut_core::registry::plan_registrations;
use shortcut_core::registry::Action;
use shortcut_core::config::UnifiedShortcutConfig;

#[test]
fn move_left_and_right_from_origin_position() {
    assert_eq!(move_target(100, 100, &Action::OverlayMoveLeft), Some((50, 100)));
    assert_eq!(move_target(100, 100, &Action::OverlayMoveRight), Some((150, 100)));
    assert_eq!(move_target(100, 100, &Action::OverlayMoveUp), Some((100, 50)));
    assert_eq!(move_target(100, 100, &Action::OverlayMoveDown), Some((100, 150)));
}

#[test]
fn move_out_of_range_drops_the_event() {
    assert_eq!(move_target(i32::MAX - 10, 0, &Action::OverlayMoveRight), None);
    assert_eq!(move_target(0, i32::MIN + 10, &Action::OverlayMoveUp), None);
}

#[test]
fn resize_up_three_times_clamps_at_minimum() {
    // From 220, three unclamped steps of 50 would reach 70; the height is
    // clamped to 200 instead and the width is untouched.
    let (w1, h1) = resize_target(220, 220, &Action::OverlayResizeUp);
    let (w2, h2) = resize_target(w1, h1, &Action::OverlayResizeUp);
    let (w3, h3) = resize_target(w2, h2, &Action::OverlayResizeUp);
    assert_eq!((w1, h1), (220, 200));
    assert_eq!((w2, h2), (220, 200));
    assert_eq!((w3, h3), (220, 200));
    assert!(h1 >= 200 && h2 >= 200 && h3 >= 200);
}

#[test]
fn resize_steps_are_exact_above_the_minimum() {
    assert_eq!(resize_target(700, 700, &Action::OverlayResizeUp), (700, 650));
    assert_eq!(resize_target(700, 700, &Action::OverlayResizeDown), (700, 750));
    assert_eq!(resize_target(700, 700, &Action::OverlayResizeLeft), (650, 700));
    assert_eq!(resize_target(700, 700, &Action::OverlayResizeRight), (750, 700));
}

#[test]
fn resize_down_also_respects_the_minimum() {
    // Growing a tiny overlay still lands at the 200-unit minimum.
    assert_eq!(resize_target(300, 40, &Action::OverlayResizeDown), (300, 200));
}

#[test]
fn toggle_flips_visibility() {
    assert!(!toggle_target(true));
    assert!(toggle_target(false));
}

#[test]
fn resolve_finds_first_matching_chord() {
    let cfg = UnifiedShortcutConfig {
        overlay_toggle: Some("Alt+B".to_string()),
        overlay_move_up: Some("Alt+ArrowUp".to_string()),
        overlay_move_down: None,
        overlay_move_left: None,
        overlay_move_right: None,
        overlay_resize_up: None,
        overlay_resize_down: None,
        overlay_resize_left: None,
        overlay_resize_right: None,
        agent_shortcuts: vec![("agentA".to_string(), "F1".to_string())],
    };
    let table = plan_registrations(&cfg);
    let pressed = parse("Alt+ArrowUp").unwrap();
    let idx = resolve_index(&table, &pressed).unwrap();
    assert_eq!(idx, 1);
    assert!(matches!(table[idx].action, Action::OverlayMoveUp));
    // An unregistered chord resolves to nothing and is ignored.
    let other = parse("Ctrl+Q").unwrap();
    assert_eq!(resolve_index(&table, &other), None);
}

#[test]
fn agent_hotkey_submits_a_toggle_command() {
    let mut bus = CommandBus::new();
    let mut sub = bus.subscribe();
    submit_agent_toggle(&mut bus, &"agentA".to_string());
    assert_eq!(bus.take_pending(&"agentA".to_string()), Some("toggle".to_string()));
    match bus.recv(&mut sub) {
        shortcut_core::bus::RecvOutcome::Message(m) => {
            assert_eq!(m.message_type, "command");
            assert_eq!(m.agent_id, "agentA");
            assert_eq!(m.action, "toggle");
        },
        _ => panic!("expected a live message"),
    }
}
