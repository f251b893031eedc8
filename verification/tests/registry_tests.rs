use shortcut_core::grammar::parse;
use shortcut_core::registry::apply_registration_outcomes;
use shortcut_core::registry::plan_registrations;
use shortcut_core::registry::Action;
use shortcut_core::config::UnifiedShortcutConfig;

fn config_with_agents() -> UnifiedShortcutConfig {
    UnifiedShortcutConfig {
        overlay_toggle: Some("Alt+B".to_string()),
        overlay_move_up: Some("not a chord".to_string()),
        overlay_move_down: None,
        overlay_move_left: Some("Alt+ArrowLeft".to_string()),
        overlay_move_right: None,
        overlay_resize_up: None,
        overlay_resize_down: None,
        overlay_resize_left: None,
        overlay_resize_right: Some("Alt+Shift+ArrowRight".to_string()),
        agent_shortcuts: vec![
            ("agentA".to_string(), "F1".to_string()),
            ("agentB".to_string(), "".to_string()),
            ("agentC".to_string(), "Ctrl+F2".to_string()),
        ],
    }
}

#[test]
fn planning_keeps_fixed_order_and_skips_bad_bindings() {
    let planned = plan_registrations(&config_with_agents());
    // Overlay bindings first, in their fixed order; absent and unparsable
    // ones are skipped; then the agent bindings in configuration order,
    // skipping the empty one.
    let keys: Vec<&str> = planned.iter().map(|p| p.original_string.as_str()).collect();
    assert_eq!(keys, vec!["Alt+B", "Alt+ArrowLeft", "Alt+Shift+ArrowRight", "F1", "Ctrl+F2"]);
    assert!(matches!(planned[0].action, Action::OverlayToggle));
    assert!(matches!(planned[1].action, Action::OverlayMoveLeft));
    assert!(matches!(planned[2].action, Action::OverlayResizeRight));
    match &planned[3].action {
        Action::AgentToggle(id) => assert_eq!(id, "agentA"),
        other => panic!("unexpected action {:?}", std::mem::discriminant(other)),
    }
    match &planned[4].action {
        Action::AgentToggle(id) => assert_eq!(id, "agentC"),
        other => panic!("unexpected action {:?}", std::mem::discriminant(other)),
    }
    // The chords are the parses of the originals.
    assert_eq!(planned[0].chord, parse("Alt+B").unwrap());
    assert_eq!(planned[4].chord, parse("Ctrl+F2").unwrap());
}

#[test]
fn empty_config_plans_nothing() {
    let cfg = UnifiedShortcutConfig {
        overlay_toggle: None,
        overlay_move_up: None,
        overlay_move_down: None,
        overlay_move_left: None,
        overlay_move_right: None,
        overlay_resize_up: None,
        overlay_resize_down: None,
        overlay_resize_left: None,
        overlay_resize_right: None,
        agent_shortcuts: vec![],
    };
    assert!(plan_registrations(&cfg).is_empty());
}

#[test]
fn duplicate_chords_are_both_planned() {
    // The registry does not deduplicate: two bindings parsing to the same
    // chord both reach the OS, which is expected to reject the second.
    let cfg = UnifiedShortcutConfig {
        overlay_toggle: Some("Alt+B".to_string()),
        overlay_move_up: Some("Alt+B".to_string()),
        overlay_move_down: None,
        overlay_move_left: None,
        overlay_move_right: None,
        overlay_resize_up: None,
        overlay_resize_down: None,
        overlay_resize_left: None,
        overlay_resize_right: None,
        agent_shortcuts: vec![],
    };
    let planned = plan_registrations(&cfg);
    assert_eq!(planned.len(), 2);
    assert_eq!(planned[0].chord, planned[1].chord);
}

#[test]
fn outcomes_fold_into_active_set_and_report() {
    let planned = plan_registrations(&config_with_agents());
    // The third and fifth registrations fail (say, taken by another app).
    let outcomes = vec![true, true, false, true, false];
    let (active, report) = apply_registration_outcomes(&planned, &outcomes);
    assert_eq!(active.len(), 3);
    assert_eq!(active[0].original_string, "Alt+B");
    assert_eq!(active[1].original_string, "Alt+ArrowLeft");
    assert_eq!(active[2].original_string, "F1");
    assert_eq!(
        report,
        vec![
            "Alt+B -> overlay toggle".to_string(),
            "Alt+ArrowLeft -> overlay move left".to_string(),
            "F1 -> toggle agent agentA".to_string(),
        ]
    );
}

#[test]
fn all_registrations_failing_leaves_nothing_active() {
    let planned = plan_registrations(&config_with_agents());
    let outcomes = vec![false; planned.len()];
    let (active, report) = apply_registration_outcomes(&planned, &outcomes);
    assert!(active.is_empty());
    assert!(report.is_empty());
}
