use shortcut_core::config::set_shortcut_config;
use shortcut_core::config::update_connection_api_key;
use shortcut_core::config::update_connection_url;
use shortcut_core::config::AppConfig;
use shortcut_core::config::ConfigStore;
use shortcut_core::config::Platform;
use shortcut_core::config::StoredDoc;
use shortcut_core::config::UnifiedShortcutConfig;
use shortcut_core::config::UnifiedShortcutState;

fn legacy_shortcuts() -> UnifiedShortcutConfig {
    UnifiedShortcutConfig {
        overlay_toggle: Some("Alt+B".to_string()),
        overlay_move_up: None,
        overlay_move_down: None,
        overlay_move_left: None,
        overlay_move_right: None,
        overlay_resize_up: Some("Alt+Shift+ArrowUp".to_string()),
        overlay_resize_down: None,
        overlay_resize_left: None,
        overlay_resize_right: None,
        agent_shortcuts: vec![("agentA".to_string(), "F1".to_string())],
    }
}

#[test]
fn load_migrates_legacy_document() {
    let mut store = ConfigStore::new(Platform::Other, StoredDoc::Legacy(legacy_shortcuts()));
    let cfg = store.load();
    assert_eq!(cfg.ollama_url, None);
    assert_eq!(cfg.ollama_api_key, None);
    assert_eq!(cfg.shortcuts.overlay_toggle, Some("Alt+B".to_string()));
    assert_eq!(cfg.shortcuts.overlay_resize_up, Some("Alt+Shift+ArrowUp".to_string()));
    assert_eq!(
        cfg.shortcuts.agent_shortcuts,
        vec![("agentA".to_string(), "F1".to_string())]
    );
    // The migrated document was eagerly persisted in the current schema:
    // a second load sees it, not the legacy document.
    assert!(matches!(store.doc, StoredDoc::Current(_)));
    let again = store.load();
    assert_eq!(again.ollama_url, None);
    assert_eq!(again.shortcuts.overlay_toggle, Some("Alt+B".to_string()));
    assert_eq!(
        again.shortcuts.agent_shortcuts,
        vec![("agentA".to_string(), "F1".to_string())]
    );
}

#[test]
fn load_missing_document_yields_defaults() {
    let mut store = ConfigStore::new(Platform::Windows, StoredDoc::Missing);
    let cfg = store.load();
    assert_eq!(cfg.shortcuts.overlay_toggle, Some("Alt+B".to_string()));
    assert_eq!(cfg.shortcuts.overlay_move_up, Some("Alt+ArrowUp".to_string()));
    assert_eq!(cfg.shortcuts.overlay_resize_right, Some("Alt+Shift+ArrowRight".to_string()));
    assert!(cfg.shortcuts.agent_shortcuts.is_empty());
    assert_eq!(cfg.ollama_url, Some("http://localhost:11434".to_string()));
    assert_eq!(cfg.ollama_api_key, None);
    // Nothing was persisted: defaults are not a migration.
    assert!(matches!(store.doc, StoredDoc::Missing));
}

#[test]
fn load_corrupt_document_yields_defaults() {
    let mut store = ConfigStore::new(Platform::Other, StoredDoc::Corrupt);
    let cfg = store.load();
    assert_eq!(cfg.shortcuts.overlay_toggle, Some("Cmd+B".to_string()));
    assert_eq!(cfg.shortcuts.overlay_resize_up, Some("Cmd+Shift+ArrowUp".to_string()));
    assert_eq!(cfg.ollama_url, Some("http://localhost:11434".to_string()));
    assert!(matches!(store.doc, StoredDoc::Corrupt));
}

#[test]
fn save_then_load_round_trips() {
    let mut store = ConfigStore::new(Platform::Other, StoredDoc::Missing);
    let mut cfg = store.load();
    cfg.shortcuts.agent_shortcuts =
        vec![("a1".to_string(), "F2".to_string()), ("a2".to_string(), "F3".to_string())];
    cfg.ollama_url = Some("http://example.invalid:9999".to_string());
    store.save(&cfg);
    let back = store.load();
    assert_eq!(back.shortcuts.agent_shortcuts, cfg.shortcuts.agent_shortcuts);
    assert_eq!(back.ollama_url, cfg.ollama_url);
    assert_eq!(back.shortcuts.overlay_toggle, cfg.shortcuts.overlay_toggle);
}

#[test]
fn set_shortcut_config_preserves_connection_fields() {
    let mut store = ConfigStore::new(Platform::Other, StoredDoc::Missing);
    let cfg = store.load();
    let mut state = UnifiedShortcutState::new(cfg);
    let restart = set_shortcut_config(&mut store, &mut state, legacy_shortcuts());
    assert!(restart);
    assert_eq!(state.config.shortcuts.overlay_toggle, Some("Alt+B".to_string()));
    assert_eq!(state.config.ollama_url, Some("http://localhost:11434".to_string()));
    assert_eq!(state.config.ollama_api_key, None);
    // Persisted whole, in the current schema.
    let back = store.load();
    assert_eq!(back.shortcuts.overlay_toggle, Some("Alt+B".to_string()));
    assert_eq!(back.ollama_url, Some("http://localhost:11434".to_string()));
}

#[test]
fn update_connection_url_preserves_other_fields() {
    let mut store = ConfigStore::new(Platform::Other, StoredDoc::Legacy(legacy_shortcuts()));
    let cfg = store.load();
    let mut state = UnifiedShortcutState::new(cfg);
    update_connection_url(&mut store, &mut state, Some("http://host:1".to_string()));
    assert_eq!(state.config.ollama_url, Some("http://host:1".to_string()));
    assert_eq!(state.config.shortcuts.overlay_toggle, Some("Alt+B".to_string()));
    assert_eq!(
        state.config.shortcuts.agent_shortcuts,
        vec![("agentA".to_string(), "F1".to_string())]
    );
    update_connection_api_key(&mut store, &mut state, Some("test-key".to_string()));
    assert_eq!(state.get_connection_api_key(), &Some("test-key".to_string()));
    assert_eq!(state.get_connection_url(), &Some("http://host:1".to_string()));
    assert_eq!(state.config.ollama_url, Some("http://host:1".to_string()));
    // Clearing the URL keeps the key.
    update_connection_url(&mut store, &mut state, None);
    assert_eq!(state.config.ollama_url, None);
    assert_eq!(state.config.ollama_api_key, Some("test-key".to_string()));
}

#[test]
fn default_for_other_platform_uses_cmd() {
    let cfg = AppConfig::default_for(Platform::Other);
    assert_eq!(cfg.shortcuts.overlay_toggle, Some("Cmd+B".to_string()));
    assert_eq!(cfg.shortcuts.overlay_move_down, Some("Cmd+ArrowDown".to_string()));
    assert_eq!(cfg.shortcuts.overlay_move_left, Some("Cmd+ArrowLeft".to_string()));
    assert_eq!(cfg.shortcuts.overlay_resize_left, Some("Cmd+Shift+ArrowLeft".to_string()));
}

#[test]
fn fresh_state_has_empty_report() {
    let state = UnifiedShortcutState::new(AppConfig::default_for(Platform::Other));
    assert!(state.get_registered_shortcuts().is_empty());
    assert_eq!(
        state.get_shortcut_config().overlay_toggle,
        Some("Cmd+B".to_string())
    );
}
