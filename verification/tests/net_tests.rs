use shortcut_core::net::filter_reachable;
use shortcut_core::net::models_endpoint;
use shortcut_core::net::proxy_target;

#[test]
fn models_endpoint_appends_the_probe_path() {
    assert_eq!(
        models_endpoint(&"http://localhost:11434".to_string()),
        "http://localhost:11434/v1/models"
    );
}

#[test]
fn proxy_target_uses_configured_base() {
    assert_eq!(
        proxy_target(
            &Some("http://host:9".to_string()),
            &"/v1/models".to_string(),
            &"limit=5".to_string(),
        ),
        "http://host:9/v1/models?limit=5"
    );
}

#[test]
fn proxy_target_falls_back_to_local_default() {
    assert_eq!(
        proxy_target(&None, &"/api/tags".to_string(), &"".to_string()),
        "http://127.0.0.1:11434/api/tags?"
    );
}

#[test]
fn filter_reachable_keeps_successes_in_order() {
    let urls = vec![
        "http://a".to_string(),
        "http://b".to_string(),
        "http://c".to_string(),
    ];
    let ok = vec![true, false, true];
    assert_eq!(
        filter_reachable(&urls, &ok),
        vec!["http://a".to_string(), "http://c".to_string()]
    );
    assert!(filter_reachable(&urls, &vec![false, false, false]).is_empty());
}
