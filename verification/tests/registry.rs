use floating_windows::registry::WindowRegistry;

#[test]
fn new_registry_is_empty() {
    let registry = WindowRegistry::new();
    assert_eq!(registry.len(), 0);
    assert_eq!(registry.list(), Vec::<String>::new());
    assert!(!registry.contains("floating-1"));
}

#[test]
fn record_appends() {
    let mut registry = WindowRegistry::new();
    registry.record("b".to_string());
    registry.record("a".to_string());
    registry.record("b".to_string());
    assert_eq!(registry.len(), 3);
    assert_eq!(registry.list(), vec!["b".to_string(), "a".to_string(), "b".to_string()]);
    assert!(registry.contains("a"));
    assert!(registry.contains("b"));
    assert!(!registry.contains("c"));
    assert!(!registry.contains(""));
}

#[test]
fn forget_takes_out_every_match_and_nothing_else() {
    let mut registry = WindowRegistry::new();
    for id in ["b", "a", "b", "c", "b"] {
        registry.record(id.to_string());
    }
    registry.forget("b");
    assert_eq!(registry.list(), vec!["a".to_string(), "c".to_string()]);
    registry.forget("b");
    assert_eq!(registry.list(), vec!["a".to_string(), "c".to_string()]);
    registry.forget("c");
    registry.forget("a");
    assert_eq!(registry.len(), 0);
}

#[test]
fn forget_tells_an_id_from_its_prefix() {
    let mut registry = WindowRegistry::new();
    registry.record("floating-1".to_string());
    registry.record("floating-10".to_string());
    registry.forget("floating-1");
    assert_eq!(registry.list(), vec!["floating-10".to_string()]);
}

#[test]
fn list_is_a_copy() {
    let mut registry = WindowRegistry::new();
    registry.record("a".to_string());
    let mut copy = registry.list();
    copy.push("z".to_string());
    copy[0].push('!');
    assert_eq!(registry.list(), vec!["a".to_string()]);
}
