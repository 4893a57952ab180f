use noirtty::registry::SessionRegistry;

#[test]
fn registry_starts_empty() {
    let registry: SessionRegistry<u32> = SessionRegistry::new();
    assert_eq!(registry.len(), 0);
    assert!(!registry.contains("a"));
    assert_eq!(registry.get("a"), None);
}

#[test]
fn same_identifier_shares_one_session() {
    let mut registry: SessionRegistry<&'static str> = SessionRegistry::new();
    assert!(registry.insert_if_absent("tab-1".to_string(), "first shell"));
    assert!(!registry.insert_if_absent("tab-1".to_string(), "second shell"));
    assert_eq!(registry.get("tab-1"), Some(&"first shell"));
    assert_eq!(registry.len(), 1);
    assert!(registry.insert_if_absent("tab-2".to_string(), "other shell"));
    assert!(registry.insert_if_absent("".to_string(), "unnamed"));
    assert!(registry.insert_if_absent("TAB-1".to_string(), "case matters"));
    assert_eq!(registry.len(), 4);
    assert_eq!(registry.get("tab-2"), Some(&"other shell"));
    assert_eq!(registry.get(""), Some(&"unnamed"));
    assert_eq!(registry.get("tab-1"), Some(&"first shell"));
    assert_eq!(registry.get("tab-3"), None);
    assert!(registry.contains("TAB-1"));
}

#[test]
fn only_dead_sessions_are_dropped() {
    let mut registry: SessionRegistry<u8> = SessionRegistry::new();
    for (i, id) in ["a", "b", "c", "d"].into_iter().enumerate() {
        registry.insert_if_absent(id.to_string(), i as u8);
    }
    // The shell still runs, or a transport is still attached.
    assert!(!registry.drop_if_dead("b", false, 0));
    assert!(!registry.drop_if_dead("b", true, 1));
    assert!(!registry.drop_if_dead("b", false, 3));
    assert_eq!(registry.get("b"), Some(&1));
    // Not registered.
    assert!(!registry.drop_if_dead("x", true, 0));
    assert_eq!(registry.len(), 4);
    // Dead.
    assert!(registry.drop_if_dead("b", true, 0));
    assert_eq!(registry.get("b"), None);
    assert_eq!(registry.len(), 3);
    assert!(!registry.drop_if_dead("b", true, 0));
    // The others keep their handles.
    assert_eq!((registry.get("a"), registry.get("c"), registry.get("d")), (Some(&0), Some(&2), Some(&3)));
    assert!(registry.drop_if_dead("a", true, 0));
    assert!(registry.drop_if_dead("d", true, 0));
    assert_eq!(registry.get("c"), Some(&2));
    assert_eq!(registry.len(), 1);
    // A dropped identifier can be taken again, by a new session.
    assert!(registry.insert_if_absent("b".to_string(), 9));
    assert_eq!(registry.get("b"), Some(&9));
}

#[test]
fn clear_drops_every_session() {
    let mut registry: SessionRegistry<i64> = SessionRegistry::new();
    registry.insert_if_absent("a".to_string(), 1);
    registry.insert_if_absent("b".to_string(), 2);
    registry.clear();
    assert_eq!(registry.len(), 0);
    assert_eq!(registry.get("a"), None);
    assert!(registry.insert_if_absent("a".to_string(), 3));
    assert_eq!(registry.get("a"), Some(&3));
}
