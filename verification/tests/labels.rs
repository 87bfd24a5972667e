use pod_labeler::labels::LabelMap;

#[test]
fn empty_map_has_no_bindings() {
    let m = LabelMap::new();
    assert!(m.get("learning").is_none());
    assert!(!m.contains_pair("learning", "rust"));
    assert_eq!(m.entries().len(), 0);
}

#[test]
fn insert_binds_key_to_value() {
    let mut m = LabelMap::new();
    m.insert("learning".to_owned(), "rust".to_owned());
    assert_eq!(m.get("learning").map(|v| v.as_str()), Some("rust"));
    assert!(m.contains_pair("learning", "rust"));
    assert!(!m.contains_pair("learning", "go"));
    assert!(m.get("tier").is_none());
}

#[test]
fn insert_replaces_existing_binding() {
    let mut m = LabelMap::new();
    m.insert("learning".to_owned(), "go".to_owned());
    m.insert("learning".to_owned(), "rust".to_owned());
    assert_eq!(m.get("learning").map(|v| v.as_str()), Some("rust"));
    assert!(m.contains_pair("learning", "rust"));
    assert!(!m.contains_pair("learning", "go"));
}

#[test]
fn insert_leaves_other_keys_unchanged() {
    let mut m = LabelMap::new();
    m.insert("tier".to_owned(), "x".to_owned());
    m.insert("learning".to_owned(), "rust".to_owned());
    assert_eq!(m.get("tier").map(|v| v.as_str()), Some("x"));
    assert_eq!(m.get("learning").map(|v| v.as_str()), Some("rust"));
}
