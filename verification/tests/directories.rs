use airnomads::directory::Directory;

#[test]
fn a_directory_lists_each_name_once() {
    let mut d = Directory::new();
    assert!(d.is_empty());
    d.insert("b", 1);
    d.insert("a", 2);
    d.insert("c", 3);
    assert_eq!(d.len(), 3);
    let mut names = d.names();
    names.sort();
    assert_eq!(names, vec!["a", "b", "c"]);
    assert_eq!(d.get("a"), Some(&2));
    assert_eq!(d.get("x"), None);
    assert!(d.contains("c") && !d.contains(""));
    let mut entries: Vec<(String, i32)> =
        (0..3).map(|i| d.entry(i)).map(|(name, value)| (name.clone(), *value)).collect();
    entries.sort();
    assert_eq!(
        entries,
        vec![("a".to_string(), 2), ("b".to_string(), 1), ("c".to_string(), 3)]
    );
}

#[test]
fn a_name_stands_for_one_value() {
    let mut d = Directory::new();
    d.insert("a", 1);
    d.insert("b", 2);
    d.insert("a", 3);
    assert_eq!(d.len(), 2);
    assert_eq!(d.get("a"), Some(&3));
    assert_eq!(d.remove("a"), Some(3));
    assert_eq!(d.remove("a"), None);
    assert_eq!(d.names(), vec!["b"]);
    assert_eq!(d.remove("b"), Some(2));
    assert!(d.is_empty());
}
