use addon_publish::dto::text_map::TextMap;

fn pair(key: &str, value: i64) -> (String, i64) {
    (key.to_string(), value)
}

#[test]
fn a_new_map_is_empty() {
    let map: TextMap<i64> = TextMap::new();
    assert_eq!(map.len(), 0);
    assert!(map.is_empty());
    assert!(!map.contains_key("a"));
    assert_eq!(map.get("a"), None);
    assert_eq!(TextMap::<i64>::default(), map);
}

#[test]
fn insert_appends_a_new_key() {
    let mut map: TextMap<i64> = TextMap::new();
    assert_eq!(map.insert("b".to_string(), 2), None);
    assert_eq!(map.insert("a".to_string(), 1), None);
    assert_eq!(map.entries(), &vec![pair("b", 2), pair("a", 1)]);
    assert_eq!(map.len(), 2);
    assert!(!map.is_empty());
    assert!(map.contains_key("a"));
    assert!(!map.contains_key("c"));
    assert_eq!(map.get("b"), Some(&2));
}

#[test]
fn insert_replaces_the_value_of_a_known_key() {
    let mut map = TextMap::from_entries(vec![pair("a", 1), pair("b", 2), pair("c", 3)]);
    assert_eq!(map.insert("b".to_string(), 20), Some(2));
    assert_eq!(map.entries(), &vec![pair("a", 1), pair("b", 20), pair("c", 3)]);
    assert_eq!(map.get("b"), Some(&20));
}

#[test]
fn from_entries_keeps_the_later_of_two_values() {
    let map = TextMap::from_entries(vec![pair("a", 1), pair("b", 2), pair("a", 3)]);
    assert_eq!(map.into_entries(), vec![pair("a", 3), pair("b", 2)]);
}

#[test]
fn with_values_keeps_the_keys() {
    let map = TextMap::from_entries(vec![pair("a", 1), pair("b", 2)]);
    let texts = map.with_values(vec!["x".to_string(), "y".to_string()]);
    assert_eq!(
        texts.into_entries(),
        vec![("a".to_string(), "x".to_string()), ("b".to_string(), "y".to_string())]
    );
}

#[test]
fn a_clone_holds_the_same_entries() {
    let map = TextMap::from_entries(vec![pair("a", 1), pair("b", 2)]);
    let copy = map.clone();
    assert_eq!(copy, map);
    assert_eq!(copy.into_entries(), vec![pair("a", 1), pair("b", 2)]);
}
