use tensorflow_serving::FieldMap;

#[test]
fn new_map_is_empty() {
    let map: FieldMap<i64> = FieldMap::new();
    assert!(map.is_empty());
    assert_eq!(map.len(), 0);
    assert_eq!(map.get("a"), None);
    assert!(!map.contains_key("a"));
}

#[test]
fn insert_then_get() {
    let mut map = FieldMap::new();
    assert_eq!(map.insert("a", 1), None);
    assert_eq!(map.insert("b", 2), None);
    assert_eq!(map.len(), 2);
    assert!(!map.is_empty());
    assert_eq!(map.get("a"), Some(&1));
    assert_eq!(map.get("b"), Some(&2));
    assert_eq!(map.get("c"), None);
    assert!(map.contains_key("a"));
    assert!(!map.contains_key("c"));
}

#[test]
fn insert_replaces_and_hands_back_the_earlier_value() {
    let mut map = FieldMap::new();
    map.insert("a", 1);
    map.insert("b", 2);
    assert_eq!(map.insert("a", 3), Some(1));
    assert_eq!(map.len(), 2);
    assert_eq!(map.get("a"), Some(&3));
    assert_eq!(map.get("b"), Some(&2));
}

#[test]
fn names_are_told_apart_by_every_character() {
    let mut map = FieldMap::new();
    map.insert("", 0);
    map.insert("a", 1);
    map.insert("A", 2);
    map.insert("a ", 3);
    assert_eq!(map.len(), 4);
    assert_eq!(map.get(""), Some(&0));
    assert_eq!(map.get("a"), Some(&1));
    assert_eq!(map.get("A"), Some(&2));
    assert_eq!(map.get("a "), Some(&3));
}

#[test]
fn remove_takes_the_field_out() {
    let mut map = FieldMap::new();
    map.insert("a", 1);
    map.insert("b", 2);
    map.insert("c", 3);
    assert_eq!(map.remove("b"), Some(2));
    assert_eq!(map.remove("b"), None);
    assert_eq!(map.len(), 2);
    assert_eq!(map.get("a"), Some(&1));
    assert_eq!(map.get("b"), None);
    assert_eq!(map.get("c"), Some(&3));
}

#[test]
fn remove_of_an_absent_field_changes_nothing() {
    let mut map = FieldMap::new();
    map.insert("a", 1);
    assert_eq!(map.remove("z"), None);
    assert_eq!(map.len(), 1);
    assert_eq!(map.get("a"), Some(&1));
}

#[test]
fn map_values_keeps_names_and_converts_values() {
    let mut map = FieldMap::new();
    map.insert("a", 1u8);
    map.insert("b", 2u8);
    let mapped = map.map_values(|v| format!("<{}>", v));
    assert_eq!(mapped.len(), 2);
    assert_eq!(mapped.get("a"), Some(&String::from("<1>")));
    assert_eq!(mapped.get("b"), Some(&String::from("<2>")));
}

#[test]
fn into_entries_lists_each_field_once() {
    let mut map = FieldMap::new();
    map.insert("a", 1);
    map.insert("b", 2);
    map.insert("a", 3);
    let mut entries = map.into_entries();
    entries.sort();
    assert_eq!(entries, vec![(String::from("a"), 3), (String::from("b"), 2)]);
}
