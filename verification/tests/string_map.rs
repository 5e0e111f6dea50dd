use gpt_shell::string_map::StringMap;

#[test]
fn a_new_map_is_empty() {
    let map: StringMap<u32> = StringMap::new();
    assert_eq!(map.len(), 0);
    assert!(map.is_empty());
    assert_eq!(map.get("a"), None);
    assert!(!map.contains_key("a"));
}

#[test]
fn insert_adds_and_replaces() {
    let mut map = StringMap::new();
    assert_eq!(map.insert("a".to_string(), 1), None);
    assert_eq!(map.insert("b".to_string(), 2), None);
    assert_eq!(map.insert("a".to_string(), 3), Some(1));
    assert_eq!(map.len(), 2);
    assert!(!map.is_empty());
    assert_eq!(map.get("a"), Some(&3));
    assert_eq!(map.get("b"), Some(&2));
    assert_eq!(map.get("c"), None);
    assert!(map.contains_key("b"));
}

#[test]
fn keys_keep_the_order_of_first_insertion() {
    let mut map = StringMap::new();
    map.insert("z".to_string(), 1);
    map.insert("a".to_string(), 2);
    map.insert("m".to_string(), 3);
    map.insert("a".to_string(), 4);
    assert_eq!(map.key_at(0), "z");
    assert_eq!(map.key_at(1), "a");
    assert_eq!(map.key_at(2), "m");
    assert_eq!(map.value_at(0), &1);
    assert_eq!(map.value_at(1), &4);
    assert_eq!(map.value_at(2), &3);
}

#[test]
fn remove_takes_the_key_out_and_keeps_the_order_of_the_rest() {
    let mut map = StringMap::new();
    map.insert("a".to_string(), 1);
    map.insert("b".to_string(), 2);
    map.insert("c".to_string(), 3);
    assert_eq!(map.remove("b"), Some(2));
    assert_eq!(map.remove("b"), None);
    assert_eq!(map.remove("x"), None);
    assert_eq!(map.len(), 2);
    assert_eq!(map.key_at(0), "a");
    assert_eq!(map.key_at(1), "c");
    assert_eq!(map.get("b"), None);
    assert_eq!(map.insert("b".to_string(), 9), None);
    assert_eq!(map.key_at(2), "b");
}

#[test]
fn keys_are_compared_by_their_characters() {
    let mut map = StringMap::new();
    map.insert("机器人".to_string(), 1);
    map.insert("".to_string(), 2);
    assert_eq!(map.get("机器人"), Some(&1));
    assert_eq!(map.get(""), Some(&2));
    assert_eq!(map.get("机器"), None);
}

#[test]
fn a_copy_of_a_map_of_strings_is_equal_to_it() {
    let mut map = StringMap::new();
    map.insert("k1".to_string(), "v1".to_string());
    map.insert("k2".to_string(), "v2".to_string());
    let copy = map.duplicate();
    assert_eq!(copy, map);
    assert_eq!(copy.key_at(0), "k1");
    assert_eq!(copy.get("k2"), Some(&"v2".to_string()));
}
