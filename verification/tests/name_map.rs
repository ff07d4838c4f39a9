use glfwproject::graphics::name_map::NameMap;

#[test]
fn a_new_map_holds_nothing() {
    let map: NameMap<u32> = NameMap::new();
    assert_eq!(map.len(), 0);
    assert!(!map.contains("a"));
    assert_eq!(map.get("a"), None);
}

#[test]
fn insert_replaces_and_hands_back_the_old_value() {
    let mut map = NameMap::new();
    assert_eq!(map.insert("a", 1u32), None);
    assert_eq!(map.insert("b", 2u32), None);
    assert_eq!(map.insert("a", 3u32), Some(1));
    assert_eq!(map.len(), 2);
    assert_eq!(map.get("a"), Some(&3));
    assert_eq!(map.get("b"), Some(&2));
}

#[test]
fn get_mut_writes_through() {
    let mut map = NameMap::new();
    map.insert("a", 1u32);
    map.insert("b", 2u32);
    *map.get_mut("b").unwrap() += 40;
    assert_eq!(map.get("a"), Some(&1));
    assert_eq!(map.get("b"), Some(&42));
    assert!(map.get_mut("c").is_none());
}

#[test]
fn remove_takes_one_name_out() {
    let mut map = NameMap::new();
    map.insert("a", 1u32);
    map.insert("b", 2u32);
    map.insert("c", 3u32);
    assert_eq!(map.remove("b"), Some(2));
    assert_eq!(map.remove("b"), None);
    assert_eq!(map.len(), 2);
    assert!(map.contains("a"));
    assert!(!map.contains("b"));
    assert!(map.contains("c"));
}

#[test]
fn the_places_of_the_list_hold_every_value_once() {
    let mut map = NameMap::new();
    map.insert("a", 1u32);
    map.insert("b", 2u32);
    map.insert("a", 3u32);
    map.insert("c", 4u32);
    map.remove("b");
    let mut values: Vec<u32> = (0..map.len()).map(|i| *map.value(i)).collect();
    values.sort();
    assert_eq!(values, vec![3, 4]);
}

#[test]
fn clear_leaves_nothing() {
    let mut map = NameMap::new();
    map.insert("a", 1u32);
    map.clear();
    assert_eq!(map.len(), 0);
    assert!(!map.contains("a"));
    assert_eq!(map.insert("a", 2u32), None);
}

#[test]
fn names_differ_by_case_and_by_length() {
    let mut map = NameMap::new();
    map.insert("a", 1u32);
    map.insert("A", 2u32);
    map.insert("aa", 3u32);
    map.insert("", 4u32);
    assert_eq!(map.len(), 4);
    assert_eq!(map.get("a"), Some(&1));
    assert_eq!(map.get("A"), Some(&2));
    assert_eq!(map.get("aa"), Some(&3));
    assert_eq!(map.get(""), Some(&4));
}
