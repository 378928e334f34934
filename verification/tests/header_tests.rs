use http_core::HeaderMap;

#[test]
fn test_insert_appends_values() {
    let mut map = HeaderMap::new();
    map.insert("X".to_string(), "a".to_string());
    map.insert("X".to_string(), "b".to_string());
    let values = map.get_all("X").unwrap().to_vec();
    assert_eq!(values, vec!["a".to_string(), "b".to_string()]);
}

#[test]
fn test_absent_name_is_distinguishable() {
    let mut map = HeaderMap::new();
    map.insert("Present".to_string(), "one".to_string());
    assert!(map.get_all("Absent").is_none());
    let present = map.get_all("Present").unwrap();
    assert_eq!(present.len(), 1);
    assert_eq!(present.get(0).as_str(), "one");
}

#[test]
fn test_names_iterate_in_key_order() {
    let mut map = HeaderMap::new();
    map.insert("beta".to_string(), "2".to_string());
    map.insert("alpha".to_string(), "1".to_string());
    map.insert("gamma".to_string(), "3".to_string());
    assert_eq!(map.len(), 3);
    assert_eq!(map.name_at(0).as_str(), "alpha");
    assert_eq!(map.name_at(1).as_str(), "beta");
    assert_eq!(map.name_at(2).as_str(), "gamma");
    assert_eq!(map.values_at(1).to_vec(), vec!["2".to_string()]);
}

#[test]
fn test_remove_deletes_whole_entry() {
    let mut map = HeaderMap::new();
    map.insert("X".to_string(), "a".to_string());
    map.insert("X".to_string(), "b".to_string());
    map.insert("Y".to_string(), "c".to_string());
    let removed = map.remove("X").unwrap();
    assert_eq!(removed.to_vec(), vec!["a".to_string(), "b".to_string()]);
    assert!(map.get_all("X").is_none());
    assert_eq!(map.get_all("Y").unwrap().to_vec(), vec!["c".to_string()]);
    assert!(map.remove("X").is_none());
    assert_eq!(map.len(), 1);
}

#[test]
fn test_header_map_clone() {
    let mut map = HeaderMap::new();
    map.insert("K".to_string(), "v1".to_string());
    map.insert("K".to_string(), "v2".to_string());
    let copy = map.clone();
    assert_eq!(copy.len(), 1);
    assert_eq!(copy.get_all("K").unwrap().to_vec(), vec!["v1".to_string(), "v2".to_string()]);
    map.remove("K");
    assert_eq!(copy.get_all("K").unwrap().len(), 2);
}

#[test]
fn test_empty_map() {
    let map = HeaderMap::new();
    assert_eq!(map.len(), 0);
    assert!(map.get_all("anything").is_none());
}
