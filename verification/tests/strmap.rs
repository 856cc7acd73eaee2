use rieproxy::strmap::StrMap;

#[test]
fn new_mapping_is_empty() {
    let m = StrMap::new();
    assert_eq!(m.len(), 0);
    assert_eq!(m.get(&"k".to_string()), None);
}

#[test]
fn insert_binds_and_overwrites() {
    let mut m = StrMap::new();
    m.insert("k".to_string(), "1".to_string());
    assert_eq!(m.get(&"k".to_string()), Some(&"1".to_string()));
    m.insert("k".to_string(), "2".to_string());
    assert_eq!(m.get(&"k".to_string()), Some(&"2".to_string()));
    assert_eq!(m.len(), 1);
}

#[test]
fn from_pairs_is_last_wins() {
    let m = StrMap::from_pairs(vec![
        ("a".to_string(), "1".to_string()),
        ("b".to_string(), "2".to_string()),
        ("a".to_string(), "3".to_string()),
    ]);
    assert_eq!(m.get(&"a".to_string()), Some(&"3".to_string()));
    assert_eq!(m.get(&"b".to_string()), Some(&"2".to_string()));
    assert_eq!(m.len(), 2);
}

#[test]
fn pairs_carry_distinct_keys() {
    let m = StrMap::from_pairs(vec![
        ("a".to_string(), "1".to_string()),
        ("a".to_string(), "2".to_string()),
    ]);
    let pairs = m.pairs();
    assert_eq!(pairs.len(), 1);
    assert_eq!(pairs[0], ("a".to_string(), "2".to_string()));
}
