use std::collections::HashMap as StdHashMap;

use zkaf::types::{convert_hashmap_from_std_to_brown, CustomHashMap};

#[test]
fn test_custom_serialization_deserialization() {
    let mut new_map: CustomHashMap<String, String> = CustomHashMap::new();

    new_map.insert("one".to_string(), "1".to_string());
    new_map.insert("two".to_string(), "2".to_string());
    new_map.insert("three".to_string(), "3".to_string());

    // print it
    println!("{:?}", new_map.entries());

    // serialize it: the map goes out as a sequence of key-value pairs
    let serialized_map = serde_json::to_string(&new_map.entries()).expect("Serialization failed");
    println!("{:}", serialized_map);

    // deserialize it
    let pairs: Vec<(String, String)> =
        serde_json::from_str(&serialized_map).expect("Deserialization failed");
    let deserialized_map: CustomHashMap<String, String> = CustomHashMap::from_pairs(pairs);

    assert_eq!(
        new_map.get(&"one".to_string()),
        deserialized_map.get(&"one".to_string())
    );
    assert_eq!(
        new_map.get(&"two".to_string()),
        deserialized_map.get(&"two".to_string())
    );
    assert_eq!(
        new_map.get(&"three".to_string()),
        deserialized_map.get(&"three".to_string())
    );
}

#[test]
fn insert_returns_previous_value() {
    let mut map: CustomHashMap<u32, u64> = CustomHashMap::new();
    assert_eq!(map.insert(37, 1), None);
    assert_eq!(map.insert(37, 2), Some(1));
    assert_eq!(map.insert(37, 3), Some(2));
    assert_eq!(map.get(&37), Some(&3));
}

#[test]
fn get_after_insert_leaves_other_keys() {
    let mut map: CustomHashMap<u32, u64> = CustomHashMap::new();
    assert_eq!(map.get(&1), None);
    map.insert(1, 10);
    map.insert(2, 20);
    assert_eq!(map.get(&1), Some(&10));
    assert_eq!(map.get(&2), Some(&20));
    assert_eq!(map.get(&3), None);
}

#[test]
fn new_map_is_empty() {
    let map: CustomHashMap<u32, u64> = CustomHashMap::new();
    assert!(map.entries().is_empty());
    assert_eq!(map.get(&0), None);
}

#[test]
fn entries_list_each_entry_once() {
    let mut map: CustomHashMap<u32, u64> = CustomHashMap::new();
    map.insert(3, 30);
    map.insert(1, 10);
    map.insert(2, 20);
    map.insert(1, 11);
    let mut listed: Vec<(u32, u64)> = map.entries().into_iter().map(|(k, v)| (*k, *v)).collect();
    listed.sort();
    assert_eq!(listed, vec![(1, 11), (2, 20), (3, 30)]);
}

#[test]
fn from_pairs_keeps_last_value_of_repeated_key() {
    let map = CustomHashMap::from_pairs(vec![(1u32, 10u64), (2, 20), (1, 30)]);
    assert_eq!(map.get(&1), Some(&30));
    assert_eq!(map.get(&2), Some(&20));
    assert_eq!(map.entries().len(), 2);
}

#[test]
fn from_pairs_of_nothing_is_empty() {
    let map: CustomHashMap<u32, u64> = CustomHashMap::from_pairs(Vec::new());
    assert!(map.entries().is_empty());
}

#[test]
fn entries_read_back_give_the_same_map() {
    let mut map: CustomHashMap<u32, String> = CustomHashMap::new();
    for i in 0..50u32 {
        map.insert(i, format!("value {}", i * 7));
    }
    let written: Vec<(u32, String)> = map.entries().into_iter().map(|(k, v)| (*k, v.clone())).collect();
    let read_back = CustomHashMap::from_pairs(written);
    for i in 0..60u32 {
        assert_eq!(map.get(&i), read_back.get(&i));
    }
    assert_eq!(read_back.entries().len(), 50);
}

#[test]
fn convert_moves_every_entry() {
    let mut public_map: StdHashMap<u32, (String, u8)> = StdHashMap::new();
    public_map.insert(7, ("seven".to_string(), 7));
    public_map.insert(9, ("nine".to_string(), 9));
    let openings = convert_hashmap_from_std_to_brown(public_map);
    assert_eq!(openings.get(&7), Some(&("seven".to_string(), 7)));
    assert_eq!(openings.get(&9), Some(&("nine".to_string(), 9)));
    assert_eq!(openings.get(&8), None);
    assert_eq!(openings.entries().len(), 2);
}

#[test]
fn convert_of_empty_map_is_empty() {
    let public_map: StdHashMap<u32, u8> = StdHashMap::new();
    let openings = convert_hashmap_from_std_to_brown(public_map);
    assert!(openings.entries().is_empty());
}

#[test]
fn len_counts_fresh_keys_only() {
    let mut map: CustomHashMap<u32, u64> = CustomHashMap::new();
    assert_eq!(map.len(), 0);
    assert_eq!(map.insert(1, 10), None);
    assert_eq!(map.len(), 1);
    assert_eq!(map.insert(2, 20), None);
    assert_eq!(map.len(), 2);
    assert_eq!(map.insert(1, 11), Some(10));
    assert_eq!(map.len(), 2);
}

#[test]
fn inserting_the_same_pair_twice_is_inserting_it_once() {
    let mut map: CustomHashMap<u32, u64> = CustomHashMap::new();
    map.insert(5, 50);
    assert_eq!(map.insert(5, 50), Some(50));
    assert_eq!(map.len(), 1);
    assert_eq!(map.get(&5), Some(&50));
}

#[test]
fn clone_keeps_every_entry() {
    let mut map: CustomHashMap<String, String> = CustomHashMap::new();
    map.insert("one".to_string(), "1".to_string());
    map.insert("two".to_string(), "2".to_string());
    let copy = map.clone();
    map.insert("three".to_string(), "3".to_string());
    assert_eq!(copy.len(), 2);
    assert_eq!(copy.get(&"one".to_string()), Some(&"1".to_string()));
    assert_eq!(copy.get(&"two".to_string()), Some(&"2".to_string()));
    assert_eq!(copy.get(&"three".to_string()), None);
    assert_eq!(map.len(), 3);
}

#[test]
fn convert_commutes_with_insert() {
    let mut p: StdHashMap<u32, u8> = StdHashMap::new();
    p.insert(1, 1);
    p.insert(2, 2);
    let mut q = convert_hashmap_from_std_to_brown(p.clone());
    q.insert(3, 3);
    let mut p2 = p;
    p2.insert(3, 3);
    let q2 = convert_hashmap_from_std_to_brown(p2);
    assert_eq!(q.len(), q2.len());
    for k in 0..5u32 {
        assert_eq!(q.get(&k), q2.get(&k));
    }
}
