use db_populator::ordered_map::OrderedMap;
use db_populator::value::ObjectId;

#[test]
fn new_map_is_empty() {
    let map: OrderedMap<u32> = OrderedMap::new();
    assert_eq!(map.len(), 0);
    assert!(map.is_empty());
    assert_eq!(map.get("a"), None);
    assert!(!map.contains_key("a"));
    assert_eq!(map.position("a"), None);
}

#[test]
fn new_keys_go_to_the_end() {
    let mut map: OrderedMap<u32> = OrderedMap::new();
    map.insert("b".to_string(), 2);
    map.insert("a".to_string(), 1);
    map.insert("c".to_string(), 3);
    assert_eq!(map.len(), 3);
    assert!(!map.is_empty());
    assert_eq!(map.key_at(0), "b");
    assert_eq!(map.key_at(1), "a");
    assert_eq!(map.key_at(2), "c");
    assert_eq!(*map.value_at(0), 2);
    assert_eq!(*map.value_at(1), 1);
    assert_eq!(*map.value_at(2), 3);
    assert_eq!(map.position("a"), Some(1));
    assert_eq!(map.position("d"), None);
}

#[test]
fn known_key_keeps_its_place_and_gets_the_new_value() {
    let mut map: OrderedMap<u32> = OrderedMap::new();
    map.insert("b".to_string(), 2);
    map.insert("a".to_string(), 1);
    map.insert("b".to_string(), 20);
    assert_eq!(map.len(), 2);
    assert_eq!(map.key_at(0), "b");
    assert_eq!(map.get("b"), Some(&20));
    assert_eq!(map.get("a"), Some(&1));
    assert!(map.contains_key("a"));
    assert!(!map.contains_key("A"));
    assert_eq!(map.get(""), None);
}

#[test]
fn identifiers_are_told_apart_by_their_numbers() {
    let one = ObjectId::from_bytes([7; 12]);
    let same = ObjectId::from_bytes([7; 12]);
    let mut bytes = [7; 12];
    bytes[11] = 8;
    let other = ObjectId::from_bytes(bytes);
    assert_eq!(one.bytes, [7; 12]);
    assert_eq!(one.number(), same.number());
    assert_ne!(one.number(), other.number());
}

#[test]
fn identifier_is_read_as_one_number() {
    assert_eq!(ObjectId::from_bytes([0; 12]).number(), 0);
    let mut low = [0; 12];
    low[10] = 1;
    low[11] = 2;
    assert_eq!(ObjectId::from_bytes(low).number(), 258);
    let mut high = [0; 12];
    high[0] = 1;
    assert_eq!(
        ObjectId::from_bytes(high).number(),
        309485009821345068724781056
    );
    assert_eq!(
        ObjectId::from_bytes([255; 12]).number(),
        79228162514264337593543950335
    );
}
