use anymap::AnyMap;
use anymap::PrimCell;

#[test]
fn insert_then_get_round_trips() {
    let mut map: AnyMap<PrimCell> = AnyMap::new();
    assert_eq!(map.get::<i32>(), None);
    let _ = map.insert(42i32);
    assert_eq!(map.get::<i32>(), Some(&42i32));
    let _ = map.insert(String::from("kiwi"));
    assert_eq!(map.get::<String>(), Some(&String::from("kiwi")));
}

#[test]
fn overwrite_returns_prior() {
    let mut map: AnyMap<PrimCell> = AnyMap::new();
    assert_eq!(map.insert(1u32), None);
    assert_eq!(map.insert(2u32), Some(1u32));
    assert_eq!(map.get::<u32>(), Some(&2u32));
    assert_eq!(map.len(), 1);
}

#[test]
fn distinct_types_do_not_interfere() {
    let mut map: AnyMap<PrimCell> = AnyMap::new();
    let _ = map.insert(5u8);
    assert_eq!(map.get::<u16>(), None);
    let _ = map.insert(6u16);
    assert_eq!(map.get::<u8>(), Some(&5u8));
    let _ = map.insert(7u8);
    assert_eq!(map.get::<u16>(), Some(&6u16));
    assert_eq!(map.len(), 2);
}

#[test]
fn remove_empties_slot() {
    let mut map: AnyMap<PrimCell> = AnyMap::new();
    let _ = map.insert(9i16);
    assert_eq!(map.remove::<i16>(), Some(9i16));
    assert_eq!(map.get::<i16>(), None);
    assert_eq!(map.remove::<i16>(), None);
}

#[test]
fn counter_and_name_scenario() {
    // One numeric counter and one textual name, of distinct types.
    let counter: u64 = 0;
    let name = String::from("x");
    let mut map: AnyMap<PrimCell> = AnyMap::new();
    let _ = map.insert(counter);
    let _ = map.insert(name);
    assert_eq!(map.get::<u64>(), Some(&0u64));
    assert_eq!(map.remove::<u64>(), Some(0u64));
    assert_eq!(map.get::<u64>(), None);
    assert_eq!(map.get::<String>(), Some(&String::from("x")));
}

#[test]
fn get_mut_updates_in_place() {
    let mut map: AnyMap<PrimCell> = AnyMap::new();
    let _ = map.insert(String::from("foo"));
    map.get_mut::<String>().map(|s| s.push('t'));
    assert_eq!(map.get::<String>(), Some(&String::from("foot")));
    assert_eq!(map.get_mut::<u8>(), None);
}

#[test]
fn contains_tracks_presence() {
    let mut map: AnyMap<PrimCell> = AnyMap::new();
    assert!(!map.contains::<bool>());
    let _ = map.insert(true);
    assert!(map.contains::<bool>());
    let _ = map.remove::<bool>();
    assert!(!map.contains::<bool>());
}

#[test]
fn empty_map_behaviour() {
    let mut map: AnyMap<PrimCell> = AnyMap::new();
    assert!(map.is_empty());
    assert_eq!(map.len(), 0);
    assert_eq!(map.get::<u8>(), None);
    assert_eq!(map.remove::<u8>(), None);
    let with_room: AnyMap<PrimCell> = AnyMap::with_capacity(16);
    assert!(with_room.is_empty());
}

#[test]
fn clear_removes_everything() {
    let mut map: AnyMap<PrimCell> = AnyMap::new();
    let _ = map.insert(1u8);
    let _ = map.insert(2u16);
    let _ = map.insert(3u32);
    assert_eq!(map.len(), 3);
    map.clear();
    assert!(map.is_empty());
    assert_eq!(map.get::<u8>(), None);
    assert_eq!(map.get::<u16>(), None);
}
