use anymap::AnyMap;
use anymap::Entry;
use anymap::PrimCell;

#[test]
fn test_entry() {
    let mut map: AnyMap<PrimCell> = AnyMap::new();
    assert_eq!(map.insert(10u8), None);
    assert_eq!(map.insert(20u16), None);
    assert_eq!(map.insert(30u32), None);
    assert_eq!(map.insert(40u64), None);
    assert_eq!(map.insert(50i8), None);
    assert_eq!(map.insert(60i16), None);

    // Existing key (insert)
    match map.entry::<u8>() {
        Entry::Vacant(_) => unreachable!(),
        Entry::Occupied(mut view) => {
            assert_eq!(view.get(), &10u8);
            assert_eq!(view.insert(100u8), 10u8);
        }
    }
    assert_eq!(map.get::<u8>().unwrap(), &100u8);
    assert_eq!(map.len(), 6);

    // Existing key (update)
    match map.entry::<u16>() {
        Entry::Vacant(_) => unreachable!(),
        Entry::Occupied(mut view) => {
            let v = view.get_mut();
            let new_v = *v * 10;
            *v = new_v;
        }
    }

    {
        let b: &u16 = map.get().unwrap();
        assert_eq!(b, &200u16);
    }

    assert_eq!(map.len(), 6);

    // Existing key (remove)
    match map.entry::<u32>() {
        Entry::Vacant(_) => unreachable!(),
        Entry::Occupied(view) => {
            assert_eq!(view.remove(), 30u32);
        }
    }
    assert_eq!(map.get::<u32>(), None);
    assert_eq!(map.len(), 5);

    // Inexistent key (insert)
    match map.entry::<i32>() {
        Entry::Occupied(_) => unreachable!(),
        Entry::Vacant(view) => {
            assert_eq!(*view.insert(1000i32), 1000i32);
        }
    }
    assert_eq!(map.get::<i32>().unwrap(), &1000i32);
    assert_eq!(map.len(), 6);

    // Entry.or_insert on existing key
    *map.entry::<u16>().or_insert(71u16) += 1;
    assert_eq!(map.get::<u16>().unwrap(), &201u16);
    assert_eq!(map.len(), 6);

    // Entry.or_insert on nonexisting key
    *map.entry::<u32>().or_insert(300u32) += 1;
    assert_eq!(map.get::<u32>().unwrap(), &301u32);
    assert_eq!(map.len(), 7);
}

#[test]
fn test_clone() {
    let mut map: AnyMap<PrimCell> = AnyMap::new();
    let _ = map.insert(1u8);
    let _ = map.insert(2u16);
    let _ = map.insert(3u64);
    let _ = map.insert(4i8);
    let _ = map.insert(5i16);
    let _ = map.insert(6i32);
    let map2 = map.clone();
    assert_eq!(map2.len(), 6);
    assert_eq!(map2.get::<u8>(), Some(&1u8));
    assert_eq!(map2.get::<u16>(), Some(&2u16));
    assert_eq!(map2.get::<u32>(), None);
    assert_eq!(map2.get::<u64>(), Some(&3u64));
    assert_eq!(map2.get::<i8>(), Some(&4i8));
    assert_eq!(map2.get::<i16>(), Some(&5i16));
    assert_eq!(map2.get::<i32>(), Some(&6i32));
}

#[test]
fn entry_or_insert_twice_keeps_first() {
    let mut map: AnyMap<PrimCell> = AnyMap::new();
    let first = *map.entry::<u64>().or_insert(11u64);
    assert_eq!(first, 11u64);
    let second = *map.entry::<u64>().or_insert(22u64);
    assert_eq!(second, 11u64);
    assert_eq!(map.get::<u64>(), Some(&11u64));
    assert_eq!(map.len(), 1);
}

#[test]
fn entry_or_insert_with_runs_only_when_vacant() {
    let mut map: AnyMap<PrimCell> = AnyMap::new();
    let v = *map.entry::<i64>().or_insert_with(|| 7i64);
    assert_eq!(v, 7i64);
    let w = *map.entry::<i64>().or_insert_with(|| 8i64);
    assert_eq!(w, 7i64);
    assert_eq!(map.get::<i64>(), Some(&7i64));
}

#[test]
fn entry_occupied_into_mut_updates() {
    let mut map: AnyMap<PrimCell> = AnyMap::new();
    let _ = map.insert(true);
    match map.entry::<bool>() {
        Entry::Vacant(_) => unreachable!(),
        Entry::Occupied(view) => {
            let v = view.into_mut();
            *v = false;
        }
    }
    assert_eq!(map.get::<bool>(), Some(&false));
}
