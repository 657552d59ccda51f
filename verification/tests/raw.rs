use anymap::PrimCell;
use anymap::any::Any;
use anymap::raw::Entry;
use anymap::raw::RawMap;

#[test]
fn raw_insert_get_remove() {
    let mut map: RawMap<PrimCell> = RawMap::new();
    let cell = PrimCell::U8(3);
    let key = cell.key();
    assert_eq!(map.insert(key, cell), None);
    assert!(map.contains_key(key));
    assert_eq!(map.get(key), Some(&PrimCell::U8(3)));
    assert_eq!(map.insert(key, PrimCell::U8(4)), Some(PrimCell::U8(3)));
    assert_eq!(map.remove(key), Some(PrimCell::U8(4)));
    assert_eq!(map.get(key), None);
    assert!(!map.contains_key(key));
}

#[test]
fn raw_get_mut_updates_cell() {
    let mut map: RawMap<PrimCell> = RawMap::new();
    let cell = PrimCell::Text(String::from("hi"));
    let key = cell.key();
    let _ = map.insert(key, cell);
    match map.get_mut(key) {
        Some(PrimCell::Text(s)) => s.push('!'),
        _ => unreachable!(),
    }
    assert_eq!(map.get(key), Some(&PrimCell::Text(String::from("hi!"))));
    assert_eq!(map.get_mut(99), None);
}

#[test]
fn raw_entry_occupied_and_vacant() {
    let mut map: RawMap<PrimCell> = RawMap::new();
    let cell = PrimCell::I32(7);
    let key = cell.key();
    match map.entry(key) {
        Entry::Occupied(_) => unreachable!(),
        Entry::Vacant(view) => {
            assert_eq!(*view.insert(PrimCell::I32(7)), PrimCell::I32(7));
        }
    }
    match map.entry(key) {
        Entry::Vacant(_) => unreachable!(),
        Entry::Occupied(mut view) => {
            assert_eq!(view.get(), &PrimCell::I32(7));
            assert_eq!(view.insert(PrimCell::I32(8)), PrimCell::I32(7));
            let c = view.get_mut();
            *c = PrimCell::I32(9);
        }
    }
    match map.entry(key) {
        Entry::Vacant(_) => unreachable!(),
        Entry::Occupied(view) => {
            assert_eq!(view.remove(), PrimCell::I32(9));
        }
    }
    assert!(!map.contains_key(key));
}

#[test]
fn raw_or_insert_keeps_existing_cell() {
    let mut map: RawMap<PrimCell> = RawMap::new();
    let cell = PrimCell::U64(1);
    let key = cell.key();
    assert_eq!(*map.entry(key).or_insert(PrimCell::U64(1)), PrimCell::U64(1));
    assert_eq!(*map.entry(key).or_insert(PrimCell::U64(2)), PrimCell::U64(1));
    assert_eq!(
        *map.entry(key).or_insert_with(|| PrimCell::U64(3)),
        PrimCell::U64(1)
    );
    assert_eq!(map.len(), 1);
}

#[test]
fn raw_len_clear_default() {
    let mut map: RawMap<PrimCell> = RawMap::default();
    assert!(map.is_empty());
    let _ = map.insert(PrimCell::Bool(true).key(), PrimCell::Bool(true));
    let _ = map.insert(PrimCell::U16(2).key(), PrimCell::U16(2));
    assert_eq!(map.len(), 2);
    let copy = map.clone();
    assert_eq!(copy.len(), 2);
    map.clear();
    assert!(map.is_empty());
    assert_eq!(copy.get(PrimCell::U16(2).key()), Some(&PrimCell::U16(2)));
    let sized: RawMap<PrimCell> = RawMap::with_capacity(8);
    assert_eq!(sized.len(), 0);
}
