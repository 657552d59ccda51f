use anymap::AnyMap;
use anymap::Fetcher;
use anymap::PrimCell;

#[test]
fn fetch_same_type_twice_yields_nothing() {
    let mut map: AnyMap<PrimCell> = AnyMap::new();
    let _ = map.insert(5u32);
    let mut fetcher = Fetcher::new(&mut map);
    {
        let first = fetcher.fetch::<u32>();
        assert_eq!(first, Some(&mut 5u32));
    }
    let second = fetcher.fetch::<u32>();
    assert_eq!(second, None);
}

#[test]
fn fetch_absent_type_still_spends_the_grant() {
    let mut map: AnyMap<PrimCell> = AnyMap::new();
    let _ = map.insert(5u32);
    let mut fetcher = Fetcher::new(&mut map);
    assert_eq!(fetcher.fetch::<u64>(), None);
    assert_eq!(fetcher.fetch::<u64>(), None);
    // Other types are unaffected by the spent grant.
    assert_eq!(fetcher.fetch::<u32>(), Some(&mut 5u32));
}

#[test]
fn fetch_distinct_types_are_independent() {
    let mut map: AnyMap<PrimCell> = AnyMap::new();
    let _ = map.insert(1u8);
    let _ = map.insert(2u16);
    {
        let mut fetcher = Fetcher::new(&mut map);
        {
            let a = fetcher.fetch::<u8>().unwrap();
            assert_eq!(*a, 1u8);
            *a = 10u8;
        }
        {
            let b = fetcher.fetch::<u16>().unwrap();
            assert_eq!(*b, 2u16);
            *b = 20u16;
        }
    }
    assert_eq!(map.get::<u8>(), Some(&10u8));
    assert_eq!(map.get::<u16>(), Some(&20u16));
}

#[test]
fn writes_through_fetched_reference_reach_the_map() {
    let mut map: AnyMap<PrimCell> = AnyMap::new();
    let _ = map.insert(String::from("a"));
    {
        let mut fetcher = Fetcher::new(&mut map);
        if let Some(s) = fetcher.fetch::<String>() {
            s.push('b');
        }
    }
    assert_eq!(map.get::<String>(), Some(&String::from("ab")));
}
