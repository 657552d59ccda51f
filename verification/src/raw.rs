//! The raw form of a map, allowing untyped access.
//!
//! A [`RawMap`] maps type keys to cells and performs no check that a cell's
//! tag matches the key it is filed under: its `insert` instead *requires*
//! that of every caller, which is what makes the typed layer's downcasts
//! sound. All relevant details are in the `RawMap` struct.

use vstd::prelude::*;

use std::collections::HashMap;

use crate::any::Any;

verus! {

broadcast use vstd::std_specs::hash::group_hash_axioms;

/// A map is well formed when every cell is filed under its own tag.
pub open spec fn keys_match<A: Any>(m: Map<u64, A>) -> bool {
    forall|k: u64| m.contains_key(k) ==> (#[trigger] m[k]).key_of() == k
}

/// Filing a cell under its own tag keeps a well-formed map well formed.
pub proof fn lemma_keys_match_insert<A: Any>(m: Map<u64, A>, k: u64, c: A)
    requires
        keys_match(m),
        c.key_of() == k,
    ensures
        keys_match(m.insert(k, c)),
{
}

/// Removing a key keeps a well-formed map well formed.
pub proof fn lemma_keys_match_remove<A: Any>(m: Map<u64, A>, k: u64)
    requires
        keys_match(m),
    ensures
        keys_match(m.remove(k)),
{
}

/// The raw, underlying form of a map: type key to cell, with no check that
/// the two agree. Use the typed map interface instead wherever possible.
#[verifier::reject_recursive_types(A)]
pub struct RawMap<A: Any> {
    inner: HashMap<u64, A>,
}

impl<A: Any> View for RawMap<A> {
    type V = Map<u64, A>;

    closed spec fn view(&self) -> Map<u64, A> {
        self.inner@
    }
}

impl<A: Any + Clone> Clone for RawMap<A> {
    /// Clones the collection. The clone holds the same contents.
    fn clone(&self) -> (r: Self)
        ensures
            r@ == self@,
    {
        RawMap { inner: self.inner.clone() }
    }
}

impl<A: Any> Default for RawMap<A> {
    /// Creates an empty collection.
    fn default() -> (m: Self)
        ensures
            m@ == Map::<u64, A>::empty(),
    {
        RawMap::new()
    }
}

impl<A: Any> RawMap<A> {
    /// Creates an empty collection.
    pub fn new() -> (m: RawMap<A>)
        ensures
            m@ == Map::<u64, A>::empty(),
    {
        RawMap { inner: HashMap::new() }
    }

    /// Creates an empty collection with the given initial capacity.
    pub fn with_capacity(capacity: usize) -> (m: RawMap<A>)
        ensures
            m@ == Map::<u64, A>::empty(),
    {
        RawMap { inner: HashMap::with_capacity(capacity) }
    }

    /// Returns the number of items in the collection.
    pub fn len(&self) -> (n: usize)
        ensures
            n == self@.len(),
    {
        self.inner.len()
    }

    /// Returns true if there are no items in the collection.
    pub fn is_empty(&self) -> (r: bool)
        ensures
            r == (self@.len() == 0),
    {
        proof {
            vstd::set_lib::axiom_is_empty_len0(self@.dom());
        }
        self.inner.is_empty()
    }

    /// Removes all items from the collection.
    pub fn clear(&mut self)
        ensures
            final(self)@ == Map::<u64, A>::empty(),
    {
        self.inner.clear()
    }

    /// Returns a reference to the cell corresponding to the key.
    pub fn get(&self, k: u64) -> (r: Option<&A>)
        ensures
            match r {
                Some(c) => self@.contains_key(k) && *c == self@[k],
                None => !self@.contains_key(k),
            },
    {
        self.inner.get(&k)
    }

    /// Returns true if the map contains a cell for the specified key.
    pub fn contains_key(&self, k: u64) -> (r: bool)
        ensures
            r == self@.contains_key(k),
    {
        self.inner.contains_key(&k)
    }

    /// Returns a mutable reference to the cell corresponding to the key.
    /// The cell ends up holding whatever the returned reference is left
    /// pointing at.
    pub fn get_mut(&mut self, k: u64) -> (r: Option<&mut A>)
        ensures
            match r {
                Some(c) => old(self)@.contains_key(k) && *c == old(self)@[k] && final(self)@
                    == old(self)@.insert(k, *final(c)),
                None => !old(self)@.contains_key(k) && final(self)@ == old(self)@,
            },
    {
        match self.inner.entry(k) {
            std::collections::hash_map::Entry::Occupied(e) => Some(e.into_mut()),
            std::collections::hash_map::Entry::Vacant(_) => {
                proof {
                    assert(old(self).inner@.remove(k) =~= old(self).inner@);
                }
                None
            },
        }
    }

    /// Inserts a key-cell pair into the map. If the key already had a cell
    /// present in the map, that cell is returned; otherwise `None` is.
    ///
    /// It is the caller's responsibility to ensure that the key corresponds
    /// with the tag of the cell; the map performs no check.
    pub fn insert(&mut self, key: u64, value: A) -> (r: Option<A>)
        requires
            value.key_of() == key,
        ensures
            final(self)@ == old(self)@.insert(key, value),
            match r {
                Some(c) => old(self)@.contains_key(key) && c == old(self)@[key],
                None => !old(self)@.contains_key(key),
            },
    {
        self.inner.insert(key, value)
    }

    /// Gets the entry for the given key in the collection, for in-place
    /// manipulation.
    pub fn entry(&mut self, key: u64) -> (e: Entry<'_, A>)
        ensures
            match e {
                Entry::Occupied(o) => old(self)@.contains_key(key) && o.key == key && *o.map
                    == *old(self) && *final(self) == *final(o.map),
                Entry::Vacant(v) => !old(self)@.contains_key(key) && v.key == key && *v.map
                    == *old(self) && *final(self) == *final(v.map),
            },
    {
        if self.contains_key(key) {
            Entry::Occupied(OccupiedEntry { map: self, key })
        } else {
            Entry::Vacant(VacantEntry { map: self, key })
        }
    }

    /// Removes a key from the map, returning the cell at the key if the key
    /// was previously in the map.
    pub fn remove(&mut self, k: u64) -> (r: Option<A>)
        ensures
            final(self)@ == old(self)@.remove(k),
            match r {
                Some(c) => old(self)@.contains_key(k) && c == old(self)@[k],
                None => !old(self)@.contains_key(k),
            },
    {
        self.inner.remove(&k)
    }
}

/// A view into a single occupied location in a `RawMap`.
#[verifier::reject_recursive_types(A)]
pub struct OccupiedEntry<'a, A: Any> {
    /// The map this entry borrows a slot of.
    pub map: &'a mut RawMap<A>,
    /// The key of the borrowed slot.
    pub key: u64,
}

/// A view into a single empty location in a `RawMap`.
#[verifier::reject_recursive_types(A)]
pub struct VacantEntry<'a, A: Any> {
    /// The map this entry borrows a slot of.
    pub map: &'a mut RawMap<A>,
    /// The key of the borrowed slot.
    pub key: u64,
}

/// A view into a single location in a `RawMap`, which may be vacant or
/// occupied.
#[verifier::reject_recursive_types(A)]
pub enum Entry<'a, A: Any> {
    /// An occupied entry.
    Occupied(OccupiedEntry<'a, A>),
    /// A vacant entry.
    Vacant(VacantEntry<'a, A>),
}

impl<'a, A: Any> OccupiedEntry<'a, A> {
    /// The contents of the borrowed map.
    pub open spec fn map_view(self) -> Map<u64, A> {
        (*self.map)@
    }

    /// The cell in the borrowed slot.
    pub open spec fn cell(self) -> A {
        (*self.map)@[self.key]
    }

    /// An occupied entry's slot is present in its map.
    pub open spec fn wf(self) -> bool {
        (*self.map)@.contains_key(self.key)
    }

    /// Gets a reference to the cell in the entry.
    pub fn get(&self) -> (r: &A)
        requires
            self.wf(),
        ensures
            *r == self.cell(),
    {
        self.map.get(self.key).unwrap()
    }

    /// Gets a mutable reference to the cell in the entry. The slot ends up
    /// holding whatever the returned reference is left pointing at.
    pub fn get_mut(&mut self) -> (r: &mut A)
        requires
            old(self).wf(),
        ensures
            *r == old(self).cell(),
            final(self).key == old(self).key,
            final(self).map_view() == old(self).map_view().insert(old(self).key, *final(r)),
            *final(final(self).map) == *final(old(self).map),
            final(self).wf(),
    {
        self.map.get_mut(self.key).unwrap()
    }

    /// Converts the entry into a mutable reference to the cell, with a
    /// lifetime bound to the collection itself. The slot ends up holding
    /// whatever the returned reference is left pointing at.
    pub fn into_mut(self) -> (r: &'a mut A)
        requires
            self.wf(),
        ensures
            *r == self.cell(),
            (*final(self.map))@ == self.map_view().insert(self.key, *final(r)),
    {
        self.map.get_mut(self.key).unwrap()
    }

    /// Sets the cell of the entry, and returns the entry's old cell.
    ///
    /// It is the caller's responsibility to ensure that the key of the
    /// entry corresponds with the tag of the cell.
    pub fn insert(&mut self, value: A) -> (r: A)
        requires
            old(self).wf(),
            value.key_of() == old(self).key,
        ensures
            r == old(self).cell(),
            final(self).key == old(self).key,
            final(self).map_view() == old(self).map_view().insert(old(self).key, value),
            *final(final(self).map) == *final(old(self).map),
            final(self).wf(),
    {
        self.map.insert(self.key, value).unwrap()
    }

    /// Takes the cell out of the entry, and returns it.
    pub fn remove(self) -> (r: A)
        requires
            self.wf(),
        ensures
            r == self.cell(),
            (*final(self.map))@ == self.map_view().remove(self.key),
    {
        self.map.remove(self.key).unwrap()
    }
}

impl<'a, A: Any> VacantEntry<'a, A> {
    /// The contents of the borrowed map.
    pub open spec fn map_view(self) -> Map<u64, A> {
        (*self.map)@
    }

    /// A vacant entry's slot is absent from its map.
    pub open spec fn wf(self) -> bool {
        !(*self.map)@.contains_key(self.key)
    }

    /// Sets the cell of the entry with the entry's key, and returns a
    /// mutable reference to it. The slot ends up holding whatever the
    /// returned reference is left pointing at.
    ///
    /// It is the caller's responsibility to ensure that the key of the
    /// entry corresponds with the tag of the cell.
    pub fn insert(self, value: A) -> (r: &'a mut A)
        requires
            value.key_of() == self.key,
        ensures
            *r == value,
            (*final(self.map))@ == self.map_view().insert(self.key, *final(r)),
    {
        let map = self.map;
        let ghost orig: Map<u64, A> = (*map)@;
        let _ = map.insert(self.key, value);
        let r = map.get_mut(self.key).unwrap();
        proof {
            assert(orig.insert(self.key, value).insert(self.key, *final(r)) =~= orig.insert(
                self.key,
                *final(r),
            ));
        }
        r
    }
}

impl<'a, A: Any> Entry<'a, A> {
    /// The key of the slot this entry views.
    pub open spec fn spec_key(self) -> u64 {
        match self {
            Entry::Occupied(o) => o.key,
            Entry::Vacant(v) => v.key,
        }
    }

    /// The entry variant agrees with its map.
    pub open spec fn wf(self) -> bool {
        match self {
            Entry::Occupied(o) => o.wf(),
            Entry::Vacant(v) => v.wf(),
        }
    }

    /// Ensures a cell is in the entry by inserting the default if empty,
    /// and returns a mutable reference to the cell in the entry. The slot
    /// ends up holding whatever the returned reference is left pointing at.
    ///
    /// It is the caller's responsibility to ensure that the key of the
    /// entry corresponds with the tag of the cell.
    pub fn or_insert(self, default: A) -> (r: &'a mut A)
        requires
            self.wf(),
            default.key_of() == self.spec_key(),
        ensures
            match self {
                Entry::Occupied(o) => *r == o.cell() && (*final(o.map))@ == o.map_view().insert(
                    o.key,
                    *final(r),
                ),
                Entry::Vacant(v) => *r == default && (*final(v.map))@ == v.map_view().insert(
                    v.key,
                    *final(r),
                ),
            },
    {
        match self {
            Entry::Occupied(o) => o.into_mut(),
            Entry::Vacant(v) => v.insert(default),
        }
    }

    /// Ensures a cell is in the entry by inserting the result of the
    /// default function if empty, and returns a mutable reference to the
    /// cell in the entry. The slot ends up holding whatever the returned
    /// reference is left pointing at.
    ///
    /// It is the caller's responsibility to ensure that the key of the
    /// entry corresponds with the tag of every cell the function may
    /// return.
    pub fn or_insert_with<F: FnOnce() -> A>(self, default: F) -> (r: &'a mut A)
        requires
            self.wf(),
            default.requires(()),
            forall|c: A| default.ensures((), c) ==> c.key_of() == self.spec_key(),
        ensures
            match self {
                Entry::Occupied(o) => *r == o.cell() && (*final(o.map))@ == o.map_view().insert(
                    o.key,
                    *final(r),
                ),
                Entry::Vacant(v) => default.ensures((), *r) && (*final(v.map))@
                    == v.map_view().insert(v.key, *final(r)),
            },
    {
        match self {
            Entry::Occupied(o) => o.into_mut(),
            Entry::Vacant(v) => v.insert(default()),
        }
    }
}

} // verus!
