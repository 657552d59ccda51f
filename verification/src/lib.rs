//! A safe and verified store for one value of each type.
//!
//! An [`AnyMap`] holds at most one value per storable type and hands it back
//! type-safely. Types are identified by type keys; values travel inside
//! cells, a closed tagged union chosen per map. The store keeps the
//! invariant that the cell filed under a key always holds a value of the
//! type that key identifies, so retrieval's checked downcast provably
//! succeeds.

use vstd::prelude::*;

pub mod any;
pub mod fetch;
pub mod prim;
pub mod raw;

pub use any::Any;
pub use any::IntoBox;
pub use fetch::Fetcher;
pub use prim::PrimCell;

use crate::raw::RawMap;
use crate::raw::keys_match;
use crate::raw::lemma_keys_match_insert;
use crate::raw::lemma_keys_match_remove;

verus! {

/// A collection containing zero or one cells for any given type key and
/// allowing convenient, type-safe access to the values they hold.
#[verifier::reject_recursive_types(A)]
pub struct AnyMap<A: Any> {
    raw: RawMap<A>,
}

impl<A: Any> View for AnyMap<A> {
    type V = Map<u64, A>;

    closed spec fn view(&self) -> Map<u64, A> {
        self.raw@
    }
}

impl<A: Any + Clone> Clone for AnyMap<A> {
    /// Clones the collection. The clone holds the same contents.
    fn clone(&self) -> (r: Self)
        ensures
            r@ == self@,
    {
        AnyMap { raw: self.raw.clone() }
    }
}

impl<A: Any> AnyMap<A> {
    /// The store invariant: every cell is filed under its own tag. It holds
    /// of every map this interface builds, and it is what makes every
    /// checked downcast on retrieval succeed.
    pub open spec fn wf(self) -> bool {
        keys_match(self@)
    }

    /// Creates an empty collection.
    pub fn new() -> (m: AnyMap<A>)
        ensures
            m@ == Map::<u64, A>::empty(),
            m.wf(),
    {
        AnyMap { raw: RawMap::new() }
    }

    /// Creates an empty collection with the given initial capacity.
    pub fn with_capacity(capacity: usize) -> (m: AnyMap<A>)
        ensures
            m@ == Map::<u64, A>::empty(),
            m.wf(),
    {
        AnyMap { raw: RawMap::with_capacity(capacity) }
    }

    /// Returns the number of values in the collection.
    pub fn len(&self) -> (n: usize)
        ensures
            n == self@.len(),
    {
        self.raw.len()
    }

    /// Returns true if there are no values in the collection.
    pub fn is_empty(&self) -> (r: bool)
        ensures
            r == (self@.len() == 0),
    {
        self.raw.is_empty()
    }

    /// Removes all values from the collection.
    pub fn clear(&mut self)
        ensures
            final(self)@ == Map::<u64, A>::empty(),
            final(self).wf(),
    {
        self.raw.clear()
    }

    /// Returns true if the collection contains a value of type `T`.
    pub fn contains<T: IntoBox<A>>(&self) -> (r: bool)
        ensures
            r == self@.contains_key(T::spec_key()),
    {
        self.raw.contains_key(T::key())
    }

    /// Returns a reference to the value stored in the collection for the
    /// type `T`, if it exists.
    pub fn get<T: IntoBox<A>>(&self) -> (r: Option<&T>)
        ensures
            match r {
                Some(t) => self@.contains_key(T::spec_key()) && T::spec_unbox(
                    self@[T::spec_key()],
                ) == Some(*t),
                None => !self@.contains_key(T::spec_key()) || T::spec_unbox(self@[T::spec_key()])
                    is None,
            },
            self.wf() ==> (r is Some <==> self@.contains_key(T::spec_key())),
    {
        proof {
            T::laws();
        }
        match self.raw.get(T::key()) {
            Some(c) => T::unbox_ref(c),
            None => None,
        }
    }

    /// Returns a mutable reference to the value stored in the collection
    /// for the type `T`, if it exists. The slot ends up holding whatever
    /// the returned reference is left pointing at.
    pub fn get_mut<T: IntoBox<A>>(&mut self) -> (r: Option<&mut T>)
        ensures
            match r {
                Some(t) => old(self)@.contains_key(T::spec_key()) && T::spec_unbox(
                    old(self)@[T::spec_key()],
                ) == Some(*t) && final(self)@ == old(self)@.insert(
                    T::spec_key(),
                    (*final(t)).spec_box(),
                ),
                None => final(self)@ == old(self)@ && (!old(self)@.contains_key(T::spec_key())
                    || T::spec_unbox(old(self)@[T::spec_key()]) is None),
            },
            old(self).wf() ==> (r is Some <==> old(self)@.contains_key(T::spec_key())),
            old(self).wf() ==> final(self).wf(),
    {
        proof {
            T::laws();
        }
        match self.raw.get_mut(T::key()) {
            Some(c) => {
                let r = T::unbox_mut(c);
                proof {
                    if r is None {
                        assert(old(self)@.insert(T::spec_key(), old(self)@[T::spec_key()])
                            =~= old(self)@);
                    }
                }
                r
            },
            None => None,
        }
    }

    /// Sets the value stored in the collection for the type `T`. If the
    /// collection already had a value of type `T`, that value is returned;
    /// otherwise `None` is.
    pub fn insert<T: IntoBox<A>>(&mut self, value: T) -> (r: Option<T>)
        ensures
            final(self)@ == old(self)@.insert(T::spec_key(), value.spec_box()),
            r == if old(self)@.contains_key(T::spec_key()) {
                T::spec_unbox(old(self)@[T::spec_key()])
            } else {
                None::<T>
            },
            old(self).wf() ==> final(self).wf(),
            old(self).wf() ==> (r is Some <==> old(self)@.contains_key(T::spec_key())),
    {
        proof {
            T::laws();
            if old(self).wf() {
                lemma_keys_match_insert(old(self)@, T::spec_key(), value.spec_box());
            }
        }
        match self.raw.insert(T::key(), value.into_box()) {
            Some(c) => T::unbox(c),
            None => None,
        }
    }

    /// Removes the `T` value from the collection, returning it if there
    /// was one or `None` if there was not.
    pub fn remove<T: IntoBox<A>>(&mut self) -> (r: Option<T>)
        ensures
            final(self)@ == old(self)@.remove(T::spec_key()),
            r == if old(self)@.contains_key(T::spec_key()) {
                T::spec_unbox(old(self)@[T::spec_key()])
            } else {
                None::<T>
            },
            old(self).wf() ==> final(self).wf(),
            old(self).wf() ==> (r is Some <==> old(self)@.contains_key(T::spec_key())),
    {
        proof {
            T::laws();
            if old(self).wf() {
                lemma_keys_match_remove::<A>(old(self)@, T::spec_key());
            }
        }
        match self.raw.remove(T::key()) {
            Some(c) => T::unbox(c),
            None => None,
        }
    }

    /// Gets the entry for the given type in the collection, for in-place
    /// manipulation.
    pub fn entry<T: IntoBox<A>>(&mut self) -> (e: Entry<'_, A, T>)
        ensures
            match e {
                Entry::Occupied(o) => old(self)@.contains_key(T::spec_key()) && o.inner.key
                    == T::spec_key() && o.map_view() == old(self)@ && final(self)@
                    == (*final(o.inner.map))@ && (old(self).wf() ==> o.wf()),
                Entry::Vacant(v) => !old(self)@.contains_key(T::spec_key()) && v.inner.key
                    == T::spec_key() && v.map_view() == old(self)@ && final(self)@
                    == (*final(v.inner.map))@ && v.wf(),
            },
    {
        match self.raw.entry(T::key()) {
            raw::Entry::Occupied(o) => Entry::Occupied(
                OccupiedEntry { inner: o, type_: core::marker::PhantomData },
            ),
            raw::Entry::Vacant(v) => Entry::Vacant(
                VacantEntry { inner: v, type_: core::marker::PhantomData },
            ),
        }
    }
}

/// A view into a single occupied location in an `AnyMap`.
#[verifier::reject_recursive_types(A)]
#[verifier::reject_recursive_types(T)]
pub struct OccupiedEntry<'a, A: Any, T: IntoBox<A>> {
    /// The raw entry this typed view wraps.
    pub inner: raw::OccupiedEntry<'a, A>,
    /// The storable type this view reads the slot at.
    pub type_: core::marker::PhantomData<T>,
}

/// A view into a single empty location in an `AnyMap`.
#[verifier::reject_recursive_types(A)]
#[verifier::reject_recursive_types(T)]
pub struct VacantEntry<'a, A: Any, T: IntoBox<A>> {
    /// The raw entry this typed view wraps.
    pub inner: raw::VacantEntry<'a, A>,
    /// The storable type this view fills the slot at.
    pub type_: core::marker::PhantomData<T>,
}

/// A view into a single location in an `AnyMap`, which may be vacant or
/// occupied.
#[verifier::reject_recursive_types(A)]
#[verifier::reject_recursive_types(T)]
pub enum Entry<'a, A: Any, T: IntoBox<A>> {
    /// An occupied entry.
    Occupied(OccupiedEntry<'a, A, T>),
    /// A vacant entry.
    Vacant(VacantEntry<'a, A, T>),
}

impl<'a, A: Any, T: IntoBox<A>> OccupiedEntry<'a, A, T> {
    /// The contents of the borrowed map.
    pub open spec fn map_view(self) -> Map<u64, A> {
        self.inner.map_view()
    }

    /// The cell in the borrowed slot.
    pub open spec fn cell(self) -> A {
        self.inner.cell()
    }

    /// The value in the borrowed slot, read at type `T`.
    pub open spec fn value(self) -> Option<T> {
        T::spec_unbox(self.cell())
    }

    /// The slot is present, keyed by `T`, and holds a cell of `T`'s key.
    pub open spec fn wf(self) -> bool {
        self.inner.wf() && self.inner.key == T::spec_key() && self.cell().key_of()
            == T::spec_key()
    }

    /// Gets a reference to the value in the entry.
    pub fn get(&self) -> (r: &T)
        requires
            self.wf(),
        ensures
            Some(*r) == self.value(),
    {
        proof {
            T::laws();
        }
        T::unbox_ref(self.inner.get()).unwrap()
    }

    /// Gets a mutable reference to the value in the entry. The slot ends
    /// up holding whatever the returned reference is left pointing at.
    pub fn get_mut(&mut self) -> (r: &mut T)
        requires
            old(self).wf(),
        ensures
            Some(*r) == old(self).value(),
            final(self).map_view() == old(self).map_view().insert(
                T::spec_key(),
                (*final(r)).spec_box(),
            ),
            *final(final(self).inner.map) == *final(old(self).inner.map),
            final(self).inner.key == old(self).inner.key,
            final(self).wf(),
    {
        proof {
            T::laws();
        }
        T::unbox_mut(self.inner.get_mut()).unwrap()
    }

    /// Converts the entry into a mutable reference to the value, with a
    /// lifetime bound to the collection itself. The slot ends up holding
    /// whatever the returned reference is left pointing at.
    pub fn into_mut(self) -> (r: &'a mut T)
        requires
            self.wf(),
        ensures
            Some(*r) == self.value(),
            (*final(self.inner.map))@ == self.map_view().insert(
                T::spec_key(),
                (*final(r)).spec_box(),
            ),
    {
        proof {
            T::laws();
        }
        T::unbox_mut(self.inner.into_mut()).unwrap()
    }

    /// Sets the value of the entry, and returns the entry's old value.
    pub fn insert(&mut self, value: T) -> (r: T)
        requires
            old(self).wf(),
        ensures
            Some(r) == old(self).value(),
            final(self).map_view() == old(self).map_view().insert(
                T::spec_key(),
                value.spec_box(),
            ),
            *final(final(self).inner.map) == *final(old(self).inner.map),
            final(self).inner.key == old(self).inner.key,
            final(self).wf(),
    {
        proof {
            T::laws();
        }
        T::unbox(self.inner.insert(value.into_box())).unwrap()
    }

    /// Takes the value out of the entry, and returns it.
    pub fn remove(self) -> (r: T)
        requires
            self.wf(),
        ensures
            Some(r) == self.value(),
            (*final(self.inner.map))@ == self.map_view().remove(T::spec_key()),
    {
        proof {
            T::laws();
        }
        T::unbox(self.inner.remove()).unwrap()
    }
}

impl<'a, A: Any, T: IntoBox<A>> VacantEntry<'a, A, T> {
    /// The contents of the borrowed map.
    pub open spec fn map_view(self) -> Map<u64, A> {
        self.inner.map_view()
    }

    /// The slot is absent and keyed by `T`.
    pub open spec fn wf(self) -> bool {
        self.inner.wf() && self.inner.key == T::spec_key()
    }

    /// Sets the value of the entry with the entry's key, and returns a
    /// mutable reference to it. The slot ends up holding whatever the
    /// returned reference is left pointing at.
    pub fn insert(self, value: T) -> (r: &'a mut T)
        requires
            self.wf(),
        ensures
            *r == value,
            (*final(self.inner.map))@ == self.map_view().insert(
                T::spec_key(),
                (*final(r)).spec_box(),
            ),
    {
        proof {
            T::laws();
        }
        T::unbox_mut(self.inner.insert(value.into_box())).unwrap()
    }
}

impl<'a, A: Any, T: IntoBox<A>> Entry<'a, A, T> {
    /// The contents of the borrowed map.
    pub open spec fn map_view(self) -> Map<u64, A> {
        match self {
            Entry::Occupied(o) => o.map_view(),
            Entry::Vacant(v) => v.map_view(),
        }
    }

    /// The entry variant agrees with its map and is keyed by `T`.
    pub open spec fn wf(self) -> bool {
        match self {
            Entry::Occupied(o) => o.wf(),
            Entry::Vacant(v) => v.wf(),
        }
    }

    /// Ensures a value is in the entry by inserting the default if empty,
    /// and returns a mutable reference to the value in the entry. The slot
    /// ends up holding whatever the returned reference is left pointing at.
    pub fn or_insert(self, default: T) -> (r: &'a mut T)
        requires
            self.wf(),
        ensures
            match self {
                Entry::Occupied(o) => Some(*r) == o.value() && (*final(o.inner.map))@
                    == o.map_view().insert(T::spec_key(), (*final(r)).spec_box()),
                Entry::Vacant(v) => *r == default && (*final(v.inner.map))@
                    == v.map_view().insert(T::spec_key(), (*final(r)).spec_box()),
            },
    {
        match self {
            Entry::Occupied(o) => o.into_mut(),
            Entry::Vacant(v) => v.insert(default),
        }
    }

    /// Ensures a value is in the entry by inserting the result of the
    /// default function if empty, and returns a mutable reference to the
    /// value in the entry. The slot ends up holding whatever the returned
    /// reference is left pointing at.
    pub fn or_insert_with<F: FnOnce() -> T>(self, default: F) -> (r: &'a mut T)
        requires
            self.wf(),
            default.requires(()),
        ensures
            match self {
                Entry::Occupied(o) => Some(*r) == o.value() && (*final(o.inner.map))@
                    == o.map_view().insert(T::spec_key(), (*final(r)).spec_box()),
                Entry::Vacant(v) => default.ensures((), *r) && (*final(v.inner.map))@
                    == v.map_view().insert(T::spec_key(), (*final(r)).spec_box()),
            },
    {
        match self {
            Entry::Occupied(o) => o.into_mut(),
            Entry::Vacant(v) => v.insert(default()),
        }
    }
}

/// The contents of a map after `or_insert` with default `d` at type `T`,
/// when nothing is written through the returned reference: unchanged when
/// `T` was present, extended by `d` when it was not.
pub open spec fn or_insert_map<A: Any, T: IntoBox<A>>(m: Map<u64, A>, d: T) -> Map<u64, A> {
    if m.contains_key(T::spec_key()) {
        m
    } else {
        m.insert(T::spec_key(), d.spec_box())
    }
}

/// The value `or_insert` with default `d` at type `T` hands out: the stored
/// value when `T` is present, the default when it is not.
pub open spec fn or_insert_value<A: Any, T: IntoBox<A>>(m: Map<u64, A>, d: T) -> Option<T> {
    if m.contains_key(T::spec_key()) {
        T::spec_unbox(m[T::spec_key()])
    } else {
        Some(d)
    }
}

/// Round trip: after a value is inserted for type `T`, retrieval at `T`
/// finds exactly that value, and the store invariant is kept.
pub proof fn lemma_insert_then_get<A: Any, T: IntoBox<A>>(m: Map<u64, A>, v: T)
    ensures
        ({
            let m2 = m.insert(T::spec_key(), v.spec_box());
            &&& m2.contains_key(T::spec_key())
            &&& T::spec_unbox(m2[T::spec_key()]) == Some(v)
        }),
        keys_match(m) ==> keys_match(m.insert(T::spec_key(), v.spec_box())),
{
    T::laws();
}

/// Overwrite returns the prior value: inserting `v2` over `v1` at type `T`
/// hands `v1` back, and retrieval at `T` then finds `v2`.
pub proof fn lemma_overwrite_returns_prior<A: Any, T: IntoBox<A>>(m: Map<u64, A>, v1: T, v2: T)
    ensures
        ({
            let m1 = m.insert(T::spec_key(), v1.spec_box());
            let m2 = m1.insert(T::spec_key(), v2.spec_box());
            &&& T::spec_unbox(m1[T::spec_key()]) == Some(v1)
            &&& T::spec_unbox(m2[T::spec_key()]) == Some(v2)
        }),
{
    T::laws();
}

/// Type isolation: inserting a value of type `T` never affects what any
/// type `U` with a different key finds.
pub proof fn lemma_type_isolation<A: Any, T: IntoBox<A>, U: IntoBox<A>>(m: Map<u64, A>, v: T)
    requires
        T::spec_key() != U::spec_key(),
    ensures
        ({
            let m2 = m.insert(T::spec_key(), v.spec_box());
            &&& m2.contains_key(U::spec_key()) == m.contains_key(U::spec_key())
            &&& m.contains_key(U::spec_key()) ==> U::spec_unbox(m2[U::spec_key()])
                == U::spec_unbox(m[U::spec_key()])
        }),
{
}

/// Removal empties: removing type `T` right after inserting a value for it
/// hands that value back, and retrieval at `T` then finds nothing.
pub proof fn lemma_remove_empties<A: Any, T: IntoBox<A>>(m: Map<u64, A>, v: T)
    ensures
        ({
            let m1 = m.insert(T::spec_key(), v.spec_box());
            let m2 = m1.remove(T::spec_key());
            &&& T::spec_unbox(m1[T::spec_key()]) == Some(v)
            &&& !m2.contains_key(T::spec_key())
        }),
{
    T::laws();
}

/// Entry idempotence: on a well-formed map, a second `or_insert` at type
/// `T` with no intervening removal changes nothing and hands out the value
/// the first call established.
pub proof fn lemma_or_insert_idempotent<A: Any, T: IntoBox<A>>(m: Map<u64, A>, d1: T, d2: T)
    requires
        keys_match(m),
    ensures
        ({
            let m1 = or_insert_map(m, d1);
            &&& or_insert_map(m1, d2) == m1
            &&& or_insert_value(m1, d2) == or_insert_value(m, d1)
            &&& or_insert_value(m, d1) is Some
        }),
{
    T::laws();
}

} // verus!
