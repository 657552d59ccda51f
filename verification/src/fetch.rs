//! A borrowing session handing out mutable access to several
//! distinct-typed values of one map.
//!
//! A [`Fetcher`] holds an exclusive borrow of an [`AnyMap`] together with a
//! ledger of the type keys already handed out. A key is granted at most
//! once per session: the second request for the same type yields nothing,
//! whatever the first yielded. That ledger is the sole gate, and it is
//! session-scoped and type-keyed: it does not track whether the first
//! grant is still in use.

use vstd::prelude::*;

use std::collections::HashSet;

use crate::AnyMap;
use crate::any::Any;
use crate::any::IntoBox;

verus! {

broadcast use vstd::std_specs::hash::group_hash_axioms;

/// A container for an [`AnyMap`] that allows mutable access to several
/// values of distinct types in one session.
#[verifier::reject_recursive_types(A)]
pub struct Fetcher<'a, A: Any> {
    /// The type keys already handed out in this session.
    pub mask: HashSet<u64>,
    /// The exclusively borrowed map.
    pub map: &'a mut AnyMap<A>,
}

impl<'a, A: Any> Fetcher<'a, A> {
    /// The type keys already handed out in this session.
    pub open spec fn issued(self) -> Set<u64> {
        self.mask@
    }

    /// The contents of the borrowed map.
    pub open spec fn map_view(self) -> Map<u64, A> {
        (*self.map)@
    }

    /// The borrowed map satisfies the store invariant.
    pub open spec fn wf(self) -> bool {
        (*self.map).wf()
    }

    /// Returns a new Fetcher that retrieves values from `map`, with an
    /// empty ledger.
    pub fn new(map: &'a mut AnyMap<A>) -> (f: Fetcher<'a, A>)
        ensures
            f.issued() == Set::<u64>::empty(),
            *f.map == *old(map),
            *final(map) == *final(f.map),
    {
        Fetcher { mask: HashSet::new(), map }
    }

    /// Fetches and returns a mutable reference to the value stored in the
    /// collection for the type `T`, if it exists and no value of type `T`
    /// was handed out in this session before. The slot ends up holding
    /// whatever the returned reference is left pointing at.
    ///
    /// `T`'s key joins the ledger even when nothing is returned: a request
    /// for an absent type still spends the type's one grant.
    pub fn fetch<T: IntoBox<A>>(&mut self) -> (r: Option<&mut T>)
        ensures
            final(self).issued() == old(self).issued().insert(T::spec_key()),
            *final(final(self).map) == *final(old(self).map),
            old(self).wf() ==> final(self).wf(),
            old(self).wf() ==> (r is Some <==> !old(self).issued().contains(T::spec_key())
                && old(self).map_view().contains_key(T::spec_key())),
            match r {
                Some(t) => !old(self).issued().contains(T::spec_key())
                    && old(self).map_view().contains_key(T::spec_key()) && T::spec_unbox(
                    old(self).map_view()[T::spec_key()],
                ) == Some(*t) && final(self).map_view() == old(self).map_view().insert(
                    T::spec_key(),
                    (*final(t)).spec_box(),
                ),
                None => final(self).map_view() == old(self).map_view(),
            },
    {
        if !self.mask.insert(T::key()) {
            return None;
        }
        self.map.get_mut::<T>()
    }
}

/// Fetcher type independence: whatever a grant for type `T` leaves in
/// `T`'s slot, the slot of every type `U` with a different key still holds
/// what it held before, so mutation through one granted reference cannot
/// change what another type's grant sees.
pub proof fn lemma_fetch_independence<A: Any, T: IntoBox<A>, U: IntoBox<A>>(m: Map<u64, A>, c: A)
    requires
        T::spec_key() != U::spec_key(),
    ensures
        m.insert(T::spec_key(), c).contains_key(U::spec_key()) == m.contains_key(U::spec_key()),
        m.contains_key(U::spec_key()) ==> U::spec_unbox(m.insert(T::spec_key(), c)[U::spec_key()])
            == U::spec_unbox(m[U::spec_key()]),
{
}

} // verus!
