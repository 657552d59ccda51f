//! The traits that tie a storable type to its cell representation.
//!
//! A map stores, for each type key, one *cell*: a value of a closed tagged
//! union chosen by the user of the library. The [`Any`] trait equips a cell
//! type with its type key; the [`IntoBox`] trait equips each storable type
//! with the conversions into and out of a cell, together with the laws that
//! make the checked downcast on retrieval provably succeed.

use vstd::prelude::*;

verus! {

/// A cell type: a closed tagged union able to hold one value of each
/// storable type, tagged with the type key of the value it holds.
pub trait Any: Sized {
    /// The type key of the value this cell holds.
    spec fn key_of(self) -> u64;

    /// Returns the type key of the value this cell holds.
    fn key(&self) -> (k: u64)
        ensures
            k == self.key_of(),
    ;
}

/// A storable type: one that can be boxed into a cell of type `A` and
/// unboxed back. Distinct storable types must choose distinct type keys;
/// the laws below make that precise by tying each key to the cells it tags.
pub trait IntoBox<A: Any>: Sized {
    /// The type key of this storable type.
    spec fn spec_key() -> u64;

    /// The cell that holds `self`.
    spec fn spec_box(self) -> A;

    /// The value a cell holds, read back at this type; `None` when the
    /// cell holds a value of another type.
    spec fn spec_unbox(c: A) -> Option<Self>;

    /// The laws that make the checked downcast sound: boxing tags a cell
    /// with this type's key and unboxing inverts it; a cell unboxes at this
    /// type exactly when its tag is this type's key; and unboxing a cell
    /// that carries this key gives the value whose box that cell is.
    proof fn laws()
        ensures
            forall|t: Self| (#[trigger] t.spec_box()).key_of() == Self::spec_key(),
            forall|t: Self| Self::spec_unbox(#[trigger] t.spec_box()) == Some(t),
            forall|c: A| (#[trigger] Self::spec_unbox(c)) is Some ==> c.key_of()
                == Self::spec_key(),
            forall|c: A| c.key_of() == Self::spec_key() ==> (#[trigger] Self::spec_unbox(c))
                is Some,
            forall|c: A| (#[trigger] Self::spec_unbox(c)) matches Some(t) ==> t.spec_box() == c,
    ;

    /// Returns this type's key.
    fn key() -> (k: u64)
        ensures
            k == Self::spec_key(),
    ;

    /// Boxes `self` into a cell.
    fn into_box(self) -> (c: A)
        ensures
            c == self.spec_box(),
    ;

    /// Unboxes a cell, by value.
    fn unbox(c: A) -> (t: Option<Self>)
        ensures
            t == Self::spec_unbox(c),
    ;

    /// Unboxes a cell, by shared reference.
    fn unbox_ref(c: &A) -> (t: Option<&Self>)
        ensures
            match t {
                Some(t) => Self::spec_unbox(*c) == Some(*t),
                None => Self::spec_unbox(*c) is None,
            },
    ;

    /// Unboxes a cell, by mutable reference: the cell ends up holding
    /// whatever the returned reference is left pointing at.
    fn unbox_mut(c: &mut A) -> (t: Option<&mut Self>)
        ensures
            match t {
                Some(t) => Self::spec_unbox(*old(c)) == Some(*t) && *final(c)
                    == (*final(t)).spec_box(),
                None => Self::spec_unbox(*old(c)) is None && *final(c) == *old(c),
            },
    ;
}

} // verus!
