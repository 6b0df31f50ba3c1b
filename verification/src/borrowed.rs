//! The borrowed view.
//!
//! A `Borrowed` carries the same type parameters as the owning wrapper but
//! owns no cache slot: it exists so that a bare value can take part in the
//! wrapper's hashing and equality scheme, for lookups that own nothing.
//! Every hash computed through it is transient and never persisted, and its
//! equality is exactly the value's own.

use core::cmp::Ordering;
use core::marker::PhantomData;

use vstd::prelude::*;
use vstd::std_specs::cmp::PartialEqSpec;
use vstd::std_specs::cmp::PartialOrdSpec;

use crate::alg::DefaultHashAlg;
use crate::alg::HashAlg;
use crate::code::code_of;
use crate::code::raw_code_of;
use crate::how::How;
use crate::storer::CellStorer;
use crate::storer::HashStorer;

verus! {

/// A value viewed as if it were wrapped: same hash scheme, no cache slot.
/// Make one around a reference (`Borrowed::new(&v)`) or around a cheap copy
/// of a value to look it up among owning wrappers.
#[derive(Debug)]
pub struct Borrowed<T, H = DefaultHashAlg, S = CellStorer<u64>> {
    /// Marks the algorithm; carries nothing at run time.
    pub hasher: PhantomData<H>,
    /// Marks the slot kind; carries nothing at run time.
    pub state: PhantomData<S>,
    /// The viewed value.
    pub value: T,
}

impl<T, H, S> Borrowed<T, H, S> {
    /// View a value; nothing is allocated and nothing will be cached.
    pub fn new(value: T) -> (r: Self)
        ensures
            r.value == value,
    {
        Borrowed { hasher: PhantomData, state: PhantomData, value }
    }
}

impl<T, H: HashAlg<T>, S: HashStorer> Borrowed<T, H, S> {
    /// The code this view hashes to: exactly the code an owning wrapper
    /// with slot kind `S` would report for an equal value.  Nothing is
    /// stored; every call recomputes.
    pub fn make_hash(&self) -> (r: S::HashCode)
        ensures
            S::caches() ==> r == code_of::<T, H, S::HashCode>(self.value),
            !S::caches() ==> r == raw_code_of::<T, H, S::HashCode>(self.value),
    {
        S::hash_one::<T, H>(&self.value)
    }
}

impl<T: Clone, H, S> Clone for Borrowed<T, H, S> {
    /// The clone's value is a clone of the viewed value; there is no slot
    /// to carry.
    fn clone(&self) -> (r: Self)
        ensures
            cloned::<T>(self.value, r.value),
    {
        Borrowed { hasher: PhantomData, state: PhantomData, value: self.value.clone() }
    }
}

impl<T: Copy, H, S> Copy for Borrowed<T, H, S> {

}

impl<T: PartialEq, H, S> PartialEq for Borrowed<T, H, S> {
    /// The value's own equality, with no cache-based shortcut: there is no
    /// cache.
    fn eq(&self, other: &Self) -> (r: bool) {
        self.value == other.value
    }
}

impl<T: PartialEq, H, S> vstd::std_specs::cmp::PartialEqSpecImpl for Borrowed<T, H, S> {
    open spec fn obeys_eq_spec() -> bool {
        T::obeys_eq_spec()
    }

    open spec fn eq_spec(&self, other: &Self) -> bool {
        self.value.eq_spec(&other.value)
    }
}

impl<T: PartialEq + Eq, H, S> Eq for Borrowed<T, H, S> {

}

impl<T: PartialEq, H, S> PartialEq<T> for Borrowed<T, H, S> {
    /// A view equals a bare value exactly when the values are equal.
    fn eq(&self, other: &T) -> (r: bool) {
        self.value == *other
    }
}

impl<T: PartialEq, H, S> vstd::std_specs::cmp::PartialEqSpecImpl<T> for Borrowed<T, H, S> {
    open spec fn obeys_eq_spec() -> bool {
        T::obeys_eq_spec()
    }

    open spec fn eq_spec(&self, other: &T) -> bool {
        self.value.eq_spec(other)
    }
}

impl<T: PartialOrd, H, S> PartialOrd for Borrowed<T, H, S> {
    fn partial_cmp(&self, other: &Self) -> (r: Option<Ordering>) {
        self.value.partial_cmp(&other.value)
    }
}

impl<T: PartialOrd, H, S> vstd::std_specs::cmp::PartialOrdSpecImpl for Borrowed<T, H, S> {
    open spec fn obeys_partial_cmp_spec() -> bool {
        T::obeys_partial_cmp_spec()
    }

    open spec fn partial_cmp_spec(&self, other: &Self) -> Option<Ordering> {
        self.value.partial_cmp_spec(&other.value)
    }
}

impl<T: PartialOrd, H, S> PartialOrd<T> for Borrowed<T, H, S> {
    /// A view orders against a bare value by the values alone.
    fn partial_cmp(&self, other: &T) -> (r: Option<Ordering>) {
        self.value.partial_cmp(other)
    }
}

impl<T: PartialOrd, H, S> vstd::std_specs::cmp::PartialOrdSpecImpl<T> for Borrowed<T, H, S> {
    open spec fn obeys_partial_cmp_spec() -> bool {
        T::obeys_partial_cmp_spec()
    }

    open spec fn partial_cmp_spec(&self, other: &T) -> Option<Ordering> {
        self.value.partial_cmp_spec(other)
    }
}

impl<T: PartialEq, H, S: HashStorer> PartialEq<Borrowed<T, H, S>> for How<T, H, S> {
    /// A wrapper equals a view exactly when the values are equal; the view
    /// has no cache, so no shortcut applies.
    fn eq(&self, other: &Borrowed<T, H, S>) -> (r: bool) {
        *How::value(self) == other.value
    }
}

impl<T: PartialEq, H, S: HashStorer> vstd::std_specs::cmp::PartialEqSpecImpl<Borrowed<T, H, S>> for How<T, H, S> {
    open spec fn obeys_eq_spec() -> bool {
        T::obeys_eq_spec()
    }

    open spec fn eq_spec(&self, other: &Borrowed<T, H, S>) -> bool {
        self.spec_value().eq_spec(&other.value)
    }
}

/// Cross-type agreement: a view and an owning wrapper over equal values
/// hash to the same code, under either slot policy.  This is what lets a
/// view stand in for a wrapper in a lookup.
pub proof fn lemma_view_hash_agrees<T, H: HashAlg<T>, S: HashStorer>(
    w: How<T, H, S>,
    b: Borrowed<T, H, S>,
)
    requires
        w.spec_value() == b.value,
    ensures
        code_of::<T, H, S::HashCode>(w.spec_value()) == code_of::<T, H, S::HashCode>(b.value),
        raw_code_of::<T, H, S::HashCode>(w.spec_value()) == raw_code_of::<T, H, S::HashCode>(
            b.value,
        ),
{
}

} // verus!
