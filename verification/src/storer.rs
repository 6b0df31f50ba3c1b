//! Cache slots.
//!
//! A storer is the pluggable slot that holds an optional hash code for a
//! wrapped value.  A caching slot keeps a computed code until it is
//! explicitly cleared; a non-caching slot recomputes on every request.  The
//! invariant shared by every variant: once a code is present, `get_or_init`
//! returns it unchanged until an explicit `clear`.

use core::marker::PhantomData;

use vstd::prelude::*;

use crate::alg::HashAlg;
use crate::code::code_of;
use crate::code::raw_code_of;
use crate::code::remap_code;
use crate::code::FromHash;

verus! {

/// A slot that stores the cache status of one hash code.
pub trait HashStorer: Sized {
    /// The hash-code width this slot stores.
    type HashCode: FromHash;

    /// The cached code, or `None` while the slot is absent.
    spec fn code(&self) -> Option<Self::HashCode>;

    /// Whether this slot keeps a computed code.  A non-caching slot never
    /// reports a code and never retains one.
    spec fn caches() -> bool;

    /// A non-caching slot is always absent.
    proof fn lemma_no_cache(&self)
        ensures
            !Self::caches() ==> self.code() is None,
    ;

    /// A newly made slot, with no code cached.
    fn fresh() -> (r: Self)
        ensures
            r.code() is None,
    ;

    /// Reset the slot to absent.
    fn clear(&mut self)
        ensures
            final(self).code() is None,
    ;

    /// The cached code, without side effects.
    fn get(&self) -> (r: Option<Self::HashCode>)
        ensures
            r == self.code(),
    ;

    /// Return the cached code if one is present; otherwise invoke `f` once,
    /// remap a zero result to the width's fixed non-zero constant, store the
    /// outcome if this slot caches, and return it.
    fn get_or_init<F: FnOnce() -> Self::HashCode>(&mut self, f: F) -> (r: Self::HashCode)
        requires
            call_requires(f, ()),
        ensures
            old(self).code() matches Some(c) ==> r == c && *final(self) == *old(self),
            old(self).code() is None ==> exists|h: Self::HashCode|
                {
                    &&& #[trigger] call_ensures(f, (), h)
                    &&& r == if Self::caches() {
                        remap_code(h)
                    } else {
                        h
                    }
                    &&& final(self).code() == if Self::caches() {
                        Some(r)
                    } else {
                        None::<Self::HashCode>
                    }
                },
            !Self::caches() ==> *final(self) == *old(self),
    ;

    /// Hash a value transiently through a slot of this kind: a fresh slot is
    /// filled and dropped, so nothing persists.  A caching slot reports the
    /// remapped code, a non-caching slot the raw one.
    fn hash_one<T, H: HashAlg<T>>(value: &T) -> (r: Self::HashCode)
        ensures
            Self::caches() ==> r == code_of::<T, H, Self::HashCode>(*value),
            !Self::caches() ==> r == raw_code_of::<T, H, Self::HashCode>(*value),
    ;
}

/// Single-thread cell storage: one optional code, no synchronization.  The
/// absent state is the width's zero sentinel.
#[derive(Debug)]
pub struct CellStorer<C: FromHash> {
    raw: C,
}

impl<C: FromHash> Clone for CellStorer<C> {
    /// A cloned cell keeps the cached state of the original.
    fn clone(&self) -> (r: Self)
        ensures
            r == *self,
    {
        CellStorer { raw: self.raw }
    }
}

impl<C: FromHash> Default for CellStorer<C> {
    /// A default cell is empty.
    fn default() -> (r: Self)
        ensures
            r.code() is None,
    {
        CellStorer { raw: C::absent() }
    }
}

impl<C: FromHash> HashStorer for CellStorer<C> {
    type HashCode = C;

    closed spec fn code(&self) -> Option<C> {
        if self.raw == C::absent_spec() {
            None
        } else {
            Some(self.raw)
        }
    }

    open spec fn caches() -> bool {
        true
    }

    proof fn lemma_no_cache(&self) {
    }

    fn fresh() -> (r: Self) {
        CellStorer { raw: C::absent() }
    }

    fn clear(&mut self) {
        self.raw = C::absent();
    }

    fn get(&self) -> (r: Option<C>) {
        if self.raw.is_absent() {
            None
        } else {
            Some(self.raw)
        }
    }

    fn get_or_init<F: FnOnce() -> C>(&mut self, f: F) -> (r: C) {
        if !self.raw.is_absent() {
            return self.raw;
        }
        let mut n = f();
        if n.is_absent() {
            n = C::zero_mapped();
        }
        proof {
            C::lemma_zero_mapped_present();
        }
        self.raw = n;
        n
    }

    fn hash_one<T, H: HashAlg<T>>(value: &T) -> (r: C) {
        let mut n = C::from_hash(H::hash(value));
        if n.is_absent() {
            n = C::zero_mapped();
        }
        proof {
            C::lemma_zero_mapped_present();
        }
        n
    }
}

/// Storage that never caches: every request recomputes, just as if no
/// wrapper were present.  The zero remap is tied to storage, so this slot
/// hands a computed code through unchanged: across slot kinds the reported
/// code agrees except for a value whose raw code equals the absent
/// sentinel, where a caching slot reports the remap constant and this one
/// reports the raw zero.
#[derive(Debug, Default, PartialEq, Eq, PartialOrd, Ord)]
pub struct NoneStorer<C = u64>(PhantomData<C>);

impl<C> Clone for NoneStorer<C> {
    fn clone(&self) -> (r: Self)
        ensures
            r == *self,
    {
        NoneStorer(PhantomData)
    }
}

impl<C> Copy for NoneStorer<C> {

}

impl<C: FromHash> HashStorer for NoneStorer<C> {
    type HashCode = C;

    open spec fn code(&self) -> Option<C> {
        None
    }

    open spec fn caches() -> bool {
        false
    }

    proof fn lemma_no_cache(&self) {
    }

    fn fresh() -> (r: Self) {
        NoneStorer(PhantomData)
    }

    fn clear(&mut self) {
    }

    fn get(&self) -> (r: Option<C>) {
        None
    }

    fn get_or_init<F: FnOnce() -> C>(&mut self, f: F) -> (r: C) {
        f()
    }

    fn hash_one<T, H: HashAlg<T>>(value: &T) -> (r: C) {
        C::from_hash(H::hash(value))
    }
}

} // verus!
