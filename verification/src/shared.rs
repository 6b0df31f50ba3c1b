//! Shared passthrough storage.
//!
//! A reference-counted handle to another storer is itself a storer: reads
//! delegate to the pointee, and the two mutating operations apply a
//! copy-on-write rule so that no write ever reaches a pointee that another
//! handle still holds.  Clearing a sole owner clears in place; clearing a
//! shared handle replaces the pointer with a freshly made slot, leaving the
//! siblings' caches untouched.
//!
//! Population forks in the same way, and that is a deliberate narrowing of
//! the usual shared-slot design.  A passthrough slot is often built so that
//! the first computation writes through the shared pointee and every
//! sibling sees the code from then on.  Such a write goes through a shared
//! reference, and no sound contract for it exists in this crate's model,
//! which reads a slot's content as a function of the slot's value; a write
//! behind a shared reference would falsify that reading.  So `get_or_init`
//! on a shared handle whose pointee is empty computes on a private fork:
//! each handle caches only what it computed itself.  What is given up is a
//! sibling's reuse of a code it did not compute; nothing else changes,
//! since codes are deterministic and the fork receives exactly the code
//! the shared pointee would have received.

use std::rc::Rc;
use std::sync::Arc;

use vstd::prelude::*;

use crate::alg::HashAlg;
use crate::storer::HashStorer;

verus! {

/// Relies on std's `Rc::get_mut`, which returns a mutable reference exactly
/// when this handle is the sole owner of the pointee; the reference then
/// leads to the value this handle reads.
#[verifier::external_body]
fn rc_get_mut<T>(rc: &mut Rc<T>) -> (r: Option<&mut T>)
    ensures
        match r {
            Some(m) => *m == *old(rc) && *final(rc) == *final(m),
            None => *final(rc) == *old(rc),
        },
{
    Rc::get_mut(rc)
}

/// Relies on std's `Arc::get_mut`, which returns a mutable reference exactly
/// when this handle is the sole owner of the pointee; the reference then
/// leads to the value this handle reads.
#[verifier::external_body]
fn arc_get_mut<T>(arc: &mut Arc<T>) -> (r: Option<&mut T>)
    ensures
        match r {
            Some(m) => *m == *old(arc) && *final(arc) == *final(m),
            None => *final(arc) == *old(arc),
        },
{
    Arc::get_mut(arc)
}

impl<S: HashStorer> HashStorer for Rc<S> {
    type HashCode = S::HashCode;

    open spec fn code(&self) -> Option<S::HashCode> {
        (**self).code()
    }

    open spec fn caches() -> bool {
        S::caches()
    }

    proof fn lemma_no_cache(&self) {
        (**self).lemma_no_cache();
    }

    fn fresh() -> (r: Self) {
        Rc::new(S::fresh())
    }

    fn clear(&mut self) {
        match rc_get_mut(self) {
            Some(pointee) => pointee.clear(),
            None => {
                *self = Rc::new(S::fresh());
            },
        }
    }

    fn get(&self) -> (r: Option<S::HashCode>) {
        (**self).get()
    }

    fn get_or_init<F: FnOnce() -> S::HashCode>(&mut self, f: F) -> (r: S::HashCode) {
        match rc_get_mut(self) {
            Some(pointee) => pointee.get_or_init(f),
            None => {
                let code = (**self).get();
                match code {
                    Some(c) => c,
                    None => {
                        let mut forked = S::fresh();
                        let r = forked.get_or_init(f);
                        if forked.get().is_some() {
                            *self = Rc::new(forked);
                        }
                        r
                    },
                }
            },
        }
    }

    fn hash_one<T, H: HashAlg<T>>(value: &T) -> (r: S::HashCode) {
        S::hash_one::<T, H>(value)
    }
}

impl<S: HashStorer> HashStorer for Arc<S> {
    type HashCode = S::HashCode;

    open spec fn code(&self) -> Option<S::HashCode> {
        (**self).code()
    }

    open spec fn caches() -> bool {
        S::caches()
    }

    proof fn lemma_no_cache(&self) {
        (**self).lemma_no_cache();
    }

    fn fresh() -> (r: Self) {
        Arc::new(S::fresh())
    }

    fn clear(&mut self) {
        match arc_get_mut(self) {
            Some(pointee) => pointee.clear(),
            None => {
                *self = Arc::new(S::fresh());
            },
        }
    }

    fn get(&self) -> (r: Option<S::HashCode>) {
        (**self).get()
    }

    fn get_or_init<F: FnOnce() -> S::HashCode>(&mut self, f: F) -> (r: S::HashCode) {
        match arc_get_mut(self) {
            Some(pointee) => pointee.get_or_init(f),
            None => {
                let code = (**self).get();
                match code {
                    Some(c) => c,
                    None => {
                        let mut forked = S::fresh();
                        let r = forked.get_or_init(f);
                        if forked.get().is_some() {
                            *self = Arc::new(forked);
                        }
                        r
                    },
                }
            },
        }
    }

    fn hash_one<T, H: HashAlg<T>>(value: &T) -> (r: S::HashCode) {
        S::hash_one::<T, H>(value)
    }
}

} // verus!
