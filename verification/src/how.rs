//! The owning wrapper.
//!
//! A `How` owns one value and one cache slot.  Reading the value is free;
//! the only mutable access route clears the cache first, so a cached code
//! can never outlive the value it was computed from.  Equality may consult
//! the two cached codes as a pre-filter: two present codes that differ
//! decide "unequal" without comparing the values at all.

use core::cmp::Ordering;
use core::marker::PhantomData;

use vstd::prelude::*;
use vstd::std_specs::cmp::PartialEqSpec;
use vstd::std_specs::cmp::PartialOrdSpec;

use crate::alg::DefaultHashAlg;
use crate::alg::HashAlg;
use crate::code::code_of;
use crate::code::raw_code_of;
use crate::code::FromHash;
use crate::storer::CellStorer;
use crate::storer::HashStorer;

verus! {

/// A value paired with a cache slot for its hash code.  `H` picks the hash
/// algorithm, `S` the slot kind; neither adds run-time state beyond the
/// slot itself.
#[derive(Debug)]
pub struct How<T, H = DefaultHashAlg, S = CellStorer<u64>> {
    hasher: PhantomData<H>,
    hashcode: S,
    value: T,
}

impl<T, H, S: HashStorer> How<T, H, S> {
    /// The cache slot itself, as a value.
    pub closed spec fn spec_storer(&self) -> S {
        self.hashcode
    }

    /// The cached code, or `None` while the cache is empty.
    pub open spec fn spec_code(&self) -> Option<S::HashCode> {
        self.spec_storer().code()
    }

    /// The wrapped value.
    pub closed spec fn spec_value(&self) -> T {
        self.value
    }

    /// Wrap a value; the cache starts out empty.
    pub fn new(value: T) -> (r: Self)
        ensures
            r.spec_value() == value,
            r.spec_code() is None,
    {
        How { hasher: PhantomData, hashcode: S::fresh(), value }
    }

    /// Consume the wrapper and return the owned value, discarding the slot.
    pub fn into_inner(this: Self) -> (r: T)
        ensures
            r == this.spec_value(),
    {
        this.value
    }

    /// Exclusive access to the value.  The cache is cleared first,
    /// unconditionally: whether anything is written through the returned
    /// reference, the wrapper afterwards reports no cached code.
    pub fn make_mut(this: &mut Self) -> (r: &mut T)
        ensures
            *r == old(this).spec_value(),
            final(this).spec_value() == *final(r),
            final(this).spec_code() is None,
    {
        this.hashcode.clear();
        &mut this.value
    }

    /// Read-only access to the value; no side effects.
    pub fn value(this: &Self) -> (r: &T)
        ensures
            *r == this.spec_value(),
    {
        &this.value
    }

    /// The cached code, without computing anything.
    pub fn hash_code(this: &Self) -> (r: Option<S::HashCode>)
        ensures
            r == this.spec_code(),
    {
        this.hashcode.get()
    }

    /// Whether a code is cached, like `How::hash_code(&value).is_some()`.
    pub fn is_hashed(this: &Self) -> (r: bool)
        ensures
            r == (this.spec_code() is Some),
    {
        How::hash_code(this).is_some()
    }

    /// A cached code can only come from a slot kind that caches.
    pub proof fn lemma_code_needs_caching(&self)
        ensures
            self.spec_code() is Some ==> S::caches(),
    {
        self.hashcode.lemma_no_cache();
    }
}

impl<T> How<T> {
    /// Wrap a value with the default algorithm and a single-thread 64-bit
    /// cell; the cache starts out empty.
    pub fn new_default(value: T) -> (r: Self)
        ensures
            r.spec_value() == value,
            r.spec_code() is None,
    {
        How { hasher: PhantomData, hashcode: <CellStorer<u64> as HashStorer>::fresh(), value }
    }
}

impl<T, H: HashAlg<T>, S: HashStorer> How<T, H, S> {
    /// Well-formed: a cached code, when present, is the wrapped value's own
    /// code under `H`.  Construction establishes this and every operation
    /// preserves it.
    pub open spec fn wf(&self) -> bool {
        self.spec_code() matches Some(c) ==> c == code_of::<T, H, S::HashCode>(self.spec_value())
    }

    /// Return the cached code, computing and caching it first if the cache
    /// is empty.  A second call returns the same code and changes nothing.
    /// A non-caching slot computes the raw code every time and stays empty.
    pub fn make_hash(this: &mut Self) -> (r: S::HashCode)
        ensures
            final(this).spec_value() == old(this).spec_value(),
            old(this).spec_code() matches Some(c) ==> r == c && *final(this) == *old(this),
            old(this).spec_code() is None && S::caches() ==> {
                &&& r == code_of::<T, H, S::HashCode>(old(this).spec_value())
                &&& final(this).spec_code() == Some(r)
            },
            old(this).spec_code() is None && !S::caches() ==> {
                &&& r == raw_code_of::<T, H, S::HashCode>(old(this).spec_value())
                &&& final(this).spec_code() is None
            },
            old(this).wf() ==> final(this).wf(),
            old(this).wf() && S::caches() ==> r == code_of::<T, H, S::HashCode>(
                old(this).spec_value(),
            ),
    {
        let ghost target: S::HashCode = raw_code_of::<T, H, S::HashCode>(this.value);
        let value_ref = &this.value;
        let compute = || -> (c: S::HashCode)
            ensures
                c == target,
            {
                <S::HashCode as FromHash>::from_hash(H::hash(value_ref))
            };
        this.hashcode.get_or_init(compute)
    }
}

impl<T: Default, H, S: HashStorer> Default for How<T, H, S> {
    /// A wrapper of the value type's default, with an empty cache.
    fn default() -> (r: Self)
        ensures
            r.spec_code() is None,
            call_ensures(T::default, (), r.spec_value()),
    {
        How::new(T::default())
    }
}

impl<T, H, S: HashStorer> From<T> for How<T, H, S> {
    /// Wrapping a bare value always starts with an empty cache.
    fn from(value: T) -> (r: Self)
        ensures
            r.spec_value() == value,
            r.spec_code() is None,
    {
        How::new(value)
    }
}

impl<T, H, S: HashStorer> vstd::std_specs::convert::FromSpecImpl<T> for How<T, H, S> {
    /// The conversion's exact result is not a function of the value alone:
    /// a fresh slot need not be (for a shared slot, it allocates).  The
    /// conversion's contract stands in the `ensures` of `from` instead.
    open spec fn obeys_from_spec() -> bool {
        false
    }

    open spec fn from_spec(v: T) -> Self {
        choose|h: Self| h.spec_value() == v && h.spec_code() is None
    }
}

impl<T: Clone, H, S: HashStorer + Clone> Clone for How<T, H, S> {
    /// The clone's value is a clone of the value and its slot a clone of
    /// the slot: a populated cache is carried over (or, for a shared slot,
    /// shared), never dropped.  Where the slot's own clone is exact, as the
    /// cell slot's is, the clone reports the same cached code.
    fn clone(&self) -> (r: Self)
        ensures
            cloned::<T>(self.spec_value(), r.spec_value()),
            cloned::<S>(self.spec_storer(), r.spec_storer()),
    {
        How { hasher: PhantomData, hashcode: self.hashcode.clone(), value: self.value.clone() }
    }
}

impl<T: PartialEq, H, S: HashStorer> PartialEq for How<T, H, S> {
    /// Equality with the cache shortcut: two present codes that differ
    /// decide "unequal" without comparing the values; in every other case
    /// the values decide.
    fn eq(&self, other: &Self) -> (r: bool) {
        let shortcut = match (self.hashcode.get(), other.hashcode.get()) {
            (Some(a), Some(b)) => a.eq_code(&b),
            _ => true,
        };
        shortcut && self.value == other.value
    }
}

impl<T: PartialEq, H, S: HashStorer> vstd::std_specs::cmp::PartialEqSpecImpl for How<T, H, S> {
    open spec fn obeys_eq_spec() -> bool {
        T::obeys_eq_spec()
    }

    open spec fn eq_spec(&self, other: &Self) -> bool {
        &&& match (self.spec_code(), other.spec_code()) {
            (Some(a), Some(b)) => a == b,
            _ => true,
        }
        &&& self.spec_value().eq_spec(&other.spec_value())
    }
}

impl<T: PartialEq + Eq, H, S: HashStorer> Eq for How<T, H, S> {

}

impl<T: PartialEq, H, S: HashStorer> PartialEq<T> for How<T, H, S> {
    /// A wrapper equals a bare value exactly when the values are equal; a
    /// bare value has no cache, so no shortcut applies.
    fn eq(&self, other: &T) -> (r: bool) {
        self.value == *other
    }
}

impl<T: PartialEq, H, S: HashStorer> vstd::std_specs::cmp::PartialEqSpecImpl<T> for How<T, H, S> {
    open spec fn obeys_eq_spec() -> bool {
        T::obeys_eq_spec()
    }

    open spec fn eq_spec(&self, other: &T) -> bool {
        self.spec_value().eq_spec(other)
    }
}

impl<T: PartialOrd, H, S: HashStorer> PartialOrd for How<T, H, S> {
    /// Ordering always falls through to the values: cached codes imply no
    /// order.
    fn partial_cmp(&self, other: &Self) -> (r: Option<Ordering>) {
        self.value.partial_cmp(&other.value)
    }
}

impl<T: PartialOrd, H, S: HashStorer> vstd::std_specs::cmp::PartialOrdSpecImpl for How<T, H, S> {
    open spec fn obeys_partial_cmp_spec() -> bool {
        T::obeys_partial_cmp_spec()
    }

    open spec fn partial_cmp_spec(&self, other: &Self) -> Option<Ordering> {
        self.spec_value().partial_cmp_spec(&other.spec_value())
    }
}

impl<T: PartialOrd, H, S: HashStorer> PartialOrd<T> for How<T, H, S> {
    /// A wrapper orders against a bare value by the values alone.
    fn partial_cmp(&self, other: &T) -> (r: Option<Ordering>) {
        self.value.partial_cmp(other)
    }
}

impl<T: PartialOrd, H, S: HashStorer> vstd::std_specs::cmp::PartialOrdSpecImpl<T> for How<T, H, S> {
    open spec fn obeys_partial_cmp_spec() -> bool {
        T::obeys_partial_cmp_spec()
    }

    open spec fn partial_cmp_spec(&self, other: &T) -> Option<Ordering> {
        self.spec_value().partial_cmp_spec(other)
    }
}

/// The contract that makes the equality shortcut sound, and that this layer
/// cannot enforce: the algorithm must give equal codes to values the value
/// type's own equality considers equal.
pub open spec fn hash_respects_eq<T: PartialEq, H: HashAlg<T>>() -> bool {
    forall|a: T, b: T| #[trigger] a.eq_spec(&b) ==> H::hash_spec(a) == H::hash_spec(b)
}

/// Two wrappers over equal values whose caches hold equal codes compare
/// equal: the code pre-filter lets them through and the values decide.
pub proof fn lemma_equal_codes_equal_values<T: PartialEq, H: HashAlg<T>, S: HashStorer>(
    a: How<T, H, S>,
    b: How<T, H, S>,
)
    requires
        a.spec_code() is Some,
        a.spec_code() == b.spec_code(),
        a.spec_value().eq_spec(&b.spec_value()),
    ensures
        a.eq_spec(&b),
{
}

/// Two present codes that differ decide "unequal" with no appeal to the
/// values at all.
pub proof fn lemma_code_filter<T: PartialEq, H: HashAlg<T>, S: HashStorer>(
    a: How<T, H, S>,
    b: How<T, H, S>,
)
    requires
        a.spec_code() is Some,
        b.spec_code() is Some,
        a.spec_code() != b.spec_code(),
    ensures
        !a.eq_spec(&b),
{
}

/// On well-formed wrappers, shortcut equality coincides with the values'
/// own equality whenever the algorithm respects it: equal values cannot be
/// told apart by their codes, and unequal codes only ever belong to unequal
/// values.
pub proof fn lemma_eq_shortcut_sound<T: PartialEq, H: HashAlg<T>, S: HashStorer>(
    a: How<T, H, S>,
    b: How<T, H, S>,
)
    requires
        a.wf(),
        b.wf(),
        hash_respects_eq::<T, H>(),
    ensures
        a.eq_spec(&b) == a.spec_value().eq_spec(&b.spec_value()),
{
    if a.spec_value().eq_spec(&b.spec_value()) {
        assert(H::hash_spec(a.spec_value()) == H::hash_spec(b.spec_value()));
    }
}

} // verus!
