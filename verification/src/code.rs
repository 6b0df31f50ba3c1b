//! Hash-code widths.
//!
//! A cache slot stores a fixed-width unsigned integer, with the value zero
//! reserved to mean "no code cached yet".  A computed hash that happens to
//! equal zero is remapped to a fixed non-zero constant before storage, so
//! that absence stays distinguishable without an extra flag.

use vstd::prelude::*;

use crate::alg::HashAlg;

verus! {

/// A hash-code width: a fixed-width unsigned integer obtained by truncating
/// a 64-bit hash, with a reserved absent sentinel (zero) and the constant
/// that a computed zero is remapped to.
pub trait FromHash: Sized + Copy {
    /// The sentinel stored while no code is cached.
    spec fn absent_spec() -> Self;

    /// The constant that stands in for a computed code of zero.
    spec fn zero_mapped_spec() -> Self;

    /// The code that a 64-bit hash truncates to.
    spec fn from_hash_spec(hash_code: u64) -> Self;

    /// The remap constant never collides with the absent sentinel.
    proof fn lemma_zero_mapped_present()
        ensures
            Self::zero_mapped_spec() != Self::absent_spec(),
    ;

    fn absent() -> (r: Self)
        ensures
            r == Self::absent_spec(),
    ;

    fn zero_mapped() -> (r: Self)
        ensures
            r == Self::zero_mapped_spec(),
    ;

    fn from_hash(hash_code: u64) -> (r: Self)
        ensures
            r == Self::from_hash_spec(hash_code),
    ;

    fn is_absent(&self) -> (r: bool)
        ensures
            r == (*self == Self::absent_spec()),
    ;

    fn eq_code(&self, other: &Self) -> (r: bool)
        ensures
            r == (*self == *other),
    ;
}

/// The code under which a computed hash is stored: zero is remapped to the
/// width's fixed non-zero constant, every other code is kept as it is.
pub open spec fn remap_code<C: FromHash>(c: C) -> C {
    if c == C::absent_spec() {
        C::zero_mapped_spec()
    } else {
        c
    }
}

/// The raw (unremapped) code of a value under algorithm `H` at width `C`.
pub open spec fn raw_code_of<T, H: HashAlg<T>, C: FromHash>(v: T) -> C {
    C::from_hash_spec(H::hash_spec(v))
}

/// The code that a caching slot stores for a value under algorithm `H` at
/// width `C`.
pub open spec fn code_of<T, H: HashAlg<T>, C: FromHash>(v: T) -> C {
    remap_code(raw_code_of::<T, H, C>(v))
}

impl FromHash for u8 {
    open spec fn absent_spec() -> u8 {
        0u8
    }

    open spec fn zero_mapped_spec() -> u8 {
        0x3f
    }

    open spec fn from_hash_spec(hash_code: u64) -> u8 {
        hash_code as u8
    }

    proof fn lemma_zero_mapped_present() {
    }

    fn absent() -> u8 {
        0
    }

    fn zero_mapped() -> u8 {
        0x3f
    }

    fn from_hash(hash_code: u64) -> u8 {
        hash_code as u8
    }

    fn is_absent(&self) -> bool {
        *self == 0
    }

    fn eq_code(&self, other: &u8) -> bool {
        *self == *other
    }
}

impl FromHash for u16 {
    open spec fn absent_spec() -> u16 {
        0u16
    }

    open spec fn zero_mapped_spec() -> u16 {
        0x3fff
    }

    open spec fn from_hash_spec(hash_code: u64) -> u16 {
        hash_code as u16
    }

    proof fn lemma_zero_mapped_present() {
    }

    fn absent() -> u16 {
        0
    }

    fn zero_mapped() -> u16 {
        0x3fff
    }

    fn from_hash(hash_code: u64) -> u16 {
        hash_code as u16
    }

    fn is_absent(&self) -> bool {
        *self == 0
    }

    fn eq_code(&self, other: &u16) -> bool {
        *self == *other
    }
}

impl FromHash for u32 {
    open spec fn absent_spec() -> u32 {
        0u32
    }

    open spec fn zero_mapped_spec() -> u32 {
        0x3fff_ffff
    }

    open spec fn from_hash_spec(hash_code: u64) -> u32 {
        hash_code as u32
    }

    proof fn lemma_zero_mapped_present() {
    }

    fn absent() -> u32 {
        0
    }

    fn zero_mapped() -> u32 {
        0x3fff_ffff
    }

    fn from_hash(hash_code: u64) -> u32 {
        hash_code as u32
    }

    fn is_absent(&self) -> bool {
        *self == 0
    }

    fn eq_code(&self, other: &u32) -> bool {
        *self == *other
    }
}

impl FromHash for u64 {
    open spec fn absent_spec() -> u64 {
        0u64
    }

    open spec fn zero_mapped_spec() -> u64 {
        0x3fff_ffff_ffff_ffff
    }

    open spec fn from_hash_spec(hash_code: u64) -> u64 {
        hash_code
    }

    proof fn lemma_zero_mapped_present() {
    }

    fn absent() -> u64 {
        0
    }

    fn zero_mapped() -> u64 {
        0x3fff_ffff_ffff_ffff
    }

    fn from_hash(hash_code: u64) -> u64 {
        hash_code
    }

    fn is_absent(&self) -> bool {
        *self == 0
    }

    fn eq_code(&self, other: &u64) -> bool {
        *self == *other
    }
}

} // verus!
