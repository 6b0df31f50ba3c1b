//! Hash algorithms.
//!
//! An algorithm is a stateless, deterministic function from a value to a
//! 64-bit code, chosen by a type parameter of the wrapper rather than by a
//! hidden process-wide default.  Determinism is built into the shape of the
//! trait: the executable function must return exactly the value of the
//! specification function, which depends on the value alone.

use core::hash::Hasher;
use std::collections::hash_map::DefaultHasher;

use vstd::prelude::*;
use vstd::std_specs::hash::DefaultHasherAdditionalSpecFns;
use vstd::string::StringSliceAdditionalSpecFns;

verus! {

/// A pluggable, stateless, deterministic hash algorithm from a value of type
/// `T` to a 64-bit code.
pub trait HashAlg<T> {
    /// The code of a value: a function of the value alone.
    spec fn hash_spec(v: T) -> u64;

    fn hash(v: &T) -> (r: u64)
        ensures
            r == Self::hash_spec(*v),
    ;
}

/// The default algorithm: a freshly constructed `DefaultHasher` from std is
/// fed the value's bytes once and finished.  `DefaultHasher::new` seeds no
/// per-process state, so the code depends on the bytes alone.
#[derive(Clone, Copy, Debug)]
pub struct DefaultHashAlg;

impl<'a> HashAlg<&'a str> for DefaultHashAlg {
    open spec fn hash_spec(v: &'a str) -> u64 {
        DefaultHasher::spec_finish(Seq::empty().push(v.spec_bytes()))
    }

    fn hash(v: &&'a str) -> (r: u64) {
        let mut hasher = DefaultHasher::new();
        hasher.write(v.as_bytes());
        hasher.finish()
    }
}

impl HashAlg<String> for DefaultHashAlg {
    open spec fn hash_spec(v: String) -> u64 {
        DefaultHasher::spec_finish(Seq::empty().push(vstd::utf8::encode_utf8(v@)))
    }

    fn hash(v: &String) -> (r: u64) {
        let mut hasher = DefaultHasher::new();
        hasher.write(v.as_str().as_bytes());
        hasher.finish()
    }
}

impl HashAlg<u64> for DefaultHashAlg {
    open spec fn hash_spec(v: u64) -> u64 {
        DefaultHasher::spec_finish(Seq::empty().push(vstd::bytes::spec_u64_to_le_bytes(v)))
    }

    fn hash(v: &u64) -> (r: u64) {
        let mut hasher = DefaultHasher::new();
        let bytes = vstd::bytes::u64_to_le_bytes(*v);
        hasher.write(bytes.as_slice());
        hasher.finish()
    }
}

} // verus!
