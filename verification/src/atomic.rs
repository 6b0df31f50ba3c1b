//! Atomic storage.
//!
//! One optional hash code held in an atomic cell of the matching width.
//! Relaxed ordering suffices for the stored code because it is a
//! deterministic function of a value that cannot change while it may be
//! hashed: concurrent first-time computations can only race to store the
//! same code.  The verified interface reaches every store through an
//! exclusive reference, which is what lets each cell's content be
//! described as a plain value.

use core::sync::atomic::AtomicU16;
use core::sync::atomic::AtomicU32;
use core::sync::atomic::AtomicU64;
use core::sync::atomic::AtomicU8;
use core::sync::atomic::Ordering;

use vstd::prelude::*;

use crate::alg::HashAlg;
use crate::code::FromHash;
use crate::storer::HashStorer;

verus! {

/// The value that an 8-bit atomic cell holds.  The type itself is declared
/// by vstd, which gives its content no model; the trusted wrappers below
/// supply one, sound because this crate reaches every store through an
/// exclusive reference.
pub uninterp spec fn atomic_value_u8(a: AtomicU8) -> u8;

/// The value that a 16-bit atomic cell holds; see [`atomic_value_u8`].
pub uninterp spec fn atomic_value_u16(a: AtomicU16) -> u16;

/// The value that a 32-bit atomic cell holds; see [`atomic_value_u8`].
pub uninterp spec fn atomic_value_u32(a: AtomicU32) -> u32;

/// The value that a 64-bit atomic cell holds; see [`atomic_value_u8`].
pub uninterp spec fn atomic_value_u64(a: AtomicU64) -> u64;

/// Relies on std's `AtomicU8::new`: the cell starts out holding `v`.
#[verifier::external_body]
fn atomic_u8_new(v: u8) -> (r: AtomicU8)
    ensures
        atomic_value_u8(r) == v,
{
    AtomicU8::new(v)
}

/// Relies on std's `AtomicU8::load`.  Every store in this crate goes
/// through an exclusive reference, so a relaxed load returns the value most
/// recently stored.
#[verifier::external_body]
fn atomic_u8_load(a: &AtomicU8) -> (r: u8)
    ensures
        r == atomic_value_u8(*a),
{
    a.load(Ordering::Relaxed)
}

/// Relies on std's `AtomicU8::store` with relaxed ordering: the cell holds
/// `v` afterwards.
#[verifier::external_body]
fn atomic_u8_store(a: &mut AtomicU8, v: u8)
    ensures
        atomic_value_u8(*final(a)) == v,
{
    a.store(v, Ordering::Relaxed)
}

/// Relies on std's `AtomicU16::new`: the cell starts out holding `v`.
#[verifier::external_body]
fn atomic_u16_new(v: u16) -> (r: AtomicU16)
    ensures
        atomic_value_u16(r) == v,
{
    AtomicU16::new(v)
}

/// Relies on std's `AtomicU16::load`; see `atomic_u8_load` for why a
/// relaxed load returns the value most recently stored.
#[verifier::external_body]
fn atomic_u16_load(a: &AtomicU16) -> (r: u16)
    ensures
        r == atomic_value_u16(*a),
{
    a.load(Ordering::Relaxed)
}

/// Relies on std's `AtomicU16::store` with relaxed ordering: the cell
/// holds `v` afterwards.
#[verifier::external_body]
fn atomic_u16_store(a: &mut AtomicU16, v: u16)
    ensures
        atomic_value_u16(*final(a)) == v,
{
    a.store(v, Ordering::Relaxed)
}

/// Relies on std's `AtomicU32::new`: the cell starts out holding `v`.
#[verifier::external_body]
fn atomic_u32_new(v: u32) -> (r: AtomicU32)
    ensures
        atomic_value_u32(r) == v,
{
    AtomicU32::new(v)
}

/// Relies on std's `AtomicU32::load`; see `atomic_u8_load` for why a
/// relaxed load returns the value most recently stored.
#[verifier::external_body]
fn atomic_u32_load(a: &AtomicU32) -> (r: u32)
    ensures
        r == atomic_value_u32(*a),
{
    a.load(Ordering::Relaxed)
}

/// Relies on std's `AtomicU32::store` with relaxed ordering: the cell
/// holds `v` afterwards.
#[verifier::external_body]
fn atomic_u32_store(a: &mut AtomicU32, v: u32)
    ensures
        atomic_value_u32(*final(a)) == v,
{
    a.store(v, Ordering::Relaxed)
}

/// Relies on std's `AtomicU64::new`: the cell starts out holding `v`.
#[verifier::external_body]
fn atomic_u64_new(v: u64) -> (r: AtomicU64)
    ensures
        atomic_value_u64(r) == v,
{
    AtomicU64::new(v)
}

/// Relies on std's `AtomicU64::load`; see `atomic_u8_load` for why a
/// relaxed load returns the value most recently stored.
#[verifier::external_body]
fn atomic_u64_load(a: &AtomicU64) -> (r: u64)
    ensures
        r == atomic_value_u64(*a),
{
    a.load(Ordering::Relaxed)
}

/// Relies on std's `AtomicU64::store` with relaxed ordering: the cell
/// holds `v` afterwards.
#[verifier::external_body]
fn atomic_u64_store(a: &mut AtomicU64, v: u64)
    ensures
        atomic_value_u64(*final(a)) == v,
{
    a.store(v, Ordering::Relaxed)
}

impl HashStorer for AtomicU8 {
    type HashCode = u8;

    open spec fn code(&self) -> Option<u8> {
        if atomic_value_u8(*self) == 0 {
            None
        } else {
            Some(atomic_value_u8(*self))
        }
    }

    open spec fn caches() -> bool {
        true
    }

    proof fn lemma_no_cache(&self) {
    }

    fn fresh() -> (r: Self) {
        atomic_u8_new(0)
    }

    fn clear(&mut self) {
        atomic_u8_store(self, 0);
    }

    fn get(&self) -> (r: Option<u8>) {
        let current = atomic_u8_load(self);
        if current == 0 {
            None
        } else {
            Some(current)
        }
    }

    fn get_or_init<F: FnOnce() -> u8>(&mut self, f: F) -> (r: u8) {
        let current = atomic_u8_load(self);
        if current != 0 {
            return current;
        }
        let mut n = f();
        if n == 0 {
            n = <u8 as FromHash>::zero_mapped();
        }
        atomic_u8_store(self, n);
        n
    }

    fn hash_one<T, H: HashAlg<T>>(value: &T) -> (r: u8) {
        let mut n = <u8 as FromHash>::from_hash(H::hash(value));
        if n == 0 {
            n = <u8 as FromHash>::zero_mapped();
        }
        n
    }
}

impl HashStorer for AtomicU16 {
    type HashCode = u16;

    open spec fn code(&self) -> Option<u16> {
        if atomic_value_u16(*self) == 0 {
            None
        } else {
            Some(atomic_value_u16(*self))
        }
    }

    open spec fn caches() -> bool {
        true
    }

    proof fn lemma_no_cache(&self) {
    }

    fn fresh() -> (r: Self) {
        atomic_u16_new(0)
    }

    fn clear(&mut self) {
        atomic_u16_store(self, 0);
    }

    fn get(&self) -> (r: Option<u16>) {
        let current = atomic_u16_load(self);
        if current == 0 {
            None
        } else {
            Some(current)
        }
    }

    fn get_or_init<F: FnOnce() -> u16>(&mut self, f: F) -> (r: u16) {
        let current = atomic_u16_load(self);
        if current != 0 {
            return current;
        }
        let mut n = f();
        if n == 0 {
            n = <u16 as FromHash>::zero_mapped();
        }
        atomic_u16_store(self, n);
        n
    }

    fn hash_one<T, H: HashAlg<T>>(value: &T) -> (r: u16) {
        let mut n = <u16 as FromHash>::from_hash(H::hash(value));
        if n == 0 {
            n = <u16 as FromHash>::zero_mapped();
        }
        n
    }
}

impl HashStorer for AtomicU32 {
    type HashCode = u32;

    open spec fn code(&self) -> Option<u32> {
        if atomic_value_u32(*self) == 0 {
            None
        } else {
            Some(atomic_value_u32(*self))
        }
    }

    open spec fn caches() -> bool {
        true
    }

    proof fn lemma_no_cache(&self) {
    }

    fn fresh() -> (r: Self) {
        atomic_u32_new(0)
    }

    fn clear(&mut self) {
        atomic_u32_store(self, 0);
    }

    fn get(&self) -> (r: Option<u32>) {
        let current = atomic_u32_load(self);
        if current == 0 {
            None
        } else {
            Some(current)
        }
    }

    fn get_or_init<F: FnOnce() -> u32>(&mut self, f: F) -> (r: u32) {
        let current = atomic_u32_load(self);
        if current != 0 {
            return current;
        }
        let mut n = f();
        if n == 0 {
            n = <u32 as FromHash>::zero_mapped();
        }
        atomic_u32_store(self, n);
        n
    }

    fn hash_one<T, H: HashAlg<T>>(value: &T) -> (r: u32) {
        let mut n = <u32 as FromHash>::from_hash(H::hash(value));
        if n == 0 {
            n = <u32 as FromHash>::zero_mapped();
        }
        n
    }
}

impl HashStorer for AtomicU64 {
    type HashCode = u64;

    open spec fn code(&self) -> Option<u64> {
        if atomic_value_u64(*self) == 0 {
            None
        } else {
            Some(atomic_value_u64(*self))
        }
    }

    open spec fn caches() -> bool {
        true
    }

    proof fn lemma_no_cache(&self) {
    }

    fn fresh() -> (r: Self) {
        atomic_u64_new(0)
    }

    fn clear(&mut self) {
        atomic_u64_store(self, 0);
    }

    fn get(&self) -> (r: Option<u64>) {
        let current = atomic_u64_load(self);
        if current == 0 {
            None
        } else {
            Some(current)
        }
    }

    fn get_or_init<F: FnOnce() -> u64>(&mut self, f: F) -> (r: u64) {
        let current = atomic_u64_load(self);
        if current != 0 {
            return current;
        }
        let mut n = f();
        if n == 0 {
            n = <u64 as FromHash>::zero_mapped();
        }
        atomic_u64_store(self, n);
        n
    }

    fn hash_one<T, H: HashAlg<T>>(value: &T) -> (r: u64) {
        let mut n = <u64 as FromHash>::from_hash(H::hash(value));
        if n == 0 {
            n = <u64 as FromHash>::zero_mapped();
        }
        n
    }
}

} // verus!
