//! A memoization layer for hash computation: a value is paired with a cache
//! slot so that an expensive hash function runs at most once while the value
//! is unchanged.  Any mutable access to the value clears the cache first, so
//! a stale code can never be observed.
//!
//! The pieces:
//! - [`FromHash`]: the hash-code widths (8 to 64 bits), each with a reserved
//!   sentinel meaning "no code cached yet" and the remapping that keeps a
//!   computed code distinguishable from that sentinel;
//! - [`HashStorer`]: the pluggable cache slot, with single-thread, atomic,
//!   never-caching and shared (reference-counted, copy-on-write) variants;
//! - [`HashAlg`]: the pluggable, deterministic hash algorithm;
//! - [`How`]: the owning wrapper of one value and one cache slot;
//! - [`Borrowed`]: a reference-like view that hashes and compares the same
//!   way but never owns or touches a persistent cache.

mod alg;
mod atomic;
mod borrowed;
mod code;
mod how;
mod howmap;
mod shared;
mod storer;

pub use alg::DefaultHashAlg;
pub use alg::HashAlg;
pub use atomic::atomic_value_u16;
pub use atomic::atomic_value_u32;
pub use atomic::atomic_value_u64;
pub use atomic::atomic_value_u8;
pub use borrowed::lemma_view_hash_agrees;
pub use borrowed::Borrowed;
pub use code::code_of;
pub use code::raw_code_of;
pub use code::remap_code;
pub use code::FromHash;
pub use how::hash_respects_eq;
pub use how::lemma_code_filter;
pub use how::lemma_equal_codes_equal_values;
pub use how::lemma_eq_shortcut_sound;
pub use how::How;
pub use howmap::HowMap;
pub use storer::CellStorer;
pub use storer::HashStorer;
pub use storer::NoneStorer;
