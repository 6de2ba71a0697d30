//! A generator of stable-identifier capability bundles.
//!
//! Given the structural description of a newtype wrapper that carries a
//! single unsigned integer, the crate validates the wrapper's shape and
//! emits the fixed family of capability implementations (default, successor,
//! predecessor, maximum sentinel, index casts, projection, equality,
//! ordering, hashing, duplication) that make the wrapper usable as a stable
//! identifier. The semantics promised of each emitted capability are modeled
//! and proved in [`value`].

pub mod emit;
pub mod shape;
pub mod value;

pub use emit::derive_stable_id;
