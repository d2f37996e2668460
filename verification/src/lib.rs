//! Capability traits for generic fixed-width parallel (SIMD-style) numeric
//! computation, together with a verified reference vector type.
//!
//! A numeric kernel is written once against capability bounds (a vector of
//! numbers, a mask, a cast edge, a lane rearrangement) and specializes to any
//! concrete lane width and element kind that satisfies them.  `SimdVec` is the
//! concrete, fully verified implementor of every capability over the closed
//! set of integer scalar kinds.

mod array;
mod mask;
mod select;
mod vector;

pub mod num;
pub mod scalar;
pub mod swizzle;

pub use array::Array;
pub use mask::Mask;
pub use select::Select;
pub use vector::{lemma_write_isolation, Lanes, SimdVec, Vector};
