//! The floating-point refinement of the numeric ladder.

use vstd::prelude::*;
use crate::num::Signed;

verus! {

/// A vector of floating-point numbers: a signed numeric vector whose lane
/// kind is a floating-point format.
///
/// The capability deliberately adds no bit-level operations — those belong
/// to `Int` alone — and inherits the reductions from `Num`.  An implementor
/// must pick one rule for lanes that hold a non-numeric value (propagate or
/// ignore) and apply it to both reductions consistently; the scalar kinds
/// shipped with this crate are the integer ones, so the capability is
/// satisfied only by outside lane types.
pub trait Float: Signed {

}

} // verus!
