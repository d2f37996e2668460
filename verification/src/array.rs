//! The array facade: vectors whose lanes are exposed as a contiguous
//! scalar sequence.

use vstd::prelude::*;
use crate::vector::{Lanes, SimdVec, Vector};

verus! {

/// A vector whose storage can be viewed as a plain, densely packed sequence
/// of its scalars in lane order.  The capability exists so that generic code
/// can interoperate with scalar-sequence algorithms — bulk loads and stores —
/// without per-lane extraction.
pub trait Array: Vector {
    /// Borrow the lanes as a contiguous slice, in lane order.
    fn as_slice(&self) -> (r: &[Self::Scalar])
        requires
            self.inv(),
        ensures
            r@ == self.vals(),
    ;

    /// Bulk-load a vector from a slice of exactly `spec_elements()` scalars.
    fn from_slice(values: &[Self::Scalar]) -> (r: Self)
        requires
            values@.len() == Self::spec_elements(),
        ensures
            r.inv(),
            r.vals() == values@,
    ;

    /// Bulk-store: overwrite every lane from a slice of exactly
    /// `spec_elements()` scalars.
    fn store_from_slice(&mut self, values: &[Self::Scalar])
        requires
            old(self).inv(),
            values@.len() == Self::spec_elements(),
        ensures
            final(self).inv(),
            final(self).vals() == values@,
    ;
}

impl<T: Copy, const N: usize> Array for SimdVec<T, N> {
    fn as_slice(&self) -> (r: &[T]) {
        self.lanes.as_slice()
    }

    fn from_slice(values: &[T]) -> (r: Self) {
        let mut lanes: Vec<T> = Vec::new();
        let mut i: usize = 0;
        while i < N
            invariant
                i <= N,
                values@.len() == N,
                lanes@.len() == i,
                forall|j: int| 0 <= j < i ==> lanes@[j] == values@[j],
            decreases N - i,
        {
            lanes.push(values[i]);
            i = i + 1;
        }
        let r = SimdVec { lanes };
        proof {
            assert(r.vals() =~= values@);
        }
        r
    }

    fn store_from_slice(&mut self, values: &[T]) {
        let r = Self::from_slice(values);
        self.lanes = r.lanes;
    }
}

} // verus!
