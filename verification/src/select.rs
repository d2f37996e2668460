//! The standalone select capability: a mask choosing between two vectors of
//! any type that shares its lane count.

use vstd::prelude::*;
use crate::mask::Mask;
use crate::vector::{Lanes, SimdVec, Vector};

verus! {

/// The capability "this mask can choose between two values of vector type
/// `V`".
///
/// Keeping selection apart from the mask capability lets one mask type drive
/// selection over several unrelated vector shapes that merely share its lane
/// count, without those vector types naming the mask in their own
/// definitions.  The width compatibility is therefore a precondition here
/// rather than a consequence of the types.
pub trait Select<V: Vector>: Mask {
    /// For every true lane of this mask, take the lane of `true_values`,
    /// otherwise the lane of `false_values`.
    fn select(&self, true_values: V, false_values: V) -> (r: V)
        requires
            self.inv(),
            true_values.inv(),
            false_values.inv(),
            V::spec_elements() == Self::spec_elements(),
        ensures
            r.inv(),
            r.vals().len() == V::spec_elements(),
            forall|i: int|
                0 <= i < V::spec_elements() ==> r.vals()[i] == (if self.vals()[i] {
                    true_values.vals()[i]
                } else {
                    false_values.vals()[i]
                }),
    ;
}

impl<T: Copy, const N: usize> Select<SimdVec<T, N>> for SimdVec<bool, N> {
    fn select(&self, true_values: SimdVec<T, N>, false_values: SimdVec<T, N>) -> (r: SimdVec<
        T,
        N,
    >) {
        <SimdVec<T, N> as Vector>::select(self, true_values, false_values)
    }
}

} // verus!
