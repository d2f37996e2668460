//! The mask capability: a vector of booleans closed under the logical
//! connectives, used to drive conditional selection.

use vstd::prelude::*;
use crate::vector::{Lanes, SimdVec, Vector};

verus! {

/// A vector mask: a vector whose lanes are booleans, closed under the
/// lanewise logical connectives.  Every connective is required to be exactly
/// the lanewise boolean operation, and a mask of width `N` selects only
/// between vectors of the same width `N`.
pub trait Mask: Vector + Lanes<Scalar = bool> {
    /// Lanewise logical negation.
    fn not(self) -> (r: Self)
        requires
            self.inv(),
        ensures
            r.inv(),
            r.vals().len() == Self::spec_elements(),
            forall|i: int| 0 <= i < Self::spec_elements() ==> r.vals()[i] == !self.vals()[i],
    ;

    /// Lanewise logical conjunction.
    fn and(self, other: Self) -> (r: Self)
        requires
            self.inv(),
            other.inv(),
        ensures
            r.inv(),
            r.vals().len() == Self::spec_elements(),
            forall|i: int|
                0 <= i < Self::spec_elements() ==> r.vals()[i] == (self.vals()[i]
                    && other.vals()[i]),
    ;

    /// Lanewise logical disjunction.
    fn or(self, other: Self) -> (r: Self)
        requires
            self.inv(),
            other.inv(),
        ensures
            r.inv(),
            r.vals().len() == Self::spec_elements(),
            forall|i: int|
                0 <= i < Self::spec_elements() ==> r.vals()[i] == (self.vals()[i]
                    || other.vals()[i]),
    ;

    /// Lanewise logical exclusive disjunction.
    fn xor(self, other: Self) -> (r: Self)
        requires
            self.inv(),
            other.inv(),
        ensures
            r.inv(),
            r.vals().len() == Self::spec_elements(),
            forall|i: int|
                0 <= i < Self::spec_elements() ==> r.vals()[i] == (self.vals()[i]
                    != other.vals()[i]),
    ;

    /// Conditionally select from two vectors masked by this mask.
    ///
    /// For every true lane, take the lane of `true_values`, otherwise the
    /// lane of `false_values`.  This is a thin forwarding of the vector's
    /// own `select`, and agrees with it lane for lane.
    fn select<V: Vector<Mask = Self>>(&self, true_values: V, false_values: V) -> (r: V)
        requires
            self.inv(),
            true_values.inv(),
            false_values.inv(),
        ensures
            r.inv(),
            r.vals().len() == V::spec_elements(),
            forall|i: int|
                0 <= i < V::spec_elements() ==> r.vals()[i] == (if self.vals()[i] {
                    true_values.vals()[i]
                } else {
                    false_values.vals()[i]
                }),
    {
        V::select(self, true_values, false_values)
    }
}

impl<const N: usize> Mask for SimdVec<bool, N> {
    fn not(self) -> (r: Self) {
        let mut lanes: Vec<bool> = Vec::new();
        let mut i: usize = 0;
        while i < N
            invariant
                i <= N,
                self.inv(),
                lanes@.len() == i,
                forall|j: int| 0 <= j < i ==> lanes@[j] == !self.lanes@[j],
            decreases N - i,
        {
            lanes.push(!self.lanes[i]);
            i = i + 1;
        }
        SimdVec { lanes }
    }

    fn and(self, other: Self) -> (r: Self) {
        let mut lanes: Vec<bool> = Vec::new();
        let mut i: usize = 0;
        while i < N
            invariant
                i <= N,
                self.inv(),
                other.inv(),
                lanes@.len() == i,
                forall|j: int| 0 <= j < i ==> lanes@[j] == (self.lanes@[j] && other.lanes@[j]),
            decreases N - i,
        {
            lanes.push(self.lanes[i] && other.lanes[i]);
            i = i + 1;
        }
        SimdVec { lanes }
    }

    fn or(self, other: Self) -> (r: Self) {
        let mut lanes: Vec<bool> = Vec::new();
        let mut i: usize = 0;
        while i < N
            invariant
                i <= N,
                self.inv(),
                other.inv(),
                lanes@.len() == i,
                forall|j: int| 0 <= j < i ==> lanes@[j] == (self.lanes@[j] || other.lanes@[j]),
            decreases N - i,
        {
            lanes.push(self.lanes[i] || other.lanes[i]);
            i = i + 1;
        }
        SimdVec { lanes }
    }

    fn xor(self, other: Self) -> (r: Self) {
        let mut lanes: Vec<bool> = Vec::new();
        let mut i: usize = 0;
        while i < N
            invariant
                i <= N,
                self.inv(),
                other.inv(),
                lanes@.len() == i,
                forall|j: int| 0 <= j < i ==> lanes@[j] == (self.lanes@[j] != other.lanes@[j]),
            decreases N - i,
        {
            lanes.push(self.lanes[i] != other.lanes[i]);
            i = i + 1;
        }
        SimdVec { lanes }
    }
}

} // verus!
