//! The foundational vector capability and the verified reference vector.

use vstd::prelude::*;

verus! {

/// The mathematical view of a fixed-width lane container: its scalar type,
/// its lane sequence, its well-formedness, and its width.
///
/// This is the specification-level face of the vector capability.  It stands
/// apart from `Vector` so that a vector's mask type can be constrained by its
/// view alone, without the constraint cycling through the vector capability
/// itself.
pub trait Lanes {
    /// The scalar type contained by this vector.
    type Scalar: Copy;

    /// The lanes of this vector, in lane order.
    spec fn vals(&self) -> Seq<Self::Scalar>;

    /// Well-formedness: the value really holds `spec_elements()` lanes.
    spec fn inv(&self) -> bool;

    /// The number of lanes of every vector of this type.
    spec fn spec_elements() -> nat;

    /// A well-formed vector holds exactly `spec_elements()` lanes.
    proof fn lemma_inv_len(&self)
        requires
            self.inv(),
        ensures
            self.vals().len() == Self::spec_elements(),
    ;
}

/// A fixed-width parallel container: a value holding exactly
/// `spec_elements()` lanes of one scalar type.
///
/// This is not necessarily a hardware type; any parallel collection with
/// value semantics can satisfy the capability.  `vals` is the mathematical
/// content of a vector — the sequence of its lanes — and `inv` its
/// well-formedness; every operation is specified against them.  The checked
/// accessors `extract` and `insert` demand an in-range lane index as a
/// precondition: a call with `index >= spec_elements()` is rejected when the
/// caller is verified, so an out-of-range access can never execute.
pub trait Vector: Lanes + Sized {
    /// The type that masks this vector: a boolean lane container of this
    /// vector's own width.
    type Mask: Lanes<Scalar = bool>;

    /// The mask type of a vector has the vector's own width.
    proof fn lemma_mask_width()
        ensures
            <Self::Mask as Lanes>::spec_elements() == Self::spec_elements(),
    ;

    /// The number of elements contained by this vector.
    fn elements() -> (n: usize)
        ensures
            n == Self::spec_elements(),
    ;

    /// Create a new vector with every lane set to this scalar.
    fn splat(value: Self::Scalar) -> (r: Self)
        ensures
            r.inv(),
            r.vals() == Seq::new(Self::spec_elements(), |i: int| value),
    ;

    /// Extract the lane at `index`.
    ///
    /// The bound `index < spec_elements()` is this operation's precondition;
    /// there is no in-body check to fall back on, so the caller must have
    /// established it.
    fn extract_unchecked(&self, index: usize) -> (r: Self::Scalar)
        requires
            self.inv(),
            index < Self::spec_elements(),
        ensures
            r == self.vals()[index as int],
    ;

    /// Replace the lane at `index`.
    ///
    /// As with `extract_unchecked`, the index bound is a precondition the
    /// caller must have established.
    fn insert_unchecked(&mut self, index: usize, value: Self::Scalar)
        requires
            old(self).inv(),
            index < Self::spec_elements(),
        ensures
            final(self).inv(),
            final(self).vals() == old(self).vals().update(index as int, value),
    ;

    /// Extract the lane at `index`; an out-of-range index is a precondition
    /// violation and is rejected before the program runs.
    fn extract(&self, index: usize) -> (r: Self::Scalar)
        requires
            self.inv(),
            index < Self::spec_elements(),
        ensures
            r == self.vals()[index as int],
    {
        self.extract_unchecked(index)
    }

    /// Replace the lane at `index`; an out-of-range index is a precondition
    /// violation and is rejected before the program runs.
    fn insert(&mut self, index: usize, value: Self::Scalar)
        requires
            old(self).inv(),
            index < Self::spec_elements(),
        ensures
            final(self).inv(),
            final(self).vals() == old(self).vals().update(index as int, value),
    {
        self.insert_unchecked(index, value)
    }

    /// Create a new vector by selecting conditionally from two vectors.
    ///
    /// For every true lane of `mask`, take the lane of `true_values`,
    /// otherwise the lane of `false_values`.
    fn select(mask: &Self::Mask, true_values: Self, false_values: Self) -> (r: Self)
        requires
            mask.inv(),
            true_values.inv(),
            false_values.inv(),
        ensures
            r.inv(),
            r.vals().len() == Self::spec_elements(),
            forall|i: int|
                0 <= i < Self::spec_elements() ==> r.vals()[i] == (if mask.vals()[i] {
                    true_values.vals()[i]
                } else {
                    false_values.vals()[i]
                }),
    ;
}

/// The reference vector: a software lane container that satisfies every
/// capability of this crate and is verified against all of them.
///
/// The lane storage is exposed so that unverified callers can build a value
/// directly; verified callers always go through the capability operations,
/// whose preconditions demand well-formedness (`inv`).
pub struct SimdVec<T, const N: usize> {
    /// The lanes, in lane order; well-formed values hold exactly `N`.
    pub lanes: Vec<T>,
}

impl<T: Copy, const N: usize> Lanes for SimdVec<T, N> {
    type Scalar = T;

    open spec fn vals(&self) -> Seq<T> {
        self.lanes@
    }

    open spec fn inv(&self) -> bool {
        self.lanes@.len() == N
    }

    open spec fn spec_elements() -> nat {
        N as nat
    }

    proof fn lemma_inv_len(&self) {
    }
}

impl<T: Copy, const N: usize> Vector for SimdVec<T, N> {
    type Mask = SimdVec<bool, N>;

    proof fn lemma_mask_width() {
    }

    fn elements() -> (n: usize) {
        N
    }

    fn splat(value: T) -> (r: SimdVec<T, N>) {
        let mut lanes: Vec<T> = Vec::new();
        let mut i: usize = 0;
        while i < N
            invariant
                i <= N,
                lanes@.len() == i,
                forall|j: int| 0 <= j < i ==> lanes@[j] == value,
            decreases N - i,
        {
            lanes.push(value);
            i = i + 1;
        }
        let r = SimdVec { lanes };
        proof {
            assert(r.vals() =~= Seq::new(N as nat, |i: int| value));
        }
        r
    }

    fn extract_unchecked(&self, index: usize) -> (r: T) {
        self.lanes[index]
    }

    fn insert_unchecked(&mut self, index: usize, value: T) {
        let lane = vstd::std_specs::vec::vec_index_mut(&mut self.lanes, index);
        *lane = value;
    }

    fn select(mask: &SimdVec<bool, N>, true_values: Self, false_values: Self) -> (r: Self) {
        let mut lanes: Vec<T> = Vec::new();
        let mut i: usize = 0;
        while i < N
            invariant
                i <= N,
                mask.inv(),
                true_values.inv(),
                false_values.inv(),
                lanes@.len() == i,
                forall|j: int|
                    0 <= j < i ==> lanes@[j] == (if mask.lanes@[j] {
                        true_values.lanes@[j]
                    } else {
                        false_values.lanes@[j]
                    }),
            decreases N - i,
        {
            let v = if mask.lanes[i] {
                true_values.lanes[i]
            } else {
                false_values.lanes[i]
            };
            lanes.push(v);
            i = i + 1;
        }
        SimdVec { lanes }
    }
}

/// Replacing one lane changes that lane to the written value and no other:
/// reading the written lane returns the value, and reading any other lane
/// returns what was there before.
pub proof fn lemma_write_isolation<T>(s: Seq<T>, i: int, j: int, x: T)
    requires
        0 <= i < s.len(),
        0 <= j < s.len(),
    ensures
        s.update(i, x)[i] == x,
        i != j ==> s.update(i, x)[j] == s[j],
{
}

} // verus!
