//! Integer refinements of the numeric ladder: bitwise connectives and
//! shifts.
//!
//! These operations live here rather than on the base `Num` so that
//! floating-point vectors can never gain bit manipulation, while fully
//! generic arithmetic kernels still need only `Num`.

use vstd::prelude::*;
use crate::num::{Num, Signed, Unsigned};
use crate::scalar::{IntKind, ScalarKind, SignedKind, UnsignedKind};
use crate::vector::{Lanes, SimdVec};

verus! {

/// A vector of integer numbers: a numeric vector additionally closed under
/// the lanewise bitwise connectives and the lanewise shifts.
///
/// `s_and` and its companions name the lane kind's own bit-level
/// operations; each vector operation is exactly that scalar operation
/// applied lane by lane.  A shift amount lane must be non-negative and less
/// than the lane's bit width — anything else is a precondition violation.
pub trait Int: Num {
    /// The number of bits in one lane.
    spec fn bits() -> int;

    /// The lane kind's bitwise conjunction.
    spec fn s_and(a: Self::Scalar, b: Self::Scalar) -> Self::Scalar;

    /// The lane kind's bitwise disjunction.
    spec fn s_or(a: Self::Scalar, b: Self::Scalar) -> Self::Scalar;

    /// The lane kind's bitwise exclusive disjunction.
    spec fn s_xor(a: Self::Scalar, b: Self::Scalar) -> Self::Scalar;

    /// The lane kind's left shift.
    spec fn s_shl(a: Self::Scalar, k: Self::Scalar) -> Self::Scalar;

    /// The lane kind's right shift: arithmetic for signed lanes, logical
    /// for unsigned lanes.
    spec fn s_shr(a: Self::Scalar, k: Self::Scalar) -> Self::Scalar;

    /// Lanewise bitwise conjunction.
    fn bitand(self, other: Self) -> (r: Self)
        requires
            self.inv(),
            other.inv(),
        ensures
            r.inv(),
            r.vals().len() == Self::spec_elements(),
            forall|i: int|
                0 <= i < Self::spec_elements() ==> r.vals()[i] == Self::s_and(
                    self.vals()[i],
                    other.vals()[i],
                ),
    ;

    /// Lanewise bitwise disjunction.
    fn bitor(self, other: Self) -> (r: Self)
        requires
            self.inv(),
            other.inv(),
        ensures
            r.inv(),
            r.vals().len() == Self::spec_elements(),
            forall|i: int|
                0 <= i < Self::spec_elements() ==> r.vals()[i] == Self::s_or(
                    self.vals()[i],
                    other.vals()[i],
                ),
    ;

    /// Lanewise bitwise exclusive disjunction.
    fn bitxor(self, other: Self) -> (r: Self)
        requires
            self.inv(),
            other.inv(),
        ensures
            r.inv(),
            r.vals().len() == Self::spec_elements(),
            forall|i: int|
                0 <= i < Self::spec_elements() ==> r.vals()[i] == Self::s_xor(
                    self.vals()[i],
                    other.vals()[i],
                ),
    ;

    /// Lanewise left shift by the matching lane of `amounts`.
    fn shl(self, amounts: Self) -> (r: Self)
        requires
            self.inv(),
            amounts.inv(),
            forall|i: int|
                0 <= i < Self::spec_elements() ==> 0 <= #[trigger] Self::sval(amounts.vals()[i])
                    < Self::bits(),
        ensures
            r.inv(),
            r.vals().len() == Self::spec_elements(),
            forall|i: int|
                0 <= i < Self::spec_elements() ==> r.vals()[i] == Self::s_shl(
                    self.vals()[i],
                    amounts.vals()[i],
                ),
    ;

    /// Lanewise right shift by the matching lane of `amounts`.
    fn shr(self, amounts: Self) -> (r: Self)
        requires
            self.inv(),
            amounts.inv(),
            forall|i: int|
                0 <= i < Self::spec_elements() ==> 0 <= #[trigger] Self::sval(amounts.vals()[i])
                    < Self::bits(),
        ensures
            r.inv(),
            r.vals().len() == Self::spec_elements(),
            forall|i: int|
                0 <= i < Self::spec_elements() ==> r.vals()[i] == Self::s_shr(
                    self.vals()[i],
                    amounts.vals()[i],
                ),
    ;
}

/// A vector of signed integers: integer operations together with negation,
/// whose right shift is the arithmetic (sign-extending) one.
pub trait SignedInt: Int + Signed {

}

/// A vector of unsigned integers: integer operations over a range starting
/// at zero, whose right shift is the logical (zero-filling) one.
pub trait UnsignedInt: Int + Unsigned {

}

impl<T: IntKind, const N: usize> Int for SimdVec<T, N> {
    open spec fn bits() -> int {
        T::bits()
    }

    open spec fn s_and(a: T, b: T) -> T {
        T::s_and(a, b)
    }

    open spec fn s_or(a: T, b: T) -> T {
        T::s_or(a, b)
    }

    open spec fn s_xor(a: T, b: T) -> T {
        T::s_xor(a, b)
    }

    open spec fn s_shl(a: T, k: T) -> T {
        T::s_shl(a, k)
    }

    open spec fn s_shr(a: T, k: T) -> T {
        T::s_shr(a, k)
    }

    fn bitand(self, other: Self) -> (r: Self) {
        let mut lanes: Vec<T> = Vec::new();
        let mut i: usize = 0;
        while i < N
            invariant
                i <= N,
                self.inv(),
                other.inv(),
                lanes@.len() == i,
                forall|j: int|
                    0 <= j < i ==> lanes@[j] == T::s_and(self.lanes@[j], other.lanes@[j]),
            decreases N - i,
        {
            lanes.push(self.lanes[i].and_s(other.lanes[i]));
            i = i + 1;
        }
        SimdVec { lanes }
    }

    fn bitor(self, other: Self) -> (r: Self) {
        let mut lanes: Vec<T> = Vec::new();
        let mut i: usize = 0;
        while i < N
            invariant
                i <= N,
                self.inv(),
                other.inv(),
                lanes@.len() == i,
                forall|j: int| 0 <= j < i ==> lanes@[j] == T::s_or(self.lanes@[j], other.lanes@[j]),
            decreases N - i,
        {
            lanes.push(self.lanes[i].or_s(other.lanes[i]));
            i = i + 1;
        }
        SimdVec { lanes }
    }

    fn bitxor(self, other: Self) -> (r: Self) {
        let mut lanes: Vec<T> = Vec::new();
        let mut i: usize = 0;
        while i < N
            invariant
                i <= N,
                self.inv(),
                other.inv(),
                lanes@.len() == i,
                forall|j: int|
                    0 <= j < i ==> lanes@[j] == T::s_xor(self.lanes@[j], other.lanes@[j]),
            decreases N - i,
        {
            lanes.push(self.lanes[i].xor_s(other.lanes[i]));
            i = i + 1;
        }
        SimdVec { lanes }
    }

    fn shl(self, amounts: Self) -> (r: Self) {
        proof {
            assert forall|j: int| 0 <= j < N implies 0 <= T::sval(#[trigger] amounts.lanes@[j])
                < T::bits() by {
                assert(0 <= Self::sval(amounts.vals()[j]) < Self::bits());
            }
        }
        let mut lanes: Vec<T> = Vec::new();
        let mut i: usize = 0;
        while i < N
            invariant
                i <= N,
                self.inv(),
                amounts.inv(),
                forall|j: int|
                    0 <= j < N ==> 0 <= T::sval(#[trigger] amounts.lanes@[j]) < T::bits(),
                lanes@.len() == i,
                forall|j: int|
                    0 <= j < i ==> lanes@[j] == T::s_shl(self.lanes@[j], amounts.lanes@[j]),
            decreases N - i,
        {
            lanes.push(self.lanes[i].shl_s(amounts.lanes[i]));
            i = i + 1;
        }
        SimdVec { lanes }
    }

    fn shr(self, amounts: Self) -> (r: Self) {
        proof {
            assert forall|j: int| 0 <= j < N implies 0 <= T::sval(#[trigger] amounts.lanes@[j])
                < T::bits() by {
                assert(0 <= Self::sval(amounts.vals()[j]) < Self::bits());
            }
        }
        let mut lanes: Vec<T> = Vec::new();
        let mut i: usize = 0;
        while i < N
            invariant
                i <= N,
                self.inv(),
                amounts.inv(),
                forall|j: int|
                    0 <= j < N ==> 0 <= T::sval(#[trigger] amounts.lanes@[j]) < T::bits(),
                lanes@.len() == i,
                forall|j: int|
                    0 <= j < i ==> lanes@[j] == T::s_shr(self.lanes@[j], amounts.lanes@[j]),
            decreases N - i,
        {
            lanes.push(self.lanes[i].shr_s(amounts.lanes[i]));
            i = i + 1;
        }
        SimdVec { lanes }
    }
}

impl<T: IntKind + SignedKind, const N: usize> SignedInt for SimdVec<T, N> {

}

impl<T: IntKind + UnsignedKind, const N: usize> UnsignedInt for SimdVec<T, N> {

}

} // verus!
