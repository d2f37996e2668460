//! Numeric capability ladder for generic vector mathematics.
//!
//! `Num` is the base: lanewise ring arithmetic with wrapping semantics, the
//! two identities, and the max/min reductions.  `Signed` adds lanewise
//! negation, `Unsigned` excludes it; the integer refinements live in
//! `num::int`, the floating refinement in `num::float`, and the cast edges in
//! `num::cast`.

mod float;
mod integer;

pub mod cast;

use vstd::prelude::*;
use crate::scalar::{
    in_range, lemma_wrap_id, trunc_div, trunc_rem, wrap_val, ScalarKind, SignedKind, UnsignedKind,
};
use crate::vector::{Lanes, SimdVec, Vector};

pub use float::Float;
pub use integer::{Int, SignedInt, UnsignedInt};

verus! {

/// The greatest lane value of `s`, found by a linear scan from the first
/// lane: each step keeps the earlier value unless the later lane's value is
/// strictly greater.
pub open spec fn scan_max<V: Num>(s: Seq<V::Scalar>) -> V::Scalar
    recommends
        s.len() >= 1,
    decreases s.len(),
{
    if s.len() <= 1 {
        s[0]
    } else {
        let m = scan_max::<V>(s.drop_last());
        if V::sval(s.last()) > V::sval(m) {
            s.last()
        } else {
            m
        }
    }
}

/// The least lane value of `s`, by the same linear scan as `scan_max`.
pub open spec fn scan_min<V: Num>(s: Seq<V::Scalar>) -> V::Scalar
    recommends
        s.len() >= 1,
    decreases s.len(),
{
    if s.len() <= 1 {
        s[0]
    } else {
        let m = scan_min::<V>(s.drop_last());
        if V::sval(s.last()) < V::sval(m) {
            s.last()
        } else {
            m
        }
    }
}

/// A vector of numbers: a vector closed under lanewise addition,
/// subtraction, multiplication, division and remainder, with the additive
/// and multiplicative identities and the max/min reductions.
///
/// Lane values are modelled by `sval`, the mathematical value of a scalar;
/// addition, subtraction and multiplication wrap into the kind's range
/// (two's-complement behaviour), while division and remainder truncate
/// toward zero and demand non-zero, non-overflowing divisors as a
/// precondition — a zero divisor lane is a fatal condition, not an error
/// value.
pub trait Num: Vector {
    /// The mathematical value of one scalar of this vector.
    spec fn sval(s: Self::Scalar) -> int;

    /// The least value a lane can hold.
    spec fn min_val() -> int;

    /// The greatest value a lane can hold.
    spec fn max_val() -> int;

    /// The lane range is non-degenerate and holds both identities.
    proof fn lemma_num_range()
        ensures
            Self::min_val() <= 0,
            1 <= Self::max_val(),
    ;

    /// Every lane value lies in the lane range.
    proof fn lemma_scalar_range(s: Self::Scalar)
        ensures
            in_range(Self::sval(s), Self::min_val(), Self::max_val()),
    ;

    /// A scalar is determined by its value.
    proof fn lemma_scalar_injective(a: Self::Scalar, b: Self::Scalar)
        requires
            Self::sval(a) == Self::sval(b),
        ensures
            a == b,
    ;

    /// The additive identity: every lane holds the value zero.
    fn zero() -> (r: Self)
        ensures
            r.inv(),
            r.vals().len() == Self::spec_elements(),
            forall|i: int| 0 <= i < Self::spec_elements() ==> Self::sval(r.vals()[i]) == 0,
    ;

    /// The multiplicative identity: every lane holds the value one.
    fn one() -> (r: Self)
        ensures
            r.inv(),
            r.vals().len() == Self::spec_elements(),
            forall|i: int| 0 <= i < Self::spec_elements() ==> Self::sval(r.vals()[i]) == 1,
    ;

    /// Lanewise wrapping addition.
    fn add(self, other: Self) -> (r: Self)
        requires
            self.inv(),
            other.inv(),
        ensures
            r.inv(),
            r.vals().len() == Self::spec_elements(),
            forall|i: int|
                0 <= i < Self::spec_elements() ==> Self::sval(r.vals()[i]) == wrap_val(
                    Self::sval(self.vals()[i]) + Self::sval(other.vals()[i]),
                    Self::min_val(),
                    Self::max_val(),
                ),
    ;

    /// Lanewise wrapping subtraction.
    fn sub(self, other: Self) -> (r: Self)
        requires
            self.inv(),
            other.inv(),
        ensures
            r.inv(),
            r.vals().len() == Self::spec_elements(),
            forall|i: int|
                0 <= i < Self::spec_elements() ==> Self::sval(r.vals()[i]) == wrap_val(
                    Self::sval(self.vals()[i]) - Self::sval(other.vals()[i]),
                    Self::min_val(),
                    Self::max_val(),
                ),
    ;

    /// Lanewise wrapping multiplication.
    fn mul(self, other: Self) -> (r: Self)
        requires
            self.inv(),
            other.inv(),
        ensures
            r.inv(),
            r.vals().len() == Self::spec_elements(),
            forall|i: int|
                0 <= i < Self::spec_elements() ==> Self::sval(r.vals()[i]) == wrap_val(
                    Self::sval(self.vals()[i]) * Self::sval(other.vals()[i]),
                    Self::min_val(),
                    Self::max_val(),
                ),
    ;

    /// Lanewise division, truncating toward zero.  A zero divisor lane, or
    /// the overflowing pair (minimum over minus one), is a precondition
    /// violation.
    fn div(self, other: Self) -> (r: Self)
        requires
            self.inv(),
            other.inv(),
            forall|i: int|
                0 <= i < Self::spec_elements() ==> Self::sval(other.vals()[i]) != 0 && !(
                Self::sval(self.vals()[i]) == Self::min_val() && Self::sval(other.vals()[i])
                    == -1),
        ensures
            r.inv(),
            r.vals().len() == Self::spec_elements(),
            forall|i: int|
                0 <= i < Self::spec_elements() ==> Self::sval(r.vals()[i]) == trunc_div(
                    Self::sval(self.vals()[i]),
                    Self::sval(other.vals()[i]),
                ),
    ;

    /// Lanewise remainder matching `div`, with each lane carrying the sign
    /// of the dividend lane.
    fn rem(self, other: Self) -> (r: Self)
        requires
            self.inv(),
            other.inv(),
            forall|i: int|
                0 <= i < Self::spec_elements() ==> Self::sval(other.vals()[i]) != 0 && !(
                Self::sval(self.vals()[i]) == Self::min_val() && Self::sval(other.vals()[i])
                    == -1),
        ensures
            r.inv(),
            r.vals().len() == Self::spec_elements(),
            forall|i: int|
                0 <= i < Self::spec_elements() ==> Self::sval(r.vals()[i]) == trunc_rem(
                    Self::sval(self.vals()[i]),
                    Self::sval(other.vals()[i]),
                ),
    ;

    /// In-place lanewise wrapping addition.
    fn add_assign(&mut self, other: Self)
        requires
            old(self).inv(),
            other.inv(),
        ensures
            final(self).inv(),
            final(self).vals().len() == Self::spec_elements(),
            forall|i: int|
                0 <= i < Self::spec_elements() ==> Self::sval(final(self).vals()[i]) == wrap_val(
                    Self::sval(old(self).vals()[i]) + Self::sval(other.vals()[i]),
                    Self::min_val(),
                    Self::max_val(),
                ),
    ;

    /// In-place lanewise wrapping subtraction.
    fn sub_assign(&mut self, other: Self)
        requires
            old(self).inv(),
            other.inv(),
        ensures
            final(self).inv(),
            final(self).vals().len() == Self::spec_elements(),
            forall|i: int|
                0 <= i < Self::spec_elements() ==> Self::sval(final(self).vals()[i]) == wrap_val(
                    Self::sval(old(self).vals()[i]) - Self::sval(other.vals()[i]),
                    Self::min_val(),
                    Self::max_val(),
                ),
    ;

    /// In-place lanewise wrapping multiplication.
    fn mul_assign(&mut self, other: Self)
        requires
            old(self).inv(),
            other.inv(),
        ensures
            final(self).inv(),
            final(self).vals().len() == Self::spec_elements(),
            forall|i: int|
                0 <= i < Self::spec_elements() ==> Self::sval(final(self).vals()[i]) == wrap_val(
                    Self::sval(old(self).vals()[i]) * Self::sval(other.vals()[i]),
                    Self::min_val(),
                    Self::max_val(),
                ),
    ;

    /// In-place lanewise truncating division, under `div`'s preconditions.
    fn div_assign(&mut self, other: Self)
        requires
            old(self).inv(),
            other.inv(),
            forall|i: int|
                0 <= i < Self::spec_elements() ==> Self::sval(other.vals()[i]) != 0 && !(
                Self::sval(old(self).vals()[i]) == Self::min_val() && Self::sval(other.vals()[i])
                    == -1),
        ensures
            final(self).inv(),
            final(self).vals().len() == Self::spec_elements(),
            forall|i: int|
                0 <= i < Self::spec_elements() ==> Self::sval(final(self).vals()[i]) == trunc_div(
                    Self::sval(old(self).vals()[i]),
                    Self::sval(other.vals()[i]),
                ),
    ;

    /// In-place lanewise remainder, under `rem`'s preconditions.
    fn rem_assign(&mut self, other: Self)
        requires
            old(self).inv(),
            other.inv(),
            forall|i: int|
                0 <= i < Self::spec_elements() ==> Self::sval(other.vals()[i]) != 0 && !(
                Self::sval(old(self).vals()[i]) == Self::min_val() && Self::sval(other.vals()[i])
                    == -1),
        ensures
            final(self).inv(),
            final(self).vals().len() == Self::spec_elements(),
            forall|i: int|
                0 <= i < Self::spec_elements() ==> Self::sval(final(self).vals()[i]) == trunc_rem(
                    Self::sval(old(self).vals()[i]),
                    Self::sval(other.vals()[i]),
                ),
    ;

    /// The maximum lane value: the result is one of the lanes and no lane
    /// value exceeds it, which (lane values determining scalars) pins it to
    /// exactly the maximum a linear scan computes — see
    /// `lemma_reduce_max_is_scan`.  A vector has at least one lane here by
    /// precondition.
    fn reduce_max(self) -> (r: Self::Scalar)
        requires
            self.inv(),
            Self::spec_elements() >= 1,
        ensures
            exists|i: int| 0 <= i < Self::spec_elements() && r == self.vals()[i],
            forall|i: int|
                0 <= i < Self::spec_elements() ==> Self::sval(#[trigger] self.vals()[i])
                    <= Self::sval(r),
    ;

    /// The minimum lane value: one of the lanes, with no lane value below
    /// it — exactly the minimum a linear scan computes, see
    /// `lemma_reduce_min_is_scan`.
    fn reduce_min(self) -> (r: Self::Scalar)
        requires
            self.inv(),
            Self::spec_elements() >= 1,
        ensures
            exists|i: int| 0 <= i < Self::spec_elements() && r == self.vals()[i],
            forall|i: int|
                0 <= i < Self::spec_elements() ==> Self::sval(#[trigger] self.vals()[i])
                    >= Self::sval(r),
    ;
}

/// A vector of signed numbers: a numeric vector closed under lanewise
/// (wrapping) negation, over a two's-complement lane range.
pub trait Signed: Num {
    /// The signed lane range is `[-(max + 1), max]`.
    proof fn lemma_signed_range()
        ensures
            Self::min_val() == -Self::max_val() - 1,
    ;

    /// Lanewise wrapping negation: the minimum lane value negates to
    /// itself.
    fn neg(self) -> (r: Self)
        requires
            self.inv(),
        ensures
            r.inv(),
            r.vals().len() == Self::spec_elements(),
            forall|i: int|
                0 <= i < Self::spec_elements() ==> Self::sval(r.vals()[i]) == wrap_val(
                    -Self::sval(self.vals()[i]),
                    Self::min_val(),
                    Self::max_val(),
                ),
    ;
}

/// A vector of unsigned numbers: a numeric vector whose lane range starts
/// at zero and which excludes negation.
pub trait Unsigned: Num {
    /// The unsigned lane range starts at zero.
    proof fn lemma_unsigned_range()
        ensures
            Self::min_val() == 0,
    ;
}


impl<T: ScalarKind, const N: usize> Num for SimdVec<T, N> {
    open spec fn sval(s: T) -> int {
        T::sval(s)
    }

    open spec fn min_val() -> int {
        T::min_val()
    }

    open spec fn max_val() -> int {
        T::max_val()
    }

    proof fn lemma_num_range() {
        T::lemma_kind_range();
    }

    proof fn lemma_scalar_range(s: T) {
        s.lemma_range();
    }

    proof fn lemma_scalar_injective(a: T, b: T) {
        T::lemma_injective(a, b);
    }

    fn zero() -> (r: Self) {
        Self::splat(T::zero_s())
    }

    fn one() -> (r: Self) {
        Self::splat(T::one_s())
    }

    fn add(self, other: Self) -> (r: Self) {
        let mut lanes: Vec<T> = Vec::new();
        let mut i: usize = 0;
        while i < N
            invariant
                i <= N,
                self.inv(),
                other.inv(),
                lanes@.len() == i,
                forall|j: int|
                    0 <= j < i ==> T::sval(lanes@[j]) == wrap_val(
                        T::sval(self.lanes@[j]) + T::sval(other.lanes@[j]),
                        T::min_val(),
                        T::max_val(),
                    ),
            decreases N - i,
        {
            lanes.push(self.lanes[i].add_s(other.lanes[i]));
            i = i + 1;
        }
        SimdVec { lanes }
    }

    fn sub(self, other: Self) -> (r: Self) {
        let mut lanes: Vec<T> = Vec::new();
        let mut i: usize = 0;
        while i < N
            invariant
                i <= N,
                self.inv(),
                other.inv(),
                lanes@.len() == i,
                forall|j: int|
                    0 <= j < i ==> T::sval(lanes@[j]) == wrap_val(
                        T::sval(self.lanes@[j]) - T::sval(other.lanes@[j]),
                        T::min_val(),
                        T::max_val(),
                    ),
            decreases N - i,
        {
            lanes.push(self.lanes[i].sub_s(other.lanes[i]));
            i = i + 1;
        }
        SimdVec { lanes }
    }

    fn mul(self, other: Self) -> (r: Self) {
        let mut lanes: Vec<T> = Vec::new();
        let mut i: usize = 0;
        while i < N
            invariant
                i <= N,
                self.inv(),
                other.inv(),
                lanes@.len() == i,
                forall|j: int|
                    0 <= j < i ==> T::sval(lanes@[j]) == wrap_val(
                        T::sval(self.lanes@[j]) * T::sval(other.lanes@[j]),
                        T::min_val(),
                        T::max_val(),
                    ),
            decreases N - i,
        {
            lanes.push(self.lanes[i].mul_s(other.lanes[i]));
            i = i + 1;
        }
        SimdVec { lanes }
    }

    fn div(self, other: Self) -> (r: Self) {
        proof {
            assert forall|j: int| 0 <= j < N implies T::sval(#[trigger] other.lanes@[j]) != 0 && !(
            T::sval(self.lanes@[j]) == T::min_val() && T::sval(other.lanes@[j]) == -1) by {
                assert(Self::sval(other.vals()[j]) != 0 && !(Self::sval(self.vals()[j])
                    == Self::min_val() && Self::sval(other.vals()[j]) == -1));
            }
        }
        let mut lanes: Vec<T> = Vec::new();
        let mut i: usize = 0;
        while i < N
            invariant
                i <= N,
                self.inv(),
                other.inv(),
                forall|j: int|
                    0 <= j < N ==> T::sval(#[trigger] other.lanes@[j]) != 0 && !(T::sval(
                        self.lanes@[j],
                    ) == T::min_val() && T::sval(other.lanes@[j]) == -1),
                lanes@.len() == i,
                forall|j: int|
                    0 <= j < i ==> T::sval(lanes@[j]) == trunc_div(
                        T::sval(self.lanes@[j]),
                        T::sval(other.lanes@[j]),
                    ),
            decreases N - i,
        {
            lanes.push(self.lanes[i].div_s(other.lanes[i]));
            i = i + 1;
        }
        SimdVec { lanes }
    }

    fn rem(self, other: Self) -> (r: Self) {
        proof {
            assert forall|j: int| 0 <= j < N implies T::sval(#[trigger] other.lanes@[j]) != 0 && !(
            T::sval(self.lanes@[j]) == T::min_val() && T::sval(other.lanes@[j]) == -1) by {
                assert(Self::sval(other.vals()[j]) != 0 && !(Self::sval(self.vals()[j])
                    == Self::min_val() && Self::sval(other.vals()[j]) == -1));
            }
        }
        let mut lanes: Vec<T> = Vec::new();
        let mut i: usize = 0;
        while i < N
            invariant
                i <= N,
                self.inv(),
                other.inv(),
                forall|j: int|
                    0 <= j < N ==> T::sval(#[trigger] other.lanes@[j]) != 0 && !(T::sval(
                        self.lanes@[j],
                    ) == T::min_val() && T::sval(other.lanes@[j]) == -1),
                lanes@.len() == i,
                forall|j: int|
                    0 <= j < i ==> T::sval(lanes@[j]) == trunc_rem(
                        T::sval(self.lanes@[j]),
                        T::sval(other.lanes@[j]),
                    ),
            decreases N - i,
        {
            lanes.push(self.lanes[i].rem_s(other.lanes[i]));
            i = i + 1;
        }
        SimdVec { lanes }
    }

    fn add_assign(&mut self, other: Self) {
        let mut lanes: Vec<T> = Vec::new();
        let mut i: usize = 0;
        while i < N
            invariant
                i <= N,
                self.inv(),
                other.inv(),
                self == old(self),
                lanes@.len() == i,
                forall|j: int|
                    0 <= j < i ==> T::sval(lanes@[j]) == wrap_val(
                        T::sval(self.lanes@[j]) + T::sval(other.lanes@[j]),
                        T::min_val(),
                        T::max_val(),
                    ),
            decreases N - i,
        {
            lanes.push(self.lanes[i].add_s(other.lanes[i]));
            i = i + 1;
        }
        self.lanes = lanes;
    }

    fn sub_assign(&mut self, other: Self) {
        let mut lanes: Vec<T> = Vec::new();
        let mut i: usize = 0;
        while i < N
            invariant
                i <= N,
                self.inv(),
                other.inv(),
                self == old(self),
                lanes@.len() == i,
                forall|j: int|
                    0 <= j < i ==> T::sval(lanes@[j]) == wrap_val(
                        T::sval(self.lanes@[j]) - T::sval(other.lanes@[j]),
                        T::min_val(),
                        T::max_val(),
                    ),
            decreases N - i,
        {
            lanes.push(self.lanes[i].sub_s(other.lanes[i]));
            i = i + 1;
        }
        self.lanes = lanes;
    }

    fn mul_assign(&mut self, other: Self) {
        let mut lanes: Vec<T> = Vec::new();
        let mut i: usize = 0;
        while i < N
            invariant
                i <= N,
                self.inv(),
                other.inv(),
                self == old(self),
                lanes@.len() == i,
                forall|j: int|
                    0 <= j < i ==> T::sval(lanes@[j]) == wrap_val(
                        T::sval(self.lanes@[j]) * T::sval(other.lanes@[j]),
                        T::min_val(),
                        T::max_val(),
                    ),
            decreases N - i,
        {
            lanes.push(self.lanes[i].mul_s(other.lanes[i]));
            i = i + 1;
        }
        self.lanes = lanes;
    }

    fn div_assign(&mut self, other: Self) {
        proof {
            assert forall|j: int| 0 <= j < N implies T::sval(#[trigger] other.lanes@[j]) != 0 && !(
            T::sval(self.lanes@[j]) == T::min_val() && T::sval(other.lanes@[j]) == -1) by {
                assert(Self::sval(other.vals()[j]) != 0 && !(Self::sval(old(self).vals()[j])
                    == Self::min_val() && Self::sval(other.vals()[j]) == -1));
            }
        }
        let mut lanes: Vec<T> = Vec::new();
        let mut i: usize = 0;
        while i < N
            invariant
                i <= N,
                self.inv(),
                other.inv(),
                self == old(self),
                forall|j: int|
                    0 <= j < N ==> T::sval(#[trigger] other.lanes@[j]) != 0 && !(T::sval(
                        self.lanes@[j],
                    ) == T::min_val() && T::sval(other.lanes@[j]) == -1),
                lanes@.len() == i,
                forall|j: int|
                    0 <= j < i ==> T::sval(lanes@[j]) == trunc_div(
                        T::sval(self.lanes@[j]),
                        T::sval(other.lanes@[j]),
                    ),
            decreases N - i,
        {
            lanes.push(self.lanes[i].div_s(other.lanes[i]));
            i = i + 1;
        }
        self.lanes = lanes;
    }

    fn rem_assign(&mut self, other: Self) {
        proof {
            assert forall|j: int| 0 <= j < N implies T::sval(#[trigger] other.lanes@[j]) != 0 && !(
            T::sval(self.lanes@[j]) == T::min_val() && T::sval(other.lanes@[j]) == -1) by {
                assert(Self::sval(other.vals()[j]) != 0 && !(Self::sval(old(self).vals()[j])
                    == Self::min_val() && Self::sval(other.vals()[j]) == -1));
            }
        }
        let mut lanes: Vec<T> = Vec::new();
        let mut i: usize = 0;
        while i < N
            invariant
                i <= N,
                self.inv(),
                other.inv(),
                self == old(self),
                forall|j: int|
                    0 <= j < N ==> T::sval(#[trigger] other.lanes@[j]) != 0 && !(T::sval(
                        self.lanes@[j],
                    ) == T::min_val() && T::sval(other.lanes@[j]) == -1),
                lanes@.len() == i,
                forall|j: int|
                    0 <= j < i ==> T::sval(lanes@[j]) == trunc_rem(
                        T::sval(self.lanes@[j]),
                        T::sval(other.lanes@[j]),
                    ),
            decreases N - i,
        {
            lanes.push(self.lanes[i].rem_s(other.lanes[i]));
            i = i + 1;
        }
        self.lanes = lanes;
    }

    fn reduce_max(self) -> (r: T) {
        let mut acc = self.lanes[0];
        proof {
            assert(acc == self.vals()[0]);
        }
        let mut i: usize = 1;
        while i < N
            invariant
                1 <= i <= N,
                self.inv(),
                exists|j: int| 0 <= j < i && acc == self.vals()[j],
                forall|j: int| 0 <= j < i ==> T::sval(#[trigger] self.vals()[j]) <= T::sval(acc),
            decreases N - i,
        {
            let lane = self.lanes[i];
            if acc.lt_s(lane) {
                acc = lane;
                proof {
                    assert(acc == self.vals()[i as int]);
                }
            }
            i = i + 1;
        }
        acc
    }

    fn reduce_min(self) -> (r: T) {
        let mut acc = self.lanes[0];
        proof {
            assert(acc == self.vals()[0]);
        }
        let mut i: usize = 1;
        while i < N
            invariant
                1 <= i <= N,
                self.inv(),
                exists|j: int| 0 <= j < i && acc == self.vals()[j],
                forall|j: int| 0 <= j < i ==> T::sval(#[trigger] self.vals()[j]) >= T::sval(acc),
            decreases N - i,
        {
            let lane = self.lanes[i];
            if lane.lt_s(acc) {
                acc = lane;
                proof {
                    assert(acc == self.vals()[i as int]);
                }
            }
            i = i + 1;
        }
        acc
    }
}

impl<T: SignedKind, const N: usize> Signed for SimdVec<T, N> {
    proof fn lemma_signed_range() {
        T::lemma_signed_range();
    }

    fn neg(self) -> (r: Self) {
        let mut lanes: Vec<T> = Vec::new();
        let mut i: usize = 0;
        while i < N
            invariant
                i <= N,
                self.inv(),
                lanes@.len() == i,
                forall|j: int|
                    0 <= j < i ==> T::sval(lanes@[j]) == wrap_val(
                        -T::sval(self.lanes@[j]),
                        T::min_val(),
                        T::max_val(),
                    ),
            decreases N - i,
        {
            lanes.push(self.lanes[i].neg_s());
            i = i + 1;
        }
        SimdVec { lanes }
    }
}

impl<T: UnsignedKind, const N: usize> Unsigned for SimdVec<T, N> {
    proof fn lemma_unsigned_range() {
        T::lemma_unsigned_range();
    }
}

/// Adding the all-zero vector changes nothing: lanes that arise by
/// wrapping-addition of zero-valued lanes equal the original lanes exactly.
pub proof fn lemma_add_zero_identity<V: Num>(a: Seq<V::Scalar>, z: Seq<V::Scalar>, r: Seq<
    V::Scalar,
>)
    requires
        z.len() == a.len(),
        r.len() == a.len(),
        forall|i: int| 0 <= i < a.len() ==> V::sval(#[trigger] z[i]) == 0,
        forall|i: int|
            0 <= i < a.len() ==> V::sval(#[trigger] r[i]) == wrap_val(
                V::sval(a[i]) + V::sval(z[i]),
                V::min_val(),
                V::max_val(),
            ),
    ensures
        r == a,
{
    assert forall|i: int| 0 <= i < a.len() implies r[i] == a[i] by {
        V::lemma_scalar_range(a[i]);
        lemma_wrap_id(V::sval(a[i]), V::min_val(), V::max_val());
        V::lemma_scalar_injective(r[i], a[i]);
    }
    assert(r =~= a);
}

/// Multiplying by the all-one vector changes nothing: lanes that arise by
/// wrapping-multiplication with one-valued lanes equal the original lanes
/// exactly.
pub proof fn lemma_mul_one_identity<V: Num>(a: Seq<V::Scalar>, o: Seq<V::Scalar>, r: Seq<
    V::Scalar,
>)
    requires
        o.len() == a.len(),
        r.len() == a.len(),
        forall|i: int| 0 <= i < a.len() ==> V::sval(#[trigger] o[i]) == 1,
        forall|i: int|
            0 <= i < a.len() ==> V::sval(#[trigger] r[i]) == wrap_val(
                V::sval(a[i]) * V::sval(o[i]),
                V::min_val(),
                V::max_val(),
            ),
    ensures
        r == a,
{
    assert forall|i: int| 0 <= i < a.len() implies r[i] == a[i] by {
        V::lemma_scalar_range(a[i]);
        assert(V::sval(a[i]) * V::sval(o[i]) == V::sval(a[i])) by (nonlinear_arith)
            requires
                V::sval(o[i]) == 1,
        ;
        lemma_wrap_id(V::sval(a[i]), V::min_val(), V::max_val());
        V::lemma_scalar_injective(r[i], a[i]);
    }
    assert(r =~= a);
}

/// The linear-scan maximum really is the maximum: it is one of the lanes,
/// and no lane value exceeds it.
pub proof fn lemma_scan_max_bounds<V: Num>(s: Seq<V::Scalar>)
    requires
        s.len() >= 1,
    ensures
        exists|i: int| 0 <= i < s.len() && s[i] == scan_max::<V>(s),
        forall|i: int| 0 <= i < s.len() ==> V::sval(#[trigger] s[i]) <= V::sval(scan_max::<V>(s)),
    decreases s.len(),
{
    if s.len() == 1 {
        assert(s[0] == scan_max::<V>(s));
    } else {
        lemma_scan_max_bounds::<V>(s.drop_last());
        let m = scan_max::<V>(s.drop_last());
        if V::sval(s.last()) > V::sval(m) {
            assert(s[s.len() - 1] == scan_max::<V>(s));
        } else {
            let j = choose|j: int| 0 <= j < s.len() - 1 && s.drop_last()[j] == m;
            assert(s[j] == scan_max::<V>(s));
        }
        assert forall|i: int| 0 <= i < s.len() implies V::sval(#[trigger] s[i]) <= V::sval(
            scan_max::<V>(s),
        ) by {
            if i < s.len() - 1 {
                assert(s.drop_last()[i] == s[i]);
            }
        }
    }
}

/// The linear-scan minimum really is the minimum: it is one of the lanes,
/// and no lane value is below it.
pub proof fn lemma_scan_min_bounds<V: Num>(s: Seq<V::Scalar>)
    requires
        s.len() >= 1,
    ensures
        exists|i: int| 0 <= i < s.len() && s[i] == scan_min::<V>(s),
        forall|i: int| 0 <= i < s.len() ==> V::sval(#[trigger] s[i]) >= V::sval(scan_min::<V>(s)),
    decreases s.len(),
{
    if s.len() == 1 {
        assert(s[0] == scan_min::<V>(s));
    } else {
        lemma_scan_min_bounds::<V>(s.drop_last());
        let m = scan_min::<V>(s.drop_last());
        if V::sval(s.last()) < V::sval(m) {
            assert(s[s.len() - 1] == scan_min::<V>(s));
        } else {
            let j = choose|j: int| 0 <= j < s.len() - 1 && s.drop_last()[j] == m;
            assert(s[j] == scan_min::<V>(s));
        }
        assert forall|i: int| 0 <= i < s.len() implies V::sval(#[trigger] s[i]) >= V::sval(
            scan_min::<V>(s),
        ) by {
            if i < s.len() - 1 {
                assert(s.drop_last()[i] == s[i]);
            }
        }
    }
}


/// A value that is a lane and dominates every lane value is exactly the
/// linear-scan maximum: `reduce_max` therefore equals the scalar maximum
/// computed by a linear scan over all lanes, for every width from one
/// upward.
pub proof fn lemma_reduce_max_is_scan<V: Num>(s: Seq<V::Scalar>, r: V::Scalar)
    requires
        s.len() >= 1,
        exists|i: int| 0 <= i < s.len() && r == s[i],
        forall|i: int| 0 <= i < s.len() ==> V::sval(#[trigger] s[i]) <= V::sval(r),
    ensures
        r == scan_max::<V>(s),
{
    lemma_scan_max_bounds::<V>(s);
    let m = scan_max::<V>(s);
    let i = choose|i: int| 0 <= i < s.len() && r == s[i];
    assert(V::sval(s[i]) <= V::sval(m));
    let j = choose|j: int| 0 <= j < s.len() && s[j] == m;
    assert(V::sval(s[j]) <= V::sval(r));
    V::lemma_scalar_injective(r, m);
}

/// A value that is a lane and is below every lane value is exactly the
/// linear-scan minimum: `reduce_min` therefore equals the scalar minimum
/// computed by a linear scan over all lanes.
pub proof fn lemma_reduce_min_is_scan<V: Num>(s: Seq<V::Scalar>, r: V::Scalar)
    requires
        s.len() >= 1,
        exists|i: int| 0 <= i < s.len() && r == s[i],
        forall|i: int| 0 <= i < s.len() ==> V::sval(#[trigger] s[i]) >= V::sval(r),
    ensures
        r == scan_min::<V>(s),
{
    lemma_scan_min_bounds::<V>(s);
    let m = scan_min::<V>(s);
    let i = choose|i: int| 0 <= i < s.len() && r == s[i];
    assert(V::sval(s[i]) >= V::sval(m));
    let j = choose|j: int| 0 <= j < s.len() && s[j] == m;
    assert(V::sval(s[j]) >= V::sval(r));
    V::lemma_scalar_injective(r, m);
}

} // verus!
