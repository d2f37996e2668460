//! Cast edges between vectors that differ only in scalar kind.
//!
//! `CastFrom` parameterizes the source and `CastTo` the destination of one
//! and the same conversion edge; `CastFrom` is the primary direction and
//! `CastTo` is derived from it by a blanket implementation, so the two can
//! never diverge.  The conversion rule is uniform over every ordered pair of
//! the closed scalar-kind set: the source lane's value is wrapped into the
//! destination kind's range (the value is kept exactly whenever it fits,
//! and reduced modulo the destination's range size otherwise), with the
//! lane count held fixed.

use vstd::prelude::*;
use vstd::arithmetic::div_mod::{lemma_mod_bound, lemma_mod_multiples_vanish};
use crate::num::Num;
use crate::scalar::{
    in_range, lemma_wrap_id, wrap_val, ScalarKind,
};
use crate::vector::{Lanes, SimdVec, Vector};

verus! {

/// Cast a vector's element type, parameterized by the source vector type.
///
/// Defined for every ordered pair of scalar kinds in the closed set, total
/// and deterministic, with the lane count held fixed: lane `i` of the
/// result is the value of lane `i` of the source wrapped into this
/// vector's lane range.
pub trait CastFrom<T: Num>: Num {
    /// Cast the vector, lane by lane, keeping the width.
    fn cast_from(from: T) -> (r: Self)
        requires
            from.inv(),
            T::spec_elements() == Self::spec_elements(),
        ensures
            r.inv(),
            r.vals().len() == Self::spec_elements(),
            forall|i: int|
                0 <= i < Self::spec_elements() ==> Self::sval(r.vals()[i]) == wrap_val(
                    T::sval(from.vals()[i]),
                    Self::min_val(),
                    Self::max_val(),
                ),
    ;
}

/// Cast a vector's element type, parameterized by the destination vector
/// type: the same edge as `CastFrom`, seen from the source.
pub trait CastTo<T: Num>: Num {
    /// Cast the vector, lane by lane, keeping the width.
    fn cast_to(self) -> (r: T)
        requires
            self.inv(),
            Self::spec_elements() == T::spec_elements(),
        ensures
            r.inv(),
            r.vals().len() == T::spec_elements(),
            forall|i: int|
                0 <= i < T::spec_elements() ==> T::sval(r.vals()[i]) == wrap_val(
                    Self::sval(self.vals()[i]),
                    T::min_val(),
                    T::max_val(),
                ),
    ;
}

impl<T, U> CastTo<T> for U where U: Num, T: CastFrom<U> {
    fn cast_to(self) -> (r: T) {
        T::cast_from(self)
    }
}

/// A cast edge between two scalar kinds: the source value wrapped into the
/// destination kind's range.  One implementation exists for every ordered
/// pair of the closed kind set.
pub trait ScalarCast<S: ScalarKind>: ScalarKind {
    /// Convert one scalar, wrapping its value into this kind's range.
    fn cast_s(s: S) -> (r: Self)
        ensures
            Self::sval(r) == wrap_val(S::sval(s), Self::min_val(), Self::max_val()),
    ;
}

impl<S: ScalarKind, D: ScalarCast<S>, const N: usize> CastFrom<SimdVec<S, N>> for SimdVec<D, N> {
    fn cast_from(from: SimdVec<S, N>) -> (r: Self) {
        let mut lanes: Vec<D> = Vec::new();
        let mut i: usize = 0;
        while i < N
            invariant
                i <= N,
                from.inv(),
                lanes@.len() == i,
                forall|j: int|
                    0 <= j < i ==> D::sval(lanes@[j]) == wrap_val(
                        S::sval(from.lanes@[j]),
                        D::min_val(),
                        D::max_val(),
                    ),
            decreases N - i,
        {
            lanes.push(D::cast_s(from.lanes[i]));
            i = i + 1;
        }
        SimdVec { lanes }
    }
}

/// Casting through a wider kind and back returns the value exactly: if the
/// source range fits inside the intermediate range, the value of an
/// in-range scalar survives the round trip unchanged, so the round-tripped
/// scalar is the original.
pub proof fn lemma_cast_round_trip<S: ScalarKind, D: ScalarKind>(s: S, d: D, r: S)
    requires
        D::min_val() <= S::min_val(),
        S::max_val() <= D::max_val(),
        D::sval(d) == wrap_val(S::sval(s), D::min_val(), D::max_val()),
        S::sval(r) == wrap_val(D::sval(d), S::min_val(), S::max_val()),
    ensures
        r == s,
{
    s.lemma_range();
    lemma_wrap_id(S::sval(s), D::min_val(), D::max_val());
    lemma_wrap_id(S::sval(s), S::min_val(), S::max_val());
    S::lemma_injective(r, s);
}

/// Wrap any closed-set scalar value into the `u8` range.
fn wrap_to_u8(x: i128) -> (r: u8)
    requires
        -0x8000_0000_0000_0000 <= x <= 0xffff_ffff_ffff_ffff,
    ensures
        r as int == wrap_val(x as int, 0, 0xff),
{
    proof {
        lemma_mod_multiples_vanish(0x100_0000_0000_0000, x as int, 0x100);
        lemma_mod_bound(x as int + 0x1_0000_0000_0000_0000, 0x100);
    }
    let y: u128 = (x + 0x1_0000_0000_0000_0000) as u128;
    (y % 0x100) as u8
}

/// Wrap any closed-set scalar value into the `u16` range.
fn wrap_to_u16(x: i128) -> (r: u16)
    requires
        -0x8000_0000_0000_0000 <= x <= 0xffff_ffff_ffff_ffff,
    ensures
        r as int == wrap_val(x as int, 0, 0xffff),
{
    proof {
        lemma_mod_multiples_vanish(0x1_0000_0000_0000, x as int, 0x1_0000);
        lemma_mod_bound(x as int + 0x1_0000_0000_0000_0000, 0x1_0000);
    }
    let y: u128 = (x + 0x1_0000_0000_0000_0000) as u128;
    (y % 0x1_0000) as u16
}

/// Wrap any closed-set scalar value into the `u32` range.
fn wrap_to_u32(x: i128) -> (r: u32)
    requires
        -0x8000_0000_0000_0000 <= x <= 0xffff_ffff_ffff_ffff,
    ensures
        r as int == wrap_val(x as int, 0, 0xffff_ffff),
{
    proof {
        lemma_mod_multiples_vanish(0x1_0000_0000, x as int, 0x1_0000_0000);
        lemma_mod_bound(x as int + 0x1_0000_0000_0000_0000, 0x1_0000_0000);
    }
    let y: u128 = (x + 0x1_0000_0000_0000_0000) as u128;
    (y % 0x1_0000_0000) as u32
}

/// Wrap any closed-set scalar value into the `u64` range.
fn wrap_to_u64(x: i128) -> (r: u64)
    requires
        -0x8000_0000_0000_0000 <= x <= 0xffff_ffff_ffff_ffff,
    ensures
        r as int == wrap_val(x as int, 0, 0xffff_ffff_ffff_ffff),
{
    proof {
        lemma_mod_multiples_vanish(1, x as int, 0x1_0000_0000_0000_0000);
        lemma_mod_bound(x as int + 0x1_0000_0000_0000_0000, 0x1_0000_0000_0000_0000);
    }
    let y: u128 = (x + 0x1_0000_0000_0000_0000) as u128;
    (y % 0x1_0000_0000_0000_0000) as u64
}

/// Wrap any closed-set scalar value into the `i8` range.
fn wrap_to_i8(x: i128) -> (r: i8)
    requires
        -0x8000_0000_0000_0000 <= x <= 0xffff_ffff_ffff_ffff,
    ensures
        r as int == wrap_val(x as int, -0x80, 0x7f),
{
    proof {
        lemma_mod_multiples_vanish(0x100_0000_0000_0000, x as int + 0x80, 0x100);
        lemma_mod_bound(x as int + 0x80 + 0x1_0000_0000_0000_0000, 0x100);
    }
    let y: u128 = (x + 0x80 + 0x1_0000_0000_0000_0000) as u128;
    let m = y % 0x100;
    (m as i128 - 0x80) as i8
}

/// Wrap any closed-set scalar value into the `i16` range.
fn wrap_to_i16(x: i128) -> (r: i16)
    requires
        -0x8000_0000_0000_0000 <= x <= 0xffff_ffff_ffff_ffff,
    ensures
        r as int == wrap_val(x as int, -0x8000, 0x7fff),
{
    proof {
        lemma_mod_multiples_vanish(0x1_0000_0000_0000, x as int + 0x8000, 0x1_0000);
        lemma_mod_bound(x as int + 0x8000 + 0x1_0000_0000_0000_0000, 0x1_0000);
    }
    let y: u128 = (x + 0x8000 + 0x1_0000_0000_0000_0000) as u128;
    let m = y % 0x1_0000;
    (m as i128 - 0x8000) as i16
}

/// Wrap any closed-set scalar value into the `i32` range.
fn wrap_to_i32(x: i128) -> (r: i32)
    requires
        -0x8000_0000_0000_0000 <= x <= 0xffff_ffff_ffff_ffff,
    ensures
        r as int == wrap_val(x as int, -0x8000_0000, 0x7fff_ffff),
{
    proof {
        lemma_mod_multiples_vanish(0x1_0000_0000, x as int + 0x8000_0000, 0x1_0000_0000);
        lemma_mod_bound(x as int + 0x8000_0000 + 0x1_0000_0000_0000_0000, 0x1_0000_0000);
    }
    let y: u128 = (x + 0x8000_0000 + 0x1_0000_0000_0000_0000) as u128;
    let m = y % 0x1_0000_0000;
    (m as i128 - 0x8000_0000) as i32
}

/// Wrap any closed-set scalar value into the `i64` range.
fn wrap_to_i64(x: i128) -> (r: i64)
    requires
        -0x8000_0000_0000_0000 <= x <= 0xffff_ffff_ffff_ffff,
    ensures
        r as int == wrap_val(x as int, -0x8000_0000_0000_0000, 0x7fff_ffff_ffff_ffff),
{
    proof {
        lemma_mod_multiples_vanish(1, x as int + 0x8000_0000_0000_0000, 0x1_0000_0000_0000_0000);
        lemma_mod_bound(x as int + 0x8000_0000_0000_0000 + 0x1_0000_0000_0000_0000, 0x1_0000_0000_0000_0000);
    }
    let y: u128 = (x + 0x8000_0000_0000_0000 + 0x1_0000_0000_0000_0000) as u128;
    let m = y % 0x1_0000_0000_0000_0000;
    (m as i128 - 0x8000_0000_0000_0000) as i64
}

impl ScalarCast<u8> for u8 {
    fn cast_s(s: u8) -> (r: u8) {
        wrap_to_u8(s as i128)
    }
}

impl ScalarCast<u16> for u8 {
    fn cast_s(s: u16) -> (r: u8) {
        wrap_to_u8(s as i128)
    }
}

impl ScalarCast<u32> for u8 {
    fn cast_s(s: u32) -> (r: u8) {
        wrap_to_u8(s as i128)
    }
}

impl ScalarCast<u64> for u8 {
    fn cast_s(s: u64) -> (r: u8) {
        wrap_to_u8(s as i128)
    }
}

impl ScalarCast<i8> for u8 {
    fn cast_s(s: i8) -> (r: u8) {
        wrap_to_u8(s as i128)
    }
}

impl ScalarCast<i16> for u8 {
    fn cast_s(s: i16) -> (r: u8) {
        wrap_to_u8(s as i128)
    }
}

impl ScalarCast<i32> for u8 {
    fn cast_s(s: i32) -> (r: u8) {
        wrap_to_u8(s as i128)
    }
}

impl ScalarCast<i64> for u8 {
    fn cast_s(s: i64) -> (r: u8) {
        wrap_to_u8(s as i128)
    }
}

impl ScalarCast<u8> for u16 {
    fn cast_s(s: u8) -> (r: u16) {
        wrap_to_u16(s as i128)
    }
}

impl ScalarCast<u16> for u16 {
    fn cast_s(s: u16) -> (r: u16) {
        wrap_to_u16(s as i128)
    }
}

impl ScalarCast<u32> for u16 {
    fn cast_s(s: u32) -> (r: u16) {
        wrap_to_u16(s as i128)
    }
}

impl ScalarCast<u64> for u16 {
    fn cast_s(s: u64) -> (r: u16) {
        wrap_to_u16(s as i128)
    }
}

impl ScalarCast<i8> for u16 {
    fn cast_s(s: i8) -> (r: u16) {
        wrap_to_u16(s as i128)
    }
}

impl ScalarCast<i16> for u16 {
    fn cast_s(s: i16) -> (r: u16) {
        wrap_to_u16(s as i128)
    }
}

impl ScalarCast<i32> for u16 {
    fn cast_s(s: i32) -> (r: u16) {
        wrap_to_u16(s as i128)
    }
}

impl ScalarCast<i64> for u16 {
    fn cast_s(s: i64) -> (r: u16) {
        wrap_to_u16(s as i128)
    }
}

impl ScalarCast<u8> for u32 {
    fn cast_s(s: u8) -> (r: u32) {
        wrap_to_u32(s as i128)
    }
}

impl ScalarCast<u16> for u32 {
    fn cast_s(s: u16) -> (r: u32) {
        wrap_to_u32(s as i128)
    }
}

impl ScalarCast<u32> for u32 {
    fn cast_s(s: u32) -> (r: u32) {
        wrap_to_u32(s as i128)
    }
}

impl ScalarCast<u64> for u32 {
    fn cast_s(s: u64) -> (r: u32) {
        wrap_to_u32(s as i128)
    }
}

impl ScalarCast<i8> for u32 {
    fn cast_s(s: i8) -> (r: u32) {
        wrap_to_u32(s as i128)
    }
}

impl ScalarCast<i16> for u32 {
    fn cast_s(s: i16) -> (r: u32) {
        wrap_to_u32(s as i128)
    }
}

impl ScalarCast<i32> for u32 {
    fn cast_s(s: i32) -> (r: u32) {
        wrap_to_u32(s as i128)
    }
}

impl ScalarCast<i64> for u32 {
    fn cast_s(s: i64) -> (r: u32) {
        wrap_to_u32(s as i128)
    }
}

impl ScalarCast<u8> for u64 {
    fn cast_s(s: u8) -> (r: u64) {
        wrap_to_u64(s as i128)
    }
}

impl ScalarCast<u16> for u64 {
    fn cast_s(s: u16) -> (r: u64) {
        wrap_to_u64(s as i128)
    }
}

impl ScalarCast<u32> for u64 {
    fn cast_s(s: u32) -> (r: u64) {
        wrap_to_u64(s as i128)
    }
}

impl ScalarCast<u64> for u64 {
    fn cast_s(s: u64) -> (r: u64) {
        wrap_to_u64(s as i128)
    }
}

impl ScalarCast<i8> for u64 {
    fn cast_s(s: i8) -> (r: u64) {
        wrap_to_u64(s as i128)
    }
}

impl ScalarCast<i16> for u64 {
    fn cast_s(s: i16) -> (r: u64) {
        wrap_to_u64(s as i128)
    }
}

impl ScalarCast<i32> for u64 {
    fn cast_s(s: i32) -> (r: u64) {
        wrap_to_u64(s as i128)
    }
}

impl ScalarCast<i64> for u64 {
    fn cast_s(s: i64) -> (r: u64) {
        wrap_to_u64(s as i128)
    }
}

impl ScalarCast<u8> for i8 {
    fn cast_s(s: u8) -> (r: i8) {
        wrap_to_i8(s as i128)
    }
}

impl ScalarCast<u16> for i8 {
    fn cast_s(s: u16) -> (r: i8) {
        wrap_to_i8(s as i128)
    }
}

impl ScalarCast<u32> for i8 {
    fn cast_s(s: u32) -> (r: i8) {
        wrap_to_i8(s as i128)
    }
}

impl ScalarCast<u64> for i8 {
    fn cast_s(s: u64) -> (r: i8) {
        wrap_to_i8(s as i128)
    }
}

impl ScalarCast<i8> for i8 {
    fn cast_s(s: i8) -> (r: i8) {
        wrap_to_i8(s as i128)
    }
}

impl ScalarCast<i16> for i8 {
    fn cast_s(s: i16) -> (r: i8) {
        wrap_to_i8(s as i128)
    }
}

impl ScalarCast<i32> for i8 {
    fn cast_s(s: i32) -> (r: i8) {
        wrap_to_i8(s as i128)
    }
}

impl ScalarCast<i64> for i8 {
    fn cast_s(s: i64) -> (r: i8) {
        wrap_to_i8(s as i128)
    }
}

impl ScalarCast<u8> for i16 {
    fn cast_s(s: u8) -> (r: i16) {
        wrap_to_i16(s as i128)
    }
}

impl ScalarCast<u16> for i16 {
    fn cast_s(s: u16) -> (r: i16) {
        wrap_to_i16(s as i128)
    }
}

impl ScalarCast<u32> for i16 {
    fn cast_s(s: u32) -> (r: i16) {
        wrap_to_i16(s as i128)
    }
}

impl ScalarCast<u64> for i16 {
    fn cast_s(s: u64) -> (r: i16) {
        wrap_to_i16(s as i128)
    }
}

impl ScalarCast<i8> for i16 {
    fn cast_s(s: i8) -> (r: i16) {
        wrap_to_i16(s as i128)
    }
}

impl ScalarCast<i16> for i16 {
    fn cast_s(s: i16) -> (r: i16) {
        wrap_to_i16(s as i128)
    }
}

impl ScalarCast<i32> for i16 {
    fn cast_s(s: i32) -> (r: i16) {
        wrap_to_i16(s as i128)
    }
}

impl ScalarCast<i64> for i16 {
    fn cast_s(s: i64) -> (r: i16) {
        wrap_to_i16(s as i128)
    }
}

impl ScalarCast<u8> for i32 {
    fn cast_s(s: u8) -> (r: i32) {
        wrap_to_i32(s as i128)
    }
}

impl ScalarCast<u16> for i32 {
    fn cast_s(s: u16) -> (r: i32) {
        wrap_to_i32(s as i128)
    }
}

impl ScalarCast<u32> for i32 {
    fn cast_s(s: u32) -> (r: i32) {
        wrap_to_i32(s as i128)
    }
}

impl ScalarCast<u64> for i32 {
    fn cast_s(s: u64) -> (r: i32) {
        wrap_to_i32(s as i128)
    }
}

impl ScalarCast<i8> for i32 {
    fn cast_s(s: i8) -> (r: i32) {
        wrap_to_i32(s as i128)
    }
}

impl ScalarCast<i16> for i32 {
    fn cast_s(s: i16) -> (r: i32) {
        wrap_to_i32(s as i128)
    }
}

impl ScalarCast<i32> for i32 {
    fn cast_s(s: i32) -> (r: i32) {
        wrap_to_i32(s as i128)
    }
}

impl ScalarCast<i64> for i32 {
    fn cast_s(s: i64) -> (r: i32) {
        wrap_to_i32(s as i128)
    }
}

impl ScalarCast<u8> for i64 {
    fn cast_s(s: u8) -> (r: i64) {
        wrap_to_i64(s as i128)
    }
}

impl ScalarCast<u16> for i64 {
    fn cast_s(s: u16) -> (r: i64) {
        wrap_to_i64(s as i128)
    }
}

impl ScalarCast<u32> for i64 {
    fn cast_s(s: u32) -> (r: i64) {
        wrap_to_i64(s as i128)
    }
}

impl ScalarCast<u64> for i64 {
    fn cast_s(s: u64) -> (r: i64) {
        wrap_to_i64(s as i128)
    }
}

impl ScalarCast<i8> for i64 {
    fn cast_s(s: i8) -> (r: i64) {
        wrap_to_i64(s as i128)
    }
}

impl ScalarCast<i16> for i64 {
    fn cast_s(s: i16) -> (r: i64) {
        wrap_to_i64(s as i128)
    }
}

impl ScalarCast<i32> for i64 {
    fn cast_s(s: i32) -> (r: i64) {
        wrap_to_i64(s as i128)
    }
}

impl ScalarCast<i64> for i64 {
    fn cast_s(s: i64) -> (r: i64) {
        wrap_to_i64(s as i128)
    }
}

} // verus!
