use simd_traits::num::cast::{CastFrom, CastTo};
use simd_traits::swizzle::{to_array, Shuffle, Swizzle};
use simd_traits::{Array, SimdVec};

#[test]
fn widening_then_narrowing_round_trips_exactly() {
    let v: SimdVec<i32, 4> = Array::from_slice(&[42, -1, i32::MIN, i32::MAX]);
    let wide: SimdVec<i64, 4> = v.cast_to();
    assert_eq!(wide.as_slice(), &[42, -1, i32::MIN as i64, i32::MAX as i64]);
    let back: SimdVec<i32, 4> = wide.cast_to();
    assert_eq!(back.as_slice(), &[42, -1, i32::MIN, i32::MAX]);
}

#[test]
fn cast_from_is_the_same_edge_as_cast_to() {
    let v: SimdVec<u8, 2> = Array::from_slice(&[7, 200]);
    let r: SimdVec<u32, 2> = CastFrom::cast_from(v);
    assert_eq!(r.as_slice(), &[7, 200]);
}

#[test]
fn narrowing_cast_wraps_into_the_destination_range() {
    let v: SimdVec<u32, 3> = Array::from_slice(&[300, 256, 255]);
    let r: SimdVec<u8, 3> = v.cast_to();
    assert_eq!(r.as_slice(), &[44, 0, 255]);
}

#[test]
fn signed_to_unsigned_cast_wraps_negative_values() {
    let v: SimdVec<i32, 3> = Array::from_slice(&[-1, -256, 5]);
    let r: SimdVec<u8, 3> = v.cast_to();
    assert_eq!(r.as_slice(), &[255, 0, 5]);
}

#[test]
fn unsigned_to_signed_cast_wraps_large_values() {
    let v: SimdVec<u8, 3> = Array::from_slice(&[200, 127, 128]);
    let r: SimdVec<i8, 3> = v.cast_to();
    assert_eq!(r.as_slice(), &[-56, 127, -128]);
}

#[test]
fn cast_between_same_kind_is_identity() {
    let v: SimdVec<i16, 2> = Array::from_slice(&[-7, 7]);
    let r: SimdVec<i16, 2> = v.cast_to();
    assert_eq!(r.as_slice(), &[-7, 7]);
}

#[test]
fn cast_chain_through_every_unsigned_width() {
    let v: SimdVec<u8, 2> = Array::from_slice(&[9, 250]);
    let a: SimdVec<u16, 2> = v.cast_to();
    let b: SimdVec<u32, 2> = a.cast_to();
    let c: SimdVec<u64, 2> = b.cast_to();
    assert_eq!(c.as_slice(), &[9, 250]);
}

#[test]
fn swizzle_selects_named_lanes() {
    let a: SimdVec<i32, 4> = Array::from_slice(&[1, 2, 3, 4]);
    let c: SimdVec<i32, 4> = a.swizzle(&[0, 3, 0, 1]);
    assert_eq!(c.as_slice(), &[1, 4, 1, 2]);
}

#[test]
fn concat_swizzle_selects_from_both_sources() {
    let a: SimdVec<i32, 4> = Array::from_slice(&[1, 2, 3, 4]);
    let b: SimdVec<i32, 4> = Array::from_slice(&[5, 6, 7, 8]);
    let d: SimdVec<i32, 4> = a.concat_swizzle(b, &[0, 5, 0, 6]);
    assert_eq!(d.as_slice(), &[1, 6, 1, 7]);
}

#[test]
fn swizzle_can_change_the_width() {
    let a: SimdVec<u8, 4> = Array::from_slice(&[10, 20, 30, 40]);
    let narrow: SimdVec<u8, 2> = a.swizzle(&[3, 1]);
    assert_eq!(narrow.as_slice(), &[40, 20]);
    let a2: SimdVec<u8, 4> = Array::from_slice(&[10, 20, 30, 40]);
    let wide: SimdVec<u8, 6> = a2.swizzle(&[0, 0, 1, 1, 2, 2]);
    assert_eq!(wide.as_slice(), &[10, 10, 20, 20, 30, 30]);
}

#[test]
fn to_array_copies_an_index_list_of_the_declared_width() {
    let r = to_array(&[0, 3, 0, 1], 4);
    assert_eq!(r, vec![0, 3, 0, 1]);
}

#[test]
fn reverse_inverts_lane_order() {
    let v: SimdVec<i32, 4> = Array::from_slice(&[1, 2, 3, 4]);
    let r = v.reverse();
    assert_eq!(r.as_slice(), &[4, 3, 2, 1]);
}

#[test]
fn reverse_twice_is_identity() {
    let v: SimdVec<u16, 5> = Array::from_slice(&[1, 2, 3, 4, 5]);
    let r = v.reverse().reverse();
    assert_eq!(r.as_slice(), &[1, 2, 3, 4, 5]);
}

#[test]
fn interleave_alternates_lanes() {
    let a: SimdVec<i32, 4> = Array::from_slice(&[1, 2, 3, 4]);
    let b: SimdVec<i32, 4> = Array::from_slice(&[5, 6, 7, 8]);
    let (lo, hi) = a.interleave(b);
    assert_eq!(lo.as_slice(), &[1, 5, 2, 6]);
    assert_eq!(hi.as_slice(), &[3, 7, 4, 8]);
}

#[test]
fn deinterleave_splits_even_and_odd_lanes() {
    let a: SimdVec<i32, 4> = Array::from_slice(&[1, 5, 2, 6]);
    let b: SimdVec<i32, 4> = Array::from_slice(&[3, 7, 4, 8]);
    let (evens, odds) = a.deinterleave(b);
    assert_eq!(evens.as_slice(), &[1, 2, 3, 4]);
    assert_eq!(odds.as_slice(), &[5, 6, 7, 8]);
}

#[test]
fn deinterleave_inverts_interleave() {
    let a: SimdVec<u8, 4> = Array::from_slice(&[9, 8, 7, 6]);
    let b: SimdVec<u8, 4> = Array::from_slice(&[1, 2, 3, 4]);
    let (lo, hi) = a.interleave(b);
    let (x, y) = lo.deinterleave(hi);
    assert_eq!(x.as_slice(), &[9, 8, 7, 6]);
    assert_eq!(y.as_slice(), &[1, 2, 3, 4]);
}

#[test]
fn width_one_interleave_and_deinterleave_are_fixed_points() {
    let a: SimdVec<i32, 1> = Array::from_slice(&[10]);
    let b: SimdVec<i32, 1> = Array::from_slice(&[20]);
    let (lo, hi) = a.interleave(b);
    assert_eq!(lo.as_slice(), &[10]);
    assert_eq!(hi.as_slice(), &[20]);
    let (x, y) = lo.deinterleave(hi);
    assert_eq!(x.as_slice(), &[10]);
    assert_eq!(y.as_slice(), &[20]);
}
