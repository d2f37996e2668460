use simd_traits::num::{Int, Num, Signed};
use simd_traits::{Array, SimdVec};

#[test]
fn adding_zero_is_identity() {
    let v: SimdVec<i32, 4> = Array::from_slice(&[5, -3, 7, 100]);
    let r = v.add(Num::zero());
    assert_eq!(r.as_slice(), &[5, -3, 7, 100]);
}

#[test]
fn multiplying_by_one_is_identity() {
    let v: SimdVec<u8, 4> = Array::from_slice(&[0, 1, 128, 255]);
    let r = v.mul(Num::one());
    assert_eq!(r.as_slice(), &[0, 1, 128, 255]);
}

#[test]
fn zero_and_one_hold_the_identity_values() {
    let z: SimdVec<i64, 2> = Num::zero();
    let o: SimdVec<i64, 2> = Num::one();
    assert_eq!(z.as_slice(), &[0, 0]);
    assert_eq!(o.as_slice(), &[1, 1]);
}

#[test]
fn add_wraps_at_the_kind_range() {
    let a: SimdVec<u8, 2> = Array::from_slice(&[250, 1]);
    let b: SimdVec<u8, 2> = Array::from_slice(&[10, 2]);
    let r = a.add(b);
    assert_eq!(r.as_slice(), &[4, 3]);
    let c: SimdVec<i8, 2> = Array::from_slice(&[127, 0]);
    let d: SimdVec<i8, 2> = Array::from_slice(&[1, -5]);
    let s = c.add(d);
    assert_eq!(s.as_slice(), &[-128, -5]);
}

#[test]
fn sub_wraps_at_the_kind_range() {
    let a: SimdVec<u32, 2> = Array::from_slice(&[0, 10]);
    let b: SimdVec<u32, 2> = Array::from_slice(&[1, 3]);
    let r = a.sub(b);
    assert_eq!(r.as_slice(), &[u32::MAX, 7]);
}

#[test]
fn mul_wraps_at_the_kind_range() {
    let a: SimdVec<u8, 2> = Array::from_slice(&[16, 3]);
    let b: SimdVec<u8, 2> = Array::from_slice(&[16, 4]);
    let r = a.mul(b);
    assert_eq!(r.as_slice(), &[0, 12]);
}

#[test]
fn div_truncates_toward_zero() {
    let a: SimdVec<i32, 4> = Array::from_slice(&[-7, 7, -7, 7]);
    let b: SimdVec<i32, 4> = Array::from_slice(&[2, -2, -2, 2]);
    let r = a.div(b);
    assert_eq!(r.as_slice(), &[-3, -3, 3, 3]);
}

#[test]
fn rem_carries_the_dividend_sign() {
    let a: SimdVec<i32, 4> = Array::from_slice(&[-7, 7, -7, 7]);
    let b: SimdVec<i32, 4> = Array::from_slice(&[2, -2, -2, 2]);
    let r = a.rem(b);
    assert_eq!(r.as_slice(), &[-1, 1, -1, 1]);
}

#[test]
fn unsigned_div_and_rem() {
    let a: SimdVec<u64, 2> = Array::from_slice(&[17, 100]);
    let b: SimdVec<u64, 2> = Array::from_slice(&[5, 10]);
    assert_eq!(a.div(b).as_slice(), &[3, 10]);
    let a2: SimdVec<u64, 2> = Array::from_slice(&[17, 100]);
    let b2: SimdVec<u64, 2> = Array::from_slice(&[5, 10]);
    assert_eq!(a2.rem(b2).as_slice(), &[2, 0]);
}

#[test]
fn assign_operations_update_in_place() {
    let mut v: SimdVec<i16, 2> = Array::from_slice(&[10, -4]);
    v.add_assign(Array::from_slice(&[1, 1]));
    assert_eq!(v.as_slice(), &[11, -3]);
    v.sub_assign(Array::from_slice(&[2, 2]));
    assert_eq!(v.as_slice(), &[9, -5]);
    v.mul_assign(Array::from_slice(&[3, -1]));
    assert_eq!(v.as_slice(), &[27, 5]);
    v.div_assign(Array::from_slice(&[4, 2]));
    assert_eq!(v.as_slice(), &[6, 2]);
    v.rem_assign(Array::from_slice(&[4, 2]));
    assert_eq!(v.as_slice(), &[2, 0]);
}

#[test]
fn reduce_max_equals_linear_scan() {
    let v: SimdVec<i32, 4> = Array::from_slice(&[3, -5, 9, 0]);
    assert_eq!(v.reduce_max(), 9);
    let w: SimdVec<u8, 4> = Array::from_slice(&[1, 255, 0, 7]);
    assert_eq!(w.reduce_max(), 255);
}

#[test]
fn reduce_min_equals_linear_scan() {
    let v: SimdVec<i32, 4> = Array::from_slice(&[3, -5, 9, 0]);
    assert_eq!(v.reduce_min(), -5);
    let w: SimdVec<u8, 4> = Array::from_slice(&[1, 255, 0, 7]);
    assert_eq!(w.reduce_min(), 0);
}

#[test]
fn reduce_on_a_single_lane_returns_that_lane() {
    let v: SimdVec<i64, 1> = Array::from_slice(&[42]);
    assert_eq!(v.reduce_max(), 42);
    let w: SimdVec<i64, 1> = Array::from_slice(&[42]);
    assert_eq!(w.reduce_min(), 42);
}

#[test]
fn reduce_handles_extreme_values() {
    let v: SimdVec<i64, 3> = Array::from_slice(&[i64::MIN, 0, i64::MAX]);
    assert_eq!(v.reduce_max(), i64::MAX);
    let w: SimdVec<i64, 3> = Array::from_slice(&[i64::MIN, 0, i64::MAX]);
    assert_eq!(w.reduce_min(), i64::MIN);
}

#[test]
fn neg_is_lanewise_and_wraps_at_the_minimum() {
    let v: SimdVec<i32, 3> = Array::from_slice(&[5, -5, i32::MIN]);
    let r = v.neg();
    assert_eq!(r.as_slice(), &[-5, 5, i32::MIN]);
}

#[test]
fn bitwise_connectives_are_lanewise() {
    let a: SimdVec<u32, 2> = Array::from_slice(&[0b1100, 0xff00]);
    let b: SimdVec<u32, 2> = Array::from_slice(&[0b1010, 0x0ff0]);
    let a2: SimdVec<u32, 2> = Array::from_slice(&[0b1100, 0xff00]);
    let b2: SimdVec<u32, 2> = Array::from_slice(&[0b1010, 0x0ff0]);
    let a3: SimdVec<u32, 2> = Array::from_slice(&[0b1100, 0xff00]);
    let b3: SimdVec<u32, 2> = Array::from_slice(&[0b1010, 0x0ff0]);
    assert_eq!(a.bitand(b).as_slice(), &[0b1000, 0x0f00]);
    assert_eq!(a2.bitor(b2).as_slice(), &[0b1110, 0xfff0]);
    assert_eq!(a3.bitxor(b3).as_slice(), &[0b0110, 0xf0f0]);
}

#[test]
fn shl_shifts_each_lane_by_its_amount() {
    let v: SimdVec<u32, 2> = Array::from_slice(&[1, 1]);
    let k: SimdVec<u32, 2> = Array::from_slice(&[3, 31]);
    assert_eq!(v.shl(k).as_slice(), &[8, 0x8000_0000]);
}

#[test]
fn shr_is_arithmetic_for_signed_and_logical_for_unsigned() {
    let s: SimdVec<i32, 2> = Array::from_slice(&[-8, 8]);
    let k: SimdVec<i32, 2> = Array::from_slice(&[1, 1]);
    assert_eq!(s.shr(k).as_slice(), &[-4, 4]);
    let u: SimdVec<u32, 2> = Array::from_slice(&[0x8000_0000, 8]);
    let j: SimdVec<u32, 2> = Array::from_slice(&[31, 1]);
    assert_eq!(u.shr(j).as_slice(), &[1, 4]);
}
