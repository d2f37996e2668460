use simd_traits::{Array, Mask, Select, SimdVec, Vector};

#[test]
fn splat_fills_every_lane() {
    let v: SimdVec<i32, 4> = Vector::splat(7);
    assert_eq!(v.as_slice(), &[7, 7, 7, 7]);
    assert_eq!(SimdVec::<i32, 4>::elements(), 4);
}

#[test]
fn insert_then_extract_returns_written_value() {
    let mut v: SimdVec<i32, 4> = Vector::splat(7);
    v.insert(2, 42);
    assert_eq!(v.extract(2), 42);
}

#[test]
fn insert_leaves_other_lanes_unchanged() {
    let mut v: SimdVec<i32, 4> = Array::from_slice(&[10, 20, 30, 40]);
    v.insert(1, 99);
    assert_eq!(v.extract(0), 10);
    assert_eq!(v.extract(1), 99);
    assert_eq!(v.extract(2), 30);
    assert_eq!(v.extract(3), 40);
}

#[test]
fn unchecked_accessors_agree_with_checked() {
    let mut v: SimdVec<u8, 2> = Array::from_slice(&[3, 5]);
    assert_eq!(v.extract_unchecked(1), 5);
    v.insert_unchecked(0, 9);
    assert_eq!(v.extract(0), 9);
}

#[test]
fn from_slice_round_trips_through_as_slice() {
    let v: SimdVec<u64, 3> = Array::from_slice(&[1, 2, 3]);
    assert_eq!(v.as_slice(), &[1, 2, 3]);
}

#[test]
fn store_from_slice_overwrites_all_lanes() {
    let mut v: SimdVec<i16, 2> = Vector::splat(0);
    v.store_from_slice(&[-4, 11]);
    assert_eq!(v.as_slice(), &[-4, 11]);
}

#[test]
fn mask_and_is_lanewise_conjunction() {
    let m1: SimdVec<bool, 4> = Array::from_slice(&[true, false, true, false]);
    let m2: SimdVec<bool, 4> = Array::from_slice(&[true, true, false, false]);
    let r = m1.and(m2);
    assert_eq!(r.as_slice(), &[true, false, false, false]);
}

#[test]
fn mask_or_is_lanewise_disjunction() {
    let m1: SimdVec<bool, 4> = Array::from_slice(&[true, false, true, false]);
    let m2: SimdVec<bool, 4> = Array::from_slice(&[true, true, false, false]);
    let r = m1.or(m2);
    assert_eq!(r.as_slice(), &[true, true, true, false]);
}

#[test]
fn mask_xor_is_lanewise_exclusive_disjunction() {
    let m1: SimdVec<bool, 4> = Array::from_slice(&[true, false, true, false]);
    let m2: SimdVec<bool, 4> = Array::from_slice(&[true, true, false, false]);
    let r = m1.xor(m2);
    assert_eq!(r.as_slice(), &[false, true, true, false]);
}

#[test]
fn mask_not_is_lanewise_negation() {
    let m: SimdVec<bool, 4> = Array::from_slice(&[true, false, true, false]);
    let r = m.not();
    assert_eq!(r.as_slice(), &[false, true, false, true]);
}

#[test]
fn vector_select_chooses_true_lanes_from_first_argument() {
    let m: SimdVec<bool, 4> = Array::from_slice(&[true, false, false, true]);
    let t: SimdVec<i32, 4> = Array::from_slice(&[1, 2, 3, 4]);
    let f: SimdVec<i32, 4> = Array::from_slice(&[-1, -2, -3, -4]);
    let r = Vector::select(&m, t, f);
    assert_eq!(r.as_slice(), &[1, -2, -3, 4]);
}

#[test]
fn mask_select_agrees_with_vector_select() {
    let m: SimdVec<bool, 4> = Array::from_slice(&[true, false, false, true]);
    let t: SimdVec<i32, 4> = Array::from_slice(&[1, 2, 3, 4]);
    let f: SimdVec<i32, 4> = Array::from_slice(&[-1, -2, -3, -4]);
    let r: SimdVec<i32, 4> = Mask::select(&m, t, f);
    assert_eq!(r.as_slice(), &[1, -2, -3, 4]);
}

#[test]
fn standalone_select_agrees_with_vector_select() {
    let m: SimdVec<bool, 4> = Array::from_slice(&[false, true, true, false]);
    let t: SimdVec<u8, 4> = Array::from_slice(&[1, 2, 3, 4]);
    let f: SimdVec<u8, 4> = Array::from_slice(&[10, 20, 30, 40]);
    let r = Select::select(&m, t, f);
    assert_eq!(r.as_slice(), &[10, 2, 3, 40]);
}

#[test]
fn select_on_masks_composes() {
    let m: SimdVec<bool, 2> = Array::from_slice(&[true, false]);
    let t: SimdVec<bool, 2> = Array::from_slice(&[false, false]);
    let f: SimdVec<bool, 2> = Array::from_slice(&[true, true]);
    let r = Vector::select(&m, t, f);
    assert_eq!(r.as_slice(), &[false, true]);
}
