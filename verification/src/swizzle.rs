//! Operations for rearranging vector lanes, possibly changing the width.
//!
//! A swizzle names, per output lane, one lane of a source vector (or of the
//! logical concatenation of two same-width sources).  The index list must
//! have exactly the output width and every index must be in range for the
//! chosen mode; both are preconditions checked before the program runs,
//! never at run time.

use vstd::prelude::*;
use vstd::arithmetic::div_mod::{
    lemma_div_multiples_vanish, lemma_div_multiples_vanish_fancy, lemma_mod_multiples_basic,
    lemma_mod_multiples_vanish, lemma_small_mod,
};
use crate::vector::{Lanes, SimdVec, Vector};

verus! {

/// `s` with its lane order inverted.
pub open spec fn reverse_vals<T>(s: Seq<T>) -> Seq<T> {
    Seq::new(s.len(), |i: int| s[s.len() - 1 - i])
}

/// The full interleaving of two same-width lane sequences: lanes of `a` and
/// `b` alternating, starting with `a`.
pub open spec fn interleave_vals<T>(a: Seq<T>, b: Seq<T>) -> Seq<T>
    recommends
        a.len() == b.len(),
{
    Seq::new(
        a.len() + b.len(),
        |k: int|
            if k % 2 == 0 {
                a[k / 2]
            } else {
                b[k / 2]
            },
    )
}

/// The low half of the interleaving of `a` and `b`.
pub open spec fn interleave_lo<T>(a: Seq<T>, b: Seq<T>) -> Seq<T>
    recommends
        a.len() == b.len(),
{
    interleave_vals(a, b).take(a.len() as int)
}

/// The high half of the interleaving of `a` and `b`.
pub open spec fn interleave_hi<T>(a: Seq<T>, b: Seq<T>) -> Seq<T>
    recommends
        a.len() == b.len(),
{
    interleave_vals(a, b).skip(a.len() as int)
}

/// The even-indexed lanes of the concatenation of `a` and `b`.
pub open spec fn deinterleave_lo<T>(a: Seq<T>, b: Seq<T>) -> Seq<T>
    recommends
        a.len() == b.len(),
{
    Seq::new(a.len(), |i: int| (a + b)[2 * i])
}

/// The odd-indexed lanes of the concatenation of `a` and `b`.
pub open spec fn deinterleave_hi<T>(a: Seq<T>, b: Seq<T>) -> Seq<T>
    recommends
        a.len() == b.len(),
{
    Seq::new(a.len(), |i: int| (a + b)[2 * i + 1])
}

/// A named, reusable list of source-lane indices for a swizzle.
///
/// An implementor fixes the list once; `spec_index` is the list as
/// mathematics and `index` materializes it, so a kernel can be written
/// against the name and verified against the list.
pub trait SwizzleIndex {
    /// The fixed index list.
    spec fn spec_index() -> Seq<int>;

    /// Materialize the fixed index list.
    fn index() -> (r: Vec<usize>)
        ensures
            r@.map_values(|v: usize| v as int) == Self::spec_index(),
    ;
}

/// Rearrange a vector, possibly changing its width.
///
/// The index list's length must equal the output width and every index must
/// name an existing source lane (for `concat_swizzle`, a lane of the
/// concatenation of the two sources); both are preconditions, so a
/// malformed swizzle is rejected before any value flows through it.
pub trait Swizzle<To>: Vector where To: Vector<Scalar = Self::Scalar> {
    /// Create a new vector by selecting lanes of this vector.
    fn swizzle(self, index: &[usize]) -> (r: To)
        requires
            self.inv(),
            index@.len() == To::spec_elements(),
            forall|i: int| 0 <= i < index@.len() ==> #[trigger] index@[i] < Self::spec_elements(),
        ensures
            r.inv(),
            r.vals().len() == To::spec_elements(),
            forall|i: int|
                0 <= i < To::spec_elements() ==> r.vals()[i] == self.vals()[index@[i] as int],
    ;

    /// Create a new vector by selecting lanes from the concatenation of
    /// this vector with another of the same width.
    fn concat_swizzle(self, other: Self, index: &[usize]) -> (r: To)
        requires
            self.inv(),
            other.inv(),
            index@.len() == To::spec_elements(),
            forall|i: int|
                0 <= i < index@.len() ==> #[trigger] index@[i] < 2 * Self::spec_elements(),
        ensures
            r.inv(),
            r.vals().len() == To::spec_elements(),
            forall|i: int|
                0 <= i < To::spec_elements() ==> r.vals()[i] == (self.vals() + other.vals())[
                    index@[i] as int],
    ;
}

/// Materialize a swizzle index list, checking that its length equals the
/// declared output width `n`.
pub fn to_array(slice: &[usize], n: usize) -> (r: Vec<usize>)
    requires
        slice@.len() == n,
    ensures
        r@ == slice@,
{
    let mut array: Vec<usize> = Vec::new();
    let mut i: usize = 0;
    while i < n
        invariant
            i <= n,
            slice@.len() == n,
            array@.len() == i,
            forall|j: int| 0 <= j < i ==> array@[j] == slice@[j],
        decreases n - i,
    {
        array.push(slice[i]);
        i = i + 1;
    }
    proof {
        assert(array@ =~= slice@);
    }
    array
}

/// Swizzle a vector by a named index list.
pub fn swizzle_with<I: SwizzleIndex, To: Vector, V: Swizzle<To>>(v: V) -> (r: To) where
    To: Vector<Scalar = V::Scalar>,
    requires
        v.inv(),
        I::spec_index().len() == To::spec_elements(),
        forall|i: int|
            0 <= i < I::spec_index().len() ==> 0 <= #[trigger] I::spec_index()[i]
                < V::spec_elements(),
    ensures
        r.inv(),
        r.vals().len() == To::spec_elements(),
        forall|i: int| 0 <= i < To::spec_elements() ==> r.vals()[i] == v.vals()[I::spec_index()[i]],
{
    let index = I::index();
    proof {
        let mapped = index@.map_values(|v: usize| v as int);
        assert forall|i: int| 0 <= i < index@.len() implies index@[i] as int == I::spec_index()[i] by {
            assert(mapped[i] == index@[i] as int);
        }
    }
    v.swizzle(index.as_slice())
}

/// Swizzle the concatenation of two same-width vectors by a named index
/// list.
pub fn concat_swizzle_with<I: SwizzleIndex, To: Vector, V: Swizzle<To>>(v: V, other: V) -> (r:
    To) where To: Vector<Scalar = V::Scalar>,
    requires
        v.inv(),
        other.inv(),
        I::spec_index().len() == To::spec_elements(),
        forall|i: int|
            0 <= i < I::spec_index().len() ==> 0 <= #[trigger] I::spec_index()[i] < 2
                * V::spec_elements(),
    ensures
        r.inv(),
        r.vals().len() == To::spec_elements(),
        forall|i: int|
            0 <= i < To::spec_elements() ==> r.vals()[i] == (v.vals() + other.vals())[
                I::spec_index()[i]],
{
    let index = I::index();
    proof {
        let mapped = index@.map_values(|v: usize| v as int);
        assert forall|i: int| 0 <= i < index@.len() implies index@[i] as int == I::spec_index()[i] by {
            assert(mapped[i] == index@[i] as int);
        }
    }
    v.concat_swizzle(other, index.as_slice())
}

impl<T: Copy, const N: usize, const M: usize> Swizzle<SimdVec<T, M>> for SimdVec<T, N> {
    fn swizzle(self, index: &[usize]) -> (r: SimdVec<T, M>) {
        let mut lanes: Vec<T> = Vec::new();
        let mut i: usize = 0;
        while i < M
            invariant
                i <= M,
                self.inv(),
                index@.len() == M,
                forall|j: int| 0 <= j < index@.len() ==> #[trigger] index@[j] < N,
                lanes@.len() == i,
                forall|j: int| 0 <= j < i ==> lanes@[j] == self.lanes@[index@[j] as int],
            decreases M - i,
        {
            let idx = index[i];
            lanes.push(self.lanes[idx]);
            i = i + 1;
        }
        SimdVec { lanes }
    }

    fn concat_swizzle(self, other: Self, index: &[usize]) -> (r: SimdVec<T, M>) {
        let mut lanes: Vec<T> = Vec::new();
        let mut i: usize = 0;
        while i < M
            invariant
                i <= M,
                self.inv(),
                other.inv(),
                index@.len() == M,
                forall|j: int| 0 <= j < index@.len() ==> #[trigger] index@[j] < 2 * N,
                lanes@.len() == i,
                forall|j: int|
                    0 <= j < i ==> lanes@[j] == (self.lanes@ + other.lanes@)[index@[j] as int],
            decreases M - i,
        {
            let idx = index[i];
            let v = if idx < N {
                self.lanes[idx]
            } else {
                other.lanes[idx - N]
            };
            lanes.push(v);
            i = i + 1;
        }
        SimdVec { lanes }
    }
}

/// Common fixed lane rearrangements that keep the width.
///
/// `interleave` and `deinterleave` are mutual inverses; on a single-lane
/// vector there is no second lane to alternate with, so both return their
/// inputs unchanged — a fixed point handled as its own case rather than
/// left to the general rearrangement.
pub trait Shuffle: Vector {
    /// The vector with its lane order inverted.
    fn reverse(self) -> (r: Self)
        requires
            self.inv(),
        ensures
            r.inv(),
            r.vals() == reverse_vals(self.vals()),
    ;

    /// Alternate the lanes of the two vectors; the first result carries the
    /// low half of the interleaving, the second the high half.
    fn interleave(self, other: Self) -> (r: (Self, Self))
        requires
            self.inv(),
            other.inv(),
            2 * Self::spec_elements() <= usize::MAX,
        ensures
            r.0.inv(),
            r.1.inv(),
            r.0.vals() == interleave_lo(self.vals(), other.vals()),
            r.1.vals() == interleave_hi(self.vals(), other.vals()),
    ;

    /// Split the concatenation of the two vectors into its even-indexed and
    /// odd-indexed lanes: the exact inverse of `interleave`.
    fn deinterleave(self, other: Self) -> (r: (Self, Self))
        requires
            self.inv(),
            other.inv(),
            2 * Self::spec_elements() <= usize::MAX,
        ensures
            r.0.inv(),
            r.1.inv(),
            r.0.vals() == deinterleave_lo(self.vals(), other.vals()),
            r.1.vals() == deinterleave_hi(self.vals(), other.vals()),
    ;
}

impl<T: Copy, const N: usize> Shuffle for SimdVec<T, N> {
    fn reverse(self) -> (r: Self) {
        let mut lanes: Vec<T> = Vec::new();
        let mut i: usize = 0;
        while i < N
            invariant
                i <= N,
                self.inv(),
                lanes@.len() == i,
                forall|j: int| 0 <= j < i ==> lanes@[j] == self.lanes@[N - 1 - j],
            decreases N - i,
        {
            lanes.push(self.lanes[N - 1 - i]);
            i = i + 1;
        }
        let r = SimdVec { lanes };
        proof {
            assert(r.vals() =~= reverse_vals(self.vals()));
        }
        r
    }

    fn interleave(self, other: Self) -> (r: (Self, Self)) {
        if N == 1 {
            proof {
                assert(interleave_lo(self.vals(), other.vals()) =~= self.vals());
                assert(interleave_hi(self.vals(), other.vals()) =~= other.vals());
            }
            return (self, other);
        }
        let ghost c = interleave_vals(self.vals(), other.vals());
        let mut lo: Vec<T> = Vec::new();
        let mut k: usize = 0;
        while k < N
            invariant
                k <= N,
                self.inv(),
                other.inv(),
                c == interleave_vals(self.vals(), other.vals()),
                lo@.len() == k,
                forall|j: int| 0 <= j < k ==> lo@[j] == c[j],
            decreases N - k,
        {
            let v = if k % 2 == 0 {
                self.lanes[k / 2]
            } else {
                other.lanes[k / 2]
            };
            lo.push(v);
            k = k + 1;
        }
        let mut hi: Vec<T> = Vec::new();
        let mut i: usize = 0;
        while i < N
            invariant
                i <= N,
                2 * (N as nat) <= usize::MAX,
                self.inv(),
                other.inv(),
                c == interleave_vals(self.vals(), other.vals()),
                hi@.len() == i,
                forall|j: int| 0 <= j < i ==> hi@[j] == c[N + j],
            decreases N - i,
        {
            let k2 = N + i;
            let v = if k2 % 2 == 0 {
                self.lanes[k2 / 2]
            } else {
                other.lanes[k2 / 2]
            };
            hi.push(v);
            i = i + 1;
        }
        let rlo = SimdVec { lanes: lo };
        let rhi = SimdVec { lanes: hi };
        proof {
            assert(rlo.vals() =~= interleave_lo(self.vals(), other.vals()));
            assert(rhi.vals() =~= interleave_hi(self.vals(), other.vals()));
        }
        (rlo, rhi)
    }

    fn deinterleave(self, other: Self) -> (r: (Self, Self)) {
        if N == 1 {
            proof {
                assert(deinterleave_lo(self.vals(), other.vals()) =~= self.vals());
                assert(deinterleave_hi(self.vals(), other.vals()) =~= other.vals());
            }
            return (self, other);
        }
        let mut lo: Vec<T> = Vec::new();
        let mut i: usize = 0;
        while i < N
            invariant
                i <= N,
                2 * (N as nat) <= usize::MAX,
                self.inv(),
                other.inv(),
                lo@.len() == i,
                forall|j: int| 0 <= j < i ==> lo@[j] == (self.lanes@ + other.lanes@)[2 * j],
            decreases N - i,
        {
            let k = 2 * i;
            let v = if k < N {
                self.lanes[k]
            } else {
                other.lanes[k - N]
            };
            lo.push(v);
            i = i + 1;
        }
        let mut hi: Vec<T> = Vec::new();
        let mut j: usize = 0;
        while j < N
            invariant
                j <= N,
                2 * (N as nat) <= usize::MAX,
                self.inv(),
                other.inv(),
                hi@.len() == j,
                forall|m: int| 0 <= m < j ==> hi@[m] == (self.lanes@ + other.lanes@)[2 * m + 1],
            decreases N - j,
        {
            let k = 2 * j + 1;
            let v = if k < N {
                self.lanes[k]
            } else {
                other.lanes[k - N]
            };
            hi.push(v);
            j = j + 1;
        }
        let rlo = SimdVec { lanes: lo };
        let rhi = SimdVec { lanes: hi };
        proof {
            assert(rlo.vals() =~= deinterleave_lo(self.vals(), other.vals()));
            assert(rhi.vals() =~= deinterleave_hi(self.vals(), other.vals()));
        }
        (rlo, rhi)
    }
}

/// Inverting the lane order twice restores every vector exactly.
pub proof fn lemma_reverse_reverse<T>(s: Seq<T>)
    ensures
        reverse_vals(reverse_vals(s)) == s,
{
    assert(reverse_vals(reverse_vals(s)) =~= s);
}

/// Deinterleaving the two halves of an interleaving restores the two
/// original vectors exactly, for every pair of same-width vectors.
pub proof fn lemma_interleave_deinterleave<T>(a: Seq<T>, b: Seq<T>)
    requires
        a.len() == b.len(),
    ensures
        deinterleave_lo(interleave_lo(a, b), interleave_hi(a, b)) == a,
        deinterleave_hi(interleave_lo(a, b), interleave_hi(a, b)) == b,
{
    let n = a.len() as int;
    let c = interleave_vals(a, b);
    let lo = interleave_lo(a, b);
    let hi = interleave_hi(a, b);
    assert((lo + hi) =~= c);
    assert forall|i: int| 0 <= i < n implies (lo + hi)[2 * i] == a[i] && (lo + hi)[2 * i + 1]
        == b[i] by {
        lemma_mod_multiples_basic(i, 2);
        lemma_div_multiples_vanish(i, 2);
        lemma_mod_multiples_vanish(i, 1, 2);
        lemma_small_mod(1, 2);
        lemma_div_multiples_vanish_fancy(i, 1, 2);
    }
    assert(deinterleave_lo(lo, hi) =~= a);
    assert(deinterleave_hi(lo, hi) =~= b);
}

/// On single-lane vectors both `interleave` and `deinterleave` are the
/// identity on their pair of inputs: the defined fixed point at width one.
pub proof fn lemma_width_one_fixed_point<T>(a: Seq<T>, b: Seq<T>)
    requires
        a.len() == 1,
        b.len() == 1,
    ensures
        interleave_lo(a, b) == a,
        interleave_hi(a, b) == b,
        deinterleave_lo(a, b) == a,
        deinterleave_hi(a, b) == b,
{
    assert(interleave_lo(a, b) =~= a);
    assert(interleave_hi(a, b) =~= b);
    assert(deinterleave_lo(a, b) =~= a);
    assert(deinterleave_hi(a, b) =~= b);
}

} // verus!
