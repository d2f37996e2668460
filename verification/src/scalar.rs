//! The closed set of scalar kinds that may occupy a vector lane, and the
//! arithmetic each kind supports.
//!
//! Every lane operation of the numeric capability ladder reduces to a scalar
//! operation defined here.  A kind models its values by their mathematical
//! integer value (`sval`) together with the kind's range; arithmetic wraps
//! into that range (two's-complement behaviour), division and remainder
//! truncate toward zero as the native operators do, and division by a
//! zero-valued operand is a precondition violation, never a defined result.

use vstd::prelude::*;
use vstd::arithmetic::div_mod::{
    lemma_div_is_ordered_by_denominator, lemma_div_nonincreasing, lemma_div_pos_is_pos,
    lemma_fundamental_div_mod, lemma_mod_bound, lemma_mod_multiples_vanish, lemma_small_mod,
};

verus! {

/// True when `x` lies in the inclusive range `[lo, hi]`.
pub open spec fn in_range(x: int, lo: int, hi: int) -> bool {
    lo <= x && x <= hi
}

/// `x` wrapped into the inclusive range `[lo, hi]`: the unique value of that
/// range congruent to `x` modulo the range's size.
pub open spec fn wrap_val(x: int, lo: int, hi: int) -> int {
    lo + (x - lo) % (hi + 1 - lo)
}

/// Quotient of `x` by `d` truncated toward zero, as the native `/` computes it.
pub open spec fn trunc_div(x: int, d: int) -> int
    recommends
        d != 0,
{
    if x == 0 {
        0
    } else if x > 0 && d > 0 {
        x / d
    } else if x < 0 && d < 0 {
        (x * -1) / (d * -1)
    } else if x < 0 {
        ((x * -1) / d) * -1
    } else {
        (x / (d * -1)) * -1
    }
}

/// Remainder of `x` by `d` with the sign of `x`, as the native `%` computes it.
pub open spec fn trunc_rem(x: int, d: int) -> int
    recommends
        d != 0,
{
    if x == 0 {
        0
    } else if x > 0 && d > 0 {
        x % d
    } else if x < 0 && d < 0 {
        ((x * -1) % (d * -1)) * -1
    } else if x < 0 {
        ((x * -1) % d) * -1
    } else {
        x % (d * -1)
    }
}

/// Wrapping a value already in range returns it unchanged.
pub proof fn lemma_wrap_id(x: int, lo: int, hi: int)
    requires
        in_range(x, lo, hi),
    ensures
        wrap_val(x, lo, hi) == x,
{
    lemma_small_mod((x - lo) as nat, (hi + 1 - lo) as nat);
}

/// Shifting the argument by a multiple of the range size does not change the
/// wrapped value.
pub proof fn lemma_wrap_multiples_vanish(x: int, k: int, lo: int, hi: int)
    requires
        lo <= hi,
    ensures
        wrap_val(x + k * (hi + 1 - lo), lo, hi) == wrap_val(x, lo, hi),
{
    let span = hi + 1 - lo;
    assert((span * k + (x - lo)) % span == (x - lo) % span) by {
        lemma_mod_multiples_vanish(k, x - lo, span);
    }
    assert(x + k * span - lo == span * k + (x - lo)) by (nonlinear_arith);
}

/// How a sum (or difference, or negation) of two in-range values wraps: it is
/// either already in range, or exactly one range size off.
pub proof fn lemma_wrap_of_sum(s: int, lo: int, hi: int)
    requires
        lo <= hi,
        lo - (hi + 1 - lo) <= s <= hi + (hi + 1 - lo),
    ensures
        s > hi ==> wrap_val(s, lo, hi) == s - (hi + 1 - lo),
        s < lo ==> wrap_val(s, lo, hi) == s + (hi + 1 - lo),
        in_range(s, lo, hi) ==> wrap_val(s, lo, hi) == s,
{
    let span = hi + 1 - lo;
    if s > hi {
        lemma_wrap_multiples_vanish(s - span, 1, lo, hi);
        lemma_wrap_id(s - span, lo, hi);
    } else if s < lo {
        lemma_wrap_multiples_vanish(s + span, -1, lo, hi);
        lemma_wrap_id(s + span, lo, hi);
    } else {
        lemma_wrap_id(s, lo, hi);
    }
}

/// For a range starting at zero, wrapping is the plain remainder.
pub proof fn lemma_wrap_unsigned(x: int, hi: int)
    requires
        0 <= hi,
    ensures
        wrap_val(x, 0, hi) == x % (hi + 1),
{
}

/// For a two's-complement signed range, wrapping is the remainder by the
/// range size, folded down when it exceeds the maximum.
pub proof fn lemma_wrap_signed_crop(x: int, hi: int)
    requires
        0 <= hi,
    ensures
        x % (2 * hi + 2) > hi ==> wrap_val(x, -hi - 1, hi) == x % (2 * hi + 2) - (2 * hi + 2),
        x % (2 * hi + 2) <= hi ==> wrap_val(x, -hi - 1, hi) == x % (2 * hi + 2),
{
    let lo = -hi - 1;
    let span = 2 * hi + 2;
    let m = x % span;
    lemma_mod_bound(x, span);
    lemma_fundamental_div_mod(x, span);
    let q = x / span;
    assert(x == span * q + m);
    assert(x - lo == span * q + (m - lo)) by (nonlinear_arith)
        requires
            x == span * q + m,
    ;
    assert((span * q + (m - lo)) % span == (m - lo) % span) by {
        lemma_mod_multiples_vanish(q, m - lo, span);
    }
    if m > hi {
        lemma_mod_multiples_vanish(-1, m - lo, span);
        lemma_small_mod((m - lo - span) as nat, span as nat);
    } else {
        lemma_small_mod((m - lo) as nat, span as nat);
    }
}

/// A truncating quotient of in-range operands stays in range, for a
/// two's-complement range, provided the one overflowing pair (the minimum
/// divided by minus one) is excluded.
pub proof fn lemma_trunc_div_in_range(x: int, d: int, hi: int)
    requires
        1 <= hi,
        in_range(x, -hi - 1, hi),
        in_range(d, -hi - 1, hi),
        d != 0,
        !(x == -hi - 1 && d == -1),
    ensures
        in_range(trunc_div(x, d), -hi - 1, hi),
{
    let lo = -hi - 1;
    if x == 0 {
    } else if x > 0 && d > 0 {
        lemma_div_pos_is_pos(x, d);
        lemma_div_nonincreasing(x, d);
    } else if x < 0 && d < 0 {
        let a = x * -1;
        let b = d * -1;
        lemma_div_pos_is_pos(a, b);
        if b == 1 {
            lemma_fundamental_div_mod(a, 1);
            lemma_mod_bound(a, 1);
            assert(a / 1 == a);
        } else {
            lemma_div_is_ordered_by_denominator(a, 1, b);
            lemma_fundamental_div_mod(a, 1);
            lemma_mod_bound(a, 1);
            lemma_div_nonincreasing(a, b);
            if a / b > hi {
                assert(a / b <= a <= hi + 1);
                assert(a == hi + 1 && a / b == hi + 1);
                assert((hi + 1) / b < hi + 1) by {
                    vstd::arithmetic::div_mod::lemma_div_is_strictly_smaller(hi + 1, b);
                }
            }
        }
    } else if x < 0 {
        let a = x * -1;
        lemma_div_pos_is_pos(a, d);
        lemma_div_nonincreasing(a, d);
    } else {
        let b = d * -1;
        lemma_div_pos_is_pos(x, b);
        lemma_div_nonincreasing(x, b);
    }
}

/// A truncating remainder of in-range operands stays in range for a
/// two's-complement range.
pub proof fn lemma_trunc_rem_in_range(x: int, d: int, hi: int)
    requires
        1 <= hi,
        in_range(x, -hi - 1, hi),
        in_range(d, -hi - 1, hi),
        d != 0,
    ensures
        in_range(trunc_rem(x, d), -hi - 1, hi),
{
    if x == 0 {
    } else if x > 0 && d > 0 {
        lemma_mod_bound(x, d);
    } else if x < 0 && d < 0 {
        lemma_mod_bound(x * -1, d * -1);
    } else if x < 0 {
        lemma_mod_bound(x * -1, d);
    } else {
        lemma_mod_bound(x, d * -1);
    }
}

/// A scalar kind: one element type of the closed set, with its range, its
/// wrapping ring arithmetic, its truncating division, and its total order.
///
/// `sval` maps a scalar to the mathematical integer it stands for; every
/// contract of the numeric capabilities is stated through it.  Two scalars of
/// one kind with the same value are the same scalar, and every scalar's value
/// lies in the kind's range.
pub trait ScalarKind: Sized + Copy {
    /// The mathematical value of this scalar.
    spec fn sval(self) -> int;

    /// The least value of the kind.
    spec fn min_val() -> int;

    /// The greatest value of the kind.
    spec fn max_val() -> int;

    /// The kind's range is non-degenerate and holds both identities.
    proof fn lemma_kind_range()
        ensures
            Self::min_val() <= 0,
            1 <= Self::max_val(),
    ;

    /// Every scalar's value lies in the kind's range.
    proof fn lemma_range(self)
        ensures
            in_range(self.sval(), Self::min_val(), Self::max_val()),
    ;

    /// A scalar is determined by its value.
    proof fn lemma_injective(a: Self, b: Self)
        requires
            a.sval() == b.sval(),
        ensures
            a == b,
    ;

    /// The additive identity of the kind.
    fn zero_s() -> (r: Self)
        ensures
            r.sval() == 0,
    ;

    /// The multiplicative identity of the kind.
    fn one_s() -> (r: Self)
        ensures
            r.sval() == 1,
    ;

    /// Wrapping addition.
    fn add_s(self, o: Self) -> (r: Self)
        ensures
            r.sval() == wrap_val(self.sval() + o.sval(), Self::min_val(), Self::max_val()),
    ;

    /// Wrapping subtraction.
    fn sub_s(self, o: Self) -> (r: Self)
        ensures
            r.sval() == wrap_val(self.sval() - o.sval(), Self::min_val(), Self::max_val()),
    ;

    /// Wrapping multiplication.
    fn mul_s(self, o: Self) -> (r: Self)
        ensures
            r.sval() == wrap_val(self.sval() * o.sval(), Self::min_val(), Self::max_val()),
    ;

    /// Division truncating toward zero.  Dividing by zero, or overflowing by
    /// dividing the minimum by minus one, is a precondition violation.
    fn div_s(self, o: Self) -> (r: Self)
        requires
            o.sval() != 0,
            !(self.sval() == Self::min_val() && o.sval() == -1),
        ensures
            r.sval() == trunc_div(self.sval(), o.sval()),
    ;

    /// Remainder matching `div_s`, with the sign of the dividend.
    fn rem_s(self, o: Self) -> (r: Self)
        requires
            o.sval() != 0,
            !(self.sval() == Self::min_val() && o.sval() == -1),
        ensures
            r.sval() == trunc_rem(self.sval(), o.sval()),
    ;

    /// Strict order on values.
    fn lt_s(self, o: Self) -> (r: bool)
        ensures
            r <==> self.sval() < o.sval(),
    ;

    /// Equality of values, which by injectivity is equality of scalars.
    fn eq_s(self, o: Self) -> (r: bool)
        ensures
            r <==> self == o,
    ;
}

/// A scalar kind whose range is symmetric in two's-complement fashion and
/// which supports negation.
pub trait SignedKind: ScalarKind {
    /// The signed range is `[-(max + 1), max]`.
    proof fn lemma_signed_range()
        ensures
            Self::min_val() == -Self::max_val() - 1,
    ;

    /// Wrapping negation: the minimum negates to itself.
    fn neg_s(self) -> (r: Self)
        ensures
            r.sval() == wrap_val(-self.sval(), Self::min_val(), Self::max_val()),
    ;
}

/// A scalar kind whose values are the non-negative residues: its minimum is
/// zero.
pub trait UnsignedKind: ScalarKind {
    /// The unsigned range starts at zero.
    proof fn lemma_unsigned_range()
        ensures
            Self::min_val() == 0,
    ;
}

/// An integer scalar kind: closed under the bitwise connectives and the
/// shifts.  The meaning of each connective is the kind's own (`s_and` and the
/// rest name the kind's bit-level operations); shifting by the lane's bit
/// width or more is a precondition violation.
pub trait IntKind: ScalarKind {
    /// The number of bits in one scalar of this kind.
    spec fn bits() -> int;

    /// Bitwise conjunction of two scalars.
    spec fn s_and(a: Self, b: Self) -> Self;

    /// Bitwise disjunction of two scalars.
    spec fn s_or(a: Self, b: Self) -> Self;

    /// Bitwise exclusive disjunction of two scalars.
    spec fn s_xor(a: Self, b: Self) -> Self;

    /// Left shift of `a` by `k` bit positions.
    spec fn s_shl(a: Self, k: Self) -> Self;

    /// Right shift of `a` by `k` bit positions: arithmetic for signed kinds,
    /// logical for unsigned kinds.
    spec fn s_shr(a: Self, k: Self) -> Self;

    fn and_s(self, o: Self) -> (r: Self)
        ensures
            r == Self::s_and(self, o),
    ;

    fn or_s(self, o: Self) -> (r: Self)
        ensures
            r == Self::s_or(self, o),
    ;

    fn xor_s(self, o: Self) -> (r: Self)
        ensures
            r == Self::s_xor(self, o),
    ;

    fn shl_s(self, k: Self) -> (r: Self)
        requires
            0 <= k.sval() < Self::bits(),
        ensures
            r == Self::s_shl(self, k),
    ;

    fn shr_s(self, k: Self) -> (r: Self)
        requires
            0 <= k.sval() < Self::bits(),
        ensures
            r == Self::s_shr(self, k),
    ;
}

impl ScalarKind for u32 {
    open spec fn sval(self) -> int {
        self as int
    }

    open spec fn min_val() -> int {
        0
    }

    open spec fn max_val() -> int {
        0xffff_ffff
    }

    proof fn lemma_kind_range() {
    }

    proof fn lemma_range(self) {
    }

    proof fn lemma_injective(a: u32, b: u32) {
    }

    fn zero_s() -> (r: u32) {
        0
    }

    fn one_s() -> (r: u32) {
        1
    }

    fn add_s(self, o: u32) -> (r: u32) {
        proof {
            lemma_wrap_of_sum(self as int + o as int, 0, 0xffff_ffff);
        }
        self.wrapping_add(o)
    }

    fn sub_s(self, o: u32) -> (r: u32) {
        proof {
            lemma_wrap_of_sum(self as int - o as int, 0, 0xffff_ffff);
        }
        self.wrapping_sub(o)
    }

    fn mul_s(self, o: u32) -> (r: u32) {
        proof {
            lemma_mod_bound(self as int * o as int, 0x1_0000_0000);
            lemma_wrap_unsigned(self as int * o as int, 0xffff_ffff);
        }
        self.wrapping_mul(o)
    }

    fn div_s(self, o: u32) -> (r: u32) {
        proof {
            if self == 0 {
                vstd::arithmetic::div_mod::lemma_basic_div(0, o as int);
            }
        }
        self / o
    }

    fn rem_s(self, o: u32) -> (r: u32) {
        proof {
            if self == 0 {
                lemma_small_mod(0, o as nat);
            }
        }
        self % o
    }

    fn lt_s(self, o: u32) -> (r: bool) {
        self < o
    }

    fn eq_s(self, o: u32) -> (r: bool) {
        self == o
    }
}

impl UnsignedKind for u32 {
    proof fn lemma_unsigned_range() {
    }
}

impl IntKind for u32 {
    open spec fn bits() -> int {
        32
    }

    open spec fn s_and(a: u32, b: u32) -> u32 {
        a & b
    }

    open spec fn s_or(a: u32, b: u32) -> u32 {
        a | b
    }

    open spec fn s_xor(a: u32, b: u32) -> u32 {
        a ^ b
    }

    open spec fn s_shl(a: u32, k: u32) -> u32 {
        a << k
    }

    open spec fn s_shr(a: u32, k: u32) -> u32 {
        a >> k
    }

    fn and_s(self, o: u32) -> (r: u32) {
        self & o
    }

    fn or_s(self, o: u32) -> (r: u32) {
        self | o
    }

    fn xor_s(self, o: u32) -> (r: u32) {
        self ^ o
    }

    fn shl_s(self, k: u32) -> (r: u32) {
        self << k
    }

    fn shr_s(self, k: u32) -> (r: u32) {
        self >> k
    }
}

impl ScalarKind for i32 {
    open spec fn sval(self) -> int {
        self as int
    }

    open spec fn min_val() -> int {
        -0x8000_0000
    }

    open spec fn max_val() -> int {
        0x7fff_ffff
    }

    proof fn lemma_kind_range() {
    }

    proof fn lemma_range(self) {
    }

    proof fn lemma_injective(a: i32, b: i32) {
    }

    fn zero_s() -> (r: i32) {
        0
    }

    fn one_s() -> (r: i32) {
        1
    }

    fn add_s(self, o: i32) -> (r: i32) {
        proof {
            lemma_wrap_of_sum(self as int + o as int, -0x8000_0000, 0x7fff_ffff);
        }
        self.wrapping_add(o)
    }

    fn sub_s(self, o: i32) -> (r: i32) {
        proof {
            lemma_wrap_of_sum(self as int - o as int, -0x8000_0000, 0x7fff_ffff);
        }
        self.wrapping_sub(o)
    }

    fn mul_s(self, o: i32) -> (r: i32) {
        proof {
            lemma_mod_bound(self as int * o as int, 0x1_0000_0000);
            lemma_wrap_signed_crop(self as int * o as int, 0x7fff_ffff);
        }
        self.wrapping_mul(o)
    }

    fn div_s(self, o: i32) -> (r: i32) {
        proof {
            lemma_trunc_div_in_range(self as int, o as int, 0x7fff_ffff);
        }
        self.checked_div(o).unwrap()
    }

    fn rem_s(self, o: i32) -> (r: i32) {
        proof {
            lemma_trunc_rem_in_range(self as int, o as int, 0x7fff_ffff);
        }
        self.checked_rem(o).unwrap()
    }

    fn lt_s(self, o: i32) -> (r: bool) {
        self < o
    }

    fn eq_s(self, o: i32) -> (r: bool) {
        self == o
    }
}

impl SignedKind for i32 {
    proof fn lemma_signed_range() {
    }

    fn neg_s(self) -> (r: i32) {
        proof {
            lemma_wrap_of_sum(-(self as int), -0x8000_0000, 0x7fff_ffff);
        }
        0i32.wrapping_sub(self)
    }
}

impl IntKind for i32 {
    open spec fn bits() -> int {
        32
    }

    open spec fn s_and(a: i32, b: i32) -> i32 {
        a & b
    }

    open spec fn s_or(a: i32, b: i32) -> i32 {
        a | b
    }

    open spec fn s_xor(a: i32, b: i32) -> i32 {
        a ^ b
    }

    open spec fn s_shl(a: i32, k: i32) -> i32 {
        a << k
    }

    open spec fn s_shr(a: i32, k: i32) -> i32 {
        a >> k
    }

    fn and_s(self, o: i32) -> (r: i32) {
        self & o
    }

    fn or_s(self, o: i32) -> (r: i32) {
        self | o
    }

    fn xor_s(self, o: i32) -> (r: i32) {
        self ^ o
    }

    fn shl_s(self, k: i32) -> (r: i32) {
        self << k
    }

    fn shr_s(self, k: i32) -> (r: i32) {
        self >> k
    }
}

impl ScalarKind for u8 {
    open spec fn sval(self) -> int {
        self as int
    }

    open spec fn min_val() -> int {
        0
    }

    open spec fn max_val() -> int {
        0xff
    }

    proof fn lemma_kind_range() {
    }

    proof fn lemma_range(self) {
    }

    proof fn lemma_injective(a: u8, b: u8) {
    }

    fn zero_s() -> (r: u8) {
        0
    }

    fn one_s() -> (r: u8) {
        1
    }

    fn add_s(self, o: u8) -> (r: u8) {
        proof {
            lemma_wrap_of_sum(self as int + o as int, 0, 0xff);
        }
        self.wrapping_add(o)
    }

    fn sub_s(self, o: u8) -> (r: u8) {
        proof {
            lemma_wrap_of_sum(self as int - o as int, 0, 0xff);
        }
        self.wrapping_sub(o)
    }

    fn mul_s(self, o: u8) -> (r: u8) {
        proof {
            lemma_mod_bound(self as int * o as int, 0x100);
            lemma_wrap_unsigned(self as int * o as int, 0xff);
        }
        self.wrapping_mul(o)
    }

    fn div_s(self, o: u8) -> (r: u8) {
        proof {
            if self == 0 {
                vstd::arithmetic::div_mod::lemma_basic_div(0, o as int);
            }
        }
        self / o
    }

    fn rem_s(self, o: u8) -> (r: u8) {
        proof {
            if self == 0 {
                lemma_small_mod(0, o as nat);
            }
        }
        self % o
    }

    fn lt_s(self, o: u8) -> (r: bool) {
        self < o
    }

    fn eq_s(self, o: u8) -> (r: bool) {
        self == o
    }
}

impl UnsignedKind for u8 {
    proof fn lemma_unsigned_range() {
    }
}

impl IntKind for u8 {
    open spec fn bits() -> int {
        8
    }

    open spec fn s_and(a: u8, b: u8) -> u8 {
        a & b
    }

    open spec fn s_or(a: u8, b: u8) -> u8 {
        a | b
    }

    open spec fn s_xor(a: u8, b: u8) -> u8 {
        a ^ b
    }

    open spec fn s_shl(a: u8, k: u8) -> u8 {
        a << k
    }

    open spec fn s_shr(a: u8, k: u8) -> u8 {
        a >> k
    }

    fn and_s(self, o: u8) -> (r: u8) {
        self & o
    }

    fn or_s(self, o: u8) -> (r: u8) {
        self | o
    }

    fn xor_s(self, o: u8) -> (r: u8) {
        self ^ o
    }

    fn shl_s(self, k: u8) -> (r: u8) {
        self << k
    }

    fn shr_s(self, k: u8) -> (r: u8) {
        self >> k
    }
}

impl ScalarKind for u16 {
    open spec fn sval(self) -> int {
        self as int
    }

    open spec fn min_val() -> int {
        0
    }

    open spec fn max_val() -> int {
        0xffff
    }

    proof fn lemma_kind_range() {
    }

    proof fn lemma_range(self) {
    }

    proof fn lemma_injective(a: u16, b: u16) {
    }

    fn zero_s() -> (r: u16) {
        0
    }

    fn one_s() -> (r: u16) {
        1
    }

    fn add_s(self, o: u16) -> (r: u16) {
        proof {
            lemma_wrap_of_sum(self as int + o as int, 0, 0xffff);
        }
        self.wrapping_add(o)
    }

    fn sub_s(self, o: u16) -> (r: u16) {
        proof {
            lemma_wrap_of_sum(self as int - o as int, 0, 0xffff);
        }
        self.wrapping_sub(o)
    }

    fn mul_s(self, o: u16) -> (r: u16) {
        proof {
            lemma_mod_bound(self as int * o as int, 0x1_0000);
            lemma_wrap_unsigned(self as int * o as int, 0xffff);
        }
        self.wrapping_mul(o)
    }

    fn div_s(self, o: u16) -> (r: u16) {
        proof {
            if self == 0 {
                vstd::arithmetic::div_mod::lemma_basic_div(0, o as int);
            }
        }
        self / o
    }

    fn rem_s(self, o: u16) -> (r: u16) {
        proof {
            if self == 0 {
                lemma_small_mod(0, o as nat);
            }
        }
        self % o
    }

    fn lt_s(self, o: u16) -> (r: bool) {
        self < o
    }

    fn eq_s(self, o: u16) -> (r: bool) {
        self == o
    }
}

impl UnsignedKind for u16 {
    proof fn lemma_unsigned_range() {
    }
}

impl IntKind for u16 {
    open spec fn bits() -> int {
        16
    }

    open spec fn s_and(a: u16, b: u16) -> u16 {
        a & b
    }

    open spec fn s_or(a: u16, b: u16) -> u16 {
        a | b
    }

    open spec fn s_xor(a: u16, b: u16) -> u16 {
        a ^ b
    }

    open spec fn s_shl(a: u16, k: u16) -> u16 {
        a << k
    }

    open spec fn s_shr(a: u16, k: u16) -> u16 {
        a >> k
    }

    fn and_s(self, o: u16) -> (r: u16) {
        self & o
    }

    fn or_s(self, o: u16) -> (r: u16) {
        self | o
    }

    fn xor_s(self, o: u16) -> (r: u16) {
        self ^ o
    }

    fn shl_s(self, k: u16) -> (r: u16) {
        self << k
    }

    fn shr_s(self, k: u16) -> (r: u16) {
        self >> k
    }
}

impl ScalarKind for u64 {
    open spec fn sval(self) -> int {
        self as int
    }

    open spec fn min_val() -> int {
        0
    }

    open spec fn max_val() -> int {
        0xffff_ffff_ffff_ffff
    }

    proof fn lemma_kind_range() {
    }

    proof fn lemma_range(self) {
    }

    proof fn lemma_injective(a: u64, b: u64) {
    }

    fn zero_s() -> (r: u64) {
        0
    }

    fn one_s() -> (r: u64) {
        1
    }

    fn add_s(self, o: u64) -> (r: u64) {
        proof {
            lemma_wrap_of_sum(self as int + o as int, 0, 0xffff_ffff_ffff_ffff);
        }
        self.wrapping_add(o)
    }

    fn sub_s(self, o: u64) -> (r: u64) {
        proof {
            lemma_wrap_of_sum(self as int - o as int, 0, 0xffff_ffff_ffff_ffff);
        }
        self.wrapping_sub(o)
    }

    fn mul_s(self, o: u64) -> (r: u64) {
        proof {
            lemma_mod_bound(self as int * o as int, 0x1_0000_0000_0000_0000);
            lemma_wrap_unsigned(self as int * o as int, 0xffff_ffff_ffff_ffff);
        }
        self.wrapping_mul(o)
    }

    fn div_s(self, o: u64) -> (r: u64) {
        proof {
            if self == 0 {
                vstd::arithmetic::div_mod::lemma_basic_div(0, o as int);
            }
        }
        self / o
    }

    fn rem_s(self, o: u64) -> (r: u64) {
        proof {
            if self == 0 {
                lemma_small_mod(0, o as nat);
            }
        }
        self % o
    }

    fn lt_s(self, o: u64) -> (r: bool) {
        self < o
    }

    fn eq_s(self, o: u64) -> (r: bool) {
        self == o
    }
}

impl UnsignedKind for u64 {
    proof fn lemma_unsigned_range() {
    }
}

impl IntKind for u64 {
    open spec fn bits() -> int {
        64
    }

    open spec fn s_and(a: u64, b: u64) -> u64 {
        a & b
    }

    open spec fn s_or(a: u64, b: u64) -> u64 {
        a | b
    }

    open spec fn s_xor(a: u64, b: u64) -> u64 {
        a ^ b
    }

    open spec fn s_shl(a: u64, k: u64) -> u64 {
        a << k
    }

    open spec fn s_shr(a: u64, k: u64) -> u64 {
        a >> k
    }

    fn and_s(self, o: u64) -> (r: u64) {
        self & o
    }

    fn or_s(self, o: u64) -> (r: u64) {
        self | o
    }

    fn xor_s(self, o: u64) -> (r: u64) {
        self ^ o
    }

    fn shl_s(self, k: u64) -> (r: u64) {
        self << k
    }

    fn shr_s(self, k: u64) -> (r: u64) {
        self >> k
    }
}

impl ScalarKind for i8 {
    open spec fn sval(self) -> int {
        self as int
    }

    open spec fn min_val() -> int {
        -0x80
    }

    open spec fn max_val() -> int {
        0x7f
    }

    proof fn lemma_kind_range() {
    }

    proof fn lemma_range(self) {
    }

    proof fn lemma_injective(a: i8, b: i8) {
    }

    fn zero_s() -> (r: i8) {
        0
    }

    fn one_s() -> (r: i8) {
        1
    }

    fn add_s(self, o: i8) -> (r: i8) {
        proof {
            lemma_wrap_of_sum(self as int + o as int, -0x80, 0x7f);
        }
        self.wrapping_add(o)
    }

    fn sub_s(self, o: i8) -> (r: i8) {
        proof {
            lemma_wrap_of_sum(self as int - o as int, -0x80, 0x7f);
        }
        self.wrapping_sub(o)
    }

    fn mul_s(self, o: i8) -> (r: i8) {
        proof {
            lemma_mod_bound(self as int * o as int, 0x100);
            lemma_wrap_signed_crop(self as int * o as int, 0x7f);
        }
        self.wrapping_mul(o)
    }

    fn div_s(self, o: i8) -> (r: i8) {
        proof {
            lemma_trunc_div_in_range(self as int, o as int, 0x7f);
        }
        self.checked_div(o).unwrap()
    }

    fn rem_s(self, o: i8) -> (r: i8) {
        proof {
            lemma_trunc_rem_in_range(self as int, o as int, 0x7f);
        }
        self.checked_rem(o).unwrap()
    }

    fn lt_s(self, o: i8) -> (r: bool) {
        self < o
    }

    fn eq_s(self, o: i8) -> (r: bool) {
        self == o
    }
}

impl SignedKind for i8 {
    proof fn lemma_signed_range() {
    }

    fn neg_s(self) -> (r: i8) {
        proof {
            lemma_wrap_of_sum(-(self as int), -0x80, 0x7f);
        }
        (0 as i8).wrapping_sub(self)
    }
}

impl IntKind for i8 {
    open spec fn bits() -> int {
        8
    }

    open spec fn s_and(a: i8, b: i8) -> i8 {
        a & b
    }

    open spec fn s_or(a: i8, b: i8) -> i8 {
        a | b
    }

    open spec fn s_xor(a: i8, b: i8) -> i8 {
        a ^ b
    }

    open spec fn s_shl(a: i8, k: i8) -> i8 {
        a << k
    }

    open spec fn s_shr(a: i8, k: i8) -> i8 {
        a >> k
    }

    fn and_s(self, o: i8) -> (r: i8) {
        self & o
    }

    fn or_s(self, o: i8) -> (r: i8) {
        self | o
    }

    fn xor_s(self, o: i8) -> (r: i8) {
        self ^ o
    }

    fn shl_s(self, k: i8) -> (r: i8) {
        self << k
    }

    fn shr_s(self, k: i8) -> (r: i8) {
        self >> k
    }
}

impl ScalarKind for i16 {
    open spec fn sval(self) -> int {
        self as int
    }

    open spec fn min_val() -> int {
        -0x8000
    }

    open spec fn max_val() -> int {
        0x7fff
    }

    proof fn lemma_kind_range() {
    }

    proof fn lemma_range(self) {
    }

    proof fn lemma_injective(a: i16, b: i16) {
    }

    fn zero_s() -> (r: i16) {
        0
    }

    fn one_s() -> (r: i16) {
        1
    }

    fn add_s(self, o: i16) -> (r: i16) {
        proof {
            lemma_wrap_of_sum(self as int + o as int, -0x8000, 0x7fff);
        }
        self.wrapping_add(o)
    }

    fn sub_s(self, o: i16) -> (r: i16) {
        proof {
            lemma_wrap_of_sum(self as int - o as int, -0x8000, 0x7fff);
        }
        self.wrapping_sub(o)
    }

    fn mul_s(self, o: i16) -> (r: i16) {
        proof {
            lemma_mod_bound(self as int * o as int, 0x1_0000);
            lemma_wrap_signed_crop(self as int * o as int, 0x7fff);
        }
        self.wrapping_mul(o)
    }

    fn div_s(self, o: i16) -> (r: i16) {
        proof {
            lemma_trunc_div_in_range(self as int, o as int, 0x7fff);
        }
        self.checked_div(o).unwrap()
    }

    fn rem_s(self, o: i16) -> (r: i16) {
        proof {
            lemma_trunc_rem_in_range(self as int, o as int, 0x7fff);
        }
        self.checked_rem(o).unwrap()
    }

    fn lt_s(self, o: i16) -> (r: bool) {
        self < o
    }

    fn eq_s(self, o: i16) -> (r: bool) {
        self == o
    }
}

impl SignedKind for i16 {
    proof fn lemma_signed_range() {
    }

    fn neg_s(self) -> (r: i16) {
        proof {
            lemma_wrap_of_sum(-(self as int), -0x8000, 0x7fff);
        }
        (0 as i16).wrapping_sub(self)
    }
}

impl IntKind for i16 {
    open spec fn bits() -> int {
        16
    }

    open spec fn s_and(a: i16, b: i16) -> i16 {
        a & b
    }

    open spec fn s_or(a: i16, b: i16) -> i16 {
        a | b
    }

    open spec fn s_xor(a: i16, b: i16) -> i16 {
        a ^ b
    }

    open spec fn s_shl(a: i16, k: i16) -> i16 {
        a << k
    }

    open spec fn s_shr(a: i16, k: i16) -> i16 {
        a >> k
    }

    fn and_s(self, o: i16) -> (r: i16) {
        self & o
    }

    fn or_s(self, o: i16) -> (r: i16) {
        self | o
    }

    fn xor_s(self, o: i16) -> (r: i16) {
        self ^ o
    }

    fn shl_s(self, k: i16) -> (r: i16) {
        self << k
    }

    fn shr_s(self, k: i16) -> (r: i16) {
        self >> k
    }
}

impl ScalarKind for i64 {
    open spec fn sval(self) -> int {
        self as int
    }

    open spec fn min_val() -> int {
        -0x8000_0000_0000_0000
    }

    open spec fn max_val() -> int {
        0x7fff_ffff_ffff_ffff
    }

    proof fn lemma_kind_range() {
    }

    proof fn lemma_range(self) {
    }

    proof fn lemma_injective(a: i64, b: i64) {
    }

    fn zero_s() -> (r: i64) {
        0
    }

    fn one_s() -> (r: i64) {
        1
    }

    fn add_s(self, o: i64) -> (r: i64) {
        proof {
            lemma_wrap_of_sum(self as int + o as int, -0x8000_0000_0000_0000, 0x7fff_ffff_ffff_ffff);
        }
        self.wrapping_add(o)
    }

    fn sub_s(self, o: i64) -> (r: i64) {
        proof {
            lemma_wrap_of_sum(self as int - o as int, -0x8000_0000_0000_0000, 0x7fff_ffff_ffff_ffff);
        }
        self.wrapping_sub(o)
    }

    fn mul_s(self, o: i64) -> (r: i64) {
        proof {
            lemma_mod_bound(self as int * o as int, 0x1_0000_0000_0000_0000);
            lemma_wrap_signed_crop(self as int * o as int, 0x7fff_ffff_ffff_ffff);
        }
        self.wrapping_mul(o)
    }

    fn div_s(self, o: i64) -> (r: i64) {
        proof {
            lemma_trunc_div_in_range(self as int, o as int, 0x7fff_ffff_ffff_ffff);
        }
        self.checked_div(o).unwrap()
    }

    fn rem_s(self, o: i64) -> (r: i64) {
        proof {
            lemma_trunc_rem_in_range(self as int, o as int, 0x7fff_ffff_ffff_ffff);
        }
        self.checked_rem(o).unwrap()
    }

    fn lt_s(self, o: i64) -> (r: bool) {
        self < o
    }

    fn eq_s(self, o: i64) -> (r: bool) {
        self == o
    }
}

impl SignedKind for i64 {
    proof fn lemma_signed_range() {
    }

    fn neg_s(self) -> (r: i64) {
        proof {
            lemma_wrap_of_sum(-(self as int), -0x8000_0000_0000_0000, 0x7fff_ffff_ffff_ffff);
        }
        (0 as i64).wrapping_sub(self)
    }
}

impl IntKind for i64 {
    open spec fn bits() -> int {
        64
    }

    open spec fn s_and(a: i64, b: i64) -> i64 {
        a & b
    }

    open spec fn s_or(a: i64, b: i64) -> i64 {
        a | b
    }

    open spec fn s_xor(a: i64, b: i64) -> i64 {
        a ^ b
    }

    open spec fn s_shl(a: i64, k: i64) -> i64 {
        a << k
    }

    open spec fn s_shr(a: i64, k: i64) -> i64 {
        a >> k
    }

    fn and_s(self, o: i64) -> (r: i64) {
        self & o
    }

    fn or_s(self, o: i64) -> (r: i64) {
        self | o
    }

    fn xor_s(self, o: i64) -> (r: i64) {
        self ^ o
    }

    fn shl_s(self, k: i64) -> (r: i64) {
        self << k
    }

    fn shr_s(self, k: i64) -> (r: i64) {
        self >> k
    }
}

} // verus!
