//! A 32-bit fixed-point number.

use crate::error::ArithmeticError;
use crate::number::{ArithmeticLaws, Number, Sqrt};
use crate::scaled::{
    div_toward_zero, is_nearest_root, lemma_div_exact, lemma_machine_division,
    lemma_nearest_root_bound, lemma_nearest_root_exists, lemma_rescale_unchanged, magnitude,
    nearest_root, pow2_u128, scale_of, scaled_product, scaled_quotient, scaled_root,
};
use crate::vector::Vector;
use core::cmp::Ordering;
use core::ops::{Add, AddAssign, Div, DivAssign, Mul, MulAssign, Neg, Sub, SubAssign};
use vstd::arithmetic::div_mod::{
    lemma_basic_div, lemma_div_is_ordered_by_denominator, lemma_fundamental_div_mod,
    lemma_fundamental_div_mod_converse, lemma_mod_multiples_vanish, lemma_small_mod,
};
use vstd::arithmetic::mul::lemma_mul_nonnegative;
use vstd::arithmetic::power2::{
    lemma2_to64, lemma_pow2_adds, lemma_pow2_pos, lemma_pow2_strictly_increases, pow2,
};
use vstd::prelude::*;
use vstd::std_specs::convert::FromSpec;
use vstd::std_specs::ops::{AddSpec, DivSpec, MulSpec, NegSpec, SubSpec};
use vstd::wrapping::i32_specs::signed_crop;

verus! {

/// A 32 bit fixed point number: a number stored as an integer that counts
/// units of `2^-SHIFT`.
///
/// The `SHIFT` parameter determines how many of the lower bits are used for
/// the fractional components. Numbers of different `SHIFT` are of different
/// types and do not mix.
///
/// No operation here wraps or truncates a result in silence but the
/// conversion from an integer, which says so. The operators ask the caller
/// for operands whose result fits; `checked_mul` and `checked_div` take any
/// operands and report what does not fit.
#[derive(Clone, Copy, Debug, Eq, Ord, Hash)]
pub struct Fixed32<const SHIFT: u32> {
    raw: i32,
}

/// Whether `v` can be stored in 32 bits with a sign.
pub open spec fn fits_i32(v: int) -> bool {
    i32::MIN <= v <= i32::MAX
}

/// An integer that fits in 32 bits is what is left of it after wrapping.
pub proof fn lemma_crop_fits(v: int)
    requires
        fits_i32(v),
    ensures
        signed_crop(v) == v,
{
    if v >= 0 {
        lemma_small_mod(v as nat, 0x1_0000_0000);
    } else {
        lemma_fundamental_div_mod_converse(v, 0x1_0000_0000, -1, v + 0x1_0000_0000);
    }
}

/// Integers that differ by a multiple of `2^32` wrap to the same value.
pub proof fn lemma_crop_congruent(v: int, k: int)
    ensures
        signed_crop(v + k * 0x1_0000_0000) == signed_crop(v),
{
    lemma_mod_multiples_vanish(k, v, 0x1_0000_0000);
    assert(0x1_0000_0000 * k + v == v + k * 0x1_0000_0000);
}

/// Wrapping moves an integer by a multiple of `2^32`.
pub proof fn lemma_crop_residue(v: int) -> (k: int)
    ensures
        signed_crop(v) == v + k * 0x1_0000_0000,
{
    lemma_fundamental_div_mod(v, 0x1_0000_0000);
    let q = v / 0x1_0000_0000;
    if v % 0x1_0000_0000 > i32::MAX {
        -q - 1
    } else {
        -q
    }
}

impl<const SHIFT: u32> View for Fixed32<SHIFT> {
    type V = int;

    /// The stored integer: the number itself times `2^SHIFT`.
    closed spec fn view(&self) -> int {
        self.raw as int
    }
}

impl<const SHIFT: u32> Fixed32<SHIFT> {
    /// The factor between a number and its stored integer.
    pub open spec fn scale() -> int {
        scale_of(SHIFT)
    }

    /// The number whose stored integer is `v`, wrapped to 32 bits.
    pub closed spec fn of(v: int) -> Self {
        Fixed32 { raw: signed_crop(v) }
    }

    /// What `of` stores.
    pub broadcast proof fn lemma_of(v: int)
        ensures
            #[trigger] Self::of(v)@ == signed_crop(v),
            fits_i32(v) ==> Self::of(v)@ == v,
    {
        if fits_i32(v) {
            lemma_crop_fits(v);
        }
    }

    /// Every stored integer is in range, and a number is the one that `of`
    /// gives for its stored integer.
    pub broadcast proof fn lemma_view(self)
        ensures
            fits_i32(#[trigger] self@),
            Self::of(self@) == self,
    {
        lemma_crop_fits(self@);
    }

    /// Numbers with the same stored integer are equal.
    pub proof fn lemma_view_injective(self, other: Self)
        requires
            self@ == other@,
        ensures
            self == other,
    {
    }

    /// The number with the given stored integer.
    pub fn from_raw(raw: i32) -> (r: Self)
        ensures
            r@ == raw,
    {
        Fixed32 { raw }
    }

    /// The stored integer.
    pub fn to_raw(self) -> (raw: i32)
        ensures
            raw == self@,
    {
        self.raw
    }
}

impl<const SHIFT: u32> vstd::std_specs::cmp::PartialEqSpecImpl for Fixed32<SHIFT> {
    open spec fn obeys_eq_spec() -> bool {
        true
    }

    open spec fn eq_spec(&self, other: &Self) -> bool {
        self@ == other@
    }
}

impl<const SHIFT: u32> PartialEq for Fixed32<SHIFT> {
    /// Numbers of one `SHIFT` are equal where their stored integers are.
    fn eq(&self, other: &Self) -> (r: bool) {
        self.raw == other.raw
    }
}

impl<const SHIFT: u32> vstd::std_specs::cmp::PartialOrdSpecImpl for Fixed32<SHIFT> {
    open spec fn obeys_partial_cmp_spec() -> bool {
        true
    }

    open spec fn partial_cmp_spec(&self, other: &Self) -> Option<Ordering> {
        if self@ < other@ {
            Some(Ordering::Less)
        } else if self@ > other@ {
            Some(Ordering::Greater)
        } else {
            Some(Ordering::Equal)
        }
    }
}

impl<const SHIFT: u32> PartialOrd for Fixed32<SHIFT> {
    /// Numbers of one `SHIFT` are ordered as their stored integers are.
    fn partial_cmp(&self, other: &Self) -> (r: Option<Ordering>) {
        if self.raw < other.raw {
            Some(Ordering::Less)
        } else if self.raw > other.raw {
            Some(Ordering::Greater)
        } else {
            Some(Ordering::Equal)
        }
    }
}

impl<const SHIFT: u32> Default for Fixed32<SHIFT> {
    /// Zero.
    fn default() -> (r: Self)
        ensures
            r@ == 0,
    {
        Fixed32 { raw: 0 }
    }
}

/// From `2^32` on, a power of two is a multiple of `2^32`.
proof fn lemma_scale_multiple(shift: u32)
    requires
        shift >= 32,
    ensures
        scale_of(shift) == pow2((shift - 32) as nat) * 0x1_0000_0000,
        scale_of(shift) >= 0x1_0000_0000,
{
    lemma_pow2_adds((shift - 32) as nat, 32);
    lemma_pow2_pos((shift - 32) as nat);
    lemma2_to64();
    assert(pow2((shift - 32) as nat) * 0x1_0000_0000 >= 0x1_0000_0000) by (nonlinear_arith)
        requires
            pow2((shift - 32) as nat) >= 1,
    ;
}

impl<const SHIFT: u32> vstd::std_specs::convert::FromSpecImpl<i32> for Fixed32<SHIFT> {
    open spec fn obeys_from_spec() -> bool {
        true
    }

    open spec fn from_spec(v: i32) -> Self {
        Self::of(v * Self::scale())
    }
}

impl<const SHIFT: u32> From<i32> for Fixed32<SHIFT> {
    /// The fixed-point number equal to the integer `from`.
    ///
    /// The stored integer is `from * 2^SHIFT`. Where that does not fit in 32
    /// bits it wraps, as integer multiplication does.
    fn from(from: i32) -> (r: Self)
        ensures
            r@ == signed_crop(from * Self::scale()),
            fits_i32(from * Self::scale()) ==> r@ == from * Self::scale(),
    {
        proof {
            Self::lemma_of(from * Self::scale());
        }
        if SHIFT >= 32 {
            proof {
                lemma_scale_multiple(SHIFT);
                let k = from * pow2((SHIFT - 32) as nat);
                assert(from * Self::scale() == 0 + k * 0x1_0000_0000) by (nonlinear_arith)
                    requires
                        Self::scale() == pow2((SHIFT - 32) as nat) * 0x1_0000_0000,
                        k == from * pow2((SHIFT - 32) as nat),
                ;
                lemma_crop_congruent(0, k);
                lemma_crop_fits(0);
            }
            Fixed32 { raw: 0 }
        } else if SHIFT == 31 {
            proof {
                lemma2_to64();
                assert(from * Self::scale() == from * i32::MIN + from * 0x1_0000_0000)
                    by (nonlinear_arith)
                    requires
                        Self::scale() == 0x8000_0000,
                ;
                lemma_crop_congruent(from * i32::MIN, from as int);
            }
            Fixed32 { raw: from.wrapping_mul(i32::MIN) }
        } else {
            proof {
                lemma_pow2_strictly_increases(SHIFT as nat, 31);
                lemma2_to64();
            }
            let scale: i32 = pow2_u128(SHIFT) as i32;
            Fixed32 { raw: from.wrapping_mul(scale) }
        }
    }
}

impl<const SHIFT: u32> Fixed32<SHIFT> {
    /// The integer part of this number: the number rounded toward zero.
    pub fn to_i32(self) -> (r: i32)
        ensures
            r == div_toward_zero(self@, Self::scale()),
    {
        proof {
            lemma_pow2_pos(SHIFT as nat);
        }
        if SHIFT >= 32 {
            proof {
                lemma_scale_multiple(SHIFT);
                lemma_basic_div(magnitude(self@), Self::scale());
            }
            0
        } else {
            proof {
                lemma_pow2_strictly_increases(SHIFT as nat, 32);
                lemma2_to64();
            }
            let scale: i64 = pow2_u128(SHIFT) as i64;
            let wide: i64 = self.raw as i64;
            (wide / scale) as i32
        }
    }
}

impl<const SHIFT: u32> vstd::std_specs::convert::FromSpecImpl<Fixed32<SHIFT>> for i32 {
    open spec fn obeys_from_spec() -> bool {
        true
    }

    open spec fn from_spec(v: Fixed32<SHIFT>) -> Self {
        div_toward_zero(v@, Fixed32::<SHIFT>::scale()) as i32
    }
}

impl<const SHIFT: u32> From<Fixed32<SHIFT>> for i32 {
    /// The integer part of `from`: the number rounded toward zero.
    fn from(from: Fixed32<SHIFT>) -> (r: i32) {
        from.to_i32()
    }
}

impl<const SHIFT: u32> vstd::std_specs::ops::NegSpecImpl for Fixed32<SHIFT> {
    open spec fn obeys_neg_spec() -> bool {
        true
    }

    open spec fn neg_req(self) -> bool {
        fits_i32(-self@)
    }

    open spec fn neg_spec(self) -> Self {
        Self::of(-self@)
    }
}

impl<const SHIFT: u32> Neg for Fixed32<SHIFT> {
    type Output = Self;

    /// The negated number. The most negative number has no negation.
    fn neg(self) -> (r: Self)
        ensures
            r@ == -self@,
    {
        proof {
            Self::lemma_of(-self@);
        }
        Fixed32 { raw: -self.raw }
    }
}

impl<const SHIFT: u32> vstd::std_specs::ops::AddSpecImpl for Fixed32<SHIFT> {
    open spec fn obeys_add_spec() -> bool {
        true
    }

    open spec fn add_req(self, rhs: Self) -> bool {
        fits_i32(self@ + rhs@)
    }

    open spec fn add_spec(self, rhs: Self) -> Self {
        Self::of(self@ + rhs@)
    }
}

impl<const SHIFT: u32> Add for Fixed32<SHIFT> {
    type Output = Self;

    /// The sum: the stored integers add, as both count the same unit. The
    /// sum must fit in 32 bits: the caller sees to that.
    fn add(self, rhs: Self) -> (r: Self)
        ensures
            r@ == self@ + rhs@,
    {
        proof {
            Self::lemma_of(self@ + rhs@);
        }
        Fixed32 { raw: self.raw + rhs.raw }
    }
}

impl<const SHIFT: u32> AddAssign for Fixed32<SHIFT> {
    /// Adds `rhs` to this number.
    fn add_assign(&mut self, rhs: Self)
        requires
            old(self).add_req(rhs),
        ensures
            *final(self) == old(self).add_spec(rhs),
            final(self)@ == old(self)@ + rhs@,
    {
        *self = *self + rhs;
    }
}

impl<const SHIFT: u32> vstd::std_specs::ops::SubSpecImpl for Fixed32<SHIFT> {
    open spec fn obeys_sub_spec() -> bool {
        true
    }

    open spec fn sub_req(self, rhs: Self) -> bool {
        fits_i32(self@ - rhs@)
    }

    open spec fn sub_spec(self, rhs: Self) -> Self {
        Self::of(self@ - rhs@)
    }
}

impl<const SHIFT: u32> Sub for Fixed32<SHIFT> {
    type Output = Self;

    /// The difference: the stored integers subtract. The difference must
    /// fit in 32 bits: the caller sees to that.
    fn sub(self, rhs: Self) -> (r: Self)
        ensures
            r@ == self@ - rhs@,
    {
        proof {
            Self::lemma_of(self@ - rhs@);
        }
        Fixed32 { raw: self.raw - rhs.raw }
    }
}

impl<const SHIFT: u32> SubAssign for Fixed32<SHIFT> {
    /// Subtracts `rhs` from this number.
    fn sub_assign(&mut self, rhs: Self)
        requires
            old(self).sub_req(rhs),
        ensures
            *final(self) == old(self).sub_spec(rhs),
            final(self)@ == old(self)@ - rhs@,
    {
        *self = *self - rhs;
    }
}

impl<const SHIFT: u32> Fixed32<SHIFT> {
    /// The stored integer of the product of two numbers: the product of
    /// their stored integers, brought back to the scale and rounded toward
    /// zero.
    pub open spec fn product(self, rhs: Self) -> int {
        div_toward_zero(self@ * rhs@, Self::scale())
    }

    /// The stored integer of the quotient of two numbers: the dividend's
    /// stored integer, raised by the scale, over the divisor's, rounded
    /// toward zero.
    pub open spec fn quotient(self, rhs: Self) -> int {
        div_toward_zero(self@ * Self::scale(), rhs@)
    }

    /// The product, or `Overflow` where it does not fit in 32 bits.
    ///
    /// The stored integers are multiplied in a wider integer, so only the
    /// final result can be too large.
    pub fn checked_mul(self, rhs: Self) -> (r: Result<Self, ArithmeticError>)
        ensures
            fits_i32(self.product(rhs)) ==> r.is_ok() && r.unwrap()@ == self.product(rhs),
            !fits_i32(self.product(rhs)) ==> r == Err::<Self, _>(ArithmeticError::Overflow),
    {
        match scaled_product(self.raw as i64, rhs.raw as i64, SHIFT) {
            Some(q) => {
                if q < i32::MIN as i64 || q > i32::MAX as i64 {
                    Err(ArithmeticError::Overflow)
                } else {
                    Ok(Fixed32 { raw: q as i32 })
                }
            },
            None => Err(ArithmeticError::Overflow),
        }
    }

    /// The quotient, `DivisionByZero` where `rhs` is zero, or `Overflow`
    /// where the quotient does not fit in 32 bits.
    ///
    /// The dividend is raised by the scale in a wider integer, so only the
    /// final result can be too large.
    pub fn checked_div(self, rhs: Self) -> (r: Result<Self, ArithmeticError>)
        ensures
            rhs@ == 0 ==> r == Err::<Self, _>(ArithmeticError::DivisionByZero),
            rhs@ != 0 && fits_i32(self.quotient(rhs)) ==> r.is_ok() && r.unwrap()@
                == self.quotient(rhs),
            rhs@ != 0 && !fits_i32(self.quotient(rhs)) ==> r == Err::<Self, _>(
                ArithmeticError::Overflow,
            ),
    {
        if rhs.raw == 0 {
            return Err(ArithmeticError::DivisionByZero);
        }
        match scaled_quotient(self.raw as i64, rhs.raw as i64, SHIFT) {
            Some(q) => {
                if q < i32::MIN as i64 || q > i32::MAX as i64 {
                    Err(ArithmeticError::Overflow)
                } else {
                    Ok(Fixed32 { raw: q as i32 })
                }
            },
            None => Err(ArithmeticError::Overflow),
        }
    }
}

impl<const SHIFT: u32> vstd::std_specs::ops::MulSpecImpl for Fixed32<SHIFT> {
    open spec fn obeys_mul_spec() -> bool {
        true
    }

    open spec fn mul_req(self, rhs: Self) -> bool {
        fits_i32(self.product(rhs))
    }

    open spec fn mul_spec(self, rhs: Self) -> Self {
        Self::of(self.product(rhs))
    }
}

impl<const SHIFT: u32> Mul for Fixed32<SHIFT> {
    type Output = Self;

    /// The product of two fixed-point numbers, which must fit in 32 bits.
    fn mul(self, rhs: Self) -> (r: Self)
        ensures
            r@ == self.product(rhs),
    {
        proof {
            Self::lemma_of(self.product(rhs));
        }
        let checked = self.checked_mul(rhs);
        proof {
            checked.unwrap().lemma_view();
        }
        checked.unwrap()
    }
}

impl<const SHIFT: u32> MulAssign for Fixed32<SHIFT> {
    /// Multiplies this number by `rhs`.
    fn mul_assign(&mut self, rhs: Self)
        requires
            old(self).mul_req(rhs),
        ensures
            *final(self) == old(self).mul_spec(rhs),
            final(self)@ == old(self).product(rhs),
    {
        *self = *self * rhs;
    }
}

impl<const SHIFT: u32> vstd::std_specs::ops::DivSpecImpl for Fixed32<SHIFT> {
    open spec fn obeys_div_spec() -> bool {
        true
    }

    open spec fn div_req(self, rhs: Self) -> bool {
        rhs@ != 0 && fits_i32(self.quotient(rhs))
    }

    open spec fn div_spec(self, rhs: Self) -> Self {
        Self::of(self.quotient(rhs))
    }
}

impl<const SHIFT: u32> Div for Fixed32<SHIFT> {
    type Output = Self;

    /// The quotient of two fixed-point numbers: the divisor must not be
    /// zero, and the quotient must fit in 32 bits.
    fn div(self, rhs: Self) -> (r: Self)
        ensures
            r@ == self.quotient(rhs),
    {
        proof {
            Self::lemma_of(self.quotient(rhs));
        }
        let checked = self.checked_div(rhs);
        proof {
            checked.unwrap().lemma_view();
        }
        checked.unwrap()
    }
}

impl<const SHIFT: u32> DivAssign for Fixed32<SHIFT> {
    /// Divides this number by `rhs`.
    fn div_assign(&mut self, rhs: Self)
        requires
            old(self).div_req(rhs),
        ensures
            *final(self) == old(self).div_spec(rhs),
            final(self)@ == old(self).quotient(rhs),
    {
        *self = *self / rhs;
    }
}

impl<const SHIFT: u32> vstd::std_specs::ops::MulSpecImpl<i32> for Fixed32<SHIFT> {
    open spec fn obeys_mul_spec() -> bool {
        true
    }

    open spec fn mul_req(self, rhs: i32) -> bool {
        fits_i32(self@ * rhs)
    }

    open spec fn mul_spec(self, rhs: i32) -> Self {
        Self::of(self@ * rhs)
    }
}

impl<const SHIFT: u32> Mul<i32> for Fixed32<SHIFT> {
    type Output = Self;

    /// This number taken `rhs` times: `rhs` is a plain count, so the stored
    /// integer is multiplied and the scale is left alone.
    fn mul(self, rhs: i32) -> (r: Self)
        ensures
            r@ == self@ * rhs,
    {
        proof {
            Self::lemma_of(self@ * rhs);
        }
        Fixed32 { raw: self.raw * rhs }
    }
}

impl<const SHIFT: u32> MulAssign<i32> for Fixed32<SHIFT> {
    /// Takes this number `rhs` times.
    fn mul_assign(&mut self, rhs: i32)
        requires
            fits_i32(old(self)@ * rhs),
        ensures
            final(self)@ == old(self)@ * rhs,
    {
        *self = *self * rhs;
    }
}

impl<const SHIFT: u32> vstd::std_specs::ops::DivSpecImpl<i32> for Fixed32<SHIFT> {
    open spec fn obeys_div_spec() -> bool {
        true
    }

    open spec fn div_req(self, rhs: i32) -> bool {
        rhs != 0 && fits_i32(div_toward_zero(self@, rhs as int))
    }

    open spec fn div_spec(self, rhs: i32) -> Self {
        Self::of(div_toward_zero(self@, rhs as int))
    }
}

impl<const SHIFT: u32> Div<i32> for Fixed32<SHIFT> {
    type Output = Self;

    /// This number split in `rhs` parts: `rhs` is a plain count, so the
    /// stored integer is divided, toward zero, and the scale is left alone.
    fn div(self, rhs: i32) -> (r: Self)
        ensures
            r@ == div_toward_zero(self@, rhs as int),
    {
        proof {
            Self::lemma_of(div_toward_zero(self@, rhs as int));
            lemma_machine_division(self@, rhs as int);
        }
        Fixed32 { raw: self.raw / rhs }
    }
}

impl<const SHIFT: u32> DivAssign<i32> for Fixed32<SHIFT> {
    /// Splits this number in `rhs` parts.
    fn div_assign(&mut self, rhs: i32)
        requires
            rhs != 0,
            fits_i32(div_toward_zero(old(self)@, rhs as int)),
        ensures
            final(self)@ == div_toward_zero(old(self)@, rhs as int),
    {
        *self = *self / rhs;
    }
}

impl<const SHIFT: u32> Number for Fixed32<SHIFT> {
    open spec fn from_isize_spec(from: isize) -> Self {
        Self::of((from as i32) * Self::scale())
    }

    /// The fixed-point number equal to the low 32 bits of `from`.
    fn from_isize(from: isize) -> (r: Self) {
        proof {
            Self::lemma_of((from as i32) * Self::scale());
        }
        let low =
            #[verifier::truncate]
            (from as i32);
        let r = Fixed32::from(low);
        proof {
            r.lemma_view();
        }
        r
    }
}

impl<const SHIFT: u32> ArithmeticLaws for Fixed32<SHIFT> {
    proof fn lemma_obeys() {
    }

    proof fn lemma_mul_commutative(a: Self, b: Self) {
        assert(a@ * b@ == b@ * a@) by (nonlinear_arith);
    }

    /// Holds of wrapped differences too: negating moves a difference by the
    /// same multiple of the range that wrapping had moved it by.
    proof fn lemma_sub_antisymmetric(a: Self, b: Self) {
        let k = lemma_crop_residue(a@ - b@);
        Self::lemma_of(a@ - b@);
        assert(-(a@ - b@ + k * 0x1_0000_0000) == (b@ - a@) + (-k) * 0x1_0000_0000)
            by (nonlinear_arith);
        lemma_crop_congruent(b@ - a@, -k);
    }

    proof fn lemma_sub_self(a: Self) {
        assert(0 * Self::scale() == 0) by (nonlinear_arith);
    }
}

impl<const SHIFT: u32> Sqrt for Fixed32<SHIFT> {
    /// A number has a root where it is not negative and the root fits in 32
    /// bits, which it always does where `SHIFT` is below 32.
    open spec fn sqrt_req(self) -> bool {
        &&& self@ >= 0
        &&& self@ * Self::scale() <= i32::MAX * i32::MAX + i32::MAX
    }

    /// The stored integer of the root is the integer nearest to the exact
    /// value: the square root of the stored integer times the scale.
    open spec fn sqrt_spec(self) -> Self {
        Self::of(nearest_root(self@ * Self::scale()))
    }

    /// The square root of this number, rounded to the nearest number of
    /// the type, found in whole-number arithmetic.
    fn sqrt(self) -> (r: Self)
        ensures
            r@ == nearest_root(self@ * Self::scale()),
            is_nearest_root(self@ * Self::scale(), r@),
    {
        let root = scaled_root(self.raw as i64, SHIFT);
        proof {
            lemma_nearest_root_bound(self@ * Self::scale(), root as int, i32::MAX as int);
            Self::lemma_of(root as int);
        }
        Fixed32 { raw: root as i32 }
    }
}

impl<const SHIFT: u32> Fixed32<SHIFT> {
    /// An integer that the type can hold comes back unchanged: converting
    /// `n` to fixed point and taking the integer part gives `n`.
    pub proof fn lemma_round_trip(n: i32)
        requires
            fits_i32(n * Self::scale()),
        ensures
            Self::from_spec(n)@ == n * Self::scale(),
            div_toward_zero(Self::from_spec(n)@, Self::scale()) == n,
    {
        Self::lemma_of(n * Self::scale());
        lemma_pow2_pos(SHIFT as nat);
        lemma_div_exact(n as int, Self::scale());
    }

    /// Conversion from integers keeps sums: where `a`, `b` and `a + b` can
    /// be held, the sum of the conversions is the conversion of the sum.
    pub proof fn lemma_from_adds(a: i32, b: i32)
        requires
            fits_i32(a * Self::scale()),
            fits_i32(b * Self::scale()),
            fits_i32((a + b) * Self::scale()),
        ensures
            fits_i32(a + b),
            Self::from_spec(a).add_req(Self::from_spec(b)),
            Self::from_spec(a).add_spec(Self::from_spec(b)) == Self::from_spec((a + b) as i32),
    {
        let s = Self::scale();
        lemma_pow2_pos(SHIFT as nat);
        Self::lemma_of(a * s);
        Self::lemma_of(b * s);
        assert((a + b) * s == a * s + b * s) by (nonlinear_arith);
        assert(fits_i32(a + b)) by (nonlinear_arith)
            requires
                fits_i32((a + b) * s),
                s >= 1,
        ;
    }

    /// Conversion from integers keeps products: where `a`, `b` and `a * b`
    /// can be held, the product of the conversions is the conversion of the
    /// product.
    pub proof fn lemma_from_multiplies(a: i32, b: i32)
        requires
            fits_i32(a * Self::scale()),
            fits_i32(b * Self::scale()),
            fits_i32((a * b) * Self::scale()),
        ensures
            fits_i32(a * b),
            Self::from_spec(a).mul_req(Self::from_spec(b)),
            Self::from_spec(a).mul_spec(Self::from_spec(b)) == Self::from_spec((a * b) as i32),
    {
        let s = Self::scale();
        lemma_pow2_pos(SHIFT as nat);
        Self::lemma_of(a * s);
        Self::lemma_of(b * s);
        assert((a * s) * (b * s) == ((a * b) * s) * s) by (nonlinear_arith);
        lemma_div_exact((a * b) * s, s);
        assert(fits_i32(a * b)) by (nonlinear_arith)
            requires
                fits_i32((a * b) * s),
                s >= 1,
        ;
    }

    /// The largest number times itself fits in 32 bits only where `SHIFT`
    /// leaves no bit for whole numbers: up to a `SHIFT` of 30 the product
    /// overflows, and `checked_mul` says so.
    pub proof fn lemma_largest_product(a: Self)
        requires
            a@ == i32::MAX,
        ensures
            fits_i32(a.product(a)) <==> SHIFT >= 31,
    {
        let square: int = i32::MAX * i32::MAX;
        assert(square == 0x3fff_ffff_0000_0001) by (nonlinear_arith)
            requires
                square == 0x7fff_ffff * 0x7fff_ffff,
        ;
        lemma_pow2_pos(SHIFT as nat);
        lemma2_to64();
        if SHIFT >= 31 {
            if SHIFT > 31 {
                lemma_pow2_strictly_increases(31, SHIFT as nat);
            }
            lemma_div_is_ordered_by_denominator(square, 0x8000_0000, Self::scale());
        } else {
            if SHIFT < 30 {
                lemma_pow2_strictly_increases(SHIFT as nat, 30);
            }
            lemma_div_is_ordered_by_denominator(square, Self::scale(), 0x4000_0000);
        }
    }

    /// The most negative number times itself overflows up to a `SHIFT` of
    /// 31, and fits from 32 on.
    pub proof fn lemma_lowest_product(a: Self)
        requires
            a@ == i32::MIN,
        ensures
            fits_i32(a.product(a)) <==> SHIFT >= 32,
    {
        let square: int = i32::MIN * i32::MIN;
        assert(square == 0x4000_0000_0000_0000) by (nonlinear_arith)
            requires
                square == (-0x8000_0000) * (-0x8000_0000),
        ;
        lemma_pow2_pos(SHIFT as nat);
        lemma2_to64();
        if SHIFT >= 32 {
            if SHIFT > 32 {
                lemma_pow2_strictly_increases(32, SHIFT as nat);
            }
            lemma_div_is_ordered_by_denominator(square, 0x1_0000_0000, Self::scale());
        } else {
            if SHIFT < 31 {
                lemma_pow2_strictly_increases(SHIFT as nat, 31);
            }
            lemma_div_is_ordered_by_denominator(square, Self::scale(), 0x8000_0000);
        }
    }
}

impl<const SHIFT: u32> Fixed32<SHIFT> {
    /// The square of a Vector's length is its dot product with itself, as
    /// nearly as the last place of the length allows: with `m` the length
    /// and `d` the dot product, both as numbers, `m * m` and `d` differ by
    /// no more than `m * 2^-SHIFT`.
    pub proof fn lemma_magnitude_squared(v: Vector<Self>)
        requires
            v.dot_spec(v).sqrt_req(),
        ensures
            ({
                let m = v.magnitude_spec()@;
                let d = v.dot_spec(v)@;
                m * m - m <= d * Self::scale() <= m * m + m
            }),
    {
        let n = v.dot_spec(v)@ * Self::scale();
        lemma_pow2_pos(SHIFT as nat);
        lemma_mul_nonnegative(v.dot_spec(v)@, Self::scale());
        lemma_nearest_root_exists(n);
        lemma_nearest_root_bound(n, nearest_root(n), i32::MAX as int);
        Self::lemma_of(nearest_root(n));
        let r = nearest_root(n);
        assert(r * r - r <= n <= r * r + r) by (nonlinear_arith)
            requires
                is_nearest_root(n, r),
                n >= 0,
        ;
    }

    /// Whether dividing the coordinate `c` by the length `m` leaves it as it
    /// is: whether `c` is zero, or `m` is no more than one and so near to one
    /// that `c` does not move by a whole unit of `2^-SHIFT`.
    pub open spec fn unmoved(c: Self, m: Self) -> bool {
        c@ == 0 || (m@ <= Self::scale() && magnitude(c@) * (Self::scale() - m@) < m@)
    }

    /// Bringing a Vector to length one leaves it unchanged where no
    /// coordinate moves, and nowhere else. So bringing a Vector to length
    /// one a second time changes nothing where the first time has left a
    /// length that near to one, and changes a coordinate in its last place
    /// where not.
    pub proof fn lemma_unit_unchanged(v: Vector<Self>)
        requires
            v.unit_req(),
        ensures
            v.unit_spec() == v <==> Self::unmoved(v.x, v.magnitude_spec()) && Self::unmoved(
                v.y,
                v.magnitude_spec(),
            ) && Self::unmoved(v.z, v.magnitude_spec()),
    {
        let m = v.magnitude_spec();
        let n = v.dot_spec(v)@ * Self::scale();
        lemma_pow2_pos(SHIFT as nat);
        lemma_nearest_root_exists(n);
        lemma_nearest_root_bound(n, nearest_root(n), i32::MAX as int);
        Self::lemma_of(nearest_root(n));
        lemma_rescale_unchanged(v.x@, Self::scale(), m@);
        lemma_rescale_unchanged(v.y@, Self::scale(), m@);
        lemma_rescale_unchanged(v.z@, Self::scale(), m@);
        Self::lemma_of(v.x.quotient(m));
        Self::lemma_of(v.y.quotient(m));
        Self::lemma_of(v.z.quotient(m));
        v.x.lemma_view();
        v.y.lemma_view();
        v.z.lemma_view();
    }

    /// A Vector whose length is exactly one is its own unit Vector: bringing
    /// it to length one changes nothing.
    pub proof fn lemma_unit_of_length_one(v: Vector<Self>)
        requires
            v.magnitude_spec()@ == Self::scale(),
        ensures
            v.unit_spec() == v,
    {
        lemma_pow2_pos(SHIFT as nat);
        lemma_div_exact(v.x@, Self::scale());
        lemma_div_exact(v.y@, Self::scale());
        lemma_div_exact(v.z@, Self::scale());
        v.x.lemma_view();
        v.y.lemma_view();
        v.z.lemma_view();
    }
}

} // verus!
