//! What a type must offer to serve as a scalar: the coordinates of a vector
//! and the angle of a rotation.
//!
//! Each capability is a trait of its own, so that a type of whole numbers
//! can be a [`Number`] without a square root or a sine.
//!
//! An operation of these traits comes with a specification function that
//! names its result, so that code over any scalar has a value to speak of.
//! The integers and the fixed-point numbers define these functions. A type
//! that leaves them as they stand, as a float scalar from outside this
//! library must, has nothing said of its results but that each is told by
//! the operands.

use core::ops::{Add, Div, Mul, Neg, Sub};
use vstd::prelude::*;
use vstd::std_specs::ops::{AddSpec, DivSpec, MulSpec, NegSpec, SubSpec};

verus! {

/// Defines a type for numbers: closed under addition, subtraction,
/// multiplication, division and negation, and built from a small integer.
///
/// The operators come from the standard operator traits. An operation that a
/// type cannot carry out on some operands (an integer sum that overflows, a
/// division by zero) is left out by the operator's own precondition.
pub trait Number: Add<Output = Self> + Sub<Output = Self> + Mul<Output = Self> + Div<
    Output = Self,
> + Neg<Output = Self> + Sized {
    /// The number that stands for the integer `from`.
    open spec fn from_isize_spec(from: isize) -> Self {
        arbitrary()
    }

    /// Creates a number from an `isize`.
    fn from_isize(from: isize) -> (r: Self)
        ensures
            r == Self::from_isize_spec(from),
    ;
}

/// Whether the five operators of `Num` return what their specifications
/// name, so that a chain of operations has a value known in advance.
pub open spec fn obeys_arithmetic<Num: Number>() -> bool {
    &&& Num::obeys_add_spec()
    &&& Num::obeys_sub_spec()
    &&& Num::obeys_mul_spec()
    &&& Num::obeys_div_spec()
    &&& Num::obeys_neg_spec()
}

/// Defines a square root operation for a number type.
pub trait Sqrt: Number {
    /// Whether this number has a square root in its type. Where a type does
    /// not say, every number has.
    open spec fn sqrt_req(self) -> bool {
        true
    }

    /// The square root of this number, as the type rounds it.
    open spec fn sqrt_spec(self) -> Self {
        arbitrary()
    }

    /// Returns the square root of this number.
    fn sqrt(self) -> (r: Self)
        requires
            self.sqrt_req(),
        ensures
            r == self.sqrt_spec(),
    ;
}

/// Defines trigonometry operations for a number type, in radians, and its
/// construction from an unsigned count.
pub trait Trigonometry: Number {
    /// The number that stands for the count `from`.
    open spec fn from_usize_spec(from: usize) -> Self {
        arbitrary()
    }

    /// The sine of this number, as the type rounds it.
    open spec fn sin_spec(self) -> Self {
        arbitrary()
    }

    /// The cosine of this number, as the type rounds it.
    open spec fn cos_spec(self) -> Self {
        arbitrary()
    }

    /// The tangent of this number, as the type rounds it.
    open spec fn tan_spec(self) -> Self {
        arbitrary()
    }

    /// The inverse sine of this number, as the type rounds it.
    open spec fn asin_spec(self) -> Self {
        arbitrary()
    }

    /// The inverse cosine of this number, as the type rounds it.
    open spec fn acos_spec(self) -> Self {
        arbitrary()
    }

    /// The inverse tangent of this number, as the type rounds it.
    open spec fn atan_spec(self) -> Self {
        arbitrary()
    }

    /// Creates a number from a `usize`.
    fn from_usize(from: usize) -> (r: Self)
        ensures
            r == Self::from_usize_spec(from),
    ;

    /// The sine of this number.
    fn sin(self) -> (r: Self)
        ensures
            r == self.sin_spec(),
    ;

    /// The cosine of this number.
    fn cos(self) -> (r: Self)
        ensures
            r == self.cos_spec(),
    ;

    /// The tangent of this number.
    fn tan(self) -> (r: Self)
        ensures
            r == self.tan_spec(),
    ;

    /// The inverse sine of this number.
    fn asin(self) -> (r: Self)
        ensures
            r == self.asin_spec(),
    ;

    /// The inverse cosine of this number.
    fn acos(self) -> (r: Self)
        ensures
            r == self.acos_spec(),
    ;

    /// The inverse tangent of this number.
    fn atan(self) -> (r: Self)
        ensures
            r == self.atan_spec(),
    ;
}

/// The laws of arithmetic that hold of a number type whatever the operands,
/// also where a result wraps or is rounded.
pub trait ArithmeticLaws: Number {
    /// The operators return what their specifications name.
    proof fn lemma_obeys()
        ensures
            obeys_arithmetic::<Self>(),
    ;

    /// A product does not depend on the order of its factors.
    proof fn lemma_mul_commutative(a: Self, b: Self)
        ensures
            a.mul_spec(b) == b.mul_spec(a),
    ;

    /// Negating a difference swaps its operands.
    proof fn lemma_sub_antisymmetric(a: Self, b: Self)
        ensures
            a.sub_spec(b).neg_spec() == b.sub_spec(a),
    ;

    /// A number less itself is zero.
    proof fn lemma_sub_self(a: Self)
        ensures
            a.sub_spec(a) == Self::from_isize_spec(0),
    ;
}

/// A number type that holds whole numbers and computes with them as the
/// integers do, wherever it can carry an operation out.
pub trait WholeNumber: Number {
    /// The integer that this number is.
    spec fn value(self) -> int;

    /// Numbers are told by their values, zero has the value zero, and the
    /// operators compute on the values.
    proof fn lemma_value(a: Self, b: Self)
        ensures
            a.value() == b.value() ==> a == b,
            Self::from_isize_spec(0).value() == 0,
            a.add_req(b) ==> a.add_spec(b).value() == a.value() + b.value(),
            a.sub_req(b) ==> a.sub_spec(b).value() == a.value() - b.value(),
            a.mul_req(b) ==> a.mul_spec(b).value() == a.value() * b.value(),
            a.neg_req() ==> a.neg_spec().value() == -a.value(),
    ;
}

impl Number for isize {
    open spec fn from_isize_spec(from: isize) -> Self {
        from
    }

    /// `from` itself.
    fn from_isize(from: isize) -> (r: Self) {
        from
    }
}

impl WholeNumber for isize {
    open spec fn value(self) -> int {
        self as int
    }

    proof fn lemma_value(a: Self, b: Self) {
    }
}

impl ArithmeticLaws for isize {
    proof fn lemma_obeys() {
    }

    proof fn lemma_mul_commutative(a: Self, b: Self) {
        assert(a * b == b * a) by (nonlinear_arith);
    }

    proof fn lemma_sub_antisymmetric(a: Self, b: Self) {
        assert((-((a - b) as isize)) as isize == (b - a) as isize) by (bit_vector);
    }

    proof fn lemma_sub_self(a: Self) {
    }
}

impl Number for i8 {
    open spec fn from_isize_spec(from: isize) -> Self {
        from as i8
    }

    /// The low 8 bits of `from`.
    fn from_isize(from: isize) -> (r: Self) {
        #[verifier::truncate]
        (from as i8)
    }
}

impl WholeNumber for i8 {
    open spec fn value(self) -> int {
        self as int
    }

    proof fn lemma_value(a: Self, b: Self) {
    }
}

impl ArithmeticLaws for i8 {
    proof fn lemma_obeys() {
    }

    proof fn lemma_mul_commutative(a: Self, b: Self) {
        assert(a * b == b * a) by (nonlinear_arith);
    }

    proof fn lemma_sub_antisymmetric(a: Self, b: Self) {
        assert((-((a - b) as i8)) as i8 == (b - a) as i8) by (bit_vector);
    }

    proof fn lemma_sub_self(a: Self) {
    }
}

impl Number for i16 {
    open spec fn from_isize_spec(from: isize) -> Self {
        from as i16
    }

    /// The low 16 bits of `from`.
    fn from_isize(from: isize) -> (r: Self) {
        #[verifier::truncate]
        (from as i16)
    }
}

impl WholeNumber for i16 {
    open spec fn value(self) -> int {
        self as int
    }

    proof fn lemma_value(a: Self, b: Self) {
    }
}

impl ArithmeticLaws for i16 {
    proof fn lemma_obeys() {
    }

    proof fn lemma_mul_commutative(a: Self, b: Self) {
        assert(a * b == b * a) by (nonlinear_arith);
    }

    proof fn lemma_sub_antisymmetric(a: Self, b: Self) {
        assert((-((a - b) as i16)) as i16 == (b - a) as i16) by (bit_vector);
    }

    proof fn lemma_sub_self(a: Self) {
    }
}

impl Number for i32 {
    open spec fn from_isize_spec(from: isize) -> Self {
        from as i32
    }

    /// The low 32 bits of `from`.
    fn from_isize(from: isize) -> (r: Self) {
        #[verifier::truncate]
        (from as i32)
    }
}

impl WholeNumber for i32 {
    open spec fn value(self) -> int {
        self as int
    }

    proof fn lemma_value(a: Self, b: Self) {
    }
}

impl ArithmeticLaws for i32 {
    proof fn lemma_obeys() {
    }

    proof fn lemma_mul_commutative(a: Self, b: Self) {
        assert(a * b == b * a) by (nonlinear_arith);
    }

    proof fn lemma_sub_antisymmetric(a: Self, b: Self) {
        assert((-((a - b) as i32)) as i32 == (b - a) as i32) by (bit_vector);
    }

    proof fn lemma_sub_self(a: Self) {
    }
}

impl Number for i64 {
    open spec fn from_isize_spec(from: isize) -> Self {
        from as i64
    }

    /// `from`, which always fits.
    fn from_isize(from: isize) -> (r: Self) {
        from as i64
    }
}

impl WholeNumber for i64 {
    open spec fn value(self) -> int {
        self as int
    }

    proof fn lemma_value(a: Self, b: Self) {
    }
}

impl ArithmeticLaws for i64 {
    proof fn lemma_obeys() {
    }

    proof fn lemma_mul_commutative(a: Self, b: Self) {
        assert(a * b == b * a) by (nonlinear_arith);
    }

    proof fn lemma_sub_antisymmetric(a: Self, b: Self) {
        assert((-((a - b) as i64)) as i64 == (b - a) as i64) by (bit_vector);
    }

    proof fn lemma_sub_self(a: Self) {
    }
}

impl Number for i128 {
    open spec fn from_isize_spec(from: isize) -> Self {
        from as i128
    }

    /// `from`, which always fits.
    fn from_isize(from: isize) -> (r: Self) {
        from as i128
    }
}

impl WholeNumber for i128 {
    open spec fn value(self) -> int {
        self as int
    }

    proof fn lemma_value(a: Self, b: Self) {
    }
}

impl ArithmeticLaws for i128 {
    proof fn lemma_obeys() {
    }

    proof fn lemma_mul_commutative(a: Self, b: Self) {
        assert(a * b == b * a) by (nonlinear_arith);
    }

    proof fn lemma_sub_antisymmetric(a: Self, b: Self) {
        assert((-((a - b) as i128)) as i128 == (b - a) as i128) by (bit_vector);
    }

    proof fn lemma_sub_self(a: Self) {
    }
}

} // verus!
