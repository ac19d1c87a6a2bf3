//! Vectors of three coordinates over any scalar, and their algebra.

use crate::number::{
    obeys_arithmetic, ArithmeticLaws, Number, Sqrt, Trigonometry, WholeNumber,
};
use crate::rotation::Rotation;
use core::cmp::Ordering;
use core::ops::{Add, AddAssign, Div, DivAssign, Mul, MulAssign, Neg, Sub, SubAssign};
use vstd::prelude::*;
use vstd::std_specs::cmp::{PartialEqSpec, PartialOrdSpec};
use vstd::std_specs::ops::{AddSpec, DivSpec, MulSpec, NegSpec, SubSpec};

verus! {

/// A 3D Vector: a point, or a direction with a length, as the caller reads it.
#[derive(Clone, Copy, Debug, Eq, Hash)]
pub struct Vector<Num> {
    /// The coordinate in the x dimension.
    pub x: Num,
    /// The coordinate in the y dimension.
    pub y: Num,
    /// The coordinate in the z dimension.
    pub z: Num,
}

/// `a * b - c * d`, as the operators of `Num` compute it.
pub open spec fn product_difference<Num: Number>(a: Num, b: Num, c: Num, d: Num) -> Num {
    a.mul_spec(b).sub_spec(c.mul_spec(d))
}

/// Whether `Num` can carry out each step of `a * b - c * d`.
pub open spec fn product_difference_req<Num: Number>(a: Num, b: Num, c: Num, d: Num) -> bool {
    &&& a.mul_req(b)
    &&& c.mul_req(d)
    &&& a.mul_spec(b).sub_req(c.mul_spec(d))
}

/// Computes `a * b - c * d`.
fn difference_of_products<Num: Number + Copy>(a: Num, b: Num, c: Num, d: Num) -> (r: Num)
    requires
        obeys_arithmetic::<Num>(),
        product_difference_req(a, b, c, d),
    ensures
        r == product_difference(a, b, c, d),
{
    (a * b) - (c * d)
}

impl<Num> Vector<Num> {
    /// Builds a new Vector value.
    pub fn new(x: Num, y: Num, z: Num) -> (r: Self)
        ensures
            r == (Vector { x, y, z }),
    {
        Vector { x, y, z }
    }
}

impl<Num: Default> Vector<Num> {
    /// Returns a Vector populated with the default value of `Num`, which is
    /// the zero of every number type that has one.
    pub fn origin() -> (r: Self)
        ensures
            call_ensures(Num::default, (), r.x),
            call_ensures(Num::default, (), r.y),
            call_ensures(Num::default, (), r.z),
    {
        Vector { x: Num::default(), y: Num::default(), z: Num::default() }
    }
}

impl<Num: Number + Copy> Vector<Num> {
    /// The vector whose coordinates are all zero.
    pub open spec fn zero() -> Self {
        Vector {
            x: Num::from_isize_spec(0),
            y: Num::from_isize_spec(0),
            z: Num::from_isize_spec(0),
        }
    }

    /// The dot product `x1 * x2 + y1 * y2 + z1 * z2`, summed from the left.
    pub open spec fn dot_spec(self, rhs: Self) -> Num {
        self.x.mul_spec(rhs.x).add_spec(self.y.mul_spec(rhs.y)).add_spec(self.z.mul_spec(rhs.z))
    }

    /// Whether `Num` can carry out each step of the dot product.
    pub open spec fn dot_req(self, rhs: Self) -> bool {
        &&& obeys_arithmetic::<Num>()
        &&& self.x.mul_req(rhs.x)
        &&& self.y.mul_req(rhs.y)
        &&& self.z.mul_req(rhs.z)
        &&& self.x.mul_spec(rhs.x).add_req(self.y.mul_spec(rhs.y))
        &&& self.x.mul_spec(rhs.x).add_spec(self.y.mul_spec(rhs.y)).add_req(
            self.z.mul_spec(rhs.z),
        )
    }

    /// The right-handed cross product.
    pub open spec fn cross_spec(self, rhs: Self) -> Self {
        Vector {
            x: product_difference(self.y, rhs.z, self.z, rhs.y),
            y: product_difference(self.z, rhs.x, self.x, rhs.z),
            z: product_difference(self.x, rhs.y, self.y, rhs.x),
        }
    }

    /// Whether `Num` can carry out each step of the cross product.
    pub open spec fn cross_req(self, rhs: Self) -> bool {
        &&& obeys_arithmetic::<Num>()
        &&& product_difference_req(self.y, rhs.z, self.z, rhs.y)
        &&& product_difference_req(self.z, rhs.x, self.x, rhs.z)
        &&& product_difference_req(self.x, rhs.y, self.y, rhs.x)
    }

    /// Returns the dot product of two Vectors.
    pub fn dot(lhs: Self, rhs: Self) -> (r: Num)
        requires
            lhs.dot_req(rhs),
        ensures
            r == lhs.dot_spec(rhs),
    {
        lhs * rhs
    }

    /// Returns the cross product of two Vectors: the vector at right angles
    /// to both, by the right-hand rule.
    pub fn cross(lhs: Self, rhs: Self) -> (r: Self)
        requires
            lhs.cross_req(rhs),
        ensures
            r == lhs.cross_spec(rhs),
    {
        let x = difference_of_products(lhs.y, rhs.z, lhs.z, rhs.y);
        let y = difference_of_products(lhs.z, rhs.x, lhs.x, rhs.z);
        let z = difference_of_products(lhs.x, rhs.y, lhs.y, rhs.x);
        Vector { x, y, z }
    }
}

impl<Num: Number + Copy> vstd::std_specs::ops::MulSpecImpl for Vector<Num> {
    open spec fn obeys_mul_spec() -> bool {
        true
    }

    open spec fn mul_req(self, rhs: Self) -> bool {
        self.dot_req(rhs)
    }

    open spec fn mul_spec(self, rhs: Self) -> Num {
        self.dot_spec(rhs)
    }
}

impl<Num: Number + Copy> Mul for Vector<Num> {
    type Output = Num;

    /// The dot product of two Vectors. A Vector times a scalar is another
    /// operator: the kind of the right operand tells the two apart.
    fn mul(self, rhs: Self) -> (r: Num) {
        (self.x * rhs.x) + (self.y * rhs.y) + (self.z * rhs.z)
    }
}

impl<Num: PartialEq> vstd::std_specs::cmp::PartialEqSpecImpl for Vector<Num> {
    open spec fn obeys_eq_spec() -> bool {
        Num::obeys_eq_spec()
    }

    open spec fn eq_spec(&self, other: &Self) -> bool {
        &&& self.x.eq_spec(&other.x)
        &&& self.y.eq_spec(&other.y)
        &&& self.z.eq_spec(&other.z)
    }
}

impl<Num: PartialEq> PartialEq for Vector<Num> {
    /// Vectors are equal where each coordinate is.
    fn eq(&self, other: &Self) -> (r: bool) {
        self.x == other.x && self.y == other.y && self.z == other.z
    }
}

/// Whether two comparisons came out the same way.
fn same_ordering(a: Ordering, b: Ordering) -> (r: bool)
    ensures
        r == (a == b),
{
    match (a, b) {
        (Ordering::Less, Ordering::Less) => true,
        (Ordering::Equal, Ordering::Equal) => true,
        (Ordering::Greater, Ordering::Greater) => true,
        _ => false,
    }
}

impl<Num: PartialOrd> vstd::std_specs::cmp::PartialOrdSpecImpl for Vector<Num> {
    open spec fn obeys_partial_cmp_spec() -> bool {
        Num::obeys_partial_cmp_spec()
    }

    /// The common outcome of the three comparisons of coordinates, where
    /// they have one.
    open spec fn partial_cmp_spec(&self, other: &Self) -> Option<Ordering> {
        let by_x = self.x.partial_cmp_spec(&other.x);
        if by_x.is_some() && self.y.partial_cmp_spec(&other.y) == by_x && self.z.partial_cmp_spec(
            &other.z,
        ) == by_x {
            by_x
        } else {
            None
        }
    }
}

impl<Num: PartialOrd> PartialOrd for Vector<Num> {
    /// Vectors are ordered coordinate by coordinate: one is less than
    /// another where each of its coordinates is, and so on. Where the three
    /// comparisons differ, or one of them is undefined, the vectors are not
    /// ordered.
    fn partial_cmp(&self, other: &Self) -> (r: Option<Ordering>) {
        match self.x.partial_cmp(&other.x) {
            Some(by_x) => match self.y.partial_cmp(&other.y) {
                Some(by_y) => match self.z.partial_cmp(&other.z) {
                    Some(by_z) => {
                        if same_ordering(by_x, by_y) && same_ordering(by_x, by_z) {
                            Some(by_x)
                        } else {
                            None
                        }
                    },
                    None => None,
                },
                None => None,
            },
            None => None,
        }
    }
}

impl<Num> vstd::std_specs::convert::FromSpecImpl<(Num, Num, Num)> for Vector<Num> {
    open spec fn obeys_from_spec() -> bool {
        true
    }

    open spec fn from_spec(v: (Num, Num, Num)) -> Self {
        Vector { x: v.0, y: v.1, z: v.2 }
    }
}

impl<Num> From<(Num, Num, Num)> for Vector<Num> {
    /// The Vector with the coordinates `(x, y, z)`.
    fn from(v: (Num, Num, Num)) -> (r: Self) {
        Vector { x: v.0, y: v.1, z: v.2 }
    }
}

impl<Num: Number + Copy> vstd::std_specs::ops::NegSpecImpl for Vector<Num> {
    open spec fn obeys_neg_spec() -> bool {
        Num::obeys_neg_spec()
    }

    open spec fn neg_req(self) -> bool {
        &&& self.x.neg_req()
        &&& self.y.neg_req()
        &&& self.z.neg_req()
    }

    open spec fn neg_spec(self) -> Self {
        Vector { x: self.x.neg_spec(), y: self.y.neg_spec(), z: self.z.neg_spec() }
    }
}

impl<Num: Number + Copy> Neg for Vector<Num> {
    type Output = Self;

    /// The Vector of the same length that points the other way.
    fn neg(self) -> (r: Self) {
        Vector { x: self.x.neg(), y: self.y.neg(), z: self.z.neg() }
    }
}

impl<Num: Number + Copy> vstd::std_specs::ops::AddSpecImpl for Vector<Num> {
    open spec fn obeys_add_spec() -> bool {
        Num::obeys_add_spec()
    }

    open spec fn add_req(self, rhs: Self) -> bool {
        &&& self.x.add_req(rhs.x)
        &&& self.y.add_req(rhs.y)
        &&& self.z.add_req(rhs.z)
    }

    open spec fn add_spec(self, rhs: Self) -> Self {
        Vector {
            x: self.x.add_spec(rhs.x),
            y: self.y.add_spec(rhs.y),
            z: self.z.add_spec(rhs.z),
        }
    }
}

impl<Num: Number + Copy> Add for Vector<Num> {
    type Output = Self;

    /// The sum, coordinate by coordinate.
    fn add(self, rhs: Self) -> (r: Self) {
        Vector { x: self.x + rhs.x, y: self.y + rhs.y, z: self.z + rhs.z }
    }
}

impl<Num: Number + Copy> AddAssign for Vector<Num> {
    /// Adds `rhs` to this Vector.
    fn add_assign(&mut self, rhs: Self)
        requires
            old(self).add_req(rhs),
        ensures
            Num::obeys_add_spec() ==> *final(self) == old(self).add_spec(rhs),
    {
        *self = *self + rhs;
    }
}

impl<Num: Number + Copy> vstd::std_specs::ops::SubSpecImpl for Vector<Num> {
    open spec fn obeys_sub_spec() -> bool {
        Num::obeys_sub_spec()
    }

    open spec fn sub_req(self, rhs: Self) -> bool {
        &&& self.x.sub_req(rhs.x)
        &&& self.y.sub_req(rhs.y)
        &&& self.z.sub_req(rhs.z)
    }

    open spec fn sub_spec(self, rhs: Self) -> Self {
        Vector {
            x: self.x.sub_spec(rhs.x),
            y: self.y.sub_spec(rhs.y),
            z: self.z.sub_spec(rhs.z),
        }
    }
}

impl<Num: Number + Copy> Sub for Vector<Num> {
    type Output = Self;

    /// The difference, coordinate by coordinate.
    fn sub(self, rhs: Self) -> (r: Self) {
        Vector { x: self.x - rhs.x, y: self.y - rhs.y, z: self.z - rhs.z }
    }
}

impl<Num: Number + Copy> SubAssign for Vector<Num> {
    /// Subtracts `rhs` from this Vector.
    fn sub_assign(&mut self, rhs: Self)
        requires
            old(self).sub_req(rhs),
        ensures
            Num::obeys_sub_spec() ==> *final(self) == old(self).sub_spec(rhs),
    {
        *self = *self - rhs;
    }
}

impl<Num: Number + Copy> vstd::std_specs::ops::MulSpecImpl<Num> for Vector<Num> {
    open spec fn obeys_mul_spec() -> bool {
        Num::obeys_mul_spec()
    }

    open spec fn mul_req(self, rhs: Num) -> bool {
        &&& self.x.mul_req(rhs)
        &&& self.y.mul_req(rhs)
        &&& self.z.mul_req(rhs)
    }

    open spec fn mul_spec(self, rhs: Num) -> Self {
        Vector {
            x: self.x.mul_spec(rhs),
            y: self.y.mul_spec(rhs),
            z: self.z.mul_spec(rhs),
        }
    }
}

impl<Num: Number + Copy> Mul<Num> for Vector<Num> {
    type Output = Self;

    /// This Vector scaled by `rhs`: each coordinate times `rhs`.
    fn mul(self, rhs: Num) -> (r: Self) {
        Vector { x: self.x * rhs, y: self.y * rhs, z: self.z * rhs }
    }
}

impl<Num: Number + Copy> MulAssign<Num> for Vector<Num> {
    /// Scales this Vector by `rhs`.
    fn mul_assign(&mut self, rhs: Num)
        requires
            MulSpec::<Num>::mul_req(*old(self), rhs),
        ensures
            Num::obeys_mul_spec() ==> *final(self) == MulSpec::<Num>::mul_spec(*old(self), rhs),
    {
        *self = *self * rhs;
    }
}

impl<Num: Number + Copy> vstd::std_specs::ops::DivSpecImpl<Num> for Vector<Num> {
    open spec fn obeys_div_spec() -> bool {
        Num::obeys_div_spec()
    }

    open spec fn div_req(self, rhs: Num) -> bool {
        &&& self.x.div_req(rhs)
        &&& self.y.div_req(rhs)
        &&& self.z.div_req(rhs)
    }

    open spec fn div_spec(self, rhs: Num) -> Self {
        Vector {
            x: self.x.div_spec(rhs),
            y: self.y.div_spec(rhs),
            z: self.z.div_spec(rhs),
        }
    }
}

impl<Num: Number + Copy> Div<Num> for Vector<Num> {
    type Output = Self;

    /// This Vector shrunk by `rhs`: each coordinate over `rhs`.
    fn div(self, rhs: Num) -> (r: Self) {
        Vector { x: self.x / rhs, y: self.y / rhs, z: self.z / rhs }
    }
}

impl<Num: Number + Copy> DivAssign<Num> for Vector<Num> {
    /// Shrinks this Vector by `rhs`.
    fn div_assign(&mut self, rhs: Num)
        requires
            old(self).div_req(rhs),
        ensures
            Num::obeys_div_spec() ==> *final(self) == old(self).div_spec(rhs),
    {
        *self = *self / rhs;
    }
}

/// A [`Vector`] brought to a length of one.
///
/// The only way to make one is to divide a Vector by its magnitude, with
/// [`Vector::unit`]. The length is one as far as the scalar type can divide
/// and take roots; it is not looked at again afterwards.
#[derive(Clone, Copy, Debug, Eq, Hash)]
pub struct Unit<Num>(Vector<Num>);

impl<Num> View for Unit<Num> {
    type V = Vector<Num>;

    /// The Vector of length one.
    closed spec fn view(&self) -> Vector<Num> {
        self.0
    }
}

impl<Num> Unit<Num> {
    /// The Unit that holds `v`. Only [`Vector::unit`] makes one, of a
    /// Vector that it has brought to length one.
    pub closed spec fn of(v: Vector<Num>) -> Self {
        Unit(v)
    }

    /// A Unit is told by the Vector that it holds.
    pub broadcast proof fn lemma_of(v: Vector<Num>)
        ensures
            #[trigger] Self::of(v)@ == v,
    {
    }

    /// A Unit is the one that holds its Vector.
    pub broadcast proof fn lemma_view(self)
        ensures
            Self::of(#[trigger] self@) == self,
    {
    }

    /// Converts this [`Unit`] into a [`Vector`].
    pub fn vector(self) -> (r: Vector<Num>)
        ensures
            r == self@,
    {
        self.0
    }
}

impl<Num> vstd::std_specs::convert::FromSpecImpl<Unit<Num>> for Vector<Num> {
    open spec fn obeys_from_spec() -> bool {
        true
    }

    open spec fn from_spec(v: Unit<Num>) -> Self {
        v@
    }
}

impl<Num> From<Unit<Num>> for Vector<Num> {
    /// The Vector of length one that `v` holds.
    fn from(v: Unit<Num>) -> (r: Self) {
        v.0
    }
}

impl<Num: PartialEq> vstd::std_specs::cmp::PartialEqSpecImpl for Unit<Num> {
    open spec fn obeys_eq_spec() -> bool {
        Num::obeys_eq_spec()
    }

    open spec fn eq_spec(&self, other: &Self) -> bool {
        PartialEqSpec::eq_spec(&self@, &other@)
    }
}

impl<Num: PartialEq> PartialEq for Unit<Num> {
    /// Units are equal where their Vectors are.
    fn eq(&self, other: &Self) -> (r: bool) {
        self.0 == other.0
    }
}

impl<Num: PartialEq> vstd::std_specs::cmp::PartialEqSpecImpl<Vector<Num>> for Unit<Num> {
    open spec fn obeys_eq_spec() -> bool {
        Num::obeys_eq_spec()
    }

    open spec fn eq_spec(&self, other: &Vector<Num>) -> bool {
        PartialEqSpec::eq_spec(&self@, other)
    }
}

impl<Num: PartialEq> PartialEq<Vector<Num>> for Unit<Num> {
    /// A Unit equals a Vector where the Vector it holds does.
    fn eq(&self, other: &Vector<Num>) -> (r: bool) {
        self.0 == *other
    }
}

impl<Num: Sqrt + Copy> Vector<Num> {
    /// The length of this Vector: the square root of its dot product with
    /// itself.
    pub open spec fn magnitude_spec(self) -> Num {
        self.dot_spec(self).sqrt_spec()
    }

    /// Whether `Num` can carry out each step of taking the length.
    pub open spec fn magnitude_req(self) -> bool {
        &&& self.dot_req(self)
        &&& self.dot_spec(self).sqrt_req()
    }

    /// This Vector over its length.
    pub open spec fn unit_spec(self) -> Self {
        self.div_spec(self.magnitude_spec())
    }

    /// Whether `Num` can carry out each step of bringing this Vector to
    /// length one. Where division by zero is not defined for `Num`, this
    /// leaves out the Vectors of length zero.
    pub open spec fn unit_req(self) -> bool {
        &&& self.magnitude_req()
        &&& self.div_req(self.magnitude_spec())
    }

    /// Returns the magnitude of this Vector.
    pub fn magnituid(self) -> (r: Num)
        requires
            self.magnitude_req(),
        ensures
            r == self.magnitude_spec(),
    {
        Self::dot(self, self).sqrt()
    }

    /// Converts this Vector into a unit Vector.
    pub fn unit(self) -> (u: Unit<Num>)
        requires
            self.unit_req(),
        ensures
            u == Unit::of(self.unit_spec()),
            u@ == self.unit_spec(),
    {
        Unit(self / self.magnituid())
    }
}

/// `a * x + c * z - d * y`, as the operators of `Num` compute it from the
/// left.
pub open spec fn two_products_less_one<Num: Number>(
    a: Num,
    x: Num,
    c: Num,
    z: Num,
    d: Num,
    y: Num,
) -> Num {
    a.mul_spec(x).add_spec(c.mul_spec(z)).sub_spec(d.mul_spec(y))
}

/// Whether `Num` can carry out each step of `a * x + c * z - d * y`.
pub open spec fn two_products_less_one_req<Num: Number>(
    a: Num,
    x: Num,
    c: Num,
    z: Num,
    d: Num,
    y: Num,
) -> bool {
    &&& a.mul_req(x)
    &&& c.mul_req(z)
    &&& d.mul_req(y)
    &&& a.mul_spec(x).add_req(c.mul_spec(z))
    &&& a.mul_spec(x).add_spec(c.mul_spec(z)).sub_req(d.mul_spec(y))
}

/// Computes `a * x + c * z - d * y`.
fn sum_less_product<Num: Number + Copy>(a: Num, x: Num, c: Num, z: Num, d: Num, y: Num) -> (r:
    Num)
    requires
        obeys_arithmetic::<Num>(),
        two_products_less_one_req(a, x, c, z, d, y),
    ensures
        r == two_products_less_one(a, x, c, z, d, y),
{
    (a * x) + (c * z) - (d * y)
}

/// `e * f + a * x + c * z - d * y`, as the operators of `Num` compute it
/// from the left.
pub open spec fn three_products_less_one<Num: Number>(
    e: Num,
    f: Num,
    a: Num,
    x: Num,
    c: Num,
    z: Num,
    d: Num,
    y: Num,
) -> Num {
    e.mul_spec(f).add_spec(a.mul_spec(x)).add_spec(c.mul_spec(z)).sub_spec(d.mul_spec(y))
}

/// Whether `Num` can carry out each step of `e * f + a * x + c * z - d * y`.
pub open spec fn three_products_less_one_req<Num: Number>(
    e: Num,
    f: Num,
    a: Num,
    x: Num,
    c: Num,
    z: Num,
    d: Num,
    y: Num,
) -> bool {
    &&& e.mul_req(f)
    &&& a.mul_req(x)
    &&& c.mul_req(z)
    &&& d.mul_req(y)
    &&& e.mul_spec(f).add_req(a.mul_spec(x))
    &&& e.mul_spec(f).add_spec(a.mul_spec(x)).add_req(c.mul_spec(z))
    &&& e.mul_spec(f).add_spec(a.mul_spec(x)).add_spec(c.mul_spec(z)).sub_req(d.mul_spec(y))
}

/// Computes `e * f + a * x + c * z - d * y`.
fn long_sum_less_product<Num: Number + Copy>(
    e: Num,
    f: Num,
    a: Num,
    x: Num,
    c: Num,
    z: Num,
    d: Num,
    y: Num,
) -> (r: Num)
    requires
        obeys_arithmetic::<Num>(),
        three_products_less_one_req(e, f, a, x, c, z, d, y),
    ensures
        r == three_products_less_one(e, f, a, x, c, z, d, y),
{
    (e * f) + (a * x) + (c * z) - (d * y)
}

impl<Num: Number + Copy> Vector<Num> {
    /// The vector part of the quaternion product `(re, im) * (0, self)`:
    /// `re * self + im × self`, written out coordinate by coordinate.
    pub open spec fn turned_spec(self, re: Num, im: Self) -> Self {
        Vector {
            x: two_products_less_one(re, self.x, im.y, self.z, im.z, self.y),
            y: two_products_less_one(re, self.y, im.z, self.x, im.x, self.z),
            z: two_products_less_one(re, self.z, im.x, self.y, im.y, self.x),
        }
    }

    /// Whether `Num` can carry out each step of `turned_spec`.
    pub open spec fn turned_req(self, re: Num, im: Self) -> bool {
        &&& two_products_less_one_req(re, self.x, im.y, self.z, im.z, self.y)
        &&& two_products_less_one_req(re, self.y, im.z, self.x, im.x, self.z)
        &&& two_products_less_one_req(re, self.z, im.x, self.y, im.y, self.x)
    }

    /// The real part of the quaternion product `(re, im) * (0, self)`:
    /// `- im.x * self.x - im.y * self.y - im.z * self.z`.
    pub open spec fn turned_real_spec(self, im: Self) -> Num {
        im.x.mul_spec(self.x).neg_spec().sub_spec(im.y.mul_spec(self.y)).sub_spec(
            im.z.mul_spec(self.z),
        )
    }

    /// Whether `Num` can carry out each step of `turned_real_spec`.
    pub open spec fn turned_real_req(self, im: Self) -> bool {
        &&& im.x.mul_req(self.x)
        &&& im.y.mul_req(self.y)
        &&& im.z.mul_req(self.z)
        &&& im.x.mul_spec(self.x).neg_req()
        &&& im.x.mul_spec(self.x).neg_spec().sub_req(im.y.mul_spec(self.y))
        &&& im.x.mul_spec(self.x).neg_spec().sub_spec(im.y.mul_spec(self.y)).sub_req(
            im.z.mul_spec(self.z),
        )
    }

    /// The vector part of the quaternion product `(w, self) * (re, im)`:
    /// `w * im + re * self + self × im`, written out coordinate by
    /// coordinate.
    pub open spec fn turned_back_spec(self, w: Num, re: Num, im: Self) -> Self {
        Vector {
            x: three_products_less_one(w, im.x, re, self.x, self.y, im.z, self.z, im.y),
            y: three_products_less_one(w, im.y, re, self.y, self.z, im.x, self.x, im.z),
            z: three_products_less_one(w, im.z, re, self.z, self.x, im.y, self.y, im.x),
        }
    }

    /// Whether `Num` can carry out each step of `turned_back_spec`.
    pub open spec fn turned_back_req(self, w: Num, re: Num, im: Self) -> bool {
        &&& three_products_less_one_req(w, im.x, re, self.x, self.y, im.z, self.z, im.y)
        &&& three_products_less_one_req(w, im.y, re, self.y, self.z, im.x, self.x, im.z)
        &&& three_products_less_one_req(w, im.z, re, self.z, self.x, im.y, self.y, im.x)
    }

    /// This Vector conjugated by the quaternion `q = (re, im)`: the
    /// vector part of `q * (0, self) * conj(q)`, with the products written
    /// out in the four coordinates. For a `q` of length one this is the
    /// Vector turned about `im` by twice the angle whose cosine is `re`.
    pub open spec fn conjugate_by_spec(self, re: Num, im: Self) -> Self {
        self.turned_spec(re, im).turned_back_spec(
            self.turned_real_spec(im),
            re,
            im.neg_spec(),
        )
    }

    /// Whether `Num` can carry out each step of the conjugation.
    pub open spec fn conjugate_by_req(self, re: Num, im: Self) -> bool {
        &&& obeys_arithmetic::<Num>()
        &&& self.turned_req(re, im)
        &&& self.turned_real_req(im)
        &&& im.neg_req()
        &&& self.turned_spec(re, im).turned_back_req(
            self.turned_real_spec(im),
            re,
            im.neg_spec(),
        )
    }

    /// Conjugates this Vector by the quaternion `(re, im)`.
    ///
    /// The quaternion identities (`ij = k`, `jk = i`, `ki = j`, each
    /// reversed with a minus, `ijk = -1`) are applied by hand: the x
    /// dimension is `i`, y is `j` and z is `k`.
    pub fn conjugate_by(&self, re: Num, im: Self) -> (r: Self)
        requires
            self.conjugate_by_req(re, im),
        ensures
            r == self.conjugate_by_spec(re, im),
    {
        let temp = Vector {
            x: sum_less_product(re, self.x, im.y, self.z, im.z, self.y),
            y: sum_less_product(re, self.y, im.z, self.x, im.x, self.z),
            z: sum_less_product(re, self.z, im.x, self.y, im.y, self.x),
        };
        let w = (im.x * self.x).neg() - (im.y * self.y) - (im.z * self.z);
        // Negate as the inversion of the quaternion.
        let back = im.neg();
        Vector {
            x: long_sum_less_product(w, back.x, re, temp.x, temp.y, back.z, temp.z, back.y),
            y: long_sum_less_product(w, back.y, re, temp.y, temp.z, back.x, temp.x, back.z),
            z: long_sum_less_product(w, back.z, re, temp.z, temp.x, back.y, temp.y, back.x),
        }
    }
}

impl<Num: Sqrt + Trigonometry + Copy> Vector<Num> {
    /// Half the angle of `rotation`.
    pub open spec fn half_angle(rotation: Rotation<Num>) -> Num {
        rotation.angle.div_spec(Num::from_usize_spec(2))
    }

    /// This Vector turned by `rotation`: conjugated by the quaternion whose
    /// real part is the cosine of half the angle and whose imaginary part is
    /// the axis times the sine of half the angle.
    pub open spec fn rotate_spec(self, rotation: Rotation<Num>) -> Self {
        self.conjugate_by_spec(
            Self::half_angle(rotation).cos_spec(),
            rotation.axis@.mul_spec(Self::half_angle(rotation).sin_spec()),
        )
    }

    /// Whether `Num` can carry out each step of the rotation.
    pub open spec fn rotate_req(self, rotation: Rotation<Num>) -> bool {
        &&& obeys_arithmetic::<Num>()
        &&& rotation.angle.div_req(Num::from_usize_spec(2))
        &&& rotation.axis@.mul_req(Self::half_angle(rotation).sin_spec())
        &&& self.conjugate_by_req(
            Self::half_angle(rotation).cos_spec(),
            rotation.axis@.mul_spec(Self::half_angle(rotation).sin_spec()),
        )
    }

    /// Rotates this Vector.
    ///
    /// # Params
    ///
    /// rotation --- The rotation to apply.
    pub fn rotate(&self, rotation: &Rotation<Num>) -> (r: Self)
        requires
            self.rotate_req(*rotation),
        ensures
            r == self.rotate_spec(*rotation),
    {
        let half = rotation.angle / Num::from_usize(2);
        let re = half.cos();
        let im = rotation.axis.vector() * half.sin();
        self.conjugate_by(re, im)
    }
}

impl<Num: ArithmeticLaws + Copy> Vector<Num> {
    /// The dot product does not depend on the order of its operands:
    /// `dot(a, b) == dot(b, a)`.
    pub proof fn lemma_dot_commutative(a: Self, b: Self)
        ensures
            a.dot_spec(b) == b.dot_spec(a),
    {
        Num::lemma_mul_commutative(a.x, b.x);
        Num::lemma_mul_commutative(a.y, b.y);
        Num::lemma_mul_commutative(a.z, b.z);
    }

    /// Swapping the operands of the cross product negates it:
    /// `cross(a, b) == -cross(b, a)`.
    pub proof fn lemma_cross_anticommutative(a: Self, b: Self)
        ensures
            a.cross_spec(b) == b.cross_spec(a).neg_spec(),
    {
        Num::lemma_mul_commutative(a.y, b.z);
        Num::lemma_mul_commutative(a.z, b.y);
        Num::lemma_sub_antisymmetric(b.y.mul_spec(a.z), b.z.mul_spec(a.y));
        Num::lemma_mul_commutative(a.z, b.x);
        Num::lemma_mul_commutative(a.x, b.z);
        Num::lemma_sub_antisymmetric(b.z.mul_spec(a.x), b.x.mul_spec(a.z));
        Num::lemma_mul_commutative(a.x, b.y);
        Num::lemma_mul_commutative(a.y, b.x);
        Num::lemma_sub_antisymmetric(b.x.mul_spec(a.y), b.y.mul_spec(a.x));
    }

    /// The cross product of a Vector with itself is the zero Vector.
    pub proof fn lemma_cross_self(a: Self)
        ensures
            a.cross_spec(a) == Self::zero(),
    {
        Num::lemma_mul_commutative(a.y, a.z);
        Num::lemma_sub_self(a.y.mul_spec(a.z));
        Num::lemma_mul_commutative(a.z, a.x);
        Num::lemma_sub_self(a.z.mul_spec(a.x));
        Num::lemma_mul_commutative(a.x, a.y);
        Num::lemma_sub_self(a.x.mul_spec(a.y));
    }
}


/// The product of two quaternions, each given as its real part and its three
/// imaginary parts: `ij = k`, `jk = i`, `ki = j`, each reversed with a
/// minus, and `ii = jj = kk = -1`.
pub open spec fn hamilton(p: (int, int, int, int), q: (int, int, int, int)) -> (
    int,
    int,
    int,
    int,
) {
    (
        p.0 * q.0 - p.1 * q.1 - p.2 * q.2 - p.3 * q.3,
        p.0 * q.1 + p.1 * q.0 + p.2 * q.3 - p.3 * q.2,
        p.0 * q.2 - p.1 * q.3 + p.2 * q.0 + p.3 * q.1,
        p.0 * q.3 + p.1 * q.2 - p.2 * q.1 + p.3 * q.0,
    )
}

/// Whether two triples of integers are parallel: whether multiples of the
/// two, not both by zero, are equal. The zero triple is parallel to all.
pub open spec fn parallel(a: (int, int, int), b: (int, int, int)) -> bool {
    exists|s: int, t: int|
        (s != 0 || t != 0) && #[trigger] (s * a.0) == #[trigger] (t * b.0) && s * a.1 == t * b.1
            && s * a.2 == t * b.2
}

/// Over whole numbers `a * b - c * d` is what it says.
proof fn lemma_product_difference<Num: WholeNumber>(a: Num, b: Num, c: Num, d: Num)
    requires
        product_difference_req(a, b, c, d),
    ensures
        product_difference(a, b, c, d).value() == a.value() * b.value() - c.value() * d.value(),
{
    Num::lemma_value(a, b);
    Num::lemma_value(c, d);
    Num::lemma_value(a.mul_spec(b), c.mul_spec(d));
}

/// Over whole numbers `a * x + c * z - d * y` is what it says.
proof fn lemma_two_products_less_one<Num: WholeNumber>(
    a: Num,
    x: Num,
    c: Num,
    z: Num,
    d: Num,
    y: Num,
)
    requires
        two_products_less_one_req(a, x, c, z, d, y),
    ensures
        two_products_less_one(a, x, c, z, d, y).value() == a.value() * x.value() + c.value()
            * z.value() - d.value() * y.value(),
{
    Num::lemma_value(a, x);
    Num::lemma_value(c, z);
    Num::lemma_value(d, y);
    Num::lemma_value(a.mul_spec(x), c.mul_spec(z));
    Num::lemma_value(a.mul_spec(x).add_spec(c.mul_spec(z)), d.mul_spec(y));
}

/// Over whole numbers `e * f + a * x + c * z - d * y` is what it says.
proof fn lemma_three_products_less_one<Num: WholeNumber>(
    e: Num,
    f: Num,
    a: Num,
    x: Num,
    c: Num,
    z: Num,
    d: Num,
    y: Num,
)
    requires
        three_products_less_one_req(e, f, a, x, c, z, d, y),
    ensures
        three_products_less_one(e, f, a, x, c, z, d, y).value() == e.value() * f.value()
            + a.value() * x.value() + c.value() * z.value() - d.value() * y.value(),
{
    Num::lemma_value(e, f);
    Num::lemma_value(a, x);
    Num::lemma_value(c, z);
    Num::lemma_value(d, y);
    Num::lemma_value(e.mul_spec(f), a.mul_spec(x));
    Num::lemma_value(e.mul_spec(f).add_spec(a.mul_spec(x)), c.mul_spec(z));
    Num::lemma_value(
        e.mul_spec(f).add_spec(a.mul_spec(x)).add_spec(c.mul_spec(z)),
        d.mul_spec(y),
    );
}

/// The real part of `q * (0, v) * conj(q)` is zero: the terms cancel in
/// pairs.
proof fn lemma_real_part_vanishes(a: int, b: int, c: int, d: int, x: int, y: int, z: int)
    ensures
        (-(b * x) - c * y - d * z) * a + (a * x + c * z - d * y) * b + (a * y + d * x - b * z) * c
            + (a * z + b * y - c * x) * d == 0,
{
    assert((-(b * x) - c * y - d * z) * a == -(b * x * a) - c * y * a - d * z * a)
        by (nonlinear_arith);
    assert((a * x + c * z - d * y) * b == a * x * b + c * z * b - d * y * b) by (nonlinear_arith);
    assert((a * y + d * x - b * z) * c == a * y * c + d * x * c - b * z * c) by (nonlinear_arith);
    assert((a * z + b * y - c * x) * d == a * z * d + b * y * d - c * x * d) by (nonlinear_arith);
    assert(b * x * a == a * x * b) by (nonlinear_arith);
    assert(c * y * a == a * y * c) by (nonlinear_arith);
    assert(d * z * a == a * z * d) by (nonlinear_arith);
    assert(c * z * b == b * z * c) by (nonlinear_arith);
    assert(d * y * b == b * y * d) by (nonlinear_arith);
    assert(d * x * c == c * x * d) by (nonlinear_arith);
}

impl<Num: WholeNumber + Copy> Vector<Num> {
    /// The three integers that the coordinates are.
    pub open spec fn values(self) -> (int, int, int) {
        (self.x.value(), self.y.value(), self.z.value())
    }

    /// Over whole numbers the cross product is zero for parallel Vectors and
    /// for no others.
    pub proof fn lemma_cross_zero_iff_parallel(a: Self, b: Self)
        requires
            a.cross_req(b),
        ensures
            a.cross_spec(b) == Self::zero() <==> parallel(a.values(), b.values()),
    {
        let (ax, ay, az) = a.values();
        let (bx, by, bz) = b.values();
        let c = a.cross_spec(b);
        lemma_product_difference(a.y, b.z, a.z, b.y);
        lemma_product_difference(a.z, b.x, a.x, b.z);
        lemma_product_difference(a.x, b.y, a.y, b.x);
        Num::lemma_value(c.x, Num::from_isize_spec(0));
        Num::lemma_value(c.y, Num::from_isize_spec(0));
        Num::lemma_value(c.z, Num::from_isize_spec(0));
        let cx = ay * bz - az * by;
        let cy = az * bx - ax * bz;
        let cz = ax * by - ay * bx;
        if cx == 0 && cy == 0 && cz == 0 {
            if bx != 0 {
                assert(bx * ax == ax * bx && bx * ay == ax * by && bx * az == ax * bz)
                    by (nonlinear_arith)
                    requires
                        az * bx - ax * bz == 0,
                        ax * by - ay * bx == 0,
                ;
            } else if by != 0 {
                assert(by * ax == ay * bx && by * ay == ay * by && by * az == ay * bz)
                    by (nonlinear_arith)
                    requires
                        ay * bz - az * by == 0,
                        ax * by - ay * bx == 0,
                ;
            } else if bz != 0 {
                assert(bz * ax == az * bx && bz * ay == az * by && bz * az == az * bz)
                    by (nonlinear_arith)
                    requires
                        ay * bz - az * by == 0,
                        az * bx - ax * bz == 0,
                ;
            } else {
                assert(0 * a.values().0 == 1 * b.values().0 && 0 * ay == 1 * by && 0 * az == 1
                    * bz) by (nonlinear_arith)
                    requires
                        b.values().0 == 0,
                        by == 0,
                        bz == 0,
                ;
            }
        }
        if parallel(a.values(), b.values()) {
            let (s, t) = choose|s: int, t: int|
                (s != 0 || t != 0) && #[trigger] (s * a.values().0) == #[trigger] (t
                    * b.values().0) && s * a.values().1 == t * b.values().1 && s * a.values().2
                    == t * b.values().2;
            assert(cx == 0 && cy == 0 && cz == 0) by (nonlinear_arith)
                requires
                    s != 0 || t != 0,
                    s * ax == t * bx,
                    s * ay == t * by,
                    s * az == t * bz,
                    cx == ay * bz - az * by,
                    cy == az * bx - ax * bz,
                    cz == ax * by - ay * bx,
            ;
        }
    }

    /// Over whole numbers `conjugate_by` is the conjugation of quaternions:
    /// with `q = (re, im)`, the product `q * (0, v) * conj(q)` has no real
    /// part, and its imaginary parts are the coordinates of the result.
    pub proof fn lemma_conjugate_by_is_conjugation(v: Self, re: Num, im: Self)
        requires
            v.conjugate_by_req(re, im),
        ensures
            ({
                let q = (re.value(), im.x.value(), im.y.value(), im.z.value());
                let p = (0int, v.x.value(), v.y.value(), v.z.value());
                let r = v.conjugate_by_spec(re, im).values();
                hamilton(hamilton(q, p), (q.0, -q.1, -q.2, -q.3)) == (0int, r.0, r.1, r.2)
            }),
    {
        let temp = v.turned_spec(re, im);
        let w = v.turned_real_spec(im);
        let back = im.neg_spec();
        lemma_two_products_less_one(re, v.x, im.y, v.z, im.z, v.y);
        lemma_two_products_less_one(re, v.y, im.z, v.x, im.x, v.z);
        lemma_two_products_less_one(re, v.z, im.x, v.y, im.y, v.x);
        Num::lemma_value(im.x, v.x);
        Num::lemma_value(im.y, v.y);
        Num::lemma_value(im.z, v.z);
        Num::lemma_value(im.x.mul_spec(v.x), im.x);
        Num::lemma_value(im.x.mul_spec(v.x).neg_spec(), im.y.mul_spec(v.y));
        Num::lemma_value(
            im.x.mul_spec(v.x).neg_spec().sub_spec(im.y.mul_spec(v.y)),
            im.z.mul_spec(v.z),
        );
        Num::lemma_value(im.x, im.x);
        Num::lemma_value(im.y, im.y);
        Num::lemma_value(im.z, im.z);
        lemma_three_products_less_one(w, back.x, re, temp.x, temp.y, back.z, temp.z, back.y);
        lemma_three_products_less_one(w, back.y, re, temp.y, temp.z, back.x, temp.x, back.z);
        lemma_three_products_less_one(w, back.z, re, temp.z, temp.x, back.y, temp.y, back.x);
        let a = re.value();
        let (b, c, d) = im.values();
        let (x, y, z) = v.values();
        let (tx, ty, tz) = temp.values();
        let t0 = w.value();
        let (rx, ry, rz) = v.conjugate_by_spec(re, im).values();
        let first = hamilton((a, b, c, d), (0int, x, y, z));
        assert(first == (t0, tx, ty, tz)) by (nonlinear_arith)
            requires
                first == hamilton((a, b, c, d), (0int, x, y, z)),
                tx == a * x + c * z - d * y,
                ty == a * y + d * x - b * z,
                tz == a * z + b * y - c * x,
                t0 == -(b * x) - c * y - d * z,
        ;
        let second = hamilton((t0, tx, ty, tz), (a, -b, -c, -d));
        assert(second.1 == rx && second.2 == ry && second.3 == rz) by (nonlinear_arith)
            requires
                second == hamilton((t0, tx, ty, tz), (a, -b, -c, -d)),
                rx == t0 * (-b) + a * tx + ty * (-d) - tz * (-c),
                ry == t0 * (-c) + a * ty + tz * (-b) - tx * (-d),
                rz == t0 * (-d) + a * tz + tx * (-c) - ty * (-b),
        ;
        lemma_real_part_vanishes(a, b, c, d, x, y, z);
        assert(second.0 == t0 * a + tx * b + ty * c + tz * d) by (nonlinear_arith)
            requires
                second == hamilton((t0, tx, ty, tz), (a, -b, -c, -d)),
        ;
    }
}

} // verus!
