//! Rotations in 3D space, and the rotation that takes one Vector to another.

use crate::number::{Number, Sqrt, Trigonometry};
use crate::vector::{Unit, Vector};
use vstd::prelude::*;
use vstd::std_specs::ops::{DivSpec, MulSpec};

verus! {

/// A rotation in 3D space: a turn by `angle` radians about `axis`, by the
/// right-hand rule.
#[derive(Clone, Copy, Debug)]
pub struct Rotation<Num: Number> {
    /// The axis around which the rotation occurs.
    pub axis: Unit<Num>,
    /// The angle of the rotation.
    pub angle: Num,
}

impl<Num: Number> Rotation<Num> {
    /// Creates a new [`Rotation`] value.
    pub fn new(axis: Unit<Num>, angle: Num) -> (r: Self)
        ensures
            r == (Rotation { axis, angle }),
    {
        Rotation { axis, angle }
    }
}

impl<Num: Sqrt + Trigonometry + Copy> Rotation<Num> {
    /// The squared cosine of the angle between `from` and `to`: the square of
    /// their dot product over the product of their squared lengths.
    pub open spec fn cosine_squared(from: Vector<Num>, to: Vector<Num>) -> Num {
        from.dot_spec(to).mul_spec(from.dot_spec(to)).div_spec(
            from.dot_spec(from).mul_spec(to.dot_spec(to)),
        )
    }

    /// Whether `Num` can carry out each step of `cosine_squared`.
    pub open spec fn cosine_squared_req(from: Vector<Num>, to: Vector<Num>) -> bool {
        &&& from.dot_req(to)
        &&& from.dot_req(from)
        &&& to.dot_req(to)
        &&& from.dot_spec(to).mul_req(from.dot_spec(to))
        &&& from.dot_spec(from).mul_req(to.dot_spec(to))
        &&& from.dot_spec(to).mul_spec(from.dot_spec(to)).div_req(
            from.dot_spec(from).mul_spec(to.dot_spec(to)),
        )
    }

    /// Whether `Num` can carry out each step of finding the rotation from
    /// `from` to `to`. Where division by zero is not defined for `Num`, this
    /// leaves out the Vectors of length zero and the pairs of parallel
    /// Vectors, which have no axis to turn about.
    pub open spec fn find_rotation_req(from: Vector<Num>, to: Vector<Num>) -> bool {
        &&& Self::cosine_squared_req(from, to)
        &&& from.cross_req(to)
        &&& from.cross_spec(to).unit_req()
    }

    /// The rotation from `from` to `to`: about their cross product, brought
    /// to length one, by the inverse cosine of their squared cosine.
    pub open spec fn find_rotation_spec(from: Vector<Num>, to: Vector<Num>) -> Self {
        Rotation {
            axis: Unit::of(from.cross_spec(to).unit_spec()),
            angle: Self::cosine_squared(from, to).acos_spec(),
        }
    }

    /// The rotation between `from` and `to`: the one that [`find_rotation`]
    /// finds.
    ///
    /// [`find_rotation`]: Rotation::find_rotation
    pub fn between(from: Vector<Num>, to: Vector<Num>) -> (r: Self)
        requires
            Self::find_rotation_req(from, to),
        ensures
            r == Self::find_rotation_spec(from, to),
    {
        Self::find_rotation(from, to)
    }

    /// Finds the rotation to go from `from` to `to`.
    ///
    /// Differences in the length of the [`Vector`]s have no effect on the
    /// [`Rotation`] returned. Its axis is the cross product of the two,
    /// brought to length one. Its angle is the inverse cosine of the squared
    /// cosine of the angle between the two. Taking the cosine squared saves
    /// a square root; as an angle shares it with what it lacks to a half
    /// turn, no angle beyond a right angle comes out.
    ///
    /// # Params
    ///
    /// from --- The [`Vector`] to find the [`Rotation`] from.
    /// to --- The [`Vector`] to rotate `from` into.
    pub fn find_rotation(from: Vector<Num>, to: Vector<Num>) -> (r: Self)
        requires
            Self::find_rotation_req(from, to),
        ensures
            r == Self::find_rotation_spec(from, to),
            r.angle == Self::cosine_squared(from, to).acos_spec(),
            r.axis@ == from.cross_spec(to).unit_spec(),
    {
        let dot = from * to;
        // Using the square of the dot means we can use the square of the
        // magnitudes while calculating the angle.
        let dot2 = dot * dot;
        let from_mag2 = from * from;
        let to_mag2 = to * to;
        let angle = (dot2 / (from_mag2 * to_mag2)).acos();
        let axis = Vector::cross(from, to).unit();
        Rotation { axis, angle }
    }
}

} // verus!
