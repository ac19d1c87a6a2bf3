//! A triangle of three points in space.

use crate::number::{obeys_arithmetic, Number, Sqrt, Trigonometry};
use crate::rotation::Rotation;
use crate::transform::{Orientation, Position};
use crate::vector::Vector;
use core::ops::Add;
use vstd::prelude::*;
use vstd::std_specs::ops::{AddSpec, DivSpec, SubSpec};

verus! {

/// A triangle of three points in space.
#[derive(PartialEq, Eq, Clone, Copy, Hash)]
pub struct Triangle<Num> {
    /// The first point.
    pub p1: Vector<Num>,
    /// The second point.
    pub p2: Vector<Num>,
    /// The third point.
    pub p3: Vector<Num>,
}

impl<Num: Number + Copy> Position for Triangle<Num> {
    type Pos = Vector<Num>;

    /// The three points can be added up and the sum divided by three.
    open spec fn position_req(&self) -> bool {
        &&& obeys_arithmetic::<Num>()
        &&& self.p1.add_req(self.p2)
        &&& self.p1.add_spec(self.p2).add_req(self.p3)
        &&& self.p1.add_spec(self.p2).add_spec(self.p3).div_req(Num::from_isize_spec(3))
    }

    /// The centroid: the mean of the three points.
    open spec fn position_spec(&self) -> Vector<Num> {
        self.p1.add_spec(self.p2).add_spec(self.p3).div_spec(Num::from_isize_spec(3))
    }

    /// The centroid can be computed and taken from `pos`, and each point
    /// moved by the difference.
    open spec fn set_position_req(&self, pos: Vector<Num>) -> bool {
        &&& self.position_req()
        &&& pos.sub_req(self.position_spec())
        &&& self.translate_req(pos.sub_spec(self.position_spec()))
    }

    /// Each point, moved by what takes the centroid to `pos`.
    open spec fn set_position_spec(&self, pos: Vector<Num>) -> Self {
        self.translate_spec(pos.sub_spec(self.position_spec()))
    }

    /// Each point can be moved by `trans`.
    open spec fn translate_req(&self, trans: Vector<Num>) -> bool where
        Vector<Num>: Add<Output = Vector<Num>>,
     {
        &&& Num::obeys_add_spec()
        &&& self.p1.add_req(trans)
        &&& self.p2.add_req(trans)
        &&& self.p3.add_req(trans)
    }

    /// Each point, moved by `trans`.
    open spec fn translate_spec(&self, trans: Vector<Num>) -> Self where
        Vector<Num>: Add<Output = Vector<Num>>,
     {
        Triangle {
            p1: self.p1.add_spec(trans),
            p2: self.p2.add_spec(trans),
            p3: self.p3.add_spec(trans),
        }
    }

    /// A Triangle is where its centroid is.
    fn position(&self) -> (r: Vector<Num>) {
        (self.p1 + self.p2 + self.p3) / Num::from_isize(3)
    }

    /// Moves the Triangle so that its centroid comes to lie on `pos`, as
    /// nearly as `Num` divides by three.
    fn set_position(&mut self, pos: Vector<Num>) -> (r: &mut Self) {
        let trans = pos - self.position();
        self.translate(trans)
    }

    /// Moves each of the three points.
    fn translate(&mut self, trans: Vector<Num>) -> (r: &mut Self) where
        Vector<Num>: Add<Output = Vector<Num>>,
     {
        self.p1.translate(trans);
        self.p2.translate(trans);
        self.p3.translate(trans);
        self
    }
}

impl<Num> Orientation<Num> for Triangle<Num> where Num: Sqrt + Trigonometry + Copy {
    /// The two edges from the first point, and their cross product, can be
    /// computed.
    open spec fn direction_req(&self) -> bool {
        &&& obeys_arithmetic::<Num>()
        &&& self.p2.sub_req(self.p1)
        &&& self.p3.sub_req(self.p1)
        &&& self.p2.sub_spec(self.p1).cross_req(self.p3.sub_spec(self.p1))
    }

    /// The normal of the Triangle's plane: the cross product of the two
    /// edges from the first point.
    open spec fn direction_spec(&self) -> Vector<Num> {
        self.p2.sub_spec(self.p1).cross_spec(self.p3.sub_spec(self.p1))
    }

    /// The rotation from the normal to `dir` can be found, and each point
    /// turned by it.
    open spec fn set_direction_req(&self, dir: Vector<Num>) -> bool {
        &&& self.direction_req()
        &&& Rotation::find_rotation_req(self.direction_spec(), dir)
        &&& self.rotate_req(Rotation::find_rotation_spec(self.direction_spec(), dir))
    }

    /// Each point, turned by the rotation from the normal to `dir`.
    open spec fn set_direction_spec(&self, dir: Vector<Num>) -> Self {
        self.rotate_spec(Rotation::find_rotation_spec(self.direction_spec(), dir))
    }

    /// Each point can be turned by `rotation`.
    open spec fn rotate_req(&self, rotation: Rotation<Num>) -> bool {
        &&& self.p1.rotate_req(rotation)
        &&& self.p2.rotate_req(rotation)
        &&& self.p3.rotate_req(rotation)
    }

    /// Each point, turned by `rotation` about the origin.
    open spec fn rotate_spec(&self, rotation: Rotation<Num>) -> Self {
        Triangle {
            p1: self.p1.rotate_spec(rotation),
            p2: self.p2.rotate_spec(rotation),
            p3: self.p3.rotate_spec(rotation),
        }
    }

    /// A Triangle faces along the normal of its plane.
    fn direction(&self) -> (r: Vector<Num>) {
        let v1 = self.p2 - self.p1;
        let v2 = self.p3 - self.p1;
        Vector::cross(v1, v2)
    }

    /// Turns the Triangle so that its normal comes to lie along `dir`.
    fn set_direction(&mut self, dir: Vector<Num>) -> (r: &mut Self) {
        let rotation = Rotation::between(self.direction(), dir);
        self.rotate(&rotation)
    }

    /// Turns each of the three points.
    fn rotate(&mut self, rotation: &Rotation<Num>) -> (r: &mut Self) {
        Orientation::rotate(&mut self.p1, rotation);
        Orientation::rotate(&mut self.p2, rotation);
        Orientation::rotate(&mut self.p3, rotation);
        self
    }
}

} // verus!
