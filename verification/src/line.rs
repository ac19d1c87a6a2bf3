//! A line in space.

use crate::number::{Sqrt, Trigonometry};
use crate::rotation::Rotation;
use crate::transform::{Orientation, Position};
use crate::vector::Vector;
use core::ops::Add;
use vstd::prelude::*;
use vstd::std_specs::ops::AddSpec;

verus! {

/// A line in space.
#[derive(PartialEq, Eq, Clone, Copy, Hash)]
pub struct Line<Num> {
    /// The origin point of the Line.
    pub location: Vector<Num>,
    /// The direction of the Line.
    pub direction: Vector<Num>,
}

impl<Num: Copy> Position for Line<Num> {
    type Pos = Vector<Num>;

    open spec fn position_req(&self) -> bool {
        true
    }

    open spec fn position_spec(&self) -> Vector<Num> {
        self.location
    }

    open spec fn set_position_req(&self, pos: Vector<Num>) -> bool {
        true
    }

    open spec fn set_position_spec(&self, pos: Vector<Num>) -> Self {
        Line { location: pos, direction: self.direction }
    }

    open spec fn translate_req(&self, trans: Vector<Num>) -> bool where
        Vector<Num>: Add<Output = Vector<Num>>,
     {
        &&& <Vector<Num> as AddSpec>::obeys_add_spec()
        &&& self.location.add_req(trans)
    }

    open spec fn translate_spec(&self, trans: Vector<Num>) -> Self where
        Vector<Num>: Add<Output = Vector<Num>>,
     {
        Line { location: self.location.add_spec(trans), direction: self.direction }
    }

    /// A Line is where its origin point is.
    fn position(&self) -> (r: Vector<Num>) {
        self.location
    }

    fn set_position(&mut self, pos: Vector<Num>) -> (r: &mut Self) {
        self.location = pos;
        self
    }

    fn translate(&mut self, trans: Vector<Num>) -> (r: &mut Self) where
        Vector<Num>: Add<Output = Vector<Num>>,
     {
        let moved = self.position() + trans;
        self.set_position(moved)
    }
}

impl<Num> Orientation<Num> for Line<Num> where Num: Sqrt + Trigonometry + Copy {
    open spec fn direction_req(&self) -> bool {
        true
    }

    open spec fn direction_spec(&self) -> Vector<Num> {
        self.direction
    }

    open spec fn set_direction_req(&self, dir: Vector<Num>) -> bool {
        true
    }

    open spec fn set_direction_spec(&self, dir: Vector<Num>) -> Self {
        Line { location: self.location, direction: dir }
    }

    open spec fn rotate_req(&self, rotation: Rotation<Num>) -> bool {
        self.direction.rotate_req(rotation)
    }

    open spec fn rotate_spec(&self, rotation: Rotation<Num>) -> Self {
        Line { location: self.location, direction: self.direction.rotate_spec(rotation) }
    }

    fn direction(&self) -> (r: Vector<Num>) {
        self.direction
    }

    fn set_direction(&mut self, dir: Vector<Num>) -> (r: &mut Self) {
        self.direction = dir;
        self
    }

    /// A Line turns about its origin point, which stays where it is.
    fn rotate(&mut self, rotation: &Rotation<Num>) -> (r: &mut Self) {
        let turned = Vector::rotate(&self.direction(), rotation);
        self.set_direction(turned)
    }
}

} // verus!
