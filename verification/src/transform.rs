//! What values with a place and a facing offer: the traits that shapes
//! implement on top of Vectors and Rotations.

use crate::number::{Sqrt, Trigonometry};
use crate::rotation::Rotation;
use crate::vector::{Unit, Vector};
use core::ops::Add;
use vstd::prelude::*;
use vstd::std_specs::ops::AddSpec;

verus! {

/// A trait for types with a position attribute.
///
/// Each operation comes with two specification functions: `.._req` says on
/// which values the type can carry it out, `.._spec` what it leaves behind.
/// A type that leaves them as they stand can always carry the operation out
/// and has nothing said of the outcome.
pub trait Position: Sized {
    /// The type of the position attribute.
    type Pos;

    /// Whether the position of this value can be computed.
    open spec fn position_req(&self) -> bool {
        true
    }

    /// The position of this value.
    open spec fn position_spec(&self) -> Self::Pos {
        arbitrary()
    }

    /// Whether this value can be moved to `pos`.
    open spec fn set_position_req(&self, pos: Self::Pos) -> bool {
        true
    }

    /// This value, moved to `pos`.
    open spec fn set_position_spec(&self, pos: Self::Pos) -> Self {
        arbitrary()
    }

    /// Whether this value can be moved by `trans`.
    open spec fn translate_req(&self, trans: Self::Pos) -> bool where
        Self::Pos: Add<Output = Self::Pos>,
     {
        true
    }

    /// This value, moved by `trans`.
    open spec fn translate_spec(&self, trans: Self::Pos) -> Self where
        Self::Pos: Add<Output = Self::Pos>,
     {
        arbitrary()
    }

    /// Returns the position of the value.
    fn position(&self) -> (r: Self::Pos)
        requires
            self.position_req(),
        ensures
            r == self.position_spec(),
    ;

    /// Updates the position of the value.
    ///
    /// # Params
    ///
    /// pos --- The new position value.
    fn set_position(&mut self, pos: Self::Pos) -> (r: &mut Self)
        requires
            old(self).set_position_req(pos),
        ensures
            *r == old(self).set_position_spec(pos),
            *final(self) == *final(r),
    ;

    /// Translates the position of the value by the passed translation.
    ///
    /// A type with nothing better to do sets its position to
    /// `position() + trans`.
    ///
    /// # Params
    ///
    /// trans --- The translation to the position.
    fn translate(&mut self, trans: Self::Pos) -> (r: &mut Self) where
        Self::Pos: Add<Output = Self::Pos>,

        requires
            old(self).translate_req(trans),
        ensures
            *r == old(self).translate_spec(trans),
            *final(self) == *final(r),
    ;
}

impl<Num: Copy> Position for Vector<Num> {
    type Pos = Self;

    open spec fn position_req(&self) -> bool {
        true
    }

    open spec fn position_spec(&self) -> Self {
        *self
    }

    open spec fn set_position_req(&self, pos: Self) -> bool {
        true
    }

    open spec fn set_position_spec(&self, pos: Self) -> Self {
        pos
    }

    open spec fn translate_req(&self, trans: Self) -> bool where Self: Add<Output = Self> {
        &&& <Self as AddSpec>::obeys_add_spec()
        &&& self.add_req(trans)
    }

    open spec fn translate_spec(&self, trans: Self) -> Self where Self: Add<Output = Self> {
        self.add_spec(trans)
    }

    /// A Vector is its own position.
    fn position(&self) -> (r: Self) {
        *self
    }

    fn set_position(&mut self, pos: Self) -> (r: &mut Self) {
        *self = pos;
        self
    }

    fn translate(&mut self, trans: Self) -> (r: &mut Self) where Self: Add<Output = Self> {
        let moved = self.position() + trans;
        self.set_position(moved)
    }
}

/// A trait for types with an orientation.
///
/// Each operation comes with two specification functions: `.._req` says on
/// which values the type can carry it out, `.._spec` what it leaves behind.
/// A type that leaves them as they stand can always carry the operation out
/// and has nothing said of the outcome.
pub trait Orientation<Num>: Sized where Num: Sqrt + Trigonometry + Copy {
    /// Whether the direction of this object can be computed.
    open spec fn direction_req(&self) -> bool {
        true
    }

    /// The direction this object is facing.
    open spec fn direction_spec(&self) -> Vector<Num> {
        arbitrary()
    }

    /// Whether this object can be made to face along `dir`.
    open spec fn set_direction_req(&self, dir: Vector<Num>) -> bool {
        true
    }

    /// This object, made to face along `dir`.
    open spec fn set_direction_spec(&self, dir: Vector<Num>) -> Self {
        arbitrary()
    }

    /// Whether this object can be turned by `rotation`.
    open spec fn rotate_req(&self, rotation: Rotation<Num>) -> bool {
        true
    }

    /// This object, turned by `rotation`.
    open spec fn rotate_spec(&self, rotation: Rotation<Num>) -> Self {
        arbitrary()
    }

    /// Gets the direction this object is facing.
    fn direction(&self) -> (r: Vector<Num>)
        requires
            self.direction_req(),
        ensures
            r == self.direction_spec(),
    ;

    /// Sets the direction this object is facing.
    fn set_direction(&mut self, dir: Vector<Num>) -> (r: &mut Self)
        requires
            old(self).set_direction_req(dir),
        ensures
            *r == old(self).set_direction_spec(dir),
            *final(self) == *final(r),
    ;

    /// Rotates the direction this object is facing by the passed
    /// [`Rotation`].
    ///
    /// A type with nothing better to do sets its direction to
    /// `direction().rotate(rotation)`.
    ///
    /// # Params
    ///
    /// rotation --- The rotation to perform.
    fn rotate(&mut self, rotation: &Rotation<Num>) -> (r: &mut Self)
        requires
            old(self).rotate_req(*rotation),
        ensures
            *r == old(self).rotate_spec(*rotation),
            *final(self) == *final(r),
    ;
}

/// Extends [`Orientation`] behaviour.
pub trait OrientationExt<Num>: Orientation<Num> where Num: Sqrt + Trigonometry + Copy {
    /// Returns the [`Unit`] of this object's direction.
    fn orientation(&self) -> (r: Unit<Num>)
        requires
            self.direction_req(),
            self.direction_spec().unit_req(),
        ensures
            r@ == self.direction_spec().unit_spec(),
    ;
}

impl<Num, T> OrientationExt<Num> for T where T: Orientation<Num>, Num: Sqrt + Trigonometry + Copy {
    fn orientation(&self) -> (r: Unit<Num>) {
        self.direction().unit()
    }
}

impl<Num> Orientation<Num> for Vector<Num> where Num: Sqrt + Trigonometry + Copy {
    open spec fn direction_req(&self) -> bool {
        true
    }

    open spec fn direction_spec(&self) -> Vector<Num> {
        *self
    }

    open spec fn set_direction_req(&self, dir: Vector<Num>) -> bool {
        true
    }

    open spec fn set_direction_spec(&self, dir: Vector<Num>) -> Self {
        dir
    }

    open spec fn rotate_req(&self, rotation: Rotation<Num>) -> bool {
        Vector::rotate_req(*self, rotation)
    }

    open spec fn rotate_spec(&self, rotation: Rotation<Num>) -> Self {
        Vector::rotate_spec(*self, rotation)
    }

    /// A Vector is its own direction.
    fn direction(&self) -> (r: Vector<Num>) {
        *self
    }

    fn set_direction(&mut self, dir: Vector<Num>) -> (r: &mut Self) {
        *self = dir;
        self
    }

    fn rotate(&mut self, rotation: &Rotation<Num>) -> (r: &mut Self) {
        let turned = Vector::rotate(&self.direction(), rotation);
        self.set_direction(turned)
    }
}

} // verus!
