//! Numeric primitives for 3D geometry: scalar capabilities, fixed-point
//! numbers, vectors, rotations, and the shapes built on them.

pub mod error;
pub mod fixed32;
pub mod fixed64;
pub mod line;
pub mod number;
pub mod rotation;
pub mod scaled;
pub mod transform;
pub mod triangle;
pub mod vector;

pub use crate::error::ArithmeticError;
pub use crate::fixed32::Fixed32;
pub use crate::fixed64::Fixed64;
pub use crate::line::Line;
pub use crate::number::{ArithmeticLaws, Number, Sqrt, Trigonometry};
pub use crate::rotation::Rotation;
pub use crate::transform::{Orientation, OrientationExt, Position};
pub use crate::triangle::Triangle;
pub use crate::vector::{Unit, Vector};
