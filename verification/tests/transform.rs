use std::ops::{Add, Div, Mul, Neg, Sub};
use vector::{
    Line, Number, Orientation, OrientationExt, Position, Rotation, Sqrt, Triangle, Trigonometry,
    Vector,
};

#[derive(Clone, Copy, Debug, Default, PartialEq, PartialOrd)]
struct Real(f64);

impl Add for Real {
    type Output = Real;

    fn add(self, rhs: Real) -> Real {
        Real(self.0 + rhs.0)
    }
}

impl Sub for Real {
    type Output = Real;

    fn sub(self, rhs: Real) -> Real {
        Real(self.0 - rhs.0)
    }
}

impl Mul for Real {
    type Output = Real;

    fn mul(self, rhs: Real) -> Real {
        Real(self.0 * rhs.0)
    }
}

impl Div for Real {
    type Output = Real;

    fn div(self, rhs: Real) -> Real {
        Real(self.0 / rhs.0)
    }
}

impl Neg for Real {
    type Output = Real;

    fn neg(self) -> Real {
        Real(-self.0)
    }
}

impl Number for Real {
    fn from_isize(from: isize) -> Real {
        Real(from as f64)
    }
}

impl Sqrt for Real {
    fn sqrt(self) -> Real {
        Real(self.0.sqrt())
    }
}

impl Trigonometry for Real {
    fn from_usize(from: usize) -> Real {
        Real(from as f64)
    }

    fn sin(self) -> Real {
        Real(self.0.sin())
    }

    fn cos(self) -> Real {
        Real(self.0.cos())
    }

    fn tan(self) -> Real {
        Real(self.0.tan())
    }

    fn asin(self) -> Real {
        Real(self.0.asin())
    }

    fn acos(self) -> Real {
        Real(self.0.acos())
    }

    fn atan(self) -> Real {
        Real(self.0.atan())
    }
}

fn reals(x: f64, y: f64, z: f64) -> Vector<Real> {
    (Real(x), Real(y), Real(z)).into()
}

fn close(a: Vector<Real>, b: Vector<Real>) -> bool {
    (a.x.0 - b.x.0).abs() < 1e-9 && (a.y.0 - b.y.0).abs() < 1e-9 && (a.z.0 - b.z.0).abs() < 1e-9
}

const PI2: f64 = std::f64::consts::FRAC_PI_2;

#[test]
fn test_position() {
    let vec1 = Vector::new(1, 2, 3);
    let vec2 = Vector::new(-3, -2, -1);

    assert_eq!(vec1.position(), vec1, "position failed");
    assert_eq!(*vec1.clone().translate(vec2), (-2, 0, 2).into(), "translate failed");
    assert_eq!(*vec1.clone().set_position(vec2), vec2, "set_position failed");
}

#[test]
fn test_orientaion() {
    let vec1 = reals(1.0, 2.0, 3.0);
    let vec2 = reals(-3.0, -2.0, -1.0);

    assert_eq!(vec1.direction(), vec1, "direction failed");
    assert_eq!(*vec1.clone().set_direction(vec2), vec2, "set_direction failed");
    assert_eq!(vec1.clone().orientation(), vec1 / vec1.magnituid(), "orientation failed");
}

#[test]
fn vector_turns_as_its_own_direction() {
    let mut v = reals(1.0, 0.0, 0.0);
    let rot = Rotation::new(reals(0.0, 0.0, 1.0).unit(), Real(PI2));
    Orientation::rotate(&mut v, &rot);
    assert!(close(v, reals(0.0, 1.0, 0.0)));
}

#[test]
fn line_moves_its_origin_only() {
    let mut line = Line { location: Vector::new(1, 2, 3), direction: Vector::new(0, 0, 1) };
    assert_eq!(line.position(), Vector::new(1, 2, 3));
    line.translate(Vector::new(10, 20, 30));
    assert_eq!(line.location, Vector::new(11, 22, 33));
    assert_eq!(line.direction, Vector::new(0, 0, 1));
    line.set_position(Vector::new(-1, -1, -1)).translate(Vector::new(1, 0, 0));
    assert_eq!(line.location, Vector::new(0, -1, -1));
    assert_eq!(line.direction, Vector::new(0, 0, 1));
}

#[test]
fn line_turns_its_direction_only() {
    let mut line = Line { location: reals(1.0, 2.0, 3.0), direction: reals(1.0, 0.0, 0.0) };
    assert_eq!(line.direction(), reals(1.0, 0.0, 0.0));
    let rot = Rotation::new(reals(0.0, 0.0, 1.0).unit(), Real(PI2));
    line.rotate(&rot);
    assert!(close(line.direction, reals(0.0, 1.0, 0.0)));
    assert_eq!(line.location, reals(1.0, 2.0, 3.0));
    line.set_direction(reals(0.0, 0.0, 4.0));
    assert_eq!(line.direction, reals(0.0, 0.0, 4.0));
    assert_eq!(line.orientation(), reals(0.0, 0.0, 1.0));
    assert_eq!(line.location, reals(1.0, 2.0, 3.0));
}

#[test]
fn triangle_is_at_its_centroid() {
    let triangle = Triangle {
        p1: Vector::new(0, 0, 0),
        p2: Vector::new(3, 0, 0),
        p3: Vector::new(0, 6, 9),
    };
    assert_eq!(triangle.position(), Vector::new(1, 2, 3));
    let triangle = Triangle {
        p1: Vector::new(1, 1, 1),
        p2: Vector::new(2, 1, -1),
        p3: Vector::new(2, 0, -5),
    };
    assert_eq!(triangle.position(), Vector::new(1, 0, -1));
}

#[test]
fn triangle_moves_all_its_points() {
    let mut triangle = Triangle {
        p1: Vector::new(0, 0, 0),
        p2: Vector::new(3, 0, 0),
        p3: Vector::new(0, 6, 9),
    };
    triangle.translate(Vector::new(1, -1, 2));
    assert_eq!(triangle.p1, Vector::new(1, -1, 2));
    assert_eq!(triangle.p2, Vector::new(4, -1, 2));
    assert_eq!(triangle.p3, Vector::new(1, 5, 11));
    assert_eq!(triangle.position(), Vector::new(2, 1, 5));

    triangle.set_position(Vector::new(0, 0, 0));
    assert_eq!(triangle.p1, Vector::new(-1, -2, -3));
    assert_eq!(triangle.p2, Vector::new(2, -2, -3));
    assert_eq!(triangle.p3, Vector::new(-1, 4, 6));
    assert_eq!(triangle.position(), Vector::new(0, 0, 0));
}

#[test]
fn triangle_faces_along_its_normal() {
    let triangle = Triangle {
        p1: Vector::new(1, 1, 1),
        p2: Vector::new(3, 1, 1),
        p3: Vector::new(1, 4, 1),
    };
    assert_eq!(Orientation::<Real>::direction(&Triangle {
        p1: reals(1.0, 1.0, 1.0),
        p2: reals(3.0, 1.0, 1.0),
        p3: reals(1.0, 4.0, 1.0),
    }), reals(0.0, 0.0, 6.0));
    assert_eq!(Vector::cross(triangle.p2 - triangle.p1, triangle.p3 - triangle.p1), Vector::new(0, 0, 6));
}

#[test]
fn triangle_turns_all_its_points() {
    let mut triangle = Triangle {
        p1: reals(1.0, 0.0, 0.0),
        p2: reals(0.0, 1.0, 0.0),
        p3: reals(0.0, 0.0, 1.0),
    };
    let rot = Rotation::new(reals(0.0, 0.0, 1.0).unit(), Real(PI2));
    triangle.rotate(&rot);
    assert!(close(triangle.p1, reals(0.0, 1.0, 0.0)));
    assert!(close(triangle.p2, reals(-1.0, 0.0, 0.0)));
    assert!(close(triangle.p3, reals(0.0, 0.0, 1.0)));
}

#[test]
fn triangle_set_direction_turns_the_normal() {
    let mut triangle = Triangle {
        p1: reals(0.0, 0.0, 0.0),
        p2: reals(1.0, 0.0, 0.0),
        p3: reals(0.0, 1.0, 0.0),
    };
    assert_eq!(triangle.direction(), reals(0.0, 0.0, 1.0));
    triangle.set_direction(reals(2.0, 0.0, 0.0));
    assert!(close(triangle.direction(), reals(1.0, 0.0, 0.0)));
    assert!(close(triangle.orientation().vector(), reals(1.0, 0.0, 0.0)));
    assert!(close(triangle.p1, reals(0.0, 0.0, 0.0)));
    assert!(close(triangle.p2, reals(0.0, 0.0, -1.0)));
    assert!(close(triangle.p3, reals(0.0, 1.0, 0.0)));
}
