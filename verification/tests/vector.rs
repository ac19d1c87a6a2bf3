use std::cmp::Ordering;
use std::ops::{Add, Div, Mul, Neg, Sub};
use vector::{Number, Rotation, Sqrt, Trigonometry, Unit, Vector};

#[derive(Clone, Copy, Debug, Default, PartialEq, PartialOrd)]
struct Real(f32);

impl Add for Real {
    type Output = Real;

    fn add(self, rhs: Real) -> Real {
        Real(self.0 + rhs.0)
    }
}

impl Sub for Real {
    type Output = Real;

    fn sub(self, rhs: Real) -> Real {
        Real(self.0 - rhs.0)
    }
}

impl Mul for Real {
    type Output = Real;

    fn mul(self, rhs: Real) -> Real {
        Real(self.0 * rhs.0)
    }
}

impl Div for Real {
    type Output = Real;

    fn div(self, rhs: Real) -> Real {
        Real(self.0 / rhs.0)
    }
}

impl Neg for Real {
    type Output = Real;

    fn neg(self) -> Real {
        Real(-self.0)
    }
}

impl Number for Real {
    fn from_isize(from: isize) -> Real {
        Real(from as f32)
    }
}

impl Sqrt for Real {
    fn sqrt(self) -> Real {
        Real(self.0.sqrt())
    }
}

impl Trigonometry for Real {
    fn from_usize(from: usize) -> Real {
        Real(from as f32)
    }

    fn sin(self) -> Real {
        Real(self.0.sin())
    }

    fn cos(self) -> Real {
        Real(self.0.cos())
    }

    fn tan(self) -> Real {
        Real(self.0.tan())
    }

    fn asin(self) -> Real {
        Real(self.0.asin())
    }

    fn acos(self) -> Real {
        Real(self.0.acos())
    }

    fn atan(self) -> Real {
        Real(self.0.atan())
    }
}

fn reals(x: f32, y: f32, z: f32) -> Vector<Real> {
    (Real(x), Real(y), Real(z)).into()
}

#[test]
fn lib_test_vector() {
    let vec = Vector::new(1, 2, 3);
    let vec2 = vec * 2;

    assert_eq!(vec + vec, Vector::new(2, 4, 6), "Addition failed");
    assert_eq!(vec2 - vec, vec, "Subtraction failed");
    assert_eq!(vec + vec, vec2, "Multiplication failed");
    assert_eq!(vec, vec2 / 2, "Division failed");
    assert_eq!(vec * vec, 14, "Dot product failed");
}

#[test]
fn vector_test_vector() {
    let vec = Vector::new(1, 2, 3);
    let vec2 = vec * 2;

    assert_eq!(vec + vec, Vector::new(2, 4, 6), "Addition failed");
    assert_eq!(vec2 - vec, vec, "Subtraction failed");
    assert_eq!(vec + vec, vec2, "Multiplication failed");
    assert_eq!(vec, vec2 / 2, "Division failed");
    assert_eq!(vec * vec, 14, "Dot product failed");
    assert_eq!(vec * vec, Vector::dot(vec, vec), "Dot product function failed");

    let x = reals(1.0, 0.0, 0.0);
    let y = reals(0.0, 1.0, 0.0);
    let z = reals(0.0, 0.0, 1.0);

    assert_eq!(Vector::cross(x, y), z, "Cross product failed 1");
    assert_eq!(Vector::cross(y, z), x, "Cross product failed 2");
    assert_eq!(Vector::cross(x, z), -y, "Cross product failed 3");

    const PI2: f32 = std::f32::consts::FRAC_PI_2;
    const EPSILON: f32 = std::f32::EPSILON;

    let rot = Rotation::new(z.unit(), Real(PI2));
    let vec = x.rotate(&rot);
    let diff = 1.0 - vec.y.0;
    assert!(0.0 < diff && diff < EPSILON, "Rotate failed 1: {:?}", vec);

    let rot = Rotation::new(x.unit(), Real(PI2));
    let vec = y.rotate(&rot);
    let diff = 1.0 - vec.z.0;
    assert!(0.0 < diff && diff < EPSILON, "Rotate failed 2: {:?}", vec);

    let rot = Rotation::new(y.unit(), Real(PI2));
    let vec = z.rotate(&rot);
    let diff = 1.0 - vec.x.0;
    assert!(0.0 < diff && diff < EPSILON, "Rotate failed 3: {:?}", vec);
}

#[test]
fn vector_new_and_from_agree() {
    let v = Vector::new(7, -8, 9);
    assert_eq!((v.x, v.y, v.z), (7, -8, 9));
    let w: Vector<i32> = (7, -8, 9).into();
    assert_eq!(v, w);
    assert_ne!(v, Vector::new(7, -8, 10));
    assert_ne!(v, Vector::new(7, 8, 9));
    assert_ne!(v, Vector::new(-7, -8, 9));
}

#[test]
fn vector_origin_is_zero() {
    assert_eq!(Vector::<i32>::origin(), Vector::new(0, 0, 0));
    assert_eq!(Vector::<i64>::origin(), Vector::new(0, 0, 0));
    assert_eq!(Vector::<Real>::origin(), reals(0.0, 0.0, 0.0));
}

#[test]
fn vector_componentwise_arithmetic() {
    let a = Vector::new(1, -2, 3);
    let b = Vector::new(10, 20, -30);
    assert_eq!(a + b, Vector::new(11, 18, -27));
    assert_eq!(a - b, Vector::new(-9, -22, 33));
    assert_eq!(-a, Vector::new(-1, 2, -3));
    assert_eq!(b * 3, Vector::new(30, 60, -90));
    assert_eq!(b / 4, Vector::new(2, 5, -7));
    assert_eq!(b / -4, Vector::new(-2, -5, 7));
}

#[test]
fn vector_assigning_operators() {
    let mut v = Vector::new(1, 2, 3);
    v += Vector::new(10, 20, 30);
    assert_eq!(v, Vector::new(11, 22, 33));
    v -= Vector::new(1, 1, 1);
    assert_eq!(v, Vector::new(10, 21, 32));
    v *= -2;
    assert_eq!(v, Vector::new(-20, -42, -64));
    v /= 4;
    assert_eq!(v, Vector::new(-5, -10, -16));
}

#[test]
fn vector_dot_product() {
    let a = Vector::new(1, 2, 3);
    let b = Vector::new(4, -5, 6);
    assert_eq!(Vector::dot(a, b), 12);
    assert_eq!(a * b, 12);
    assert_eq!(Vector::dot(a, b), Vector::dot(b, a));
    assert_eq!(Vector::dot(a, Vector::new(0, 0, 0)), 0);
    let p = reals(0.5, 2.0, -4.0);
    let q = reals(8.0, 0.25, 1.0);
    assert_eq!(Vector::dot(p, q), Real(0.5));
    assert_eq!(Vector::dot(p, q), Vector::dot(q, p));
}

#[test]
fn vector_cross_product_of_basis() {
    let x = Vector::new(1, 0, 0);
    let y = Vector::new(0, 1, 0);
    let z = Vector::new(0, 0, 1);
    assert_eq!(Vector::cross(x, y), z);
    assert_eq!(Vector::cross(y, z), x);
    assert_eq!(Vector::cross(z, x), y);
    assert_eq!(Vector::cross(y, x), -z);
    assert_eq!(Vector::cross(z, y), -x);
    assert_eq!(Vector::cross(x, z), -y);

    let x = reals(1.0, 0.0, 0.0);
    let y = reals(0.0, 1.0, 0.0);
    let z = reals(0.0, 0.0, 1.0);
    assert_eq!(Vector::cross(x, y), z);
    assert_eq!(Vector::cross(y, z), x);
    assert_eq!(Vector::cross(z, x), y);
}

#[test]
fn vector_cross_product_laws() {
    let a = Vector::new(1, 2, 3);
    let b = Vector::new(4, 5, 6);
    let c = Vector::new(-7, 8, 2);
    assert_eq!(Vector::cross(a, b), Vector::new(-3, 6, -3));
    assert_eq!(Vector::cross(a, c), Vector::new(-20, -23, 22));
    for (p, q) in [(a, b), (b, c), (a, c)] {
        assert_eq!(Vector::cross(p, q), -Vector::cross(q, p));
        assert_eq!(Vector::dot(Vector::cross(p, q), p), 0);
        assert_eq!(Vector::dot(Vector::cross(p, q), q), 0);
    }
    for p in [a, b, c] {
        assert_eq!(Vector::cross(p, p), Vector::new(0, 0, 0));
        assert_eq!(Vector::cross(p, p * 3), Vector::new(0, 0, 0));
        assert_eq!(Vector::cross(p, Vector::new(0, 0, 0)), Vector::new(0, 0, 0));
    }
}

#[test]
fn vector_magnitude_squared_is_the_dot_product() {
    assert_eq!(reals(3.0, 4.0, 0.0).magnituid(), Real(5.0));
    assert_eq!(reals(2.0, 3.0, 6.0).magnituid(), Real(7.0));
    for v in [reals(1.0, 1.0, 1.0), reals(0.1, -0.2, 0.3), reals(12.5, 7.25, -100.0)] {
        let mag = v.magnituid().0;
        let dot = Vector::dot(v, v).0;
        assert!((mag * mag - dot).abs() <= dot * 1e-6);
    }
}

#[test]
fn vector_unit_has_length_one() {
    let u = reals(3.0, 4.0, 0.0).unit();
    assert_eq!(u.vector(), reals(0.6, 0.8, 0.0));
    assert_eq!(u, reals(0.6, 0.8, 0.0));
    let back: Vector<Real> = u.into();
    assert_eq!(back, reals(0.6, 0.8, 0.0));
    for v in [reals(1.0, 1.0, 1.0), reals(0.1, -0.2, 0.3), reals(12.5, 7.25, -100.0)] {
        let mag = v.unit().vector().magnituid().0;
        assert!((mag - 1.0).abs() < 1e-6);
    }
}

#[test]
fn vector_unit_of_unit_on_the_axes() {
    for v in [reals(2.0, 0.0, 0.0), reals(0.0, -3.0, 0.0), reals(0.0, 0.0, 0.5)] {
        let once = v.unit().vector();
        let twice = once.unit().vector();
        assert_eq!(twice, once);
    }
    let v = reals(3.0, 4.0, 12.0);
    let once = v.unit().vector();
    let twice = once.unit().vector();
    assert!((twice.x.0 - once.x.0).abs() < 1e-6);
    assert!((twice.y.0 - once.y.0).abs() < 1e-6);
    assert!((twice.z.0 - once.z.0).abs() < 1e-6);
}

#[test]
fn vector_unit_of_zero_is_not_a_number() {
    let u = reals(0.0, 0.0, 0.0).unit().vector();
    assert!(u.x.0.is_nan() && u.y.0.is_nan() && u.z.0.is_nan());
}

#[test]
fn vector_units_compare_by_their_vectors() {
    let u: Unit<Real> = reals(0.0, 2.0, 0.0).unit();
    let v: Unit<Real> = reals(0.0, 5.0, 0.0).unit();
    let w: Unit<Real> = reals(1.0, 0.0, 0.0).unit();
    assert!(u == v);
    assert!(u != w);
    assert!(u == reals(0.0, 1.0, 0.0));
    assert!(u != reals(0.0, 2.0, 0.0));
}

#[test]
fn vector_order_needs_all_coordinates_to_agree() {
    let a = Vector::new(1, 2, 3);
    assert_eq!(a.partial_cmp(&Vector::new(2, 3, 4)), Some(Ordering::Less));
    assert_eq!(a.partial_cmp(&Vector::new(0, 1, 2)), Some(Ordering::Greater));
    assert_eq!(a.partial_cmp(&Vector::new(1, 2, 3)), Some(Ordering::Equal));
    assert_eq!(a.partial_cmp(&Vector::new(2, 3, 3)), None);
    assert_eq!(a.partial_cmp(&Vector::new(2, 1, 4)), None);
    assert_eq!(a.partial_cmp(&Vector::new(1, 2, 4)), None);
    assert_eq!(a.partial_cmp(&Vector::new(0, 2, 3)), None);
    assert!(a < Vector::new(2, 3, 4));
    assert!(!(a < Vector::new(2, 3, 3)));
    assert!(!(a > Vector::new(2, 3, 3)));

    let r = reals(1.0, 2.0, 3.0);
    assert_eq!(r.partial_cmp(&reals(2.0, 3.0, 4.0)), Some(Ordering::Less));
    assert_eq!(r.partial_cmp(&reals(f32::NAN, 3.0, 4.0)), None);
    assert_eq!(r.partial_cmp(&reals(2.0, f32::NAN, 4.0)), None);
    assert_eq!(r.partial_cmp(&reals(2.0, 3.0, f32::NAN)), None);
}

#[test]
fn vector_conjugation_by_whole_quaternions() {
    let x = Vector::new(1, 0, 0);
    let y = Vector::new(0, 1, 0);
    let z = Vector::new(0, 0, 1);
    assert_eq!(x.conjugate_by(0, z), -x);
    assert_eq!(y.conjugate_by(0, z), -y);
    assert_eq!(z.conjugate_by(0, z), z);
    assert_eq!(x.conjugate_by(1, Vector::new(0, 0, 0)), x);
    assert_eq!(x.conjugate_by(1, z), y * 2);
    assert_eq!(y.conjugate_by(1, x), z * 2);
    assert_eq!(z.conjugate_by(1, y), x * 2);
    let v = Vector::new(1, 2, 3);
    assert_eq!(v.conjugate_by(2, Vector::new(1, -1, 3)), Vector::new(-27, -30, 39));
    assert_eq!(v.conjugate_by(0, Vector::new(0, 1, 0)), Vector::new(-1, 2, -3));
}

#[test]
fn number_from_isize_on_the_integers() {
    assert_eq!(<isize as Number>::from_isize(-5), -5);
    assert_eq!(<i8 as Number>::from_isize(3), 3);
    assert_eq!(<i8 as Number>::from_isize(300), 44);
    assert_eq!(<i8 as Number>::from_isize(-129), 127);
    assert_eq!(<i16 as Number>::from_isize(-3), -3);
    assert_eq!(<i16 as Number>::from_isize(65537), 1);
    assert_eq!(<i32 as Number>::from_isize(3), 3);
    assert_eq!(<i64 as Number>::from_isize(isize::MIN), isize::MIN as i64);
    assert_eq!(<i128 as Number>::from_isize(isize::MAX), isize::MAX as i128);
}
