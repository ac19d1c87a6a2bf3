use typenum::{Unsigned, U16};
use vector::{ArithmeticError, Fixed32, Number, Sqrt, Vector};

type Fixed = Fixed32<{ U16::U32 }>;

const SCALE: f32 = 65536.0;

fn from_f32(from: f32) -> Fixed {
    Fixed::from_raw((from * SCALE).round() as i32)
}

fn to_f32(from: Fixed) -> f32 {
    from.to_raw() as f32 / SCALE
}

#[test]
fn test_fixed32() {
    assert_eq!(10, Fixed32::<{ U16::U32 }>::from(10).to_i32(), "Convertion i32 failed");
    assert!((10.8 - to_f32(from_f32(10.8))).powi(2) < 0.000001, "Convertion f32 failed");

    let num = Fixed32::<{ U16::U32 }>::from(1) + Fixed32::<{ U16::U32 }>::from(2);
    assert_eq!(num, Fixed32::<{ U16::U32 }>::from(3), "Addition failed");

    let num = Fixed32::<{ U16::U32 }>::from(1) - Fixed32::<{ U16::U32 }>::from(2);
    assert_eq!(num, Fixed32::<{ U16::U32 }>::from(-1), "Subtraction failed");

    let num = Fixed32::<{ U16::U32 }>::from(2) * Fixed32::<{ U16::U32 }>::from(3);
    assert_eq!(num, Fixed32::<{ U16::U32 }>::from(6), "Multiplication failed");

    let num = Fixed32::<{ U16::U32 }>::from(2) * 3;
    assert_eq!(num, Fixed32::<{ U16::U32 }>::from(6), "Multiplication i32 failed");

    let num = Fixed32::<{ U16::U32 }>::from(1) / Fixed32::<{ U16::U32 }>::from(2);
    assert_eq!(to_f32(num), 0.5, "Division failed");

    let num = Fixed32::<{ U16::U32 }>::from(1) / 2;
    assert_eq!(to_f32(num), 0.5, "Division i32 failed");
}

#[test]
fn fixed32_stores_the_scaled_integer() {
    assert_eq!(Fixed::from(1).to_raw(), 65536);
    assert_eq!(Fixed::from(-3).to_raw(), -196608);
    assert_eq!(Fixed::from(0).to_raw(), 0);
    assert_eq!(Fixed::from_raw(98304).to_raw(), 98304);
    assert_eq!(Fixed32::<0>::from(7).to_raw(), 7);
    assert_eq!(Fixed32::<30>::from(1).to_raw(), 1 << 30);
}

#[test]
fn fixed32_round_trip_of_integers() {
    for n in [-32768, -1000, -1, 0, 1, 2, 999, 32767] {
        assert_eq!(Fixed::from(n).to_i32(), n);
        let back: i32 = Fixed::from(n).into();
        assert_eq!(back, n);
    }
    assert_eq!(Fixed32::<30>::from(1).to_i32(), 1);
    assert_eq!(Fixed32::<30>::from(-2).to_i32(), -2);
    assert_eq!(Fixed32::<0>::from(i32::MAX).to_i32(), i32::MAX);
    assert_eq!(Fixed32::<0>::from(i32::MIN).to_i32(), i32::MIN);
}

#[test]
fn fixed32_from_wraps_out_of_range() {
    assert_eq!(Fixed::from(32768).to_raw(), i32::MIN);
    assert_eq!(Fixed::from(65536).to_raw(), 0);
    assert_eq!(Fixed::from(65537).to_raw(), 65536);
    assert_eq!(Fixed::from(-32769).to_raw(), 2147418112);
    assert_eq!(Fixed32::<31>::from(1).to_raw(), i32::MIN);
    assert_eq!(Fixed32::<31>::from(2).to_raw(), 0);
    assert_eq!(Fixed32::<31>::from(-3).to_raw(), i32::MIN);
    assert_eq!(Fixed32::<32>::from(5).to_raw(), 0);
    assert_eq!(Fixed32::<40>::from(-5).to_raw(), 0);
}

#[test]
fn fixed32_integer_part_rounds_toward_zero() {
    assert_eq!(Fixed::from_raw(98304).to_i32(), 1);
    assert_eq!(Fixed::from_raw(-98304).to_i32(), -1);
    assert_eq!(Fixed::from_raw(65535).to_i32(), 0);
    assert_eq!(Fixed::from_raw(-65535).to_i32(), 0);
    assert_eq!(Fixed::from_raw(-65536).to_i32(), -1);
    assert_eq!(Fixed::from_raw(i32::MAX).to_i32(), 32767);
    assert_eq!(Fixed::from_raw(i32::MIN).to_i32(), -32768);
    assert_eq!(Fixed32::<31>::from_raw(i32::MIN).to_i32(), -1);
    assert_eq!(Fixed32::<31>::from_raw(i32::MAX).to_i32(), 0);
    assert_eq!(Fixed32::<32>::from_raw(i32::MIN).to_i32(), 0);
    assert_eq!(Fixed32::<100>::from_raw(i32::MAX).to_i32(), 0);
}

#[test]
fn fixed32_arithmetic_on_fractions() {
    let a = Fixed::from_raw(98304);
    let b = Fixed::from_raw(147456);
    assert_eq!((a + b).to_raw(), 245760);
    assert_eq!((a - b).to_raw(), -49152);
    assert_eq!((-a).to_raw(), -98304);
    assert_eq!((a * b).to_raw(), 221184);
    assert_eq!((b / a).to_raw(), 98304);
    assert_eq!((a * -3).to_raw(), -294912);
    assert_eq!((a / 4).to_raw(), 24576);
    assert_eq!((a / -4).to_raw(), -24576);
}

#[test]
fn fixed32_products_and_quotients_round_toward_zero() {
    let third = Fixed::from(1) / Fixed::from(3);
    assert_eq!(third.to_raw(), 21845);
    let minus_third = Fixed::from(-1) / Fixed::from(3);
    assert_eq!(minus_third.to_raw(), -21845);
    assert_eq!((Fixed::from(1) / Fixed::from(-3)).to_raw(), -21845);
    assert_eq!((Fixed::from(-1) / Fixed::from(-3)).to_raw(), 21845);
    assert_eq!((third * third).to_raw(), 7281);
    assert_eq!((minus_third * third).to_raw(), -7281);
    assert_eq!((Fixed::from_raw(1) * Fixed::from_raw(1)).to_raw(), 0);
    assert_eq!((Fixed::from_raw(-1) * Fixed::from_raw(1)).to_raw(), 0);
    assert_eq!((Fixed::from_raw(-7) / 2).to_raw(), -3);
}

#[test]
fn fixed32_assigning_operators() {
    let mut num = Fixed::from(5);
    num += Fixed::from(2);
    assert_eq!(num, Fixed::from(7));
    num -= Fixed::from(10);
    assert_eq!(num, Fixed::from(-3));
    num *= Fixed::from(4);
    assert_eq!(num, Fixed::from(-12));
    num /= Fixed::from(8);
    assert_eq!(num.to_raw(), -98304);
    num *= 2;
    assert_eq!(num, Fixed::from(-3));
    num /= 3;
    assert_eq!(num, Fixed::from(-1));
}

#[test]
fn fixed32_checked_mul_reports_overflow() {
    let max = Fixed::from_raw(i32::MAX);
    let min = Fixed::from_raw(i32::MIN);
    assert_eq!(max.checked_mul(max), Err(ArithmeticError::Overflow));
    assert_eq!(min.checked_mul(min), Err(ArithmeticError::Overflow));
    assert_eq!(max.checked_mul(min), Err(ArithmeticError::Overflow));
    assert_eq!(Fixed::from(200).checked_mul(Fixed::from(200)), Err(ArithmeticError::Overflow));
    assert_eq!(Fixed::from(181).checked_mul(Fixed::from(181)), Ok(Fixed::from(32761)));
    assert_eq!(Fixed::from(-128).checked_mul(Fixed::from(256)), Ok(Fixed::from_raw(i32::MIN)));
    assert_eq!(Fixed::from(128).checked_mul(Fixed::from(256)), Err(ArithmeticError::Overflow));
    assert_eq!(Fixed::from(2).checked_mul(Fixed::from(3)), Ok(Fixed::from(6)));
}

#[test]
fn fixed32_largest_product_by_shift() {
    let max30 = Fixed32::<30>::from_raw(i32::MAX);
    assert_eq!(max30.checked_mul(max30), Err(ArithmeticError::Overflow));
    let max0 = Fixed32::<0>::from_raw(i32::MAX);
    assert_eq!(max0.checked_mul(max0), Err(ArithmeticError::Overflow));
    let max31 = Fixed32::<31>::from_raw(i32::MAX);
    assert_eq!(max31.checked_mul(max31), Ok(Fixed32::<31>::from_raw(i32::MAX - 1)));
    let min31 = Fixed32::<31>::from_raw(i32::MIN);
    assert_eq!(min31.checked_mul(min31), Err(ArithmeticError::Overflow));
    let min32 = Fixed32::<32>::from_raw(i32::MIN);
    assert_eq!(min32.checked_mul(min32), Ok(Fixed32::<32>::from_raw(1 << 30)));
    let max200 = Fixed32::<200>::from_raw(i32::MAX);
    assert_eq!(max200.checked_mul(max200), Ok(Fixed32::<200>::from_raw(0)));
}

#[test]
fn fixed32_checked_div_reports_zero_and_overflow() {
    let zero = Fixed::from(0);
    assert_eq!(Fixed::from(1).checked_div(zero), Err(ArithmeticError::DivisionByZero));
    assert_eq!(zero.checked_div(zero), Err(ArithmeticError::DivisionByZero));
    assert_eq!(Fixed::from(1000).checked_div(Fixed::from_raw(1)), Err(ArithmeticError::Overflow));
    assert_eq!(
        Fixed::from_raw(i32::MIN).checked_div(Fixed::from(-1)),
        Err(ArithmeticError::Overflow)
    );
    assert_eq!(Fixed::from_raw(i32::MIN).checked_div(Fixed::from(1)), Ok(Fixed::from_raw(i32::MIN)));
    assert_eq!(Fixed::from(1).checked_div(Fixed::from(2)), Ok(Fixed::from_raw(32768)));
    assert_eq!(zero.checked_div(Fixed::from(5)), Ok(zero));
    assert_eq!(Fixed::from_raw(1).checked_div(Fixed::from_raw(i32::MIN)), Ok(zero));
}

#[test]
fn fixed32_checked_div_at_large_shifts() {
    let one = Fixed32::<40>::from_raw(1);
    assert_eq!(one.checked_div(Fixed32::<40>::from_raw(1 << 20)), Ok(Fixed32::<40>::from_raw(1 << 20)));
    assert_eq!(one.checked_div(Fixed32::<40>::from_raw(1 << 9)), Err(ArithmeticError::Overflow));
    assert_eq!(one.checked_div(Fixed32::<40>::from_raw(-(1 << 9))), Ok(Fixed32::<40>::from_raw(i32::MIN)));
    assert_eq!(one.checked_div(one), Err(ArithmeticError::Overflow));
    assert_eq!(
        Fixed32::<62>::from_raw(1).checked_div(Fixed32::<62>::from_raw(i32::MIN)),
        Ok(Fixed32::<62>::from_raw(i32::MIN))
    );
    assert_eq!(
        Fixed32::<63>::from_raw(1).checked_div(Fixed32::<63>::from_raw(i32::MIN)),
        Err(ArithmeticError::Overflow)
    );
    assert_eq!(
        Fixed32::<127>::from_raw(1).checked_div(Fixed32::<127>::from_raw(i32::MIN)),
        Err(ArithmeticError::Overflow)
    );
    let tiny = Fixed32::<31>::from_raw(1);
    assert_eq!(
        tiny.checked_div(Fixed32::<31>::from_raw(4)),
        Ok(Fixed32::<31>::from_raw(1 << 29))
    );
    assert_eq!(
        Fixed32::<200>::from_raw(7).checked_div(Fixed32::<200>::from_raw(3)),
        Err(ArithmeticError::Overflow)
    );
    assert_eq!(
        Fixed32::<200>::from_raw(0).checked_div(Fixed32::<200>::from_raw(3)),
        Ok(Fixed32::<200>::from_raw(0))
    );
}

#[test]
fn fixed32_equality_and_order_follow_the_stored_integer() {
    assert!(Fixed::from(1) < Fixed::from(2));
    assert!(Fixed::from(-1) < Fixed::from_raw(-1));
    assert!(Fixed::from_raw(1) > Fixed::from(0));
    assert!(Fixed::from(3) >= Fixed::from(3));
    assert!(Fixed::from(3) == Fixed::from_raw(196608));
    assert!(Fixed::from(3) != Fixed::from_raw(196609));
    assert_eq!(Fixed::from(1).partial_cmp(&Fixed::from(2)), Some(std::cmp::Ordering::Less));
    assert_eq!(Fixed::from(2).partial_cmp(&Fixed::from(2)), Some(std::cmp::Ordering::Equal));
    assert_eq!(Fixed::from(3).cmp(&Fixed::from(2)), std::cmp::Ordering::Greater);
    assert_eq!(Fixed::from(9).max(Fixed::from(4)), Fixed::from(9));
}

#[test]
fn fixed32_default_is_zero() {
    assert_eq!(Fixed::default(), Fixed::from(0));
    assert_eq!(Vector::<Fixed>::origin(), Vector::new(Fixed::from(0), Fixed::from(0), Fixed::from(0)));
}

#[test]
fn fixed32_from_isize_takes_the_low_bits() {
    assert_eq!(<Fixed as Number>::from_isize(3), Fixed::from(3));
    assert_eq!(<Fixed as Number>::from_isize(-2), Fixed::from(-2));
    assert_eq!(<Fixed as Number>::from_isize(0), Fixed::from(0));
}

#[test]
fn fixed32_square_root_is_the_nearest() {
    assert_eq!(Fixed::from(4).sqrt(), Fixed::from(2));
    assert_eq!(Fixed::from(0).sqrt(), Fixed::from(0));
    assert_eq!(Fixed::from(1).sqrt(), Fixed::from(1));
    assert_eq!(Fixed::from(2).sqrt().to_raw(), 92682);
    assert_eq!(Fixed::from(3).sqrt().to_raw(), 113512);
    assert_eq!(Fixed::from_raw(16384).sqrt().to_raw(), 32768);
    assert_eq!(Fixed::from_raw(1).sqrt().to_raw(), 256);
    assert_eq!(Fixed::from_raw(i32::MAX).sqrt().to_raw(), 11863283);
    assert_eq!(Fixed32::<0>::from(2).sqrt().to_raw(), 1);
    assert_eq!(Fixed32::<0>::from(3).sqrt().to_raw(), 2);
    assert_eq!(Fixed32::<0>::from(6).sqrt().to_raw(), 2);
    assert_eq!(Fixed32::<0>::from(7).sqrt().to_raw(), 3);
    assert_eq!(Fixed32::<31>::from_raw(i32::MAX).sqrt().to_raw(), i32::MAX);
}

#[test]
fn fixed32_root_squared_is_near_the_number() {
    for raw in [1, 2, 3, 1000, 65536, 98304, 123456789, i32::MAX] {
        let root = Fixed::from_raw(raw).sqrt().to_raw() as i64;
        let exact = raw as i64 * 65536;
        assert!((root * root - exact).abs() <= root);
    }
}

#[test]
fn fixed32_magnitude_and_unit() {
    let v = Vector::new(Fixed::from(3), Fixed::from(4), Fixed::from(0));
    assert_eq!(v.magnituid(), Fixed::from(5));
    let u = v.unit().vector();
    assert_eq!(u, Vector::new(Fixed::from_raw(39321), Fixed::from_raw(52428), Fixed::from(0)));

    let w = Vector::new(Fixed::from(1), Fixed::from(1), Fixed::from(1));
    let dot = Vector::dot(w, w);
    let mag = w.magnituid();
    assert_eq!(dot, Fixed::from(3));
    assert!(((mag * mag).to_raw() - dot.to_raw()).abs() <= 4);
}

#[test]
fn fixed32_unit_of_a_vector_of_length_one() {
    let x = Vector::new(Fixed::from(1), Fixed::from(0), Fixed::from(0));
    assert_eq!(x.magnituid(), Fixed::from(1));
    assert_eq!(x.unit().vector(), x);

    let v = Vector::new(Fixed::from(0), Fixed::from(-7), Fixed::from(0));
    let u = v.unit().vector();
    assert_eq!(u, Vector::new(Fixed::from(0), Fixed::from(-1), Fixed::from(0)));
    assert_eq!(u.unit().vector(), u);
}

#[test]
fn fixed32_unit_twice_may_differ_in_the_last_place() {
    let v = Vector::new(Fixed::from(-3), Fixed::from(-3), Fixed::from(-2));
    let u = v.unit().vector();
    assert_eq!(u, Vector::new(Fixed::from_raw(-41916), Fixed::from_raw(-41916), Fixed::from_raw(-27944)));
    assert_eq!(u.magnituid().to_raw(), 65533);
    let again = u.unit().vector();
    assert_eq!(
        again,
        Vector::new(Fixed::from_raw(-41917), Fixed::from_raw(-41917), Fixed::from_raw(-27945))
    );
}

#[test]
fn fixed32_vector_algebra() {
    let a = Vector::new(Fixed::from(1), Fixed::from(2), Fixed::from(3));
    let b = Vector::new(Fixed::from(4), Fixed::from(5), Fixed::from(6));
    assert_eq!(Vector::dot(a, b), Fixed::from(32));
    assert_eq!(Vector::dot(a, b), Vector::dot(b, a));
    assert_eq!(Vector::cross(a, b), Vector::new(Fixed::from(-3), Fixed::from(6), Fixed::from(-3)));
    assert_eq!(Vector::cross(a, b), -Vector::cross(b, a));
    assert_eq!(Vector::cross(a, a), Vector::new(Fixed::from(0), Fixed::from(0), Fixed::from(0)));
    assert_eq!(a * Fixed::from(2), Vector::new(Fixed::from(2), Fixed::from(4), Fixed::from(6)));
}
