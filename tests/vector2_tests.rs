use geometry::{vec2_dot, Vector2, Vector2i};
use num_traits::Float;

#[test]
fn geometry_test_constructor_nan_float() {
    let v = Vector2::new(3.2f32, 3.1f32);
    assert_eq!(v, Vector2 { x: 3.2f32, y: 3.1f32 });
    assert!(!v.has_nans());
}

#[test]
fn geometry_test_add() {
    let v1 = Vector2 { x: 2.0f32, y: 3.0f32 };
    let v2 = Vector2 { x: 1.0f32, y: -1.0f32 };
    let v3 = Vector2 { x: 3.0f32, y: 2.0f32 };
    let v4 = Vector2 { x: 0.0f32, y: 0.0f32 };

    assert_eq!(v1 + v2, v3);
    assert_ne!(v1 + v2, v4);
}

#[test]
fn geometry_test_add_assign() {
    let mut v1 = Vector2 { x: 2.0f32, y: 3.0f32 };
    let v2 = Vector2 { x: 1.0f32, y: -1.0f32 };
    let v3 = Vector2 { x: 3.0f32, y: 2.0f32 };
    let v4 = Vector2 { x: 0.0f32, y: 0.0f32 };

    v1 += v2;

    assert_eq!(v1, v3);
    assert_ne!(v1, v4);
}

#[test]
fn geometry_test_sub() {
    let v1 = Vector2 { x: 2.0f32, y: 3.0f32 };
    let v2 = Vector2 { x: 1.0f32, y: -1.0f32 };
    let v3 = Vector2 { x: 1.0f32, y: 4.0f32 };
    let v4 = Vector2 { x: 0.0f32, y: 0.0f32 };

    assert_eq!(v1 - v2, v3);
    assert_ne!(v1 - v2, v4);
}

#[test]
fn geometry_test_sub_assign() {
    let mut v1 = Vector2 { x: 2.0f32, y: 3.0f32 };
    let v2 = Vector2 { x: 1.0f32, y: -1.0f32 };
    let v3 = Vector2 { x: 1.0f32, y: 4.0f32 };
    let v4 = Vector2 { x: 0.0f32, y: 0.0f32 };

    v1 -= v2;

    assert_eq!(v1, v3);
    assert_ne!(v1, v4);
}

#[test]
fn geometry_test_mul() {
    let v1 = Vector2 { x: 1.0f32, y: 3.0f32 };
    let constant: f32 = 2.0f32;
    let v2 = Vector2 { x: 2.0f32, y: 6.0f32 };
    let v3 = Vector2 { x: 1.9f32, y: 6.0f32 };

    assert_eq!(v1 * constant, v2);
    assert_ne!(v1 * constant, v3);
}

#[test]
fn geometry_test_mul_assign() {
    let mut v1 = Vector2 { x: 1.0f32, y: 3.0f32 };
    let constant: f32 = 2.0f32;
    let v2 = Vector2 { x: 2.0f32, y: 6.0f32 };
    let v3 = Vector2 { x: 1.9f32, y: 6.0f32 };

    v1 *= constant;
    assert_eq!(v1, v2);
    assert_ne!(v1, v3);
}

#[test]
fn geometry_test_div() {
    let v1 = Vector2 { x: 1.0f32, y: 1.0f32 };
    let v2 = Vector2 { x: 0.5f32, y: 0.5f32 };

    assert_eq!(v1 / 2.0, v2);
    assert_ne!(v1 / 2.0, v1);
}

#[test]
fn geometry_test_neg() {
    let v1 = Vector2 { x: 1.0f32, y: 1.0f32 };

    assert_eq!(-v1, v1 * (-1.0));
    assert_eq!(-(-v1), v1);
    assert_ne!(-v1, v1);
}

#[test]
fn geometry_test_length() {
    let v1 = Vector2 { x: 0.0f32, y: 3.0f32 };

    assert_eq!(v1.length_squared(), 9.0);
    assert_eq!(v1.length(), 3.0);
    assert_ne!(v1.length(), 2.0);
}

#[test]
fn geometry_test_is_nan() {
    let v1 = Vector2 { x: 0.0f32, y: Float::nan() };
    let v2 = Vector2 { x: 0.0f32, y: 0.0f32 };

    assert!(v1.has_nans());
    assert!(!v2.has_nans());
}

#[test]
fn geometry_test_index() {
    let v1 = Vector2 { x: 1, y: 2 };

    assert_eq!(v1[0], v1.x);
    assert_eq!(v1[1], v1.y);
}

#[test]
fn geometry_test_abs() {
    let v1 = Vector2 { x: -1, y: 2 };
    let v2 = Vector2 { x: 1, y: 2 };

    assert_eq!(v1.abs(), v2);
}

#[test]
fn geometry_test_dot() {
    let v1 = Vector2 { x: -1.0, y: 2.0 };
    assert_eq!(vec2_dot(v1, v1), 5.0);
    assert_eq!(v1.dot(v1), 5.0);
}

#[test]
fn vector2_add_commutes_on_samples() {
    let a = Vector2 { x: 2.5f32, y: -7.25f32 };
    let b = Vector2 { x: 0.125f32, y: 3.0f32 };
    assert_eq!(a + b, b + a);
    let c: Vector2i = Vector2 { x: i32::MAX - 5, y: -40 };
    let d: Vector2i = Vector2 { x: 5, y: 17 };
    assert_eq!(c + d, d + c);
    assert_eq!(c + d, Vector2 { x: i32::MAX, y: -23 });
}

#[test]
fn vector2_add_inverse_is_zero() {
    let a = Vector2 { x: 4.75f32, y: -0.5f32 };
    assert_eq!(a + (-a), Vector2 { x: 0.0f32, y: 0.0f32 });
}

#[test]
fn vector2_scaling_by_one_and_minus_one() {
    let v = Vector2 { x: -3.5f32, y: 12.0f32 };
    assert_eq!(v * 1.0, v);
    assert_eq!(v * (-1.0), -v);
}

#[test]
fn vector2_div_is_mul_by_reciprocal() {
    let v = Vector2 { x: 1.0f32, y: 10.0f32 };
    let s = 3.0f32;
    let by_reciprocal = v * (1.0 / s);
    let q = v / s;
    assert_eq!(q.x.to_bits(), by_reciprocal.x.to_bits());
    assert_eq!(q.y.to_bits(), by_reciprocal.y.to_bits());
}

#[test]
fn vector2_div_by_zero_gives_infinity() {
    let v = Vector2 { x: 1.0f32, y: -2.0f32 };
    let q = v / 0.0;
    assert_eq!(q.x, f32::INFINITY);
    assert_eq!(q.y, f32::NEG_INFINITY);
}

#[test]
fn vector2_length_squared_is_self_dot() {
    let v = Vector2 { x: 3i32, y: -4i32 };
    assert_eq!(v.length_squared(), v.dot(v));
    assert_eq!(v.length_squared(), 25);
    let w = Vector2 { x: 0.5f32, y: 1.5f32 };
    assert_eq!(w.length_squared(), w.dot(w));
}

#[test]
fn vector2_length_is_root_of_length_squared() {
    let v = Vector2 { x: 3.0f32, y: 4.0f32 };
    assert_eq!(v.length(), v.length_squared().sqrt());
    assert_eq!(v.length(), 5.0);
}

#[test]
fn vector2_has_nans_in_first_component() {
    let v = Vector2 { x: f32::NAN, y: 1.0f32 };
    assert!(v.has_nans());
}

#[test]
fn vector2_abs_keeps_nonnegative_and_flips_negative() {
    let v: Vector2i = Vector2 { x: 0, y: -7 };
    assert_eq!(v.abs(), Vector2 { x: 0, y: 7 });
    let w = Vector2 { x: -2.5f32, y: 2.5f32 };
    assert_eq!(w.abs(), Vector2 { x: 2.5f32, y: 2.5f32 });
}

#[test]
fn vector2_add_assign_matches_add() {
    let a = Vector2 { x: 2.0f32, y: 3.0f32 };
    let b = Vector2 { x: 1.0f32, y: -1.0f32 };
    let mut c = a;
    c += b;
    assert_eq!(c, a + b);
    assert_eq!(c, Vector2 { x: 3.0f32, y: 2.0f32 });
}

#[test]
fn vector2_integer_operators() {
    let a: Vector2i = Vector2 { x: 7, y: -2 };
    let b: Vector2i = Vector2 { x: 3, y: 5 };
    assert_eq!(a - b, Vector2 { x: 4, y: -7 });
    assert_eq!(-a, Vector2 { x: -7, y: 2 });
    assert_eq!(vec2_dot(a, b), 11);
    let mut c = a;
    c.sub_in_place(b);
    assert_eq!(c, Vector2 { x: 4, y: -7 });
    c.scale_in_place(-2);
    assert_eq!(c, Vector2 { x: -8, y: 14 });
}

#[test]
fn vector2_length_of_nan_vector_is_nan() {
    let v = Vector2 { x: f32::NAN, y: 1.0f32 };
    assert!(v.length().is_nan());
    let w = Vector2 { x: -2.0f64, y: 0.0f64 };
    assert!(!w.length().is_nan());
    assert_eq!(w.length(), 2.0);
}

#[test]
fn vector2_compound_assignments_match_operators() {
    let a: Vector2i = Vector2 { x: 10, y: -4 };
    let b: Vector2i = Vector2 { x: -3, y: 9 };
    let mut c = a;
    c.sub_in_place(b);
    assert_eq!(c, a - b);
    c.add_in_place(b);
    assert_eq!(c, a);
    let mut e = Vector2 { x: 2.5f32, y: 1.0f32 };
    e -= Vector2 { x: 0.5f32, y: 3.0f32 };
    assert_eq!(e, Vector2 { x: 2.0f32, y: -2.0f32 });
    let mut d = Vector2 { x: 1.5f32, y: -2.0f32 };
    d *= 4.0;
    assert_eq!(d, Vector2 { x: 1.5f32, y: -2.0f32 } * 4.0);
}

#[test]
fn vector2_in_place_at_the_integer_limit() {
    let mut v: Vector2i = Vector2 { x: i32::MAX - 1, y: i32::MIN + 1 };
    v.add_in_place(Vector2 { x: 1, y: -1 });
    assert_eq!(v, Vector2 { x: i32::MAX, y: i32::MIN });
}
