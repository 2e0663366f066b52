use rotor4::rotor::{NoE2Rotor, Rotor};
use rotor4::transform::Transform;
use rotor4::vectors::{Vector2, Vector3, Vector4};
use rotor4::UNIT;

fn v4(x: i64, y: i64, z: i64, w: i64) -> Vector4<i64> {
    Vector4 { x, y, z, w }
}

fn rotor(s: i64, e1e2: i64, e1e3: i64, e1e4: i64, e2e3: i64, e2e4: i64, e3e4: i64,
    e1e2e3e4: i64) -> Rotor {
    Rotor { s, e1e2, e1e3, e1e4, e2e3, e2e4, e3e4, e1e2e3e4 }
}

#[test]
fn identity_sandwich() {
    let d = Rotor::identity().transform_direction(v4(1, 2, 3, 4));
    assert_eq!(d, v4(1, 2, 3, 4));
}

#[test]
fn quarter_turn_xy() {
    let half = (std::f64::consts::PI / 4.0).cos();
    let c = (half * UNIT as f64).round() as i64;
    let s = c;
    let d = Rotor::rotate_xy(c, s).transform_direction(v4(1, 0, 0, 0));
    let n = c * c + s * s;
    assert_eq!(d.x, 0);
    assert!((d.y - n).abs() <= n / 1000);
    assert_eq!(d.z, 0);
    assert_eq!(d.w, 0);
}

#[test]
fn translate_then_rotate() {
    // the origin is first translated to (2,0,0,0) and then turned a quarter
    // in xy, landing on the y axis; the unnormalised rotor scales
    // coordinates by its squared norm
    let half = (std::f64::consts::PI / 4.0).cos();
    let c = (half * UNIT as f64).round() as i64;
    let t = Transform::translation(v4(2 * UNIT, 0, 0, 0))
        .and_then(Transform::rotate_xy(c, c));
    let p = t.transform_point(v4(0, 0, 0, 0));
    let n = 2 * c * c;
    assert!(p.x.abs() <= (2 * UNIT * n) / 500);
    assert!((p.y - 2 * UNIT * n).abs() <= (2 * UNIT * n) / 500);
    assert_eq!(p.z, 0);
    assert_eq!(p.w, 0);
    // in the other order the rotation acts on the origin before the
    // translation, so the point simply lands on the offset
    let u = Transform::rotate_xy(c, c).and_then(Transform::translation(v4(2 * UNIT, 0, 0, 0)));
    let q = u.transform_point(v4(0, 0, 0, 0));
    assert_eq!(q, v4(2 * UNIT * n, 0, 0, 0));
}

#[test]
fn no_e2_lift_half_turn() {
    // a half turn in xz: cos(pi/2) = 0, sin(pi/2) = 1, exactly representable
    let q = NoE2Rotor::rotate_xz(0, 1);
    let d = Rotor::from_no_e2_rotor(q).transform_direction(v4(1, 0, 0, 0));
    assert_eq!(d, v4(-1, 0, 0, 0));
    assert_eq!(d.y, 0);
}

#[test]
fn rotation_reverse_identity() {
    // an exactly normalised half-angle pair: 3-4-5 scaled has c*c + s*s != 1,
    // so check reverse(r) * r == (c*c + s*s, 0, ..) instead
    let (c, s) = (2896, 2896);
    let r = Rotor::rotate_xy(c, s);
    let m = r.and_then(r.reverse());
    assert_eq!(m, rotor(c * c + s * s, 0, 0, 0, 0, 0, 0, 0));
}

#[test]
fn translation_reverse_identity() {
    let t = Transform::translation(v4(2, -4, 6, 8));
    let m = t.and_then(t.reverse());
    assert_eq!(m, Transform::identity());
}

#[test]
fn composition_associative() {
    let a = rotor(3, 1, -2, 5, 0, 7, -1, 2);
    let b = rotor(-4, 2, 9, 1, -3, 0, 6, -5);
    let c = rotor(1, -7, 0, 3, 2, -2, 4, 8);
    assert_eq!(a.and_then(b).and_then(c), a.and_then(b.and_then(c)));
}

#[test]
fn composition_applies_first_factor_first() {
    // a quarter-ish turn in xy carries x to y, a second in yz carries y to
    // z: composing "a then b" and sandwiching equals sandwiching by a and
    // then by b
    let a = Rotor::rotate_xy(1, 1);
    let b = Rotor::rotate_yz(1, 1);
    let v = v4(1, 0, 0, 0);
    let once = a.and_then(b).transform_direction(v);
    let twice = b.transform_direction(a.transform_direction(v));
    assert_eq!(once, twice);
    assert_eq!(once, v4(0, 0, 4, 0));
}

#[test]
fn composition_identity() {
    let a = rotor(3, 1, -2, 5, 0, 7, -1, 2);
    assert_eq!(a.and_then(Rotor::identity()), a);
    assert_eq!(Rotor::identity().and_then(a), a);
}

#[test]
fn reverse_antihomomorphism() {
    let a = rotor(3, 1, -2, 5, 0, 7, -1, 2);
    let b = rotor(-4, 2, 9, 1, -3, 0, 6, -5);
    assert_eq!(a.and_then(b).reverse(), b.reverse().and_then(a.reverse()));
}

#[test]
fn frame_orthonormality() {
    let r = rotor(5, 1, -2, 3, 2, -1, 4, -2);
    let axes = [r.x(), r.y(), r.z(), r.w()];
    let m = r.squared_magnitude();
    let expected = m.s * m.s - m.e1e2e3e4 * m.e1e2e3e4;
    for i in 0..4 {
        for j in 0..4 {
            let dot = axes[i].dot(axes[j]);
            if i == j {
                assert_eq!(dot, expected);
            } else {
                assert_eq!(dot, 0);
            }
        }
    }
}

#[test]
fn rotation_angle_double_angle_form() {
    let (c, s) = (57, 13);
    let d = Rotor::rotate_xy(c, s).transform_direction(v4(1, 0, 0, 0));
    assert_eq!(d, v4(c * c - s * s, 2 * c * s, 0, 0));
    let d = Rotor::rotate_zw(c, s).transform_direction(v4(0, 0, 1, 0));
    assert_eq!(d, v4(0, 0, c * c - s * s, 2 * c * s));
}

#[test]
fn translation_position_and_direction() {
    let t = Transform::translation(v4(2, -4, 6, 8));
    assert_eq!(t.position(), v4(2, -4, 6, 8));
    assert_eq!(t.transform_direction(v4(9, 8, -7, 6)), v4(9, 8, -7, 6));
}

#[test]
fn embedding_round_trip() {
    let r = rotor(3, 1, -2, 5, 0, 7, -1, 2);
    assert_eq!(Transform::from_rotor(r).rotor_part(), r);
    let q = NoE2Rotor { s: 4, e1e3: -2, e1e4: 7, e3e4: 1 };
    let lifted = Rotor::from_no_e2_rotor(q);
    assert_eq!(lifted.e1e2, 0);
    assert_eq!(lifted.e2e3, 0);
    assert_eq!(lifted.e2e4, 0);
    assert_eq!(lifted.e1e2e3e4, 0);
}

#[test]
fn from_to_vector_carries_direction() {
    // a = (3,4,0,0), b = (5,0,0,0): equal squared norms 25
    let a = v4(3, 4, 0, 0);
    let b = v4(5, 0, 0, 0);
    let r = Rotor::from_to_vector(a, b);
    // the unnormalised sandwich scales by 2 * |a|^2 * (|a|^2 + a.b) = 2000
    assert_eq!(r.transform_direction(a), v4(10000, 0, 0, 0));
}

#[test]
fn normalised_rotor_magnitude() {
    let r = rotor(100, 35, -70, 12, 0, 44, -9, 3).normalised();
    let m = r.squared_magnitude();
    let target = UNIT * UNIT;
    assert!((m.s - target).abs() <= target / 50);
    let zero = rotor(0, 0, 0, 0, 0, 0, 0, 0).normalised();
    assert_eq!(zero, Rotor::identity());
}

#[test]
fn vector_arithmetic() {
    let a = v4(1, 2, 3, 4);
    let b = v4(5, -6, 7, -8);
    assert_eq!(a.add(b), v4(6, -4, 10, -4));
    assert_eq!(a.sub(b), v4(-4, 8, -4, 12));
    assert_eq!(a.mul(b), v4(5, -12, 21, -32));
    assert_eq!(v4(10, -9, 8, 7).div(v4(3, 2, -4, 2)), v4(3, -4, -2, 3));
    assert_eq!(a.mul_scalar(3), v4(3, 6, 9, 12));
    let mut c = a;
    c.add_assign(b);
    assert_eq!(c, v4(6, -4, 10, -4));
    assert_eq!(a.dot(b), 5 - 12 + 21 - 32);
    assert_eq!(v4(3, 4, 0, 0).magnitude(), 5);
    assert_eq!(v4(2, 3, 6, 0).magnitude(), 7);
    assert_eq!(Vector3 { x: 2, y: 3, z: 6 }.magnitude(), 7);
    assert_eq!(Vector2 { x: 3, y: 4 }.magnitude(), 5);
    assert_eq!(v4(0, 0, 3, 4).normalised(), v4(0, 0, (3 * UNIT) / 5, (4 * UNIT) / 5));
    assert_eq!(v4(0, 0, 0, 0).normalised(), v4(0, 0, 0, 0));
}

#[test]
fn vector_scalar_arithmetic() {
    let a = v4(6, -8, 10, 12);
    assert_eq!(a.add_scalar(2), v4(8, -6, 12, 14));
    assert_eq!(a.sub_scalar(2), v4(4, -10, 8, 10));
    assert_eq!(a.mul_scalar(-3), v4(-18, 24, -30, -36));
    assert_eq!(a.div_scalar(4), v4(1, -2, 2, 3));
    let b = Vector3 { x: 6i64, y: -8, z: 10 };
    assert_eq!(b.add_scalar(1), Vector3 { x: 7, y: -7, z: 11 });
    assert_eq!(b.div_scalar(-2), Vector3 { x: -3, y: 4, z: -5 });
    let c = Vector2 { x: 5i64, y: -5 };
    assert_eq!(c.mul_scalar(3), Vector2 { x: 15, y: -15 });
    assert_eq!(c.sub_scalar(5), Vector2 { x: 0, y: -10 });
}

#[test]
fn small_vector_normalised() {
    assert_eq!(
        Vector2 { x: 3i64, y: 4 }.normalised(),
        Vector2 { x: (3 * UNIT) / 5, y: (4 * UNIT) / 5 },
    );
    assert_eq!(
        Vector3 { x: 2i64, y: -3, z: 6 }.normalised(),
        Vector3 { x: (2 * UNIT) / 7, y: (-3 * UNIT) / 7, z: (6 * UNIT) / 7 },
    );
    assert_eq!(Vector2 { x: 0i64, y: 0 }.normalised(), Vector2 { x: 0, y: 0 });
    assert_eq!(
        Vector3 { x: 0i64, y: 0, z: 0 }.normalised(),
        Vector3 { x: 0, y: 0, z: 0 },
    );
}

#[test]
fn vector_map() {
    let a = v4(1, -2, 3, -4);
    assert_eq!(a.map(|t: i64| t * 2), v4(2, -4, 6, -8));
    let b = Vector2 { x: 7i64, y: -7 };
    assert_eq!(b.map(|t: i64| t + 1), Vector2 { x: 8, y: -6 });
    let c = Vector3 { x: 1i64, y: 2, z: 3 };
    assert_eq!(c.map(|t: i64| -t), Vector3 { x: -1, y: -2, z: -3 });
}
