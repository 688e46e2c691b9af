use rotor4::arith::isqrt;
use rotor4::rotor::Plane;
use rotor4::rotor::Rotor;

fn sample_motor() -> Rotor {
    // a unit rigid motion: a rotation followed by a translation
    let r = Rotor::rotation_in_plane(Plane::E13, 3, 4, 5);
    let t = Rotor::translation([1, -2, 3, 4], 1);
    r.compose(&t)
}

#[test]
fn identity_motor_has_unit_scalar() {
    let id = Rotor::identity();
    assert_eq!(id.s, 1);
    assert_eq!(id.den, 1);
    assert_eq!(id.e01, 0);
    assert_eq!(id.e12, 0);
    assert_eq!(id.e1234, 0);
}

#[test]
fn compose_with_identity_is_identity_both_ways() {
    let a = sample_motor();
    let id = Rotor::identity();
    assert_eq!(a.compose(&id), a);
    assert_eq!(id.compose(&a), a);
}

#[test]
fn compose_is_associative_exactly() {
    let a = sample_motor();
    let b = Rotor::rotation_in_plane(Plane::E24, 5, 12, 13);
    let c = Rotor::translation([0, 7, -1, 2], 3);
    let left = a.compose(&b).compose(&c);
    let right = a.compose(&b.compose(&c));
    assert_eq!(left, right);
}

#[test]
fn compose_is_not_commutative() {
    // the rotation plane shares the axis this translation moves along
    let a = Rotor::rotation_in_plane(Plane::E12, 3, 4, 5);
    let b = Rotor::translation([0, 0, 0, 1], 1);
    assert_ne!(a.compose(&b), b.compose(&a));
}

#[test]
fn reverse_is_an_involution() {
    let a = sample_motor();
    assert_eq!(a.reverse().reverse(), a);
}

#[test]
fn reverse_negates_only_bivectors() {
    let a = sample_motor();
    let r = a.reverse();
    assert_eq!(r.s, a.s);
    assert_eq!(r.e01, -a.e01);
    assert_eq!(r.e13, -a.e13);
    assert_eq!(r.e34, -a.e34);
    assert_eq!(r.e0123, a.e0123);
    assert_eq!(r.e1234, a.e1234);
    assert_eq!(r.den, a.den);
}

#[test]
fn translations_are_unit() {
    let t = Rotor::translation([9, -7, 5, 3], 4);
    let m = t.magnitude_squared();
    assert_eq!(m.num, m.den);
}

#[test]
fn composing_unit_motors_stays_unit() {
    let a = sample_motor();
    let b = Rotor::rotation_in_plane(Plane::E34, 8, 15, 17);
    let ab = a.compose(&b);
    let m = ab.magnitude_squared();
    assert_eq!(m.num, m.den);
}

#[test]
fn rotations_in_one_plane_add_their_angles() {
    let r = Rotor::rotation_in_plane(Plane::E12, 3, 4, 5);
    let rr = r.compose(&r);
    // double angle of (3/5, 4/5) is (-7/25, 24/25)
    assert_eq!(rr.s, -7);
    assert_eq!(rr.e12, 24);
    assert_eq!(rr.den, 25);
    assert_eq!(rr.e34, 0);
    assert_eq!(rr.e1234, 0);
}

#[test]
fn rotation_xy_sets_the_e12_plane() {
    let r = Rotor::rotation_xy(3, 4, 5);
    assert_eq!(r, Rotor::rotation_in_plane(Plane::E12, 3, 4, 5));
    assert_eq!(r.s, 3);
    assert_eq!(r.e12, 4);
    assert_eq!(r.den, 5);
}

#[test]
fn magnitude_of_a_unit_rotation_is_one() {
    let r = Rotor::rotation_in_plane(Plane::E23, 3, 4, 5);
    let m = r.magnitude();
    assert_eq!(m.num, 5);
    assert_eq!(m.den, 5);
}

#[test]
fn magnitude_brackets_non_square_values() {
    // magnitude^2 of this motor is (1 + 1) / 1: magnitude floor is 1
    let a = Rotor { e12: 1, ..Rotor::identity() };
    let m = a.magnitude();
    assert_eq!(m.num, 1);
    assert_eq!(m.den, 1);
}

#[test]
fn normalized_rescales_a_scaled_unit_motor() {
    let a = Rotor { s: 6, e12: 8, den: 10, ..Rotor::identity() };
    let u = a.normalized().expect("magnitude is exactly one");
    assert_eq!(u.s, 6);
    assert_eq!(u.e12, 8);
    assert_eq!(u.den, 10);
    let m = u.magnitude_squared();
    assert_eq!(m.num, m.den);
}

#[test]
fn normalized_refuses_the_zero_motor() {
    let zero = Rotor { s: 0, den: 1, ..Rotor::identity() };
    assert!(zero.normalized().is_none());
}

#[test]
fn normalized_refuses_irrational_magnitudes() {
    let a = Rotor { s: 1, e12: 1, den: 1, ..Rotor::identity() };
    assert!(a.normalized().is_none());
}

#[test]
fn isqrt_floors_exactly() {
    assert_eq!(isqrt(0), 0);
    assert_eq!(isqrt(1), 1);
    assert_eq!(isqrt(3), 1);
    assert_eq!(isqrt(4), 2);
    assert_eq!(isqrt(99), 9);
    assert_eq!(isqrt(100), 10);
    assert_eq!(isqrt(i64::MAX), 3037000499);
}
