use rotor4::movement::MoveKey;
use rotor4::movement::MovementState;
use rotor4::point::Point;
use rotor4::rotor::Plane;
use rotor4::rotor::Rotor;
use rotor4::transform::Vec4;

fn value(num: i64, den: i64) -> f64 {
    num as f64 / den as f64
}

#[test]
fn translations_compose_to_the_summed_offset() {
    // the two translations move the origin to [1, 2, 0, 0]
    let t1 = Rotor::translation([1, 0, 0, 0], 1);
    let t2 = Rotor::translation([0, 2, 0, 0], 1);
    let m = t1.compose(&t2);
    let origin = Vec4::new(0, 0, 0, 0, 1);
    let o = m.transform(&origin);
    assert_eq!(o.x, o.den);
    assert_eq!(o.y, 2 * o.den);
    assert_eq!(o.z, 0);
    assert_eq!(o.w, 0);
}

#[test]
fn quarter_turn_then_translation_smoke_check() {
    // rotation_xy by a quarter turn, then translation by [1, 0, 0, 0],
    // applied to the origin: the exact motion returns [1, 0, 0, 0].
    // 408/577 approximates cos(pi/4) == sin(pi/4) to about 3e-6.
    let r = Rotor::rotation_xy(408, 408, 577);
    let t = Rotor::translation([1, 0, 0, 0], 1);
    let m = r.compose(&t);
    let origin = Vec4::new(0, 0, 0, 0, 1);
    let o = m.transform(&origin);
    assert!((value(o.x, o.den) - 1.0).abs() < 1e-5);
    assert!(value(o.y, o.den).abs() < 1e-5);
    assert!(value(o.z, o.den).abs() < 1e-5);
    assert!(value(o.w, o.den).abs() < 1e-5);
    // the same motor carries [0, 0, 1, 0] near [0, 0, 0, -1]
    let p = Vec4::new(0, 0, 1, 0, 1);
    let q = m.transform(&p);
    assert!((value(q.x, q.den) - 1.0).abs() < 1e-5);
    assert!(value(q.z, q.den).abs() < 1e-5);
    assert!((value(q.w, q.den) + 1.0).abs() < 1e-5);
}

#[test]
fn translation_moves_points_by_its_offset() {
    // offsets (1, -3, 2, 4) applied to (1, 1, 1, 1)
    let t = Rotor::translation([2, -6, 4, 8], 2);
    let p = Vec4::new(1, 1, 1, 1, 1);
    let o = t.transform(&p);
    assert_eq!(o.x, 2 * o.den);
    assert_eq!(o.y, -2 * o.den);
    assert_eq!(o.z, 3 * o.den);
    assert_eq!(o.w, 5 * o.den);
}

#[test]
fn identity_transforms_points_exactly() {
    let p = Vec4::new(7, -3, 2, 5, 4);
    let o = Rotor::identity().transform(&p);
    assert_eq!(o, p);
}

#[test]
fn directions_ignore_translations() {
    let t = Rotor::translation([2, -6, 4, 8], 2);
    let n = Vec4::new(3, -2, 5, 7, 2);
    let o = t.transform_direction(&n);
    // same rational value, denominators cross-multiplied
    assert_eq!(o.x * n.den, n.x * o.den);
    assert_eq!(o.y * n.den, n.y * o.den);
    assert_eq!(o.z * n.den, n.z * o.den);
    assert_eq!(o.w * n.den, n.w * o.den);
}

#[test]
fn directions_and_points_agree_under_pure_rotations() {
    let r = Rotor::rotation_in_plane(Plane::E24, 5, 12, 13);
    let n = Vec4::new(1, 2, 3, 4, 1);
    assert_eq!(r.transform_direction(&n), r.transform(&n));
    let o = r.transform(&n);
    assert_eq!((o.x, o.y, o.z, o.w, o.den), (-479, 338, -237, 676, 169));
}

#[test]
fn composing_with_the_reverse_undoes_itself() {
    let r = Rotor::rotation_in_plane(Plane::E13, 3, 4, 5);
    let t = Rotor::translation([1, -2, 3, 4], 1);
    let a = r.compose(&t);
    let m = a.compose(&a.reverse());
    let p = Vec4::new(7, -3, 2, 5, 4);
    let o = m.transform(&p);
    assert_eq!(o.x * p.den, p.x * o.den);
    assert_eq!(o.y * p.den, p.y * o.den);
    assert_eq!(o.z * p.den, p.z * o.den);
    assert_eq!(o.w * p.den, p.w * o.den);
}

#[test]
fn point_transform_preserves_unit_weight() {
    let r = Rotor::rotation_in_plane(Plane::E13, 3, 4, 5);
    let t = Rotor::translation([1, -2, 3, 4], 1);
    let a = r.compose(&t);
    let p = Point::from_cartesian(7, -3, 2, 5, 4);
    let q = p.transform(a);
    // weight stays one under a unit motor
    assert_eq!(q.e1234, q.den);
}

#[test]
fn point_transform_matches_the_vector_transform() {
    let r = Rotor::rotation_in_plane(Plane::E13, 3, 4, 5);
    let t = Rotor::translation([1, -2, 3, 4], 1);
    let a = r.compose(&t);
    let p = Point::from_cartesian(7, -3, 2, 5, 4);
    let q = p.transform(a);
    let v = Vec4::new(7, -3, 2, 5, 4);
    let o = a.transform(&v);
    // same Cartesian values: cross-multiply the homogeneous forms
    assert_eq!(q.e0123 * o.den, o.x * q.den);
    assert_eq!(q.e0124 * o.den, o.y * q.den);
    assert_eq!(q.e0134 * o.den, o.z * q.den);
    assert_eq!(q.e0234 * o.den, o.w * q.den);
}

#[test]
fn point_identity_is_the_origin() {
    let o = Point::identity();
    assert_eq!((o.e0123, o.e0124, o.e0134, o.e0234, o.e1234, o.den), (0, 0, 0, 0, 1, 1));
}

#[test]
fn movement_state_builds_the_step_translation() {
    let mut state = MovementState::default();
    state.apply_key(MoveKey::Forward, true);
    state.apply_key(MoveKey::Left, true);
    state.apply_key(MoveKey::Up, true);
    state.apply_key(MoveKey::Up, false);
    // forward minus backward drives x, right minus left drives z
    let m = state.transform(5, 100);
    assert_eq!(m, Rotor::translation([5, 0, -5, 0], 100));
    state.apply_key(MoveKey::Backward, true);
    let m2 = state.transform(5, 100);
    assert_eq!(m2, Rotor::translation([0, 0, -5, 0], 100));
}

#[test]
fn released_keys_stop_driving_their_axis() {
    let mut state = MovementState::default();
    state.apply_key(MoveKey::Down, true);
    state.apply_key(MoveKey::Right, true);
    state.apply_key(MoveKey::Down, false);
    let m = state.transform(3, 10);
    assert_eq!(m, Rotor::translation([0, 0, 3, 0], 10));
}
