//! The motor (rotor) type: an even-graded element of the Clifford algebra
//! with signature `e0^2 = 0`, `e1^2 = .. = e4^2 = 1`, held exactly as sixteen
//! integer numerators over one positive denominator.
//!
//! The sixteen coefficients are the scalar `s`, the ten bivectors
//! `e01..e34`, and the five quadvectors `e0123..e1234`. The value of a field
//! `f` is the rational `f / den`. All operations are exact: composition
//! multiplies denominators, reversal and the constructors copy them.

use vstd::prelude::*;

use crate::arith::isqrt;
use crate::arith::mul_c;

verus! {

/// A motor: the numerators of its sixteen coefficients over `den`.
#[derive(Clone, Copy, Debug, PartialEq, Eq, Structural)]
pub struct Rotor {
    pub s: i64,
    pub e01: i64,
    pub e02: i64,
    pub e03: i64,
    pub e04: i64,
    pub e12: i64,
    pub e13: i64,
    pub e14: i64,
    pub e23: i64,
    pub e24: i64,
    pub e34: i64,
    pub e0123: i64,
    pub e0124: i64,
    pub e0134: i64,
    pub e0234: i64,
    pub e1234: i64,
    pub den: i64,
}

/// The mathematical value of a `Rotor`: the same sixteen numerators and the
/// denominator, as unbounded integers.
pub ghost struct RotorModel {
    pub s: int,
    pub e01: int,
    pub e02: int,
    pub e03: int,
    pub e04: int,
    pub e12: int,
    pub e13: int,
    pub e14: int,
    pub e23: int,
    pub e24: int,
    pub e34: int,
    pub e0123: int,
    pub e0124: int,
    pub e0134: int,
    pub e0234: int,
    pub e1234: int,
    pub den: int,
}

impl View for Rotor {
    type V = RotorModel;

    open spec fn view(&self) -> RotorModel {
        RotorModel {
            s: self.s as int,
            e01: self.e01 as int,
            e02: self.e02 as int,
            e03: self.e03 as int,
            e04: self.e04 as int,
            e12: self.e12 as int,
            e13: self.e13 as int,
            e14: self.e14 as int,
            e23: self.e23 as int,
            e24: self.e24 as int,
            e34: self.e34 as int,
            e0123: self.e0123 as int,
            e0124: self.e0124 as int,
            e0134: self.e0134 as int,
            e0234: self.e0234 as int,
            e1234: self.e1234 as int,
            den: self.den as int,
        }
    }
}

impl RotorModel {
    /// Every numerator lies in `[-b, b]` and the denominator in `[1, b]`.
    pub open spec fn bounded(self, b: int) -> bool {
        &&& -b <= self.s <= b
        &&& -b <= self.e01 <= b
        &&& -b <= self.e02 <= b
        &&& -b <= self.e03 <= b
        &&& -b <= self.e04 <= b
        &&& -b <= self.e12 <= b
        &&& -b <= self.e13 <= b
        &&& -b <= self.e14 <= b
        &&& -b <= self.e23 <= b
        &&& -b <= self.e24 <= b
        &&& -b <= self.e34 <= b
        &&& -b <= self.e0123 <= b
        &&& -b <= self.e0124 <= b
        &&& -b <= self.e0134 <= b
        &&& -b <= self.e0234 <= b
        &&& -b <= self.e1234 <= b
        &&& 1 <= self.den <= b
    }
}

/// The identity motor: scalar one, everything else zero.
pub open spec fn spec_identity() -> RotorModel {
    RotorModel {
        s: 1,
        e01: 0,
        e02: 0,
        e03: 0,
        e04: 0,
        e12: 0,
        e13: 0,
        e14: 0,
        e23: 0,
        e24: 0,
        e34: 0,
        e0123: 0,
        e0124: 0,
        e0134: 0,
        e0234: 0,
        e1234: 0,
        den: 1,
    }
}

/// The geometric product of two motors. Each output coefficient is the fixed
/// signed bilinear combination dictated by the structure constants of the
/// algebra (`e0^2 = 0`, `ei^2 = 1`, distinct basis vectors anticommute);
/// denominators multiply.
pub open spec fn spec_compose(a: RotorModel, b: RotorModel) -> RotorModel {
    RotorModel {
        s: -(a.e12 * b.e12) + a.e1234 * b.e1234 - a.e13 * b.e13 - a.e14 * b.e14 - a.e23 * b.e23 - a.e24 * b.e24 - a.e34 * b.e34 + a.s * b.s,
        e01: a.e01 * b.s - a.e0123 * b.e23 - a.e0124 * b.e24 - a.e0134 * b.e34 - a.e02 * b.e12 + a.e0234 * b.e1234 - a.e03 * b.e13 - a.e04 * b.e14 + a.e12 * b.e02 - a.e1234 * b.e0234 + a.e13 * b.e03 + a.e14 * b.e04 - a.e23 * b.e0123 - a.e24 * b.e0124 - a.e34 * b.e0134 + a.s * b.e01,
        e02: a.e01 * b.e12 + a.e0123 * b.e13 + a.e0124 * b.e14 - a.e0134 * b.e1234 + a.e02 * b.s - a.e0234 * b.e34 - a.e03 * b.e23 - a.e04 * b.e24 - a.e12 * b.e01 + a.e1234 * b.e0134 + a.e13 * b.e0123 + a.e14 * b.e0124 + a.e23 * b.e03 + a.e24 * b.e04 - a.e34 * b.e0234 + a.s * b.e02,
        e03: a.e01 * b.e13 - a.e0123 * b.e12 + a.e0124 * b.e1234 + a.e0134 * b.e14 + a.e02 * b.e23 + a.e0234 * b.e24 + a.e03 * b.s - a.e04 * b.e34 - a.e12 * b.e0123 - a.e1234 * b.e0124 - a.e13 * b.e01 + a.e14 * b.e0134 - a.e23 * b.e02 + a.e24 * b.e0234 + a.e34 * b.e04 + a.s * b.e03,
        e04: a.e01 * b.e14 - a.e0123 * b.e1234 - a.e0124 * b.e12 - a.e0134 * b.e13 + a.e02 * b.e24 - a.e0234 * b.e23 + a.e03 * b.e34 + a.e04 * b.s - a.e12 * b.e0124 + a.e1234 * b.e0123 - a.e13 * b.e0134 - a.e14 * b.e01 - a.e23 * b.e0234 - a.e24 * b.e02 - a.e34 * b.e03 + a.s * b.e04,
        e12: a.e12 * b.s - a.e1234 * b.e34 - a.e13 * b.e23 - a.e14 * b.e24 + a.e23 * b.e13 + a.e24 * b.e14 - a.e34 * b.e1234 + a.s * b.e12,
        e13: a.e12 * b.e23 + a.e1234 * b.e24 + a.e13 * b.s - a.e14 * b.e34 - a.e23 * b.e12 + a.e24 * b.e1234 + a.e34 * b.e14 + a.s * b.e13,
        e14: a.e12 * b.e24 - a.e1234 * b.e23 + a.e13 * b.e34 + a.e14 * b.s - a.e23 * b.e1234 - a.e24 * b.e12 - a.e34 * b.e13 + a.s * b.e14,
        e23: -(a.e12 * b.e13) - a.e1234 * b.e14 + a.e13 * b.e12 - a.e14 * b.e1234 + a.e23 * b.s - a.e24 * b.e34 + a.e34 * b.e24 + a.s * b.e23,
        e24: -(a.e12 * b.e14) + a.e1234 * b.e13 + a.e13 * b.e1234 + a.e14 * b.e12 + a.e23 * b.e34 + a.e24 * b.s - a.e34 * b.e23 + a.s * b.e24,
        e34: -(a.e12 * b.e1234) - a.e1234 * b.e12 - a.e13 * b.e14 + a.e14 * b.e13 - a.e23 * b.e24 + a.e24 * b.e23 + a.e34 * b.s + a.s * b.e34,
        e0123: a.e01 * b.e23 + a.e0123 * b.s - a.e0124 * b.e34 + a.e0134 * b.e24 - a.e02 * b.e13 - a.e0234 * b.e14 + a.e03 * b.e12 - a.e04 * b.e1234 + a.e12 * b.e03 + a.e1234 * b.e04 - a.e13 * b.e02 + a.e14 * b.e0234 + a.e23 * b.e01 - a.e24 * b.e0134 + a.e34 * b.e0124 + a.s * b.e0123,
        e0124: a.e01 * b.e24 + a.e0123 * b.e34 + a.e0124 * b.s - a.e0134 * b.e23 - a.e02 * b.e14 + a.e0234 * b.e13 + a.e03 * b.e1234 + a.e04 * b.e12 + a.e12 * b.e04 - a.e1234 * b.e03 - a.e13 * b.e0234 - a.e14 * b.e02 + a.e23 * b.e0134 + a.e24 * b.e01 - a.e34 * b.e0123 + a.s * b.e0124,
        e0134: a.e01 * b.e34 - a.e0123 * b.e24 + a.e0124 * b.e23 + a.e0134 * b.s - a.e02 * b.e1234 - a.e0234 * b.e12 - a.e03 * b.e14 + a.e04 * b.e13 + a.e12 * b.e0234 + a.e1234 * b.e02 + a.e13 * b.e04 - a.e14 * b.e03 - a.e23 * b.e0124 + a.e24 * b.e0123 + a.e34 * b.e01 + a.s * b.e0134,
        e0234: a.e01 * b.e1234 + a.e0123 * b.e14 - a.e0124 * b.e13 + a.e0134 * b.e12 + a.e02 * b.e34 + a.e0234 * b.s - a.e03 * b.e24 + a.e04 * b.e23 - a.e12 * b.e0134 - a.e1234 * b.e01 + a.e13 * b.e0124 - a.e14 * b.e0123 + a.e23 * b.e04 - a.e24 * b.e03 + a.e34 * b.e02 + a.s * b.e0234,
        e1234: a.e12 * b.e34 + a.e1234 * b.s - a.e13 * b.e24 + a.e14 * b.e23 + a.e23 * b.e14 - a.e24 * b.e13 + a.e34 * b.e12 + a.s * b.e1234,
        den: a.den * b.den,
    }
}

/// Reversal negates exactly the ten bivector coefficients.
pub open spec fn spec_reverse(a: RotorModel) -> RotorModel {
    RotorModel {
        s: a.s,
        e01: -a.e01,
        e02: -a.e02,
        e03: -a.e03,
        e04: -a.e04,
        e12: -a.e12,
        e13: -a.e13,
        e14: -a.e14,
        e23: -a.e23,
        e24: -a.e24,
        e34: -a.e34,
        e0123: a.e0123,
        e0124: a.e0124,
        e0134: a.e0134,
        e0234: a.e0234,
        e1234: a.e1234,
        den: a.den,
    }
}

/// Numerator of the squared magnitude over `a.den * a.den`: the scalar part
/// of `reverse(a) a`, which collapses to a sum of eight squares (the
/// coefficients pairing `e0` contribute nothing because `e0^2 = 0`).
pub open spec fn spec_mag2_num(a: RotorModel) -> int {
    a.e12 * a.e12 + a.e1234 * a.e1234 + a.e13 * a.e13 + a.e14 * a.e14 + a.e23 * a.e23
        + a.e24 * a.e24 + a.e34 * a.e34 + a.s * a.s
}

/// The motor has magnitude exactly one.
pub open spec fn is_unit(a: RotorModel) -> bool {
    spec_mag2_num(a) == a.den * a.den
}

/// `a` represents a rigid motion: both `reverse(a) a` and `a reverse(a)`
/// have no quadvector part, so each is the plain scalar `mag2(a)`.
/// Every motor built from the constructors has this shape, and composition
/// preserves it; a motor that lacks it transforms points incorrectly.
pub open spec fn is_proper(a: RotorModel) -> bool {
    &&& spec_compose(spec_reverse(a), a).e0123 == 0
    &&& spec_compose(spec_reverse(a), a).e0124 == 0
    &&& spec_compose(spec_reverse(a), a).e0134 == 0
    &&& spec_compose(spec_reverse(a), a).e0234 == 0
    &&& spec_compose(spec_reverse(a), a).e1234 == 0
    &&& spec_compose(a, spec_reverse(a)).e0123 == 0
    &&& spec_compose(a, spec_reverse(a)).e0124 == 0
    &&& spec_compose(a, spec_reverse(a)).e0134 == 0
    &&& spec_compose(a, spec_reverse(a)).e0234 == 0
    &&& spec_compose(a, spec_reverse(a)).e1234 == 0
}

/// Two motors denote the same rational value: all sixteen coefficients
/// agree after cross-multiplying the denominators.
pub open spec fn rotor_eq(a: RotorModel, b: RotorModel) -> bool {
    &&& a.s * b.den == b.s * a.den
    &&& a.e01 * b.den == b.e01 * a.den
    &&& a.e02 * b.den == b.e02 * a.den
    &&& a.e03 * b.den == b.e03 * a.den
    &&& a.e04 * b.den == b.e04 * a.den
    &&& a.e12 * b.den == b.e12 * a.den
    &&& a.e13 * b.den == b.e13 * a.den
    &&& a.e14 * b.den == b.e14 * a.den
    &&& a.e23 * b.den == b.e23 * a.den
    &&& a.e24 * b.den == b.e24 * a.den
    &&& a.e34 * b.den == b.e34 * a.den
    &&& a.e0123 * b.den == b.e0123 * a.den
    &&& a.e0124 * b.den == b.e0124 * a.den
    &&& a.e0134 * b.den == b.e0134 * a.den
    &&& a.e0234 * b.den == b.e0234 * a.den
    &&& a.e1234 * b.den == b.e1234 * a.den
}

/// The pure translation by `(x, y, z, w) / den`: scalar one and the four
/// `e0i` bivectors carrying half the offset, held over denominator
/// `2 * den` so that the halves stay exact.
pub open spec fn spec_translation(x: int, y: int, z: int, w: int, den: int) -> RotorModel {
    RotorModel {
        s: 2 * den,
        e01: w,
        e02: -z,
        e03: y,
        e04: -x,
        e12: 0,
        e13: 0,
        e14: 0,
        e23: 0,
        e24: 0,
        e34: 0,
        e0123: 0,
        e0124: 0,
        e0134: 0,
        e0234: 0,
        e1234: 0,
        den: 2 * den,
    }
}

/// One of the six coordinate planes a rotation can act in, named by the pair
/// of Euclidean basis vectors it spans.
#[derive(Clone, Copy, Debug, PartialEq, Eq, Structural)]
pub enum Plane {
    E12,
    E13,
    E14,
    E23,
    E24,
    E34,
}

/// The pure rotation in `plane` whose half-angle has cosine `c / den` and
/// sine `s / den`: scalar `c`, the plane's bivector `s`, everything else
/// zero. It has magnitude one exactly when `c^2 + s^2 == den^2`.
pub open spec fn spec_rotation(plane: Plane, c: int, s: int, den: int) -> RotorModel {
    RotorModel {
        s: c,
        e01: 0,
        e02: 0,
        e03: 0,
        e04: 0,
        e12: if plane == Plane::E12 { s } else { 0 },
        e13: if plane == Plane::E13 { s } else { 0 },
        e14: if plane == Plane::E14 { s } else { 0 },
        e23: if plane == Plane::E23 { s } else { 0 },
        e24: if plane == Plane::E24 { s } else { 0 },
        e34: if plane == Plane::E34 { s } else { 0 },
        e0123: 0,
        e0124: 0,
        e0134: 0,
        e0234: 0,
        e1234: 0,
        den: den,
    }
}

/// A rational scalar `num / den`.
#[derive(Clone, Copy, Debug, PartialEq, Eq, Structural)]
pub struct Scalar {
    pub num: i64,
    pub den: i64,
}

/// The mathematical value of a `Scalar`.
pub ghost struct ScalarModel {
    pub num: int,
    pub den: int,
}

impl View for Scalar {
    type V = ScalarModel;

    open spec fn view(&self) -> ScalarModel {
        ScalarModel { num: self.num as int, den: self.den as int }
    }
}

impl Rotor {
    /// The identity motor.
    pub fn identity() -> (r: Rotor)
        ensures
            r@ == spec_identity(),
    {
        Rotor {
            s: 1,
            e01: 0,
            e02: 0,
            e03: 0,
            e04: 0,
            e12: 0,
            e13: 0,
            e14: 0,
            e23: 0,
            e24: 0,
            e34: 0,
            e0123: 0,
            e0124: 0,
            e0134: 0,
            e0234: 0,
            e1234: 0,
            den: 1,
        }
    }

    /// The pure translation by `offset / den`, offsets ordered `[x, y, z, w]`.
    pub fn translation(offset: [i64; 4], den: i64) -> (r: Rotor)
        requires
            1 <= den <= 0x1000_0000,
            forall|i: int| 0 <= i < 4 ==> -0x1000_0000 <= #[trigger] offset[i] <= 0x1000_0000,
        ensures
            r@ == spec_translation(
                offset[0] as int,
                offset[1] as int,
                offset[2] as int,
                offset[3] as int,
                den as int,
            ),
    {
        let x = offset[0];
        let y = offset[1];
        let z = offset[2];
        let w = offset[3];
        Rotor {
            s: 2 * den,
            e01: w,
            e02: -z,
            e03: y,
            e04: -x,
            e12: 0,
            e13: 0,
            e14: 0,
            e23: 0,
            e24: 0,
            e34: 0,
            e0123: 0,
            e0124: 0,
            e0134: 0,
            e0234: 0,
            e1234: 0,
            den: 2 * den,
        }
    }

    /// The pure rotation in `plane` with half-angle cosine `c / den` and
    /// sine `s / den`. Applying the result through the sandwich transform
    /// rotates by the full angle; it is a unit motor when
    /// `c * c + s * s == den * den` (a caller working in floating point picks
    /// a nearby rational approximation of the cosine-sine pair).
    pub fn rotation_in_plane(plane: Plane, c: i64, s: i64, den: i64) -> (r: Rotor)
        requires
            1 <= den,
            -0x7fff_ffff_ffff_ffff <= c,
            -0x7fff_ffff_ffff_ffff <= s,
        ensures
            r@ == spec_rotation(plane, c as int, s as int, den as int),
    {
        let mut r = Rotor {
            s: c,
            e01: 0,
            e02: 0,
            e03: 0,
            e04: 0,
            e12: 0,
            e13: 0,
            e14: 0,
            e23: 0,
            e24: 0,
            e34: 0,
            e0123: 0,
            e0124: 0,
            e0134: 0,
            e0234: 0,
            e1234: 0,
            den: den,
        };
        match plane {
            Plane::E12 => r.e12 = s,
            Plane::E13 => r.e13 = s,
            Plane::E14 => r.e14 = s,
            Plane::E23 => r.e23 = s,
            Plane::E24 => r.e24 = s,
            Plane::E34 => r.e34 = s,
        }
        r
    }

    /// The rotation the camera's vertical look runs in: the plane spanned
    /// by `e1` and `e2`.
    pub fn rotation_xy(c: i64, s: i64, den: i64) -> (r: Rotor)
        requires
            1 <= den,
            -0x7fff_ffff_ffff_ffff <= c,
            -0x7fff_ffff_ffff_ffff <= s,
        ensures
            r@ == spec_rotation(Plane::E12, c as int, s as int, den as int),
    {
        Rotor::rotation_in_plane(Plane::E12, c, s, den)
    }

    /// The geometric product `self * rhs`, exactly.
    pub fn compose(&self, rhs: &Rotor) -> (r: Rotor)
        requires
            self@.bounded(0x2000_0000),
            rhs@.bounded(0x2000_0000),
        ensures
            r@ == spec_compose(self@, rhs@),
            1 <= r@.den,
    {
        proof {
            assert(1 <= self@.den * rhs@.den) by (nonlinear_arith)
                requires
                    1 <= self@.den,
                    1 <= rhs@.den;
        }
        let r = Rotor {
            s: -(mul_c(self.e12, rhs.e12)) + mul_c(self.e1234, rhs.e1234) - mul_c(self.e13, rhs.e13) - mul_c(self.e14, rhs.e14) - mul_c(self.e23, rhs.e23) - mul_c(self.e24, rhs.e24) - mul_c(self.e34, rhs.e34) + mul_c(self.s, rhs.s),
            e01: mul_c(self.e01, rhs.s) - mul_c(self.e0123, rhs.e23) - mul_c(self.e0124, rhs.e24) - mul_c(self.e0134, rhs.e34) - mul_c(self.e02, rhs.e12) + mul_c(self.e0234, rhs.e1234) - mul_c(self.e03, rhs.e13) - mul_c(self.e04, rhs.e14) + mul_c(self.e12, rhs.e02) - mul_c(self.e1234, rhs.e0234) + mul_c(self.e13, rhs.e03) + mul_c(self.e14, rhs.e04) - mul_c(self.e23, rhs.e0123) - mul_c(self.e24, rhs.e0124) - mul_c(self.e34, rhs.e0134) + mul_c(self.s, rhs.e01),
            e02: mul_c(self.e01, rhs.e12) + mul_c(self.e0123, rhs.e13) + mul_c(self.e0124, rhs.e14) - mul_c(self.e0134, rhs.e1234) + mul_c(self.e02, rhs.s) - mul_c(self.e0234, rhs.e34) - mul_c(self.e03, rhs.e23) - mul_c(self.e04, rhs.e24) - mul_c(self.e12, rhs.e01) + mul_c(self.e1234, rhs.e0134) + mul_c(self.e13, rhs.e0123) + mul_c(self.e14, rhs.e0124) + mul_c(self.e23, rhs.e03) + mul_c(self.e24, rhs.e04) - mul_c(self.e34, rhs.e0234) + mul_c(self.s, rhs.e02),
            e03: mul_c(self.e01, rhs.e13) - mul_c(self.e0123, rhs.e12) + mul_c(self.e0124, rhs.e1234) + mul_c(self.e0134, rhs.e14) + mul_c(self.e02, rhs.e23) + mul_c(self.e0234, rhs.e24) + mul_c(self.e03, rhs.s) - mul_c(self.e04, rhs.e34) - mul_c(self.e12, rhs.e0123) - mul_c(self.e1234, rhs.e0124) - mul_c(self.e13, rhs.e01) + mul_c(self.e14, rhs.e0134) - mul_c(self.e23, rhs.e02) + mul_c(self.e24, rhs.e0234) + mul_c(self.e34, rhs.e04) + mul_c(self.s, rhs.e03),
            e04: mul_c(self.e01, rhs.e14) - mul_c(self.e0123, rhs.e1234) - mul_c(self.e0124, rhs.e12) - mul_c(self.e0134, rhs.e13) + mul_c(self.e02, rhs.e24) - mul_c(self.e0234, rhs.e23) + mul_c(self.e03, rhs.e34) + mul_c(self.e04, rhs.s) - mul_c(self.e12, rhs.e0124) + mul_c(self.e1234, rhs.e0123) - mul_c(self.e13, rhs.e0134) - mul_c(self.e14, rhs.e01) - mul_c(self.e23, rhs.e0234) - mul_c(self.e24, rhs.e02) - mul_c(self.e34, rhs.e03) + mul_c(self.s, rhs.e04),
            e12: mul_c(self.e12, rhs.s) - mul_c(self.e1234, rhs.e34) - mul_c(self.e13, rhs.e23) - mul_c(self.e14, rhs.e24) + mul_c(self.e23, rhs.e13) + mul_c(self.e24, rhs.e14) - mul_c(self.e34, rhs.e1234) + mul_c(self.s, rhs.e12),
            e13: mul_c(self.e12, rhs.e23) + mul_c(self.e1234, rhs.e24) + mul_c(self.e13, rhs.s) - mul_c(self.e14, rhs.e34) - mul_c(self.e23, rhs.e12) + mul_c(self.e24, rhs.e1234) + mul_c(self.e34, rhs.e14) + mul_c(self.s, rhs.e13),
            e14: mul_c(self.e12, rhs.e24) - mul_c(self.e1234, rhs.e23) + mul_c(self.e13, rhs.e34) + mul_c(self.e14, rhs.s) - mul_c(self.e23, rhs.e1234) - mul_c(self.e24, rhs.e12) - mul_c(self.e34, rhs.e13) + mul_c(self.s, rhs.e14),
            e23: -(mul_c(self.e12, rhs.e13)) - mul_c(self.e1234, rhs.e14) + mul_c(self.e13, rhs.e12) - mul_c(self.e14, rhs.e1234) + mul_c(self.e23, rhs.s) - mul_c(self.e24, rhs.e34) + mul_c(self.e34, rhs.e24) + mul_c(self.s, rhs.e23),
            e24: -(mul_c(self.e12, rhs.e14)) + mul_c(self.e1234, rhs.e13) + mul_c(self.e13, rhs.e1234) + mul_c(self.e14, rhs.e12) + mul_c(self.e23, rhs.e34) + mul_c(self.e24, rhs.s) - mul_c(self.e34, rhs.e23) + mul_c(self.s, rhs.e24),
            e34: -(mul_c(self.e12, rhs.e1234)) - mul_c(self.e1234, rhs.e12) - mul_c(self.e13, rhs.e14) + mul_c(self.e14, rhs.e13) - mul_c(self.e23, rhs.e24) + mul_c(self.e24, rhs.e23) + mul_c(self.e34, rhs.s) + mul_c(self.s, rhs.e34),
            e0123: mul_c(self.e01, rhs.e23) + mul_c(self.e0123, rhs.s) - mul_c(self.e0124, rhs.e34) + mul_c(self.e0134, rhs.e24) - mul_c(self.e02, rhs.e13) - mul_c(self.e0234, rhs.e14) + mul_c(self.e03, rhs.e12) - mul_c(self.e04, rhs.e1234) + mul_c(self.e12, rhs.e03) + mul_c(self.e1234, rhs.e04) - mul_c(self.e13, rhs.e02) + mul_c(self.e14, rhs.e0234) + mul_c(self.e23, rhs.e01) - mul_c(self.e24, rhs.e0134) + mul_c(self.e34, rhs.e0124) + mul_c(self.s, rhs.e0123),
            e0124: mul_c(self.e01, rhs.e24) + mul_c(self.e0123, rhs.e34) + mul_c(self.e0124, rhs.s) - mul_c(self.e0134, rhs.e23) - mul_c(self.e02, rhs.e14) + mul_c(self.e0234, rhs.e13) + mul_c(self.e03, rhs.e1234) + mul_c(self.e04, rhs.e12) + mul_c(self.e12, rhs.e04) - mul_c(self.e1234, rhs.e03) - mul_c(self.e13, rhs.e0234) - mul_c(self.e14, rhs.e02) + mul_c(self.e23, rhs.e0134) + mul_c(self.e24, rhs.e01) - mul_c(self.e34, rhs.e0123) + mul_c(self.s, rhs.e0124),
            e0134: mul_c(self.e01, rhs.e34) - mul_c(self.e0123, rhs.e24) + mul_c(self.e0124, rhs.e23) + mul_c(self.e0134, rhs.s) - mul_c(self.e02, rhs.e1234) - mul_c(self.e0234, rhs.e12) - mul_c(self.e03, rhs.e14) + mul_c(self.e04, rhs.e13) + mul_c(self.e12, rhs.e0234) + mul_c(self.e1234, rhs.e02) + mul_c(self.e13, rhs.e04) - mul_c(self.e14, rhs.e03) - mul_c(self.e23, rhs.e0124) + mul_c(self.e24, rhs.e0123) + mul_c(self.e34, rhs.e01) + mul_c(self.s, rhs.e0134),
            e0234: mul_c(self.e01, rhs.e1234) + mul_c(self.e0123, rhs.e14) - mul_c(self.e0124, rhs.e13) + mul_c(self.e0134, rhs.e12) + mul_c(self.e02, rhs.e34) + mul_c(self.e0234, rhs.s) - mul_c(self.e03, rhs.e24) + mul_c(self.e04, rhs.e23) - mul_c(self.e12, rhs.e0134) - mul_c(self.e1234, rhs.e01) + mul_c(self.e13, rhs.e0124) - mul_c(self.e14, rhs.e0123) + mul_c(self.e23, rhs.e04) - mul_c(self.e24, rhs.e03) + mul_c(self.e34, rhs.e02) + mul_c(self.s, rhs.e0234),
            e1234: mul_c(self.e12, rhs.e34) + mul_c(self.e1234, rhs.s) - mul_c(self.e13, rhs.e24) + mul_c(self.e14, rhs.e23) + mul_c(self.e23, rhs.e14) - mul_c(self.e24, rhs.e13) + mul_c(self.e34, rhs.e12) + mul_c(self.s, rhs.e1234),
            den: mul_c(self.den, rhs.den),
        };
        r
    }

    /// The reverse of `self`: the ten bivector coefficients negated. For a
    /// unit rigid motion this is its inverse.
    pub fn reverse(&self) -> (r: Rotor)
        requires
            self@.bounded(0x7fff_ffff_ffff_ffff),
        ensures
            r@ == spec_reverse(self@),
    {
        Rotor {
            s: self.s,
            e01: -self.e01,
            e02: -self.e02,
            e03: -self.e03,
            e04: -self.e04,
            e12: -self.e12,
            e13: -self.e13,
            e14: -self.e14,
            e23: -self.e23,
            e24: -self.e24,
            e34: -self.e34,
            e0123: self.e0123,
            e0124: self.e0124,
            e0134: self.e0134,
            e0234: self.e0234,
            e1234: self.e1234,
            den: self.den,
        }
    }

    /// The squared magnitude `mag2_num / den^2`: the scalar part of
    /// `reverse(self) * self`, a sum of eight squares.
    pub fn magnitude_squared(&self) -> (r: Scalar)
        requires
            self@.bounded(0x2000_0000),
        ensures
            r@.num == spec_mag2_num(self@),
            r@.den == self@.den * self@.den,
            0 <= r@.num,
            1 <= r@.den,
    {
        let num = mul_c(self.e12, self.e12) + mul_c(self.e1234, self.e1234)
            + mul_c(self.e13, self.e13) + mul_c(self.e14, self.e14)
            + mul_c(self.e23, self.e23) + mul_c(self.e24, self.e24)
            + mul_c(self.e34, self.e34) + mul_c(self.s, self.s);
        let den = mul_c(self.den, self.den);
        proof {
            assert(0 <= spec_mag2_num(self@) && 1 <= self@.den * self@.den) by (nonlinear_arith)
                requires
                    spec_mag2_num(self@) == self@.e12 * self@.e12 + self@.e1234 * self@.e1234
                        + self@.e13 * self@.e13 + self@.e14 * self@.e14 + self@.e23 * self@.e23
                        + self@.e24 * self@.e24 + self@.e34 * self@.e34 + self@.s * self@.s,
                    1 <= self@.den;
        }
        Scalar { num, den }
    }

    /// The floor of the magnitude at denominator `den`: returns `r / den`
    /// with `r = isqrt(mag2_num)`, so the true magnitude lies in
    /// `[r / den, (r + 1) / den)`.
    pub fn magnitude(&self) -> (r: Scalar)
        requires
            self@.bounded(0x2000_0000),
        ensures
            r@.den == self@.den,
            0 <= r@.num,
            r@.num * r@.num <= spec_mag2_num(self@),
            spec_mag2_num(self@) < (r@.num + 1) * (r@.num + 1),
    {
        let m = self.magnitude_squared();
        Scalar { num: isqrt(m.num), den: self.den }
    }

    /// Exact normalization. The magnitude is `sqrt(mag2_num) / den`; when
    /// `mag2_num` is a positive perfect square `k^2` the normalized motor is
    /// exactly the same numerators over denominator `k`, and is returned.
    /// Otherwise (including the zero motor, which has no direction) the
    /// magnitude is irrational and no exact normalization exists: `None`.
    pub fn normalized(&self) -> (r: Option<Rotor>)
        requires
            self@.bounded(0x2000_0000),
        ensures
            match r {
                Some(u) => {
                    &&& u@.den * u@.den == spec_mag2_num(self@)
                    &&& 1 <= u@.den
                    &&& u@ == RotorModel { den: u@.den, ..self@ }
                    &&& is_unit(u@)
                },
                None => forall|k: int| 1 <= k ==> #[trigger] (k * k) != spec_mag2_num(self@),
            },
    {
        let m = self.magnitude_squared();
        let k = isqrt(m.num);
        proof {
            assert(0 <= k * k) by (nonlinear_arith)
                requires
                    0 <= k;
        }
        if k >= 1 && k * k == m.num {
            let u = Rotor { den: k, ..*self };
            assert(spec_mag2_num(u@) == spec_mag2_num(self@));
            Some(u)
        } else {
            proof {
                let m0 = spec_mag2_num(self@);
                assert forall|j: int| 1 <= j implies #[trigger] (j * j) != m0 by {
                    if j * j == m0 {
                        assert(j <= k) by (nonlinear_arith)
                            requires
                                1 <= j,
                                0 <= k,
                                j * j == m0,
                                m0 < (k + 1) * (k + 1);
                        assert(j * j <= k * k) by (nonlinear_arith)
                            requires
                                1 <= j <= k;
                        assert(false);
                    }
                }
            }
            None
        }
    }
}

} // verus!
