//! The sandwich transforms: applying a motor to a homogeneous point held as
//! a bare 4-vector with implicit unit weight, and to a direction.
//!
//! `transform` computes the point plus twice a correction built from the
//! motor's coefficients — the grade-4 part of `a P reverse(a)` with the
//! magnitude-proportional part folded so that the identity-shaped motors act
//! as the identity. `transform_direction` is the same formula restricted to
//! the rotation coefficients (`s`, `e12..e34`, `e1234`), so translations
//! leave directions untouched.

use vstd::prelude::*;

use crate::arith::mul_t;
use crate::arith::mul_w;
use crate::rotor::Rotor;
use crate::rotor::RotorModel;

verus! {

/// A rational 4-vector: `[x, y, z, w] / den`. It serves both as a
/// homogeneous point with implicit unit weight and as a direction.
#[derive(Clone, Copy, Debug, PartialEq, Eq, Structural)]
pub struct Vec4 {
    pub x: i64,
    pub y: i64,
    pub z: i64,
    pub w: i64,
    pub den: i64,
}

/// The mathematical value of a `Vec4`.
pub ghost struct Vec4Model {
    pub x: int,
    pub y: int,
    pub z: int,
    pub w: int,
    pub den: int,
}

impl View for Vec4 {
    type V = Vec4Model;

    open spec fn view(&self) -> Vec4Model {
        Vec4Model {
            x: self.x as int,
            y: self.y as int,
            z: self.z as int,
            w: self.w as int,
            den: self.den as int,
        }
    }
}

impl Vec4Model {
    /// Every numerator lies in `[-b, b]` and the denominator in `[1, b]`.
    pub open spec fn bounded(self, b: int) -> bool {
        &&& -b <= self.x <= b
        &&& -b <= self.y <= b
        &&& -b <= self.z <= b
        &&& -b <= self.w <= b
        &&& 1 <= self.den <= b
    }
}

/// Two rational 4-vectors denote the same value: all four coordinates agree
/// after cross-multiplying the denominators.
pub open spec fn vec4_eq(u: Vec4Model, v: Vec4Model) -> bool {
    &&& u.x * v.den == v.x * u.den
    &&& u.y * v.den == v.y * u.den
    &&& u.z * v.den == v.z * u.den
    &&& u.w * v.den == v.w * u.den
}

/// The point transform: coordinate numerators over `a.den^2 * p.den`. Each
/// output is the input coordinate plus twice a correction bilinear in the
/// motor and linear in the point.
pub open spec fn spec_transform_point(a: RotorModel, p: Vec4Model) -> Vec4Model {
    Vec4Model {
        x: a.den * a.den * p.x + 2 * ((a.e01 * a.e14 + a.e0123 * a.e1234 - a.e0124 * a.e12 - a.e0134 * a.e13 + a.e02 * a.e24 - a.e0234 * a.e23 + a.e03 * a.e34 - a.e04 * a.s) * p.den) + 2 * (a.e12 * a.e1234 * p.y - a.e12 * a.e14 * p.z - a.e12 * a.e24 * p.w - a.e1234 * a.e1234 * p.x + a.e1234 * a.e13 * p.z + a.e1234 * a.e23 * p.w + a.e13 * a.e14 * p.y - a.e13 * a.e34 * p.w - a.e14 * a.e14 * p.x + a.e14 * a.s * p.w + a.e23 * a.e24 * p.y + a.e23 * a.e34 * p.z - a.e24 * a.e24 * p.x - a.e24 * a.s * p.z - a.e34 * a.e34 * p.x + a.e34 * a.s * p.y),
        y: a.den * a.den * p.y + 2 * ((-(a.e01 * a.e13) + a.e0123 * a.e12 + a.e0124 * a.e1234 - a.e0134 * a.e14 - a.e02 * a.e23 - a.e0234 * a.e24 + a.e03 * a.s + a.e04 * a.e34) * p.den) + 2 * (-(a.e12 * a.e1234 * p.x) + a.e12 * a.e13 * p.z + a.e12 * a.e23 * p.w - a.e1234 * a.e1234 * p.y + a.e1234 * a.e14 * p.z + a.e1234 * a.e24 * p.w - a.e13 * a.e13 * p.y + a.e13 * a.e14 * p.x - a.e13 * a.s * p.w - a.e14 * a.e34 * p.w - a.e23 * a.e23 * p.y + a.e23 * a.e24 * p.x + a.e23 * a.s * p.z + a.e24 * a.e34 * p.z - a.e34 * a.e34 * p.y - a.e34 * a.s * p.x),
        z: a.den * a.den * p.z + 2 * ((a.e01 * a.e12 + a.e0123 * a.e13 + a.e0124 * a.e14 + a.e0134 * a.e1234 - a.e02 * a.s - a.e0234 * a.e34 - a.e03 * a.e23 - a.e04 * a.e24) * p.den) + 2 * (-(a.e12 * a.e12 * p.z) + a.e12 * a.e13 * p.y - a.e12 * a.e14 * p.x + a.e12 * a.s * p.w - a.e1234 * a.e1234 * p.z - a.e1234 * a.e13 * p.x - a.e1234 * a.e14 * p.y + a.e1234 * a.e34 * p.w + a.e13 * a.e23 * p.w + a.e14 * a.e24 * p.w - a.e23 * a.e23 * p.z + a.e23 * a.e34 * p.x - a.e23 * a.s * p.y - a.e24 * a.e24 * p.z + a.e24 * a.e34 * p.y + a.e24 * a.s * p.x),
        w: a.den * a.den * p.w + 2 * ((a.e01 * a.s + a.e0123 * a.e23 + a.e0124 * a.e24 + a.e0134 * a.e34 + a.e02 * a.e12 + a.e0234 * a.e1234 + a.e03 * a.e13 + a.e04 * a.e14) * p.den) + 2 * (-(a.e12 * a.e12 * p.w) + a.e12 * a.e23 * p.y - a.e12 * a.e24 * p.x - a.e12 * a.s * p.z - a.e1234 * a.e1234 * p.w - a.e1234 * a.e23 * p.x - a.e1234 * a.e24 * p.y - a.e1234 * a.e34 * p.z - a.e13 * a.e13 * p.w + a.e13 * a.e23 * p.z - a.e13 * a.e34 * p.x + a.e13 * a.s * p.y - a.e14 * a.e14 * p.w + a.e14 * a.e24 * p.z - a.e14 * a.e34 * p.y - a.e14 * a.s * p.x),
        den: a.den * a.den * p.den,
    }
}

/// The direction transform: the same sandwich restricted to the rotation
/// coefficients, so the four `e0i` and four `e0ijk` coefficients of the
/// motor do not appear.
pub open spec fn spec_transform_direction(a: RotorModel, p: Vec4Model) -> Vec4Model {
    Vec4Model {
        x: a.den * a.den * p.x + 2 * (a.e12 * a.e1234 * p.y - a.e12 * a.e14 * p.z - a.e12 * a.e24 * p.w - a.e1234 * a.e1234 * p.x + a.e1234 * a.e13 * p.z + a.e1234 * a.e23 * p.w + a.e13 * a.e14 * p.y - a.e13 * a.e34 * p.w - a.e14 * a.e14 * p.x + a.e14 * a.s * p.w + a.e23 * a.e24 * p.y + a.e23 * a.e34 * p.z - a.e24 * a.e24 * p.x - a.e24 * a.s * p.z - a.e34 * a.e34 * p.x + a.e34 * a.s * p.y),
        y: a.den * a.den * p.y + 2 * (-(a.e12 * a.e1234 * p.x) + a.e12 * a.e13 * p.z + a.e12 * a.e23 * p.w - a.e1234 * a.e1234 * p.y + a.e1234 * a.e14 * p.z + a.e1234 * a.e24 * p.w - a.e13 * a.e13 * p.y + a.e13 * a.e14 * p.x - a.e13 * a.s * p.w - a.e14 * a.e34 * p.w - a.e23 * a.e23 * p.y + a.e23 * a.e24 * p.x + a.e23 * a.s * p.z + a.e24 * a.e34 * p.z - a.e34 * a.e34 * p.y - a.e34 * a.s * p.x),
        z: a.den * a.den * p.z + 2 * (-(a.e12 * a.e12 * p.z) + a.e12 * a.e13 * p.y - a.e12 * a.e14 * p.x + a.e12 * a.s * p.w - a.e1234 * a.e1234 * p.z - a.e1234 * a.e13 * p.x - a.e1234 * a.e14 * p.y + a.e1234 * a.e34 * p.w + a.e13 * a.e23 * p.w + a.e14 * a.e24 * p.w - a.e23 * a.e23 * p.z + a.e23 * a.e34 * p.x - a.e23 * a.s * p.y - a.e24 * a.e24 * p.z + a.e24 * a.e34 * p.y + a.e24 * a.s * p.x),
        w: a.den * a.den * p.w + 2 * (-(a.e12 * a.e12 * p.w) + a.e12 * a.e23 * p.y - a.e12 * a.e24 * p.x - a.e12 * a.s * p.z - a.e1234 * a.e1234 * p.w - a.e1234 * a.e23 * p.x - a.e1234 * a.e24 * p.y - a.e1234 * a.e34 * p.z - a.e13 * a.e13 * p.w + a.e13 * a.e23 * p.z - a.e13 * a.e34 * p.x + a.e13 * a.s * p.y - a.e14 * a.e14 * p.w + a.e14 * a.e24 * p.z - a.e14 * a.e34 * p.y - a.e14 * a.s * p.x),
        den: a.den * a.den * p.den,
    }
}

impl Vec4 {
    /// The vector `[x, y, z, w] / den`.
    pub fn new(x: i64, y: i64, z: i64, w: i64, den: i64) -> (r: Vec4)
        requires
            1 <= den,
        ensures
            r@ == (Vec4Model {
                x: x as int,
                y: y as int,
                z: z as int,
                w: w as int,
                den: den as int,
            }),
    {
        Vec4 { x, y, z, w, den }
    }
}

impl Rotor {
    /// Apply this motor to a homogeneous point with implicit unit weight,
    /// returning the transformed point, exactly.
    pub fn transform(&self, p: &Vec4) -> (r: Vec4)
        requires
            self@.bounded(0x8000),
            p@.bounded(0x8000),
        ensures
            r@ == spec_transform_point(self@, p@),
            1 <= r@.den,
    {
        proof {
            assert(1 <= self@.den * self@.den * p@.den
                && self@.den * self@.den <= 0x20_0000_0000) by (nonlinear_arith)
                requires
                    1 <= self@.den <= 0x8000,
                    1 <= p@.den;
        }
        let dd = mul_t(self.den, self.den);
        let q_x = mul_t(self.e01, self.e14) + mul_t(self.e0123, self.e1234) - mul_t(self.e0124, self.e12) - mul_t(self.e0134, self.e13) + mul_t(self.e02, self.e24) - mul_t(self.e0234, self.e23) + mul_t(self.e03, self.e34) - mul_t(self.e04, self.s);
        let r_x = mul_w(mul_t(self.e12, self.e1234), p.y) - mul_w(mul_t(self.e12, self.e14), p.z) - mul_w(mul_t(self.e12, self.e24), p.w) - mul_w(mul_t(self.e1234, self.e1234), p.x) + mul_w(mul_t(self.e1234, self.e13), p.z) + mul_w(mul_t(self.e1234, self.e23), p.w) + mul_w(mul_t(self.e13, self.e14), p.y) - mul_w(mul_t(self.e13, self.e34), p.w) - mul_w(mul_t(self.e14, self.e14), p.x) + mul_w(mul_t(self.e14, self.s), p.w) + mul_w(mul_t(self.e23, self.e24), p.y) + mul_w(mul_t(self.e23, self.e34), p.z) - mul_w(mul_t(self.e24, self.e24), p.x) - mul_w(mul_t(self.e24, self.s), p.z) - mul_w(mul_t(self.e34, self.e34), p.x) + mul_w(mul_t(self.e34, self.s), p.y);
        let q_y = -(mul_t(self.e01, self.e13)) + mul_t(self.e0123, self.e12) + mul_t(self.e0124, self.e1234) - mul_t(self.e0134, self.e14) - mul_t(self.e02, self.e23) - mul_t(self.e0234, self.e24) + mul_t(self.e03, self.s) + mul_t(self.e04, self.e34);
        let r_y = -(mul_w(mul_t(self.e12, self.e1234), p.x)) + mul_w(mul_t(self.e12, self.e13), p.z) + mul_w(mul_t(self.e12, self.e23), p.w) - mul_w(mul_t(self.e1234, self.e1234), p.y) + mul_w(mul_t(self.e1234, self.e14), p.z) + mul_w(mul_t(self.e1234, self.e24), p.w) - mul_w(mul_t(self.e13, self.e13), p.y) + mul_w(mul_t(self.e13, self.e14), p.x) - mul_w(mul_t(self.e13, self.s), p.w) - mul_w(mul_t(self.e14, self.e34), p.w) - mul_w(mul_t(self.e23, self.e23), p.y) + mul_w(mul_t(self.e23, self.e24), p.x) + mul_w(mul_t(self.e23, self.s), p.z) + mul_w(mul_t(self.e24, self.e34), p.z) - mul_w(mul_t(self.e34, self.e34), p.y) - mul_w(mul_t(self.e34, self.s), p.x);
        let q_z = mul_t(self.e01, self.e12) + mul_t(self.e0123, self.e13) + mul_t(self.e0124, self.e14) + mul_t(self.e0134, self.e1234) - mul_t(self.e02, self.s) - mul_t(self.e0234, self.e34) - mul_t(self.e03, self.e23) - mul_t(self.e04, self.e24);
        let r_z = -(mul_w(mul_t(self.e12, self.e12), p.z)) + mul_w(mul_t(self.e12, self.e13), p.y) - mul_w(mul_t(self.e12, self.e14), p.x) + mul_w(mul_t(self.e12, self.s), p.w) - mul_w(mul_t(self.e1234, self.e1234), p.z) - mul_w(mul_t(self.e1234, self.e13), p.x) - mul_w(mul_t(self.e1234, self.e14), p.y) + mul_w(mul_t(self.e1234, self.e34), p.w) + mul_w(mul_t(self.e13, self.e23), p.w) + mul_w(mul_t(self.e14, self.e24), p.w) - mul_w(mul_t(self.e23, self.e23), p.z) + mul_w(mul_t(self.e23, self.e34), p.x) - mul_w(mul_t(self.e23, self.s), p.y) - mul_w(mul_t(self.e24, self.e24), p.z) + mul_w(mul_t(self.e24, self.e34), p.y) + mul_w(mul_t(self.e24, self.s), p.x);
        let q_w = mul_t(self.e01, self.s) + mul_t(self.e0123, self.e23) + mul_t(self.e0124, self.e24) + mul_t(self.e0134, self.e34) + mul_t(self.e02, self.e12) + mul_t(self.e0234, self.e1234) + mul_t(self.e03, self.e13) + mul_t(self.e04, self.e14);
        let r_w = -(mul_w(mul_t(self.e12, self.e12), p.w)) + mul_w(mul_t(self.e12, self.e23), p.y) - mul_w(mul_t(self.e12, self.e24), p.x) - mul_w(mul_t(self.e12, self.s), p.z) - mul_w(mul_t(self.e1234, self.e1234), p.w) - mul_w(mul_t(self.e1234, self.e23), p.x) - mul_w(mul_t(self.e1234, self.e24), p.y) - mul_w(mul_t(self.e1234, self.e34), p.z) - mul_w(mul_t(self.e13, self.e13), p.w) + mul_w(mul_t(self.e13, self.e23), p.z) - mul_w(mul_t(self.e13, self.e34), p.x) + mul_w(mul_t(self.e13, self.s), p.y) - mul_w(mul_t(self.e14, self.e14), p.w) + mul_w(mul_t(self.e14, self.e24), p.z) - mul_w(mul_t(self.e14, self.e34), p.y) - mul_w(mul_t(self.e14, self.s), p.x);
        let r = Vec4 {
            x: mul_w(dd, p.x) + 2 * mul_w(q_x, p.den) + 2 * r_x,
            y: mul_w(dd, p.y) + 2 * mul_w(q_y, p.den) + 2 * r_y,
            z: mul_w(dd, p.z) + 2 * mul_w(q_z, p.den) + 2 * r_z,
            w: mul_w(dd, p.w) + 2 * mul_w(q_w, p.den) + 2 * r_w,
            den: mul_w(dd, p.den),
        };
        r
    }

    /// Apply only the rotational action of this motor to a direction,
    /// exactly. Translation coefficients play no part.
    pub fn transform_direction(&self, p: &Vec4) -> (r: Vec4)
        requires
            self@.bounded(0x8000),
            p@.bounded(0x8000),
        ensures
            r@ == spec_transform_direction(self@, p@),
            1 <= r@.den,
    {
        proof {
            assert(1 <= self@.den * self@.den * p@.den
                && self@.den * self@.den <= 0x20_0000_0000) by (nonlinear_arith)
                requires
                    1 <= self@.den <= 0x8000,
                    1 <= p@.den;
        }
        let dd = mul_t(self.den, self.den);
        let r_x = mul_w(mul_t(self.e12, self.e1234), p.y) - mul_w(mul_t(self.e12, self.e14), p.z) - mul_w(mul_t(self.e12, self.e24), p.w) - mul_w(mul_t(self.e1234, self.e1234), p.x) + mul_w(mul_t(self.e1234, self.e13), p.z) + mul_w(mul_t(self.e1234, self.e23), p.w) + mul_w(mul_t(self.e13, self.e14), p.y) - mul_w(mul_t(self.e13, self.e34), p.w) - mul_w(mul_t(self.e14, self.e14), p.x) + mul_w(mul_t(self.e14, self.s), p.w) + mul_w(mul_t(self.e23, self.e24), p.y) + mul_w(mul_t(self.e23, self.e34), p.z) - mul_w(mul_t(self.e24, self.e24), p.x) - mul_w(mul_t(self.e24, self.s), p.z) - mul_w(mul_t(self.e34, self.e34), p.x) + mul_w(mul_t(self.e34, self.s), p.y);
        let r_y = -(mul_w(mul_t(self.e12, self.e1234), p.x)) + mul_w(mul_t(self.e12, self.e13), p.z) + mul_w(mul_t(self.e12, self.e23), p.w) - mul_w(mul_t(self.e1234, self.e1234), p.y) + mul_w(mul_t(self.e1234, self.e14), p.z) + mul_w(mul_t(self.e1234, self.e24), p.w) - mul_w(mul_t(self.e13, self.e13), p.y) + mul_w(mul_t(self.e13, self.e14), p.x) - mul_w(mul_t(self.e13, self.s), p.w) - mul_w(mul_t(self.e14, self.e34), p.w) - mul_w(mul_t(self.e23, self.e23), p.y) + mul_w(mul_t(self.e23, self.e24), p.x) + mul_w(mul_t(self.e23, self.s), p.z) + mul_w(mul_t(self.e24, self.e34), p.z) - mul_w(mul_t(self.e34, self.e34), p.y) - mul_w(mul_t(self.e34, self.s), p.x);
        let r_z = -(mul_w(mul_t(self.e12, self.e12), p.z)) + mul_w(mul_t(self.e12, self.e13), p.y) - mul_w(mul_t(self.e12, self.e14), p.x) + mul_w(mul_t(self.e12, self.s), p.w) - mul_w(mul_t(self.e1234, self.e1234), p.z) - mul_w(mul_t(self.e1234, self.e13), p.x) - mul_w(mul_t(self.e1234, self.e14), p.y) + mul_w(mul_t(self.e1234, self.e34), p.w) + mul_w(mul_t(self.e13, self.e23), p.w) + mul_w(mul_t(self.e14, self.e24), p.w) - mul_w(mul_t(self.e23, self.e23), p.z) + mul_w(mul_t(self.e23, self.e34), p.x) - mul_w(mul_t(self.e23, self.s), p.y) - mul_w(mul_t(self.e24, self.e24), p.z) + mul_w(mul_t(self.e24, self.e34), p.y) + mul_w(mul_t(self.e24, self.s), p.x);
        let r_w = -(mul_w(mul_t(self.e12, self.e12), p.w)) + mul_w(mul_t(self.e12, self.e23), p.y) - mul_w(mul_t(self.e12, self.e24), p.x) - mul_w(mul_t(self.e12, self.s), p.z) - mul_w(mul_t(self.e1234, self.e1234), p.w) - mul_w(mul_t(self.e1234, self.e23), p.x) - mul_w(mul_t(self.e1234, self.e24), p.y) - mul_w(mul_t(self.e1234, self.e34), p.z) - mul_w(mul_t(self.e13, self.e13), p.w) + mul_w(mul_t(self.e13, self.e23), p.z) - mul_w(mul_t(self.e13, self.e34), p.x) + mul_w(mul_t(self.e13, self.s), p.y) - mul_w(mul_t(self.e14, self.e14), p.w) + mul_w(mul_t(self.e14, self.e24), p.z) - mul_w(mul_t(self.e14, self.e34), p.y) - mul_w(mul_t(self.e14, self.s), p.x);
        let r = Vec4 {
            x: mul_w(dd, p.x) + 2 * r_x,
            y: mul_w(dd, p.y) + 2 * r_y,
            z: mul_w(dd, p.z) + 2 * r_z,
            w: mul_w(dd, p.w) + 2 * r_w,
            den: mul_w(dd, p.den),
        };
        r
    }
}

} // verus!
