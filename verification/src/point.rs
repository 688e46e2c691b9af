//! The five-coefficient homogeneous point (grade-4 element) and its own
//! transform: the full sandwich `a P reverse(a)`, which honors the weight.
//!
//! The weight coefficient `e1234` of the result is the input weight scaled
//! by the motor's squared magnitude, so a unit motor preserves weight; the
//! bare 4-vector transform is this formula specialized to weight one with
//! the magnitude part folded away.

use vstd::prelude::*;

use crate::arith::mul_t;
use crate::arith::mul_w;
use crate::rotor::Rotor;
use crate::rotor::RotorModel;
use crate::rotor::spec_mag2_num;
use crate::transform::Vec4Model;
use crate::transform::spec_transform_point;

verus! {

/// A homogeneous point: the five grade-4 coefficients over `den`, with
/// `e1234` acting as the weight. Cartesian coordinates are recovered by
/// dividing the first four coefficients by the weight.
#[derive(Clone, Copy, Debug, PartialEq, Eq, Structural)]
pub struct Point {
    pub e0123: i64,
    pub e0124: i64,
    pub e0134: i64,
    pub e0234: i64,
    pub e1234: i64,
    pub den: i64,
}

/// The mathematical value of a `Point`.
pub ghost struct PointModel {
    pub e0123: int,
    pub e0124: int,
    pub e0134: int,
    pub e0234: int,
    pub e1234: int,
    pub den: int,
}

impl View for Point {
    type V = PointModel;

    open spec fn view(&self) -> PointModel {
        PointModel {
            e0123: self.e0123 as int,
            e0124: self.e0124 as int,
            e0134: self.e0134 as int,
            e0234: self.e0234 as int,
            e1234: self.e1234 as int,
            den: self.den as int,
        }
    }
}

impl PointModel {
    /// Every numerator lies in `[-b, b]` and the denominator in `[1, b]`.
    pub open spec fn bounded(self, b: int) -> bool {
        &&& -b <= self.e0123 <= b
        &&& -b <= self.e0124 <= b
        &&& -b <= self.e0134 <= b
        &&& -b <= self.e0234 <= b
        &&& -b <= self.e1234 <= b
        &&& 1 <= self.den <= b
    }
}

/// The full sandwich `a P reverse(a)` of a grade-4 point: every output
/// coefficient is bilinear in the motor and linear in the point, and the
/// weight comes out as `mag2_num(a) * weight`, over `a.den^2 * p.den`.
pub open spec fn spec_point_transform(a: RotorModel, p: PointModel) -> PointModel {
    PointModel {
        e0123: 2 * (a.e01 * a.e14 * p.e1234) + 2 * (a.e0123 * a.e1234 * p.e1234) - 2 * (a.e0124 * a.e12 * p.e1234) - 2 * (a.e0134 * a.e13 * p.e1234) + 2 * (a.e02 * a.e24 * p.e1234) - 2 * (a.e0234 * a.e23 * p.e1234) + 2 * (a.e03 * a.e34 * p.e1234) - 2 * (a.e04 * a.s * p.e1234) + a.e12 * a.e12 * p.e0123 + 2 * (a.e12 * a.e1234 * p.e0124) - 2 * (a.e12 * a.e14 * p.e0134) - 2 * (a.e12 * a.e24 * p.e0234) - a.e1234 * a.e1234 * p.e0123 + 2 * (a.e1234 * a.e13 * p.e0134) + 2 * (a.e1234 * a.e23 * p.e0234) + a.e13 * a.e13 * p.e0123 + 2 * (a.e13 * a.e14 * p.e0124) - 2 * (a.e13 * a.e34 * p.e0234) - a.e14 * a.e14 * p.e0123 + 2 * (a.e14 * a.s * p.e0234) + a.e23 * a.e23 * p.e0123 + 2 * (a.e23 * a.e24 * p.e0124) + 2 * (a.e23 * a.e34 * p.e0134) - a.e24 * a.e24 * p.e0123 - 2 * (a.e24 * a.s * p.e0134) - a.e34 * a.e34 * p.e0123 + 2 * (a.e34 * a.s * p.e0124) + a.s * a.s * p.e0123,
        e0124: -(2 * (a.e01 * a.e13 * p.e1234)) + 2 * (a.e0123 * a.e12 * p.e1234) + 2 * (a.e0124 * a.e1234 * p.e1234) - 2 * (a.e0134 * a.e14 * p.e1234) - 2 * (a.e02 * a.e23 * p.e1234) - 2 * (a.e0234 * a.e24 * p.e1234) + 2 * (a.e03 * a.s * p.e1234) + 2 * (a.e04 * a.e34 * p.e1234) + a.e12 * a.e12 * p.e0124 - 2 * (a.e12 * a.e1234 * p.e0123) + 2 * (a.e12 * a.e13 * p.e0134) + 2 * (a.e12 * a.e23 * p.e0234) - a.e1234 * a.e1234 * p.e0124 + 2 * (a.e1234 * a.e14 * p.e0134) + 2 * (a.e1234 * a.e24 * p.e0234) - a.e13 * a.e13 * p.e0124 + 2 * (a.e13 * a.e14 * p.e0123) - 2 * (a.e13 * a.s * p.e0234) + a.e14 * a.e14 * p.e0124 - 2 * (a.e14 * a.e34 * p.e0234) - a.e23 * a.e23 * p.e0124 + 2 * (a.e23 * a.e24 * p.e0123) + 2 * (a.e23 * a.s * p.e0134) + a.e24 * a.e24 * p.e0124 + 2 * (a.e24 * a.e34 * p.e0134) - a.e34 * a.e34 * p.e0124 - 2 * (a.e34 * a.s * p.e0123) + a.s * a.s * p.e0124,
        e0134: 2 * (a.e01 * a.e12 * p.e1234) + 2 * (a.e0123 * a.e13 * p.e1234) + 2 * (a.e0124 * a.e14 * p.e1234) + 2 * (a.e0134 * a.e1234 * p.e1234) - 2 * (a.e02 * a.s * p.e1234) - 2 * (a.e0234 * a.e34 * p.e1234) - 2 * (a.e03 * a.e23 * p.e1234) - 2 * (a.e04 * a.e24 * p.e1234) - a.e12 * a.e12 * p.e0134 + 2 * (a.e12 * a.e13 * p.e0124) - 2 * (a.e12 * a.e14 * p.e0123) + 2 * (a.e12 * a.s * p.e0234) - a.e1234 * a.e1234 * p.e0134 - 2 * (a.e1234 * a.e13 * p.e0123) - 2 * (a.e1234 * a.e14 * p.e0124) + 2 * (a.e1234 * a.e34 * p.e0234) + a.e13 * a.e13 * p.e0134 + 2 * (a.e13 * a.e23 * p.e0234) + a.e14 * a.e14 * p.e0134 + 2 * (a.e14 * a.e24 * p.e0234) - a.e23 * a.e23 * p.e0134 + 2 * (a.e23 * a.e34 * p.e0123) - 2 * (a.e23 * a.s * p.e0124) - a.e24 * a.e24 * p.e0134 + 2 * (a.e24 * a.e34 * p.e0124) + 2 * (a.e24 * a.s * p.e0123) + a.e34 * a.e34 * p.e0134 + a.s * a.s * p.e0134,
        e0234: 2 * (a.e01 * a.s * p.e1234) + 2 * (a.e0123 * a.e23 * p.e1234) + 2 * (a.e0124 * a.e24 * p.e1234) + 2 * (a.e0134 * a.e34 * p.e1234) + 2 * (a.e02 * a.e12 * p.e1234) + 2 * (a.e0234 * a.e1234 * p.e1234) + 2 * (a.e03 * a.e13 * p.e1234) + 2 * (a.e04 * a.e14 * p.e1234) - a.e12 * a.e12 * p.e0234 + 2 * (a.e12 * a.e23 * p.e0124) - 2 * (a.e12 * a.e24 * p.e0123) - 2 * (a.e12 * a.s * p.e0134) - a.e1234 * a.e1234 * p.e0234 - 2 * (a.e1234 * a.e23 * p.e0123) - 2 * (a.e1234 * a.e24 * p.e0124) - 2 * (a.e1234 * a.e34 * p.e0134) - a.e13 * a.e13 * p.e0234 + 2 * (a.e13 * a.e23 * p.e0134) - 2 * (a.e13 * a.e34 * p.e0123) + 2 * (a.e13 * a.s * p.e0124) - a.e14 * a.e14 * p.e0234 + 2 * (a.e14 * a.e24 * p.e0134) - 2 * (a.e14 * a.e34 * p.e0124) - 2 * (a.e14 * a.s * p.e0123) + a.e23 * a.e23 * p.e0234 + a.e24 * a.e24 * p.e0234 + a.e34 * a.e34 * p.e0234 + a.s * a.s * p.e0234,
        e1234: a.e12 * a.e12 * p.e1234 + a.e1234 * a.e1234 * p.e1234 + a.e13 * a.e13 * p.e1234 + a.e14 * a.e14 * p.e1234 + a.e23 * a.e23 * p.e1234 + a.e24 * a.e24 * p.e1234 + a.e34 * a.e34 * p.e1234 + a.s * a.s * p.e1234,
        den: a.den * a.den * p.den,
    }
}

impl Point {
    /// The origin: zero in every position, weight one.
    pub fn identity() -> (r: Point)
        ensures
            r@ == (PointModel { e0123: 0, e0124: 0, e0134: 0, e0234: 0, e1234: 1, den: 1 }),
    {
        Point { e0123: 0, e0124: 0, e0134: 0, e0234: 0, e1234: 1, den: 1 }
    }

    /// The point with Cartesian coordinates `(x, y, z, w) / den` and weight
    /// exactly one.
    pub fn from_cartesian(x: i64, y: i64, z: i64, w: i64, den: i64) -> (r: Point)
        requires
            1 <= den,
        ensures
            r@ == (PointModel {
                e0123: x as int,
                e0124: y as int,
                e0134: z as int,
                e0234: w as int,
                e1234: den as int,
                den: den as int,
            }),
    {
        Point { e0123: x, e0124: y, e0134: z, e0234: w, e1234: den, den }
    }

    /// Apply a motor to this point through the full sandwich product,
    /// exactly. The weight is carried through and scales by the motor's
    /// squared magnitude, so unit motors preserve it.
    #[verifier::rlimit(100)]
    pub fn transform(self, rotor: Rotor) -> (r: Point)
        requires
            rotor@.bounded(0x8000),
            self@.bounded(0x8000),
        ensures
            r@ == spec_point_transform(rotor@, self@),
            1 <= r@.den,
    {
        let p = self;
        proof {
            assert(1 <= rotor@.den * rotor@.den * p@.den
                && rotor@.den * rotor@.den <= 0x20_0000_0000) by (nonlinear_arith)
                requires
                    1 <= rotor@.den <= 0x8000,
                    1 <= p@.den;
        }
        let dd = mul_t(rotor.den, rotor.den);
        let t_e0123 = 2 * (mul_w(mul_t(rotor.e01, rotor.e14), p.e1234)) + 2 * (mul_w(mul_t(rotor.e0123, rotor.e1234), p.e1234)) - 2 * (mul_w(mul_t(rotor.e0124, rotor.e12), p.e1234)) - 2 * (mul_w(mul_t(rotor.e0134, rotor.e13), p.e1234)) + 2 * (mul_w(mul_t(rotor.e02, rotor.e24), p.e1234)) - 2 * (mul_w(mul_t(rotor.e0234, rotor.e23), p.e1234)) + 2 * (mul_w(mul_t(rotor.e03, rotor.e34), p.e1234)) - 2 * (mul_w(mul_t(rotor.e04, rotor.s), p.e1234)) + mul_w(mul_t(rotor.e12, rotor.e12), p.e0123) + 2 * (mul_w(mul_t(rotor.e12, rotor.e1234), p.e0124)) - 2 * (mul_w(mul_t(rotor.e12, rotor.e14), p.e0134)) - 2 * (mul_w(mul_t(rotor.e12, rotor.e24), p.e0234)) - mul_w(mul_t(rotor.e1234, rotor.e1234), p.e0123) + 2 * (mul_w(mul_t(rotor.e1234, rotor.e13), p.e0134)) + 2 * (mul_w(mul_t(rotor.e1234, rotor.e23), p.e0234)) + mul_w(mul_t(rotor.e13, rotor.e13), p.e0123) + 2 * (mul_w(mul_t(rotor.e13, rotor.e14), p.e0124)) - 2 * (mul_w(mul_t(rotor.e13, rotor.e34), p.e0234)) - mul_w(mul_t(rotor.e14, rotor.e14), p.e0123) + 2 * (mul_w(mul_t(rotor.e14, rotor.s), p.e0234)) + mul_w(mul_t(rotor.e23, rotor.e23), p.e0123) + 2 * (mul_w(mul_t(rotor.e23, rotor.e24), p.e0124)) + 2 * (mul_w(mul_t(rotor.e23, rotor.e34), p.e0134)) - mul_w(mul_t(rotor.e24, rotor.e24), p.e0123) - 2 * (mul_w(mul_t(rotor.e24, rotor.s), p.e0134)) - mul_w(mul_t(rotor.e34, rotor.e34), p.e0123) + 2 * (mul_w(mul_t(rotor.e34, rotor.s), p.e0124)) + mul_w(mul_t(rotor.s, rotor.s), p.e0123);
        let t_e0124 = -(2 * (mul_w(mul_t(rotor.e01, rotor.e13), p.e1234))) + 2 * (mul_w(mul_t(rotor.e0123, rotor.e12), p.e1234)) + 2 * (mul_w(mul_t(rotor.e0124, rotor.e1234), p.e1234)) - 2 * (mul_w(mul_t(rotor.e0134, rotor.e14), p.e1234)) - 2 * (mul_w(mul_t(rotor.e02, rotor.e23), p.e1234)) - 2 * (mul_w(mul_t(rotor.e0234, rotor.e24), p.e1234)) + 2 * (mul_w(mul_t(rotor.e03, rotor.s), p.e1234)) + 2 * (mul_w(mul_t(rotor.e04, rotor.e34), p.e1234)) + mul_w(mul_t(rotor.e12, rotor.e12), p.e0124) - 2 * (mul_w(mul_t(rotor.e12, rotor.e1234), p.e0123)) + 2 * (mul_w(mul_t(rotor.e12, rotor.e13), p.e0134)) + 2 * (mul_w(mul_t(rotor.e12, rotor.e23), p.e0234)) - mul_w(mul_t(rotor.e1234, rotor.e1234), p.e0124) + 2 * (mul_w(mul_t(rotor.e1234, rotor.e14), p.e0134)) + 2 * (mul_w(mul_t(rotor.e1234, rotor.e24), p.e0234)) - mul_w(mul_t(rotor.e13, rotor.e13), p.e0124) + 2 * (mul_w(mul_t(rotor.e13, rotor.e14), p.e0123)) - 2 * (mul_w(mul_t(rotor.e13, rotor.s), p.e0234)) + mul_w(mul_t(rotor.e14, rotor.e14), p.e0124) - 2 * (mul_w(mul_t(rotor.e14, rotor.e34), p.e0234)) - mul_w(mul_t(rotor.e23, rotor.e23), p.e0124) + 2 * (mul_w(mul_t(rotor.e23, rotor.e24), p.e0123)) + 2 * (mul_w(mul_t(rotor.e23, rotor.s), p.e0134)) + mul_w(mul_t(rotor.e24, rotor.e24), p.e0124) + 2 * (mul_w(mul_t(rotor.e24, rotor.e34), p.e0134)) - mul_w(mul_t(rotor.e34, rotor.e34), p.e0124) - 2 * (mul_w(mul_t(rotor.e34, rotor.s), p.e0123)) + mul_w(mul_t(rotor.s, rotor.s), p.e0124);
        let t_e0134 = 2 * (mul_w(mul_t(rotor.e01, rotor.e12), p.e1234)) + 2 * (mul_w(mul_t(rotor.e0123, rotor.e13), p.e1234)) + 2 * (mul_w(mul_t(rotor.e0124, rotor.e14), p.e1234)) + 2 * (mul_w(mul_t(rotor.e0134, rotor.e1234), p.e1234)) - 2 * (mul_w(mul_t(rotor.e02, rotor.s), p.e1234)) - 2 * (mul_w(mul_t(rotor.e0234, rotor.e34), p.e1234)) - 2 * (mul_w(mul_t(rotor.e03, rotor.e23), p.e1234)) - 2 * (mul_w(mul_t(rotor.e04, rotor.e24), p.e1234)) - mul_w(mul_t(rotor.e12, rotor.e12), p.e0134) + 2 * (mul_w(mul_t(rotor.e12, rotor.e13), p.e0124)) - 2 * (mul_w(mul_t(rotor.e12, rotor.e14), p.e0123)) + 2 * (mul_w(mul_t(rotor.e12, rotor.s), p.e0234)) - mul_w(mul_t(rotor.e1234, rotor.e1234), p.e0134) - 2 * (mul_w(mul_t(rotor.e1234, rotor.e13), p.e0123)) - 2 * (mul_w(mul_t(rotor.e1234, rotor.e14), p.e0124)) + 2 * (mul_w(mul_t(rotor.e1234, rotor.e34), p.e0234)) + mul_w(mul_t(rotor.e13, rotor.e13), p.e0134) + 2 * (mul_w(mul_t(rotor.e13, rotor.e23), p.e0234)) + mul_w(mul_t(rotor.e14, rotor.e14), p.e0134) + 2 * (mul_w(mul_t(rotor.e14, rotor.e24), p.e0234)) - mul_w(mul_t(rotor.e23, rotor.e23), p.e0134) + 2 * (mul_w(mul_t(rotor.e23, rotor.e34), p.e0123)) - 2 * (mul_w(mul_t(rotor.e23, rotor.s), p.e0124)) - mul_w(mul_t(rotor.e24, rotor.e24), p.e0134) + 2 * (mul_w(mul_t(rotor.e24, rotor.e34), p.e0124)) + 2 * (mul_w(mul_t(rotor.e24, rotor.s), p.e0123)) + mul_w(mul_t(rotor.e34, rotor.e34), p.e0134) + mul_w(mul_t(rotor.s, rotor.s), p.e0134);
        let t_e0234 = 2 * (mul_w(mul_t(rotor.e01, rotor.s), p.e1234)) + 2 * (mul_w(mul_t(rotor.e0123, rotor.e23), p.e1234)) + 2 * (mul_w(mul_t(rotor.e0124, rotor.e24), p.e1234)) + 2 * (mul_w(mul_t(rotor.e0134, rotor.e34), p.e1234)) + 2 * (mul_w(mul_t(rotor.e02, rotor.e12), p.e1234)) + 2 * (mul_w(mul_t(rotor.e0234, rotor.e1234), p.e1234)) + 2 * (mul_w(mul_t(rotor.e03, rotor.e13), p.e1234)) + 2 * (mul_w(mul_t(rotor.e04, rotor.e14), p.e1234)) - mul_w(mul_t(rotor.e12, rotor.e12), p.e0234) + 2 * (mul_w(mul_t(rotor.e12, rotor.e23), p.e0124)) - 2 * (mul_w(mul_t(rotor.e12, rotor.e24), p.e0123)) - 2 * (mul_w(mul_t(rotor.e12, rotor.s), p.e0134)) - mul_w(mul_t(rotor.e1234, rotor.e1234), p.e0234) - 2 * (mul_w(mul_t(rotor.e1234, rotor.e23), p.e0123)) - 2 * (mul_w(mul_t(rotor.e1234, rotor.e24), p.e0124)) - 2 * (mul_w(mul_t(rotor.e1234, rotor.e34), p.e0134)) - mul_w(mul_t(rotor.e13, rotor.e13), p.e0234) + 2 * (mul_w(mul_t(rotor.e13, rotor.e23), p.e0134)) - 2 * (mul_w(mul_t(rotor.e13, rotor.e34), p.e0123)) + 2 * (mul_w(mul_t(rotor.e13, rotor.s), p.e0124)) - mul_w(mul_t(rotor.e14, rotor.e14), p.e0234) + 2 * (mul_w(mul_t(rotor.e14, rotor.e24), p.e0134)) - 2 * (mul_w(mul_t(rotor.e14, rotor.e34), p.e0124)) - 2 * (mul_w(mul_t(rotor.e14, rotor.s), p.e0123)) + mul_w(mul_t(rotor.e23, rotor.e23), p.e0234) + mul_w(mul_t(rotor.e24, rotor.e24), p.e0234) + mul_w(mul_t(rotor.e34, rotor.e34), p.e0234) + mul_w(mul_t(rotor.s, rotor.s), p.e0234);
        let t_e1234 = mul_w(mul_t(rotor.e12, rotor.e12), p.e1234) + mul_w(mul_t(rotor.e1234, rotor.e1234), p.e1234) + mul_w(mul_t(rotor.e13, rotor.e13), p.e1234) + mul_w(mul_t(rotor.e14, rotor.e14), p.e1234) + mul_w(mul_t(rotor.e23, rotor.e23), p.e1234) + mul_w(mul_t(rotor.e24, rotor.e24), p.e1234) + mul_w(mul_t(rotor.e34, rotor.e34), p.e1234) + mul_w(mul_t(rotor.s, rotor.s), p.e1234);
        let r = Point {
            e0123: t_e0123,
            e0124: t_e0124,
            e0134: t_e0134,
            e0234: t_e0234,
            e1234: t_e1234,
            den: mul_w(dd, p.den),
        };
        r
    }
}

/// Distributes a signed 8-term sum over a factor.
proof fn pdist_1(u1: int, u2: int, u3: int, u4: int, u5: int, u6: int, u7: int, u8: int, z: int)
    ensures
        (u1 + u2 - u3 - u4 + u5 - u6 + u7 - u8) * z == u1 * z + u2 * z - u3 * z - u4 * z + u5 * z - u6 * z + u7 * z - u8 * z,
{
    assert((u1 + u2 - u3 - u4 + u5 - u6 + u7 - u8) * z == u1 * z + u2 * z - u3 * z - u4 * z + u5 * z - u6 * z + u7 * z - u8 * z) by (nonlinear_arith);
}

/// Distributes a signed 8-term sum over a factor.
proof fn pdist_2(u1: int, u2: int, u3: int, u4: int, u5: int, u6: int, u7: int, u8: int, z: int)
    ensures
        (-(u1) + u2 + u3 - u4 - u5 - u6 + u7 + u8) * z == -(u1 * z) + u2 * z + u3 * z - u4 * z - u5 * z - u6 * z + u7 * z + u8 * z,
{
    assert((-(u1) + u2 + u3 - u4 - u5 - u6 + u7 + u8) * z == -(u1 * z) + u2 * z + u3 * z - u4 * z - u5 * z - u6 * z + u7 * z + u8 * z) by (nonlinear_arith);
}

/// Distributes a signed 8-term sum over a factor.
proof fn pdist_3(u1: int, u2: int, u3: int, u4: int, u5: int, u6: int, u7: int, u8: int, z: int)
    ensures
        (u1 + u2 + u3 + u4 - u5 - u6 - u7 - u8) * z == u1 * z + u2 * z + u3 * z + u4 * z - u5 * z - u6 * z - u7 * z - u8 * z,
{
    assert((u1 + u2 + u3 + u4 - u5 - u6 - u7 - u8) * z == u1 * z + u2 * z + u3 * z + u4 * z - u5 * z - u6 * z - u7 * z - u8 * z) by (nonlinear_arith);
}

/// Distributes a signed 8-term sum over a factor.
proof fn pdist_4(u1: int, u2: int, u3: int, u4: int, u5: int, u6: int, u7: int, u8: int, z: int)
    ensures
        (u1 + u2 + u3 + u4 + u5 + u6 + u7 + u8) * z == u1 * z + u2 * z + u3 * z + u4 * z + u5 * z + u6 * z + u7 * z + u8 * z,
{
    assert((u1 + u2 + u3 + u4 + u5 + u6 + u7 + u8) * z == u1 * z + u2 * z + u3 * z + u4 * z + u5 * z + u6 * z + u7 * z + u8 * z) by (nonlinear_arith);
}

/// Distributes a signed 9-term sum over a factor.
proof fn pdist_5(u1: int, u2: int, u3: int, u4: int, u5: int, u6: int, u7: int, u8: int, u9: int, z: int)
    ensures
        (u1 + u2 + u3 + u4 + u5 + u6 + u7 + u8 - u9) * z == u1 * z + u2 * z + u3 * z + u4 * z + u5 * z + u6 * z + u7 * z + u8 * z - u9 * z,
{
    assert((u1 + u2 + u3 + u4 + u5 + u6 + u7 + u8 - u9) * z == u1 * z + u2 * z + u3 * z + u4 * z + u5 * z + u6 * z + u7 * z + u8 * z - u9 * z) by (nonlinear_arith);
}

/// Distributes a signed 9-term sum over a factor.
proof fn pdist_6(u1: int, u2: int, u3: int, u4: int, u5: int, u6: int, u7: int, u8: int, u9: int, z: int)
    ensures
        (u1 + u2 + u3 + u4 + u5 + u6 + u7 + u8 - u9) * z == u1 * z + u2 * z + u3 * z + u4 * z + u5 * z + u6 * z + u7 * z + u8 * z - u9 * z,
{
    assert((u1 + u2 + u3 + u4 + u5 + u6 + u7 + u8 - u9) * z == u1 * z + u2 * z + u3 * z + u4 * z + u5 * z + u6 * z + u7 * z + u8 * z - u9 * z) by (nonlinear_arith);
}

/// Distributes a signed 9-term sum over a factor.
proof fn pdist_7(u1: int, u2: int, u3: int, u4: int, u5: int, u6: int, u7: int, u8: int, u9: int, z: int)
    ensures
        (u1 + u2 + u3 + u4 + u5 + u6 + u7 + u8 - u9) * z == u1 * z + u2 * z + u3 * z + u4 * z + u5 * z + u6 * z + u7 * z + u8 * z - u9 * z,
{
    assert((u1 + u2 + u3 + u4 + u5 + u6 + u7 + u8 - u9) * z == u1 * z + u2 * z + u3 * z + u4 * z + u5 * z + u6 * z + u7 * z + u8 * z - u9 * z) by (nonlinear_arith);
}

/// Distributes a signed 9-term sum over a factor.
proof fn pdist_8(u1: int, u2: int, u3: int, u4: int, u5: int, u6: int, u7: int, u8: int, u9: int, z: int)
    ensures
        (u1 + u2 + u3 + u4 + u5 + u6 + u7 + u8 - u9) * z == u1 * z + u2 * z + u3 * z + u4 * z + u5 * z + u6 * z + u7 * z + u8 * z - u9 * z,
{
    assert((u1 + u2 + u3 + u4 + u5 + u6 + u7 + u8 - u9) * z == u1 * z + u2 * z + u3 * z + u4 * z + u5 * z + u6 * z + u7 * z + u8 * z - u9 * z) by (nonlinear_arith);
}

/// Distributes a signed 8-term sum over a factor.
proof fn pdist_9(u1: int, u2: int, u3: int, u4: int, u5: int, u6: int, u7: int, u8: int, z: int)
    ensures
        (u1 + u2 + u3 + u4 + u5 + u6 + u7 + u8) * z == u1 * z + u2 * z + u3 * z + u4 * z + u5 * z + u6 * z + u7 * z + u8 * z,
{
    assert((u1 + u2 + u3 + u4 + u5 + u6 + u7 + u8) * z == u1 * z + u2 * z + u3 * z + u4 * z + u5 * z + u6 * z + u7 * z + u8 * z) by (nonlinear_arith);
}

/// The bare 4-vector transform is this sandwich specialized to weight
/// one: embedding `[x, y, z, w] / den` as a point whose weight equals its
/// denominator, the sandwich's coordinates are the vector transform's
/// plus the magnitude defect `mag2_num - den^2` times the coordinate, and
/// the weight scales by the squared magnitude. For a unit motor the two
/// transforms agree exactly and the weight stays one.
#[verifier::rlimit(100)]
pub proof fn lemma_point_matches_vec4(a: RotorModel, p: Vec4Model)
    ensures
        spec_point_transform(a, PointModel { e0123: p.x, e0124: p.y, e0134: p.z, e0234: p.w, e1234: p.den, den: p.den }).e0123 == spec_transform_point(a, p).x + (spec_mag2_num(a) - a.den * a.den) * p.x,
        spec_point_transform(a, PointModel { e0123: p.x, e0124: p.y, e0134: p.z, e0234: p.w, e1234: p.den, den: p.den }).e0124 == spec_transform_point(a, p).y + (spec_mag2_num(a) - a.den * a.den) * p.y,
        spec_point_transform(a, PointModel { e0123: p.x, e0124: p.y, e0134: p.z, e0234: p.w, e1234: p.den, den: p.den }).e0134 == spec_transform_point(a, p).z + (spec_mag2_num(a) - a.den * a.den) * p.z,
        spec_point_transform(a, PointModel { e0123: p.x, e0124: p.y, e0134: p.z, e0234: p.w, e1234: p.den, den: p.den }).e0234 == spec_transform_point(a, p).w + (spec_mag2_num(a) - a.den * a.den) * p.w,
        spec_point_transform(a, PointModel { e0123: p.x, e0124: p.y, e0134: p.z, e0234: p.w, e1234: p.den, den: p.den }).e1234 == spec_mag2_num(a) * p.den,
        spec_point_transform(a, PointModel { e0123: p.x, e0124: p.y, e0134: p.z, e0234: p.w, e1234: p.den, den: p.den }).den == spec_transform_point(a, p).den,
{
    let q = PointModel { e0123: p.x, e0124: p.y, e0134: p.z, e0234: p.w, e1234: p.den, den: p.den };
    let sw = spec_point_transform(a, q);
    let tv = spec_transform_point(a, p);
    pdist_1(a.e01 * a.e14, a.e0123 * a.e1234, a.e0124 * a.e12, a.e0134 * a.e13, a.e02 * a.e24, a.e0234 * a.e23, a.e03 * a.e34, a.e04 * a.s, p.den);
    pdist_2(a.e01 * a.e13, a.e0123 * a.e12, a.e0124 * a.e1234, a.e0134 * a.e14, a.e02 * a.e23, a.e0234 * a.e24, a.e03 * a.s, a.e04 * a.e34, p.den);
    pdist_3(a.e01 * a.e12, a.e0123 * a.e13, a.e0124 * a.e14, a.e0134 * a.e1234, a.e02 * a.s, a.e0234 * a.e34, a.e03 * a.e23, a.e04 * a.e24, p.den);
    pdist_4(a.e01 * a.s, a.e0123 * a.e23, a.e0124 * a.e24, a.e0134 * a.e34, a.e02 * a.e12, a.e0234 * a.e1234, a.e03 * a.e13, a.e04 * a.e14, p.den);
    pdist_5(a.e12 * a.e12, a.e1234 * a.e1234, a.e13 * a.e13, a.e14 * a.e14, a.e23 * a.e23, a.e24 * a.e24, a.e34 * a.e34, a.s * a.s, a.den * a.den, p.x);
    pdist_6(a.e12 * a.e12, a.e1234 * a.e1234, a.e13 * a.e13, a.e14 * a.e14, a.e23 * a.e23, a.e24 * a.e24, a.e34 * a.e34, a.s * a.s, a.den * a.den, p.y);
    pdist_7(a.e12 * a.e12, a.e1234 * a.e1234, a.e13 * a.e13, a.e14 * a.e14, a.e23 * a.e23, a.e24 * a.e24, a.e34 * a.e34, a.s * a.s, a.den * a.den, p.z);
    pdist_8(a.e12 * a.e12, a.e1234 * a.e1234, a.e13 * a.e13, a.e14 * a.e14, a.e23 * a.e23, a.e24 * a.e24, a.e34 * a.e34, a.s * a.s, a.den * a.den, p.w);
    pdist_9(a.e12 * a.e12, a.e1234 * a.e1234, a.e13 * a.e13, a.e14 * a.e14, a.e23 * a.e23, a.e24 * a.e24, a.e34 * a.e34, a.s * a.s, p.den);
}

} // verus!
