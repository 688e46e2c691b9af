//! The algebraic laws of the motor algebra, proved once over the
//! mathematical model. Everything here is ghost: the laws speak of the same
//! spec functions that the executable operations are proved to implement.

use vstd::prelude::*;

use crate::rotor::RotorModel;
use crate::rotor::Plane;
use crate::rotor::is_proper;
use crate::rotor::is_unit;
use crate::rotor::rotor_eq;
use crate::rotor::spec_compose;
use crate::rotor::spec_identity;
use crate::rotor::spec_mag2_num;
use crate::rotor::spec_reverse;
use crate::rotor::spec_rotation;
use crate::rotor::spec_translation;
use crate::transform::Vec4Model;
use crate::transform::spec_transform_direction;
use crate::transform::spec_transform_point;
use crate::transform::vec4_eq;

verus! {

/// Composing with the identity on either side changes nothing, exactly.
pub proof fn lemma_compose_identity(a: RotorModel)
    ensures
        spec_compose(a, spec_identity()) == a,
        spec_compose(spec_identity(), a) == a,
{
}

/// Reversal is an involution: reversing twice gives back the motor, exactly.
pub proof fn lemma_reverse_involution(a: RotorModel)
    ensures
        spec_reverse(spec_reverse(a)) == a,
{
}

/// Structure of `reverse(a) a`: its scalar part is the squared-magnitude
/// numerator, every bivector part cancels exactly, and its quadvector
/// parts are the obstruction to `a` being a rigid motion.
pub proof fn lemma_rev_prod_structure(a: RotorModel)
    ensures
        (spec_compose(spec_reverse(a), a)).s == spec_mag2_num(a),
        (spec_compose(spec_reverse(a), a)).e01 == 0,
        (spec_compose(spec_reverse(a), a)).e02 == 0,
        (spec_compose(spec_reverse(a), a)).e03 == 0,
        (spec_compose(spec_reverse(a), a)).e04 == 0,
        (spec_compose(spec_reverse(a), a)).e12 == 0,
        (spec_compose(spec_reverse(a), a)).e13 == 0,
        (spec_compose(spec_reverse(a), a)).e14 == 0,
        (spec_compose(spec_reverse(a), a)).e23 == 0,
        (spec_compose(spec_reverse(a), a)).e24 == 0,
        (spec_compose(spec_reverse(a), a)).e34 == 0,
        (spec_compose(spec_reverse(a), a)).e0123 == -(2 * (a.e01 * a.e23)) + 2 * (a.e0123 * a.s) - 2 * (a.e0124 * a.e34) + 2 * (a.e0134 * a.e24) + 2 * (a.e02 * a.e13) - 2 * (a.e0234 * a.e14) - 2 * (a.e03 * a.e12) + 2 * (a.e04 * a.e1234),
        (spec_compose(spec_reverse(a), a)).e0124 == -(2 * (a.e01 * a.e24)) + 2 * (a.e0123 * a.e34) + 2 * (a.e0124 * a.s) - 2 * (a.e0134 * a.e23) + 2 * (a.e02 * a.e14) + 2 * (a.e0234 * a.e13) - 2 * (a.e03 * a.e1234) - 2 * (a.e04 * a.e12),
        (spec_compose(spec_reverse(a), a)).e0134 == -(2 * (a.e01 * a.e34)) - 2 * (a.e0123 * a.e24) + 2 * (a.e0124 * a.e23) + 2 * (a.e0134 * a.s) + 2 * (a.e02 * a.e1234) - 2 * (a.e0234 * a.e12) + 2 * (a.e03 * a.e14) - 2 * (a.e04 * a.e13),
        (spec_compose(spec_reverse(a), a)).e0234 == -(2 * (a.e01 * a.e1234)) + 2 * (a.e0123 * a.e14) - 2 * (a.e0124 * a.e13) + 2 * (a.e0134 * a.e12) - 2 * (a.e02 * a.e34) + 2 * (a.e0234 * a.s) + 2 * (a.e03 * a.e24) - 2 * (a.e04 * a.e23),
        (spec_compose(spec_reverse(a), a)).e1234 == -(2 * (a.e12 * a.e34)) + 2 * (a.e1234 * a.s) + 2 * (a.e13 * a.e24) - 2 * (a.e14 * a.e23),
        (spec_compose(spec_reverse(a), a)).den == a.den * a.den,
{
    let ra = spec_reverse(a);
    let x = spec_compose(spec_reverse(a), a);
    assert(x.s == spec_mag2_num(a)) by (nonlinear_arith)
        requires
            spec_mag2_num(a) == a.e12 * a.e12 + a.e1234 * a.e1234 + a.e13 * a.e13 + a.e14 * a.e14 + a.e23 * a.e23 + a.e24 * a.e24 + a.e34 * a.e34 + a.s * a.s,
            ra.s == a.s,
            ra.e01 == -a.e01,
            ra.e02 == -a.e02,
            ra.e03 == -a.e03,
            ra.e04 == -a.e04,
            ra.e12 == -a.e12,
            ra.e13 == -a.e13,
            ra.e14 == -a.e14,
            ra.e23 == -a.e23,
            ra.e24 == -a.e24,
            ra.e34 == -a.e34,
            ra.e0123 == a.e0123,
            ra.e0124 == a.e0124,
            ra.e0134 == a.e0134,
            ra.e0234 == a.e0234,
            ra.e1234 == a.e1234,
            x.s == -(ra.e12 * a.e12) + ra.e1234 * a.e1234 - ra.e13 * a.e13 - ra.e14 * a.e14 - ra.e23 * a.e23 - ra.e24 * a.e24 - ra.e34 * a.e34 + ra.s * a.s;
    assert(x.e01 == 0) by (nonlinear_arith)
        requires
            ra.s == a.s,
            ra.e01 == -a.e01,
            ra.e02 == -a.e02,
            ra.e03 == -a.e03,
            ra.e04 == -a.e04,
            ra.e12 == -a.e12,
            ra.e13 == -a.e13,
            ra.e14 == -a.e14,
            ra.e23 == -a.e23,
            ra.e24 == -a.e24,
            ra.e34 == -a.e34,
            ra.e0123 == a.e0123,
            ra.e0124 == a.e0124,
            ra.e0134 == a.e0134,
            ra.e0234 == a.e0234,
            ra.e1234 == a.e1234,
            x.e01 == ra.e01 * a.s - ra.e0123 * a.e23 - ra.e0124 * a.e24 - ra.e0134 * a.e34 - ra.e02 * a.e12 + ra.e0234 * a.e1234 - ra.e03 * a.e13 - ra.e04 * a.e14 + ra.e12 * a.e02 - ra.e1234 * a.e0234 + ra.e13 * a.e03 + ra.e14 * a.e04 - ra.e23 * a.e0123 - ra.e24 * a.e0124 - ra.e34 * a.e0134 + ra.s * a.e01;
    assert(x.e02 == 0) by (nonlinear_arith)
        requires
            ra.s == a.s,
            ra.e01 == -a.e01,
            ra.e02 == -a.e02,
            ra.e03 == -a.e03,
            ra.e04 == -a.e04,
            ra.e12 == -a.e12,
            ra.e13 == -a.e13,
            ra.e14 == -a.e14,
            ra.e23 == -a.e23,
            ra.e24 == -a.e24,
            ra.e34 == -a.e34,
            ra.e0123 == a.e0123,
            ra.e0124 == a.e0124,
            ra.e0134 == a.e0134,
            ra.e0234 == a.e0234,
            ra.e1234 == a.e1234,
            x.e02 == ra.e01 * a.e12 + ra.e0123 * a.e13 + ra.e0124 * a.e14 - ra.e0134 * a.e1234 + ra.e02 * a.s - ra.e0234 * a.e34 - ra.e03 * a.e23 - ra.e04 * a.e24 - ra.e12 * a.e01 + ra.e1234 * a.e0134 + ra.e13 * a.e0123 + ra.e14 * a.e0124 + ra.e23 * a.e03 + ra.e24 * a.e04 - ra.e34 * a.e0234 + ra.s * a.e02;
    assert(x.e03 == 0) by (nonlinear_arith)
        requires
            ra.s == a.s,
            ra.e01 == -a.e01,
            ra.e02 == -a.e02,
            ra.e03 == -a.e03,
            ra.e04 == -a.e04,
            ra.e12 == -a.e12,
            ra.e13 == -a.e13,
            ra.e14 == -a.e14,
            ra.e23 == -a.e23,
            ra.e24 == -a.e24,
            ra.e34 == -a.e34,
            ra.e0123 == a.e0123,
            ra.e0124 == a.e0124,
            ra.e0134 == a.e0134,
            ra.e0234 == a.e0234,
            ra.e1234 == a.e1234,
            x.e03 == ra.e01 * a.e13 - ra.e0123 * a.e12 + ra.e0124 * a.e1234 + ra.e0134 * a.e14 + ra.e02 * a.e23 + ra.e0234 * a.e24 + ra.e03 * a.s - ra.e04 * a.e34 - ra.e12 * a.e0123 - ra.e1234 * a.e0124 - ra.e13 * a.e01 + ra.e14 * a.e0134 - ra.e23 * a.e02 + ra.e24 * a.e0234 + ra.e34 * a.e04 + ra.s * a.e03;
    assert(x.e04 == 0) by (nonlinear_arith)
        requires
            ra.s == a.s,
            ra.e01 == -a.e01,
            ra.e02 == -a.e02,
            ra.e03 == -a.e03,
            ra.e04 == -a.e04,
            ra.e12 == -a.e12,
            ra.e13 == -a.e13,
            ra.e14 == -a.e14,
            ra.e23 == -a.e23,
            ra.e24 == -a.e24,
            ra.e34 == -a.e34,
            ra.e0123 == a.e0123,
            ra.e0124 == a.e0124,
            ra.e0134 == a.e0134,
            ra.e0234 == a.e0234,
            ra.e1234 == a.e1234,
            x.e04 == ra.e01 * a.e14 - ra.e0123 * a.e1234 - ra.e0124 * a.e12 - ra.e0134 * a.e13 + ra.e02 * a.e24 - ra.e0234 * a.e23 + ra.e03 * a.e34 + ra.e04 * a.s - ra.e12 * a.e0124 + ra.e1234 * a.e0123 - ra.e13 * a.e0134 - ra.e14 * a.e01 - ra.e23 * a.e0234 - ra.e24 * a.e02 - ra.e34 * a.e03 + ra.s * a.e04;
    assert(x.e12 == 0) by (nonlinear_arith)
        requires
            ra.s == a.s,
            ra.e01 == -a.e01,
            ra.e02 == -a.e02,
            ra.e03 == -a.e03,
            ra.e04 == -a.e04,
            ra.e12 == -a.e12,
            ra.e13 == -a.e13,
            ra.e14 == -a.e14,
            ra.e23 == -a.e23,
            ra.e24 == -a.e24,
            ra.e34 == -a.e34,
            ra.e0123 == a.e0123,
            ra.e0124 == a.e0124,
            ra.e0134 == a.e0134,
            ra.e0234 == a.e0234,
            ra.e1234 == a.e1234,
            x.e12 == ra.e12 * a.s - ra.e1234 * a.e34 - ra.e13 * a.e23 - ra.e14 * a.e24 + ra.e23 * a.e13 + ra.e24 * a.e14 - ra.e34 * a.e1234 + ra.s * a.e12;
    assert(x.e13 == 0) by (nonlinear_arith)
        requires
            ra.s == a.s,
            ra.e01 == -a.e01,
            ra.e02 == -a.e02,
            ra.e03 == -a.e03,
            ra.e04 == -a.e04,
            ra.e12 == -a.e12,
            ra.e13 == -a.e13,
            ra.e14 == -a.e14,
            ra.e23 == -a.e23,
            ra.e24 == -a.e24,
            ra.e34 == -a.e34,
            ra.e0123 == a.e0123,
            ra.e0124 == a.e0124,
            ra.e0134 == a.e0134,
            ra.e0234 == a.e0234,
            ra.e1234 == a.e1234,
            x.e13 == ra.e12 * a.e23 + ra.e1234 * a.e24 + ra.e13 * a.s - ra.e14 * a.e34 - ra.e23 * a.e12 + ra.e24 * a.e1234 + ra.e34 * a.e14 + ra.s * a.e13;
    assert(x.e14 == 0) by (nonlinear_arith)
        requires
            ra.s == a.s,
            ra.e01 == -a.e01,
            ra.e02 == -a.e02,
            ra.e03 == -a.e03,
            ra.e04 == -a.e04,
            ra.e12 == -a.e12,
            ra.e13 == -a.e13,
            ra.e14 == -a.e14,
            ra.e23 == -a.e23,
            ra.e24 == -a.e24,
            ra.e34 == -a.e34,
            ra.e0123 == a.e0123,
            ra.e0124 == a.e0124,
            ra.e0134 == a.e0134,
            ra.e0234 == a.e0234,
            ra.e1234 == a.e1234,
            x.e14 == ra.e12 * a.e24 - ra.e1234 * a.e23 + ra.e13 * a.e34 + ra.e14 * a.s - ra.e23 * a.e1234 - ra.e24 * a.e12 - ra.e34 * a.e13 + ra.s * a.e14;
    assert(x.e23 == 0) by (nonlinear_arith)
        requires
            ra.s == a.s,
            ra.e01 == -a.e01,
            ra.e02 == -a.e02,
            ra.e03 == -a.e03,
            ra.e04 == -a.e04,
            ra.e12 == -a.e12,
            ra.e13 == -a.e13,
            ra.e14 == -a.e14,
            ra.e23 == -a.e23,
            ra.e24 == -a.e24,
            ra.e34 == -a.e34,
            ra.e0123 == a.e0123,
            ra.e0124 == a.e0124,
            ra.e0134 == a.e0134,
            ra.e0234 == a.e0234,
            ra.e1234 == a.e1234,
            x.e23 == -(ra.e12 * a.e13) - ra.e1234 * a.e14 + ra.e13 * a.e12 - ra.e14 * a.e1234 + ra.e23 * a.s - ra.e24 * a.e34 + ra.e34 * a.e24 + ra.s * a.e23;
    assert(x.e24 == 0) by (nonlinear_arith)
        requires
            ra.s == a.s,
            ra.e01 == -a.e01,
            ra.e02 == -a.e02,
            ra.e03 == -a.e03,
            ra.e04 == -a.e04,
            ra.e12 == -a.e12,
            ra.e13 == -a.e13,
            ra.e14 == -a.e14,
            ra.e23 == -a.e23,
            ra.e24 == -a.e24,
            ra.e34 == -a.e34,
            ra.e0123 == a.e0123,
            ra.e0124 == a.e0124,
            ra.e0134 == a.e0134,
            ra.e0234 == a.e0234,
            ra.e1234 == a.e1234,
            x.e24 == -(ra.e12 * a.e14) + ra.e1234 * a.e13 + ra.e13 * a.e1234 + ra.e14 * a.e12 + ra.e23 * a.e34 + ra.e24 * a.s - ra.e34 * a.e23 + ra.s * a.e24;
    assert(x.e34 == 0) by (nonlinear_arith)
        requires
            ra.s == a.s,
            ra.e01 == -a.e01,
            ra.e02 == -a.e02,
            ra.e03 == -a.e03,
            ra.e04 == -a.e04,
            ra.e12 == -a.e12,
            ra.e13 == -a.e13,
            ra.e14 == -a.e14,
            ra.e23 == -a.e23,
            ra.e24 == -a.e24,
            ra.e34 == -a.e34,
            ra.e0123 == a.e0123,
            ra.e0124 == a.e0124,
            ra.e0134 == a.e0134,
            ra.e0234 == a.e0234,
            ra.e1234 == a.e1234,
            x.e34 == -(ra.e12 * a.e1234) - ra.e1234 * a.e12 - ra.e13 * a.e14 + ra.e14 * a.e13 - ra.e23 * a.e24 + ra.e24 * a.e23 + ra.e34 * a.s + ra.s * a.e34;
    assert(x.e0123 == -(2 * (a.e01 * a.e23)) + 2 * (a.e0123 * a.s) - 2 * (a.e0124 * a.e34) + 2 * (a.e0134 * a.e24) + 2 * (a.e02 * a.e13) - 2 * (a.e0234 * a.e14) - 2 * (a.e03 * a.e12) + 2 * (a.e04 * a.e1234)) by (nonlinear_arith)
        requires
            ra.s == a.s,
            ra.e01 == -a.e01,
            ra.e02 == -a.e02,
            ra.e03 == -a.e03,
            ra.e04 == -a.e04,
            ra.e12 == -a.e12,
            ra.e13 == -a.e13,
            ra.e14 == -a.e14,
            ra.e23 == -a.e23,
            ra.e24 == -a.e24,
            ra.e34 == -a.e34,
            ra.e0123 == a.e0123,
            ra.e0124 == a.e0124,
            ra.e0134 == a.e0134,
            ra.e0234 == a.e0234,
            ra.e1234 == a.e1234,
            x.e0123 == ra.e01 * a.e23 + ra.e0123 * a.s - ra.e0124 * a.e34 + ra.e0134 * a.e24 - ra.e02 * a.e13 - ra.e0234 * a.e14 + ra.e03 * a.e12 - ra.e04 * a.e1234 + ra.e12 * a.e03 + ra.e1234 * a.e04 - ra.e13 * a.e02 + ra.e14 * a.e0234 + ra.e23 * a.e01 - ra.e24 * a.e0134 + ra.e34 * a.e0124 + ra.s * a.e0123;
    assert(x.e0124 == -(2 * (a.e01 * a.e24)) + 2 * (a.e0123 * a.e34) + 2 * (a.e0124 * a.s) - 2 * (a.e0134 * a.e23) + 2 * (a.e02 * a.e14) + 2 * (a.e0234 * a.e13) - 2 * (a.e03 * a.e1234) - 2 * (a.e04 * a.e12)) by (nonlinear_arith)
        requires
            ra.s == a.s,
            ra.e01 == -a.e01,
            ra.e02 == -a.e02,
            ra.e03 == -a.e03,
            ra.e04 == -a.e04,
            ra.e12 == -a.e12,
            ra.e13 == -a.e13,
            ra.e14 == -a.e14,
            ra.e23 == -a.e23,
            ra.e24 == -a.e24,
            ra.e34 == -a.e34,
            ra.e0123 == a.e0123,
            ra.e0124 == a.e0124,
            ra.e0134 == a.e0134,
            ra.e0234 == a.e0234,
            ra.e1234 == a.e1234,
            x.e0124 == ra.e01 * a.e24 + ra.e0123 * a.e34 + ra.e0124 * a.s - ra.e0134 * a.e23 - ra.e02 * a.e14 + ra.e0234 * a.e13 + ra.e03 * a.e1234 + ra.e04 * a.e12 + ra.e12 * a.e04 - ra.e1234 * a.e03 - ra.e13 * a.e0234 - ra.e14 * a.e02 + ra.e23 * a.e0134 + ra.e24 * a.e01 - ra.e34 * a.e0123 + ra.s * a.e0124;
    assert(x.e0134 == -(2 * (a.e01 * a.e34)) - 2 * (a.e0123 * a.e24) + 2 * (a.e0124 * a.e23) + 2 * (a.e0134 * a.s) + 2 * (a.e02 * a.e1234) - 2 * (a.e0234 * a.e12) + 2 * (a.e03 * a.e14) - 2 * (a.e04 * a.e13)) by (nonlinear_arith)
        requires
            ra.s == a.s,
            ra.e01 == -a.e01,
            ra.e02 == -a.e02,
            ra.e03 == -a.e03,
            ra.e04 == -a.e04,
            ra.e12 == -a.e12,
            ra.e13 == -a.e13,
            ra.e14 == -a.e14,
            ra.e23 == -a.e23,
            ra.e24 == -a.e24,
            ra.e34 == -a.e34,
            ra.e0123 == a.e0123,
            ra.e0124 == a.e0124,
            ra.e0134 == a.e0134,
            ra.e0234 == a.e0234,
            ra.e1234 == a.e1234,
            x.e0134 == ra.e01 * a.e34 - ra.e0123 * a.e24 + ra.e0124 * a.e23 + ra.e0134 * a.s - ra.e02 * a.e1234 - ra.e0234 * a.e12 - ra.e03 * a.e14 + ra.e04 * a.e13 + ra.e12 * a.e0234 + ra.e1234 * a.e02 + ra.e13 * a.e04 - ra.e14 * a.e03 - ra.e23 * a.e0124 + ra.e24 * a.e0123 + ra.e34 * a.e01 + ra.s * a.e0134;
    assert(x.e0234 == -(2 * (a.e01 * a.e1234)) + 2 * (a.e0123 * a.e14) - 2 * (a.e0124 * a.e13) + 2 * (a.e0134 * a.e12) - 2 * (a.e02 * a.e34) + 2 * (a.e0234 * a.s) + 2 * (a.e03 * a.e24) - 2 * (a.e04 * a.e23)) by (nonlinear_arith)
        requires
            ra.s == a.s,
            ra.e01 == -a.e01,
            ra.e02 == -a.e02,
            ra.e03 == -a.e03,
            ra.e04 == -a.e04,
            ra.e12 == -a.e12,
            ra.e13 == -a.e13,
            ra.e14 == -a.e14,
            ra.e23 == -a.e23,
            ra.e24 == -a.e24,
            ra.e34 == -a.e34,
            ra.e0123 == a.e0123,
            ra.e0124 == a.e0124,
            ra.e0134 == a.e0134,
            ra.e0234 == a.e0234,
            ra.e1234 == a.e1234,
            x.e0234 == ra.e01 * a.e1234 + ra.e0123 * a.e14 - ra.e0124 * a.e13 + ra.e0134 * a.e12 + ra.e02 * a.e34 + ra.e0234 * a.s - ra.e03 * a.e24 + ra.e04 * a.e23 - ra.e12 * a.e0134 - ra.e1234 * a.e01 + ra.e13 * a.e0124 - ra.e14 * a.e0123 + ra.e23 * a.e04 - ra.e24 * a.e03 + ra.e34 * a.e02 + ra.s * a.e0234;
    assert(x.e1234 == -(2 * (a.e12 * a.e34)) + 2 * (a.e1234 * a.s) + 2 * (a.e13 * a.e24) - 2 * (a.e14 * a.e23)) by (nonlinear_arith)
        requires
            ra.s == a.s,
            ra.e01 == -a.e01,
            ra.e02 == -a.e02,
            ra.e03 == -a.e03,
            ra.e04 == -a.e04,
            ra.e12 == -a.e12,
            ra.e13 == -a.e13,
            ra.e14 == -a.e14,
            ra.e23 == -a.e23,
            ra.e24 == -a.e24,
            ra.e34 == -a.e34,
            ra.e0123 == a.e0123,
            ra.e0124 == a.e0124,
            ra.e0134 == a.e0134,
            ra.e0234 == a.e0234,
            ra.e1234 == a.e1234,
            x.e1234 == ra.e12 * a.e34 + ra.e1234 * a.s - ra.e13 * a.e24 + ra.e14 * a.e23 + ra.e23 * a.e14 - ra.e24 * a.e13 + ra.e34 * a.e12 + ra.s * a.e1234;
}

/// Structure of `a reverse(a)`: the mirror image of
/// `lemma_rev_prod_structure`, with its own quadvector obstruction.
pub proof fn lemma_prod_rev_structure(a: RotorModel)
    ensures
        (spec_compose(a, spec_reverse(a))).s == spec_mag2_num(a),
        (spec_compose(a, spec_reverse(a))).e01 == 0,
        (spec_compose(a, spec_reverse(a))).e02 == 0,
        (spec_compose(a, spec_reverse(a))).e03 == 0,
        (spec_compose(a, spec_reverse(a))).e04 == 0,
        (spec_compose(a, spec_reverse(a))).e12 == 0,
        (spec_compose(a, spec_reverse(a))).e13 == 0,
        (spec_compose(a, spec_reverse(a))).e14 == 0,
        (spec_compose(a, spec_reverse(a))).e23 == 0,
        (spec_compose(a, spec_reverse(a))).e24 == 0,
        (spec_compose(a, spec_reverse(a))).e34 == 0,
        (spec_compose(a, spec_reverse(a))).e0123 == -(2 * (a.e01 * a.e23)) + 2 * (a.e0123 * a.s) + 2 * (a.e0124 * a.e34) - 2 * (a.e0134 * a.e24) + 2 * (a.e02 * a.e13) + 2 * (a.e0234 * a.e14) - 2 * (a.e03 * a.e12) - 2 * (a.e04 * a.e1234),
        (spec_compose(a, spec_reverse(a))).e0124 == -(2 * (a.e01 * a.e24)) - 2 * (a.e0123 * a.e34) + 2 * (a.e0124 * a.s) + 2 * (a.e0134 * a.e23) + 2 * (a.e02 * a.e14) - 2 * (a.e0234 * a.e13) + 2 * (a.e03 * a.e1234) - 2 * (a.e04 * a.e12),
        (spec_compose(a, spec_reverse(a))).e0134 == -(2 * (a.e01 * a.e34)) + 2 * (a.e0123 * a.e24) - 2 * (a.e0124 * a.e23) + 2 * (a.e0134 * a.s) - 2 * (a.e02 * a.e1234) + 2 * (a.e0234 * a.e12) + 2 * (a.e03 * a.e14) - 2 * (a.e04 * a.e13),
        (spec_compose(a, spec_reverse(a))).e0234 == 2 * (a.e01 * a.e1234) - 2 * (a.e0123 * a.e14) + 2 * (a.e0124 * a.e13) - 2 * (a.e0134 * a.e12) - 2 * (a.e02 * a.e34) + 2 * (a.e0234 * a.s) + 2 * (a.e03 * a.e24) - 2 * (a.e04 * a.e23),
        (spec_compose(a, spec_reverse(a))).e1234 == -(2 * (a.e12 * a.e34)) + 2 * (a.e1234 * a.s) + 2 * (a.e13 * a.e24) - 2 * (a.e14 * a.e23),
        (spec_compose(a, spec_reverse(a))).den == a.den * a.den,
{
    let ra = spec_reverse(a);
    let x = spec_compose(a, spec_reverse(a));
    assert(x.s == spec_mag2_num(a)) by (nonlinear_arith)
        requires
            spec_mag2_num(a) == a.e12 * a.e12 + a.e1234 * a.e1234 + a.e13 * a.e13 + a.e14 * a.e14 + a.e23 * a.e23 + a.e24 * a.e24 + a.e34 * a.e34 + a.s * a.s,
            ra.s == a.s,
            ra.e01 == -a.e01,
            ra.e02 == -a.e02,
            ra.e03 == -a.e03,
            ra.e04 == -a.e04,
            ra.e12 == -a.e12,
            ra.e13 == -a.e13,
            ra.e14 == -a.e14,
            ra.e23 == -a.e23,
            ra.e24 == -a.e24,
            ra.e34 == -a.e34,
            ra.e0123 == a.e0123,
            ra.e0124 == a.e0124,
            ra.e0134 == a.e0134,
            ra.e0234 == a.e0234,
            ra.e1234 == a.e1234,
            x.s == -(a.e12 * ra.e12) + a.e1234 * ra.e1234 - a.e13 * ra.e13 - a.e14 * ra.e14 - a.e23 * ra.e23 - a.e24 * ra.e24 - a.e34 * ra.e34 + a.s * ra.s;
    assert(x.e01 == 0) by (nonlinear_arith)
        requires
            ra.s == a.s,
            ra.e01 == -a.e01,
            ra.e02 == -a.e02,
            ra.e03 == -a.e03,
            ra.e04 == -a.e04,
            ra.e12 == -a.e12,
            ra.e13 == -a.e13,
            ra.e14 == -a.e14,
            ra.e23 == -a.e23,
            ra.e24 == -a.e24,
            ra.e34 == -a.e34,
            ra.e0123 == a.e0123,
            ra.e0124 == a.e0124,
            ra.e0134 == a.e0134,
            ra.e0234 == a.e0234,
            ra.e1234 == a.e1234,
            x.e01 == a.e01 * ra.s - a.e0123 * ra.e23 - a.e0124 * ra.e24 - a.e0134 * ra.e34 - a.e02 * ra.e12 + a.e0234 * ra.e1234 - a.e03 * ra.e13 - a.e04 * ra.e14 + a.e12 * ra.e02 - a.e1234 * ra.e0234 + a.e13 * ra.e03 + a.e14 * ra.e04 - a.e23 * ra.e0123 - a.e24 * ra.e0124 - a.e34 * ra.e0134 + a.s * ra.e01;
    assert(x.e02 == 0) by (nonlinear_arith)
        requires
            ra.s == a.s,
            ra.e01 == -a.e01,
            ra.e02 == -a.e02,
            ra.e03 == -a.e03,
            ra.e04 == -a.e04,
            ra.e12 == -a.e12,
            ra.e13 == -a.e13,
            ra.e14 == -a.e14,
            ra.e23 == -a.e23,
            ra.e24 == -a.e24,
            ra.e34 == -a.e34,
            ra.e0123 == a.e0123,
            ra.e0124 == a.e0124,
            ra.e0134 == a.e0134,
            ra.e0234 == a.e0234,
            ra.e1234 == a.e1234,
            x.e02 == a.e01 * ra.e12 + a.e0123 * ra.e13 + a.e0124 * ra.e14 - a.e0134 * ra.e1234 + a.e02 * ra.s - a.e0234 * ra.e34 - a.e03 * ra.e23 - a.e04 * ra.e24 - a.e12 * ra.e01 + a.e1234 * ra.e0134 + a.e13 * ra.e0123 + a.e14 * ra.e0124 + a.e23 * ra.e03 + a.e24 * ra.e04 - a.e34 * ra.e0234 + a.s * ra.e02;
    assert(x.e03 == 0) by (nonlinear_arith)
        requires
            ra.s == a.s,
            ra.e01 == -a.e01,
            ra.e02 == -a.e02,
            ra.e03 == -a.e03,
            ra.e04 == -a.e04,
            ra.e12 == -a.e12,
            ra.e13 == -a.e13,
            ra.e14 == -a.e14,
            ra.e23 == -a.e23,
            ra.e24 == -a.e24,
            ra.e34 == -a.e34,
            ra.e0123 == a.e0123,
            ra.e0124 == a.e0124,
            ra.e0134 == a.e0134,
            ra.e0234 == a.e0234,
            ra.e1234 == a.e1234,
            x.e03 == a.e01 * ra.e13 - a.e0123 * ra.e12 + a.e0124 * ra.e1234 + a.e0134 * ra.e14 + a.e02 * ra.e23 + a.e0234 * ra.e24 + a.e03 * ra.s - a.e04 * ra.e34 - a.e12 * ra.e0123 - a.e1234 * ra.e0124 - a.e13 * ra.e01 + a.e14 * ra.e0134 - a.e23 * ra.e02 + a.e24 * ra.e0234 + a.e34 * ra.e04 + a.s * ra.e03;
    assert(x.e04 == 0) by (nonlinear_arith)
        requires
            ra.s == a.s,
            ra.e01 == -a.e01,
            ra.e02 == -a.e02,
            ra.e03 == -a.e03,
            ra.e04 == -a.e04,
            ra.e12 == -a.e12,
            ra.e13 == -a.e13,
            ra.e14 == -a.e14,
            ra.e23 == -a.e23,
            ra.e24 == -a.e24,
            ra.e34 == -a.e34,
            ra.e0123 == a.e0123,
            ra.e0124 == a.e0124,
            ra.e0134 == a.e0134,
            ra.e0234 == a.e0234,
            ra.e1234 == a.e1234,
            x.e04 == a.e01 * ra.e14 - a.e0123 * ra.e1234 - a.e0124 * ra.e12 - a.e0134 * ra.e13 + a.e02 * ra.e24 - a.e0234 * ra.e23 + a.e03 * ra.e34 + a.e04 * ra.s - a.e12 * ra.e0124 + a.e1234 * ra.e0123 - a.e13 * ra.e0134 - a.e14 * ra.e01 - a.e23 * ra.e0234 - a.e24 * ra.e02 - a.e34 * ra.e03 + a.s * ra.e04;
    assert(x.e12 == 0) by (nonlinear_arith)
        requires
            ra.s == a.s,
            ra.e01 == -a.e01,
            ra.e02 == -a.e02,
            ra.e03 == -a.e03,
            ra.e04 == -a.e04,
            ra.e12 == -a.e12,
            ra.e13 == -a.e13,
            ra.e14 == -a.e14,
            ra.e23 == -a.e23,
            ra.e24 == -a.e24,
            ra.e34 == -a.e34,
            ra.e0123 == a.e0123,
            ra.e0124 == a.e0124,
            ra.e0134 == a.e0134,
            ra.e0234 == a.e0234,
            ra.e1234 == a.e1234,
            x.e12 == a.e12 * ra.s - a.e1234 * ra.e34 - a.e13 * ra.e23 - a.e14 * ra.e24 + a.e23 * ra.e13 + a.e24 * ra.e14 - a.e34 * ra.e1234 + a.s * ra.e12;
    assert(x.e13 == 0) by (nonlinear_arith)
        requires
            ra.s == a.s,
            ra.e01 == -a.e01,
            ra.e02 == -a.e02,
            ra.e03 == -a.e03,
            ra.e04 == -a.e04,
            ra.e12 == -a.e12,
            ra.e13 == -a.e13,
            ra.e14 == -a.e14,
            ra.e23 == -a.e23,
            ra.e24 == -a.e24,
            ra.e34 == -a.e34,
            ra.e0123 == a.e0123,
            ra.e0124 == a.e0124,
            ra.e0134 == a.e0134,
            ra.e0234 == a.e0234,
            ra.e1234 == a.e1234,
            x.e13 == a.e12 * ra.e23 + a.e1234 * ra.e24 + a.e13 * ra.s - a.e14 * ra.e34 - a.e23 * ra.e12 + a.e24 * ra.e1234 + a.e34 * ra.e14 + a.s * ra.e13;
    assert(x.e14 == 0) by (nonlinear_arith)
        requires
            ra.s == a.s,
            ra.e01 == -a.e01,
            ra.e02 == -a.e02,
            ra.e03 == -a.e03,
            ra.e04 == -a.e04,
            ra.e12 == -a.e12,
            ra.e13 == -a.e13,
            ra.e14 == -a.e14,
            ra.e23 == -a.e23,
            ra.e24 == -a.e24,
            ra.e34 == -a.e34,
            ra.e0123 == a.e0123,
            ra.e0124 == a.e0124,
            ra.e0134 == a.e0134,
            ra.e0234 == a.e0234,
            ra.e1234 == a.e1234,
            x.e14 == a.e12 * ra.e24 - a.e1234 * ra.e23 + a.e13 * ra.e34 + a.e14 * ra.s - a.e23 * ra.e1234 - a.e24 * ra.e12 - a.e34 * ra.e13 + a.s * ra.e14;
    assert(x.e23 == 0) by (nonlinear_arith)
        requires
            ra.s == a.s,
            ra.e01 == -a.e01,
            ra.e02 == -a.e02,
            ra.e03 == -a.e03,
            ra.e04 == -a.e04,
            ra.e12 == -a.e12,
            ra.e13 == -a.e13,
            ra.e14 == -a.e14,
            ra.e23 == -a.e23,
            ra.e24 == -a.e24,
            ra.e34 == -a.e34,
            ra.e0123 == a.e0123,
            ra.e0124 == a.e0124,
            ra.e0134 == a.e0134,
            ra.e0234 == a.e0234,
            ra.e1234 == a.e1234,
            x.e23 == -(a.e12 * ra.e13) - a.e1234 * ra.e14 + a.e13 * ra.e12 - a.e14 * ra.e1234 + a.e23 * ra.s - a.e24 * ra.e34 + a.e34 * ra.e24 + a.s * ra.e23;
    assert(x.e24 == 0) by (nonlinear_arith)
        requires
            ra.s == a.s,
            ra.e01 == -a.e01,
            ra.e02 == -a.e02,
            ra.e03 == -a.e03,
            ra.e04 == -a.e04,
            ra.e12 == -a.e12,
            ra.e13 == -a.e13,
            ra.e14 == -a.e14,
            ra.e23 == -a.e23,
            ra.e24 == -a.e24,
            ra.e34 == -a.e34,
            ra.e0123 == a.e0123,
            ra.e0124 == a.e0124,
            ra.e0134 == a.e0134,
            ra.e0234 == a.e0234,
            ra.e1234 == a.e1234,
            x.e24 == -(a.e12 * ra.e14) + a.e1234 * ra.e13 + a.e13 * ra.e1234 + a.e14 * ra.e12 + a.e23 * ra.e34 + a.e24 * ra.s - a.e34 * ra.e23 + a.s * ra.e24;
    assert(x.e34 == 0) by (nonlinear_arith)
        requires
            ra.s == a.s,
            ra.e01 == -a.e01,
            ra.e02 == -a.e02,
            ra.e03 == -a.e03,
            ra.e04 == -a.e04,
            ra.e12 == -a.e12,
            ra.e13 == -a.e13,
            ra.e14 == -a.e14,
            ra.e23 == -a.e23,
            ra.e24 == -a.e24,
            ra.e34 == -a.e34,
            ra.e0123 == a.e0123,
            ra.e0124 == a.e0124,
            ra.e0134 == a.e0134,
            ra.e0234 == a.e0234,
            ra.e1234 == a.e1234,
            x.e34 == -(a.e12 * ra.e1234) - a.e1234 * ra.e12 - a.e13 * ra.e14 + a.e14 * ra.e13 - a.e23 * ra.e24 + a.e24 * ra.e23 + a.e34 * ra.s + a.s * ra.e34;
    assert(x.e0123 == -(2 * (a.e01 * a.e23)) + 2 * (a.e0123 * a.s) + 2 * (a.e0124 * a.e34) - 2 * (a.e0134 * a.e24) + 2 * (a.e02 * a.e13) + 2 * (a.e0234 * a.e14) - 2 * (a.e03 * a.e12) - 2 * (a.e04 * a.e1234)) by (nonlinear_arith)
        requires
            ra.s == a.s,
            ra.e01 == -a.e01,
            ra.e02 == -a.e02,
            ra.e03 == -a.e03,
            ra.e04 == -a.e04,
            ra.e12 == -a.e12,
            ra.e13 == -a.e13,
            ra.e14 == -a.e14,
            ra.e23 == -a.e23,
            ra.e24 == -a.e24,
            ra.e34 == -a.e34,
            ra.e0123 == a.e0123,
            ra.e0124 == a.e0124,
            ra.e0134 == a.e0134,
            ra.e0234 == a.e0234,
            ra.e1234 == a.e1234,
            x.e0123 == a.e01 * ra.e23 + a.e0123 * ra.s - a.e0124 * ra.e34 + a.e0134 * ra.e24 - a.e02 * ra.e13 - a.e0234 * ra.e14 + a.e03 * ra.e12 - a.e04 * ra.e1234 + a.e12 * ra.e03 + a.e1234 * ra.e04 - a.e13 * ra.e02 + a.e14 * ra.e0234 + a.e23 * ra.e01 - a.e24 * ra.e0134 + a.e34 * ra.e0124 + a.s * ra.e0123;
    assert(x.e0124 == -(2 * (a.e01 * a.e24)) - 2 * (a.e0123 * a.e34) + 2 * (a.e0124 * a.s) + 2 * (a.e0134 * a.e23) + 2 * (a.e02 * a.e14) - 2 * (a.e0234 * a.e13) + 2 * (a.e03 * a.e1234) - 2 * (a.e04 * a.e12)) by (nonlinear_arith)
        requires
            ra.s == a.s,
            ra.e01 == -a.e01,
            ra.e02 == -a.e02,
            ra.e03 == -a.e03,
            ra.e04 == -a.e04,
            ra.e12 == -a.e12,
            ra.e13 == -a.e13,
            ra.e14 == -a.e14,
            ra.e23 == -a.e23,
            ra.e24 == -a.e24,
            ra.e34 == -a.e34,
            ra.e0123 == a.e0123,
            ra.e0124 == a.e0124,
            ra.e0134 == a.e0134,
            ra.e0234 == a.e0234,
            ra.e1234 == a.e1234,
            x.e0124 == a.e01 * ra.e24 + a.e0123 * ra.e34 + a.e0124 * ra.s - a.e0134 * ra.e23 - a.e02 * ra.e14 + a.e0234 * ra.e13 + a.e03 * ra.e1234 + a.e04 * ra.e12 + a.e12 * ra.e04 - a.e1234 * ra.e03 - a.e13 * ra.e0234 - a.e14 * ra.e02 + a.e23 * ra.e0134 + a.e24 * ra.e01 - a.e34 * ra.e0123 + a.s * ra.e0124;
    assert(x.e0134 == -(2 * (a.e01 * a.e34)) + 2 * (a.e0123 * a.e24) - 2 * (a.e0124 * a.e23) + 2 * (a.e0134 * a.s) - 2 * (a.e02 * a.e1234) + 2 * (a.e0234 * a.e12) + 2 * (a.e03 * a.e14) - 2 * (a.e04 * a.e13)) by (nonlinear_arith)
        requires
            ra.s == a.s,
            ra.e01 == -a.e01,
            ra.e02 == -a.e02,
            ra.e03 == -a.e03,
            ra.e04 == -a.e04,
            ra.e12 == -a.e12,
            ra.e13 == -a.e13,
            ra.e14 == -a.e14,
            ra.e23 == -a.e23,
            ra.e24 == -a.e24,
            ra.e34 == -a.e34,
            ra.e0123 == a.e0123,
            ra.e0124 == a.e0124,
            ra.e0134 == a.e0134,
            ra.e0234 == a.e0234,
            ra.e1234 == a.e1234,
            x.e0134 == a.e01 * ra.e34 - a.e0123 * ra.e24 + a.e0124 * ra.e23 + a.e0134 * ra.s - a.e02 * ra.e1234 - a.e0234 * ra.e12 - a.e03 * ra.e14 + a.e04 * ra.e13 + a.e12 * ra.e0234 + a.e1234 * ra.e02 + a.e13 * ra.e04 - a.e14 * ra.e03 - a.e23 * ra.e0124 + a.e24 * ra.e0123 + a.e34 * ra.e01 + a.s * ra.e0134;
    assert(x.e0234 == 2 * (a.e01 * a.e1234) - 2 * (a.e0123 * a.e14) + 2 * (a.e0124 * a.e13) - 2 * (a.e0134 * a.e12) - 2 * (a.e02 * a.e34) + 2 * (a.e0234 * a.s) + 2 * (a.e03 * a.e24) - 2 * (a.e04 * a.e23)) by (nonlinear_arith)
        requires
            ra.s == a.s,
            ra.e01 == -a.e01,
            ra.e02 == -a.e02,
            ra.e03 == -a.e03,
            ra.e04 == -a.e04,
            ra.e12 == -a.e12,
            ra.e13 == -a.e13,
            ra.e14 == -a.e14,
            ra.e23 == -a.e23,
            ra.e24 == -a.e24,
            ra.e34 == -a.e34,
            ra.e0123 == a.e0123,
            ra.e0124 == a.e0124,
            ra.e0134 == a.e0134,
            ra.e0234 == a.e0234,
            ra.e1234 == a.e1234,
            x.e0234 == a.e01 * ra.e1234 + a.e0123 * ra.e14 - a.e0124 * ra.e13 + a.e0134 * ra.e12 + a.e02 * ra.e34 + a.e0234 * ra.s - a.e03 * ra.e24 + a.e04 * ra.e23 - a.e12 * ra.e0134 - a.e1234 * ra.e01 + a.e13 * ra.e0124 - a.e14 * ra.e0123 + a.e23 * ra.e04 - a.e24 * ra.e03 + a.e34 * ra.e02 + a.s * ra.e0234;
    assert(x.e1234 == -(2 * (a.e12 * a.e34)) + 2 * (a.e1234 * a.s) + 2 * (a.e13 * a.e24) - 2 * (a.e14 * a.e23)) by (nonlinear_arith)
        requires
            ra.s == a.s,
            ra.e01 == -a.e01,
            ra.e02 == -a.e02,
            ra.e03 == -a.e03,
            ra.e04 == -a.e04,
            ra.e12 == -a.e12,
            ra.e13 == -a.e13,
            ra.e14 == -a.e14,
            ra.e23 == -a.e23,
            ra.e24 == -a.e24,
            ra.e34 == -a.e34,
            ra.e0123 == a.e0123,
            ra.e0124 == a.e0124,
            ra.e0134 == a.e0134,
            ra.e0234 == a.e0234,
            ra.e1234 == a.e1234,
            x.e1234 == a.e12 * ra.e34 + a.e1234 * ra.s - a.e13 * ra.e24 + a.e14 * ra.e23 + a.e23 * ra.e14 - a.e24 * ra.e13 + a.e34 * ra.e12 + a.s * ra.e1234;
}

/// For a rigid motion, composing with its own reverse collapses to a plain
/// scalar: `a reverse(a)` has scalar numerator `mag2_num(a)` over `den^2`
/// and no other coefficient. For a unit motor that value is exactly one.
pub proof fn lemma_reverse_cancels(a: RotorModel)
    requires
        is_proper(a),
    ensures
        spec_compose(a, spec_reverse(a)) == (RotorModel {
            s: spec_mag2_num(a),
            e01: 0,
            e02: 0,
            e03: 0,
            e04: 0,
            e12: 0,
            e13: 0,
            e14: 0,
            e23: 0,
            e24: 0,
            e34: 0,
            e0123: 0,
            e0124: 0,
            e0134: 0,
            e0234: 0,
            e1234: 0,
            den: a.den * a.den,
        }),
{
    lemma_prod_rev_structure(a);
}

/// A motor with no coefficient beyond its scalar moves no point: the
/// transform folds the magnitude away, so the result is the input point
/// unchanged (as a rational value).
#[verifier::rlimit(100)]
pub proof fn lemma_transform_scalar(m: RotorModel, p: Vec4Model)
    requires
        m.e01 == 0,
        m.e02 == 0,
        m.e03 == 0,
        m.e04 == 0,
        m.e12 == 0,
        m.e13 == 0,
        m.e14 == 0,
        m.e23 == 0,
        m.e24 == 0,
        m.e34 == 0,
        m.e0123 == 0,
        m.e0124 == 0,
        m.e0134 == 0,
        m.e0234 == 0,
        m.e1234 == 0,
        1 <= m.den,
        1 <= p.den,
    ensures
        spec_transform_point(m, p) == (Vec4Model {
            x: m.den * m.den * p.x,
            y: m.den * m.den * p.y,
            z: m.den * m.den * p.z,
            w: m.den * m.den * p.w,
            den: m.den * m.den * p.den,
        }),
        vec4_eq(spec_transform_point(m, p), p),
{
    let o = spec_transform_point(m, p);
    assert(o.x == m.den * m.den * p.x) by (nonlinear_arith)
        requires
            m.e01 == 0,
            m.e02 == 0,
            m.e03 == 0,
            m.e04 == 0,
            m.e12 == 0,
            m.e13 == 0,
            m.e14 == 0,
            m.e23 == 0,
            m.e24 == 0,
            m.e34 == 0,
            m.e0123 == 0,
            m.e0124 == 0,
            m.e0134 == 0,
            m.e0234 == 0,
            m.e1234 == 0,
            o.x == m.den * m.den * p.x + 2 * ((m.e01 * m.e14 + m.e0123 * m.e1234 - m.e0124 * m.e12 - m.e0134 * m.e13 + m.e02 * m.e24 - m.e0234 * m.e23 + m.e03 * m.e34 - m.e04 * m.s) * p.den) + 2 * (m.e12 * m.e1234 * p.y - m.e12 * m.e14 * p.z - m.e12 * m.e24 * p.w - m.e1234 * m.e1234 * p.x + m.e1234 * m.e13 * p.z + m.e1234 * m.e23 * p.w + m.e13 * m.e14 * p.y - m.e13 * m.e34 * p.w - m.e14 * m.e14 * p.x + m.e14 * m.s * p.w + m.e23 * m.e24 * p.y + m.e23 * m.e34 * p.z - m.e24 * m.e24 * p.x - m.e24 * m.s * p.z - m.e34 * m.e34 * p.x + m.e34 * m.s * p.y);
    assert(o.x * p.den == p.x * o.den) by (nonlinear_arith)
        requires
            o.x == m.den * m.den * p.x,
            o.den == m.den * m.den * p.den;
    assert(o.y == m.den * m.den * p.y) by (nonlinear_arith)
        requires
            m.e01 == 0,
            m.e02 == 0,
            m.e03 == 0,
            m.e04 == 0,
            m.e12 == 0,
            m.e13 == 0,
            m.e14 == 0,
            m.e23 == 0,
            m.e24 == 0,
            m.e34 == 0,
            m.e0123 == 0,
            m.e0124 == 0,
            m.e0134 == 0,
            m.e0234 == 0,
            m.e1234 == 0,
            o.y == m.den * m.den * p.y + 2 * ((-(m.e01 * m.e13) + m.e0123 * m.e12 + m.e0124 * m.e1234 - m.e0134 * m.e14 - m.e02 * m.e23 - m.e0234 * m.e24 + m.e03 * m.s + m.e04 * m.e34) * p.den) + 2 * (-(m.e12 * m.e1234 * p.x) + m.e12 * m.e13 * p.z + m.e12 * m.e23 * p.w - m.e1234 * m.e1234 * p.y + m.e1234 * m.e14 * p.z + m.e1234 * m.e24 * p.w - m.e13 * m.e13 * p.y + m.e13 * m.e14 * p.x - m.e13 * m.s * p.w - m.e14 * m.e34 * p.w - m.e23 * m.e23 * p.y + m.e23 * m.e24 * p.x + m.e23 * m.s * p.z + m.e24 * m.e34 * p.z - m.e34 * m.e34 * p.y - m.e34 * m.s * p.x);
    assert(o.y * p.den == p.y * o.den) by (nonlinear_arith)
        requires
            o.y == m.den * m.den * p.y,
            o.den == m.den * m.den * p.den;
    assert(o.z == m.den * m.den * p.z) by (nonlinear_arith)
        requires
            m.e01 == 0,
            m.e02 == 0,
            m.e03 == 0,
            m.e04 == 0,
            m.e12 == 0,
            m.e13 == 0,
            m.e14 == 0,
            m.e23 == 0,
            m.e24 == 0,
            m.e34 == 0,
            m.e0123 == 0,
            m.e0124 == 0,
            m.e0134 == 0,
            m.e0234 == 0,
            m.e1234 == 0,
            o.z == m.den * m.den * p.z + 2 * ((m.e01 * m.e12 + m.e0123 * m.e13 + m.e0124 * m.e14 + m.e0134 * m.e1234 - m.e02 * m.s - m.e0234 * m.e34 - m.e03 * m.e23 - m.e04 * m.e24) * p.den) + 2 * (-(m.e12 * m.e12 * p.z) + m.e12 * m.e13 * p.y - m.e12 * m.e14 * p.x + m.e12 * m.s * p.w - m.e1234 * m.e1234 * p.z - m.e1234 * m.e13 * p.x - m.e1234 * m.e14 * p.y + m.e1234 * m.e34 * p.w + m.e13 * m.e23 * p.w + m.e14 * m.e24 * p.w - m.e23 * m.e23 * p.z + m.e23 * m.e34 * p.x - m.e23 * m.s * p.y - m.e24 * m.e24 * p.z + m.e24 * m.e34 * p.y + m.e24 * m.s * p.x);
    assert(o.z * p.den == p.z * o.den) by (nonlinear_arith)
        requires
            o.z == m.den * m.den * p.z,
            o.den == m.den * m.den * p.den;
    assert(o.w == m.den * m.den * p.w) by (nonlinear_arith)
        requires
            m.e01 == 0,
            m.e02 == 0,
            m.e03 == 0,
            m.e04 == 0,
            m.e12 == 0,
            m.e13 == 0,
            m.e14 == 0,
            m.e23 == 0,
            m.e24 == 0,
            m.e34 == 0,
            m.e0123 == 0,
            m.e0124 == 0,
            m.e0134 == 0,
            m.e0234 == 0,
            m.e1234 == 0,
            o.w == m.den * m.den * p.w + 2 * ((m.e01 * m.s + m.e0123 * m.e23 + m.e0124 * m.e24 + m.e0134 * m.e34 + m.e02 * m.e12 + m.e0234 * m.e1234 + m.e03 * m.e13 + m.e04 * m.e14) * p.den) + 2 * (-(m.e12 * m.e12 * p.w) + m.e12 * m.e23 * p.y - m.e12 * m.e24 * p.x - m.e12 * m.s * p.z - m.e1234 * m.e1234 * p.w - m.e1234 * m.e23 * p.x - m.e1234 * m.e24 * p.y - m.e1234 * m.e34 * p.z - m.e13 * m.e13 * p.w + m.e13 * m.e23 * p.z - m.e13 * m.e34 * p.x + m.e13 * m.s * p.y - m.e14 * m.e14 * p.w + m.e14 * m.e24 * p.z - m.e14 * m.e34 * p.y - m.e14 * m.s * p.x);
    assert(o.w * p.den == p.w * o.den) by (nonlinear_arith)
        requires
            o.w == m.den * m.den * p.w,
            o.den == m.den * m.den * p.den;
}

/// Round trip: for a rigid motion `a`, composing `a` with its reverse and
/// applying the result to any point gives back that point, exactly. (A unit
/// magnitude alone is not enough: a motor with a stray quadvector part,
/// such as scalar 3/5 with `e1234` 4/5, moves points even though its
/// magnitude is one.)
pub proof fn lemma_round_trip(a: RotorModel, p: Vec4Model)
    requires
        is_proper(a),
        1 <= a.den,
        1 <= p.den,
    ensures
        vec4_eq(spec_transform_point(spec_compose(a, spec_reverse(a)), p), p),
{
    let m = spec_compose(a, spec_reverse(a));
    lemma_reverse_cancels(a);
    assert(1 <= m.den) by (nonlinear_arith)
        requires
            m.den == a.den * a.den,
            1 <= a.den;
    lemma_transform_scalar(m, p);
}

/// Directions are invariant under translation: a motor with no rotation
/// coefficient (`e12..e34` and `e1234` all zero — every translation has
/// this shape) maps every direction to itself, exactly.
#[verifier::rlimit(100)]
pub proof fn lemma_direction_translation_invariant(a: RotorModel, n: Vec4Model)
    requires
        a.e12 == 0,
        a.e13 == 0,
        a.e14 == 0,
        a.e23 == 0,
        a.e24 == 0,
        a.e34 == 0,
        a.e1234 == 0,
        1 <= a.den,
        1 <= n.den,
    ensures
        spec_transform_direction(a, n) == (Vec4Model {
            x: a.den * a.den * n.x,
            y: a.den * a.den * n.y,
            z: a.den * a.den * n.z,
            w: a.den * a.den * n.w,
            den: a.den * a.den * n.den,
        }),
        vec4_eq(spec_transform_direction(a, n), n),
{
    let o = spec_transform_direction(a, n);
    assert(o.x == a.den * a.den * n.x) by (nonlinear_arith)
        requires
            a.e12 == 0,
            a.e13 == 0,
            a.e14 == 0,
            a.e23 == 0,
            a.e24 == 0,
            a.e34 == 0,
            a.e1234 == 0,
            o.x == a.den * a.den * n.x + 2 * (a.e12 * a.e1234 * n.y - a.e12 * a.e14 * n.z - a.e12 * a.e24 * n.w - a.e1234 * a.e1234 * n.x + a.e1234 * a.e13 * n.z + a.e1234 * a.e23 * n.w + a.e13 * a.e14 * n.y - a.e13 * a.e34 * n.w - a.e14 * a.e14 * n.x + a.e14 * a.s * n.w + a.e23 * a.e24 * n.y + a.e23 * a.e34 * n.z - a.e24 * a.e24 * n.x - a.e24 * a.s * n.z - a.e34 * a.e34 * n.x + a.e34 * a.s * n.y);
    assert(o.x * n.den == n.x * o.den) by (nonlinear_arith)
        requires
            o.x == a.den * a.den * n.x,
            o.den == a.den * a.den * n.den;
    assert(o.y == a.den * a.den * n.y) by (nonlinear_arith)
        requires
            a.e12 == 0,
            a.e13 == 0,
            a.e14 == 0,
            a.e23 == 0,
            a.e24 == 0,
            a.e34 == 0,
            a.e1234 == 0,
            o.y == a.den * a.den * n.y + 2 * (-(a.e12 * a.e1234 * n.x) + a.e12 * a.e13 * n.z + a.e12 * a.e23 * n.w - a.e1234 * a.e1234 * n.y + a.e1234 * a.e14 * n.z + a.e1234 * a.e24 * n.w - a.e13 * a.e13 * n.y + a.e13 * a.e14 * n.x - a.e13 * a.s * n.w - a.e14 * a.e34 * n.w - a.e23 * a.e23 * n.y + a.e23 * a.e24 * n.x + a.e23 * a.s * n.z + a.e24 * a.e34 * n.z - a.e34 * a.e34 * n.y - a.e34 * a.s * n.x);
    assert(o.y * n.den == n.y * o.den) by (nonlinear_arith)
        requires
            o.y == a.den * a.den * n.y,
            o.den == a.den * a.den * n.den;
    assert(o.z == a.den * a.den * n.z) by (nonlinear_arith)
        requires
            a.e12 == 0,
            a.e13 == 0,
            a.e14 == 0,
            a.e23 == 0,
            a.e24 == 0,
            a.e34 == 0,
            a.e1234 == 0,
            o.z == a.den * a.den * n.z + 2 * (-(a.e12 * a.e12 * n.z) + a.e12 * a.e13 * n.y - a.e12 * a.e14 * n.x + a.e12 * a.s * n.w - a.e1234 * a.e1234 * n.z - a.e1234 * a.e13 * n.x - a.e1234 * a.e14 * n.y + a.e1234 * a.e34 * n.w + a.e13 * a.e23 * n.w + a.e14 * a.e24 * n.w - a.e23 * a.e23 * n.z + a.e23 * a.e34 * n.x - a.e23 * a.s * n.y - a.e24 * a.e24 * n.z + a.e24 * a.e34 * n.y + a.e24 * a.s * n.x);
    assert(o.z * n.den == n.z * o.den) by (nonlinear_arith)
        requires
            o.z == a.den * a.den * n.z,
            o.den == a.den * a.den * n.den;
    assert(o.w == a.den * a.den * n.w) by (nonlinear_arith)
        requires
            a.e12 == 0,
            a.e13 == 0,
            a.e14 == 0,
            a.e23 == 0,
            a.e24 == 0,
            a.e34 == 0,
            a.e1234 == 0,
            o.w == a.den * a.den * n.w + 2 * (-(a.e12 * a.e12 * n.w) + a.e12 * a.e23 * n.y - a.e12 * a.e24 * n.x - a.e12 * a.s * n.z - a.e1234 * a.e1234 * n.w - a.e1234 * a.e23 * n.x - a.e1234 * a.e24 * n.y - a.e1234 * a.e34 * n.z - a.e13 * a.e13 * n.w + a.e13 * a.e23 * n.z - a.e13 * a.e34 * n.x + a.e13 * a.s * n.y - a.e14 * a.e14 * n.w + a.e14 * a.e24 * n.z - a.e14 * a.e34 * n.y - a.e14 * a.s * n.x);
    assert(o.w * n.den == n.w * o.den) by (nonlinear_arith)
        requires
            o.w == a.den * a.den * n.w,
            o.den == a.den * a.den * n.den;
}
/// For a motor with no translation coefficient, transforming a vector as
/// a direction and as a point agree exactly.
#[verifier::rlimit(100)]
pub proof fn lemma_direction_matches_point(a: RotorModel, n: Vec4Model)
    requires
        a.e01 == 0,
        a.e02 == 0,
        a.e03 == 0,
        a.e04 == 0,
        a.e0123 == 0,
        a.e0124 == 0,
        a.e0134 == 0,
        a.e0234 == 0,
    ensures
        spec_transform_direction(a, n) == spec_transform_point(a, n),
{
    let u = spec_transform_direction(a, n);
    let v = spec_transform_point(a, n);
    assert(u.x == v.x) by (nonlinear_arith)
        requires
            a.e01 == 0,
            a.e02 == 0,
            a.e03 == 0,
            a.e04 == 0,
            a.e0123 == 0,
            a.e0124 == 0,
            a.e0134 == 0,
            a.e0234 == 0,
            u.x == a.den * a.den * n.x + 2 * (a.e12 * a.e1234 * n.y - a.e12 * a.e14 * n.z - a.e12 * a.e24 * n.w - a.e1234 * a.e1234 * n.x + a.e1234 * a.e13 * n.z + a.e1234 * a.e23 * n.w + a.e13 * a.e14 * n.y - a.e13 * a.e34 * n.w - a.e14 * a.e14 * n.x + a.e14 * a.s * n.w + a.e23 * a.e24 * n.y + a.e23 * a.e34 * n.z - a.e24 * a.e24 * n.x - a.e24 * a.s * n.z - a.e34 * a.e34 * n.x + a.e34 * a.s * n.y),
            v.x == a.den * a.den * n.x + 2 * ((a.e01 * a.e14 + a.e0123 * a.e1234 - a.e0124 * a.e12 - a.e0134 * a.e13 + a.e02 * a.e24 - a.e0234 * a.e23 + a.e03 * a.e34 - a.e04 * a.s) * n.den) + 2 * (a.e12 * a.e1234 * n.y - a.e12 * a.e14 * n.z - a.e12 * a.e24 * n.w - a.e1234 * a.e1234 * n.x + a.e1234 * a.e13 * n.z + a.e1234 * a.e23 * n.w + a.e13 * a.e14 * n.y - a.e13 * a.e34 * n.w - a.e14 * a.e14 * n.x + a.e14 * a.s * n.w + a.e23 * a.e24 * n.y + a.e23 * a.e34 * n.z - a.e24 * a.e24 * n.x - a.e24 * a.s * n.z - a.e34 * a.e34 * n.x + a.e34 * a.s * n.y);
    assert(u.y == v.y) by (nonlinear_arith)
        requires
            a.e01 == 0,
            a.e02 == 0,
            a.e03 == 0,
            a.e04 == 0,
            a.e0123 == 0,
            a.e0124 == 0,
            a.e0134 == 0,
            a.e0234 == 0,
            u.y == a.den * a.den * n.y + 2 * (-(a.e12 * a.e1234 * n.x) + a.e12 * a.e13 * n.z + a.e12 * a.e23 * n.w - a.e1234 * a.e1234 * n.y + a.e1234 * a.e14 * n.z + a.e1234 * a.e24 * n.w - a.e13 * a.e13 * n.y + a.e13 * a.e14 * n.x - a.e13 * a.s * n.w - a.e14 * a.e34 * n.w - a.e23 * a.e23 * n.y + a.e23 * a.e24 * n.x + a.e23 * a.s * n.z + a.e24 * a.e34 * n.z - a.e34 * a.e34 * n.y - a.e34 * a.s * n.x),
            v.y == a.den * a.den * n.y + 2 * ((-(a.e01 * a.e13) + a.e0123 * a.e12 + a.e0124 * a.e1234 - a.e0134 * a.e14 - a.e02 * a.e23 - a.e0234 * a.e24 + a.e03 * a.s + a.e04 * a.e34) * n.den) + 2 * (-(a.e12 * a.e1234 * n.x) + a.e12 * a.e13 * n.z + a.e12 * a.e23 * n.w - a.e1234 * a.e1234 * n.y + a.e1234 * a.e14 * n.z + a.e1234 * a.e24 * n.w - a.e13 * a.e13 * n.y + a.e13 * a.e14 * n.x - a.e13 * a.s * n.w - a.e14 * a.e34 * n.w - a.e23 * a.e23 * n.y + a.e23 * a.e24 * n.x + a.e23 * a.s * n.z + a.e24 * a.e34 * n.z - a.e34 * a.e34 * n.y - a.e34 * a.s * n.x);
    assert(u.z == v.z) by (nonlinear_arith)
        requires
            a.e01 == 0,
            a.e02 == 0,
            a.e03 == 0,
            a.e04 == 0,
            a.e0123 == 0,
            a.e0124 == 0,
            a.e0134 == 0,
            a.e0234 == 0,
            u.z == a.den * a.den * n.z + 2 * (-(a.e12 * a.e12 * n.z) + a.e12 * a.e13 * n.y - a.e12 * a.e14 * n.x + a.e12 * a.s * n.w - a.e1234 * a.e1234 * n.z - a.e1234 * a.e13 * n.x - a.e1234 * a.e14 * n.y + a.e1234 * a.e34 * n.w + a.e13 * a.e23 * n.w + a.e14 * a.e24 * n.w - a.e23 * a.e23 * n.z + a.e23 * a.e34 * n.x - a.e23 * a.s * n.y - a.e24 * a.e24 * n.z + a.e24 * a.e34 * n.y + a.e24 * a.s * n.x),
            v.z == a.den * a.den * n.z + 2 * ((a.e01 * a.e12 + a.e0123 * a.e13 + a.e0124 * a.e14 + a.e0134 * a.e1234 - a.e02 * a.s - a.e0234 * a.e34 - a.e03 * a.e23 - a.e04 * a.e24) * n.den) + 2 * (-(a.e12 * a.e12 * n.z) + a.e12 * a.e13 * n.y - a.e12 * a.e14 * n.x + a.e12 * a.s * n.w - a.e1234 * a.e1234 * n.z - a.e1234 * a.e13 * n.x - a.e1234 * a.e14 * n.y + a.e1234 * a.e34 * n.w + a.e13 * a.e23 * n.w + a.e14 * a.e24 * n.w - a.e23 * a.e23 * n.z + a.e23 * a.e34 * n.x - a.e23 * a.s * n.y - a.e24 * a.e24 * n.z + a.e24 * a.e34 * n.y + a.e24 * a.s * n.x);
    assert(u.w == v.w) by (nonlinear_arith)
        requires
            a.e01 == 0,
            a.e02 == 0,
            a.e03 == 0,
            a.e04 == 0,
            a.e0123 == 0,
            a.e0124 == 0,
            a.e0134 == 0,
            a.e0234 == 0,
            u.w == a.den * a.den * n.w + 2 * (-(a.e12 * a.e12 * n.w) + a.e12 * a.e23 * n.y - a.e12 * a.e24 * n.x - a.e12 * a.s * n.z - a.e1234 * a.e1234 * n.w - a.e1234 * a.e23 * n.x - a.e1234 * a.e24 * n.y - a.e1234 * a.e34 * n.z - a.e13 * a.e13 * n.w + a.e13 * a.e23 * n.z - a.e13 * a.e34 * n.x + a.e13 * a.s * n.y - a.e14 * a.e14 * n.w + a.e14 * a.e24 * n.z - a.e14 * a.e34 * n.y - a.e14 * a.s * n.x),
            v.w == a.den * a.den * n.w + 2 * ((a.e01 * a.s + a.e0123 * a.e23 + a.e0124 * a.e24 + a.e0134 * a.e34 + a.e02 * a.e12 + a.e0234 * a.e1234 + a.e03 * a.e13 + a.e04 * a.e14) * n.den) + 2 * (-(a.e12 * a.e12 * n.w) + a.e12 * a.e23 * n.y - a.e12 * a.e24 * n.x - a.e12 * a.s * n.z - a.e1234 * a.e1234 * n.w - a.e1234 * a.e23 * n.x - a.e1234 * a.e24 * n.y - a.e1234 * a.e34 * n.z - a.e13 * a.e13 * n.w + a.e13 * a.e23 * n.z - a.e13 * a.e34 * n.x + a.e13 * a.s * n.y - a.e14 * a.e14 * n.w + a.e14 * a.e24 * n.z - a.e14 * a.e34 * n.y - a.e14 * a.s * n.x);
    assert(u.den == v.den);
    assert(u == v);
}
/// Composing two pure translations yields the translation by the summed
/// offsets (as a rational value; the coefficients come out doubled).
pub proof fn lemma_translation_compose(
    x1: int, y1: int, z1: int, w1: int, d1: int,
    x2: int, y2: int, z2: int, w2: int, d2: int,
)
    requires
        1 <= d1,
        1 <= d2,
    ensures
        rotor_eq(
            spec_compose(spec_translation(x1, y1, z1, w1, d1), spec_translation(x2, y2, z2, w2, d2)),
            spec_translation(x1 * d2 + x2 * d1, y1 * d2 + y2 * d1, z1 * d2 + z2 * d1, w1 * d2 + w2 * d1, d1 * d2),
        ),
{
    let t1 = spec_translation(x1, y1, z1, w1, d1);
    let t2 = spec_translation(x2, y2, z2, w2, d2);
    let x = spec_compose(t1, t2);
    let t = spec_translation(x1 * d2 + x2 * d1, y1 * d2 + y2 * d1, z1 * d2 + z2 * d1, w1 * d2 + w2 * d1, d1 * d2);
    assert(x.s == 4 * (d1 * d2)) by (nonlinear_arith)
        requires
            t1.s == 2 * d1,
            t1.e01 == w1,
            t1.e02 == -z1,
            t1.e03 == y1,
            t1.e04 == -x1,
            t1.e12 == 0,
            t1.e13 == 0,
            t1.e14 == 0,
            t1.e23 == 0,
            t1.e24 == 0,
            t1.e34 == 0,
            t1.e0123 == 0,
            t1.e0124 == 0,
            t1.e0134 == 0,
            t1.e0234 == 0,
            t1.e1234 == 0,
            t1.den == 2 * d1,
            t2.s == 2 * d2,
            t2.e01 == w2,
            t2.e02 == -z2,
            t2.e03 == y2,
            t2.e04 == -x2,
            t2.e12 == 0,
            t2.e13 == 0,
            t2.e14 == 0,
            t2.e23 == 0,
            t2.e24 == 0,
            t2.e34 == 0,
            t2.e0123 == 0,
            t2.e0124 == 0,
            t2.e0134 == 0,
            t2.e0234 == 0,
            t2.e1234 == 0,
            t2.den == 2 * d2,
            x.s == -(t1.e12 * t2.e12) + t1.e1234 * t2.e1234 - t1.e13 * t2.e13 - t1.e14 * t2.e14 - t1.e23 * t2.e23 - t1.e24 * t2.e24 - t1.e34 * t2.e34 + t1.s * t2.s;
    assert(x.e01 == 2 * (d1 * w2) + 2 * (d2 * w1)) by (nonlinear_arith)
        requires
            t1.s == 2 * d1,
            t1.e01 == w1,
            t1.e02 == -z1,
            t1.e03 == y1,
            t1.e04 == -x1,
            t1.e12 == 0,
            t1.e13 == 0,
            t1.e14 == 0,
            t1.e23 == 0,
            t1.e24 == 0,
            t1.e34 == 0,
            t1.e0123 == 0,
            t1.e0124 == 0,
            t1.e0134 == 0,
            t1.e0234 == 0,
            t1.e1234 == 0,
            t1.den == 2 * d1,
            t2.s == 2 * d2,
            t2.e01 == w2,
            t2.e02 == -z2,
            t2.e03 == y2,
            t2.e04 == -x2,
            t2.e12 == 0,
            t2.e13 == 0,
            t2.e14 == 0,
            t2.e23 == 0,
            t2.e24 == 0,
            t2.e34 == 0,
            t2.e0123 == 0,
            t2.e0124 == 0,
            t2.e0134 == 0,
            t2.e0234 == 0,
            t2.e1234 == 0,
            t2.den == 2 * d2,
            x.e01 == t1.e01 * t2.s - t1.e0123 * t2.e23 - t1.e0124 * t2.e24 - t1.e0134 * t2.e34 - t1.e02 * t2.e12 + t1.e0234 * t2.e1234 - t1.e03 * t2.e13 - t1.e04 * t2.e14 + t1.e12 * t2.e02 - t1.e1234 * t2.e0234 + t1.e13 * t2.e03 + t1.e14 * t2.e04 - t1.e23 * t2.e0123 - t1.e24 * t2.e0124 - t1.e34 * t2.e0134 + t1.s * t2.e01;
    assert(x.e02 == -(2 * (d1 * z2)) - 2 * (d2 * z1)) by (nonlinear_arith)
        requires
            t1.s == 2 * d1,
            t1.e01 == w1,
            t1.e02 == -z1,
            t1.e03 == y1,
            t1.e04 == -x1,
            t1.e12 == 0,
            t1.e13 == 0,
            t1.e14 == 0,
            t1.e23 == 0,
            t1.e24 == 0,
            t1.e34 == 0,
            t1.e0123 == 0,
            t1.e0124 == 0,
            t1.e0134 == 0,
            t1.e0234 == 0,
            t1.e1234 == 0,
            t1.den == 2 * d1,
            t2.s == 2 * d2,
            t2.e01 == w2,
            t2.e02 == -z2,
            t2.e03 == y2,
            t2.e04 == -x2,
            t2.e12 == 0,
            t2.e13 == 0,
            t2.e14 == 0,
            t2.e23 == 0,
            t2.e24 == 0,
            t2.e34 == 0,
            t2.e0123 == 0,
            t2.e0124 == 0,
            t2.e0134 == 0,
            t2.e0234 == 0,
            t2.e1234 == 0,
            t2.den == 2 * d2,
            x.e02 == t1.e01 * t2.e12 + t1.e0123 * t2.e13 + t1.e0124 * t2.e14 - t1.e0134 * t2.e1234 + t1.e02 * t2.s - t1.e0234 * t2.e34 - t1.e03 * t2.e23 - t1.e04 * t2.e24 - t1.e12 * t2.e01 + t1.e1234 * t2.e0134 + t1.e13 * t2.e0123 + t1.e14 * t2.e0124 + t1.e23 * t2.e03 + t1.e24 * t2.e04 - t1.e34 * t2.e0234 + t1.s * t2.e02;
    assert(x.e03 == 2 * (d1 * y2) + 2 * (d2 * y1)) by (nonlinear_arith)
        requires
            t1.s == 2 * d1,
            t1.e01 == w1,
            t1.e02 == -z1,
            t1.e03 == y1,
            t1.e04 == -x1,
            t1.e12 == 0,
            t1.e13 == 0,
            t1.e14 == 0,
            t1.e23 == 0,
            t1.e24 == 0,
            t1.e34 == 0,
            t1.e0123 == 0,
            t1.e0124 == 0,
            t1.e0134 == 0,
            t1.e0234 == 0,
            t1.e1234 == 0,
            t1.den == 2 * d1,
            t2.s == 2 * d2,
            t2.e01 == w2,
            t2.e02 == -z2,
            t2.e03 == y2,
            t2.e04 == -x2,
            t2.e12 == 0,
            t2.e13 == 0,
            t2.e14 == 0,
            t2.e23 == 0,
            t2.e24 == 0,
            t2.e34 == 0,
            t2.e0123 == 0,
            t2.e0124 == 0,
            t2.e0134 == 0,
            t2.e0234 == 0,
            t2.e1234 == 0,
            t2.den == 2 * d2,
            x.e03 == t1.e01 * t2.e13 - t1.e0123 * t2.e12 + t1.e0124 * t2.e1234 + t1.e0134 * t2.e14 + t1.e02 * t2.e23 + t1.e0234 * t2.e24 + t1.e03 * t2.s - t1.e04 * t2.e34 - t1.e12 * t2.e0123 - t1.e1234 * t2.e0124 - t1.e13 * t2.e01 + t1.e14 * t2.e0134 - t1.e23 * t2.e02 + t1.e24 * t2.e0234 + t1.e34 * t2.e04 + t1.s * t2.e03;
    assert(x.e04 == -(2 * (d1 * x2)) - 2 * (d2 * x1)) by (nonlinear_arith)
        requires
            t1.s == 2 * d1,
            t1.e01 == w1,
            t1.e02 == -z1,
            t1.e03 == y1,
            t1.e04 == -x1,
            t1.e12 == 0,
            t1.e13 == 0,
            t1.e14 == 0,
            t1.e23 == 0,
            t1.e24 == 0,
            t1.e34 == 0,
            t1.e0123 == 0,
            t1.e0124 == 0,
            t1.e0134 == 0,
            t1.e0234 == 0,
            t1.e1234 == 0,
            t1.den == 2 * d1,
            t2.s == 2 * d2,
            t2.e01 == w2,
            t2.e02 == -z2,
            t2.e03 == y2,
            t2.e04 == -x2,
            t2.e12 == 0,
            t2.e13 == 0,
            t2.e14 == 0,
            t2.e23 == 0,
            t2.e24 == 0,
            t2.e34 == 0,
            t2.e0123 == 0,
            t2.e0124 == 0,
            t2.e0134 == 0,
            t2.e0234 == 0,
            t2.e1234 == 0,
            t2.den == 2 * d2,
            x.e04 == t1.e01 * t2.e14 - t1.e0123 * t2.e1234 - t1.e0124 * t2.e12 - t1.e0134 * t2.e13 + t1.e02 * t2.e24 - t1.e0234 * t2.e23 + t1.e03 * t2.e34 + t1.e04 * t2.s - t1.e12 * t2.e0124 + t1.e1234 * t2.e0123 - t1.e13 * t2.e0134 - t1.e14 * t2.e01 - t1.e23 * t2.e0234 - t1.e24 * t2.e02 - t1.e34 * t2.e03 + t1.s * t2.e04;
    assert(x.e12 == 0) by (nonlinear_arith)
        requires
            t1.s == 2 * d1,
            t1.e01 == w1,
            t1.e02 == -z1,
            t1.e03 == y1,
            t1.e04 == -x1,
            t1.e12 == 0,
            t1.e13 == 0,
            t1.e14 == 0,
            t1.e23 == 0,
            t1.e24 == 0,
            t1.e34 == 0,
            t1.e0123 == 0,
            t1.e0124 == 0,
            t1.e0134 == 0,
            t1.e0234 == 0,
            t1.e1234 == 0,
            t1.den == 2 * d1,
            t2.s == 2 * d2,
            t2.e01 == w2,
            t2.e02 == -z2,
            t2.e03 == y2,
            t2.e04 == -x2,
            t2.e12 == 0,
            t2.e13 == 0,
            t2.e14 == 0,
            t2.e23 == 0,
            t2.e24 == 0,
            t2.e34 == 0,
            t2.e0123 == 0,
            t2.e0124 == 0,
            t2.e0134 == 0,
            t2.e0234 == 0,
            t2.e1234 == 0,
            t2.den == 2 * d2,
            x.e12 == t1.e12 * t2.s - t1.e1234 * t2.e34 - t1.e13 * t2.e23 - t1.e14 * t2.e24 + t1.e23 * t2.e13 + t1.e24 * t2.e14 - t1.e34 * t2.e1234 + t1.s * t2.e12;
    assert(x.e13 == 0) by (nonlinear_arith)
        requires
            t1.s == 2 * d1,
            t1.e01 == w1,
            t1.e02 == -z1,
            t1.e03 == y1,
            t1.e04 == -x1,
            t1.e12 == 0,
            t1.e13 == 0,
            t1.e14 == 0,
            t1.e23 == 0,
            t1.e24 == 0,
            t1.e34 == 0,
            t1.e0123 == 0,
            t1.e0124 == 0,
            t1.e0134 == 0,
            t1.e0234 == 0,
            t1.e1234 == 0,
            t1.den == 2 * d1,
            t2.s == 2 * d2,
            t2.e01 == w2,
            t2.e02 == -z2,
            t2.e03 == y2,
            t2.e04 == -x2,
            t2.e12 == 0,
            t2.e13 == 0,
            t2.e14 == 0,
            t2.e23 == 0,
            t2.e24 == 0,
            t2.e34 == 0,
            t2.e0123 == 0,
            t2.e0124 == 0,
            t2.e0134 == 0,
            t2.e0234 == 0,
            t2.e1234 == 0,
            t2.den == 2 * d2,
            x.e13 == t1.e12 * t2.e23 + t1.e1234 * t2.e24 + t1.e13 * t2.s - t1.e14 * t2.e34 - t1.e23 * t2.e12 + t1.e24 * t2.e1234 + t1.e34 * t2.e14 + t1.s * t2.e13;
    assert(x.e14 == 0) by (nonlinear_arith)
        requires
            t1.s == 2 * d1,
            t1.e01 == w1,
            t1.e02 == -z1,
            t1.e03 == y1,
            t1.e04 == -x1,
            t1.e12 == 0,
            t1.e13 == 0,
            t1.e14 == 0,
            t1.e23 == 0,
            t1.e24 == 0,
            t1.e34 == 0,
            t1.e0123 == 0,
            t1.e0124 == 0,
            t1.e0134 == 0,
            t1.e0234 == 0,
            t1.e1234 == 0,
            t1.den == 2 * d1,
            t2.s == 2 * d2,
            t2.e01 == w2,
            t2.e02 == -z2,
            t2.e03 == y2,
            t2.e04 == -x2,
            t2.e12 == 0,
            t2.e13 == 0,
            t2.e14 == 0,
            t2.e23 == 0,
            t2.e24 == 0,
            t2.e34 == 0,
            t2.e0123 == 0,
            t2.e0124 == 0,
            t2.e0134 == 0,
            t2.e0234 == 0,
            t2.e1234 == 0,
            t2.den == 2 * d2,
            x.e14 == t1.e12 * t2.e24 - t1.e1234 * t2.e23 + t1.e13 * t2.e34 + t1.e14 * t2.s - t1.e23 * t2.e1234 - t1.e24 * t2.e12 - t1.e34 * t2.e13 + t1.s * t2.e14;
    assert(x.e23 == 0) by (nonlinear_arith)
        requires
            t1.s == 2 * d1,
            t1.e01 == w1,
            t1.e02 == -z1,
            t1.e03 == y1,
            t1.e04 == -x1,
            t1.e12 == 0,
            t1.e13 == 0,
            t1.e14 == 0,
            t1.e23 == 0,
            t1.e24 == 0,
            t1.e34 == 0,
            t1.e0123 == 0,
            t1.e0124 == 0,
            t1.e0134 == 0,
            t1.e0234 == 0,
            t1.e1234 == 0,
            t1.den == 2 * d1,
            t2.s == 2 * d2,
            t2.e01 == w2,
            t2.e02 == -z2,
            t2.e03 == y2,
            t2.e04 == -x2,
            t2.e12 == 0,
            t2.e13 == 0,
            t2.e14 == 0,
            t2.e23 == 0,
            t2.e24 == 0,
            t2.e34 == 0,
            t2.e0123 == 0,
            t2.e0124 == 0,
            t2.e0134 == 0,
            t2.e0234 == 0,
            t2.e1234 == 0,
            t2.den == 2 * d2,
            x.e23 == -(t1.e12 * t2.e13) - t1.e1234 * t2.e14 + t1.e13 * t2.e12 - t1.e14 * t2.e1234 + t1.e23 * t2.s - t1.e24 * t2.e34 + t1.e34 * t2.e24 + t1.s * t2.e23;
    assert(x.e24 == 0) by (nonlinear_arith)
        requires
            t1.s == 2 * d1,
            t1.e01 == w1,
            t1.e02 == -z1,
            t1.e03 == y1,
            t1.e04 == -x1,
            t1.e12 == 0,
            t1.e13 == 0,
            t1.e14 == 0,
            t1.e23 == 0,
            t1.e24 == 0,
            t1.e34 == 0,
            t1.e0123 == 0,
            t1.e0124 == 0,
            t1.e0134 == 0,
            t1.e0234 == 0,
            t1.e1234 == 0,
            t1.den == 2 * d1,
            t2.s == 2 * d2,
            t2.e01 == w2,
            t2.e02 == -z2,
            t2.e03 == y2,
            t2.e04 == -x2,
            t2.e12 == 0,
            t2.e13 == 0,
            t2.e14 == 0,
            t2.e23 == 0,
            t2.e24 == 0,
            t2.e34 == 0,
            t2.e0123 == 0,
            t2.e0124 == 0,
            t2.e0134 == 0,
            t2.e0234 == 0,
            t2.e1234 == 0,
            t2.den == 2 * d2,
            x.e24 == -(t1.e12 * t2.e14) + t1.e1234 * t2.e13 + t1.e13 * t2.e1234 + t1.e14 * t2.e12 + t1.e23 * t2.e34 + t1.e24 * t2.s - t1.e34 * t2.e23 + t1.s * t2.e24;
    assert(x.e34 == 0) by (nonlinear_arith)
        requires
            t1.s == 2 * d1,
            t1.e01 == w1,
            t1.e02 == -z1,
            t1.e03 == y1,
            t1.e04 == -x1,
            t1.e12 == 0,
            t1.e13 == 0,
            t1.e14 == 0,
            t1.e23 == 0,
            t1.e24 == 0,
            t1.e34 == 0,
            t1.e0123 == 0,
            t1.e0124 == 0,
            t1.e0134 == 0,
            t1.e0234 == 0,
            t1.e1234 == 0,
            t1.den == 2 * d1,
            t2.s == 2 * d2,
            t2.e01 == w2,
            t2.e02 == -z2,
            t2.e03 == y2,
            t2.e04 == -x2,
            t2.e12 == 0,
            t2.e13 == 0,
            t2.e14 == 0,
            t2.e23 == 0,
            t2.e24 == 0,
            t2.e34 == 0,
            t2.e0123 == 0,
            t2.e0124 == 0,
            t2.e0134 == 0,
            t2.e0234 == 0,
            t2.e1234 == 0,
            t2.den == 2 * d2,
            x.e34 == -(t1.e12 * t2.e1234) - t1.e1234 * t2.e12 - t1.e13 * t2.e14 + t1.e14 * t2.e13 - t1.e23 * t2.e24 + t1.e24 * t2.e23 + t1.e34 * t2.s + t1.s * t2.e34;
    assert(x.e0123 == 0) by (nonlinear_arith)
        requires
            t1.s == 2 * d1,
            t1.e01 == w1,
            t1.e02 == -z1,
            t1.e03 == y1,
            t1.e04 == -x1,
            t1.e12 == 0,
            t1.e13 == 0,
            t1.e14 == 0,
            t1.e23 == 0,
            t1.e24 == 0,
            t1.e34 == 0,
            t1.e0123 == 0,
            t1.e0124 == 0,
            t1.e0134 == 0,
            t1.e0234 == 0,
            t1.e1234 == 0,
            t1.den == 2 * d1,
            t2.s == 2 * d2,
            t2.e01 == w2,
            t2.e02 == -z2,
            t2.e03 == y2,
            t2.e04 == -x2,
            t2.e12 == 0,
            t2.e13 == 0,
            t2.e14 == 0,
            t2.e23 == 0,
            t2.e24 == 0,
            t2.e34 == 0,
            t2.e0123 == 0,
            t2.e0124 == 0,
            t2.e0134 == 0,
            t2.e0234 == 0,
            t2.e1234 == 0,
            t2.den == 2 * d2,
            x.e0123 == t1.e01 * t2.e23 + t1.e0123 * t2.s - t1.e0124 * t2.e34 + t1.e0134 * t2.e24 - t1.e02 * t2.e13 - t1.e0234 * t2.e14 + t1.e03 * t2.e12 - t1.e04 * t2.e1234 + t1.e12 * t2.e03 + t1.e1234 * t2.e04 - t1.e13 * t2.e02 + t1.e14 * t2.e0234 + t1.e23 * t2.e01 - t1.e24 * t2.e0134 + t1.e34 * t2.e0124 + t1.s * t2.e0123;
    assert(x.e0124 == 0) by (nonlinear_arith)
        requires
            t1.s == 2 * d1,
            t1.e01 == w1,
            t1.e02 == -z1,
            t1.e03 == y1,
            t1.e04 == -x1,
            t1.e12 == 0,
            t1.e13 == 0,
            t1.e14 == 0,
            t1.e23 == 0,
            t1.e24 == 0,
            t1.e34 == 0,
            t1.e0123 == 0,
            t1.e0124 == 0,
            t1.e0134 == 0,
            t1.e0234 == 0,
            t1.e1234 == 0,
            t1.den == 2 * d1,
            t2.s == 2 * d2,
            t2.e01 == w2,
            t2.e02 == -z2,
            t2.e03 == y2,
            t2.e04 == -x2,
            t2.e12 == 0,
            t2.e13 == 0,
            t2.e14 == 0,
            t2.e23 == 0,
            t2.e24 == 0,
            t2.e34 == 0,
            t2.e0123 == 0,
            t2.e0124 == 0,
            t2.e0134 == 0,
            t2.e0234 == 0,
            t2.e1234 == 0,
            t2.den == 2 * d2,
            x.e0124 == t1.e01 * t2.e24 + t1.e0123 * t2.e34 + t1.e0124 * t2.s - t1.e0134 * t2.e23 - t1.e02 * t2.e14 + t1.e0234 * t2.e13 + t1.e03 * t2.e1234 + t1.e04 * t2.e12 + t1.e12 * t2.e04 - t1.e1234 * t2.e03 - t1.e13 * t2.e0234 - t1.e14 * t2.e02 + t1.e23 * t2.e0134 + t1.e24 * t2.e01 - t1.e34 * t2.e0123 + t1.s * t2.e0124;
    assert(x.e0134 == 0) by (nonlinear_arith)
        requires
            t1.s == 2 * d1,
            t1.e01 == w1,
            t1.e02 == -z1,
            t1.e03 == y1,
            t1.e04 == -x1,
            t1.e12 == 0,
            t1.e13 == 0,
            t1.e14 == 0,
            t1.e23 == 0,
            t1.e24 == 0,
            t1.e34 == 0,
            t1.e0123 == 0,
            t1.e0124 == 0,
            t1.e0134 == 0,
            t1.e0234 == 0,
            t1.e1234 == 0,
            t1.den == 2 * d1,
            t2.s == 2 * d2,
            t2.e01 == w2,
            t2.e02 == -z2,
            t2.e03 == y2,
            t2.e04 == -x2,
            t2.e12 == 0,
            t2.e13 == 0,
            t2.e14 == 0,
            t2.e23 == 0,
            t2.e24 == 0,
            t2.e34 == 0,
            t2.e0123 == 0,
            t2.e0124 == 0,
            t2.e0134 == 0,
            t2.e0234 == 0,
            t2.e1234 == 0,
            t2.den == 2 * d2,
            x.e0134 == t1.e01 * t2.e34 - t1.e0123 * t2.e24 + t1.e0124 * t2.e23 + t1.e0134 * t2.s - t1.e02 * t2.e1234 - t1.e0234 * t2.e12 - t1.e03 * t2.e14 + t1.e04 * t2.e13 + t1.e12 * t2.e0234 + t1.e1234 * t2.e02 + t1.e13 * t2.e04 - t1.e14 * t2.e03 - t1.e23 * t2.e0124 + t1.e24 * t2.e0123 + t1.e34 * t2.e01 + t1.s * t2.e0134;
    assert(x.e0234 == 0) by (nonlinear_arith)
        requires
            t1.s == 2 * d1,
            t1.e01 == w1,
            t1.e02 == -z1,
            t1.e03 == y1,
            t1.e04 == -x1,
            t1.e12 == 0,
            t1.e13 == 0,
            t1.e14 == 0,
            t1.e23 == 0,
            t1.e24 == 0,
            t1.e34 == 0,
            t1.e0123 == 0,
            t1.e0124 == 0,
            t1.e0134 == 0,
            t1.e0234 == 0,
            t1.e1234 == 0,
            t1.den == 2 * d1,
            t2.s == 2 * d2,
            t2.e01 == w2,
            t2.e02 == -z2,
            t2.e03 == y2,
            t2.e04 == -x2,
            t2.e12 == 0,
            t2.e13 == 0,
            t2.e14 == 0,
            t2.e23 == 0,
            t2.e24 == 0,
            t2.e34 == 0,
            t2.e0123 == 0,
            t2.e0124 == 0,
            t2.e0134 == 0,
            t2.e0234 == 0,
            t2.e1234 == 0,
            t2.den == 2 * d2,
            x.e0234 == t1.e01 * t2.e1234 + t1.e0123 * t2.e14 - t1.e0124 * t2.e13 + t1.e0134 * t2.e12 + t1.e02 * t2.e34 + t1.e0234 * t2.s - t1.e03 * t2.e24 + t1.e04 * t2.e23 - t1.e12 * t2.e0134 - t1.e1234 * t2.e01 + t1.e13 * t2.e0124 - t1.e14 * t2.e0123 + t1.e23 * t2.e04 - t1.e24 * t2.e03 + t1.e34 * t2.e02 + t1.s * t2.e0234;
    assert(x.e1234 == 0) by (nonlinear_arith)
        requires
            t1.s == 2 * d1,
            t1.e01 == w1,
            t1.e02 == -z1,
            t1.e03 == y1,
            t1.e04 == -x1,
            t1.e12 == 0,
            t1.e13 == 0,
            t1.e14 == 0,
            t1.e23 == 0,
            t1.e24 == 0,
            t1.e34 == 0,
            t1.e0123 == 0,
            t1.e0124 == 0,
            t1.e0134 == 0,
            t1.e0234 == 0,
            t1.e1234 == 0,
            t1.den == 2 * d1,
            t2.s == 2 * d2,
            t2.e01 == w2,
            t2.e02 == -z2,
            t2.e03 == y2,
            t2.e04 == -x2,
            t2.e12 == 0,
            t2.e13 == 0,
            t2.e14 == 0,
            t2.e23 == 0,
            t2.e24 == 0,
            t2.e34 == 0,
            t2.e0123 == 0,
            t2.e0124 == 0,
            t2.e0134 == 0,
            t2.e0234 == 0,
            t2.e1234 == 0,
            t2.den == 2 * d2,
            x.e1234 == t1.e12 * t2.e34 + t1.e1234 * t2.s - t1.e13 * t2.e24 + t1.e14 * t2.e23 + t1.e23 * t2.e14 - t1.e24 * t2.e13 + t1.e34 * t2.e12 + t1.s * t2.e1234;
    assert((4 * (d1 * d2)) * (2 * (d1 * d2)) == (2 * (d1 * d2)) * ((2 * d1) * (2 * d2))) by (nonlinear_arith);
    assert((2 * (d1 * w2) + 2 * (d2 * w1)) * (2 * (d1 * d2)) == (w1 * d2 + w2 * d1) * ((2 * d1) * (2 * d2))) by (nonlinear_arith);
    assert((-(2 * (d1 * z2)) - 2 * (d2 * z1)) * (2 * (d1 * d2)) == (-(z1 * d2 + z2 * d1)) * ((2 * d1) * (2 * d2))) by (nonlinear_arith);
    assert((2 * (d1 * y2) + 2 * (d2 * y1)) * (2 * (d1 * d2)) == (y1 * d2 + y2 * d1) * ((2 * d1) * (2 * d2))) by (nonlinear_arith);
    assert((-(2 * (d1 * x2)) - 2 * (d2 * x1)) * (2 * (d1 * d2)) == (-(x1 * d2 + x2 * d1)) * ((2 * d1) * (2 * d2))) by (nonlinear_arith);
    assert((0) * (2 * (d1 * d2)) == (0) * ((2 * d1) * (2 * d2))) by (nonlinear_arith);
    assert((0) * (2 * (d1 * d2)) == (0) * ((2 * d1) * (2 * d2))) by (nonlinear_arith);
    assert((0) * (2 * (d1 * d2)) == (0) * ((2 * d1) * (2 * d2))) by (nonlinear_arith);
    assert((0) * (2 * (d1 * d2)) == (0) * ((2 * d1) * (2 * d2))) by (nonlinear_arith);
    assert((0) * (2 * (d1 * d2)) == (0) * ((2 * d1) * (2 * d2))) by (nonlinear_arith);
    assert((0) * (2 * (d1 * d2)) == (0) * ((2 * d1) * (2 * d2))) by (nonlinear_arith);
    assert((0) * (2 * (d1 * d2)) == (0) * ((2 * d1) * (2 * d2))) by (nonlinear_arith);
    assert((0) * (2 * (d1 * d2)) == (0) * ((2 * d1) * (2 * d2))) by (nonlinear_arith);
    assert((0) * (2 * (d1 * d2)) == (0) * ((2 * d1) * (2 * d2))) by (nonlinear_arith);
    assert((0) * (2 * (d1 * d2)) == (0) * ((2 * d1) * (2 * d2))) by (nonlinear_arith);
    assert((0) * (2 * (d1 * d2)) == (0) * ((2 * d1) * (2 * d2))) by (nonlinear_arith);
    assert(x.den == (2 * d1) * (2 * d2));
    assert(t.den == 2 * (d1 * d2));
}
/// Composing two rotations in the same plane adds their angles: the
/// cosine-sine pair of the product is the angle-sum pair, exactly.
pub proof fn lemma_rotation_compose(plane: Plane, c1: int, s1: int, d1: int, c2: int, s2: int, d2: int)
    ensures
        spec_compose(spec_rotation(plane, c1, s1, d1), spec_rotation(plane, c2, s2, d2))
            == spec_rotation(plane, c1 * c2 - s1 * s2, c1 * s2 + s1 * c2, d1 * d2),
{
    let r1 = spec_rotation(plane, c1, s1, d1);
    let r2 = spec_rotation(plane, c2, s2, d2);
    let x = spec_compose(r1, r2);
    match plane {
        Plane::E12 => {
            assert(x.s == c1 * c2 - s1 * s2) by (nonlinear_arith)
                requires
                    r1.s == c1,
                    r1.e01 == 0,
                    r1.e02 == 0,
                    r1.e03 == 0,
                    r1.e04 == 0,
                    r1.e12 == s1,
                    r1.e13 == 0,
                    r1.e14 == 0,
                    r1.e23 == 0,
                    r1.e24 == 0,
                    r1.e34 == 0,
                    r1.e0123 == 0,
                    r1.e0124 == 0,
                    r1.e0134 == 0,
                    r1.e0234 == 0,
                    r1.e1234 == 0,
                    r2.s == c2,
                    r2.e01 == 0,
                    r2.e02 == 0,
                    r2.e03 == 0,
                    r2.e04 == 0,
                    r2.e12 == s2,
                    r2.e13 == 0,
                    r2.e14 == 0,
                    r2.e23 == 0,
                    r2.e24 == 0,
                    r2.e34 == 0,
                    r2.e0123 == 0,
                    r2.e0124 == 0,
                    r2.e0134 == 0,
                    r2.e0234 == 0,
                    r2.e1234 == 0,
                    x.s == -(r1.e12 * r2.e12) + r1.e1234 * r2.e1234 - r1.e13 * r2.e13 - r1.e14 * r2.e14 - r1.e23 * r2.e23 - r1.e24 * r2.e24 - r1.e34 * r2.e34 + r1.s * r2.s;
            assert(x.e01 == 0) by (nonlinear_arith)
                requires
                    r1.s == c1,
                    r1.e01 == 0,
                    r1.e02 == 0,
                    r1.e03 == 0,
                    r1.e04 == 0,
                    r1.e12 == s1,
                    r1.e13 == 0,
                    r1.e14 == 0,
                    r1.e23 == 0,
                    r1.e24 == 0,
                    r1.e34 == 0,
                    r1.e0123 == 0,
                    r1.e0124 == 0,
                    r1.e0134 == 0,
                    r1.e0234 == 0,
                    r1.e1234 == 0,
                    r2.s == c2,
                    r2.e01 == 0,
                    r2.e02 == 0,
                    r2.e03 == 0,
                    r2.e04 == 0,
                    r2.e12 == s2,
                    r2.e13 == 0,
                    r2.e14 == 0,
                    r2.e23 == 0,
                    r2.e24 == 0,
                    r2.e34 == 0,
                    r2.e0123 == 0,
                    r2.e0124 == 0,
                    r2.e0134 == 0,
                    r2.e0234 == 0,
                    r2.e1234 == 0,
                    x.e01 == r1.e01 * r2.s - r1.e0123 * r2.e23 - r1.e0124 * r2.e24 - r1.e0134 * r2.e34 - r1.e02 * r2.e12 + r1.e0234 * r2.e1234 - r1.e03 * r2.e13 - r1.e04 * r2.e14 + r1.e12 * r2.e02 - r1.e1234 * r2.e0234 + r1.e13 * r2.e03 + r1.e14 * r2.e04 - r1.e23 * r2.e0123 - r1.e24 * r2.e0124 - r1.e34 * r2.e0134 + r1.s * r2.e01;
            assert(x.e02 == 0) by (nonlinear_arith)
                requires
                    r1.s == c1,
                    r1.e01 == 0,
                    r1.e02 == 0,
                    r1.e03 == 0,
                    r1.e04 == 0,
                    r1.e12 == s1,
                    r1.e13 == 0,
                    r1.e14 == 0,
                    r1.e23 == 0,
                    r1.e24 == 0,
                    r1.e34 == 0,
                    r1.e0123 == 0,
                    r1.e0124 == 0,
                    r1.e0134 == 0,
                    r1.e0234 == 0,
                    r1.e1234 == 0,
                    r2.s == c2,
                    r2.e01 == 0,
                    r2.e02 == 0,
                    r2.e03 == 0,
                    r2.e04 == 0,
                    r2.e12 == s2,
                    r2.e13 == 0,
                    r2.e14 == 0,
                    r2.e23 == 0,
                    r2.e24 == 0,
                    r2.e34 == 0,
                    r2.e0123 == 0,
                    r2.e0124 == 0,
                    r2.e0134 == 0,
                    r2.e0234 == 0,
                    r2.e1234 == 0,
                    x.e02 == r1.e01 * r2.e12 + r1.e0123 * r2.e13 + r1.e0124 * r2.e14 - r1.e0134 * r2.e1234 + r1.e02 * r2.s - r1.e0234 * r2.e34 - r1.e03 * r2.e23 - r1.e04 * r2.e24 - r1.e12 * r2.e01 + r1.e1234 * r2.e0134 + r1.e13 * r2.e0123 + r1.e14 * r2.e0124 + r1.e23 * r2.e03 + r1.e24 * r2.e04 - r1.e34 * r2.e0234 + r1.s * r2.e02;
            assert(x.e03 == 0) by (nonlinear_arith)
                requires
                    r1.s == c1,
                    r1.e01 == 0,
                    r1.e02 == 0,
                    r1.e03 == 0,
                    r1.e04 == 0,
                    r1.e12 == s1,
                    r1.e13 == 0,
                    r1.e14 == 0,
                    r1.e23 == 0,
                    r1.e24 == 0,
                    r1.e34 == 0,
                    r1.e0123 == 0,
                    r1.e0124 == 0,
                    r1.e0134 == 0,
                    r1.e0234 == 0,
                    r1.e1234 == 0,
                    r2.s == c2,
                    r2.e01 == 0,
                    r2.e02 == 0,
                    r2.e03 == 0,
                    r2.e04 == 0,
                    r2.e12 == s2,
                    r2.e13 == 0,
                    r2.e14 == 0,
                    r2.e23 == 0,
                    r2.e24 == 0,
                    r2.e34 == 0,
                    r2.e0123 == 0,
                    r2.e0124 == 0,
                    r2.e0134 == 0,
                    r2.e0234 == 0,
                    r2.e1234 == 0,
                    x.e03 == r1.e01 * r2.e13 - r1.e0123 * r2.e12 + r1.e0124 * r2.e1234 + r1.e0134 * r2.e14 + r1.e02 * r2.e23 + r1.e0234 * r2.e24 + r1.e03 * r2.s - r1.e04 * r2.e34 - r1.e12 * r2.e0123 - r1.e1234 * r2.e0124 - r1.e13 * r2.e01 + r1.e14 * r2.e0134 - r1.e23 * r2.e02 + r1.e24 * r2.e0234 + r1.e34 * r2.e04 + r1.s * r2.e03;
            assert(x.e04 == 0) by (nonlinear_arith)
                requires
                    r1.s == c1,
                    r1.e01 == 0,
                    r1.e02 == 0,
                    r1.e03 == 0,
                    r1.e04 == 0,
                    r1.e12 == s1,
                    r1.e13 == 0,
                    r1.e14 == 0,
                    r1.e23 == 0,
                    r1.e24 == 0,
                    r1.e34 == 0,
                    r1.e0123 == 0,
                    r1.e0124 == 0,
                    r1.e0134 == 0,
                    r1.e0234 == 0,
                    r1.e1234 == 0,
                    r2.s == c2,
                    r2.e01 == 0,
                    r2.e02 == 0,
                    r2.e03 == 0,
                    r2.e04 == 0,
                    r2.e12 == s2,
                    r2.e13 == 0,
                    r2.e14 == 0,
                    r2.e23 == 0,
                    r2.e24 == 0,
                    r2.e34 == 0,
                    r2.e0123 == 0,
                    r2.e0124 == 0,
                    r2.e0134 == 0,
                    r2.e0234 == 0,
                    r2.e1234 == 0,
                    x.e04 == r1.e01 * r2.e14 - r1.e0123 * r2.e1234 - r1.e0124 * r2.e12 - r1.e0134 * r2.e13 + r1.e02 * r2.e24 - r1.e0234 * r2.e23 + r1.e03 * r2.e34 + r1.e04 * r2.s - r1.e12 * r2.e0124 + r1.e1234 * r2.e0123 - r1.e13 * r2.e0134 - r1.e14 * r2.e01 - r1.e23 * r2.e0234 - r1.e24 * r2.e02 - r1.e34 * r2.e03 + r1.s * r2.e04;
            assert(x.e12 == c1 * s2 + s1 * c2) by (nonlinear_arith)
                requires
                    r1.s == c1,
                    r1.e01 == 0,
                    r1.e02 == 0,
                    r1.e03 == 0,
                    r1.e04 == 0,
                    r1.e12 == s1,
                    r1.e13 == 0,
                    r1.e14 == 0,
                    r1.e23 == 0,
                    r1.e24 == 0,
                    r1.e34 == 0,
                    r1.e0123 == 0,
                    r1.e0124 == 0,
                    r1.e0134 == 0,
                    r1.e0234 == 0,
                    r1.e1234 == 0,
                    r2.s == c2,
                    r2.e01 == 0,
                    r2.e02 == 0,
                    r2.e03 == 0,
                    r2.e04 == 0,
                    r2.e12 == s2,
                    r2.e13 == 0,
                    r2.e14 == 0,
                    r2.e23 == 0,
                    r2.e24 == 0,
                    r2.e34 == 0,
                    r2.e0123 == 0,
                    r2.e0124 == 0,
                    r2.e0134 == 0,
                    r2.e0234 == 0,
                    r2.e1234 == 0,
                    x.e12 == r1.e12 * r2.s - r1.e1234 * r2.e34 - r1.e13 * r2.e23 - r1.e14 * r2.e24 + r1.e23 * r2.e13 + r1.e24 * r2.e14 - r1.e34 * r2.e1234 + r1.s * r2.e12;
            assert(x.e13 == 0) by (nonlinear_arith)
                requires
                    r1.s == c1,
                    r1.e01 == 0,
                    r1.e02 == 0,
                    r1.e03 == 0,
                    r1.e04 == 0,
                    r1.e12 == s1,
                    r1.e13 == 0,
                    r1.e14 == 0,
                    r1.e23 == 0,
                    r1.e24 == 0,
                    r1.e34 == 0,
                    r1.e0123 == 0,
                    r1.e0124 == 0,
                    r1.e0134 == 0,
                    r1.e0234 == 0,
                    r1.e1234 == 0,
                    r2.s == c2,
                    r2.e01 == 0,
                    r2.e02 == 0,
                    r2.e03 == 0,
                    r2.e04 == 0,
                    r2.e12 == s2,
                    r2.e13 == 0,
                    r2.e14 == 0,
                    r2.e23 == 0,
                    r2.e24 == 0,
                    r2.e34 == 0,
                    r2.e0123 == 0,
                    r2.e0124 == 0,
                    r2.e0134 == 0,
                    r2.e0234 == 0,
                    r2.e1234 == 0,
                    x.e13 == r1.e12 * r2.e23 + r1.e1234 * r2.e24 + r1.e13 * r2.s - r1.e14 * r2.e34 - r1.e23 * r2.e12 + r1.e24 * r2.e1234 + r1.e34 * r2.e14 + r1.s * r2.e13;
            assert(x.e14 == 0) by (nonlinear_arith)
                requires
                    r1.s == c1,
                    r1.e01 == 0,
                    r1.e02 == 0,
                    r1.e03 == 0,
                    r1.e04 == 0,
                    r1.e12 == s1,
                    r1.e13 == 0,
                    r1.e14 == 0,
                    r1.e23 == 0,
                    r1.e24 == 0,
                    r1.e34 == 0,
                    r1.e0123 == 0,
                    r1.e0124 == 0,
                    r1.e0134 == 0,
                    r1.e0234 == 0,
                    r1.e1234 == 0,
                    r2.s == c2,
                    r2.e01 == 0,
                    r2.e02 == 0,
                    r2.e03 == 0,
                    r2.e04 == 0,
                    r2.e12 == s2,
                    r2.e13 == 0,
                    r2.e14 == 0,
                    r2.e23 == 0,
                    r2.e24 == 0,
                    r2.e34 == 0,
                    r2.e0123 == 0,
                    r2.e0124 == 0,
                    r2.e0134 == 0,
                    r2.e0234 == 0,
                    r2.e1234 == 0,
                    x.e14 == r1.e12 * r2.e24 - r1.e1234 * r2.e23 + r1.e13 * r2.e34 + r1.e14 * r2.s - r1.e23 * r2.e1234 - r1.e24 * r2.e12 - r1.e34 * r2.e13 + r1.s * r2.e14;
            assert(x.e23 == 0) by (nonlinear_arith)
                requires
                    r1.s == c1,
                    r1.e01 == 0,
                    r1.e02 == 0,
                    r1.e03 == 0,
                    r1.e04 == 0,
                    r1.e12 == s1,
                    r1.e13 == 0,
                    r1.e14 == 0,
                    r1.e23 == 0,
                    r1.e24 == 0,
                    r1.e34 == 0,
                    r1.e0123 == 0,
                    r1.e0124 == 0,
                    r1.e0134 == 0,
                    r1.e0234 == 0,
                    r1.e1234 == 0,
                    r2.s == c2,
                    r2.e01 == 0,
                    r2.e02 == 0,
                    r2.e03 == 0,
                    r2.e04 == 0,
                    r2.e12 == s2,
                    r2.e13 == 0,
                    r2.e14 == 0,
                    r2.e23 == 0,
                    r2.e24 == 0,
                    r2.e34 == 0,
                    r2.e0123 == 0,
                    r2.e0124 == 0,
                    r2.e0134 == 0,
                    r2.e0234 == 0,
                    r2.e1234 == 0,
                    x.e23 == -(r1.e12 * r2.e13) - r1.e1234 * r2.e14 + r1.e13 * r2.e12 - r1.e14 * r2.e1234 + r1.e23 * r2.s - r1.e24 * r2.e34 + r1.e34 * r2.e24 + r1.s * r2.e23;
            assert(x.e24 == 0) by (nonlinear_arith)
                requires
                    r1.s == c1,
                    r1.e01 == 0,
                    r1.e02 == 0,
                    r1.e03 == 0,
                    r1.e04 == 0,
                    r1.e12 == s1,
                    r1.e13 == 0,
                    r1.e14 == 0,
                    r1.e23 == 0,
                    r1.e24 == 0,
                    r1.e34 == 0,
                    r1.e0123 == 0,
                    r1.e0124 == 0,
                    r1.e0134 == 0,
                    r1.e0234 == 0,
                    r1.e1234 == 0,
                    r2.s == c2,
                    r2.e01 == 0,
                    r2.e02 == 0,
                    r2.e03 == 0,
                    r2.e04 == 0,
                    r2.e12 == s2,
                    r2.e13 == 0,
                    r2.e14 == 0,
                    r2.e23 == 0,
                    r2.e24 == 0,
                    r2.e34 == 0,
                    r2.e0123 == 0,
                    r2.e0124 == 0,
                    r2.e0134 == 0,
                    r2.e0234 == 0,
                    r2.e1234 == 0,
                    x.e24 == -(r1.e12 * r2.e14) + r1.e1234 * r2.e13 + r1.e13 * r2.e1234 + r1.e14 * r2.e12 + r1.e23 * r2.e34 + r1.e24 * r2.s - r1.e34 * r2.e23 + r1.s * r2.e24;
            assert(x.e34 == 0) by (nonlinear_arith)
                requires
                    r1.s == c1,
                    r1.e01 == 0,
                    r1.e02 == 0,
                    r1.e03 == 0,
                    r1.e04 == 0,
                    r1.e12 == s1,
                    r1.e13 == 0,
                    r1.e14 == 0,
                    r1.e23 == 0,
                    r1.e24 == 0,
                    r1.e34 == 0,
                    r1.e0123 == 0,
                    r1.e0124 == 0,
                    r1.e0134 == 0,
                    r1.e0234 == 0,
                    r1.e1234 == 0,
                    r2.s == c2,
                    r2.e01 == 0,
                    r2.e02 == 0,
                    r2.e03 == 0,
                    r2.e04 == 0,
                    r2.e12 == s2,
                    r2.e13 == 0,
                    r2.e14 == 0,
                    r2.e23 == 0,
                    r2.e24 == 0,
                    r2.e34 == 0,
                    r2.e0123 == 0,
                    r2.e0124 == 0,
                    r2.e0134 == 0,
                    r2.e0234 == 0,
                    r2.e1234 == 0,
                    x.e34 == -(r1.e12 * r2.e1234) - r1.e1234 * r2.e12 - r1.e13 * r2.e14 + r1.e14 * r2.e13 - r1.e23 * r2.e24 + r1.e24 * r2.e23 + r1.e34 * r2.s + r1.s * r2.e34;
            assert(x.e0123 == 0) by (nonlinear_arith)
                requires
                    r1.s == c1,
                    r1.e01 == 0,
                    r1.e02 == 0,
                    r1.e03 == 0,
                    r1.e04 == 0,
                    r1.e12 == s1,
                    r1.e13 == 0,
                    r1.e14 == 0,
                    r1.e23 == 0,
                    r1.e24 == 0,
                    r1.e34 == 0,
                    r1.e0123 == 0,
                    r1.e0124 == 0,
                    r1.e0134 == 0,
                    r1.e0234 == 0,
                    r1.e1234 == 0,
                    r2.s == c2,
                    r2.e01 == 0,
                    r2.e02 == 0,
                    r2.e03 == 0,
                    r2.e04 == 0,
                    r2.e12 == s2,
                    r2.e13 == 0,
                    r2.e14 == 0,
                    r2.e23 == 0,
                    r2.e24 == 0,
                    r2.e34 == 0,
                    r2.e0123 == 0,
                    r2.e0124 == 0,
                    r2.e0134 == 0,
                    r2.e0234 == 0,
                    r2.e1234 == 0,
                    x.e0123 == r1.e01 * r2.e23 + r1.e0123 * r2.s - r1.e0124 * r2.e34 + r1.e0134 * r2.e24 - r1.e02 * r2.e13 - r1.e0234 * r2.e14 + r1.e03 * r2.e12 - r1.e04 * r2.e1234 + r1.e12 * r2.e03 + r1.e1234 * r2.e04 - r1.e13 * r2.e02 + r1.e14 * r2.e0234 + r1.e23 * r2.e01 - r1.e24 * r2.e0134 + r1.e34 * r2.e0124 + r1.s * r2.e0123;
            assert(x.e0124 == 0) by (nonlinear_arith)
                requires
                    r1.s == c1,
                    r1.e01 == 0,
                    r1.e02 == 0,
                    r1.e03 == 0,
                    r1.e04 == 0,
                    r1.e12 == s1,
                    r1.e13 == 0,
                    r1.e14 == 0,
                    r1.e23 == 0,
                    r1.e24 == 0,
                    r1.e34 == 0,
                    r1.e0123 == 0,
                    r1.e0124 == 0,
                    r1.e0134 == 0,
                    r1.e0234 == 0,
                    r1.e1234 == 0,
                    r2.s == c2,
                    r2.e01 == 0,
                    r2.e02 == 0,
                    r2.e03 == 0,
                    r2.e04 == 0,
                    r2.e12 == s2,
                    r2.e13 == 0,
                    r2.e14 == 0,
                    r2.e23 == 0,
                    r2.e24 == 0,
                    r2.e34 == 0,
                    r2.e0123 == 0,
                    r2.e0124 == 0,
                    r2.e0134 == 0,
                    r2.e0234 == 0,
                    r2.e1234 == 0,
                    x.e0124 == r1.e01 * r2.e24 + r1.e0123 * r2.e34 + r1.e0124 * r2.s - r1.e0134 * r2.e23 - r1.e02 * r2.e14 + r1.e0234 * r2.e13 + r1.e03 * r2.e1234 + r1.e04 * r2.e12 + r1.e12 * r2.e04 - r1.e1234 * r2.e03 - r1.e13 * r2.e0234 - r1.e14 * r2.e02 + r1.e23 * r2.e0134 + r1.e24 * r2.e01 - r1.e34 * r2.e0123 + r1.s * r2.e0124;
            assert(x.e0134 == 0) by (nonlinear_arith)
                requires
                    r1.s == c1,
                    r1.e01 == 0,
                    r1.e02 == 0,
                    r1.e03 == 0,
                    r1.e04 == 0,
                    r1.e12 == s1,
                    r1.e13 == 0,
                    r1.e14 == 0,
                    r1.e23 == 0,
                    r1.e24 == 0,
                    r1.e34 == 0,
                    r1.e0123 == 0,
                    r1.e0124 == 0,
                    r1.e0134 == 0,
                    r1.e0234 == 0,
                    r1.e1234 == 0,
                    r2.s == c2,
                    r2.e01 == 0,
                    r2.e02 == 0,
                    r2.e03 == 0,
                    r2.e04 == 0,
                    r2.e12 == s2,
                    r2.e13 == 0,
                    r2.e14 == 0,
                    r2.e23 == 0,
                    r2.e24 == 0,
                    r2.e34 == 0,
                    r2.e0123 == 0,
                    r2.e0124 == 0,
                    r2.e0134 == 0,
                    r2.e0234 == 0,
                    r2.e1234 == 0,
                    x.e0134 == r1.e01 * r2.e34 - r1.e0123 * r2.e24 + r1.e0124 * r2.e23 + r1.e0134 * r2.s - r1.e02 * r2.e1234 - r1.e0234 * r2.e12 - r1.e03 * r2.e14 + r1.e04 * r2.e13 + r1.e12 * r2.e0234 + r1.e1234 * r2.e02 + r1.e13 * r2.e04 - r1.e14 * r2.e03 - r1.e23 * r2.e0124 + r1.e24 * r2.e0123 + r1.e34 * r2.e01 + r1.s * r2.e0134;
            assert(x.e0234 == 0) by (nonlinear_arith)
                requires
                    r1.s == c1,
                    r1.e01 == 0,
                    r1.e02 == 0,
                    r1.e03 == 0,
                    r1.e04 == 0,
                    r1.e12 == s1,
                    r1.e13 == 0,
                    r1.e14 == 0,
                    r1.e23 == 0,
                    r1.e24 == 0,
                    r1.e34 == 0,
                    r1.e0123 == 0,
                    r1.e0124 == 0,
                    r1.e0134 == 0,
                    r1.e0234 == 0,
                    r1.e1234 == 0,
                    r2.s == c2,
                    r2.e01 == 0,
                    r2.e02 == 0,
                    r2.e03 == 0,
                    r2.e04 == 0,
                    r2.e12 == s2,
                    r2.e13 == 0,
                    r2.e14 == 0,
                    r2.e23 == 0,
                    r2.e24 == 0,
                    r2.e34 == 0,
                    r2.e0123 == 0,
                    r2.e0124 == 0,
                    r2.e0134 == 0,
                    r2.e0234 == 0,
                    r2.e1234 == 0,
                    x.e0234 == r1.e01 * r2.e1234 + r1.e0123 * r2.e14 - r1.e0124 * r2.e13 + r1.e0134 * r2.e12 + r1.e02 * r2.e34 + r1.e0234 * r2.s - r1.e03 * r2.e24 + r1.e04 * r2.e23 - r1.e12 * r2.e0134 - r1.e1234 * r2.e01 + r1.e13 * r2.e0124 - r1.e14 * r2.e0123 + r1.e23 * r2.e04 - r1.e24 * r2.e03 + r1.e34 * r2.e02 + r1.s * r2.e0234;
            assert(x.e1234 == 0) by (nonlinear_arith)
                requires
                    r1.s == c1,
                    r1.e01 == 0,
                    r1.e02 == 0,
                    r1.e03 == 0,
                    r1.e04 == 0,
                    r1.e12 == s1,
                    r1.e13 == 0,
                    r1.e14 == 0,
                    r1.e23 == 0,
                    r1.e24 == 0,
                    r1.e34 == 0,
                    r1.e0123 == 0,
                    r1.e0124 == 0,
                    r1.e0134 == 0,
                    r1.e0234 == 0,
                    r1.e1234 == 0,
                    r2.s == c2,
                    r2.e01 == 0,
                    r2.e02 == 0,
                    r2.e03 == 0,
                    r2.e04 == 0,
                    r2.e12 == s2,
                    r2.e13 == 0,
                    r2.e14 == 0,
                    r2.e23 == 0,
                    r2.e24 == 0,
                    r2.e34 == 0,
                    r2.e0123 == 0,
                    r2.e0124 == 0,
                    r2.e0134 == 0,
                    r2.e0234 == 0,
                    r2.e1234 == 0,
                    x.e1234 == r1.e12 * r2.e34 + r1.e1234 * r2.s - r1.e13 * r2.e24 + r1.e14 * r2.e23 + r1.e23 * r2.e14 - r1.e24 * r2.e13 + r1.e34 * r2.e12 + r1.s * r2.e1234;
        }
        Plane::E13 => {
            assert(x.s == c1 * c2 - s1 * s2) by (nonlinear_arith)
                requires
                    r1.s == c1,
                    r1.e01 == 0,
                    r1.e02 == 0,
                    r1.e03 == 0,
                    r1.e04 == 0,
                    r1.e12 == 0,
                    r1.e13 == s1,
                    r1.e14 == 0,
                    r1.e23 == 0,
                    r1.e24 == 0,
                    r1.e34 == 0,
                    r1.e0123 == 0,
                    r1.e0124 == 0,
                    r1.e0134 == 0,
                    r1.e0234 == 0,
                    r1.e1234 == 0,
                    r2.s == c2,
                    r2.e01 == 0,
                    r2.e02 == 0,
                    r2.e03 == 0,
                    r2.e04 == 0,
                    r2.e12 == 0,
                    r2.e13 == s2,
                    r2.e14 == 0,
                    r2.e23 == 0,
                    r2.e24 == 0,
                    r2.e34 == 0,
                    r2.e0123 == 0,
                    r2.e0124 == 0,
                    r2.e0134 == 0,
                    r2.e0234 == 0,
                    r2.e1234 == 0,
                    x.s == -(r1.e12 * r2.e12) + r1.e1234 * r2.e1234 - r1.e13 * r2.e13 - r1.e14 * r2.e14 - r1.e23 * r2.e23 - r1.e24 * r2.e24 - r1.e34 * r2.e34 + r1.s * r2.s;
            assert(x.e01 == 0) by (nonlinear_arith)
                requires
                    r1.s == c1,
                    r1.e01 == 0,
                    r1.e02 == 0,
                    r1.e03 == 0,
                    r1.e04 == 0,
                    r1.e12 == 0,
                    r1.e13 == s1,
                    r1.e14 == 0,
                    r1.e23 == 0,
                    r1.e24 == 0,
                    r1.e34 == 0,
                    r1.e0123 == 0,
                    r1.e0124 == 0,
                    r1.e0134 == 0,
                    r1.e0234 == 0,
                    r1.e1234 == 0,
                    r2.s == c2,
                    r2.e01 == 0,
                    r2.e02 == 0,
                    r2.e03 == 0,
                    r2.e04 == 0,
                    r2.e12 == 0,
                    r2.e13 == s2,
                    r2.e14 == 0,
                    r2.e23 == 0,
                    r2.e24 == 0,
                    r2.e34 == 0,
                    r2.e0123 == 0,
                    r2.e0124 == 0,
                    r2.e0134 == 0,
                    r2.e0234 == 0,
                    r2.e1234 == 0,
                    x.e01 == r1.e01 * r2.s - r1.e0123 * r2.e23 - r1.e0124 * r2.e24 - r1.e0134 * r2.e34 - r1.e02 * r2.e12 + r1.e0234 * r2.e1234 - r1.e03 * r2.e13 - r1.e04 * r2.e14 + r1.e12 * r2.e02 - r1.e1234 * r2.e0234 + r1.e13 * r2.e03 + r1.e14 * r2.e04 - r1.e23 * r2.e0123 - r1.e24 * r2.e0124 - r1.e34 * r2.e0134 + r1.s * r2.e01;
            assert(x.e02 == 0) by (nonlinear_arith)
                requires
                    r1.s == c1,
                    r1.e01 == 0,
                    r1.e02 == 0,
                    r1.e03 == 0,
                    r1.e04 == 0,
                    r1.e12 == 0,
                    r1.e13 == s1,
                    r1.e14 == 0,
                    r1.e23 == 0,
                    r1.e24 == 0,
                    r1.e34 == 0,
                    r1.e0123 == 0,
                    r1.e0124 == 0,
                    r1.e0134 == 0,
                    r1.e0234 == 0,
                    r1.e1234 == 0,
                    r2.s == c2,
                    r2.e01 == 0,
                    r2.e02 == 0,
                    r2.e03 == 0,
                    r2.e04 == 0,
                    r2.e12 == 0,
                    r2.e13 == s2,
                    r2.e14 == 0,
                    r2.e23 == 0,
                    r2.e24 == 0,
                    r2.e34 == 0,
                    r2.e0123 == 0,
                    r2.e0124 == 0,
                    r2.e0134 == 0,
                    r2.e0234 == 0,
                    r2.e1234 == 0,
                    x.e02 == r1.e01 * r2.e12 + r1.e0123 * r2.e13 + r1.e0124 * r2.e14 - r1.e0134 * r2.e1234 + r1.e02 * r2.s - r1.e0234 * r2.e34 - r1.e03 * r2.e23 - r1.e04 * r2.e24 - r1.e12 * r2.e01 + r1.e1234 * r2.e0134 + r1.e13 * r2.e0123 + r1.e14 * r2.e0124 + r1.e23 * r2.e03 + r1.e24 * r2.e04 - r1.e34 * r2.e0234 + r1.s * r2.e02;
            assert(x.e03 == 0) by (nonlinear_arith)
                requires
                    r1.s == c1,
                    r1.e01 == 0,
                    r1.e02 == 0,
                    r1.e03 == 0,
                    r1.e04 == 0,
                    r1.e12 == 0,
                    r1.e13 == s1,
                    r1.e14 == 0,
                    r1.e23 == 0,
                    r1.e24 == 0,
                    r1.e34 == 0,
                    r1.e0123 == 0,
                    r1.e0124 == 0,
                    r1.e0134 == 0,
                    r1.e0234 == 0,
                    r1.e1234 == 0,
                    r2.s == c2,
                    r2.e01 == 0,
                    r2.e02 == 0,
                    r2.e03 == 0,
                    r2.e04 == 0,
                    r2.e12 == 0,
                    r2.e13 == s2,
                    r2.e14 == 0,
                    r2.e23 == 0,
                    r2.e24 == 0,
                    r2.e34 == 0,
                    r2.e0123 == 0,
                    r2.e0124 == 0,
                    r2.e0134 == 0,
                    r2.e0234 == 0,
                    r2.e1234 == 0,
                    x.e03 == r1.e01 * r2.e13 - r1.e0123 * r2.e12 + r1.e0124 * r2.e1234 + r1.e0134 * r2.e14 + r1.e02 * r2.e23 + r1.e0234 * r2.e24 + r1.e03 * r2.s - r1.e04 * r2.e34 - r1.e12 * r2.e0123 - r1.e1234 * r2.e0124 - r1.e13 * r2.e01 + r1.e14 * r2.e0134 - r1.e23 * r2.e02 + r1.e24 * r2.e0234 + r1.e34 * r2.e04 + r1.s * r2.e03;
            assert(x.e04 == 0) by (nonlinear_arith)
                requires
                    r1.s == c1,
                    r1.e01 == 0,
                    r1.e02 == 0,
                    r1.e03 == 0,
                    r1.e04 == 0,
                    r1.e12 == 0,
                    r1.e13 == s1,
                    r1.e14 == 0,
                    r1.e23 == 0,
                    r1.e24 == 0,
                    r1.e34 == 0,
                    r1.e0123 == 0,
                    r1.e0124 == 0,
                    r1.e0134 == 0,
                    r1.e0234 == 0,
                    r1.e1234 == 0,
                    r2.s == c2,
                    r2.e01 == 0,
                    r2.e02 == 0,
                    r2.e03 == 0,
                    r2.e04 == 0,
                    r2.e12 == 0,
                    r2.e13 == s2,
                    r2.e14 == 0,
                    r2.e23 == 0,
                    r2.e24 == 0,
                    r2.e34 == 0,
                    r2.e0123 == 0,
                    r2.e0124 == 0,
                    r2.e0134 == 0,
                    r2.e0234 == 0,
                    r2.e1234 == 0,
                    x.e04 == r1.e01 * r2.e14 - r1.e0123 * r2.e1234 - r1.e0124 * r2.e12 - r1.e0134 * r2.e13 + r1.e02 * r2.e24 - r1.e0234 * r2.e23 + r1.e03 * r2.e34 + r1.e04 * r2.s - r1.e12 * r2.e0124 + r1.e1234 * r2.e0123 - r1.e13 * r2.e0134 - r1.e14 * r2.e01 - r1.e23 * r2.e0234 - r1.e24 * r2.e02 - r1.e34 * r2.e03 + r1.s * r2.e04;
            assert(x.e12 == 0) by (nonlinear_arith)
                requires
                    r1.s == c1,
                    r1.e01 == 0,
                    r1.e02 == 0,
                    r1.e03 == 0,
                    r1.e04 == 0,
                    r1.e12 == 0,
                    r1.e13 == s1,
                    r1.e14 == 0,
                    r1.e23 == 0,
                    r1.e24 == 0,
                    r1.e34 == 0,
                    r1.e0123 == 0,
                    r1.e0124 == 0,
                    r1.e0134 == 0,
                    r1.e0234 == 0,
                    r1.e1234 == 0,
                    r2.s == c2,
                    r2.e01 == 0,
                    r2.e02 == 0,
                    r2.e03 == 0,
                    r2.e04 == 0,
                    r2.e12 == 0,
                    r2.e13 == s2,
                    r2.e14 == 0,
                    r2.e23 == 0,
                    r2.e24 == 0,
                    r2.e34 == 0,
                    r2.e0123 == 0,
                    r2.e0124 == 0,
                    r2.e0134 == 0,
                    r2.e0234 == 0,
                    r2.e1234 == 0,
                    x.e12 == r1.e12 * r2.s - r1.e1234 * r2.e34 - r1.e13 * r2.e23 - r1.e14 * r2.e24 + r1.e23 * r2.e13 + r1.e24 * r2.e14 - r1.e34 * r2.e1234 + r1.s * r2.e12;
            assert(x.e13 == c1 * s2 + s1 * c2) by (nonlinear_arith)
                requires
                    r1.s == c1,
                    r1.e01 == 0,
                    r1.e02 == 0,
                    r1.e03 == 0,
                    r1.e04 == 0,
                    r1.e12 == 0,
                    r1.e13 == s1,
                    r1.e14 == 0,
                    r1.e23 == 0,
                    r1.e24 == 0,
                    r1.e34 == 0,
                    r1.e0123 == 0,
                    r1.e0124 == 0,
                    r1.e0134 == 0,
                    r1.e0234 == 0,
                    r1.e1234 == 0,
                    r2.s == c2,
                    r2.e01 == 0,
                    r2.e02 == 0,
                    r2.e03 == 0,
                    r2.e04 == 0,
                    r2.e12 == 0,
                    r2.e13 == s2,
                    r2.e14 == 0,
                    r2.e23 == 0,
                    r2.e24 == 0,
                    r2.e34 == 0,
                    r2.e0123 == 0,
                    r2.e0124 == 0,
                    r2.e0134 == 0,
                    r2.e0234 == 0,
                    r2.e1234 == 0,
                    x.e13 == r1.e12 * r2.e23 + r1.e1234 * r2.e24 + r1.e13 * r2.s - r1.e14 * r2.e34 - r1.e23 * r2.e12 + r1.e24 * r2.e1234 + r1.e34 * r2.e14 + r1.s * r2.e13;
            assert(x.e14 == 0) by (nonlinear_arith)
                requires
                    r1.s == c1,
                    r1.e01 == 0,
                    r1.e02 == 0,
                    r1.e03 == 0,
                    r1.e04 == 0,
                    r1.e12 == 0,
                    r1.e13 == s1,
                    r1.e14 == 0,
                    r1.e23 == 0,
                    r1.e24 == 0,
                    r1.e34 == 0,
                    r1.e0123 == 0,
                    r1.e0124 == 0,
                    r1.e0134 == 0,
                    r1.e0234 == 0,
                    r1.e1234 == 0,
                    r2.s == c2,
                    r2.e01 == 0,
                    r2.e02 == 0,
                    r2.e03 == 0,
                    r2.e04 == 0,
                    r2.e12 == 0,
                    r2.e13 == s2,
                    r2.e14 == 0,
                    r2.e23 == 0,
                    r2.e24 == 0,
                    r2.e34 == 0,
                    r2.e0123 == 0,
                    r2.e0124 == 0,
                    r2.e0134 == 0,
                    r2.e0234 == 0,
                    r2.e1234 == 0,
                    x.e14 == r1.e12 * r2.e24 - r1.e1234 * r2.e23 + r1.e13 * r2.e34 + r1.e14 * r2.s - r1.e23 * r2.e1234 - r1.e24 * r2.e12 - r1.e34 * r2.e13 + r1.s * r2.e14;
            assert(x.e23 == 0) by (nonlinear_arith)
                requires
                    r1.s == c1,
                    r1.e01 == 0,
                    r1.e02 == 0,
                    r1.e03 == 0,
                    r1.e04 == 0,
                    r1.e12 == 0,
                    r1.e13 == s1,
                    r1.e14 == 0,
                    r1.e23 == 0,
                    r1.e24 == 0,
                    r1.e34 == 0,
                    r1.e0123 == 0,
                    r1.e0124 == 0,
                    r1.e0134 == 0,
                    r1.e0234 == 0,
                    r1.e1234 == 0,
                    r2.s == c2,
                    r2.e01 == 0,
                    r2.e02 == 0,
                    r2.e03 == 0,
                    r2.e04 == 0,
                    r2.e12 == 0,
                    r2.e13 == s2,
                    r2.e14 == 0,
                    r2.e23 == 0,
                    r2.e24 == 0,
                    r2.e34 == 0,
                    r2.e0123 == 0,
                    r2.e0124 == 0,
                    r2.e0134 == 0,
                    r2.e0234 == 0,
                    r2.e1234 == 0,
                    x.e23 == -(r1.e12 * r2.e13) - r1.e1234 * r2.e14 + r1.e13 * r2.e12 - r1.e14 * r2.e1234 + r1.e23 * r2.s - r1.e24 * r2.e34 + r1.e34 * r2.e24 + r1.s * r2.e23;
            assert(x.e24 == 0) by (nonlinear_arith)
                requires
                    r1.s == c1,
                    r1.e01 == 0,
                    r1.e02 == 0,
                    r1.e03 == 0,
                    r1.e04 == 0,
                    r1.e12 == 0,
                    r1.e13 == s1,
                    r1.e14 == 0,
                    r1.e23 == 0,
                    r1.e24 == 0,
                    r1.e34 == 0,
                    r1.e0123 == 0,
                    r1.e0124 == 0,
                    r1.e0134 == 0,
                    r1.e0234 == 0,
                    r1.e1234 == 0,
                    r2.s == c2,
                    r2.e01 == 0,
                    r2.e02 == 0,
                    r2.e03 == 0,
                    r2.e04 == 0,
                    r2.e12 == 0,
                    r2.e13 == s2,
                    r2.e14 == 0,
                    r2.e23 == 0,
                    r2.e24 == 0,
                    r2.e34 == 0,
                    r2.e0123 == 0,
                    r2.e0124 == 0,
                    r2.e0134 == 0,
                    r2.e0234 == 0,
                    r2.e1234 == 0,
                    x.e24 == -(r1.e12 * r2.e14) + r1.e1234 * r2.e13 + r1.e13 * r2.e1234 + r1.e14 * r2.e12 + r1.e23 * r2.e34 + r1.e24 * r2.s - r1.e34 * r2.e23 + r1.s * r2.e24;
            assert(x.e34 == 0) by (nonlinear_arith)
                requires
                    r1.s == c1,
                    r1.e01 == 0,
                    r1.e02 == 0,
                    r1.e03 == 0,
                    r1.e04 == 0,
                    r1.e12 == 0,
                    r1.e13 == s1,
                    r1.e14 == 0,
                    r1.e23 == 0,
                    r1.e24 == 0,
                    r1.e34 == 0,
                    r1.e0123 == 0,
                    r1.e0124 == 0,
                    r1.e0134 == 0,
                    r1.e0234 == 0,
                    r1.e1234 == 0,
                    r2.s == c2,
                    r2.e01 == 0,
                    r2.e02 == 0,
                    r2.e03 == 0,
                    r2.e04 == 0,
                    r2.e12 == 0,
                    r2.e13 == s2,
                    r2.e14 == 0,
                    r2.e23 == 0,
                    r2.e24 == 0,
                    r2.e34 == 0,
                    r2.e0123 == 0,
                    r2.e0124 == 0,
                    r2.e0134 == 0,
                    r2.e0234 == 0,
                    r2.e1234 == 0,
                    x.e34 == -(r1.e12 * r2.e1234) - r1.e1234 * r2.e12 - r1.e13 * r2.e14 + r1.e14 * r2.e13 - r1.e23 * r2.e24 + r1.e24 * r2.e23 + r1.e34 * r2.s + r1.s * r2.e34;
            assert(x.e0123 == 0) by (nonlinear_arith)
                requires
                    r1.s == c1,
                    r1.e01 == 0,
                    r1.e02 == 0,
                    r1.e03 == 0,
                    r1.e04 == 0,
                    r1.e12 == 0,
                    r1.e13 == s1,
                    r1.e14 == 0,
                    r1.e23 == 0,
                    r1.e24 == 0,
                    r1.e34 == 0,
                    r1.e0123 == 0,
                    r1.e0124 == 0,
                    r1.e0134 == 0,
                    r1.e0234 == 0,
                    r1.e1234 == 0,
                    r2.s == c2,
                    r2.e01 == 0,
                    r2.e02 == 0,
                    r2.e03 == 0,
                    r2.e04 == 0,
                    r2.e12 == 0,
                    r2.e13 == s2,
                    r2.e14 == 0,
                    r2.e23 == 0,
                    r2.e24 == 0,
                    r2.e34 == 0,
                    r2.e0123 == 0,
                    r2.e0124 == 0,
                    r2.e0134 == 0,
                    r2.e0234 == 0,
                    r2.e1234 == 0,
                    x.e0123 == r1.e01 * r2.e23 + r1.e0123 * r2.s - r1.e0124 * r2.e34 + r1.e0134 * r2.e24 - r1.e02 * r2.e13 - r1.e0234 * r2.e14 + r1.e03 * r2.e12 - r1.e04 * r2.e1234 + r1.e12 * r2.e03 + r1.e1234 * r2.e04 - r1.e13 * r2.e02 + r1.e14 * r2.e0234 + r1.e23 * r2.e01 - r1.e24 * r2.e0134 + r1.e34 * r2.e0124 + r1.s * r2.e0123;
            assert(x.e0124 == 0) by (nonlinear_arith)
                requires
                    r1.s == c1,
                    r1.e01 == 0,
                    r1.e02 == 0,
                    r1.e03 == 0,
                    r1.e04 == 0,
                    r1.e12 == 0,
                    r1.e13 == s1,
                    r1.e14 == 0,
                    r1.e23 == 0,
                    r1.e24 == 0,
                    r1.e34 == 0,
                    r1.e0123 == 0,
                    r1.e0124 == 0,
                    r1.e0134 == 0,
                    r1.e0234 == 0,
                    r1.e1234 == 0,
                    r2.s == c2,
                    r2.e01 == 0,
                    r2.e02 == 0,
                    r2.e03 == 0,
                    r2.e04 == 0,
                    r2.e12 == 0,
                    r2.e13 == s2,
                    r2.e14 == 0,
                    r2.e23 == 0,
                    r2.e24 == 0,
                    r2.e34 == 0,
                    r2.e0123 == 0,
                    r2.e0124 == 0,
                    r2.e0134 == 0,
                    r2.e0234 == 0,
                    r2.e1234 == 0,
                    x.e0124 == r1.e01 * r2.e24 + r1.e0123 * r2.e34 + r1.e0124 * r2.s - r1.e0134 * r2.e23 - r1.e02 * r2.e14 + r1.e0234 * r2.e13 + r1.e03 * r2.e1234 + r1.e04 * r2.e12 + r1.e12 * r2.e04 - r1.e1234 * r2.e03 - r1.e13 * r2.e0234 - r1.e14 * r2.e02 + r1.e23 * r2.e0134 + r1.e24 * r2.e01 - r1.e34 * r2.e0123 + r1.s * r2.e0124;
            assert(x.e0134 == 0) by (nonlinear_arith)
                requires
                    r1.s == c1,
                    r1.e01 == 0,
                    r1.e02 == 0,
                    r1.e03 == 0,
                    r1.e04 == 0,
                    r1.e12 == 0,
                    r1.e13 == s1,
                    r1.e14 == 0,
                    r1.e23 == 0,
                    r1.e24 == 0,
                    r1.e34 == 0,
                    r1.e0123 == 0,
                    r1.e0124 == 0,
                    r1.e0134 == 0,
                    r1.e0234 == 0,
                    r1.e1234 == 0,
                    r2.s == c2,
                    r2.e01 == 0,
                    r2.e02 == 0,
                    r2.e03 == 0,
                    r2.e04 == 0,
                    r2.e12 == 0,
                    r2.e13 == s2,
                    r2.e14 == 0,
                    r2.e23 == 0,
                    r2.e24 == 0,
                    r2.e34 == 0,
                    r2.e0123 == 0,
                    r2.e0124 == 0,
                    r2.e0134 == 0,
                    r2.e0234 == 0,
                    r2.e1234 == 0,
                    x.e0134 == r1.e01 * r2.e34 - r1.e0123 * r2.e24 + r1.e0124 * r2.e23 + r1.e0134 * r2.s - r1.e02 * r2.e1234 - r1.e0234 * r2.e12 - r1.e03 * r2.e14 + r1.e04 * r2.e13 + r1.e12 * r2.e0234 + r1.e1234 * r2.e02 + r1.e13 * r2.e04 - r1.e14 * r2.e03 - r1.e23 * r2.e0124 + r1.e24 * r2.e0123 + r1.e34 * r2.e01 + r1.s * r2.e0134;
            assert(x.e0234 == 0) by (nonlinear_arith)
                requires
                    r1.s == c1,
                    r1.e01 == 0,
                    r1.e02 == 0,
                    r1.e03 == 0,
                    r1.e04 == 0,
                    r1.e12 == 0,
                    r1.e13 == s1,
                    r1.e14 == 0,
                    r1.e23 == 0,
                    r1.e24 == 0,
                    r1.e34 == 0,
                    r1.e0123 == 0,
                    r1.e0124 == 0,
                    r1.e0134 == 0,
                    r1.e0234 == 0,
                    r1.e1234 == 0,
                    r2.s == c2,
                    r2.e01 == 0,
                    r2.e02 == 0,
                    r2.e03 == 0,
                    r2.e04 == 0,
                    r2.e12 == 0,
                    r2.e13 == s2,
                    r2.e14 == 0,
                    r2.e23 == 0,
                    r2.e24 == 0,
                    r2.e34 == 0,
                    r2.e0123 == 0,
                    r2.e0124 == 0,
                    r2.e0134 == 0,
                    r2.e0234 == 0,
                    r2.e1234 == 0,
                    x.e0234 == r1.e01 * r2.e1234 + r1.e0123 * r2.e14 - r1.e0124 * r2.e13 + r1.e0134 * r2.e12 + r1.e02 * r2.e34 + r1.e0234 * r2.s - r1.e03 * r2.e24 + r1.e04 * r2.e23 - r1.e12 * r2.e0134 - r1.e1234 * r2.e01 + r1.e13 * r2.e0124 - r1.e14 * r2.e0123 + r1.e23 * r2.e04 - r1.e24 * r2.e03 + r1.e34 * r2.e02 + r1.s * r2.e0234;
            assert(x.e1234 == 0) by (nonlinear_arith)
                requires
                    r1.s == c1,
                    r1.e01 == 0,
                    r1.e02 == 0,
                    r1.e03 == 0,
                    r1.e04 == 0,
                    r1.e12 == 0,
                    r1.e13 == s1,
                    r1.e14 == 0,
                    r1.e23 == 0,
                    r1.e24 == 0,
                    r1.e34 == 0,
                    r1.e0123 == 0,
                    r1.e0124 == 0,
                    r1.e0134 == 0,
                    r1.e0234 == 0,
                    r1.e1234 == 0,
                    r2.s == c2,
                    r2.e01 == 0,
                    r2.e02 == 0,
                    r2.e03 == 0,
                    r2.e04 == 0,
                    r2.e12 == 0,
                    r2.e13 == s2,
                    r2.e14 == 0,
                    r2.e23 == 0,
                    r2.e24 == 0,
                    r2.e34 == 0,
                    r2.e0123 == 0,
                    r2.e0124 == 0,
                    r2.e0134 == 0,
                    r2.e0234 == 0,
                    r2.e1234 == 0,
                    x.e1234 == r1.e12 * r2.e34 + r1.e1234 * r2.s - r1.e13 * r2.e24 + r1.e14 * r2.e23 + r1.e23 * r2.e14 - r1.e24 * r2.e13 + r1.e34 * r2.e12 + r1.s * r2.e1234;
        }
        Plane::E14 => {
            assert(x.s == c1 * c2 - s1 * s2) by (nonlinear_arith)
                requires
                    r1.s == c1,
                    r1.e01 == 0,
                    r1.e02 == 0,
                    r1.e03 == 0,
                    r1.e04 == 0,
                    r1.e12 == 0,
                    r1.e13 == 0,
                    r1.e14 == s1,
                    r1.e23 == 0,
                    r1.e24 == 0,
                    r1.e34 == 0,
                    r1.e0123 == 0,
                    r1.e0124 == 0,
                    r1.e0134 == 0,
                    r1.e0234 == 0,
                    r1.e1234 == 0,
                    r2.s == c2,
                    r2.e01 == 0,
                    r2.e02 == 0,
                    r2.e03 == 0,
                    r2.e04 == 0,
                    r2.e12 == 0,
                    r2.e13 == 0,
                    r2.e14 == s2,
                    r2.e23 == 0,
                    r2.e24 == 0,
                    r2.e34 == 0,
                    r2.e0123 == 0,
                    r2.e0124 == 0,
                    r2.e0134 == 0,
                    r2.e0234 == 0,
                    r2.e1234 == 0,
                    x.s == -(r1.e12 * r2.e12) + r1.e1234 * r2.e1234 - r1.e13 * r2.e13 - r1.e14 * r2.e14 - r1.e23 * r2.e23 - r1.e24 * r2.e24 - r1.e34 * r2.e34 + r1.s * r2.s;
            assert(x.e01 == 0) by (nonlinear_arith)
                requires
                    r1.s == c1,
                    r1.e01 == 0,
                    r1.e02 == 0,
                    r1.e03 == 0,
                    r1.e04 == 0,
                    r1.e12 == 0,
                    r1.e13 == 0,
                    r1.e14 == s1,
                    r1.e23 == 0,
                    r1.e24 == 0,
                    r1.e34 == 0,
                    r1.e0123 == 0,
                    r1.e0124 == 0,
                    r1.e0134 == 0,
                    r1.e0234 == 0,
                    r1.e1234 == 0,
                    r2.s == c2,
                    r2.e01 == 0,
                    r2.e02 == 0,
                    r2.e03 == 0,
                    r2.e04 == 0,
                    r2.e12 == 0,
                    r2.e13 == 0,
                    r2.e14 == s2,
                    r2.e23 == 0,
                    r2.e24 == 0,
                    r2.e34 == 0,
                    r2.e0123 == 0,
                    r2.e0124 == 0,
                    r2.e0134 == 0,
                    r2.e0234 == 0,
                    r2.e1234 == 0,
                    x.e01 == r1.e01 * r2.s - r1.e0123 * r2.e23 - r1.e0124 * r2.e24 - r1.e0134 * r2.e34 - r1.e02 * r2.e12 + r1.e0234 * r2.e1234 - r1.e03 * r2.e13 - r1.e04 * r2.e14 + r1.e12 * r2.e02 - r1.e1234 * r2.e0234 + r1.e13 * r2.e03 + r1.e14 * r2.e04 - r1.e23 * r2.e0123 - r1.e24 * r2.e0124 - r1.e34 * r2.e0134 + r1.s * r2.e01;
            assert(x.e02 == 0) by (nonlinear_arith)
                requires
                    r1.s == c1,
                    r1.e01 == 0,
                    r1.e02 == 0,
                    r1.e03 == 0,
                    r1.e04 == 0,
                    r1.e12 == 0,
                    r1.e13 == 0,
                    r1.e14 == s1,
                    r1.e23 == 0,
                    r1.e24 == 0,
                    r1.e34 == 0,
                    r1.e0123 == 0,
                    r1.e0124 == 0,
                    r1.e0134 == 0,
                    r1.e0234 == 0,
                    r1.e1234 == 0,
                    r2.s == c2,
                    r2.e01 == 0,
                    r2.e02 == 0,
                    r2.e03 == 0,
                    r2.e04 == 0,
                    r2.e12 == 0,
                    r2.e13 == 0,
                    r2.e14 == s2,
                    r2.e23 == 0,
                    r2.e24 == 0,
                    r2.e34 == 0,
                    r2.e0123 == 0,
                    r2.e0124 == 0,
                    r2.e0134 == 0,
                    r2.e0234 == 0,
                    r2.e1234 == 0,
                    x.e02 == r1.e01 * r2.e12 + r1.e0123 * r2.e13 + r1.e0124 * r2.e14 - r1.e0134 * r2.e1234 + r1.e02 * r2.s - r1.e0234 * r2.e34 - r1.e03 * r2.e23 - r1.e04 * r2.e24 - r1.e12 * r2.e01 + r1.e1234 * r2.e0134 + r1.e13 * r2.e0123 + r1.e14 * r2.e0124 + r1.e23 * r2.e03 + r1.e24 * r2.e04 - r1.e34 * r2.e0234 + r1.s * r2.e02;
            assert(x.e03 == 0) by (nonlinear_arith)
                requires
                    r1.s == c1,
                    r1.e01 == 0,
                    r1.e02 == 0,
                    r1.e03 == 0,
                    r1.e04 == 0,
                    r1.e12 == 0,
                    r1.e13 == 0,
                    r1.e14 == s1,
                    r1.e23 == 0,
                    r1.e24 == 0,
                    r1.e34 == 0,
                    r1.e0123 == 0,
                    r1.e0124 == 0,
                    r1.e0134 == 0,
                    r1.e0234 == 0,
                    r1.e1234 == 0,
                    r2.s == c2,
                    r2.e01 == 0,
                    r2.e02 == 0,
                    r2.e03 == 0,
                    r2.e04 == 0,
                    r2.e12 == 0,
                    r2.e13 == 0,
                    r2.e14 == s2,
                    r2.e23 == 0,
                    r2.e24 == 0,
                    r2.e34 == 0,
                    r2.e0123 == 0,
                    r2.e0124 == 0,
                    r2.e0134 == 0,
                    r2.e0234 == 0,
                    r2.e1234 == 0,
                    x.e03 == r1.e01 * r2.e13 - r1.e0123 * r2.e12 + r1.e0124 * r2.e1234 + r1.e0134 * r2.e14 + r1.e02 * r2.e23 + r1.e0234 * r2.e24 + r1.e03 * r2.s - r1.e04 * r2.e34 - r1.e12 * r2.e0123 - r1.e1234 * r2.e0124 - r1.e13 * r2.e01 + r1.e14 * r2.e0134 - r1.e23 * r2.e02 + r1.e24 * r2.e0234 + r1.e34 * r2.e04 + r1.s * r2.e03;
            assert(x.e04 == 0) by (nonlinear_arith)
                requires
                    r1.s == c1,
                    r1.e01 == 0,
                    r1.e02 == 0,
                    r1.e03 == 0,
                    r1.e04 == 0,
                    r1.e12 == 0,
                    r1.e13 == 0,
                    r1.e14 == s1,
                    r1.e23 == 0,
                    r1.e24 == 0,
                    r1.e34 == 0,
                    r1.e0123 == 0,
                    r1.e0124 == 0,
                    r1.e0134 == 0,
                    r1.e0234 == 0,
                    r1.e1234 == 0,
                    r2.s == c2,
                    r2.e01 == 0,
                    r2.e02 == 0,
                    r2.e03 == 0,
                    r2.e04 == 0,
                    r2.e12 == 0,
                    r2.e13 == 0,
                    r2.e14 == s2,
                    r2.e23 == 0,
                    r2.e24 == 0,
                    r2.e34 == 0,
                    r2.e0123 == 0,
                    r2.e0124 == 0,
                    r2.e0134 == 0,
                    r2.e0234 == 0,
                    r2.e1234 == 0,
                    x.e04 == r1.e01 * r2.e14 - r1.e0123 * r2.e1234 - r1.e0124 * r2.e12 - r1.e0134 * r2.e13 + r1.e02 * r2.e24 - r1.e0234 * r2.e23 + r1.e03 * r2.e34 + r1.e04 * r2.s - r1.e12 * r2.e0124 + r1.e1234 * r2.e0123 - r1.e13 * r2.e0134 - r1.e14 * r2.e01 - r1.e23 * r2.e0234 - r1.e24 * r2.e02 - r1.e34 * r2.e03 + r1.s * r2.e04;
            assert(x.e12 == 0) by (nonlinear_arith)
                requires
                    r1.s == c1,
                    r1.e01 == 0,
                    r1.e02 == 0,
                    r1.e03 == 0,
                    r1.e04 == 0,
                    r1.e12 == 0,
                    r1.e13 == 0,
                    r1.e14 == s1,
                    r1.e23 == 0,
                    r1.e24 == 0,
                    r1.e34 == 0,
                    r1.e0123 == 0,
                    r1.e0124 == 0,
                    r1.e0134 == 0,
                    r1.e0234 == 0,
                    r1.e1234 == 0,
                    r2.s == c2,
                    r2.e01 == 0,
                    r2.e02 == 0,
                    r2.e03 == 0,
                    r2.e04 == 0,
                    r2.e12 == 0,
                    r2.e13 == 0,
                    r2.e14 == s2,
                    r2.e23 == 0,
                    r2.e24 == 0,
                    r2.e34 == 0,
                    r2.e0123 == 0,
                    r2.e0124 == 0,
                    r2.e0134 == 0,
                    r2.e0234 == 0,
                    r2.e1234 == 0,
                    x.e12 == r1.e12 * r2.s - r1.e1234 * r2.e34 - r1.e13 * r2.e23 - r1.e14 * r2.e24 + r1.e23 * r2.e13 + r1.e24 * r2.e14 - r1.e34 * r2.e1234 + r1.s * r2.e12;
            assert(x.e13 == 0) by (nonlinear_arith)
                requires
                    r1.s == c1,
                    r1.e01 == 0,
                    r1.e02 == 0,
                    r1.e03 == 0,
                    r1.e04 == 0,
                    r1.e12 == 0,
                    r1.e13 == 0,
                    r1.e14 == s1,
                    r1.e23 == 0,
                    r1.e24 == 0,
                    r1.e34 == 0,
                    r1.e0123 == 0,
                    r1.e0124 == 0,
                    r1.e0134 == 0,
                    r1.e0234 == 0,
                    r1.e1234 == 0,
                    r2.s == c2,
                    r2.e01 == 0,
                    r2.e02 == 0,
                    r2.e03 == 0,
                    r2.e04 == 0,
                    r2.e12 == 0,
                    r2.e13 == 0,
                    r2.e14 == s2,
                    r2.e23 == 0,
                    r2.e24 == 0,
                    r2.e34 == 0,
                    r2.e0123 == 0,
                    r2.e0124 == 0,
                    r2.e0134 == 0,
                    r2.e0234 == 0,
                    r2.e1234 == 0,
                    x.e13 == r1.e12 * r2.e23 + r1.e1234 * r2.e24 + r1.e13 * r2.s - r1.e14 * r2.e34 - r1.e23 * r2.e12 + r1.e24 * r2.e1234 + r1.e34 * r2.e14 + r1.s * r2.e13;
            assert(x.e14 == c1 * s2 + s1 * c2) by (nonlinear_arith)
                requires
                    r1.s == c1,
                    r1.e01 == 0,
                    r1.e02 == 0,
                    r1.e03 == 0,
                    r1.e04 == 0,
                    r1.e12 == 0,
                    r1.e13 == 0,
                    r1.e14 == s1,
                    r1.e23 == 0,
                    r1.e24 == 0,
                    r1.e34 == 0,
                    r1.e0123 == 0,
                    r1.e0124 == 0,
                    r1.e0134 == 0,
                    r1.e0234 == 0,
                    r1.e1234 == 0,
                    r2.s == c2,
                    r2.e01 == 0,
                    r2.e02 == 0,
                    r2.e03 == 0,
                    r2.e04 == 0,
                    r2.e12 == 0,
                    r2.e13 == 0,
                    r2.e14 == s2,
                    r2.e23 == 0,
                    r2.e24 == 0,
                    r2.e34 == 0,
                    r2.e0123 == 0,
                    r2.e0124 == 0,
                    r2.e0134 == 0,
                    r2.e0234 == 0,
                    r2.e1234 == 0,
                    x.e14 == r1.e12 * r2.e24 - r1.e1234 * r2.e23 + r1.e13 * r2.e34 + r1.e14 * r2.s - r1.e23 * r2.e1234 - r1.e24 * r2.e12 - r1.e34 * r2.e13 + r1.s * r2.e14;
            assert(x.e23 == 0) by (nonlinear_arith)
                requires
                    r1.s == c1,
                    r1.e01 == 0,
                    r1.e02 == 0,
                    r1.e03 == 0,
                    r1.e04 == 0,
                    r1.e12 == 0,
                    r1.e13 == 0,
                    r1.e14 == s1,
                    r1.e23 == 0,
                    r1.e24 == 0,
                    r1.e34 == 0,
                    r1.e0123 == 0,
                    r1.e0124 == 0,
                    r1.e0134 == 0,
                    r1.e0234 == 0,
                    r1.e1234 == 0,
                    r2.s == c2,
                    r2.e01 == 0,
                    r2.e02 == 0,
                    r2.e03 == 0,
                    r2.e04 == 0,
                    r2.e12 == 0,
                    r2.e13 == 0,
                    r2.e14 == s2,
                    r2.e23 == 0,
                    r2.e24 == 0,
                    r2.e34 == 0,
                    r2.e0123 == 0,
                    r2.e0124 == 0,
                    r2.e0134 == 0,
                    r2.e0234 == 0,
                    r2.e1234 == 0,
                    x.e23 == -(r1.e12 * r2.e13) - r1.e1234 * r2.e14 + r1.e13 * r2.e12 - r1.e14 * r2.e1234 + r1.e23 * r2.s - r1.e24 * r2.e34 + r1.e34 * r2.e24 + r1.s * r2.e23;
            assert(x.e24 == 0) by (nonlinear_arith)
                requires
                    r1.s == c1,
                    r1.e01 == 0,
                    r1.e02 == 0,
                    r1.e03 == 0,
                    r1.e04 == 0,
                    r1.e12 == 0,
                    r1.e13 == 0,
                    r1.e14 == s1,
                    r1.e23 == 0,
                    r1.e24 == 0,
                    r1.e34 == 0,
                    r1.e0123 == 0,
                    r1.e0124 == 0,
                    r1.e0134 == 0,
                    r1.e0234 == 0,
                    r1.e1234 == 0,
                    r2.s == c2,
                    r2.e01 == 0,
                    r2.e02 == 0,
                    r2.e03 == 0,
                    r2.e04 == 0,
                    r2.e12 == 0,
                    r2.e13 == 0,
                    r2.e14 == s2,
                    r2.e23 == 0,
                    r2.e24 == 0,
                    r2.e34 == 0,
                    r2.e0123 == 0,
                    r2.e0124 == 0,
                    r2.e0134 == 0,
                    r2.e0234 == 0,
                    r2.e1234 == 0,
                    x.e24 == -(r1.e12 * r2.e14) + r1.e1234 * r2.e13 + r1.e13 * r2.e1234 + r1.e14 * r2.e12 + r1.e23 * r2.e34 + r1.e24 * r2.s - r1.e34 * r2.e23 + r1.s * r2.e24;
            assert(x.e34 == 0) by (nonlinear_arith)
                requires
                    r1.s == c1,
                    r1.e01 == 0,
                    r1.e02 == 0,
                    r1.e03 == 0,
                    r1.e04 == 0,
                    r1.e12 == 0,
                    r1.e13 == 0,
                    r1.e14 == s1,
                    r1.e23 == 0,
                    r1.e24 == 0,
                    r1.e34 == 0,
                    r1.e0123 == 0,
                    r1.e0124 == 0,
                    r1.e0134 == 0,
                    r1.e0234 == 0,
                    r1.e1234 == 0,
                    r2.s == c2,
                    r2.e01 == 0,
                    r2.e02 == 0,
                    r2.e03 == 0,
                    r2.e04 == 0,
                    r2.e12 == 0,
                    r2.e13 == 0,
                    r2.e14 == s2,
                    r2.e23 == 0,
                    r2.e24 == 0,
                    r2.e34 == 0,
                    r2.e0123 == 0,
                    r2.e0124 == 0,
                    r2.e0134 == 0,
                    r2.e0234 == 0,
                    r2.e1234 == 0,
                    x.e34 == -(r1.e12 * r2.e1234) - r1.e1234 * r2.e12 - r1.e13 * r2.e14 + r1.e14 * r2.e13 - r1.e23 * r2.e24 + r1.e24 * r2.e23 + r1.e34 * r2.s + r1.s * r2.e34;
            assert(x.e0123 == 0) by (nonlinear_arith)
                requires
                    r1.s == c1,
                    r1.e01 == 0,
                    r1.e02 == 0,
                    r1.e03 == 0,
                    r1.e04 == 0,
                    r1.e12 == 0,
                    r1.e13 == 0,
                    r1.e14 == s1,
                    r1.e23 == 0,
                    r1.e24 == 0,
                    r1.e34 == 0,
                    r1.e0123 == 0,
                    r1.e0124 == 0,
                    r1.e0134 == 0,
                    r1.e0234 == 0,
                    r1.e1234 == 0,
                    r2.s == c2,
                    r2.e01 == 0,
                    r2.e02 == 0,
                    r2.e03 == 0,
                    r2.e04 == 0,
                    r2.e12 == 0,
                    r2.e13 == 0,
                    r2.e14 == s2,
                    r2.e23 == 0,
                    r2.e24 == 0,
                    r2.e34 == 0,
                    r2.e0123 == 0,
                    r2.e0124 == 0,
                    r2.e0134 == 0,
                    r2.e0234 == 0,
                    r2.e1234 == 0,
                    x.e0123 == r1.e01 * r2.e23 + r1.e0123 * r2.s - r1.e0124 * r2.e34 + r1.e0134 * r2.e24 - r1.e02 * r2.e13 - r1.e0234 * r2.e14 + r1.e03 * r2.e12 - r1.e04 * r2.e1234 + r1.e12 * r2.e03 + r1.e1234 * r2.e04 - r1.e13 * r2.e02 + r1.e14 * r2.e0234 + r1.e23 * r2.e01 - r1.e24 * r2.e0134 + r1.e34 * r2.e0124 + r1.s * r2.e0123;
            assert(x.e0124 == 0) by (nonlinear_arith)
                requires
                    r1.s == c1,
                    r1.e01 == 0,
                    r1.e02 == 0,
                    r1.e03 == 0,
                    r1.e04 == 0,
                    r1.e12 == 0,
                    r1.e13 == 0,
                    r1.e14 == s1,
                    r1.e23 == 0,
                    r1.e24 == 0,
                    r1.e34 == 0,
                    r1.e0123 == 0,
                    r1.e0124 == 0,
                    r1.e0134 == 0,
                    r1.e0234 == 0,
                    r1.e1234 == 0,
                    r2.s == c2,
                    r2.e01 == 0,
                    r2.e02 == 0,
                    r2.e03 == 0,
                    r2.e04 == 0,
                    r2.e12 == 0,
                    r2.e13 == 0,
                    r2.e14 == s2,
                    r2.e23 == 0,
                    r2.e24 == 0,
                    r2.e34 == 0,
                    r2.e0123 == 0,
                    r2.e0124 == 0,
                    r2.e0134 == 0,
                    r2.e0234 == 0,
                    r2.e1234 == 0,
                    x.e0124 == r1.e01 * r2.e24 + r1.e0123 * r2.e34 + r1.e0124 * r2.s - r1.e0134 * r2.e23 - r1.e02 * r2.e14 + r1.e0234 * r2.e13 + r1.e03 * r2.e1234 + r1.e04 * r2.e12 + r1.e12 * r2.e04 - r1.e1234 * r2.e03 - r1.e13 * r2.e0234 - r1.e14 * r2.e02 + r1.e23 * r2.e0134 + r1.e24 * r2.e01 - r1.e34 * r2.e0123 + r1.s * r2.e0124;
            assert(x.e0134 == 0) by (nonlinear_arith)
                requires
                    r1.s == c1,
                    r1.e01 == 0,
                    r1.e02 == 0,
                    r1.e03 == 0,
                    r1.e04 == 0,
                    r1.e12 == 0,
                    r1.e13 == 0,
                    r1.e14 == s1,
                    r1.e23 == 0,
                    r1.e24 == 0,
                    r1.e34 == 0,
                    r1.e0123 == 0,
                    r1.e0124 == 0,
                    r1.e0134 == 0,
                    r1.e0234 == 0,
                    r1.e1234 == 0,
                    r2.s == c2,
                    r2.e01 == 0,
                    r2.e02 == 0,
                    r2.e03 == 0,
                    r2.e04 == 0,
                    r2.e12 == 0,
                    r2.e13 == 0,
                    r2.e14 == s2,
                    r2.e23 == 0,
                    r2.e24 == 0,
                    r2.e34 == 0,
                    r2.e0123 == 0,
                    r2.e0124 == 0,
                    r2.e0134 == 0,
                    r2.e0234 == 0,
                    r2.e1234 == 0,
                    x.e0134 == r1.e01 * r2.e34 - r1.e0123 * r2.e24 + r1.e0124 * r2.e23 + r1.e0134 * r2.s - r1.e02 * r2.e1234 - r1.e0234 * r2.e12 - r1.e03 * r2.e14 + r1.e04 * r2.e13 + r1.e12 * r2.e0234 + r1.e1234 * r2.e02 + r1.e13 * r2.e04 - r1.e14 * r2.e03 - r1.e23 * r2.e0124 + r1.e24 * r2.e0123 + r1.e34 * r2.e01 + r1.s * r2.e0134;
            assert(x.e0234 == 0) by (nonlinear_arith)
                requires
                    r1.s == c1,
                    r1.e01 == 0,
                    r1.e02 == 0,
                    r1.e03 == 0,
                    r1.e04 == 0,
                    r1.e12 == 0,
                    r1.e13 == 0,
                    r1.e14 == s1,
                    r1.e23 == 0,
                    r1.e24 == 0,
                    r1.e34 == 0,
                    r1.e0123 == 0,
                    r1.e0124 == 0,
                    r1.e0134 == 0,
                    r1.e0234 == 0,
                    r1.e1234 == 0,
                    r2.s == c2,
                    r2.e01 == 0,
                    r2.e02 == 0,
                    r2.e03 == 0,
                    r2.e04 == 0,
                    r2.e12 == 0,
                    r2.e13 == 0,
                    r2.e14 == s2,
                    r2.e23 == 0,
                    r2.e24 == 0,
                    r2.e34 == 0,
                    r2.e0123 == 0,
                    r2.e0124 == 0,
                    r2.e0134 == 0,
                    r2.e0234 == 0,
                    r2.e1234 == 0,
                    x.e0234 == r1.e01 * r2.e1234 + r1.e0123 * r2.e14 - r1.e0124 * r2.e13 + r1.e0134 * r2.e12 + r1.e02 * r2.e34 + r1.e0234 * r2.s - r1.e03 * r2.e24 + r1.e04 * r2.e23 - r1.e12 * r2.e0134 - r1.e1234 * r2.e01 + r1.e13 * r2.e0124 - r1.e14 * r2.e0123 + r1.e23 * r2.e04 - r1.e24 * r2.e03 + r1.e34 * r2.e02 + r1.s * r2.e0234;
            assert(x.e1234 == 0) by (nonlinear_arith)
                requires
                    r1.s == c1,
                    r1.e01 == 0,
                    r1.e02 == 0,
                    r1.e03 == 0,
                    r1.e04 == 0,
                    r1.e12 == 0,
                    r1.e13 == 0,
                    r1.e14 == s1,
                    r1.e23 == 0,
                    r1.e24 == 0,
                    r1.e34 == 0,
                    r1.e0123 == 0,
                    r1.e0124 == 0,
                    r1.e0134 == 0,
                    r1.e0234 == 0,
                    r1.e1234 == 0,
                    r2.s == c2,
                    r2.e01 == 0,
                    r2.e02 == 0,
                    r2.e03 == 0,
                    r2.e04 == 0,
                    r2.e12 == 0,
                    r2.e13 == 0,
                    r2.e14 == s2,
                    r2.e23 == 0,
                    r2.e24 == 0,
                    r2.e34 == 0,
                    r2.e0123 == 0,
                    r2.e0124 == 0,
                    r2.e0134 == 0,
                    r2.e0234 == 0,
                    r2.e1234 == 0,
                    x.e1234 == r1.e12 * r2.e34 + r1.e1234 * r2.s - r1.e13 * r2.e24 + r1.e14 * r2.e23 + r1.e23 * r2.e14 - r1.e24 * r2.e13 + r1.e34 * r2.e12 + r1.s * r2.e1234;
        }
        Plane::E23 => {
            assert(x.s == c1 * c2 - s1 * s2) by (nonlinear_arith)
                requires
                    r1.s == c1,
                    r1.e01 == 0,
                    r1.e02 == 0,
                    r1.e03 == 0,
                    r1.e04 == 0,
                    r1.e12 == 0,
                    r1.e13 == 0,
                    r1.e14 == 0,
                    r1.e23 == s1,
                    r1.e24 == 0,
                    r1.e34 == 0,
                    r1.e0123 == 0,
                    r1.e0124 == 0,
                    r1.e0134 == 0,
                    r1.e0234 == 0,
                    r1.e1234 == 0,
                    r2.s == c2,
                    r2.e01 == 0,
                    r2.e02 == 0,
                    r2.e03 == 0,
                    r2.e04 == 0,
                    r2.e12 == 0,
                    r2.e13 == 0,
                    r2.e14 == 0,
                    r2.e23 == s2,
                    r2.e24 == 0,
                    r2.e34 == 0,
                    r2.e0123 == 0,
                    r2.e0124 == 0,
                    r2.e0134 == 0,
                    r2.e0234 == 0,
                    r2.e1234 == 0,
                    x.s == -(r1.e12 * r2.e12) + r1.e1234 * r2.e1234 - r1.e13 * r2.e13 - r1.e14 * r2.e14 - r1.e23 * r2.e23 - r1.e24 * r2.e24 - r1.e34 * r2.e34 + r1.s * r2.s;
            assert(x.e01 == 0) by (nonlinear_arith)
                requires
                    r1.s == c1,
                    r1.e01 == 0,
                    r1.e02 == 0,
                    r1.e03 == 0,
                    r1.e04 == 0,
                    r1.e12 == 0,
                    r1.e13 == 0,
                    r1.e14 == 0,
                    r1.e23 == s1,
                    r1.e24 == 0,
                    r1.e34 == 0,
                    r1.e0123 == 0,
                    r1.e0124 == 0,
                    r1.e0134 == 0,
                    r1.e0234 == 0,
                    r1.e1234 == 0,
                    r2.s == c2,
                    r2.e01 == 0,
                    r2.e02 == 0,
                    r2.e03 == 0,
                    r2.e04 == 0,
                    r2.e12 == 0,
                    r2.e13 == 0,
                    r2.e14 == 0,
                    r2.e23 == s2,
                    r2.e24 == 0,
                    r2.e34 == 0,
                    r2.e0123 == 0,
                    r2.e0124 == 0,
                    r2.e0134 == 0,
                    r2.e0234 == 0,
                    r2.e1234 == 0,
                    x.e01 == r1.e01 * r2.s - r1.e0123 * r2.e23 - r1.e0124 * r2.e24 - r1.e0134 * r2.e34 - r1.e02 * r2.e12 + r1.e0234 * r2.e1234 - r1.e03 * r2.e13 - r1.e04 * r2.e14 + r1.e12 * r2.e02 - r1.e1234 * r2.e0234 + r1.e13 * r2.e03 + r1.e14 * r2.e04 - r1.e23 * r2.e0123 - r1.e24 * r2.e0124 - r1.e34 * r2.e0134 + r1.s * r2.e01;
            assert(x.e02 == 0) by (nonlinear_arith)
                requires
                    r1.s == c1,
                    r1.e01 == 0,
                    r1.e02 == 0,
                    r1.e03 == 0,
                    r1.e04 == 0,
                    r1.e12 == 0,
                    r1.e13 == 0,
                    r1.e14 == 0,
                    r1.e23 == s1,
                    r1.e24 == 0,
                    r1.e34 == 0,
                    r1.e0123 == 0,
                    r1.e0124 == 0,
                    r1.e0134 == 0,
                    r1.e0234 == 0,
                    r1.e1234 == 0,
                    r2.s == c2,
                    r2.e01 == 0,
                    r2.e02 == 0,
                    r2.e03 == 0,
                    r2.e04 == 0,
                    r2.e12 == 0,
                    r2.e13 == 0,
                    r2.e14 == 0,
                    r2.e23 == s2,
                    r2.e24 == 0,
                    r2.e34 == 0,
                    r2.e0123 == 0,
                    r2.e0124 == 0,
                    r2.e0134 == 0,
                    r2.e0234 == 0,
                    r2.e1234 == 0,
                    x.e02 == r1.e01 * r2.e12 + r1.e0123 * r2.e13 + r1.e0124 * r2.e14 - r1.e0134 * r2.e1234 + r1.e02 * r2.s - r1.e0234 * r2.e34 - r1.e03 * r2.e23 - r1.e04 * r2.e24 - r1.e12 * r2.e01 + r1.e1234 * r2.e0134 + r1.e13 * r2.e0123 + r1.e14 * r2.e0124 + r1.e23 * r2.e03 + r1.e24 * r2.e04 - r1.e34 * r2.e0234 + r1.s * r2.e02;
            assert(x.e03 == 0) by (nonlinear_arith)
                requires
                    r1.s == c1,
                    r1.e01 == 0,
                    r1.e02 == 0,
                    r1.e03 == 0,
                    r1.e04 == 0,
                    r1.e12 == 0,
                    r1.e13 == 0,
                    r1.e14 == 0,
                    r1.e23 == s1,
                    r1.e24 == 0,
                    r1.e34 == 0,
                    r1.e0123 == 0,
                    r1.e0124 == 0,
                    r1.e0134 == 0,
                    r1.e0234 == 0,
                    r1.e1234 == 0,
                    r2.s == c2,
                    r2.e01 == 0,
                    r2.e02 == 0,
                    r2.e03 == 0,
                    r2.e04 == 0,
                    r2.e12 == 0,
                    r2.e13 == 0,
                    r2.e14 == 0,
                    r2.e23 == s2,
                    r2.e24 == 0,
                    r2.e34 == 0,
                    r2.e0123 == 0,
                    r2.e0124 == 0,
                    r2.e0134 == 0,
                    r2.e0234 == 0,
                    r2.e1234 == 0,
                    x.e03 == r1.e01 * r2.e13 - r1.e0123 * r2.e12 + r1.e0124 * r2.e1234 + r1.e0134 * r2.e14 + r1.e02 * r2.e23 + r1.e0234 * r2.e24 + r1.e03 * r2.s - r1.e04 * r2.e34 - r1.e12 * r2.e0123 - r1.e1234 * r2.e0124 - r1.e13 * r2.e01 + r1.e14 * r2.e0134 - r1.e23 * r2.e02 + r1.e24 * r2.e0234 + r1.e34 * r2.e04 + r1.s * r2.e03;
            assert(x.e04 == 0) by (nonlinear_arith)
                requires
                    r1.s == c1,
                    r1.e01 == 0,
                    r1.e02 == 0,
                    r1.e03 == 0,
                    r1.e04 == 0,
                    r1.e12 == 0,
                    r1.e13 == 0,
                    r1.e14 == 0,
                    r1.e23 == s1,
                    r1.e24 == 0,
                    r1.e34 == 0,
                    r1.e0123 == 0,
                    r1.e0124 == 0,
                    r1.e0134 == 0,
                    r1.e0234 == 0,
                    r1.e1234 == 0,
                    r2.s == c2,
                    r2.e01 == 0,
                    r2.e02 == 0,
                    r2.e03 == 0,
                    r2.e04 == 0,
                    r2.e12 == 0,
                    r2.e13 == 0,
                    r2.e14 == 0,
                    r2.e23 == s2,
                    r2.e24 == 0,
                    r2.e34 == 0,
                    r2.e0123 == 0,
                    r2.e0124 == 0,
                    r2.e0134 == 0,
                    r2.e0234 == 0,
                    r2.e1234 == 0,
                    x.e04 == r1.e01 * r2.e14 - r1.e0123 * r2.e1234 - r1.e0124 * r2.e12 - r1.e0134 * r2.e13 + r1.e02 * r2.e24 - r1.e0234 * r2.e23 + r1.e03 * r2.e34 + r1.e04 * r2.s - r1.e12 * r2.e0124 + r1.e1234 * r2.e0123 - r1.e13 * r2.e0134 - r1.e14 * r2.e01 - r1.e23 * r2.e0234 - r1.e24 * r2.e02 - r1.e34 * r2.e03 + r1.s * r2.e04;
            assert(x.e12 == 0) by (nonlinear_arith)
                requires
                    r1.s == c1,
                    r1.e01 == 0,
                    r1.e02 == 0,
                    r1.e03 == 0,
                    r1.e04 == 0,
                    r1.e12 == 0,
                    r1.e13 == 0,
                    r1.e14 == 0,
                    r1.e23 == s1,
                    r1.e24 == 0,
                    r1.e34 == 0,
                    r1.e0123 == 0,
                    r1.e0124 == 0,
                    r1.e0134 == 0,
                    r1.e0234 == 0,
                    r1.e1234 == 0,
                    r2.s == c2,
                    r2.e01 == 0,
                    r2.e02 == 0,
                    r2.e03 == 0,
                    r2.e04 == 0,
                    r2.e12 == 0,
                    r2.e13 == 0,
                    r2.e14 == 0,
                    r2.e23 == s2,
                    r2.e24 == 0,
                    r2.e34 == 0,
                    r2.e0123 == 0,
                    r2.e0124 == 0,
                    r2.e0134 == 0,
                    r2.e0234 == 0,
                    r2.e1234 == 0,
                    x.e12 == r1.e12 * r2.s - r1.e1234 * r2.e34 - r1.e13 * r2.e23 - r1.e14 * r2.e24 + r1.e23 * r2.e13 + r1.e24 * r2.e14 - r1.e34 * r2.e1234 + r1.s * r2.e12;
            assert(x.e13 == 0) by (nonlinear_arith)
                requires
                    r1.s == c1,
                    r1.e01 == 0,
                    r1.e02 == 0,
                    r1.e03 == 0,
                    r1.e04 == 0,
                    r1.e12 == 0,
                    r1.e13 == 0,
                    r1.e14 == 0,
                    r1.e23 == s1,
                    r1.e24 == 0,
                    r1.e34 == 0,
                    r1.e0123 == 0,
                    r1.e0124 == 0,
                    r1.e0134 == 0,
                    r1.e0234 == 0,
                    r1.e1234 == 0,
                    r2.s == c2,
                    r2.e01 == 0,
                    r2.e02 == 0,
                    r2.e03 == 0,
                    r2.e04 == 0,
                    r2.e12 == 0,
                    r2.e13 == 0,
                    r2.e14 == 0,
                    r2.e23 == s2,
                    r2.e24 == 0,
                    r2.e34 == 0,
                    r2.e0123 == 0,
                    r2.e0124 == 0,
                    r2.e0134 == 0,
                    r2.e0234 == 0,
                    r2.e1234 == 0,
                    x.e13 == r1.e12 * r2.e23 + r1.e1234 * r2.e24 + r1.e13 * r2.s - r1.e14 * r2.e34 - r1.e23 * r2.e12 + r1.e24 * r2.e1234 + r1.e34 * r2.e14 + r1.s * r2.e13;
            assert(x.e14 == 0) by (nonlinear_arith)
                requires
                    r1.s == c1,
                    r1.e01 == 0,
                    r1.e02 == 0,
                    r1.e03 == 0,
                    r1.e04 == 0,
                    r1.e12 == 0,
                    r1.e13 == 0,
                    r1.e14 == 0,
                    r1.e23 == s1,
                    r1.e24 == 0,
                    r1.e34 == 0,
                    r1.e0123 == 0,
                    r1.e0124 == 0,
                    r1.e0134 == 0,
                    r1.e0234 == 0,
                    r1.e1234 == 0,
                    r2.s == c2,
                    r2.e01 == 0,
                    r2.e02 == 0,
                    r2.e03 == 0,
                    r2.e04 == 0,
                    r2.e12 == 0,
                    r2.e13 == 0,
                    r2.e14 == 0,
                    r2.e23 == s2,
                    r2.e24 == 0,
                    r2.e34 == 0,
                    r2.e0123 == 0,
                    r2.e0124 == 0,
                    r2.e0134 == 0,
                    r2.e0234 == 0,
                    r2.e1234 == 0,
                    x.e14 == r1.e12 * r2.e24 - r1.e1234 * r2.e23 + r1.e13 * r2.e34 + r1.e14 * r2.s - r1.e23 * r2.e1234 - r1.e24 * r2.e12 - r1.e34 * r2.e13 + r1.s * r2.e14;
            assert(x.e23 == c1 * s2 + s1 * c2) by (nonlinear_arith)
                requires
                    r1.s == c1,
                    r1.e01 == 0,
                    r1.e02 == 0,
                    r1.e03 == 0,
                    r1.e04 == 0,
                    r1.e12 == 0,
                    r1.e13 == 0,
                    r1.e14 == 0,
                    r1.e23 == s1,
                    r1.e24 == 0,
                    r1.e34 == 0,
                    r1.e0123 == 0,
                    r1.e0124 == 0,
                    r1.e0134 == 0,
                    r1.e0234 == 0,
                    r1.e1234 == 0,
                    r2.s == c2,
                    r2.e01 == 0,
                    r2.e02 == 0,
                    r2.e03 == 0,
                    r2.e04 == 0,
                    r2.e12 == 0,
                    r2.e13 == 0,
                    r2.e14 == 0,
                    r2.e23 == s2,
                    r2.e24 == 0,
                    r2.e34 == 0,
                    r2.e0123 == 0,
                    r2.e0124 == 0,
                    r2.e0134 == 0,
                    r2.e0234 == 0,
                    r2.e1234 == 0,
                    x.e23 == -(r1.e12 * r2.e13) - r1.e1234 * r2.e14 + r1.e13 * r2.e12 - r1.e14 * r2.e1234 + r1.e23 * r2.s - r1.e24 * r2.e34 + r1.e34 * r2.e24 + r1.s * r2.e23;
            assert(x.e24 == 0) by (nonlinear_arith)
                requires
                    r1.s == c1,
                    r1.e01 == 0,
                    r1.e02 == 0,
                    r1.e03 == 0,
                    r1.e04 == 0,
                    r1.e12 == 0,
                    r1.e13 == 0,
                    r1.e14 == 0,
                    r1.e23 == s1,
                    r1.e24 == 0,
                    r1.e34 == 0,
                    r1.e0123 == 0,
                    r1.e0124 == 0,
                    r1.e0134 == 0,
                    r1.e0234 == 0,
                    r1.e1234 == 0,
                    r2.s == c2,
                    r2.e01 == 0,
                    r2.e02 == 0,
                    r2.e03 == 0,
                    r2.e04 == 0,
                    r2.e12 == 0,
                    r2.e13 == 0,
                    r2.e14 == 0,
                    r2.e23 == s2,
                    r2.e24 == 0,
                    r2.e34 == 0,
                    r2.e0123 == 0,
                    r2.e0124 == 0,
                    r2.e0134 == 0,
                    r2.e0234 == 0,
                    r2.e1234 == 0,
                    x.e24 == -(r1.e12 * r2.e14) + r1.e1234 * r2.e13 + r1.e13 * r2.e1234 + r1.e14 * r2.e12 + r1.e23 * r2.e34 + r1.e24 * r2.s - r1.e34 * r2.e23 + r1.s * r2.e24;
            assert(x.e34 == 0) by (nonlinear_arith)
                requires
                    r1.s == c1,
                    r1.e01 == 0,
                    r1.e02 == 0,
                    r1.e03 == 0,
                    r1.e04 == 0,
                    r1.e12 == 0,
                    r1.e13 == 0,
                    r1.e14 == 0,
                    r1.e23 == s1,
                    r1.e24 == 0,
                    r1.e34 == 0,
                    r1.e0123 == 0,
                    r1.e0124 == 0,
                    r1.e0134 == 0,
                    r1.e0234 == 0,
                    r1.e1234 == 0,
                    r2.s == c2,
                    r2.e01 == 0,
                    r2.e02 == 0,
                    r2.e03 == 0,
                    r2.e04 == 0,
                    r2.e12 == 0,
                    r2.e13 == 0,
                    r2.e14 == 0,
                    r2.e23 == s2,
                    r2.e24 == 0,
                    r2.e34 == 0,
                    r2.e0123 == 0,
                    r2.e0124 == 0,
                    r2.e0134 == 0,
                    r2.e0234 == 0,
                    r2.e1234 == 0,
                    x.e34 == -(r1.e12 * r2.e1234) - r1.e1234 * r2.e12 - r1.e13 * r2.e14 + r1.e14 * r2.e13 - r1.e23 * r2.e24 + r1.e24 * r2.e23 + r1.e34 * r2.s + r1.s * r2.e34;
            assert(x.e0123 == 0) by (nonlinear_arith)
                requires
                    r1.s == c1,
                    r1.e01 == 0,
                    r1.e02 == 0,
                    r1.e03 == 0,
                    r1.e04 == 0,
                    r1.e12 == 0,
                    r1.e13 == 0,
                    r1.e14 == 0,
                    r1.e23 == s1,
                    r1.e24 == 0,
                    r1.e34 == 0,
                    r1.e0123 == 0,
                    r1.e0124 == 0,
                    r1.e0134 == 0,
                    r1.e0234 == 0,
                    r1.e1234 == 0,
                    r2.s == c2,
                    r2.e01 == 0,
                    r2.e02 == 0,
                    r2.e03 == 0,
                    r2.e04 == 0,
                    r2.e12 == 0,
                    r2.e13 == 0,
                    r2.e14 == 0,
                    r2.e23 == s2,
                    r2.e24 == 0,
                    r2.e34 == 0,
                    r2.e0123 == 0,
                    r2.e0124 == 0,
                    r2.e0134 == 0,
                    r2.e0234 == 0,
                    r2.e1234 == 0,
                    x.e0123 == r1.e01 * r2.e23 + r1.e0123 * r2.s - r1.e0124 * r2.e34 + r1.e0134 * r2.e24 - r1.e02 * r2.e13 - r1.e0234 * r2.e14 + r1.e03 * r2.e12 - r1.e04 * r2.e1234 + r1.e12 * r2.e03 + r1.e1234 * r2.e04 - r1.e13 * r2.e02 + r1.e14 * r2.e0234 + r1.e23 * r2.e01 - r1.e24 * r2.e0134 + r1.e34 * r2.e0124 + r1.s * r2.e0123;
            assert(x.e0124 == 0) by (nonlinear_arith)
                requires
                    r1.s == c1,
                    r1.e01 == 0,
                    r1.e02 == 0,
                    r1.e03 == 0,
                    r1.e04 == 0,
                    r1.e12 == 0,
                    r1.e13 == 0,
                    r1.e14 == 0,
                    r1.e23 == s1,
                    r1.e24 == 0,
                    r1.e34 == 0,
                    r1.e0123 == 0,
                    r1.e0124 == 0,
                    r1.e0134 == 0,
                    r1.e0234 == 0,
                    r1.e1234 == 0,
                    r2.s == c2,
                    r2.e01 == 0,
                    r2.e02 == 0,
                    r2.e03 == 0,
                    r2.e04 == 0,
                    r2.e12 == 0,
                    r2.e13 == 0,
                    r2.e14 == 0,
                    r2.e23 == s2,
                    r2.e24 == 0,
                    r2.e34 == 0,
                    r2.e0123 == 0,
                    r2.e0124 == 0,
                    r2.e0134 == 0,
                    r2.e0234 == 0,
                    r2.e1234 == 0,
                    x.e0124 == r1.e01 * r2.e24 + r1.e0123 * r2.e34 + r1.e0124 * r2.s - r1.e0134 * r2.e23 - r1.e02 * r2.e14 + r1.e0234 * r2.e13 + r1.e03 * r2.e1234 + r1.e04 * r2.e12 + r1.e12 * r2.e04 - r1.e1234 * r2.e03 - r1.e13 * r2.e0234 - r1.e14 * r2.e02 + r1.e23 * r2.e0134 + r1.e24 * r2.e01 - r1.e34 * r2.e0123 + r1.s * r2.e0124;
            assert(x.e0134 == 0) by (nonlinear_arith)
                requires
                    r1.s == c1,
                    r1.e01 == 0,
                    r1.e02 == 0,
                    r1.e03 == 0,
                    r1.e04 == 0,
                    r1.e12 == 0,
                    r1.e13 == 0,
                    r1.e14 == 0,
                    r1.e23 == s1,
                    r1.e24 == 0,
                    r1.e34 == 0,
                    r1.e0123 == 0,
                    r1.e0124 == 0,
                    r1.e0134 == 0,
                    r1.e0234 == 0,
                    r1.e1234 == 0,
                    r2.s == c2,
                    r2.e01 == 0,
                    r2.e02 == 0,
                    r2.e03 == 0,
                    r2.e04 == 0,
                    r2.e12 == 0,
                    r2.e13 == 0,
                    r2.e14 == 0,
                    r2.e23 == s2,
                    r2.e24 == 0,
                    r2.e34 == 0,
                    r2.e0123 == 0,
                    r2.e0124 == 0,
                    r2.e0134 == 0,
                    r2.e0234 == 0,
                    r2.e1234 == 0,
                    x.e0134 == r1.e01 * r2.e34 - r1.e0123 * r2.e24 + r1.e0124 * r2.e23 + r1.e0134 * r2.s - r1.e02 * r2.e1234 - r1.e0234 * r2.e12 - r1.e03 * r2.e14 + r1.e04 * r2.e13 + r1.e12 * r2.e0234 + r1.e1234 * r2.e02 + r1.e13 * r2.e04 - r1.e14 * r2.e03 - r1.e23 * r2.e0124 + r1.e24 * r2.e0123 + r1.e34 * r2.e01 + r1.s * r2.e0134;
            assert(x.e0234 == 0) by (nonlinear_arith)
                requires
                    r1.s == c1,
                    r1.e01 == 0,
                    r1.e02 == 0,
                    r1.e03 == 0,
                    r1.e04 == 0,
                    r1.e12 == 0,
                    r1.e13 == 0,
                    r1.e14 == 0,
                    r1.e23 == s1,
                    r1.e24 == 0,
                    r1.e34 == 0,
                    r1.e0123 == 0,
                    r1.e0124 == 0,
                    r1.e0134 == 0,
                    r1.e0234 == 0,
                    r1.e1234 == 0,
                    r2.s == c2,
                    r2.e01 == 0,
                    r2.e02 == 0,
                    r2.e03 == 0,
                    r2.e04 == 0,
                    r2.e12 == 0,
                    r2.e13 == 0,
                    r2.e14 == 0,
                    r2.e23 == s2,
                    r2.e24 == 0,
                    r2.e34 == 0,
                    r2.e0123 == 0,
                    r2.e0124 == 0,
                    r2.e0134 == 0,
                    r2.e0234 == 0,
                    r2.e1234 == 0,
                    x.e0234 == r1.e01 * r2.e1234 + r1.e0123 * r2.e14 - r1.e0124 * r2.e13 + r1.e0134 * r2.e12 + r1.e02 * r2.e34 + r1.e0234 * r2.s - r1.e03 * r2.e24 + r1.e04 * r2.e23 - r1.e12 * r2.e0134 - r1.e1234 * r2.e01 + r1.e13 * r2.e0124 - r1.e14 * r2.e0123 + r1.e23 * r2.e04 - r1.e24 * r2.e03 + r1.e34 * r2.e02 + r1.s * r2.e0234;
            assert(x.e1234 == 0) by (nonlinear_arith)
                requires
                    r1.s == c1,
                    r1.e01 == 0,
                    r1.e02 == 0,
                    r1.e03 == 0,
                    r1.e04 == 0,
                    r1.e12 == 0,
                    r1.e13 == 0,
                    r1.e14 == 0,
                    r1.e23 == s1,
                    r1.e24 == 0,
                    r1.e34 == 0,
                    r1.e0123 == 0,
                    r1.e0124 == 0,
                    r1.e0134 == 0,
                    r1.e0234 == 0,
                    r1.e1234 == 0,
                    r2.s == c2,
                    r2.e01 == 0,
                    r2.e02 == 0,
                    r2.e03 == 0,
                    r2.e04 == 0,
                    r2.e12 == 0,
                    r2.e13 == 0,
                    r2.e14 == 0,
                    r2.e23 == s2,
                    r2.e24 == 0,
                    r2.e34 == 0,
                    r2.e0123 == 0,
                    r2.e0124 == 0,
                    r2.e0134 == 0,
                    r2.e0234 == 0,
                    r2.e1234 == 0,
                    x.e1234 == r1.e12 * r2.e34 + r1.e1234 * r2.s - r1.e13 * r2.e24 + r1.e14 * r2.e23 + r1.e23 * r2.e14 - r1.e24 * r2.e13 + r1.e34 * r2.e12 + r1.s * r2.e1234;
        }
        Plane::E24 => {
            assert(x.s == c1 * c2 - s1 * s2) by (nonlinear_arith)
                requires
                    r1.s == c1,
                    r1.e01 == 0,
                    r1.e02 == 0,
                    r1.e03 == 0,
                    r1.e04 == 0,
                    r1.e12 == 0,
                    r1.e13 == 0,
                    r1.e14 == 0,
                    r1.e23 == 0,
                    r1.e24 == s1,
                    r1.e34 == 0,
                    r1.e0123 == 0,
                    r1.e0124 == 0,
                    r1.e0134 == 0,
                    r1.e0234 == 0,
                    r1.e1234 == 0,
                    r2.s == c2,
                    r2.e01 == 0,
                    r2.e02 == 0,
                    r2.e03 == 0,
                    r2.e04 == 0,
                    r2.e12 == 0,
                    r2.e13 == 0,
                    r2.e14 == 0,
                    r2.e23 == 0,
                    r2.e24 == s2,
                    r2.e34 == 0,
                    r2.e0123 == 0,
                    r2.e0124 == 0,
                    r2.e0134 == 0,
                    r2.e0234 == 0,
                    r2.e1234 == 0,
                    x.s == -(r1.e12 * r2.e12) + r1.e1234 * r2.e1234 - r1.e13 * r2.e13 - r1.e14 * r2.e14 - r1.e23 * r2.e23 - r1.e24 * r2.e24 - r1.e34 * r2.e34 + r1.s * r2.s;
            assert(x.e01 == 0) by (nonlinear_arith)
                requires
                    r1.s == c1,
                    r1.e01 == 0,
                    r1.e02 == 0,
                    r1.e03 == 0,
                    r1.e04 == 0,
                    r1.e12 == 0,
                    r1.e13 == 0,
                    r1.e14 == 0,
                    r1.e23 == 0,
                    r1.e24 == s1,
                    r1.e34 == 0,
                    r1.e0123 == 0,
                    r1.e0124 == 0,
                    r1.e0134 == 0,
                    r1.e0234 == 0,
                    r1.e1234 == 0,
                    r2.s == c2,
                    r2.e01 == 0,
                    r2.e02 == 0,
                    r2.e03 == 0,
                    r2.e04 == 0,
                    r2.e12 == 0,
                    r2.e13 == 0,
                    r2.e14 == 0,
                    r2.e23 == 0,
                    r2.e24 == s2,
                    r2.e34 == 0,
                    r2.e0123 == 0,
                    r2.e0124 == 0,
                    r2.e0134 == 0,
                    r2.e0234 == 0,
                    r2.e1234 == 0,
                    x.e01 == r1.e01 * r2.s - r1.e0123 * r2.e23 - r1.e0124 * r2.e24 - r1.e0134 * r2.e34 - r1.e02 * r2.e12 + r1.e0234 * r2.e1234 - r1.e03 * r2.e13 - r1.e04 * r2.e14 + r1.e12 * r2.e02 - r1.e1234 * r2.e0234 + r1.e13 * r2.e03 + r1.e14 * r2.e04 - r1.e23 * r2.e0123 - r1.e24 * r2.e0124 - r1.e34 * r2.e0134 + r1.s * r2.e01;
            assert(x.e02 == 0) by (nonlinear_arith)
                requires
                    r1.s == c1,
                    r1.e01 == 0,
                    r1.e02 == 0,
                    r1.e03 == 0,
                    r1.e04 == 0,
                    r1.e12 == 0,
                    r1.e13 == 0,
                    r1.e14 == 0,
                    r1.e23 == 0,
                    r1.e24 == s1,
                    r1.e34 == 0,
                    r1.e0123 == 0,
                    r1.e0124 == 0,
                    r1.e0134 == 0,
                    r1.e0234 == 0,
                    r1.e1234 == 0,
                    r2.s == c2,
                    r2.e01 == 0,
                    r2.e02 == 0,
                    r2.e03 == 0,
                    r2.e04 == 0,
                    r2.e12 == 0,
                    r2.e13 == 0,
                    r2.e14 == 0,
                    r2.e23 == 0,
                    r2.e24 == s2,
                    r2.e34 == 0,
                    r2.e0123 == 0,
                    r2.e0124 == 0,
                    r2.e0134 == 0,
                    r2.e0234 == 0,
                    r2.e1234 == 0,
                    x.e02 == r1.e01 * r2.e12 + r1.e0123 * r2.e13 + r1.e0124 * r2.e14 - r1.e0134 * r2.e1234 + r1.e02 * r2.s - r1.e0234 * r2.e34 - r1.e03 * r2.e23 - r1.e04 * r2.e24 - r1.e12 * r2.e01 + r1.e1234 * r2.e0134 + r1.e13 * r2.e0123 + r1.e14 * r2.e0124 + r1.e23 * r2.e03 + r1.e24 * r2.e04 - r1.e34 * r2.e0234 + r1.s * r2.e02;
            assert(x.e03 == 0) by (nonlinear_arith)
                requires
                    r1.s == c1,
                    r1.e01 == 0,
                    r1.e02 == 0,
                    r1.e03 == 0,
                    r1.e04 == 0,
                    r1.e12 == 0,
                    r1.e13 == 0,
                    r1.e14 == 0,
                    r1.e23 == 0,
                    r1.e24 == s1,
                    r1.e34 == 0,
                    r1.e0123 == 0,
                    r1.e0124 == 0,
                    r1.e0134 == 0,
                    r1.e0234 == 0,
                    r1.e1234 == 0,
                    r2.s == c2,
                    r2.e01 == 0,
                    r2.e02 == 0,
                    r2.e03 == 0,
                    r2.e04 == 0,
                    r2.e12 == 0,
                    r2.e13 == 0,
                    r2.e14 == 0,
                    r2.e23 == 0,
                    r2.e24 == s2,
                    r2.e34 == 0,
                    r2.e0123 == 0,
                    r2.e0124 == 0,
                    r2.e0134 == 0,
                    r2.e0234 == 0,
                    r2.e1234 == 0,
                    x.e03 == r1.e01 * r2.e13 - r1.e0123 * r2.e12 + r1.e0124 * r2.e1234 + r1.e0134 * r2.e14 + r1.e02 * r2.e23 + r1.e0234 * r2.e24 + r1.e03 * r2.s - r1.e04 * r2.e34 - r1.e12 * r2.e0123 - r1.e1234 * r2.e0124 - r1.e13 * r2.e01 + r1.e14 * r2.e0134 - r1.e23 * r2.e02 + r1.e24 * r2.e0234 + r1.e34 * r2.e04 + r1.s * r2.e03;
            assert(x.e04 == 0) by (nonlinear_arith)
                requires
                    r1.s == c1,
                    r1.e01 == 0,
                    r1.e02 == 0,
                    r1.e03 == 0,
                    r1.e04 == 0,
                    r1.e12 == 0,
                    r1.e13 == 0,
                    r1.e14 == 0,
                    r1.e23 == 0,
                    r1.e24 == s1,
                    r1.e34 == 0,
                    r1.e0123 == 0,
                    r1.e0124 == 0,
                    r1.e0134 == 0,
                    r1.e0234 == 0,
                    r1.e1234 == 0,
                    r2.s == c2,
                    r2.e01 == 0,
                    r2.e02 == 0,
                    r2.e03 == 0,
                    r2.e04 == 0,
                    r2.e12 == 0,
                    r2.e13 == 0,
                    r2.e14 == 0,
                    r2.e23 == 0,
                    r2.e24 == s2,
                    r2.e34 == 0,
                    r2.e0123 == 0,
                    r2.e0124 == 0,
                    r2.e0134 == 0,
                    r2.e0234 == 0,
                    r2.e1234 == 0,
                    x.e04 == r1.e01 * r2.e14 - r1.e0123 * r2.e1234 - r1.e0124 * r2.e12 - r1.e0134 * r2.e13 + r1.e02 * r2.e24 - r1.e0234 * r2.e23 + r1.e03 * r2.e34 + r1.e04 * r2.s - r1.e12 * r2.e0124 + r1.e1234 * r2.e0123 - r1.e13 * r2.e0134 - r1.e14 * r2.e01 - r1.e23 * r2.e0234 - r1.e24 * r2.e02 - r1.e34 * r2.e03 + r1.s * r2.e04;
            assert(x.e12 == 0) by (nonlinear_arith)
                requires
                    r1.s == c1,
                    r1.e01 == 0,
                    r1.e02 == 0,
                    r1.e03 == 0,
                    r1.e04 == 0,
                    r1.e12 == 0,
                    r1.e13 == 0,
                    r1.e14 == 0,
                    r1.e23 == 0,
                    r1.e24 == s1,
                    r1.e34 == 0,
                    r1.e0123 == 0,
                    r1.e0124 == 0,
                    r1.e0134 == 0,
                    r1.e0234 == 0,
                    r1.e1234 == 0,
                    r2.s == c2,
                    r2.e01 == 0,
                    r2.e02 == 0,
                    r2.e03 == 0,
                    r2.e04 == 0,
                    r2.e12 == 0,
                    r2.e13 == 0,
                    r2.e14 == 0,
                    r2.e23 == 0,
                    r2.e24 == s2,
                    r2.e34 == 0,
                    r2.e0123 == 0,
                    r2.e0124 == 0,
                    r2.e0134 == 0,
                    r2.e0234 == 0,
                    r2.e1234 == 0,
                    x.e12 == r1.e12 * r2.s - r1.e1234 * r2.e34 - r1.e13 * r2.e23 - r1.e14 * r2.e24 + r1.e23 * r2.e13 + r1.e24 * r2.e14 - r1.e34 * r2.e1234 + r1.s * r2.e12;
            assert(x.e13 == 0) by (nonlinear_arith)
                requires
                    r1.s == c1,
                    r1.e01 == 0,
                    r1.e02 == 0,
                    r1.e03 == 0,
                    r1.e04 == 0,
                    r1.e12 == 0,
                    r1.e13 == 0,
                    r1.e14 == 0,
                    r1.e23 == 0,
                    r1.e24 == s1,
                    r1.e34 == 0,
                    r1.e0123 == 0,
                    r1.e0124 == 0,
                    r1.e0134 == 0,
                    r1.e0234 == 0,
                    r1.e1234 == 0,
                    r2.s == c2,
                    r2.e01 == 0,
                    r2.e02 == 0,
                    r2.e03 == 0,
                    r2.e04 == 0,
                    r2.e12 == 0,
                    r2.e13 == 0,
                    r2.e14 == 0,
                    r2.e23 == 0,
                    r2.e24 == s2,
                    r2.e34 == 0,
                    r2.e0123 == 0,
                    r2.e0124 == 0,
                    r2.e0134 == 0,
                    r2.e0234 == 0,
                    r2.e1234 == 0,
                    x.e13 == r1.e12 * r2.e23 + r1.e1234 * r2.e24 + r1.e13 * r2.s - r1.e14 * r2.e34 - r1.e23 * r2.e12 + r1.e24 * r2.e1234 + r1.e34 * r2.e14 + r1.s * r2.e13;
            assert(x.e14 == 0) by (nonlinear_arith)
                requires
                    r1.s == c1,
                    r1.e01 == 0,
                    r1.e02 == 0,
                    r1.e03 == 0,
                    r1.e04 == 0,
                    r1.e12 == 0,
                    r1.e13 == 0,
                    r1.e14 == 0,
                    r1.e23 == 0,
                    r1.e24 == s1,
                    r1.e34 == 0,
                    r1.e0123 == 0,
                    r1.e0124 == 0,
                    r1.e0134 == 0,
                    r1.e0234 == 0,
                    r1.e1234 == 0,
                    r2.s == c2,
                    r2.e01 == 0,
                    r2.e02 == 0,
                    r2.e03 == 0,
                    r2.e04 == 0,
                    r2.e12 == 0,
                    r2.e13 == 0,
                    r2.e14 == 0,
                    r2.e23 == 0,
                    r2.e24 == s2,
                    r2.e34 == 0,
                    r2.e0123 == 0,
                    r2.e0124 == 0,
                    r2.e0134 == 0,
                    r2.e0234 == 0,
                    r2.e1234 == 0,
                    x.e14 == r1.e12 * r2.e24 - r1.e1234 * r2.e23 + r1.e13 * r2.e34 + r1.e14 * r2.s - r1.e23 * r2.e1234 - r1.e24 * r2.e12 - r1.e34 * r2.e13 + r1.s * r2.e14;
            assert(x.e23 == 0) by (nonlinear_arith)
                requires
                    r1.s == c1,
                    r1.e01 == 0,
                    r1.e02 == 0,
                    r1.e03 == 0,
                    r1.e04 == 0,
                    r1.e12 == 0,
                    r1.e13 == 0,
                    r1.e14 == 0,
                    r1.e23 == 0,
                    r1.e24 == s1,
                    r1.e34 == 0,
                    r1.e0123 == 0,
                    r1.e0124 == 0,
                    r1.e0134 == 0,
                    r1.e0234 == 0,
                    r1.e1234 == 0,
                    r2.s == c2,
                    r2.e01 == 0,
                    r2.e02 == 0,
                    r2.e03 == 0,
                    r2.e04 == 0,
                    r2.e12 == 0,
                    r2.e13 == 0,
                    r2.e14 == 0,
                    r2.e23 == 0,
                    r2.e24 == s2,
                    r2.e34 == 0,
                    r2.e0123 == 0,
                    r2.e0124 == 0,
                    r2.e0134 == 0,
                    r2.e0234 == 0,
                    r2.e1234 == 0,
                    x.e23 == -(r1.e12 * r2.e13) - r1.e1234 * r2.e14 + r1.e13 * r2.e12 - r1.e14 * r2.e1234 + r1.e23 * r2.s - r1.e24 * r2.e34 + r1.e34 * r2.e24 + r1.s * r2.e23;
            assert(x.e24 == c1 * s2 + s1 * c2) by (nonlinear_arith)
                requires
                    r1.s == c1,
                    r1.e01 == 0,
                    r1.e02 == 0,
                    r1.e03 == 0,
                    r1.e04 == 0,
                    r1.e12 == 0,
                    r1.e13 == 0,
                    r1.e14 == 0,
                    r1.e23 == 0,
                    r1.e24 == s1,
                    r1.e34 == 0,
                    r1.e0123 == 0,
                    r1.e0124 == 0,
                    r1.e0134 == 0,
                    r1.e0234 == 0,
                    r1.e1234 == 0,
                    r2.s == c2,
                    r2.e01 == 0,
                    r2.e02 == 0,
                    r2.e03 == 0,
                    r2.e04 == 0,
                    r2.e12 == 0,
                    r2.e13 == 0,
                    r2.e14 == 0,
                    r2.e23 == 0,
                    r2.e24 == s2,
                    r2.e34 == 0,
                    r2.e0123 == 0,
                    r2.e0124 == 0,
                    r2.e0134 == 0,
                    r2.e0234 == 0,
                    r2.e1234 == 0,
                    x.e24 == -(r1.e12 * r2.e14) + r1.e1234 * r2.e13 + r1.e13 * r2.e1234 + r1.e14 * r2.e12 + r1.e23 * r2.e34 + r1.e24 * r2.s - r1.e34 * r2.e23 + r1.s * r2.e24;
            assert(x.e34 == 0) by (nonlinear_arith)
                requires
                    r1.s == c1,
                    r1.e01 == 0,
                    r1.e02 == 0,
                    r1.e03 == 0,
                    r1.e04 == 0,
                    r1.e12 == 0,
                    r1.e13 == 0,
                    r1.e14 == 0,
                    r1.e23 == 0,
                    r1.e24 == s1,
                    r1.e34 == 0,
                    r1.e0123 == 0,
                    r1.e0124 == 0,
                    r1.e0134 == 0,
                    r1.e0234 == 0,
                    r1.e1234 == 0,
                    r2.s == c2,
                    r2.e01 == 0,
                    r2.e02 == 0,
                    r2.e03 == 0,
                    r2.e04 == 0,
                    r2.e12 == 0,
                    r2.e13 == 0,
                    r2.e14 == 0,
                    r2.e23 == 0,
                    r2.e24 == s2,
                    r2.e34 == 0,
                    r2.e0123 == 0,
                    r2.e0124 == 0,
                    r2.e0134 == 0,
                    r2.e0234 == 0,
                    r2.e1234 == 0,
                    x.e34 == -(r1.e12 * r2.e1234) - r1.e1234 * r2.e12 - r1.e13 * r2.e14 + r1.e14 * r2.e13 - r1.e23 * r2.e24 + r1.e24 * r2.e23 + r1.e34 * r2.s + r1.s * r2.e34;
            assert(x.e0123 == 0) by (nonlinear_arith)
                requires
                    r1.s == c1,
                    r1.e01 == 0,
                    r1.e02 == 0,
                    r1.e03 == 0,
                    r1.e04 == 0,
                    r1.e12 == 0,
                    r1.e13 == 0,
                    r1.e14 == 0,
                    r1.e23 == 0,
                    r1.e24 == s1,
                    r1.e34 == 0,
                    r1.e0123 == 0,
                    r1.e0124 == 0,
                    r1.e0134 == 0,
                    r1.e0234 == 0,
                    r1.e1234 == 0,
                    r2.s == c2,
                    r2.e01 == 0,
                    r2.e02 == 0,
                    r2.e03 == 0,
                    r2.e04 == 0,
                    r2.e12 == 0,
                    r2.e13 == 0,
                    r2.e14 == 0,
                    r2.e23 == 0,
                    r2.e24 == s2,
                    r2.e34 == 0,
                    r2.e0123 == 0,
                    r2.e0124 == 0,
                    r2.e0134 == 0,
                    r2.e0234 == 0,
                    r2.e1234 == 0,
                    x.e0123 == r1.e01 * r2.e23 + r1.e0123 * r2.s - r1.e0124 * r2.e34 + r1.e0134 * r2.e24 - r1.e02 * r2.e13 - r1.e0234 * r2.e14 + r1.e03 * r2.e12 - r1.e04 * r2.e1234 + r1.e12 * r2.e03 + r1.e1234 * r2.e04 - r1.e13 * r2.e02 + r1.e14 * r2.e0234 + r1.e23 * r2.e01 - r1.e24 * r2.e0134 + r1.e34 * r2.e0124 + r1.s * r2.e0123;
            assert(x.e0124 == 0) by (nonlinear_arith)
                requires
                    r1.s == c1,
                    r1.e01 == 0,
                    r1.e02 == 0,
                    r1.e03 == 0,
                    r1.e04 == 0,
                    r1.e12 == 0,
                    r1.e13 == 0,
                    r1.e14 == 0,
                    r1.e23 == 0,
                    r1.e24 == s1,
                    r1.e34 == 0,
                    r1.e0123 == 0,
                    r1.e0124 == 0,
                    r1.e0134 == 0,
                    r1.e0234 == 0,
                    r1.e1234 == 0,
                    r2.s == c2,
                    r2.e01 == 0,
                    r2.e02 == 0,
                    r2.e03 == 0,
                    r2.e04 == 0,
                    r2.e12 == 0,
                    r2.e13 == 0,
                    r2.e14 == 0,
                    r2.e23 == 0,
                    r2.e24 == s2,
                    r2.e34 == 0,
                    r2.e0123 == 0,
                    r2.e0124 == 0,
                    r2.e0134 == 0,
                    r2.e0234 == 0,
                    r2.e1234 == 0,
                    x.e0124 == r1.e01 * r2.e24 + r1.e0123 * r2.e34 + r1.e0124 * r2.s - r1.e0134 * r2.e23 - r1.e02 * r2.e14 + r1.e0234 * r2.e13 + r1.e03 * r2.e1234 + r1.e04 * r2.e12 + r1.e12 * r2.e04 - r1.e1234 * r2.e03 - r1.e13 * r2.e0234 - r1.e14 * r2.e02 + r1.e23 * r2.e0134 + r1.e24 * r2.e01 - r1.e34 * r2.e0123 + r1.s * r2.e0124;
            assert(x.e0134 == 0) by (nonlinear_arith)
                requires
                    r1.s == c1,
                    r1.e01 == 0,
                    r1.e02 == 0,
                    r1.e03 == 0,
                    r1.e04 == 0,
                    r1.e12 == 0,
                    r1.e13 == 0,
                    r1.e14 == 0,
                    r1.e23 == 0,
                    r1.e24 == s1,
                    r1.e34 == 0,
                    r1.e0123 == 0,
                    r1.e0124 == 0,
                    r1.e0134 == 0,
                    r1.e0234 == 0,
                    r1.e1234 == 0,
                    r2.s == c2,
                    r2.e01 == 0,
                    r2.e02 == 0,
                    r2.e03 == 0,
                    r2.e04 == 0,
                    r2.e12 == 0,
                    r2.e13 == 0,
                    r2.e14 == 0,
                    r2.e23 == 0,
                    r2.e24 == s2,
                    r2.e34 == 0,
                    r2.e0123 == 0,
                    r2.e0124 == 0,
                    r2.e0134 == 0,
                    r2.e0234 == 0,
                    r2.e1234 == 0,
                    x.e0134 == r1.e01 * r2.e34 - r1.e0123 * r2.e24 + r1.e0124 * r2.e23 + r1.e0134 * r2.s - r1.e02 * r2.e1234 - r1.e0234 * r2.e12 - r1.e03 * r2.e14 + r1.e04 * r2.e13 + r1.e12 * r2.e0234 + r1.e1234 * r2.e02 + r1.e13 * r2.e04 - r1.e14 * r2.e03 - r1.e23 * r2.e0124 + r1.e24 * r2.e0123 + r1.e34 * r2.e01 + r1.s * r2.e0134;
            assert(x.e0234 == 0) by (nonlinear_arith)
                requires
                    r1.s == c1,
                    r1.e01 == 0,
                    r1.e02 == 0,
                    r1.e03 == 0,
                    r1.e04 == 0,
                    r1.e12 == 0,
                    r1.e13 == 0,
                    r1.e14 == 0,
                    r1.e23 == 0,
                    r1.e24 == s1,
                    r1.e34 == 0,
                    r1.e0123 == 0,
                    r1.e0124 == 0,
                    r1.e0134 == 0,
                    r1.e0234 == 0,
                    r1.e1234 == 0,
                    r2.s == c2,
                    r2.e01 == 0,
                    r2.e02 == 0,
                    r2.e03 == 0,
                    r2.e04 == 0,
                    r2.e12 == 0,
                    r2.e13 == 0,
                    r2.e14 == 0,
                    r2.e23 == 0,
                    r2.e24 == s2,
                    r2.e34 == 0,
                    r2.e0123 == 0,
                    r2.e0124 == 0,
                    r2.e0134 == 0,
                    r2.e0234 == 0,
                    r2.e1234 == 0,
                    x.e0234 == r1.e01 * r2.e1234 + r1.e0123 * r2.e14 - r1.e0124 * r2.e13 + r1.e0134 * r2.e12 + r1.e02 * r2.e34 + r1.e0234 * r2.s - r1.e03 * r2.e24 + r1.e04 * r2.e23 - r1.e12 * r2.e0134 - r1.e1234 * r2.e01 + r1.e13 * r2.e0124 - r1.e14 * r2.e0123 + r1.e23 * r2.e04 - r1.e24 * r2.e03 + r1.e34 * r2.e02 + r1.s * r2.e0234;
            assert(x.e1234 == 0) by (nonlinear_arith)
                requires
                    r1.s == c1,
                    r1.e01 == 0,
                    r1.e02 == 0,
                    r1.e03 == 0,
                    r1.e04 == 0,
                    r1.e12 == 0,
                    r1.e13 == 0,
                    r1.e14 == 0,
                    r1.e23 == 0,
                    r1.e24 == s1,
                    r1.e34 == 0,
                    r1.e0123 == 0,
                    r1.e0124 == 0,
                    r1.e0134 == 0,
                    r1.e0234 == 0,
                    r1.e1234 == 0,
                    r2.s == c2,
                    r2.e01 == 0,
                    r2.e02 == 0,
                    r2.e03 == 0,
                    r2.e04 == 0,
                    r2.e12 == 0,
                    r2.e13 == 0,
                    r2.e14 == 0,
                    r2.e23 == 0,
                    r2.e24 == s2,
                    r2.e34 == 0,
                    r2.e0123 == 0,
                    r2.e0124 == 0,
                    r2.e0134 == 0,
                    r2.e0234 == 0,
                    r2.e1234 == 0,
                    x.e1234 == r1.e12 * r2.e34 + r1.e1234 * r2.s - r1.e13 * r2.e24 + r1.e14 * r2.e23 + r1.e23 * r2.e14 - r1.e24 * r2.e13 + r1.e34 * r2.e12 + r1.s * r2.e1234;
        }
        Plane::E34 => {
            assert(x.s == c1 * c2 - s1 * s2) by (nonlinear_arith)
                requires
                    r1.s == c1,
                    r1.e01 == 0,
                    r1.e02 == 0,
                    r1.e03 == 0,
                    r1.e04 == 0,
                    r1.e12 == 0,
                    r1.e13 == 0,
                    r1.e14 == 0,
                    r1.e23 == 0,
                    r1.e24 == 0,
                    r1.e34 == s1,
                    r1.e0123 == 0,
                    r1.e0124 == 0,
                    r1.e0134 == 0,
                    r1.e0234 == 0,
                    r1.e1234 == 0,
                    r2.s == c2,
                    r2.e01 == 0,
                    r2.e02 == 0,
                    r2.e03 == 0,
                    r2.e04 == 0,
                    r2.e12 == 0,
                    r2.e13 == 0,
                    r2.e14 == 0,
                    r2.e23 == 0,
                    r2.e24 == 0,
                    r2.e34 == s2,
                    r2.e0123 == 0,
                    r2.e0124 == 0,
                    r2.e0134 == 0,
                    r2.e0234 == 0,
                    r2.e1234 == 0,
                    x.s == -(r1.e12 * r2.e12) + r1.e1234 * r2.e1234 - r1.e13 * r2.e13 - r1.e14 * r2.e14 - r1.e23 * r2.e23 - r1.e24 * r2.e24 - r1.e34 * r2.e34 + r1.s * r2.s;
            assert(x.e01 == 0) by (nonlinear_arith)
                requires
                    r1.s == c1,
                    r1.e01 == 0,
                    r1.e02 == 0,
                    r1.e03 == 0,
                    r1.e04 == 0,
                    r1.e12 == 0,
                    r1.e13 == 0,
                    r1.e14 == 0,
                    r1.e23 == 0,
                    r1.e24 == 0,
                    r1.e34 == s1,
                    r1.e0123 == 0,
                    r1.e0124 == 0,
                    r1.e0134 == 0,
                    r1.e0234 == 0,
                    r1.e1234 == 0,
                    r2.s == c2,
                    r2.e01 == 0,
                    r2.e02 == 0,
                    r2.e03 == 0,
                    r2.e04 == 0,
                    r2.e12 == 0,
                    r2.e13 == 0,
                    r2.e14 == 0,
                    r2.e23 == 0,
                    r2.e24 == 0,
                    r2.e34 == s2,
                    r2.e0123 == 0,
                    r2.e0124 == 0,
                    r2.e0134 == 0,
                    r2.e0234 == 0,
                    r2.e1234 == 0,
                    x.e01 == r1.e01 * r2.s - r1.e0123 * r2.e23 - r1.e0124 * r2.e24 - r1.e0134 * r2.e34 - r1.e02 * r2.e12 + r1.e0234 * r2.e1234 - r1.e03 * r2.e13 - r1.e04 * r2.e14 + r1.e12 * r2.e02 - r1.e1234 * r2.e0234 + r1.e13 * r2.e03 + r1.e14 * r2.e04 - r1.e23 * r2.e0123 - r1.e24 * r2.e0124 - r1.e34 * r2.e0134 + r1.s * r2.e01;
            assert(x.e02 == 0) by (nonlinear_arith)
                requires
                    r1.s == c1,
                    r1.e01 == 0,
                    r1.e02 == 0,
                    r1.e03 == 0,
                    r1.e04 == 0,
                    r1.e12 == 0,
                    r1.e13 == 0,
                    r1.e14 == 0,
                    r1.e23 == 0,
                    r1.e24 == 0,
                    r1.e34 == s1,
                    r1.e0123 == 0,
                    r1.e0124 == 0,
                    r1.e0134 == 0,
                    r1.e0234 == 0,
                    r1.e1234 == 0,
                    r2.s == c2,
                    r2.e01 == 0,
                    r2.e02 == 0,
                    r2.e03 == 0,
                    r2.e04 == 0,
                    r2.e12 == 0,
                    r2.e13 == 0,
                    r2.e14 == 0,
                    r2.e23 == 0,
                    r2.e24 == 0,
                    r2.e34 == s2,
                    r2.e0123 == 0,
                    r2.e0124 == 0,
                    r2.e0134 == 0,
                    r2.e0234 == 0,
                    r2.e1234 == 0,
                    x.e02 == r1.e01 * r2.e12 + r1.e0123 * r2.e13 + r1.e0124 * r2.e14 - r1.e0134 * r2.e1234 + r1.e02 * r2.s - r1.e0234 * r2.e34 - r1.e03 * r2.e23 - r1.e04 * r2.e24 - r1.e12 * r2.e01 + r1.e1234 * r2.e0134 + r1.e13 * r2.e0123 + r1.e14 * r2.e0124 + r1.e23 * r2.e03 + r1.e24 * r2.e04 - r1.e34 * r2.e0234 + r1.s * r2.e02;
            assert(x.e03 == 0) by (nonlinear_arith)
                requires
                    r1.s == c1,
                    r1.e01 == 0,
                    r1.e02 == 0,
                    r1.e03 == 0,
                    r1.e04 == 0,
                    r1.e12 == 0,
                    r1.e13 == 0,
                    r1.e14 == 0,
                    r1.e23 == 0,
                    r1.e24 == 0,
                    r1.e34 == s1,
                    r1.e0123 == 0,
                    r1.e0124 == 0,
                    r1.e0134 == 0,
                    r1.e0234 == 0,
                    r1.e1234 == 0,
                    r2.s == c2,
                    r2.e01 == 0,
                    r2.e02 == 0,
                    r2.e03 == 0,
                    r2.e04 == 0,
                    r2.e12 == 0,
                    r2.e13 == 0,
                    r2.e14 == 0,
                    r2.e23 == 0,
                    r2.e24 == 0,
                    r2.e34 == s2,
                    r2.e0123 == 0,
                    r2.e0124 == 0,
                    r2.e0134 == 0,
                    r2.e0234 == 0,
                    r2.e1234 == 0,
                    x.e03 == r1.e01 * r2.e13 - r1.e0123 * r2.e12 + r1.e0124 * r2.e1234 + r1.e0134 * r2.e14 + r1.e02 * r2.e23 + r1.e0234 * r2.e24 + r1.e03 * r2.s - r1.e04 * r2.e34 - r1.e12 * r2.e0123 - r1.e1234 * r2.e0124 - r1.e13 * r2.e01 + r1.e14 * r2.e0134 - r1.e23 * r2.e02 + r1.e24 * r2.e0234 + r1.e34 * r2.e04 + r1.s * r2.e03;
            assert(x.e04 == 0) by (nonlinear_arith)
                requires
                    r1.s == c1,
                    r1.e01 == 0,
                    r1.e02 == 0,
                    r1.e03 == 0,
                    r1.e04 == 0,
                    r1.e12 == 0,
                    r1.e13 == 0,
                    r1.e14 == 0,
                    r1.e23 == 0,
                    r1.e24 == 0,
                    r1.e34 == s1,
                    r1.e0123 == 0,
                    r1.e0124 == 0,
                    r1.e0134 == 0,
                    r1.e0234 == 0,
                    r1.e1234 == 0,
                    r2.s == c2,
                    r2.e01 == 0,
                    r2.e02 == 0,
                    r2.e03 == 0,
                    r2.e04 == 0,
                    r2.e12 == 0,
                    r2.e13 == 0,
                    r2.e14 == 0,
                    r2.e23 == 0,
                    r2.e24 == 0,
                    r2.e34 == s2,
                    r2.e0123 == 0,
                    r2.e0124 == 0,
                    r2.e0134 == 0,
                    r2.e0234 == 0,
                    r2.e1234 == 0,
                    x.e04 == r1.e01 * r2.e14 - r1.e0123 * r2.e1234 - r1.e0124 * r2.e12 - r1.e0134 * r2.e13 + r1.e02 * r2.e24 - r1.e0234 * r2.e23 + r1.e03 * r2.e34 + r1.e04 * r2.s - r1.e12 * r2.e0124 + r1.e1234 * r2.e0123 - r1.e13 * r2.e0134 - r1.e14 * r2.e01 - r1.e23 * r2.e0234 - r1.e24 * r2.e02 - r1.e34 * r2.e03 + r1.s * r2.e04;
            assert(x.e12 == 0) by (nonlinear_arith)
                requires
                    r1.s == c1,
                    r1.e01 == 0,
                    r1.e02 == 0,
                    r1.e03 == 0,
                    r1.e04 == 0,
                    r1.e12 == 0,
                    r1.e13 == 0,
                    r1.e14 == 0,
                    r1.e23 == 0,
                    r1.e24 == 0,
                    r1.e34 == s1,
                    r1.e0123 == 0,
                    r1.e0124 == 0,
                    r1.e0134 == 0,
                    r1.e0234 == 0,
                    r1.e1234 == 0,
                    r2.s == c2,
                    r2.e01 == 0,
                    r2.e02 == 0,
                    r2.e03 == 0,
                    r2.e04 == 0,
                    r2.e12 == 0,
                    r2.e13 == 0,
                    r2.e14 == 0,
                    r2.e23 == 0,
                    r2.e24 == 0,
                    r2.e34 == s2,
                    r2.e0123 == 0,
                    r2.e0124 == 0,
                    r2.e0134 == 0,
                    r2.e0234 == 0,
                    r2.e1234 == 0,
                    x.e12 == r1.e12 * r2.s - r1.e1234 * r2.e34 - r1.e13 * r2.e23 - r1.e14 * r2.e24 + r1.e23 * r2.e13 + r1.e24 * r2.e14 - r1.e34 * r2.e1234 + r1.s * r2.e12;
            assert(x.e13 == 0) by (nonlinear_arith)
                requires
                    r1.s == c1,
                    r1.e01 == 0,
                    r1.e02 == 0,
                    r1.e03 == 0,
                    r1.e04 == 0,
                    r1.e12 == 0,
                    r1.e13 == 0,
                    r1.e14 == 0,
                    r1.e23 == 0,
                    r1.e24 == 0,
                    r1.e34 == s1,
                    r1.e0123 == 0,
                    r1.e0124 == 0,
                    r1.e0134 == 0,
                    r1.e0234 == 0,
                    r1.e1234 == 0,
                    r2.s == c2,
                    r2.e01 == 0,
                    r2.e02 == 0,
                    r2.e03 == 0,
                    r2.e04 == 0,
                    r2.e12 == 0,
                    r2.e13 == 0,
                    r2.e14 == 0,
                    r2.e23 == 0,
                    r2.e24 == 0,
                    r2.e34 == s2,
                    r2.e0123 == 0,
                    r2.e0124 == 0,
                    r2.e0134 == 0,
                    r2.e0234 == 0,
                    r2.e1234 == 0,
                    x.e13 == r1.e12 * r2.e23 + r1.e1234 * r2.e24 + r1.e13 * r2.s - r1.e14 * r2.e34 - r1.e23 * r2.e12 + r1.e24 * r2.e1234 + r1.e34 * r2.e14 + r1.s * r2.e13;
            assert(x.e14 == 0) by (nonlinear_arith)
                requires
                    r1.s == c1,
                    r1.e01 == 0,
                    r1.e02 == 0,
                    r1.e03 == 0,
                    r1.e04 == 0,
                    r1.e12 == 0,
                    r1.e13 == 0,
                    r1.e14 == 0,
                    r1.e23 == 0,
                    r1.e24 == 0,
                    r1.e34 == s1,
                    r1.e0123 == 0,
                    r1.e0124 == 0,
                    r1.e0134 == 0,
                    r1.e0234 == 0,
                    r1.e1234 == 0,
                    r2.s == c2,
                    r2.e01 == 0,
                    r2.e02 == 0,
                    r2.e03 == 0,
                    r2.e04 == 0,
                    r2.e12 == 0,
                    r2.e13 == 0,
                    r2.e14 == 0,
                    r2.e23 == 0,
                    r2.e24 == 0,
                    r2.e34 == s2,
                    r2.e0123 == 0,
                    r2.e0124 == 0,
                    r2.e0134 == 0,
                    r2.e0234 == 0,
                    r2.e1234 == 0,
                    x.e14 == r1.e12 * r2.e24 - r1.e1234 * r2.e23 + r1.e13 * r2.e34 + r1.e14 * r2.s - r1.e23 * r2.e1234 - r1.e24 * r2.e12 - r1.e34 * r2.e13 + r1.s * r2.e14;
            assert(x.e23 == 0) by (nonlinear_arith)
                requires
                    r1.s == c1,
                    r1.e01 == 0,
                    r1.e02 == 0,
                    r1.e03 == 0,
                    r1.e04 == 0,
                    r1.e12 == 0,
                    r1.e13 == 0,
                    r1.e14 == 0,
                    r1.e23 == 0,
                    r1.e24 == 0,
                    r1.e34 == s1,
                    r1.e0123 == 0,
                    r1.e0124 == 0,
                    r1.e0134 == 0,
                    r1.e0234 == 0,
                    r1.e1234 == 0,
                    r2.s == c2,
                    r2.e01 == 0,
                    r2.e02 == 0,
                    r2.e03 == 0,
                    r2.e04 == 0,
                    r2.e12 == 0,
                    r2.e13 == 0,
                    r2.e14 == 0,
                    r2.e23 == 0,
                    r2.e24 == 0,
                    r2.e34 == s2,
                    r2.e0123 == 0,
                    r2.e0124 == 0,
                    r2.e0134 == 0,
                    r2.e0234 == 0,
                    r2.e1234 == 0,
                    x.e23 == -(r1.e12 * r2.e13) - r1.e1234 * r2.e14 + r1.e13 * r2.e12 - r1.e14 * r2.e1234 + r1.e23 * r2.s - r1.e24 * r2.e34 + r1.e34 * r2.e24 + r1.s * r2.e23;
            assert(x.e24 == 0) by (nonlinear_arith)
                requires
                    r1.s == c1,
                    r1.e01 == 0,
                    r1.e02 == 0,
                    r1.e03 == 0,
                    r1.e04 == 0,
                    r1.e12 == 0,
                    r1.e13 == 0,
                    r1.e14 == 0,
                    r1.e23 == 0,
                    r1.e24 == 0,
                    r1.e34 == s1,
                    r1.e0123 == 0,
                    r1.e0124 == 0,
                    r1.e0134 == 0,
                    r1.e0234 == 0,
                    r1.e1234 == 0,
                    r2.s == c2,
                    r2.e01 == 0,
                    r2.e02 == 0,
                    r2.e03 == 0,
                    r2.e04 == 0,
                    r2.e12 == 0,
                    r2.e13 == 0,
                    r2.e14 == 0,
                    r2.e23 == 0,
                    r2.e24 == 0,
                    r2.e34 == s2,
                    r2.e0123 == 0,
                    r2.e0124 == 0,
                    r2.e0134 == 0,
                    r2.e0234 == 0,
                    r2.e1234 == 0,
                    x.e24 == -(r1.e12 * r2.e14) + r1.e1234 * r2.e13 + r1.e13 * r2.e1234 + r1.e14 * r2.e12 + r1.e23 * r2.e34 + r1.e24 * r2.s - r1.e34 * r2.e23 + r1.s * r2.e24;
            assert(x.e34 == c1 * s2 + s1 * c2) by (nonlinear_arith)
                requires
                    r1.s == c1,
                    r1.e01 == 0,
                    r1.e02 == 0,
                    r1.e03 == 0,
                    r1.e04 == 0,
                    r1.e12 == 0,
                    r1.e13 == 0,
                    r1.e14 == 0,
                    r1.e23 == 0,
                    r1.e24 == 0,
                    r1.e34 == s1,
                    r1.e0123 == 0,
                    r1.e0124 == 0,
                    r1.e0134 == 0,
                    r1.e0234 == 0,
                    r1.e1234 == 0,
                    r2.s == c2,
                    r2.e01 == 0,
                    r2.e02 == 0,
                    r2.e03 == 0,
                    r2.e04 == 0,
                    r2.e12 == 0,
                    r2.e13 == 0,
                    r2.e14 == 0,
                    r2.e23 == 0,
                    r2.e24 == 0,
                    r2.e34 == s2,
                    r2.e0123 == 0,
                    r2.e0124 == 0,
                    r2.e0134 == 0,
                    r2.e0234 == 0,
                    r2.e1234 == 0,
                    x.e34 == -(r1.e12 * r2.e1234) - r1.e1234 * r2.e12 - r1.e13 * r2.e14 + r1.e14 * r2.e13 - r1.e23 * r2.e24 + r1.e24 * r2.e23 + r1.e34 * r2.s + r1.s * r2.e34;
            assert(x.e0123 == 0) by (nonlinear_arith)
                requires
                    r1.s == c1,
                    r1.e01 == 0,
                    r1.e02 == 0,
                    r1.e03 == 0,
                    r1.e04 == 0,
                    r1.e12 == 0,
                    r1.e13 == 0,
                    r1.e14 == 0,
                    r1.e23 == 0,
                    r1.e24 == 0,
                    r1.e34 == s1,
                    r1.e0123 == 0,
                    r1.e0124 == 0,
                    r1.e0134 == 0,
                    r1.e0234 == 0,
                    r1.e1234 == 0,
                    r2.s == c2,
                    r2.e01 == 0,
                    r2.e02 == 0,
                    r2.e03 == 0,
                    r2.e04 == 0,
                    r2.e12 == 0,
                    r2.e13 == 0,
                    r2.e14 == 0,
                    r2.e23 == 0,
                    r2.e24 == 0,
                    r2.e34 == s2,
                    r2.e0123 == 0,
                    r2.e0124 == 0,
                    r2.e0134 == 0,
                    r2.e0234 == 0,
                    r2.e1234 == 0,
                    x.e0123 == r1.e01 * r2.e23 + r1.e0123 * r2.s - r1.e0124 * r2.e34 + r1.e0134 * r2.e24 - r1.e02 * r2.e13 - r1.e0234 * r2.e14 + r1.e03 * r2.e12 - r1.e04 * r2.e1234 + r1.e12 * r2.e03 + r1.e1234 * r2.e04 - r1.e13 * r2.e02 + r1.e14 * r2.e0234 + r1.e23 * r2.e01 - r1.e24 * r2.e0134 + r1.e34 * r2.e0124 + r1.s * r2.e0123;
            assert(x.e0124 == 0) by (nonlinear_arith)
                requires
                    r1.s == c1,
                    r1.e01 == 0,
                    r1.e02 == 0,
                    r1.e03 == 0,
                    r1.e04 == 0,
                    r1.e12 == 0,
                    r1.e13 == 0,
                    r1.e14 == 0,
                    r1.e23 == 0,
                    r1.e24 == 0,
                    r1.e34 == s1,
                    r1.e0123 == 0,
                    r1.e0124 == 0,
                    r1.e0134 == 0,
                    r1.e0234 == 0,
                    r1.e1234 == 0,
                    r2.s == c2,
                    r2.e01 == 0,
                    r2.e02 == 0,
                    r2.e03 == 0,
                    r2.e04 == 0,
                    r2.e12 == 0,
                    r2.e13 == 0,
                    r2.e14 == 0,
                    r2.e23 == 0,
                    r2.e24 == 0,
                    r2.e34 == s2,
                    r2.e0123 == 0,
                    r2.e0124 == 0,
                    r2.e0134 == 0,
                    r2.e0234 == 0,
                    r2.e1234 == 0,
                    x.e0124 == r1.e01 * r2.e24 + r1.e0123 * r2.e34 + r1.e0124 * r2.s - r1.e0134 * r2.e23 - r1.e02 * r2.e14 + r1.e0234 * r2.e13 + r1.e03 * r2.e1234 + r1.e04 * r2.e12 + r1.e12 * r2.e04 - r1.e1234 * r2.e03 - r1.e13 * r2.e0234 - r1.e14 * r2.e02 + r1.e23 * r2.e0134 + r1.e24 * r2.e01 - r1.e34 * r2.e0123 + r1.s * r2.e0124;
            assert(x.e0134 == 0) by (nonlinear_arith)
                requires
                    r1.s == c1,
                    r1.e01 == 0,
                    r1.e02 == 0,
                    r1.e03 == 0,
                    r1.e04 == 0,
                    r1.e12 == 0,
                    r1.e13 == 0,
                    r1.e14 == 0,
                    r1.e23 == 0,
                    r1.e24 == 0,
                    r1.e34 == s1,
                    r1.e0123 == 0,
                    r1.e0124 == 0,
                    r1.e0134 == 0,
                    r1.e0234 == 0,
                    r1.e1234 == 0,
                    r2.s == c2,
                    r2.e01 == 0,
                    r2.e02 == 0,
                    r2.e03 == 0,
                    r2.e04 == 0,
                    r2.e12 == 0,
                    r2.e13 == 0,
                    r2.e14 == 0,
                    r2.e23 == 0,
                    r2.e24 == 0,
                    r2.e34 == s2,
                    r2.e0123 == 0,
                    r2.e0124 == 0,
                    r2.e0134 == 0,
                    r2.e0234 == 0,
                    r2.e1234 == 0,
                    x.e0134 == r1.e01 * r2.e34 - r1.e0123 * r2.e24 + r1.e0124 * r2.e23 + r1.e0134 * r2.s - r1.e02 * r2.e1234 - r1.e0234 * r2.e12 - r1.e03 * r2.e14 + r1.e04 * r2.e13 + r1.e12 * r2.e0234 + r1.e1234 * r2.e02 + r1.e13 * r2.e04 - r1.e14 * r2.e03 - r1.e23 * r2.e0124 + r1.e24 * r2.e0123 + r1.e34 * r2.e01 + r1.s * r2.e0134;
            assert(x.e0234 == 0) by (nonlinear_arith)
                requires
                    r1.s == c1,
                    r1.e01 == 0,
                    r1.e02 == 0,
                    r1.e03 == 0,
                    r1.e04 == 0,
                    r1.e12 == 0,
                    r1.e13 == 0,
                    r1.e14 == 0,
                    r1.e23 == 0,
                    r1.e24 == 0,
                    r1.e34 == s1,
                    r1.e0123 == 0,
                    r1.e0124 == 0,
                    r1.e0134 == 0,
                    r1.e0234 == 0,
                    r1.e1234 == 0,
                    r2.s == c2,
                    r2.e01 == 0,
                    r2.e02 == 0,
                    r2.e03 == 0,
                    r2.e04 == 0,
                    r2.e12 == 0,
                    r2.e13 == 0,
                    r2.e14 == 0,
                    r2.e23 == 0,
                    r2.e24 == 0,
                    r2.e34 == s2,
                    r2.e0123 == 0,
                    r2.e0124 == 0,
                    r2.e0134 == 0,
                    r2.e0234 == 0,
                    r2.e1234 == 0,
                    x.e0234 == r1.e01 * r2.e1234 + r1.e0123 * r2.e14 - r1.e0124 * r2.e13 + r1.e0134 * r2.e12 + r1.e02 * r2.e34 + r1.e0234 * r2.s - r1.e03 * r2.e24 + r1.e04 * r2.e23 - r1.e12 * r2.e0134 - r1.e1234 * r2.e01 + r1.e13 * r2.e0124 - r1.e14 * r2.e0123 + r1.e23 * r2.e04 - r1.e24 * r2.e03 + r1.e34 * r2.e02 + r1.s * r2.e0234;
            assert(x.e1234 == 0) by (nonlinear_arith)
                requires
                    r1.s == c1,
                    r1.e01 == 0,
                    r1.e02 == 0,
                    r1.e03 == 0,
                    r1.e04 == 0,
                    r1.e12 == 0,
                    r1.e13 == 0,
                    r1.e14 == 0,
                    r1.e23 == 0,
                    r1.e24 == 0,
                    r1.e34 == s1,
                    r1.e0123 == 0,
                    r1.e0124 == 0,
                    r1.e0134 == 0,
                    r1.e0234 == 0,
                    r1.e1234 == 0,
                    r2.s == c2,
                    r2.e01 == 0,
                    r2.e02 == 0,
                    r2.e03 == 0,
                    r2.e04 == 0,
                    r2.e12 == 0,
                    r2.e13 == 0,
                    r2.e14 == 0,
                    r2.e23 == 0,
                    r2.e24 == 0,
                    r2.e34 == s2,
                    r2.e0123 == 0,
                    r2.e0124 == 0,
                    r2.e0134 == 0,
                    r2.e0234 == 0,
                    r2.e1234 == 0,
                    x.e1234 == r1.e12 * r2.e34 + r1.e1234 * r2.s - r1.e13 * r2.e24 + r1.e14 * r2.e23 + r1.e23 * r2.e14 - r1.e24 * r2.e13 + r1.e34 * r2.e12 + r1.s * r2.e1234;
        }
    }
}
/// The identity motor moves nothing: transforming any point by it gives
/// back the point, with the same numerators and denominator.
#[verifier::rlimit(100)]
pub proof fn lemma_transform_identity(p: Vec4Model)
    ensures
        spec_transform_point(spec_identity(), p) == p,
{
    let m = spec_identity();
    let o = spec_transform_point(m, p);
    assert(o.x == p.x) by (nonlinear_arith)
        requires
            m.s == 1,
            m.e01 == 0,
            m.e02 == 0,
            m.e03 == 0,
            m.e04 == 0,
            m.e12 == 0,
            m.e13 == 0,
            m.e14 == 0,
            m.e23 == 0,
            m.e24 == 0,
            m.e34 == 0,
            m.e0123 == 0,
            m.e0124 == 0,
            m.e0134 == 0,
            m.e0234 == 0,
            m.e1234 == 0,
            m.den == 1,
            o.x == m.den * m.den * p.x + 2 * ((m.e01 * m.e14 + m.e0123 * m.e1234 - m.e0124 * m.e12 - m.e0134 * m.e13 + m.e02 * m.e24 - m.e0234 * m.e23 + m.e03 * m.e34 - m.e04 * m.s) * p.den) + 2 * (m.e12 * m.e1234 * p.y - m.e12 * m.e14 * p.z - m.e12 * m.e24 * p.w - m.e1234 * m.e1234 * p.x + m.e1234 * m.e13 * p.z + m.e1234 * m.e23 * p.w + m.e13 * m.e14 * p.y - m.e13 * m.e34 * p.w - m.e14 * m.e14 * p.x + m.e14 * m.s * p.w + m.e23 * m.e24 * p.y + m.e23 * m.e34 * p.z - m.e24 * m.e24 * p.x - m.e24 * m.s * p.z - m.e34 * m.e34 * p.x + m.e34 * m.s * p.y);
    assert(o.y == p.y) by (nonlinear_arith)
        requires
            m.s == 1,
            m.e01 == 0,
            m.e02 == 0,
            m.e03 == 0,
            m.e04 == 0,
            m.e12 == 0,
            m.e13 == 0,
            m.e14 == 0,
            m.e23 == 0,
            m.e24 == 0,
            m.e34 == 0,
            m.e0123 == 0,
            m.e0124 == 0,
            m.e0134 == 0,
            m.e0234 == 0,
            m.e1234 == 0,
            m.den == 1,
            o.y == m.den * m.den * p.y + 2 * ((-(m.e01 * m.e13) + m.e0123 * m.e12 + m.e0124 * m.e1234 - m.e0134 * m.e14 - m.e02 * m.e23 - m.e0234 * m.e24 + m.e03 * m.s + m.e04 * m.e34) * p.den) + 2 * (-(m.e12 * m.e1234 * p.x) + m.e12 * m.e13 * p.z + m.e12 * m.e23 * p.w - m.e1234 * m.e1234 * p.y + m.e1234 * m.e14 * p.z + m.e1234 * m.e24 * p.w - m.e13 * m.e13 * p.y + m.e13 * m.e14 * p.x - m.e13 * m.s * p.w - m.e14 * m.e34 * p.w - m.e23 * m.e23 * p.y + m.e23 * m.e24 * p.x + m.e23 * m.s * p.z + m.e24 * m.e34 * p.z - m.e34 * m.e34 * p.y - m.e34 * m.s * p.x);
    assert(o.z == p.z) by (nonlinear_arith)
        requires
            m.s == 1,
            m.e01 == 0,
            m.e02 == 0,
            m.e03 == 0,
            m.e04 == 0,
            m.e12 == 0,
            m.e13 == 0,
            m.e14 == 0,
            m.e23 == 0,
            m.e24 == 0,
            m.e34 == 0,
            m.e0123 == 0,
            m.e0124 == 0,
            m.e0134 == 0,
            m.e0234 == 0,
            m.e1234 == 0,
            m.den == 1,
            o.z == m.den * m.den * p.z + 2 * ((m.e01 * m.e12 + m.e0123 * m.e13 + m.e0124 * m.e14 + m.e0134 * m.e1234 - m.e02 * m.s - m.e0234 * m.e34 - m.e03 * m.e23 - m.e04 * m.e24) * p.den) + 2 * (-(m.e12 * m.e12 * p.z) + m.e12 * m.e13 * p.y - m.e12 * m.e14 * p.x + m.e12 * m.s * p.w - m.e1234 * m.e1234 * p.z - m.e1234 * m.e13 * p.x - m.e1234 * m.e14 * p.y + m.e1234 * m.e34 * p.w + m.e13 * m.e23 * p.w + m.e14 * m.e24 * p.w - m.e23 * m.e23 * p.z + m.e23 * m.e34 * p.x - m.e23 * m.s * p.y - m.e24 * m.e24 * p.z + m.e24 * m.e34 * p.y + m.e24 * m.s * p.x);
    assert(o.w == p.w) by (nonlinear_arith)
        requires
            m.s == 1,
            m.e01 == 0,
            m.e02 == 0,
            m.e03 == 0,
            m.e04 == 0,
            m.e12 == 0,
            m.e13 == 0,
            m.e14 == 0,
            m.e23 == 0,
            m.e24 == 0,
            m.e34 == 0,
            m.e0123 == 0,
            m.e0124 == 0,
            m.e0134 == 0,
            m.e0234 == 0,
            m.e1234 == 0,
            m.den == 1,
            o.w == m.den * m.den * p.w + 2 * ((m.e01 * m.s + m.e0123 * m.e23 + m.e0124 * m.e24 + m.e0134 * m.e34 + m.e02 * m.e12 + m.e0234 * m.e1234 + m.e03 * m.e13 + m.e04 * m.e14) * p.den) + 2 * (-(m.e12 * m.e12 * p.w) + m.e12 * m.e23 * p.y - m.e12 * m.e24 * p.x - m.e12 * m.s * p.z - m.e1234 * m.e1234 * p.w - m.e1234 * m.e23 * p.x - m.e1234 * m.e24 * p.y - m.e1234 * m.e34 * p.z - m.e13 * m.e13 * p.w + m.e13 * m.e23 * p.z - m.e13 * m.e34 * p.x + m.e13 * m.s * p.y - m.e14 * m.e14 * p.w + m.e14 * m.e24 * p.z - m.e14 * m.e34 * p.y - m.e14 * m.s * p.x);
    assert(o.den == p.den) by (nonlinear_arith)
        requires
            m.den == 1,
            o.den == m.den * m.den * p.den;
    assert(o == p);
}
/// A pure translation moves every point by exactly its offset.
#[verifier::rlimit(100)]
pub proof fn lemma_transform_translation(
    x: int, y: int, z: int, w: int, d: int, p: Vec4Model,
)
    requires
        1 <= d,
        1 <= p.den,
    ensures
        vec4_eq(
            spec_transform_point(spec_translation(x, y, z, w, d), p),
            (Vec4Model {
                x: p.x * d + x * p.den,
                y: p.y * d + y * p.den,
                z: p.z * d + z * p.den,
                w: p.w * d + w * p.den,
                den: d * p.den,
            }),
        ),
{
    let t = spec_translation(x, y, z, w, d);
    let o = spec_transform_point(t, p);
    assert(o.x == 4 * (d * (d * p.x + x * p.den))) by (nonlinear_arith)
        requires
            t.s == 2 * d,
            t.e01 == w,
            t.e02 == -z,
            t.e03 == y,
            t.e04 == -x,
            t.e12 == 0,
            t.e13 == 0,
            t.e14 == 0,
            t.e23 == 0,
            t.e24 == 0,
            t.e34 == 0,
            t.e0123 == 0,
            t.e0124 == 0,
            t.e0134 == 0,
            t.e0234 == 0,
            t.e1234 == 0,
            t.den == 2 * d,
            o.x == t.den * t.den * p.x + 2 * ((t.e01 * t.e14 + t.e0123 * t.e1234 - t.e0124 * t.e12 - t.e0134 * t.e13 + t.e02 * t.e24 - t.e0234 * t.e23 + t.e03 * t.e34 - t.e04 * t.s) * p.den) + 2 * (t.e12 * t.e1234 * p.y - t.e12 * t.e14 * p.z - t.e12 * t.e24 * p.w - t.e1234 * t.e1234 * p.x + t.e1234 * t.e13 * p.z + t.e1234 * t.e23 * p.w + t.e13 * t.e14 * p.y - t.e13 * t.e34 * p.w - t.e14 * t.e14 * p.x + t.e14 * t.s * p.w + t.e23 * t.e24 * p.y + t.e23 * t.e34 * p.z - t.e24 * t.e24 * p.x - t.e24 * t.s * p.z - t.e34 * t.e34 * p.x + t.e34 * t.s * p.y);
    assert(o.y == 4 * (d * (d * p.y + y * p.den))) by (nonlinear_arith)
        requires
            t.s == 2 * d,
            t.e01 == w,
            t.e02 == -z,
            t.e03 == y,
            t.e04 == -x,
            t.e12 == 0,
            t.e13 == 0,
            t.e14 == 0,
            t.e23 == 0,
            t.e24 == 0,
            t.e34 == 0,
            t.e0123 == 0,
            t.e0124 == 0,
            t.e0134 == 0,
            t.e0234 == 0,
            t.e1234 == 0,
            t.den == 2 * d,
            o.y == t.den * t.den * p.y + 2 * ((-(t.e01 * t.e13) + t.e0123 * t.e12 + t.e0124 * t.e1234 - t.e0134 * t.e14 - t.e02 * t.e23 - t.e0234 * t.e24 + t.e03 * t.s + t.e04 * t.e34) * p.den) + 2 * (-(t.e12 * t.e1234 * p.x) + t.e12 * t.e13 * p.z + t.e12 * t.e23 * p.w - t.e1234 * t.e1234 * p.y + t.e1234 * t.e14 * p.z + t.e1234 * t.e24 * p.w - t.e13 * t.e13 * p.y + t.e13 * t.e14 * p.x - t.e13 * t.s * p.w - t.e14 * t.e34 * p.w - t.e23 * t.e23 * p.y + t.e23 * t.e24 * p.x + t.e23 * t.s * p.z + t.e24 * t.e34 * p.z - t.e34 * t.e34 * p.y - t.e34 * t.s * p.x);
    assert(o.z == 4 * (d * (d * p.z + z * p.den))) by (nonlinear_arith)
        requires
            t.s == 2 * d,
            t.e01 == w,
            t.e02 == -z,
            t.e03 == y,
            t.e04 == -x,
            t.e12 == 0,
            t.e13 == 0,
            t.e14 == 0,
            t.e23 == 0,
            t.e24 == 0,
            t.e34 == 0,
            t.e0123 == 0,
            t.e0124 == 0,
            t.e0134 == 0,
            t.e0234 == 0,
            t.e1234 == 0,
            t.den == 2 * d,
            o.z == t.den * t.den * p.z + 2 * ((t.e01 * t.e12 + t.e0123 * t.e13 + t.e0124 * t.e14 + t.e0134 * t.e1234 - t.e02 * t.s - t.e0234 * t.e34 - t.e03 * t.e23 - t.e04 * t.e24) * p.den) + 2 * (-(t.e12 * t.e12 * p.z) + t.e12 * t.e13 * p.y - t.e12 * t.e14 * p.x + t.e12 * t.s * p.w - t.e1234 * t.e1234 * p.z - t.e1234 * t.e13 * p.x - t.e1234 * t.e14 * p.y + t.e1234 * t.e34 * p.w + t.e13 * t.e23 * p.w + t.e14 * t.e24 * p.w - t.e23 * t.e23 * p.z + t.e23 * t.e34 * p.x - t.e23 * t.s * p.y - t.e24 * t.e24 * p.z + t.e24 * t.e34 * p.y + t.e24 * t.s * p.x);
    assert(o.w == 4 * (d * (d * p.w + w * p.den))) by (nonlinear_arith)
        requires
            t.s == 2 * d,
            t.e01 == w,
            t.e02 == -z,
            t.e03 == y,
            t.e04 == -x,
            t.e12 == 0,
            t.e13 == 0,
            t.e14 == 0,
            t.e23 == 0,
            t.e24 == 0,
            t.e34 == 0,
            t.e0123 == 0,
            t.e0124 == 0,
            t.e0134 == 0,
            t.e0234 == 0,
            t.e1234 == 0,
            t.den == 2 * d,
            o.w == t.den * t.den * p.w + 2 * ((t.e01 * t.s + t.e0123 * t.e23 + t.e0124 * t.e24 + t.e0134 * t.e34 + t.e02 * t.e12 + t.e0234 * t.e1234 + t.e03 * t.e13 + t.e04 * t.e14) * p.den) + 2 * (-(t.e12 * t.e12 * p.w) + t.e12 * t.e23 * p.y - t.e12 * t.e24 * p.x - t.e12 * t.s * p.z - t.e1234 * t.e1234 * p.w - t.e1234 * t.e23 * p.x - t.e1234 * t.e24 * p.y - t.e1234 * t.e34 * p.z - t.e13 * t.e13 * p.w + t.e13 * t.e23 * p.z - t.e13 * t.e34 * p.x + t.e13 * t.s * p.y - t.e14 * t.e14 * p.w + t.e14 * t.e24 * p.z - t.e14 * t.e34 * p.y - t.e14 * t.s * p.x);
    assert(4 * (d * (d * p.x + x * p.den)) * (d * p.den)
        == (p.x * d + x * p.den) * ((2 * d) * (2 * d) * p.den)) by (nonlinear_arith);
    assert(4 * (d * (d * p.y + y * p.den)) * (d * p.den)
        == (p.y * d + y * p.den) * ((2 * d) * (2 * d) * p.den)) by (nonlinear_arith);
    assert(4 * (d * (d * p.z + z * p.den)) * (d * p.den)
        == (p.z * d + z * p.den) * ((2 * d) * (2 * d) * p.den)) by (nonlinear_arith);
    assert(4 * (d * (d * p.w + w * p.den)) * (d * p.den)
        == (p.w * d + w * p.den) * ((2 * d) * (2 * d) * p.den)) by (nonlinear_arith);
    assert(o.den == (2 * d) * (2 * d) * p.den);
}
/// Every translation is a unit rigid motion.
pub proof fn lemma_translation_rigid(x: int, y: int, z: int, w: int, d: int)
    requires
        1 <= d,
    ensures
        is_proper(spec_translation(x, y, z, w, d)),
        is_unit(spec_translation(x, y, z, w, d)),
{
    let t = spec_translation(x, y, z, w, d);
    let rt = spec_reverse(t);
    let xl = spec_compose(rt, t);
    let xr = spec_compose(t, rt);
    assert(xl.e0123 == 0) by (nonlinear_arith)
        requires
            t.s == 2 * d,
            t.e01 == w,
            t.e02 == -z,
            t.e03 == y,
            t.e04 == -x,
            t.e12 == 0,
            t.e13 == 0,
            t.e14 == 0,
            t.e23 == 0,
            t.e24 == 0,
            t.e34 == 0,
            t.e0123 == 0,
            t.e0124 == 0,
            t.e0134 == 0,
            t.e0234 == 0,
            t.e1234 == 0,
            t.den == 2 * d,
            rt.s == t.s,
            rt.e01 == -t.e01,
            rt.e02 == -t.e02,
            rt.e03 == -t.e03,
            rt.e04 == -t.e04,
            rt.e12 == -t.e12,
            rt.e13 == -t.e13,
            rt.e14 == -t.e14,
            rt.e23 == -t.e23,
            rt.e24 == -t.e24,
            rt.e34 == -t.e34,
            rt.e0123 == t.e0123,
            rt.e0124 == t.e0124,
            rt.e0134 == t.e0134,
            rt.e0234 == t.e0234,
            rt.e1234 == t.e1234,
            xl.e0123 == rt.e01 * t.e23 + rt.e0123 * t.s - rt.e0124 * t.e34 + rt.e0134 * t.e24 - rt.e02 * t.e13 - rt.e0234 * t.e14 + rt.e03 * t.e12 - rt.e04 * t.e1234 + rt.e12 * t.e03 + rt.e1234 * t.e04 - rt.e13 * t.e02 + rt.e14 * t.e0234 + rt.e23 * t.e01 - rt.e24 * t.e0134 + rt.e34 * t.e0124 + rt.s * t.e0123;
    assert(xl.e0124 == 0) by (nonlinear_arith)
        requires
            t.s == 2 * d,
            t.e01 == w,
            t.e02 == -z,
            t.e03 == y,
            t.e04 == -x,
            t.e12 == 0,
            t.e13 == 0,
            t.e14 == 0,
            t.e23 == 0,
            t.e24 == 0,
            t.e34 == 0,
            t.e0123 == 0,
            t.e0124 == 0,
            t.e0134 == 0,
            t.e0234 == 0,
            t.e1234 == 0,
            t.den == 2 * d,
            rt.s == t.s,
            rt.e01 == -t.e01,
            rt.e02 == -t.e02,
            rt.e03 == -t.e03,
            rt.e04 == -t.e04,
            rt.e12 == -t.e12,
            rt.e13 == -t.e13,
            rt.e14 == -t.e14,
            rt.e23 == -t.e23,
            rt.e24 == -t.e24,
            rt.e34 == -t.e34,
            rt.e0123 == t.e0123,
            rt.e0124 == t.e0124,
            rt.e0134 == t.e0134,
            rt.e0234 == t.e0234,
            rt.e1234 == t.e1234,
            xl.e0124 == rt.e01 * t.e24 + rt.e0123 * t.e34 + rt.e0124 * t.s - rt.e0134 * t.e23 - rt.e02 * t.e14 + rt.e0234 * t.e13 + rt.e03 * t.e1234 + rt.e04 * t.e12 + rt.e12 * t.e04 - rt.e1234 * t.e03 - rt.e13 * t.e0234 - rt.e14 * t.e02 + rt.e23 * t.e0134 + rt.e24 * t.e01 - rt.e34 * t.e0123 + rt.s * t.e0124;
    assert(xl.e0134 == 0) by (nonlinear_arith)
        requires
            t.s == 2 * d,
            t.e01 == w,
            t.e02 == -z,
            t.e03 == y,
            t.e04 == -x,
            t.e12 == 0,
            t.e13 == 0,
            t.e14 == 0,
            t.e23 == 0,
            t.e24 == 0,
            t.e34 == 0,
            t.e0123 == 0,
            t.e0124 == 0,
            t.e0134 == 0,
            t.e0234 == 0,
            t.e1234 == 0,
            t.den == 2 * d,
            rt.s == t.s,
            rt.e01 == -t.e01,
            rt.e02 == -t.e02,
            rt.e03 == -t.e03,
            rt.e04 == -t.e04,
            rt.e12 == -t.e12,
            rt.e13 == -t.e13,
            rt.e14 == -t.e14,
            rt.e23 == -t.e23,
            rt.e24 == -t.e24,
            rt.e34 == -t.e34,
            rt.e0123 == t.e0123,
            rt.e0124 == t.e0124,
            rt.e0134 == t.e0134,
            rt.e0234 == t.e0234,
            rt.e1234 == t.e1234,
            xl.e0134 == rt.e01 * t.e34 - rt.e0123 * t.e24 + rt.e0124 * t.e23 + rt.e0134 * t.s - rt.e02 * t.e1234 - rt.e0234 * t.e12 - rt.e03 * t.e14 + rt.e04 * t.e13 + rt.e12 * t.e0234 + rt.e1234 * t.e02 + rt.e13 * t.e04 - rt.e14 * t.e03 - rt.e23 * t.e0124 + rt.e24 * t.e0123 + rt.e34 * t.e01 + rt.s * t.e0134;
    assert(xl.e0234 == 0) by (nonlinear_arith)
        requires
            t.s == 2 * d,
            t.e01 == w,
            t.e02 == -z,
            t.e03 == y,
            t.e04 == -x,
            t.e12 == 0,
            t.e13 == 0,
            t.e14 == 0,
            t.e23 == 0,
            t.e24 == 0,
            t.e34 == 0,
            t.e0123 == 0,
            t.e0124 == 0,
            t.e0134 == 0,
            t.e0234 == 0,
            t.e1234 == 0,
            t.den == 2 * d,
            rt.s == t.s,
            rt.e01 == -t.e01,
            rt.e02 == -t.e02,
            rt.e03 == -t.e03,
            rt.e04 == -t.e04,
            rt.e12 == -t.e12,
            rt.e13 == -t.e13,
            rt.e14 == -t.e14,
            rt.e23 == -t.e23,
            rt.e24 == -t.e24,
            rt.e34 == -t.e34,
            rt.e0123 == t.e0123,
            rt.e0124 == t.e0124,
            rt.e0134 == t.e0134,
            rt.e0234 == t.e0234,
            rt.e1234 == t.e1234,
            xl.e0234 == rt.e01 * t.e1234 + rt.e0123 * t.e14 - rt.e0124 * t.e13 + rt.e0134 * t.e12 + rt.e02 * t.e34 + rt.e0234 * t.s - rt.e03 * t.e24 + rt.e04 * t.e23 - rt.e12 * t.e0134 - rt.e1234 * t.e01 + rt.e13 * t.e0124 - rt.e14 * t.e0123 + rt.e23 * t.e04 - rt.e24 * t.e03 + rt.e34 * t.e02 + rt.s * t.e0234;
    assert(xl.e1234 == 0) by (nonlinear_arith)
        requires
            t.s == 2 * d,
            t.e01 == w,
            t.e02 == -z,
            t.e03 == y,
            t.e04 == -x,
            t.e12 == 0,
            t.e13 == 0,
            t.e14 == 0,
            t.e23 == 0,
            t.e24 == 0,
            t.e34 == 0,
            t.e0123 == 0,
            t.e0124 == 0,
            t.e0134 == 0,
            t.e0234 == 0,
            t.e1234 == 0,
            t.den == 2 * d,
            rt.s == t.s,
            rt.e01 == -t.e01,
            rt.e02 == -t.e02,
            rt.e03 == -t.e03,
            rt.e04 == -t.e04,
            rt.e12 == -t.e12,
            rt.e13 == -t.e13,
            rt.e14 == -t.e14,
            rt.e23 == -t.e23,
            rt.e24 == -t.e24,
            rt.e34 == -t.e34,
            rt.e0123 == t.e0123,
            rt.e0124 == t.e0124,
            rt.e0134 == t.e0134,
            rt.e0234 == t.e0234,
            rt.e1234 == t.e1234,
            xl.e1234 == rt.e12 * t.e34 + rt.e1234 * t.s - rt.e13 * t.e24 + rt.e14 * t.e23 + rt.e23 * t.e14 - rt.e24 * t.e13 + rt.e34 * t.e12 + rt.s * t.e1234;
    assert(xr.e0123 == 0) by (nonlinear_arith)
        requires
            t.s == 2 * d,
            t.e01 == w,
            t.e02 == -z,
            t.e03 == y,
            t.e04 == -x,
            t.e12 == 0,
            t.e13 == 0,
            t.e14 == 0,
            t.e23 == 0,
            t.e24 == 0,
            t.e34 == 0,
            t.e0123 == 0,
            t.e0124 == 0,
            t.e0134 == 0,
            t.e0234 == 0,
            t.e1234 == 0,
            t.den == 2 * d,
            rt.s == t.s,
            rt.e01 == -t.e01,
            rt.e02 == -t.e02,
            rt.e03 == -t.e03,
            rt.e04 == -t.e04,
            rt.e12 == -t.e12,
            rt.e13 == -t.e13,
            rt.e14 == -t.e14,
            rt.e23 == -t.e23,
            rt.e24 == -t.e24,
            rt.e34 == -t.e34,
            rt.e0123 == t.e0123,
            rt.e0124 == t.e0124,
            rt.e0134 == t.e0134,
            rt.e0234 == t.e0234,
            rt.e1234 == t.e1234,
            xr.e0123 == t.e01 * rt.e23 + t.e0123 * rt.s - t.e0124 * rt.e34 + t.e0134 * rt.e24 - t.e02 * rt.e13 - t.e0234 * rt.e14 + t.e03 * rt.e12 - t.e04 * rt.e1234 + t.e12 * rt.e03 + t.e1234 * rt.e04 - t.e13 * rt.e02 + t.e14 * rt.e0234 + t.e23 * rt.e01 - t.e24 * rt.e0134 + t.e34 * rt.e0124 + t.s * rt.e0123;
    assert(xr.e0124 == 0) by (nonlinear_arith)
        requires
            t.s == 2 * d,
            t.e01 == w,
            t.e02 == -z,
            t.e03 == y,
            t.e04 == -x,
            t.e12 == 0,
            t.e13 == 0,
            t.e14 == 0,
            t.e23 == 0,
            t.e24 == 0,
            t.e34 == 0,
            t.e0123 == 0,
            t.e0124 == 0,
            t.e0134 == 0,
            t.e0234 == 0,
            t.e1234 == 0,
            t.den == 2 * d,
            rt.s == t.s,
            rt.e01 == -t.e01,
            rt.e02 == -t.e02,
            rt.e03 == -t.e03,
            rt.e04 == -t.e04,
            rt.e12 == -t.e12,
            rt.e13 == -t.e13,
            rt.e14 == -t.e14,
            rt.e23 == -t.e23,
            rt.e24 == -t.e24,
            rt.e34 == -t.e34,
            rt.e0123 == t.e0123,
            rt.e0124 == t.e0124,
            rt.e0134 == t.e0134,
            rt.e0234 == t.e0234,
            rt.e1234 == t.e1234,
            xr.e0124 == t.e01 * rt.e24 + t.e0123 * rt.e34 + t.e0124 * rt.s - t.e0134 * rt.e23 - t.e02 * rt.e14 + t.e0234 * rt.e13 + t.e03 * rt.e1234 + t.e04 * rt.e12 + t.e12 * rt.e04 - t.e1234 * rt.e03 - t.e13 * rt.e0234 - t.e14 * rt.e02 + t.e23 * rt.e0134 + t.e24 * rt.e01 - t.e34 * rt.e0123 + t.s * rt.e0124;
    assert(xr.e0134 == 0) by (nonlinear_arith)
        requires
            t.s == 2 * d,
            t.e01 == w,
            t.e02 == -z,
            t.e03 == y,
            t.e04 == -x,
            t.e12 == 0,
            t.e13 == 0,
            t.e14 == 0,
            t.e23 == 0,
            t.e24 == 0,
            t.e34 == 0,
            t.e0123 == 0,
            t.e0124 == 0,
            t.e0134 == 0,
            t.e0234 == 0,
            t.e1234 == 0,
            t.den == 2 * d,
            rt.s == t.s,
            rt.e01 == -t.e01,
            rt.e02 == -t.e02,
            rt.e03 == -t.e03,
            rt.e04 == -t.e04,
            rt.e12 == -t.e12,
            rt.e13 == -t.e13,
            rt.e14 == -t.e14,
            rt.e23 == -t.e23,
            rt.e24 == -t.e24,
            rt.e34 == -t.e34,
            rt.e0123 == t.e0123,
            rt.e0124 == t.e0124,
            rt.e0134 == t.e0134,
            rt.e0234 == t.e0234,
            rt.e1234 == t.e1234,
            xr.e0134 == t.e01 * rt.e34 - t.e0123 * rt.e24 + t.e0124 * rt.e23 + t.e0134 * rt.s - t.e02 * rt.e1234 - t.e0234 * rt.e12 - t.e03 * rt.e14 + t.e04 * rt.e13 + t.e12 * rt.e0234 + t.e1234 * rt.e02 + t.e13 * rt.e04 - t.e14 * rt.e03 - t.e23 * rt.e0124 + t.e24 * rt.e0123 + t.e34 * rt.e01 + t.s * rt.e0134;
    assert(xr.e0234 == 0) by (nonlinear_arith)
        requires
            t.s == 2 * d,
            t.e01 == w,
            t.e02 == -z,
            t.e03 == y,
            t.e04 == -x,
            t.e12 == 0,
            t.e13 == 0,
            t.e14 == 0,
            t.e23 == 0,
            t.e24 == 0,
            t.e34 == 0,
            t.e0123 == 0,
            t.e0124 == 0,
            t.e0134 == 0,
            t.e0234 == 0,
            t.e1234 == 0,
            t.den == 2 * d,
            rt.s == t.s,
            rt.e01 == -t.e01,
            rt.e02 == -t.e02,
            rt.e03 == -t.e03,
            rt.e04 == -t.e04,
            rt.e12 == -t.e12,
            rt.e13 == -t.e13,
            rt.e14 == -t.e14,
            rt.e23 == -t.e23,
            rt.e24 == -t.e24,
            rt.e34 == -t.e34,
            rt.e0123 == t.e0123,
            rt.e0124 == t.e0124,
            rt.e0134 == t.e0134,
            rt.e0234 == t.e0234,
            rt.e1234 == t.e1234,
            xr.e0234 == t.e01 * rt.e1234 + t.e0123 * rt.e14 - t.e0124 * rt.e13 + t.e0134 * rt.e12 + t.e02 * rt.e34 + t.e0234 * rt.s - t.e03 * rt.e24 + t.e04 * rt.e23 - t.e12 * rt.e0134 - t.e1234 * rt.e01 + t.e13 * rt.e0124 - t.e14 * rt.e0123 + t.e23 * rt.e04 - t.e24 * rt.e03 + t.e34 * rt.e02 + t.s * rt.e0234;
    assert(xr.e1234 == 0) by (nonlinear_arith)
        requires
            t.s == 2 * d,
            t.e01 == w,
            t.e02 == -z,
            t.e03 == y,
            t.e04 == -x,
            t.e12 == 0,
            t.e13 == 0,
            t.e14 == 0,
            t.e23 == 0,
            t.e24 == 0,
            t.e34 == 0,
            t.e0123 == 0,
            t.e0124 == 0,
            t.e0134 == 0,
            t.e0234 == 0,
            t.e1234 == 0,
            t.den == 2 * d,
            rt.s == t.s,
            rt.e01 == -t.e01,
            rt.e02 == -t.e02,
            rt.e03 == -t.e03,
            rt.e04 == -t.e04,
            rt.e12 == -t.e12,
            rt.e13 == -t.e13,
            rt.e14 == -t.e14,
            rt.e23 == -t.e23,
            rt.e24 == -t.e24,
            rt.e34 == -t.e34,
            rt.e0123 == t.e0123,
            rt.e0124 == t.e0124,
            rt.e0134 == t.e0134,
            rt.e0234 == t.e0234,
            rt.e1234 == t.e1234,
            xr.e1234 == t.e12 * rt.e34 + t.e1234 * rt.s - t.e13 * rt.e24 + t.e14 * rt.e23 + t.e23 * rt.e14 - t.e24 * rt.e13 + t.e34 * rt.e12 + t.s * rt.e1234;
    assert(spec_mag2_num(t) == t.den * t.den) by (nonlinear_arith)
        requires
            t.s == 2 * d,
            t.e01 == w,
            t.e02 == -z,
            t.e03 == y,
            t.e04 == -x,
            t.e12 == 0,
            t.e13 == 0,
            t.e14 == 0,
            t.e23 == 0,
            t.e24 == 0,
            t.e34 == 0,
            t.e0123 == 0,
            t.e0124 == 0,
            t.e0134 == 0,
            t.e0234 == 0,
            t.e1234 == 0,
            t.den == 2 * d,
            spec_mag2_num(t) == t.e12 * t.e12 + t.e1234 * t.e1234 + t.e13 * t.e13 + t.e14 * t.e14 + t.e23 * t.e23 + t.e24 * t.e24 + t.e34 * t.e34 + t.s * t.s;
}
/// A rotation whose cosine-sine pair lies on the unit circle
/// (`c^2 + s^2 == d^2`) is a unit rigid motion.
pub proof fn lemma_rotation_rigid(plane: Plane, c: int, s: int, d: int)
    requires
        c * c + s * s == d * d,
    ensures
        is_proper(spec_rotation(plane, c, s, d)),
        is_unit(spec_rotation(plane, c, s, d)),
{
    let t = spec_rotation(plane, c, s, d);
    let rt = spec_reverse(t);
    let xl = spec_compose(rt, t);
    let xr = spec_compose(t, rt);
    match plane {
        Plane::E12 => {
            assert(xl.e0123 == 0) by (nonlinear_arith)
                requires
                    t.s == c,
                    t.e01 == 0,
                    t.e02 == 0,
                    t.e03 == 0,
                    t.e04 == 0,
                    t.e12 == s,
                    t.e13 == 0,
                    t.e14 == 0,
                    t.e23 == 0,
                    t.e24 == 0,
                    t.e34 == 0,
                    t.e0123 == 0,
                    t.e0124 == 0,
                    t.e0134 == 0,
                    t.e0234 == 0,
                    t.e1234 == 0,
                    t.den == d,
                    rt.s == t.s,
                    rt.e01 == -t.e01,
                    rt.e02 == -t.e02,
                    rt.e03 == -t.e03,
                    rt.e04 == -t.e04,
                    rt.e12 == -t.e12,
                    rt.e13 == -t.e13,
                    rt.e14 == -t.e14,
                    rt.e23 == -t.e23,
                    rt.e24 == -t.e24,
                    rt.e34 == -t.e34,
                    rt.e0123 == t.e0123,
                    rt.e0124 == t.e0124,
                    rt.e0134 == t.e0134,
                    rt.e0234 == t.e0234,
                    rt.e1234 == t.e1234,
                    xl.e0123 == rt.e01 * t.e23 + rt.e0123 * t.s - rt.e0124 * t.e34 + rt.e0134 * t.e24 - rt.e02 * t.e13 - rt.e0234 * t.e14 + rt.e03 * t.e12 - rt.e04 * t.e1234 + rt.e12 * t.e03 + rt.e1234 * t.e04 - rt.e13 * t.e02 + rt.e14 * t.e0234 + rt.e23 * t.e01 - rt.e24 * t.e0134 + rt.e34 * t.e0124 + rt.s * t.e0123;
            assert(xl.e0124 == 0) by (nonlinear_arith)
                requires
                    t.s == c,
                    t.e01 == 0,
                    t.e02 == 0,
                    t.e03 == 0,
                    t.e04 == 0,
                    t.e12 == s,
                    t.e13 == 0,
                    t.e14 == 0,
                    t.e23 == 0,
                    t.e24 == 0,
                    t.e34 == 0,
                    t.e0123 == 0,
                    t.e0124 == 0,
                    t.e0134 == 0,
                    t.e0234 == 0,
                    t.e1234 == 0,
                    t.den == d,
                    rt.s == t.s,
                    rt.e01 == -t.e01,
                    rt.e02 == -t.e02,
                    rt.e03 == -t.e03,
                    rt.e04 == -t.e04,
                    rt.e12 == -t.e12,
                    rt.e13 == -t.e13,
                    rt.e14 == -t.e14,
                    rt.e23 == -t.e23,
                    rt.e24 == -t.e24,
                    rt.e34 == -t.e34,
                    rt.e0123 == t.e0123,
                    rt.e0124 == t.e0124,
                    rt.e0134 == t.e0134,
                    rt.e0234 == t.e0234,
                    rt.e1234 == t.e1234,
                    xl.e0124 == rt.e01 * t.e24 + rt.e0123 * t.e34 + rt.e0124 * t.s - rt.e0134 * t.e23 - rt.e02 * t.e14 + rt.e0234 * t.e13 + rt.e03 * t.e1234 + rt.e04 * t.e12 + rt.e12 * t.e04 - rt.e1234 * t.e03 - rt.e13 * t.e0234 - rt.e14 * t.e02 + rt.e23 * t.e0134 + rt.e24 * t.e01 - rt.e34 * t.e0123 + rt.s * t.e0124;
            assert(xl.e0134 == 0) by (nonlinear_arith)
                requires
                    t.s == c,
                    t.e01 == 0,
                    t.e02 == 0,
                    t.e03 == 0,
                    t.e04 == 0,
                    t.e12 == s,
                    t.e13 == 0,
                    t.e14 == 0,
                    t.e23 == 0,
                    t.e24 == 0,
                    t.e34 == 0,
                    t.e0123 == 0,
                    t.e0124 == 0,
                    t.e0134 == 0,
                    t.e0234 == 0,
                    t.e1234 == 0,
                    t.den == d,
                    rt.s == t.s,
                    rt.e01 == -t.e01,
                    rt.e02 == -t.e02,
                    rt.e03 == -t.e03,
                    rt.e04 == -t.e04,
                    rt.e12 == -t.e12,
                    rt.e13 == -t.e13,
                    rt.e14 == -t.e14,
                    rt.e23 == -t.e23,
                    rt.e24 == -t.e24,
                    rt.e34 == -t.e34,
                    rt.e0123 == t.e0123,
                    rt.e0124 == t.e0124,
                    rt.e0134 == t.e0134,
                    rt.e0234 == t.e0234,
                    rt.e1234 == t.e1234,
                    xl.e0134 == rt.e01 * t.e34 - rt.e0123 * t.e24 + rt.e0124 * t.e23 + rt.e0134 * t.s - rt.e02 * t.e1234 - rt.e0234 * t.e12 - rt.e03 * t.e14 + rt.e04 * t.e13 + rt.e12 * t.e0234 + rt.e1234 * t.e02 + rt.e13 * t.e04 - rt.e14 * t.e03 - rt.e23 * t.e0124 + rt.e24 * t.e0123 + rt.e34 * t.e01 + rt.s * t.e0134;
            assert(xl.e0234 == 0) by (nonlinear_arith)
                requires
                    t.s == c,
                    t.e01 == 0,
                    t.e02 == 0,
                    t.e03 == 0,
                    t.e04 == 0,
                    t.e12 == s,
                    t.e13 == 0,
                    t.e14 == 0,
                    t.e23 == 0,
                    t.e24 == 0,
                    t.e34 == 0,
                    t.e0123 == 0,
                    t.e0124 == 0,
                    t.e0134 == 0,
                    t.e0234 == 0,
                    t.e1234 == 0,
                    t.den == d,
                    rt.s == t.s,
                    rt.e01 == -t.e01,
                    rt.e02 == -t.e02,
                    rt.e03 == -t.e03,
                    rt.e04 == -t.e04,
                    rt.e12 == -t.e12,
                    rt.e13 == -t.e13,
                    rt.e14 == -t.e14,
                    rt.e23 == -t.e23,
                    rt.e24 == -t.e24,
                    rt.e34 == -t.e34,
                    rt.e0123 == t.e0123,
                    rt.e0124 == t.e0124,
                    rt.e0134 == t.e0134,
                    rt.e0234 == t.e0234,
                    rt.e1234 == t.e1234,
                    xl.e0234 == rt.e01 * t.e1234 + rt.e0123 * t.e14 - rt.e0124 * t.e13 + rt.e0134 * t.e12 + rt.e02 * t.e34 + rt.e0234 * t.s - rt.e03 * t.e24 + rt.e04 * t.e23 - rt.e12 * t.e0134 - rt.e1234 * t.e01 + rt.e13 * t.e0124 - rt.e14 * t.e0123 + rt.e23 * t.e04 - rt.e24 * t.e03 + rt.e34 * t.e02 + rt.s * t.e0234;
            assert(xl.e1234 == 0) by (nonlinear_arith)
                requires
                    t.s == c,
                    t.e01 == 0,
                    t.e02 == 0,
                    t.e03 == 0,
                    t.e04 == 0,
                    t.e12 == s,
                    t.e13 == 0,
                    t.e14 == 0,
                    t.e23 == 0,
                    t.e24 == 0,
                    t.e34 == 0,
                    t.e0123 == 0,
                    t.e0124 == 0,
                    t.e0134 == 0,
                    t.e0234 == 0,
                    t.e1234 == 0,
                    t.den == d,
                    rt.s == t.s,
                    rt.e01 == -t.e01,
                    rt.e02 == -t.e02,
                    rt.e03 == -t.e03,
                    rt.e04 == -t.e04,
                    rt.e12 == -t.e12,
                    rt.e13 == -t.e13,
                    rt.e14 == -t.e14,
                    rt.e23 == -t.e23,
                    rt.e24 == -t.e24,
                    rt.e34 == -t.e34,
                    rt.e0123 == t.e0123,
                    rt.e0124 == t.e0124,
                    rt.e0134 == t.e0134,
                    rt.e0234 == t.e0234,
                    rt.e1234 == t.e1234,
                    xl.e1234 == rt.e12 * t.e34 + rt.e1234 * t.s - rt.e13 * t.e24 + rt.e14 * t.e23 + rt.e23 * t.e14 - rt.e24 * t.e13 + rt.e34 * t.e12 + rt.s * t.e1234;
            assert(xr.e0123 == 0) by (nonlinear_arith)
                requires
                    t.s == c,
                    t.e01 == 0,
                    t.e02 == 0,
                    t.e03 == 0,
                    t.e04 == 0,
                    t.e12 == s,
                    t.e13 == 0,
                    t.e14 == 0,
                    t.e23 == 0,
                    t.e24 == 0,
                    t.e34 == 0,
                    t.e0123 == 0,
                    t.e0124 == 0,
                    t.e0134 == 0,
                    t.e0234 == 0,
                    t.e1234 == 0,
                    t.den == d,
                    rt.s == t.s,
                    rt.e01 == -t.e01,
                    rt.e02 == -t.e02,
                    rt.e03 == -t.e03,
                    rt.e04 == -t.e04,
                    rt.e12 == -t.e12,
                    rt.e13 == -t.e13,
                    rt.e14 == -t.e14,
                    rt.e23 == -t.e23,
                    rt.e24 == -t.e24,
                    rt.e34 == -t.e34,
                    rt.e0123 == t.e0123,
                    rt.e0124 == t.e0124,
                    rt.e0134 == t.e0134,
                    rt.e0234 == t.e0234,
                    rt.e1234 == t.e1234,
                    xr.e0123 == t.e01 * rt.e23 + t.e0123 * rt.s - t.e0124 * rt.e34 + t.e0134 * rt.e24 - t.e02 * rt.e13 - t.e0234 * rt.e14 + t.e03 * rt.e12 - t.e04 * rt.e1234 + t.e12 * rt.e03 + t.e1234 * rt.e04 - t.e13 * rt.e02 + t.e14 * rt.e0234 + t.e23 * rt.e01 - t.e24 * rt.e0134 + t.e34 * rt.e0124 + t.s * rt.e0123;
            assert(xr.e0124 == 0) by (nonlinear_arith)
                requires
                    t.s == c,
                    t.e01 == 0,
                    t.e02 == 0,
                    t.e03 == 0,
                    t.e04 == 0,
                    t.e12 == s,
                    t.e13 == 0,
                    t.e14 == 0,
                    t.e23 == 0,
                    t.e24 == 0,
                    t.e34 == 0,
                    t.e0123 == 0,
                    t.e0124 == 0,
                    t.e0134 == 0,
                    t.e0234 == 0,
                    t.e1234 == 0,
                    t.den == d,
                    rt.s == t.s,
                    rt.e01 == -t.e01,
                    rt.e02 == -t.e02,
                    rt.e03 == -t.e03,
                    rt.e04 == -t.e04,
                    rt.e12 == -t.e12,
                    rt.e13 == -t.e13,
                    rt.e14 == -t.e14,
                    rt.e23 == -t.e23,
                    rt.e24 == -t.e24,
                    rt.e34 == -t.e34,
                    rt.e0123 == t.e0123,
                    rt.e0124 == t.e0124,
                    rt.e0134 == t.e0134,
                    rt.e0234 == t.e0234,
                    rt.e1234 == t.e1234,
                    xr.e0124 == t.e01 * rt.e24 + t.e0123 * rt.e34 + t.e0124 * rt.s - t.e0134 * rt.e23 - t.e02 * rt.e14 + t.e0234 * rt.e13 + t.e03 * rt.e1234 + t.e04 * rt.e12 + t.e12 * rt.e04 - t.e1234 * rt.e03 - t.e13 * rt.e0234 - t.e14 * rt.e02 + t.e23 * rt.e0134 + t.e24 * rt.e01 - t.e34 * rt.e0123 + t.s * rt.e0124;
            assert(xr.e0134 == 0) by (nonlinear_arith)
                requires
                    t.s == c,
                    t.e01 == 0,
                    t.e02 == 0,
                    t.e03 == 0,
                    t.e04 == 0,
                    t.e12 == s,
                    t.e13 == 0,
                    t.e14 == 0,
                    t.e23 == 0,
                    t.e24 == 0,
                    t.e34 == 0,
                    t.e0123 == 0,
                    t.e0124 == 0,
                    t.e0134 == 0,
                    t.e0234 == 0,
                    t.e1234 == 0,
                    t.den == d,
                    rt.s == t.s,
                    rt.e01 == -t.e01,
                    rt.e02 == -t.e02,
                    rt.e03 == -t.e03,
                    rt.e04 == -t.e04,
                    rt.e12 == -t.e12,
                    rt.e13 == -t.e13,
                    rt.e14 == -t.e14,
                    rt.e23 == -t.e23,
                    rt.e24 == -t.e24,
                    rt.e34 == -t.e34,
                    rt.e0123 == t.e0123,
                    rt.e0124 == t.e0124,
                    rt.e0134 == t.e0134,
                    rt.e0234 == t.e0234,
                    rt.e1234 == t.e1234,
                    xr.e0134 == t.e01 * rt.e34 - t.e0123 * rt.e24 + t.e0124 * rt.e23 + t.e0134 * rt.s - t.e02 * rt.e1234 - t.e0234 * rt.e12 - t.e03 * rt.e14 + t.e04 * rt.e13 + t.e12 * rt.e0234 + t.e1234 * rt.e02 + t.e13 * rt.e04 - t.e14 * rt.e03 - t.e23 * rt.e0124 + t.e24 * rt.e0123 + t.e34 * rt.e01 + t.s * rt.e0134;
            assert(xr.e0234 == 0) by (nonlinear_arith)
                requires
                    t.s == c,
                    t.e01 == 0,
                    t.e02 == 0,
                    t.e03 == 0,
                    t.e04 == 0,
                    t.e12 == s,
                    t.e13 == 0,
                    t.e14 == 0,
                    t.e23 == 0,
                    t.e24 == 0,
                    t.e34 == 0,
                    t.e0123 == 0,
                    t.e0124 == 0,
                    t.e0134 == 0,
                    t.e0234 == 0,
                    t.e1234 == 0,
                    t.den == d,
                    rt.s == t.s,
                    rt.e01 == -t.e01,
                    rt.e02 == -t.e02,
                    rt.e03 == -t.e03,
                    rt.e04 == -t.e04,
                    rt.e12 == -t.e12,
                    rt.e13 == -t.e13,
                    rt.e14 == -t.e14,
                    rt.e23 == -t.e23,
                    rt.e24 == -t.e24,
                    rt.e34 == -t.e34,
                    rt.e0123 == t.e0123,
                    rt.e0124 == t.e0124,
                    rt.e0134 == t.e0134,
                    rt.e0234 == t.e0234,
                    rt.e1234 == t.e1234,
                    xr.e0234 == t.e01 * rt.e1234 + t.e0123 * rt.e14 - t.e0124 * rt.e13 + t.e0134 * rt.e12 + t.e02 * rt.e34 + t.e0234 * rt.s - t.e03 * rt.e24 + t.e04 * rt.e23 - t.e12 * rt.e0134 - t.e1234 * rt.e01 + t.e13 * rt.e0124 - t.e14 * rt.e0123 + t.e23 * rt.e04 - t.e24 * rt.e03 + t.e34 * rt.e02 + t.s * rt.e0234;
            assert(xr.e1234 == 0) by (nonlinear_arith)
                requires
                    t.s == c,
                    t.e01 == 0,
                    t.e02 == 0,
                    t.e03 == 0,
                    t.e04 == 0,
                    t.e12 == s,
                    t.e13 == 0,
                    t.e14 == 0,
                    t.e23 == 0,
                    t.e24 == 0,
                    t.e34 == 0,
                    t.e0123 == 0,
                    t.e0124 == 0,
                    t.e0134 == 0,
                    t.e0234 == 0,
                    t.e1234 == 0,
                    t.den == d,
                    rt.s == t.s,
                    rt.e01 == -t.e01,
                    rt.e02 == -t.e02,
                    rt.e03 == -t.e03,
                    rt.e04 == -t.e04,
                    rt.e12 == -t.e12,
                    rt.e13 == -t.e13,
                    rt.e14 == -t.e14,
                    rt.e23 == -t.e23,
                    rt.e24 == -t.e24,
                    rt.e34 == -t.e34,
                    rt.e0123 == t.e0123,
                    rt.e0124 == t.e0124,
                    rt.e0134 == t.e0134,
                    rt.e0234 == t.e0234,
                    rt.e1234 == t.e1234,
                    xr.e1234 == t.e12 * rt.e34 + t.e1234 * rt.s - t.e13 * rt.e24 + t.e14 * rt.e23 + t.e23 * rt.e14 - t.e24 * rt.e13 + t.e34 * rt.e12 + t.s * rt.e1234;
            assert(spec_mag2_num(t) == t.den * t.den) by (nonlinear_arith)
                requires
                    c * c + s * s == d * d,
                    t.s == c,
                    t.e01 == 0,
                    t.e02 == 0,
                    t.e03 == 0,
                    t.e04 == 0,
                    t.e12 == s,
                    t.e13 == 0,
                    t.e14 == 0,
                    t.e23 == 0,
                    t.e24 == 0,
                    t.e34 == 0,
                    t.e0123 == 0,
                    t.e0124 == 0,
                    t.e0134 == 0,
                    t.e0234 == 0,
                    t.e1234 == 0,
                    t.den == d,
                    spec_mag2_num(t) == t.e12 * t.e12 + t.e1234 * t.e1234 + t.e13 * t.e13 + t.e14 * t.e14 + t.e23 * t.e23 + t.e24 * t.e24 + t.e34 * t.e34 + t.s * t.s;
        }
        Plane::E13 => {
            assert(xl.e0123 == 0) by (nonlinear_arith)
                requires
                    t.s == c,
                    t.e01 == 0,
                    t.e02 == 0,
                    t.e03 == 0,
                    t.e04 == 0,
                    t.e12 == 0,
                    t.e13 == s,
                    t.e14 == 0,
                    t.e23 == 0,
                    t.e24 == 0,
                    t.e34 == 0,
                    t.e0123 == 0,
                    t.e0124 == 0,
                    t.e0134 == 0,
                    t.e0234 == 0,
                    t.e1234 == 0,
                    t.den == d,
                    rt.s == t.s,
                    rt.e01 == -t.e01,
                    rt.e02 == -t.e02,
                    rt.e03 == -t.e03,
                    rt.e04 == -t.e04,
                    rt.e12 == -t.e12,
                    rt.e13 == -t.e13,
                    rt.e14 == -t.e14,
                    rt.e23 == -t.e23,
                    rt.e24 == -t.e24,
                    rt.e34 == -t.e34,
                    rt.e0123 == t.e0123,
                    rt.e0124 == t.e0124,
                    rt.e0134 == t.e0134,
                    rt.e0234 == t.e0234,
                    rt.e1234 == t.e1234,
                    xl.e0123 == rt.e01 * t.e23 + rt.e0123 * t.s - rt.e0124 * t.e34 + rt.e0134 * t.e24 - rt.e02 * t.e13 - rt.e0234 * t.e14 + rt.e03 * t.e12 - rt.e04 * t.e1234 + rt.e12 * t.e03 + rt.e1234 * t.e04 - rt.e13 * t.e02 + rt.e14 * t.e0234 + rt.e23 * t.e01 - rt.e24 * t.e0134 + rt.e34 * t.e0124 + rt.s * t.e0123;
            assert(xl.e0124 == 0) by (nonlinear_arith)
                requires
                    t.s == c,
                    t.e01 == 0,
                    t.e02 == 0,
                    t.e03 == 0,
                    t.e04 == 0,
                    t.e12 == 0,
                    t.e13 == s,
                    t.e14 == 0,
                    t.e23 == 0,
                    t.e24 == 0,
                    t.e34 == 0,
                    t.e0123 == 0,
                    t.e0124 == 0,
                    t.e0134 == 0,
                    t.e0234 == 0,
                    t.e1234 == 0,
                    t.den == d,
                    rt.s == t.s,
                    rt.e01 == -t.e01,
                    rt.e02 == -t.e02,
                    rt.e03 == -t.e03,
                    rt.e04 == -t.e04,
                    rt.e12 == -t.e12,
                    rt.e13 == -t.e13,
                    rt.e14 == -t.e14,
                    rt.e23 == -t.e23,
                    rt.e24 == -t.e24,
                    rt.e34 == -t.e34,
                    rt.e0123 == t.e0123,
                    rt.e0124 == t.e0124,
                    rt.e0134 == t.e0134,
                    rt.e0234 == t.e0234,
                    rt.e1234 == t.e1234,
                    xl.e0124 == rt.e01 * t.e24 + rt.e0123 * t.e34 + rt.e0124 * t.s - rt.e0134 * t.e23 - rt.e02 * t.e14 + rt.e0234 * t.e13 + rt.e03 * t.e1234 + rt.e04 * t.e12 + rt.e12 * t.e04 - rt.e1234 * t.e03 - rt.e13 * t.e0234 - rt.e14 * t.e02 + rt.e23 * t.e0134 + rt.e24 * t.e01 - rt.e34 * t.e0123 + rt.s * t.e0124;
            assert(xl.e0134 == 0) by (nonlinear_arith)
                requires
                    t.s == c,
                    t.e01 == 0,
                    t.e02 == 0,
                    t.e03 == 0,
                    t.e04 == 0,
                    t.e12 == 0,
                    t.e13 == s,
                    t.e14 == 0,
                    t.e23 == 0,
                    t.e24 == 0,
                    t.e34 == 0,
                    t.e0123 == 0,
                    t.e0124 == 0,
                    t.e0134 == 0,
                    t.e0234 == 0,
                    t.e1234 == 0,
                    t.den == d,
                    rt.s == t.s,
                    rt.e01 == -t.e01,
                    rt.e02 == -t.e02,
                    rt.e03 == -t.e03,
                    rt.e04 == -t.e04,
                    rt.e12 == -t.e12,
                    rt.e13 == -t.e13,
                    rt.e14 == -t.e14,
                    rt.e23 == -t.e23,
                    rt.e24 == -t.e24,
                    rt.e34 == -t.e34,
                    rt.e0123 == t.e0123,
                    rt.e0124 == t.e0124,
                    rt.e0134 == t.e0134,
                    rt.e0234 == t.e0234,
                    rt.e1234 == t.e1234,
                    xl.e0134 == rt.e01 * t.e34 - rt.e0123 * t.e24 + rt.e0124 * t.e23 + rt.e0134 * t.s - rt.e02 * t.e1234 - rt.e0234 * t.e12 - rt.e03 * t.e14 + rt.e04 * t.e13 + rt.e12 * t.e0234 + rt.e1234 * t.e02 + rt.e13 * t.e04 - rt.e14 * t.e03 - rt.e23 * t.e0124 + rt.e24 * t.e0123 + rt.e34 * t.e01 + rt.s * t.e0134;
            assert(xl.e0234 == 0) by (nonlinear_arith)
                requires
                    t.s == c,
                    t.e01 == 0,
                    t.e02 == 0,
                    t.e03 == 0,
                    t.e04 == 0,
                    t.e12 == 0,
                    t.e13 == s,
                    t.e14 == 0,
                    t.e23 == 0,
                    t.e24 == 0,
                    t.e34 == 0,
                    t.e0123 == 0,
                    t.e0124 == 0,
                    t.e0134 == 0,
                    t.e0234 == 0,
                    t.e1234 == 0,
                    t.den == d,
                    rt.s == t.s,
                    rt.e01 == -t.e01,
                    rt.e02 == -t.e02,
                    rt.e03 == -t.e03,
                    rt.e04 == -t.e04,
                    rt.e12 == -t.e12,
                    rt.e13 == -t.e13,
                    rt.e14 == -t.e14,
                    rt.e23 == -t.e23,
                    rt.e24 == -t.e24,
                    rt.e34 == -t.e34,
                    rt.e0123 == t.e0123,
                    rt.e0124 == t.e0124,
                    rt.e0134 == t.e0134,
                    rt.e0234 == t.e0234,
                    rt.e1234 == t.e1234,
                    xl.e0234 == rt.e01 * t.e1234 + rt.e0123 * t.e14 - rt.e0124 * t.e13 + rt.e0134 * t.e12 + rt.e02 * t.e34 + rt.e0234 * t.s - rt.e03 * t.e24 + rt.e04 * t.e23 - rt.e12 * t.e0134 - rt.e1234 * t.e01 + rt.e13 * t.e0124 - rt.e14 * t.e0123 + rt.e23 * t.e04 - rt.e24 * t.e03 + rt.e34 * t.e02 + rt.s * t.e0234;
            assert(xl.e1234 == 0) by (nonlinear_arith)
                requires
                    t.s == c,
                    t.e01 == 0,
                    t.e02 == 0,
                    t.e03 == 0,
                    t.e04 == 0,
                    t.e12 == 0,
                    t.e13 == s,
                    t.e14 == 0,
                    t.e23 == 0,
                    t.e24 == 0,
                    t.e34 == 0,
                    t.e0123 == 0,
                    t.e0124 == 0,
                    t.e0134 == 0,
                    t.e0234 == 0,
                    t.e1234 == 0,
                    t.den == d,
                    rt.s == t.s,
                    rt.e01 == -t.e01,
                    rt.e02 == -t.e02,
                    rt.e03 == -t.e03,
                    rt.e04 == -t.e04,
                    rt.e12 == -t.e12,
                    rt.e13 == -t.e13,
                    rt.e14 == -t.e14,
                    rt.e23 == -t.e23,
                    rt.e24 == -t.e24,
                    rt.e34 == -t.e34,
                    rt.e0123 == t.e0123,
                    rt.e0124 == t.e0124,
                    rt.e0134 == t.e0134,
                    rt.e0234 == t.e0234,
                    rt.e1234 == t.e1234,
                    xl.e1234 == rt.e12 * t.e34 + rt.e1234 * t.s - rt.e13 * t.e24 + rt.e14 * t.e23 + rt.e23 * t.e14 - rt.e24 * t.e13 + rt.e34 * t.e12 + rt.s * t.e1234;
            assert(xr.e0123 == 0) by (nonlinear_arith)
                requires
                    t.s == c,
                    t.e01 == 0,
                    t.e02 == 0,
                    t.e03 == 0,
                    t.e04 == 0,
                    t.e12 == 0,
                    t.e13 == s,
                    t.e14 == 0,
                    t.e23 == 0,
                    t.e24 == 0,
                    t.e34 == 0,
                    t.e0123 == 0,
                    t.e0124 == 0,
                    t.e0134 == 0,
                    t.e0234 == 0,
                    t.e1234 == 0,
                    t.den == d,
                    rt.s == t.s,
                    rt.e01 == -t.e01,
                    rt.e02 == -t.e02,
                    rt.e03 == -t.e03,
                    rt.e04 == -t.e04,
                    rt.e12 == -t.e12,
                    rt.e13 == -t.e13,
                    rt.e14 == -t.e14,
                    rt.e23 == -t.e23,
                    rt.e24 == -t.e24,
                    rt.e34 == -t.e34,
                    rt.e0123 == t.e0123,
                    rt.e0124 == t.e0124,
                    rt.e0134 == t.e0134,
                    rt.e0234 == t.e0234,
                    rt.e1234 == t.e1234,
                    xr.e0123 == t.e01 * rt.e23 + t.e0123 * rt.s - t.e0124 * rt.e34 + t.e0134 * rt.e24 - t.e02 * rt.e13 - t.e0234 * rt.e14 + t.e03 * rt.e12 - t.e04 * rt.e1234 + t.e12 * rt.e03 + t.e1234 * rt.e04 - t.e13 * rt.e02 + t.e14 * rt.e0234 + t.e23 * rt.e01 - t.e24 * rt.e0134 + t.e34 * rt.e0124 + t.s * rt.e0123;
            assert(xr.e0124 == 0) by (nonlinear_arith)
                requires
                    t.s == c,
                    t.e01 == 0,
                    t.e02 == 0,
                    t.e03 == 0,
                    t.e04 == 0,
                    t.e12 == 0,
                    t.e13 == s,
                    t.e14 == 0,
                    t.e23 == 0,
                    t.e24 == 0,
                    t.e34 == 0,
                    t.e0123 == 0,
                    t.e0124 == 0,
                    t.e0134 == 0,
                    t.e0234 == 0,
                    t.e1234 == 0,
                    t.den == d,
                    rt.s == t.s,
                    rt.e01 == -t.e01,
                    rt.e02 == -t.e02,
                    rt.e03 == -t.e03,
                    rt.e04 == -t.e04,
                    rt.e12 == -t.e12,
                    rt.e13 == -t.e13,
                    rt.e14 == -t.e14,
                    rt.e23 == -t.e23,
                    rt.e24 == -t.e24,
                    rt.e34 == -t.e34,
                    rt.e0123 == t.e0123,
                    rt.e0124 == t.e0124,
                    rt.e0134 == t.e0134,
                    rt.e0234 == t.e0234,
                    rt.e1234 == t.e1234,
                    xr.e0124 == t.e01 * rt.e24 + t.e0123 * rt.e34 + t.e0124 * rt.s - t.e0134 * rt.e23 - t.e02 * rt.e14 + t.e0234 * rt.e13 + t.e03 * rt.e1234 + t.e04 * rt.e12 + t.e12 * rt.e04 - t.e1234 * rt.e03 - t.e13 * rt.e0234 - t.e14 * rt.e02 + t.e23 * rt.e0134 + t.e24 * rt.e01 - t.e34 * rt.e0123 + t.s * rt.e0124;
            assert(xr.e0134 == 0) by (nonlinear_arith)
                requires
                    t.s == c,
                    t.e01 == 0,
                    t.e02 == 0,
                    t.e03 == 0,
                    t.e04 == 0,
                    t.e12 == 0,
                    t.e13 == s,
                    t.e14 == 0,
                    t.e23 == 0,
                    t.e24 == 0,
                    t.e34 == 0,
                    t.e0123 == 0,
                    t.e0124 == 0,
                    t.e0134 == 0,
                    t.e0234 == 0,
                    t.e1234 == 0,
                    t.den == d,
                    rt.s == t.s,
                    rt.e01 == -t.e01,
                    rt.e02 == -t.e02,
                    rt.e03 == -t.e03,
                    rt.e04 == -t.e04,
                    rt.e12 == -t.e12,
                    rt.e13 == -t.e13,
                    rt.e14 == -t.e14,
                    rt.e23 == -t.e23,
                    rt.e24 == -t.e24,
                    rt.e34 == -t.e34,
                    rt.e0123 == t.e0123,
                    rt.e0124 == t.e0124,
                    rt.e0134 == t.e0134,
                    rt.e0234 == t.e0234,
                    rt.e1234 == t.e1234,
                    xr.e0134 == t.e01 * rt.e34 - t.e0123 * rt.e24 + t.e0124 * rt.e23 + t.e0134 * rt.s - t.e02 * rt.e1234 - t.e0234 * rt.e12 - t.e03 * rt.e14 + t.e04 * rt.e13 + t.e12 * rt.e0234 + t.e1234 * rt.e02 + t.e13 * rt.e04 - t.e14 * rt.e03 - t.e23 * rt.e0124 + t.e24 * rt.e0123 + t.e34 * rt.e01 + t.s * rt.e0134;
            assert(xr.e0234 == 0) by (nonlinear_arith)
                requires
                    t.s == c,
                    t.e01 == 0,
                    t.e02 == 0,
                    t.e03 == 0,
                    t.e04 == 0,
                    t.e12 == 0,
                    t.e13 == s,
                    t.e14 == 0,
                    t.e23 == 0,
                    t.e24 == 0,
                    t.e34 == 0,
                    t.e0123 == 0,
                    t.e0124 == 0,
                    t.e0134 == 0,
                    t.e0234 == 0,
                    t.e1234 == 0,
                    t.den == d,
                    rt.s == t.s,
                    rt.e01 == -t.e01,
                    rt.e02 == -t.e02,
                    rt.e03 == -t.e03,
                    rt.e04 == -t.e04,
                    rt.e12 == -t.e12,
                    rt.e13 == -t.e13,
                    rt.e14 == -t.e14,
                    rt.e23 == -t.e23,
                    rt.e24 == -t.e24,
                    rt.e34 == -t.e34,
                    rt.e0123 == t.e0123,
                    rt.e0124 == t.e0124,
                    rt.e0134 == t.e0134,
                    rt.e0234 == t.e0234,
                    rt.e1234 == t.e1234,
                    xr.e0234 == t.e01 * rt.e1234 + t.e0123 * rt.e14 - t.e0124 * rt.e13 + t.e0134 * rt.e12 + t.e02 * rt.e34 + t.e0234 * rt.s - t.e03 * rt.e24 + t.e04 * rt.e23 - t.e12 * rt.e0134 - t.e1234 * rt.e01 + t.e13 * rt.e0124 - t.e14 * rt.e0123 + t.e23 * rt.e04 - t.e24 * rt.e03 + t.e34 * rt.e02 + t.s * rt.e0234;
            assert(xr.e1234 == 0) by (nonlinear_arith)
                requires
                    t.s == c,
                    t.e01 == 0,
                    t.e02 == 0,
                    t.e03 == 0,
                    t.e04 == 0,
                    t.e12 == 0,
                    t.e13 == s,
                    t.e14 == 0,
                    t.e23 == 0,
                    t.e24 == 0,
                    t.e34 == 0,
                    t.e0123 == 0,
                    t.e0124 == 0,
                    t.e0134 == 0,
                    t.e0234 == 0,
                    t.e1234 == 0,
                    t.den == d,
                    rt.s == t.s,
                    rt.e01 == -t.e01,
                    rt.e02 == -t.e02,
                    rt.e03 == -t.e03,
                    rt.e04 == -t.e04,
                    rt.e12 == -t.e12,
                    rt.e13 == -t.e13,
                    rt.e14 == -t.e14,
                    rt.e23 == -t.e23,
                    rt.e24 == -t.e24,
                    rt.e34 == -t.e34,
                    rt.e0123 == t.e0123,
                    rt.e0124 == t.e0124,
                    rt.e0134 == t.e0134,
                    rt.e0234 == t.e0234,
                    rt.e1234 == t.e1234,
                    xr.e1234 == t.e12 * rt.e34 + t.e1234 * rt.s - t.e13 * rt.e24 + t.e14 * rt.e23 + t.e23 * rt.e14 - t.e24 * rt.e13 + t.e34 * rt.e12 + t.s * rt.e1234;
            assert(spec_mag2_num(t) == t.den * t.den) by (nonlinear_arith)
                requires
                    c * c + s * s == d * d,
                    t.s == c,
                    t.e01 == 0,
                    t.e02 == 0,
                    t.e03 == 0,
                    t.e04 == 0,
                    t.e12 == 0,
                    t.e13 == s,
                    t.e14 == 0,
                    t.e23 == 0,
                    t.e24 == 0,
                    t.e34 == 0,
                    t.e0123 == 0,
                    t.e0124 == 0,
                    t.e0134 == 0,
                    t.e0234 == 0,
                    t.e1234 == 0,
                    t.den == d,
                    spec_mag2_num(t) == t.e12 * t.e12 + t.e1234 * t.e1234 + t.e13 * t.e13 + t.e14 * t.e14 + t.e23 * t.e23 + t.e24 * t.e24 + t.e34 * t.e34 + t.s * t.s;
        }
        Plane::E14 => {
            assert(xl.e0123 == 0) by (nonlinear_arith)
                requires
                    t.s == c,
                    t.e01 == 0,
                    t.e02 == 0,
                    t.e03 == 0,
                    t.e04 == 0,
                    t.e12 == 0,
                    t.e13 == 0,
                    t.e14 == s,
                    t.e23 == 0,
                    t.e24 == 0,
                    t.e34 == 0,
                    t.e0123 == 0,
                    t.e0124 == 0,
                    t.e0134 == 0,
                    t.e0234 == 0,
                    t.e1234 == 0,
                    t.den == d,
                    rt.s == t.s,
                    rt.e01 == -t.e01,
                    rt.e02 == -t.e02,
                    rt.e03 == -t.e03,
                    rt.e04 == -t.e04,
                    rt.e12 == -t.e12,
                    rt.e13 == -t.e13,
                    rt.e14 == -t.e14,
                    rt.e23 == -t.e23,
                    rt.e24 == -t.e24,
                    rt.e34 == -t.e34,
                    rt.e0123 == t.e0123,
                    rt.e0124 == t.e0124,
                    rt.e0134 == t.e0134,
                    rt.e0234 == t.e0234,
                    rt.e1234 == t.e1234,
                    xl.e0123 == rt.e01 * t.e23 + rt.e0123 * t.s - rt.e0124 * t.e34 + rt.e0134 * t.e24 - rt.e02 * t.e13 - rt.e0234 * t.e14 + rt.e03 * t.e12 - rt.e04 * t.e1234 + rt.e12 * t.e03 + rt.e1234 * t.e04 - rt.e13 * t.e02 + rt.e14 * t.e0234 + rt.e23 * t.e01 - rt.e24 * t.e0134 + rt.e34 * t.e0124 + rt.s * t.e0123;
            assert(xl.e0124 == 0) by (nonlinear_arith)
                requires
                    t.s == c,
                    t.e01 == 0,
                    t.e02 == 0,
                    t.e03 == 0,
                    t.e04 == 0,
                    t.e12 == 0,
                    t.e13 == 0,
                    t.e14 == s,
                    t.e23 == 0,
                    t.e24 == 0,
                    t.e34 == 0,
                    t.e0123 == 0,
                    t.e0124 == 0,
                    t.e0134 == 0,
                    t.e0234 == 0,
                    t.e1234 == 0,
                    t.den == d,
                    rt.s == t.s,
                    rt.e01 == -t.e01,
                    rt.e02 == -t.e02,
                    rt.e03 == -t.e03,
                    rt.e04 == -t.e04,
                    rt.e12 == -t.e12,
                    rt.e13 == -t.e13,
                    rt.e14 == -t.e14,
                    rt.e23 == -t.e23,
                    rt.e24 == -t.e24,
                    rt.e34 == -t.e34,
                    rt.e0123 == t.e0123,
                    rt.e0124 == t.e0124,
                    rt.e0134 == t.e0134,
                    rt.e0234 == t.e0234,
                    rt.e1234 == t.e1234,
                    xl.e0124 == rt.e01 * t.e24 + rt.e0123 * t.e34 + rt.e0124 * t.s - rt.e0134 * t.e23 - rt.e02 * t.e14 + rt.e0234 * t.e13 + rt.e03 * t.e1234 + rt.e04 * t.e12 + rt.e12 * t.e04 - rt.e1234 * t.e03 - rt.e13 * t.e0234 - rt.e14 * t.e02 + rt.e23 * t.e0134 + rt.e24 * t.e01 - rt.e34 * t.e0123 + rt.s * t.e0124;
            assert(xl.e0134 == 0) by (nonlinear_arith)
                requires
                    t.s == c,
                    t.e01 == 0,
                    t.e02 == 0,
                    t.e03 == 0,
                    t.e04 == 0,
                    t.e12 == 0,
                    t.e13 == 0,
                    t.e14 == s,
                    t.e23 == 0,
                    t.e24 == 0,
                    t.e34 == 0,
                    t.e0123 == 0,
                    t.e0124 == 0,
                    t.e0134 == 0,
                    t.e0234 == 0,
                    t.e1234 == 0,
                    t.den == d,
                    rt.s == t.s,
                    rt.e01 == -t.e01,
                    rt.e02 == -t.e02,
                    rt.e03 == -t.e03,
                    rt.e04 == -t.e04,
                    rt.e12 == -t.e12,
                    rt.e13 == -t.e13,
                    rt.e14 == -t.e14,
                    rt.e23 == -t.e23,
                    rt.e24 == -t.e24,
                    rt.e34 == -t.e34,
                    rt.e0123 == t.e0123,
                    rt.e0124 == t.e0124,
                    rt.e0134 == t.e0134,
                    rt.e0234 == t.e0234,
                    rt.e1234 == t.e1234,
                    xl.e0134 == rt.e01 * t.e34 - rt.e0123 * t.e24 + rt.e0124 * t.e23 + rt.e0134 * t.s - rt.e02 * t.e1234 - rt.e0234 * t.e12 - rt.e03 * t.e14 + rt.e04 * t.e13 + rt.e12 * t.e0234 + rt.e1234 * t.e02 + rt.e13 * t.e04 - rt.e14 * t.e03 - rt.e23 * t.e0124 + rt.e24 * t.e0123 + rt.e34 * t.e01 + rt.s * t.e0134;
            assert(xl.e0234 == 0) by (nonlinear_arith)
                requires
                    t.s == c,
                    t.e01 == 0,
                    t.e02 == 0,
                    t.e03 == 0,
                    t.e04 == 0,
                    t.e12 == 0,
                    t.e13 == 0,
                    t.e14 == s,
                    t.e23 == 0,
                    t.e24 == 0,
                    t.e34 == 0,
                    t.e0123 == 0,
                    t.e0124 == 0,
                    t.e0134 == 0,
                    t.e0234 == 0,
                    t.e1234 == 0,
                    t.den == d,
                    rt.s == t.s,
                    rt.e01 == -t.e01,
                    rt.e02 == -t.e02,
                    rt.e03 == -t.e03,
                    rt.e04 == -t.e04,
                    rt.e12 == -t.e12,
                    rt.e13 == -t.e13,
                    rt.e14 == -t.e14,
                    rt.e23 == -t.e23,
                    rt.e24 == -t.e24,
                    rt.e34 == -t.e34,
                    rt.e0123 == t.e0123,
                    rt.e0124 == t.e0124,
                    rt.e0134 == t.e0134,
                    rt.e0234 == t.e0234,
                    rt.e1234 == t.e1234,
                    xl.e0234 == rt.e01 * t.e1234 + rt.e0123 * t.e14 - rt.e0124 * t.e13 + rt.e0134 * t.e12 + rt.e02 * t.e34 + rt.e0234 * t.s - rt.e03 * t.e24 + rt.e04 * t.e23 - rt.e12 * t.e0134 - rt.e1234 * t.e01 + rt.e13 * t.e0124 - rt.e14 * t.e0123 + rt.e23 * t.e04 - rt.e24 * t.e03 + rt.e34 * t.e02 + rt.s * t.e0234;
            assert(xl.e1234 == 0) by (nonlinear_arith)
                requires
                    t.s == c,
                    t.e01 == 0,
                    t.e02 == 0,
                    t.e03 == 0,
                    t.e04 == 0,
                    t.e12 == 0,
                    t.e13 == 0,
                    t.e14 == s,
                    t.e23 == 0,
                    t.e24 == 0,
                    t.e34 == 0,
                    t.e0123 == 0,
                    t.e0124 == 0,
                    t.e0134 == 0,
                    t.e0234 == 0,
                    t.e1234 == 0,
                    t.den == d,
                    rt.s == t.s,
                    rt.e01 == -t.e01,
                    rt.e02 == -t.e02,
                    rt.e03 == -t.e03,
                    rt.e04 == -t.e04,
                    rt.e12 == -t.e12,
                    rt.e13 == -t.e13,
                    rt.e14 == -t.e14,
                    rt.e23 == -t.e23,
                    rt.e24 == -t.e24,
                    rt.e34 == -t.e34,
                    rt.e0123 == t.e0123,
                    rt.e0124 == t.e0124,
                    rt.e0134 == t.e0134,
                    rt.e0234 == t.e0234,
                    rt.e1234 == t.e1234,
                    xl.e1234 == rt.e12 * t.e34 + rt.e1234 * t.s - rt.e13 * t.e24 + rt.e14 * t.e23 + rt.e23 * t.e14 - rt.e24 * t.e13 + rt.e34 * t.e12 + rt.s * t.e1234;
            assert(xr.e0123 == 0) by (nonlinear_arith)
                requires
                    t.s == c,
                    t.e01 == 0,
                    t.e02 == 0,
                    t.e03 == 0,
                    t.e04 == 0,
                    t.e12 == 0,
                    t.e13 == 0,
                    t.e14 == s,
                    t.e23 == 0,
                    t.e24 == 0,
                    t.e34 == 0,
                    t.e0123 == 0,
                    t.e0124 == 0,
                    t.e0134 == 0,
                    t.e0234 == 0,
                    t.e1234 == 0,
                    t.den == d,
                    rt.s == t.s,
                    rt.e01 == -t.e01,
                    rt.e02 == -t.e02,
                    rt.e03 == -t.e03,
                    rt.e04 == -t.e04,
                    rt.e12 == -t.e12,
                    rt.e13 == -t.e13,
                    rt.e14 == -t.e14,
                    rt.e23 == -t.e23,
                    rt.e24 == -t.e24,
                    rt.e34 == -t.e34,
                    rt.e0123 == t.e0123,
                    rt.e0124 == t.e0124,
                    rt.e0134 == t.e0134,
                    rt.e0234 == t.e0234,
                    rt.e1234 == t.e1234,
                    xr.e0123 == t.e01 * rt.e23 + t.e0123 * rt.s - t.e0124 * rt.e34 + t.e0134 * rt.e24 - t.e02 * rt.e13 - t.e0234 * rt.e14 + t.e03 * rt.e12 - t.e04 * rt.e1234 + t.e12 * rt.e03 + t.e1234 * rt.e04 - t.e13 * rt.e02 + t.e14 * rt.e0234 + t.e23 * rt.e01 - t.e24 * rt.e0134 + t.e34 * rt.e0124 + t.s * rt.e0123;
            assert(xr.e0124 == 0) by (nonlinear_arith)
                requires
                    t.s == c,
                    t.e01 == 0,
                    t.e02 == 0,
                    t.e03 == 0,
                    t.e04 == 0,
                    t.e12 == 0,
                    t.e13 == 0,
                    t.e14 == s,
                    t.e23 == 0,
                    t.e24 == 0,
                    t.e34 == 0,
                    t.e0123 == 0,
                    t.e0124 == 0,
                    t.e0134 == 0,
                    t.e0234 == 0,
                    t.e1234 == 0,
                    t.den == d,
                    rt.s == t.s,
                    rt.e01 == -t.e01,
                    rt.e02 == -t.e02,
                    rt.e03 == -t.e03,
                    rt.e04 == -t.e04,
                    rt.e12 == -t.e12,
                    rt.e13 == -t.e13,
                    rt.e14 == -t.e14,
                    rt.e23 == -t.e23,
                    rt.e24 == -t.e24,
                    rt.e34 == -t.e34,
                    rt.e0123 == t.e0123,
                    rt.e0124 == t.e0124,
                    rt.e0134 == t.e0134,
                    rt.e0234 == t.e0234,
                    rt.e1234 == t.e1234,
                    xr.e0124 == t.e01 * rt.e24 + t.e0123 * rt.e34 + t.e0124 * rt.s - t.e0134 * rt.e23 - t.e02 * rt.e14 + t.e0234 * rt.e13 + t.e03 * rt.e1234 + t.e04 * rt.e12 + t.e12 * rt.e04 - t.e1234 * rt.e03 - t.e13 * rt.e0234 - t.e14 * rt.e02 + t.e23 * rt.e0134 + t.e24 * rt.e01 - t.e34 * rt.e0123 + t.s * rt.e0124;
            assert(xr.e0134 == 0) by (nonlinear_arith)
                requires
                    t.s == c,
                    t.e01 == 0,
                    t.e02 == 0,
                    t.e03 == 0,
                    t.e04 == 0,
                    t.e12 == 0,
                    t.e13 == 0,
                    t.e14 == s,
                    t.e23 == 0,
                    t.e24 == 0,
                    t.e34 == 0,
                    t.e0123 == 0,
                    t.e0124 == 0,
                    t.e0134 == 0,
                    t.e0234 == 0,
                    t.e1234 == 0,
                    t.den == d,
                    rt.s == t.s,
                    rt.e01 == -t.e01,
                    rt.e02 == -t.e02,
                    rt.e03 == -t.e03,
                    rt.e04 == -t.e04,
                    rt.e12 == -t.e12,
                    rt.e13 == -t.e13,
                    rt.e14 == -t.e14,
                    rt.e23 == -t.e23,
                    rt.e24 == -t.e24,
                    rt.e34 == -t.e34,
                    rt.e0123 == t.e0123,
                    rt.e0124 == t.e0124,
                    rt.e0134 == t.e0134,
                    rt.e0234 == t.e0234,
                    rt.e1234 == t.e1234,
                    xr.e0134 == t.e01 * rt.e34 - t.e0123 * rt.e24 + t.e0124 * rt.e23 + t.e0134 * rt.s - t.e02 * rt.e1234 - t.e0234 * rt.e12 - t.e03 * rt.e14 + t.e04 * rt.e13 + t.e12 * rt.e0234 + t.e1234 * rt.e02 + t.e13 * rt.e04 - t.e14 * rt.e03 - t.e23 * rt.e0124 + t.e24 * rt.e0123 + t.e34 * rt.e01 + t.s * rt.e0134;
            assert(xr.e0234 == 0) by (nonlinear_arith)
                requires
                    t.s == c,
                    t.e01 == 0,
                    t.e02 == 0,
                    t.e03 == 0,
                    t.e04 == 0,
                    t.e12 == 0,
                    t.e13 == 0,
                    t.e14 == s,
                    t.e23 == 0,
                    t.e24 == 0,
                    t.e34 == 0,
                    t.e0123 == 0,
                    t.e0124 == 0,
                    t.e0134 == 0,
                    t.e0234 == 0,
                    t.e1234 == 0,
                    t.den == d,
                    rt.s == t.s,
                    rt.e01 == -t.e01,
                    rt.e02 == -t.e02,
                    rt.e03 == -t.e03,
                    rt.e04 == -t.e04,
                    rt.e12 == -t.e12,
                    rt.e13 == -t.e13,
                    rt.e14 == -t.e14,
                    rt.e23 == -t.e23,
                    rt.e24 == -t.e24,
                    rt.e34 == -t.e34,
                    rt.e0123 == t.e0123,
                    rt.e0124 == t.e0124,
                    rt.e0134 == t.e0134,
                    rt.e0234 == t.e0234,
                    rt.e1234 == t.e1234,
                    xr.e0234 == t.e01 * rt.e1234 + t.e0123 * rt.e14 - t.e0124 * rt.e13 + t.e0134 * rt.e12 + t.e02 * rt.e34 + t.e0234 * rt.s - t.e03 * rt.e24 + t.e04 * rt.e23 - t.e12 * rt.e0134 - t.e1234 * rt.e01 + t.e13 * rt.e0124 - t.e14 * rt.e0123 + t.e23 * rt.e04 - t.e24 * rt.e03 + t.e34 * rt.e02 + t.s * rt.e0234;
            assert(xr.e1234 == 0) by (nonlinear_arith)
                requires
                    t.s == c,
                    t.e01 == 0,
                    t.e02 == 0,
                    t.e03 == 0,
                    t.e04 == 0,
                    t.e12 == 0,
                    t.e13 == 0,
                    t.e14 == s,
                    t.e23 == 0,
                    t.e24 == 0,
                    t.e34 == 0,
                    t.e0123 == 0,
                    t.e0124 == 0,
                    t.e0134 == 0,
                    t.e0234 == 0,
                    t.e1234 == 0,
                    t.den == d,
                    rt.s == t.s,
                    rt.e01 == -t.e01,
                    rt.e02 == -t.e02,
                    rt.e03 == -t.e03,
                    rt.e04 == -t.e04,
                    rt.e12 == -t.e12,
                    rt.e13 == -t.e13,
                    rt.e14 == -t.e14,
                    rt.e23 == -t.e23,
                    rt.e24 == -t.e24,
                    rt.e34 == -t.e34,
                    rt.e0123 == t.e0123,
                    rt.e0124 == t.e0124,
                    rt.e0134 == t.e0134,
                    rt.e0234 == t.e0234,
                    rt.e1234 == t.e1234,
                    xr.e1234 == t.e12 * rt.e34 + t.e1234 * rt.s - t.e13 * rt.e24 + t.e14 * rt.e23 + t.e23 * rt.e14 - t.e24 * rt.e13 + t.e34 * rt.e12 + t.s * rt.e1234;
            assert(spec_mag2_num(t) == t.den * t.den) by (nonlinear_arith)
                requires
                    c * c + s * s == d * d,
                    t.s == c,
                    t.e01 == 0,
                    t.e02 == 0,
                    t.e03 == 0,
                    t.e04 == 0,
                    t.e12 == 0,
                    t.e13 == 0,
                    t.e14 == s,
                    t.e23 == 0,
                    t.e24 == 0,
                    t.e34 == 0,
                    t.e0123 == 0,
                    t.e0124 == 0,
                    t.e0134 == 0,
                    t.e0234 == 0,
                    t.e1234 == 0,
                    t.den == d,
                    spec_mag2_num(t) == t.e12 * t.e12 + t.e1234 * t.e1234 + t.e13 * t.e13 + t.e14 * t.e14 + t.e23 * t.e23 + t.e24 * t.e24 + t.e34 * t.e34 + t.s * t.s;
        }
        Plane::E23 => {
            assert(xl.e0123 == 0) by (nonlinear_arith)
                requires
                    t.s == c,
                    t.e01 == 0,
                    t.e02 == 0,
                    t.e03 == 0,
                    t.e04 == 0,
                    t.e12 == 0,
                    t.e13 == 0,
                    t.e14 == 0,
                    t.e23 == s,
                    t.e24 == 0,
                    t.e34 == 0,
                    t.e0123 == 0,
                    t.e0124 == 0,
                    t.e0134 == 0,
                    t.e0234 == 0,
                    t.e1234 == 0,
                    t.den == d,
                    rt.s == t.s,
                    rt.e01 == -t.e01,
                    rt.e02 == -t.e02,
                    rt.e03 == -t.e03,
                    rt.e04 == -t.e04,
                    rt.e12 == -t.e12,
                    rt.e13 == -t.e13,
                    rt.e14 == -t.e14,
                    rt.e23 == -t.e23,
                    rt.e24 == -t.e24,
                    rt.e34 == -t.e34,
                    rt.e0123 == t.e0123,
                    rt.e0124 == t.e0124,
                    rt.e0134 == t.e0134,
                    rt.e0234 == t.e0234,
                    rt.e1234 == t.e1234,
                    xl.e0123 == rt.e01 * t.e23 + rt.e0123 * t.s - rt.e0124 * t.e34 + rt.e0134 * t.e24 - rt.e02 * t.e13 - rt.e0234 * t.e14 + rt.e03 * t.e12 - rt.e04 * t.e1234 + rt.e12 * t.e03 + rt.e1234 * t.e04 - rt.e13 * t.e02 + rt.e14 * t.e0234 + rt.e23 * t.e01 - rt.e24 * t.e0134 + rt.e34 * t.e0124 + rt.s * t.e0123;
            assert(xl.e0124 == 0) by (nonlinear_arith)
                requires
                    t.s == c,
                    t.e01 == 0,
                    t.e02 == 0,
                    t.e03 == 0,
                    t.e04 == 0,
                    t.e12 == 0,
                    t.e13 == 0,
                    t.e14 == 0,
                    t.e23 == s,
                    t.e24 == 0,
                    t.e34 == 0,
                    t.e0123 == 0,
                    t.e0124 == 0,
                    t.e0134 == 0,
                    t.e0234 == 0,
                    t.e1234 == 0,
                    t.den == d,
                    rt.s == t.s,
                    rt.e01 == -t.e01,
                    rt.e02 == -t.e02,
                    rt.e03 == -t.e03,
                    rt.e04 == -t.e04,
                    rt.e12 == -t.e12,
                    rt.e13 == -t.e13,
                    rt.e14 == -t.e14,
                    rt.e23 == -t.e23,
                    rt.e24 == -t.e24,
                    rt.e34 == -t.e34,
                    rt.e0123 == t.e0123,
                    rt.e0124 == t.e0124,
                    rt.e0134 == t.e0134,
                    rt.e0234 == t.e0234,
                    rt.e1234 == t.e1234,
                    xl.e0124 == rt.e01 * t.e24 + rt.e0123 * t.e34 + rt.e0124 * t.s - rt.e0134 * t.e23 - rt.e02 * t.e14 + rt.e0234 * t.e13 + rt.e03 * t.e1234 + rt.e04 * t.e12 + rt.e12 * t.e04 - rt.e1234 * t.e03 - rt.e13 * t.e0234 - rt.e14 * t.e02 + rt.e23 * t.e0134 + rt.e24 * t.e01 - rt.e34 * t.e0123 + rt.s * t.e0124;
            assert(xl.e0134 == 0) by (nonlinear_arith)
                requires
                    t.s == c,
                    t.e01 == 0,
                    t.e02 == 0,
                    t.e03 == 0,
                    t.e04 == 0,
                    t.e12 == 0,
                    t.e13 == 0,
                    t.e14 == 0,
                    t.e23 == s,
                    t.e24 == 0,
                    t.e34 == 0,
                    t.e0123 == 0,
                    t.e0124 == 0,
                    t.e0134 == 0,
                    t.e0234 == 0,
                    t.e1234 == 0,
                    t.den == d,
                    rt.s == t.s,
                    rt.e01 == -t.e01,
                    rt.e02 == -t.e02,
                    rt.e03 == -t.e03,
                    rt.e04 == -t.e04,
                    rt.e12 == -t.e12,
                    rt.e13 == -t.e13,
                    rt.e14 == -t.e14,
                    rt.e23 == -t.e23,
                    rt.e24 == -t.e24,
                    rt.e34 == -t.e34,
                    rt.e0123 == t.e0123,
                    rt.e0124 == t.e0124,
                    rt.e0134 == t.e0134,
                    rt.e0234 == t.e0234,
                    rt.e1234 == t.e1234,
                    xl.e0134 == rt.e01 * t.e34 - rt.e0123 * t.e24 + rt.e0124 * t.e23 + rt.e0134 * t.s - rt.e02 * t.e1234 - rt.e0234 * t.e12 - rt.e03 * t.e14 + rt.e04 * t.e13 + rt.e12 * t.e0234 + rt.e1234 * t.e02 + rt.e13 * t.e04 - rt.e14 * t.e03 - rt.e23 * t.e0124 + rt.e24 * t.e0123 + rt.e34 * t.e01 + rt.s * t.e0134;
            assert(xl.e0234 == 0) by (nonlinear_arith)
                requires
                    t.s == c,
                    t.e01 == 0,
                    t.e02 == 0,
                    t.e03 == 0,
                    t.e04 == 0,
                    t.e12 == 0,
                    t.e13 == 0,
                    t.e14 == 0,
                    t.e23 == s,
                    t.e24 == 0,
                    t.e34 == 0,
                    t.e0123 == 0,
                    t.e0124 == 0,
                    t.e0134 == 0,
                    t.e0234 == 0,
                    t.e1234 == 0,
                    t.den == d,
                    rt.s == t.s,
                    rt.e01 == -t.e01,
                    rt.e02 == -t.e02,
                    rt.e03 == -t.e03,
                    rt.e04 == -t.e04,
                    rt.e12 == -t.e12,
                    rt.e13 == -t.e13,
                    rt.e14 == -t.e14,
                    rt.e23 == -t.e23,
                    rt.e24 == -t.e24,
                    rt.e34 == -t.e34,
                    rt.e0123 == t.e0123,
                    rt.e0124 == t.e0124,
                    rt.e0134 == t.e0134,
                    rt.e0234 == t.e0234,
                    rt.e1234 == t.e1234,
                    xl.e0234 == rt.e01 * t.e1234 + rt.e0123 * t.e14 - rt.e0124 * t.e13 + rt.e0134 * t.e12 + rt.e02 * t.e34 + rt.e0234 * t.s - rt.e03 * t.e24 + rt.e04 * t.e23 - rt.e12 * t.e0134 - rt.e1234 * t.e01 + rt.e13 * t.e0124 - rt.e14 * t.e0123 + rt.e23 * t.e04 - rt.e24 * t.e03 + rt.e34 * t.e02 + rt.s * t.e0234;
            assert(xl.e1234 == 0) by (nonlinear_arith)
                requires
                    t.s == c,
                    t.e01 == 0,
                    t.e02 == 0,
                    t.e03 == 0,
                    t.e04 == 0,
                    t.e12 == 0,
                    t.e13 == 0,
                    t.e14 == 0,
                    t.e23 == s,
                    t.e24 == 0,
                    t.e34 == 0,
                    t.e0123 == 0,
                    t.e0124 == 0,
                    t.e0134 == 0,
                    t.e0234 == 0,
                    t.e1234 == 0,
                    t.den == d,
                    rt.s == t.s,
                    rt.e01 == -t.e01,
                    rt.e02 == -t.e02,
                    rt.e03 == -t.e03,
                    rt.e04 == -t.e04,
                    rt.e12 == -t.e12,
                    rt.e13 == -t.e13,
                    rt.e14 == -t.e14,
                    rt.e23 == -t.e23,
                    rt.e24 == -t.e24,
                    rt.e34 == -t.e34,
                    rt.e0123 == t.e0123,
                    rt.e0124 == t.e0124,
                    rt.e0134 == t.e0134,
                    rt.e0234 == t.e0234,
                    rt.e1234 == t.e1234,
                    xl.e1234 == rt.e12 * t.e34 + rt.e1234 * t.s - rt.e13 * t.e24 + rt.e14 * t.e23 + rt.e23 * t.e14 - rt.e24 * t.e13 + rt.e34 * t.e12 + rt.s * t.e1234;
            assert(xr.e0123 == 0) by (nonlinear_arith)
                requires
                    t.s == c,
                    t.e01 == 0,
                    t.e02 == 0,
                    t.e03 == 0,
                    t.e04 == 0,
                    t.e12 == 0,
                    t.e13 == 0,
                    t.e14 == 0,
                    t.e23 == s,
                    t.e24 == 0,
                    t.e34 == 0,
                    t.e0123 == 0,
                    t.e0124 == 0,
                    t.e0134 == 0,
                    t.e0234 == 0,
                    t.e1234 == 0,
                    t.den == d,
                    rt.s == t.s,
                    rt.e01 == -t.e01,
                    rt.e02 == -t.e02,
                    rt.e03 == -t.e03,
                    rt.e04 == -t.e04,
                    rt.e12 == -t.e12,
                    rt.e13 == -t.e13,
                    rt.e14 == -t.e14,
                    rt.e23 == -t.e23,
                    rt.e24 == -t.e24,
                    rt.e34 == -t.e34,
                    rt.e0123 == t.e0123,
                    rt.e0124 == t.e0124,
                    rt.e0134 == t.e0134,
                    rt.e0234 == t.e0234,
                    rt.e1234 == t.e1234,
                    xr.e0123 == t.e01 * rt.e23 + t.e0123 * rt.s - t.e0124 * rt.e34 + t.e0134 * rt.e24 - t.e02 * rt.e13 - t.e0234 * rt.e14 + t.e03 * rt.e12 - t.e04 * rt.e1234 + t.e12 * rt.e03 + t.e1234 * rt.e04 - t.e13 * rt.e02 + t.e14 * rt.e0234 + t.e23 * rt.e01 - t.e24 * rt.e0134 + t.e34 * rt.e0124 + t.s * rt.e0123;
            assert(xr.e0124 == 0) by (nonlinear_arith)
                requires
                    t.s == c,
                    t.e01 == 0,
                    t.e02 == 0,
                    t.e03 == 0,
                    t.e04 == 0,
                    t.e12 == 0,
                    t.e13 == 0,
                    t.e14 == 0,
                    t.e23 == s,
                    t.e24 == 0,
                    t.e34 == 0,
                    t.e0123 == 0,
                    t.e0124 == 0,
                    t.e0134 == 0,
                    t.e0234 == 0,
                    t.e1234 == 0,
                    t.den == d,
                    rt.s == t.s,
                    rt.e01 == -t.e01,
                    rt.e02 == -t.e02,
                    rt.e03 == -t.e03,
                    rt.e04 == -t.e04,
                    rt.e12 == -t.e12,
                    rt.e13 == -t.e13,
                    rt.e14 == -t.e14,
                    rt.e23 == -t.e23,
                    rt.e24 == -t.e24,
                    rt.e34 == -t.e34,
                    rt.e0123 == t.e0123,
                    rt.e0124 == t.e0124,
                    rt.e0134 == t.e0134,
                    rt.e0234 == t.e0234,
                    rt.e1234 == t.e1234,
                    xr.e0124 == t.e01 * rt.e24 + t.e0123 * rt.e34 + t.e0124 * rt.s - t.e0134 * rt.e23 - t.e02 * rt.e14 + t.e0234 * rt.e13 + t.e03 * rt.e1234 + t.e04 * rt.e12 + t.e12 * rt.e04 - t.e1234 * rt.e03 - t.e13 * rt.e0234 - t.e14 * rt.e02 + t.e23 * rt.e0134 + t.e24 * rt.e01 - t.e34 * rt.e0123 + t.s * rt.e0124;
            assert(xr.e0134 == 0) by (nonlinear_arith)
                requires
                    t.s == c,
                    t.e01 == 0,
                    t.e02 == 0,
                    t.e03 == 0,
                    t.e04 == 0,
                    t.e12 == 0,
                    t.e13 == 0,
                    t.e14 == 0,
                    t.e23 == s,
                    t.e24 == 0,
                    t.e34 == 0,
                    t.e0123 == 0,
                    t.e0124 == 0,
                    t.e0134 == 0,
                    t.e0234 == 0,
                    t.e1234 == 0,
                    t.den == d,
                    rt.s == t.s,
                    rt.e01 == -t.e01,
                    rt.e02 == -t.e02,
                    rt.e03 == -t.e03,
                    rt.e04 == -t.e04,
                    rt.e12 == -t.e12,
                    rt.e13 == -t.e13,
                    rt.e14 == -t.e14,
                    rt.e23 == -t.e23,
                    rt.e24 == -t.e24,
                    rt.e34 == -t.e34,
                    rt.e0123 == t.e0123,
                    rt.e0124 == t.e0124,
                    rt.e0134 == t.e0134,
                    rt.e0234 == t.e0234,
                    rt.e1234 == t.e1234,
                    xr.e0134 == t.e01 * rt.e34 - t.e0123 * rt.e24 + t.e0124 * rt.e23 + t.e0134 * rt.s - t.e02 * rt.e1234 - t.e0234 * rt.e12 - t.e03 * rt.e14 + t.e04 * rt.e13 + t.e12 * rt.e0234 + t.e1234 * rt.e02 + t.e13 * rt.e04 - t.e14 * rt.e03 - t.e23 * rt.e0124 + t.e24 * rt.e0123 + t.e34 * rt.e01 + t.s * rt.e0134;
            assert(xr.e0234 == 0) by (nonlinear_arith)
                requires
                    t.s == c,
                    t.e01 == 0,
                    t.e02 == 0,
                    t.e03 == 0,
                    t.e04 == 0,
                    t.e12 == 0,
                    t.e13 == 0,
                    t.e14 == 0,
                    t.e23 == s,
                    t.e24 == 0,
                    t.e34 == 0,
                    t.e0123 == 0,
                    t.e0124 == 0,
                    t.e0134 == 0,
                    t.e0234 == 0,
                    t.e1234 == 0,
                    t.den == d,
                    rt.s == t.s,
                    rt.e01 == -t.e01,
                    rt.e02 == -t.e02,
                    rt.e03 == -t.e03,
                    rt.e04 == -t.e04,
                    rt.e12 == -t.e12,
                    rt.e13 == -t.e13,
                    rt.e14 == -t.e14,
                    rt.e23 == -t.e23,
                    rt.e24 == -t.e24,
                    rt.e34 == -t.e34,
                    rt.e0123 == t.e0123,
                    rt.e0124 == t.e0124,
                    rt.e0134 == t.e0134,
                    rt.e0234 == t.e0234,
                    rt.e1234 == t.e1234,
                    xr.e0234 == t.e01 * rt.e1234 + t.e0123 * rt.e14 - t.e0124 * rt.e13 + t.e0134 * rt.e12 + t.e02 * rt.e34 + t.e0234 * rt.s - t.e03 * rt.e24 + t.e04 * rt.e23 - t.e12 * rt.e0134 - t.e1234 * rt.e01 + t.e13 * rt.e0124 - t.e14 * rt.e0123 + t.e23 * rt.e04 - t.e24 * rt.e03 + t.e34 * rt.e02 + t.s * rt.e0234;
            assert(xr.e1234 == 0) by (nonlinear_arith)
                requires
                    t.s == c,
                    t.e01 == 0,
                    t.e02 == 0,
                    t.e03 == 0,
                    t.e04 == 0,
                    t.e12 == 0,
                    t.e13 == 0,
                    t.e14 == 0,
                    t.e23 == s,
                    t.e24 == 0,
                    t.e34 == 0,
                    t.e0123 == 0,
                    t.e0124 == 0,
                    t.e0134 == 0,
                    t.e0234 == 0,
                    t.e1234 == 0,
                    t.den == d,
                    rt.s == t.s,
                    rt.e01 == -t.e01,
                    rt.e02 == -t.e02,
                    rt.e03 == -t.e03,
                    rt.e04 == -t.e04,
                    rt.e12 == -t.e12,
                    rt.e13 == -t.e13,
                    rt.e14 == -t.e14,
                    rt.e23 == -t.e23,
                    rt.e24 == -t.e24,
                    rt.e34 == -t.e34,
                    rt.e0123 == t.e0123,
                    rt.e0124 == t.e0124,
                    rt.e0134 == t.e0134,
                    rt.e0234 == t.e0234,
                    rt.e1234 == t.e1234,
                    xr.e1234 == t.e12 * rt.e34 + t.e1234 * rt.s - t.e13 * rt.e24 + t.e14 * rt.e23 + t.e23 * rt.e14 - t.e24 * rt.e13 + t.e34 * rt.e12 + t.s * rt.e1234;
            assert(spec_mag2_num(t) == t.den * t.den) by (nonlinear_arith)
                requires
                    c * c + s * s == d * d,
                    t.s == c,
                    t.e01 == 0,
                    t.e02 == 0,
                    t.e03 == 0,
                    t.e04 == 0,
                    t.e12 == 0,
                    t.e13 == 0,
                    t.e14 == 0,
                    t.e23 == s,
                    t.e24 == 0,
                    t.e34 == 0,
                    t.e0123 == 0,
                    t.e0124 == 0,
                    t.e0134 == 0,
                    t.e0234 == 0,
                    t.e1234 == 0,
                    t.den == d,
                    spec_mag2_num(t) == t.e12 * t.e12 + t.e1234 * t.e1234 + t.e13 * t.e13 + t.e14 * t.e14 + t.e23 * t.e23 + t.e24 * t.e24 + t.e34 * t.e34 + t.s * t.s;
        }
        Plane::E24 => {
            assert(xl.e0123 == 0) by (nonlinear_arith)
                requires
                    t.s == c,
                    t.e01 == 0,
                    t.e02 == 0,
                    t.e03 == 0,
                    t.e04 == 0,
                    t.e12 == 0,
                    t.e13 == 0,
                    t.e14 == 0,
                    t.e23 == 0,
                    t.e24 == s,
                    t.e34 == 0,
                    t.e0123 == 0,
                    t.e0124 == 0,
                    t.e0134 == 0,
                    t.e0234 == 0,
                    t.e1234 == 0,
                    t.den == d,
                    rt.s == t.s,
                    rt.e01 == -t.e01,
                    rt.e02 == -t.e02,
                    rt.e03 == -t.e03,
                    rt.e04 == -t.e04,
                    rt.e12 == -t.e12,
                    rt.e13 == -t.e13,
                    rt.e14 == -t.e14,
                    rt.e23 == -t.e23,
                    rt.e24 == -t.e24,
                    rt.e34 == -t.e34,
                    rt.e0123 == t.e0123,
                    rt.e0124 == t.e0124,
                    rt.e0134 == t.e0134,
                    rt.e0234 == t.e0234,
                    rt.e1234 == t.e1234,
                    xl.e0123 == rt.e01 * t.e23 + rt.e0123 * t.s - rt.e0124 * t.e34 + rt.e0134 * t.e24 - rt.e02 * t.e13 - rt.e0234 * t.e14 + rt.e03 * t.e12 - rt.e04 * t.e1234 + rt.e12 * t.e03 + rt.e1234 * t.e04 - rt.e13 * t.e02 + rt.e14 * t.e0234 + rt.e23 * t.e01 - rt.e24 * t.e0134 + rt.e34 * t.e0124 + rt.s * t.e0123;
            assert(xl.e0124 == 0) by (nonlinear_arith)
                requires
                    t.s == c,
                    t.e01 == 0,
                    t.e02 == 0,
                    t.e03 == 0,
                    t.e04 == 0,
                    t.e12 == 0,
                    t.e13 == 0,
                    t.e14 == 0,
                    t.e23 == 0,
                    t.e24 == s,
                    t.e34 == 0,
                    t.e0123 == 0,
                    t.e0124 == 0,
                    t.e0134 == 0,
                    t.e0234 == 0,
                    t.e1234 == 0,
                    t.den == d,
                    rt.s == t.s,
                    rt.e01 == -t.e01,
                    rt.e02 == -t.e02,
                    rt.e03 == -t.e03,
                    rt.e04 == -t.e04,
                    rt.e12 == -t.e12,
                    rt.e13 == -t.e13,
                    rt.e14 == -t.e14,
                    rt.e23 == -t.e23,
                    rt.e24 == -t.e24,
                    rt.e34 == -t.e34,
                    rt.e0123 == t.e0123,
                    rt.e0124 == t.e0124,
                    rt.e0134 == t.e0134,
                    rt.e0234 == t.e0234,
                    rt.e1234 == t.e1234,
                    xl.e0124 == rt.e01 * t.e24 + rt.e0123 * t.e34 + rt.e0124 * t.s - rt.e0134 * t.e23 - rt.e02 * t.e14 + rt.e0234 * t.e13 + rt.e03 * t.e1234 + rt.e04 * t.e12 + rt.e12 * t.e04 - rt.e1234 * t.e03 - rt.e13 * t.e0234 - rt.e14 * t.e02 + rt.e23 * t.e0134 + rt.e24 * t.e01 - rt.e34 * t.e0123 + rt.s * t.e0124;
            assert(xl.e0134 == 0) by (nonlinear_arith)
                requires
                    t.s == c,
                    t.e01 == 0,
                    t.e02 == 0,
                    t.e03 == 0,
                    t.e04 == 0,
                    t.e12 == 0,
                    t.e13 == 0,
                    t.e14 == 0,
                    t.e23 == 0,
                    t.e24 == s,
                    t.e34 == 0,
                    t.e0123 == 0,
                    t.e0124 == 0,
                    t.e0134 == 0,
                    t.e0234 == 0,
                    t.e1234 == 0,
                    t.den == d,
                    rt.s == t.s,
                    rt.e01 == -t.e01,
                    rt.e02 == -t.e02,
                    rt.e03 == -t.e03,
                    rt.e04 == -t.e04,
                    rt.e12 == -t.e12,
                    rt.e13 == -t.e13,
                    rt.e14 == -t.e14,
                    rt.e23 == -t.e23,
                    rt.e24 == -t.e24,
                    rt.e34 == -t.e34,
                    rt.e0123 == t.e0123,
                    rt.e0124 == t.e0124,
                    rt.e0134 == t.e0134,
                    rt.e0234 == t.e0234,
                    rt.e1234 == t.e1234,
                    xl.e0134 == rt.e01 * t.e34 - rt.e0123 * t.e24 + rt.e0124 * t.e23 + rt.e0134 * t.s - rt.e02 * t.e1234 - rt.e0234 * t.e12 - rt.e03 * t.e14 + rt.e04 * t.e13 + rt.e12 * t.e0234 + rt.e1234 * t.e02 + rt.e13 * t.e04 - rt.e14 * t.e03 - rt.e23 * t.e0124 + rt.e24 * t.e0123 + rt.e34 * t.e01 + rt.s * t.e0134;
            assert(xl.e0234 == 0) by (nonlinear_arith)
                requires
                    t.s == c,
                    t.e01 == 0,
                    t.e02 == 0,
                    t.e03 == 0,
                    t.e04 == 0,
                    t.e12 == 0,
                    t.e13 == 0,
                    t.e14 == 0,
                    t.e23 == 0,
                    t.e24 == s,
                    t.e34 == 0,
                    t.e0123 == 0,
                    t.e0124 == 0,
                    t.e0134 == 0,
                    t.e0234 == 0,
                    t.e1234 == 0,
                    t.den == d,
                    rt.s == t.s,
                    rt.e01 == -t.e01,
                    rt.e02 == -t.e02,
                    rt.e03 == -t.e03,
                    rt.e04 == -t.e04,
                    rt.e12 == -t.e12,
                    rt.e13 == -t.e13,
                    rt.e14 == -t.e14,
                    rt.e23 == -t.e23,
                    rt.e24 == -t.e24,
                    rt.e34 == -t.e34,
                    rt.e0123 == t.e0123,
                    rt.e0124 == t.e0124,
                    rt.e0134 == t.e0134,
                    rt.e0234 == t.e0234,
                    rt.e1234 == t.e1234,
                    xl.e0234 == rt.e01 * t.e1234 + rt.e0123 * t.e14 - rt.e0124 * t.e13 + rt.e0134 * t.e12 + rt.e02 * t.e34 + rt.e0234 * t.s - rt.e03 * t.e24 + rt.e04 * t.e23 - rt.e12 * t.e0134 - rt.e1234 * t.e01 + rt.e13 * t.e0124 - rt.e14 * t.e0123 + rt.e23 * t.e04 - rt.e24 * t.e03 + rt.e34 * t.e02 + rt.s * t.e0234;
            assert(xl.e1234 == 0) by (nonlinear_arith)
                requires
                    t.s == c,
                    t.e01 == 0,
                    t.e02 == 0,
                    t.e03 == 0,
                    t.e04 == 0,
                    t.e12 == 0,
                    t.e13 == 0,
                    t.e14 == 0,
                    t.e23 == 0,
                    t.e24 == s,
                    t.e34 == 0,
                    t.e0123 == 0,
                    t.e0124 == 0,
                    t.e0134 == 0,
                    t.e0234 == 0,
                    t.e1234 == 0,
                    t.den == d,
                    rt.s == t.s,
                    rt.e01 == -t.e01,
                    rt.e02 == -t.e02,
                    rt.e03 == -t.e03,
                    rt.e04 == -t.e04,
                    rt.e12 == -t.e12,
                    rt.e13 == -t.e13,
                    rt.e14 == -t.e14,
                    rt.e23 == -t.e23,
                    rt.e24 == -t.e24,
                    rt.e34 == -t.e34,
                    rt.e0123 == t.e0123,
                    rt.e0124 == t.e0124,
                    rt.e0134 == t.e0134,
                    rt.e0234 == t.e0234,
                    rt.e1234 == t.e1234,
                    xl.e1234 == rt.e12 * t.e34 + rt.e1234 * t.s - rt.e13 * t.e24 + rt.e14 * t.e23 + rt.e23 * t.e14 - rt.e24 * t.e13 + rt.e34 * t.e12 + rt.s * t.e1234;
            assert(xr.e0123 == 0) by (nonlinear_arith)
                requires
                    t.s == c,
                    t.e01 == 0,
                    t.e02 == 0,
                    t.e03 == 0,
                    t.e04 == 0,
                    t.e12 == 0,
                    t.e13 == 0,
                    t.e14 == 0,
                    t.e23 == 0,
                    t.e24 == s,
                    t.e34 == 0,
                    t.e0123 == 0,
                    t.e0124 == 0,
                    t.e0134 == 0,
                    t.e0234 == 0,
                    t.e1234 == 0,
                    t.den == d,
                    rt.s == t.s,
                    rt.e01 == -t.e01,
                    rt.e02 == -t.e02,
                    rt.e03 == -t.e03,
                    rt.e04 == -t.e04,
                    rt.e12 == -t.e12,
                    rt.e13 == -t.e13,
                    rt.e14 == -t.e14,
                    rt.e23 == -t.e23,
                    rt.e24 == -t.e24,
                    rt.e34 == -t.e34,
                    rt.e0123 == t.e0123,
                    rt.e0124 == t.e0124,
                    rt.e0134 == t.e0134,
                    rt.e0234 == t.e0234,
                    rt.e1234 == t.e1234,
                    xr.e0123 == t.e01 * rt.e23 + t.e0123 * rt.s - t.e0124 * rt.e34 + t.e0134 * rt.e24 - t.e02 * rt.e13 - t.e0234 * rt.e14 + t.e03 * rt.e12 - t.e04 * rt.e1234 + t.e12 * rt.e03 + t.e1234 * rt.e04 - t.e13 * rt.e02 + t.e14 * rt.e0234 + t.e23 * rt.e01 - t.e24 * rt.e0134 + t.e34 * rt.e0124 + t.s * rt.e0123;
            assert(xr.e0124 == 0) by (nonlinear_arith)
                requires
                    t.s == c,
                    t.e01 == 0,
                    t.e02 == 0,
                    t.e03 == 0,
                    t.e04 == 0,
                    t.e12 == 0,
                    t.e13 == 0,
                    t.e14 == 0,
                    t.e23 == 0,
                    t.e24 == s,
                    t.e34 == 0,
                    t.e0123 == 0,
                    t.e0124 == 0,
                    t.e0134 == 0,
                    t.e0234 == 0,
                    t.e1234 == 0,
                    t.den == d,
                    rt.s == t.s,
                    rt.e01 == -t.e01,
                    rt.e02 == -t.e02,
                    rt.e03 == -t.e03,
                    rt.e04 == -t.e04,
                    rt.e12 == -t.e12,
                    rt.e13 == -t.e13,
                    rt.e14 == -t.e14,
                    rt.e23 == -t.e23,
                    rt.e24 == -t.e24,
                    rt.e34 == -t.e34,
                    rt.e0123 == t.e0123,
                    rt.e0124 == t.e0124,
                    rt.e0134 == t.e0134,
                    rt.e0234 == t.e0234,
                    rt.e1234 == t.e1234,
                    xr.e0124 == t.e01 * rt.e24 + t.e0123 * rt.e34 + t.e0124 * rt.s - t.e0134 * rt.e23 - t.e02 * rt.e14 + t.e0234 * rt.e13 + t.e03 * rt.e1234 + t.e04 * rt.e12 + t.e12 * rt.e04 - t.e1234 * rt.e03 - t.e13 * rt.e0234 - t.e14 * rt.e02 + t.e23 * rt.e0134 + t.e24 * rt.e01 - t.e34 * rt.e0123 + t.s * rt.e0124;
            assert(xr.e0134 == 0) by (nonlinear_arith)
                requires
                    t.s == c,
                    t.e01 == 0,
                    t.e02 == 0,
                    t.e03 == 0,
                    t.e04 == 0,
                    t.e12 == 0,
                    t.e13 == 0,
                    t.e14 == 0,
                    t.e23 == 0,
                    t.e24 == s,
                    t.e34 == 0,
                    t.e0123 == 0,
                    t.e0124 == 0,
                    t.e0134 == 0,
                    t.e0234 == 0,
                    t.e1234 == 0,
                    t.den == d,
                    rt.s == t.s,
                    rt.e01 == -t.e01,
                    rt.e02 == -t.e02,
                    rt.e03 == -t.e03,
                    rt.e04 == -t.e04,
                    rt.e12 == -t.e12,
                    rt.e13 == -t.e13,
                    rt.e14 == -t.e14,
                    rt.e23 == -t.e23,
                    rt.e24 == -t.e24,
                    rt.e34 == -t.e34,
                    rt.e0123 == t.e0123,
                    rt.e0124 == t.e0124,
                    rt.e0134 == t.e0134,
                    rt.e0234 == t.e0234,
                    rt.e1234 == t.e1234,
                    xr.e0134 == t.e01 * rt.e34 - t.e0123 * rt.e24 + t.e0124 * rt.e23 + t.e0134 * rt.s - t.e02 * rt.e1234 - t.e0234 * rt.e12 - t.e03 * rt.e14 + t.e04 * rt.e13 + t.e12 * rt.e0234 + t.e1234 * rt.e02 + t.e13 * rt.e04 - t.e14 * rt.e03 - t.e23 * rt.e0124 + t.e24 * rt.e0123 + t.e34 * rt.e01 + t.s * rt.e0134;
            assert(xr.e0234 == 0) by (nonlinear_arith)
                requires
                    t.s == c,
                    t.e01 == 0,
                    t.e02 == 0,
                    t.e03 == 0,
                    t.e04 == 0,
                    t.e12 == 0,
                    t.e13 == 0,
                    t.e14 == 0,
                    t.e23 == 0,
                    t.e24 == s,
                    t.e34 == 0,
                    t.e0123 == 0,
                    t.e0124 == 0,
                    t.e0134 == 0,
                    t.e0234 == 0,
                    t.e1234 == 0,
                    t.den == d,
                    rt.s == t.s,
                    rt.e01 == -t.e01,
                    rt.e02 == -t.e02,
                    rt.e03 == -t.e03,
                    rt.e04 == -t.e04,
                    rt.e12 == -t.e12,
                    rt.e13 == -t.e13,
                    rt.e14 == -t.e14,
                    rt.e23 == -t.e23,
                    rt.e24 == -t.e24,
                    rt.e34 == -t.e34,
                    rt.e0123 == t.e0123,
                    rt.e0124 == t.e0124,
                    rt.e0134 == t.e0134,
                    rt.e0234 == t.e0234,
                    rt.e1234 == t.e1234,
                    xr.e0234 == t.e01 * rt.e1234 + t.e0123 * rt.e14 - t.e0124 * rt.e13 + t.e0134 * rt.e12 + t.e02 * rt.e34 + t.e0234 * rt.s - t.e03 * rt.e24 + t.e04 * rt.e23 - t.e12 * rt.e0134 - t.e1234 * rt.e01 + t.e13 * rt.e0124 - t.e14 * rt.e0123 + t.e23 * rt.e04 - t.e24 * rt.e03 + t.e34 * rt.e02 + t.s * rt.e0234;
            assert(xr.e1234 == 0) by (nonlinear_arith)
                requires
                    t.s == c,
                    t.e01 == 0,
                    t.e02 == 0,
                    t.e03 == 0,
                    t.e04 == 0,
                    t.e12 == 0,
                    t.e13 == 0,
                    t.e14 == 0,
                    t.e23 == 0,
                    t.e24 == s,
                    t.e34 == 0,
                    t.e0123 == 0,
                    t.e0124 == 0,
                    t.e0134 == 0,
                    t.e0234 == 0,
                    t.e1234 == 0,
                    t.den == d,
                    rt.s == t.s,
                    rt.e01 == -t.e01,
                    rt.e02 == -t.e02,
                    rt.e03 == -t.e03,
                    rt.e04 == -t.e04,
                    rt.e12 == -t.e12,
                    rt.e13 == -t.e13,
                    rt.e14 == -t.e14,
                    rt.e23 == -t.e23,
                    rt.e24 == -t.e24,
                    rt.e34 == -t.e34,
                    rt.e0123 == t.e0123,
                    rt.e0124 == t.e0124,
                    rt.e0134 == t.e0134,
                    rt.e0234 == t.e0234,
                    rt.e1234 == t.e1234,
                    xr.e1234 == t.e12 * rt.e34 + t.e1234 * rt.s - t.e13 * rt.e24 + t.e14 * rt.e23 + t.e23 * rt.e14 - t.e24 * rt.e13 + t.e34 * rt.e12 + t.s * rt.e1234;
            assert(spec_mag2_num(t) == t.den * t.den) by (nonlinear_arith)
                requires
                    c * c + s * s == d * d,
                    t.s == c,
                    t.e01 == 0,
                    t.e02 == 0,
                    t.e03 == 0,
                    t.e04 == 0,
                    t.e12 == 0,
                    t.e13 == 0,
                    t.e14 == 0,
                    t.e23 == 0,
                    t.e24 == s,
                    t.e34 == 0,
                    t.e0123 == 0,
                    t.e0124 == 0,
                    t.e0134 == 0,
                    t.e0234 == 0,
                    t.e1234 == 0,
                    t.den == d,
                    spec_mag2_num(t) == t.e12 * t.e12 + t.e1234 * t.e1234 + t.e13 * t.e13 + t.e14 * t.e14 + t.e23 * t.e23 + t.e24 * t.e24 + t.e34 * t.e34 + t.s * t.s;
        }
        Plane::E34 => {
            assert(xl.e0123 == 0) by (nonlinear_arith)
                requires
                    t.s == c,
                    t.e01 == 0,
                    t.e02 == 0,
                    t.e03 == 0,
                    t.e04 == 0,
                    t.e12 == 0,
                    t.e13 == 0,
                    t.e14 == 0,
                    t.e23 == 0,
                    t.e24 == 0,
                    t.e34 == s,
                    t.e0123 == 0,
                    t.e0124 == 0,
                    t.e0134 == 0,
                    t.e0234 == 0,
                    t.e1234 == 0,
                    t.den == d,
                    rt.s == t.s,
                    rt.e01 == -t.e01,
                    rt.e02 == -t.e02,
                    rt.e03 == -t.e03,
                    rt.e04 == -t.e04,
                    rt.e12 == -t.e12,
                    rt.e13 == -t.e13,
                    rt.e14 == -t.e14,
                    rt.e23 == -t.e23,
                    rt.e24 == -t.e24,
                    rt.e34 == -t.e34,
                    rt.e0123 == t.e0123,
                    rt.e0124 == t.e0124,
                    rt.e0134 == t.e0134,
                    rt.e0234 == t.e0234,
                    rt.e1234 == t.e1234,
                    xl.e0123 == rt.e01 * t.e23 + rt.e0123 * t.s - rt.e0124 * t.e34 + rt.e0134 * t.e24 - rt.e02 * t.e13 - rt.e0234 * t.e14 + rt.e03 * t.e12 - rt.e04 * t.e1234 + rt.e12 * t.e03 + rt.e1234 * t.e04 - rt.e13 * t.e02 + rt.e14 * t.e0234 + rt.e23 * t.e01 - rt.e24 * t.e0134 + rt.e34 * t.e0124 + rt.s * t.e0123;
            assert(xl.e0124 == 0) by (nonlinear_arith)
                requires
                    t.s == c,
                    t.e01 == 0,
                    t.e02 == 0,
                    t.e03 == 0,
                    t.e04 == 0,
                    t.e12 == 0,
                    t.e13 == 0,
                    t.e14 == 0,
                    t.e23 == 0,
                    t.e24 == 0,
                    t.e34 == s,
                    t.e0123 == 0,
                    t.e0124 == 0,
                    t.e0134 == 0,
                    t.e0234 == 0,
                    t.e1234 == 0,
                    t.den == d,
                    rt.s == t.s,
                    rt.e01 == -t.e01,
                    rt.e02 == -t.e02,
                    rt.e03 == -t.e03,
                    rt.e04 == -t.e04,
                    rt.e12 == -t.e12,
                    rt.e13 == -t.e13,
                    rt.e14 == -t.e14,
                    rt.e23 == -t.e23,
                    rt.e24 == -t.e24,
                    rt.e34 == -t.e34,
                    rt.e0123 == t.e0123,
                    rt.e0124 == t.e0124,
                    rt.e0134 == t.e0134,
                    rt.e0234 == t.e0234,
                    rt.e1234 == t.e1234,
                    xl.e0124 == rt.e01 * t.e24 + rt.e0123 * t.e34 + rt.e0124 * t.s - rt.e0134 * t.e23 - rt.e02 * t.e14 + rt.e0234 * t.e13 + rt.e03 * t.e1234 + rt.e04 * t.e12 + rt.e12 * t.e04 - rt.e1234 * t.e03 - rt.e13 * t.e0234 - rt.e14 * t.e02 + rt.e23 * t.e0134 + rt.e24 * t.e01 - rt.e34 * t.e0123 + rt.s * t.e0124;
            assert(xl.e0134 == 0) by (nonlinear_arith)
                requires
                    t.s == c,
                    t.e01 == 0,
                    t.e02 == 0,
                    t.e03 == 0,
                    t.e04 == 0,
                    t.e12 == 0,
                    t.e13 == 0,
                    t.e14 == 0,
                    t.e23 == 0,
                    t.e24 == 0,
                    t.e34 == s,
                    t.e0123 == 0,
                    t.e0124 == 0,
                    t.e0134 == 0,
                    t.e0234 == 0,
                    t.e1234 == 0,
                    t.den == d,
                    rt.s == t.s,
                    rt.e01 == -t.e01,
                    rt.e02 == -t.e02,
                    rt.e03 == -t.e03,
                    rt.e04 == -t.e04,
                    rt.e12 == -t.e12,
                    rt.e13 == -t.e13,
                    rt.e14 == -t.e14,
                    rt.e23 == -t.e23,
                    rt.e24 == -t.e24,
                    rt.e34 == -t.e34,
                    rt.e0123 == t.e0123,
                    rt.e0124 == t.e0124,
                    rt.e0134 == t.e0134,
                    rt.e0234 == t.e0234,
                    rt.e1234 == t.e1234,
                    xl.e0134 == rt.e01 * t.e34 - rt.e0123 * t.e24 + rt.e0124 * t.e23 + rt.e0134 * t.s - rt.e02 * t.e1234 - rt.e0234 * t.e12 - rt.e03 * t.e14 + rt.e04 * t.e13 + rt.e12 * t.e0234 + rt.e1234 * t.e02 + rt.e13 * t.e04 - rt.e14 * t.e03 - rt.e23 * t.e0124 + rt.e24 * t.e0123 + rt.e34 * t.e01 + rt.s * t.e0134;
            assert(xl.e0234 == 0) by (nonlinear_arith)
                requires
                    t.s == c,
                    t.e01 == 0,
                    t.e02 == 0,
                    t.e03 == 0,
                    t.e04 == 0,
                    t.e12 == 0,
                    t.e13 == 0,
                    t.e14 == 0,
                    t.e23 == 0,
                    t.e24 == 0,
                    t.e34 == s,
                    t.e0123 == 0,
                    t.e0124 == 0,
                    t.e0134 == 0,
                    t.e0234 == 0,
                    t.e1234 == 0,
                    t.den == d,
                    rt.s == t.s,
                    rt.e01 == -t.e01,
                    rt.e02 == -t.e02,
                    rt.e03 == -t.e03,
                    rt.e04 == -t.e04,
                    rt.e12 == -t.e12,
                    rt.e13 == -t.e13,
                    rt.e14 == -t.e14,
                    rt.e23 == -t.e23,
                    rt.e24 == -t.e24,
                    rt.e34 == -t.e34,
                    rt.e0123 == t.e0123,
                    rt.e0124 == t.e0124,
                    rt.e0134 == t.e0134,
                    rt.e0234 == t.e0234,
                    rt.e1234 == t.e1234,
                    xl.e0234 == rt.e01 * t.e1234 + rt.e0123 * t.e14 - rt.e0124 * t.e13 + rt.e0134 * t.e12 + rt.e02 * t.e34 + rt.e0234 * t.s - rt.e03 * t.e24 + rt.e04 * t.e23 - rt.e12 * t.e0134 - rt.e1234 * t.e01 + rt.e13 * t.e0124 - rt.e14 * t.e0123 + rt.e23 * t.e04 - rt.e24 * t.e03 + rt.e34 * t.e02 + rt.s * t.e0234;
            assert(xl.e1234 == 0) by (nonlinear_arith)
                requires
                    t.s == c,
                    t.e01 == 0,
                    t.e02 == 0,
                    t.e03 == 0,
                    t.e04 == 0,
                    t.e12 == 0,
                    t.e13 == 0,
                    t.e14 == 0,
                    t.e23 == 0,
                    t.e24 == 0,
                    t.e34 == s,
                    t.e0123 == 0,
                    t.e0124 == 0,
                    t.e0134 == 0,
                    t.e0234 == 0,
                    t.e1234 == 0,
                    t.den == d,
                    rt.s == t.s,
                    rt.e01 == -t.e01,
                    rt.e02 == -t.e02,
                    rt.e03 == -t.e03,
                    rt.e04 == -t.e04,
                    rt.e12 == -t.e12,
                    rt.e13 == -t.e13,
                    rt.e14 == -t.e14,
                    rt.e23 == -t.e23,
                    rt.e24 == -t.e24,
                    rt.e34 == -t.e34,
                    rt.e0123 == t.e0123,
                    rt.e0124 == t.e0124,
                    rt.e0134 == t.e0134,
                    rt.e0234 == t.e0234,
                    rt.e1234 == t.e1234,
                    xl.e1234 == rt.e12 * t.e34 + rt.e1234 * t.s - rt.e13 * t.e24 + rt.e14 * t.e23 + rt.e23 * t.e14 - rt.e24 * t.e13 + rt.e34 * t.e12 + rt.s * t.e1234;
            assert(xr.e0123 == 0) by (nonlinear_arith)
                requires
                    t.s == c,
                    t.e01 == 0,
                    t.e02 == 0,
                    t.e03 == 0,
                    t.e04 == 0,
                    t.e12 == 0,
                    t.e13 == 0,
                    t.e14 == 0,
                    t.e23 == 0,
                    t.e24 == 0,
                    t.e34 == s,
                    t.e0123 == 0,
                    t.e0124 == 0,
                    t.e0134 == 0,
                    t.e0234 == 0,
                    t.e1234 == 0,
                    t.den == d,
                    rt.s == t.s,
                    rt.e01 == -t.e01,
                    rt.e02 == -t.e02,
                    rt.e03 == -t.e03,
                    rt.e04 == -t.e04,
                    rt.e12 == -t.e12,
                    rt.e13 == -t.e13,
                    rt.e14 == -t.e14,
                    rt.e23 == -t.e23,
                    rt.e24 == -t.e24,
                    rt.e34 == -t.e34,
                    rt.e0123 == t.e0123,
                    rt.e0124 == t.e0124,
                    rt.e0134 == t.e0134,
                    rt.e0234 == t.e0234,
                    rt.e1234 == t.e1234,
                    xr.e0123 == t.e01 * rt.e23 + t.e0123 * rt.s - t.e0124 * rt.e34 + t.e0134 * rt.e24 - t.e02 * rt.e13 - t.e0234 * rt.e14 + t.e03 * rt.e12 - t.e04 * rt.e1234 + t.e12 * rt.e03 + t.e1234 * rt.e04 - t.e13 * rt.e02 + t.e14 * rt.e0234 + t.e23 * rt.e01 - t.e24 * rt.e0134 + t.e34 * rt.e0124 + t.s * rt.e0123;
            assert(xr.e0124 == 0) by (nonlinear_arith)
                requires
                    t.s == c,
                    t.e01 == 0,
                    t.e02 == 0,
                    t.e03 == 0,
                    t.e04 == 0,
                    t.e12 == 0,
                    t.e13 == 0,
                    t.e14 == 0,
                    t.e23 == 0,
                    t.e24 == 0,
                    t.e34 == s,
                    t.e0123 == 0,
                    t.e0124 == 0,
                    t.e0134 == 0,
                    t.e0234 == 0,
                    t.e1234 == 0,
                    t.den == d,
                    rt.s == t.s,
                    rt.e01 == -t.e01,
                    rt.e02 == -t.e02,
                    rt.e03 == -t.e03,
                    rt.e04 == -t.e04,
                    rt.e12 == -t.e12,
                    rt.e13 == -t.e13,
                    rt.e14 == -t.e14,
                    rt.e23 == -t.e23,
                    rt.e24 == -t.e24,
                    rt.e34 == -t.e34,
                    rt.e0123 == t.e0123,
                    rt.e0124 == t.e0124,
                    rt.e0134 == t.e0134,
                    rt.e0234 == t.e0234,
                    rt.e1234 == t.e1234,
                    xr.e0124 == t.e01 * rt.e24 + t.e0123 * rt.e34 + t.e0124 * rt.s - t.e0134 * rt.e23 - t.e02 * rt.e14 + t.e0234 * rt.e13 + t.e03 * rt.e1234 + t.e04 * rt.e12 + t.e12 * rt.e04 - t.e1234 * rt.e03 - t.e13 * rt.e0234 - t.e14 * rt.e02 + t.e23 * rt.e0134 + t.e24 * rt.e01 - t.e34 * rt.e0123 + t.s * rt.e0124;
            assert(xr.e0134 == 0) by (nonlinear_arith)
                requires
                    t.s == c,
                    t.e01 == 0,
                    t.e02 == 0,
                    t.e03 == 0,
                    t.e04 == 0,
                    t.e12 == 0,
                    t.e13 == 0,
                    t.e14 == 0,
                    t.e23 == 0,
                    t.e24 == 0,
                    t.e34 == s,
                    t.e0123 == 0,
                    t.e0124 == 0,
                    t.e0134 == 0,
                    t.e0234 == 0,
                    t.e1234 == 0,
                    t.den == d,
                    rt.s == t.s,
                    rt.e01 == -t.e01,
                    rt.e02 == -t.e02,
                    rt.e03 == -t.e03,
                    rt.e04 == -t.e04,
                    rt.e12 == -t.e12,
                    rt.e13 == -t.e13,
                    rt.e14 == -t.e14,
                    rt.e23 == -t.e23,
                    rt.e24 == -t.e24,
                    rt.e34 == -t.e34,
                    rt.e0123 == t.e0123,
                    rt.e0124 == t.e0124,
                    rt.e0134 == t.e0134,
                    rt.e0234 == t.e0234,
                    rt.e1234 == t.e1234,
                    xr.e0134 == t.e01 * rt.e34 - t.e0123 * rt.e24 + t.e0124 * rt.e23 + t.e0134 * rt.s - t.e02 * rt.e1234 - t.e0234 * rt.e12 - t.e03 * rt.e14 + t.e04 * rt.e13 + t.e12 * rt.e0234 + t.e1234 * rt.e02 + t.e13 * rt.e04 - t.e14 * rt.e03 - t.e23 * rt.e0124 + t.e24 * rt.e0123 + t.e34 * rt.e01 + t.s * rt.e0134;
            assert(xr.e0234 == 0) by (nonlinear_arith)
                requires
                    t.s == c,
                    t.e01 == 0,
                    t.e02 == 0,
                    t.e03 == 0,
                    t.e04 == 0,
                    t.e12 == 0,
                    t.e13 == 0,
                    t.e14 == 0,
                    t.e23 == 0,
                    t.e24 == 0,
                    t.e34 == s,
                    t.e0123 == 0,
                    t.e0124 == 0,
                    t.e0134 == 0,
                    t.e0234 == 0,
                    t.e1234 == 0,
                    t.den == d,
                    rt.s == t.s,
                    rt.e01 == -t.e01,
                    rt.e02 == -t.e02,
                    rt.e03 == -t.e03,
                    rt.e04 == -t.e04,
                    rt.e12 == -t.e12,
                    rt.e13 == -t.e13,
                    rt.e14 == -t.e14,
                    rt.e23 == -t.e23,
                    rt.e24 == -t.e24,
                    rt.e34 == -t.e34,
                    rt.e0123 == t.e0123,
                    rt.e0124 == t.e0124,
                    rt.e0134 == t.e0134,
                    rt.e0234 == t.e0234,
                    rt.e1234 == t.e1234,
                    xr.e0234 == t.e01 * rt.e1234 + t.e0123 * rt.e14 - t.e0124 * rt.e13 + t.e0134 * rt.e12 + t.e02 * rt.e34 + t.e0234 * rt.s - t.e03 * rt.e24 + t.e04 * rt.e23 - t.e12 * rt.e0134 - t.e1234 * rt.e01 + t.e13 * rt.e0124 - t.e14 * rt.e0123 + t.e23 * rt.e04 - t.e24 * rt.e03 + t.e34 * rt.e02 + t.s * rt.e0234;
            assert(xr.e1234 == 0) by (nonlinear_arith)
                requires
                    t.s == c,
                    t.e01 == 0,
                    t.e02 == 0,
                    t.e03 == 0,
                    t.e04 == 0,
                    t.e12 == 0,
                    t.e13 == 0,
                    t.e14 == 0,
                    t.e23 == 0,
                    t.e24 == 0,
                    t.e34 == s,
                    t.e0123 == 0,
                    t.e0124 == 0,
                    t.e0134 == 0,
                    t.e0234 == 0,
                    t.e1234 == 0,
                    t.den == d,
                    rt.s == t.s,
                    rt.e01 == -t.e01,
                    rt.e02 == -t.e02,
                    rt.e03 == -t.e03,
                    rt.e04 == -t.e04,
                    rt.e12 == -t.e12,
                    rt.e13 == -t.e13,
                    rt.e14 == -t.e14,
                    rt.e23 == -t.e23,
                    rt.e24 == -t.e24,
                    rt.e34 == -t.e34,
                    rt.e0123 == t.e0123,
                    rt.e0124 == t.e0124,
                    rt.e0134 == t.e0134,
                    rt.e0234 == t.e0234,
                    rt.e1234 == t.e1234,
                    xr.e1234 == t.e12 * rt.e34 + t.e1234 * rt.s - t.e13 * rt.e24 + t.e14 * rt.e23 + t.e23 * rt.e14 - t.e24 * rt.e13 + t.e34 * rt.e12 + t.s * rt.e1234;
            assert(spec_mag2_num(t) == t.den * t.den) by (nonlinear_arith)
                requires
                    c * c + s * s == d * d,
                    t.s == c,
                    t.e01 == 0,
                    t.e02 == 0,
                    t.e03 == 0,
                    t.e04 == 0,
                    t.e12 == 0,
                    t.e13 == 0,
                    t.e14 == 0,
                    t.e23 == 0,
                    t.e24 == 0,
                    t.e34 == s,
                    t.e0123 == 0,
                    t.e0124 == 0,
                    t.e0134 == 0,
                    t.e0234 == 0,
                    t.e1234 == 0,
                    t.den == d,
                    spec_mag2_num(t) == t.e12 * t.e12 + t.e1234 * t.e1234 + t.e13 * t.e13 + t.e14 * t.e14 + t.e23 * t.e23 + t.e24 * t.e24 + t.e34 * t.e34 + t.s * t.s;
        }
    }
}
} // verus!
