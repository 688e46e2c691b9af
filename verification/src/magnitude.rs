//! Reversal over products, scalar factors, and the magnitude laws: the
//! squared magnitude is multiplicative over composition of rigid motions,
//! and the rigid-motion shape is closed under composition.

use vstd::prelude::*;

use vstd::arithmetic::mul::lemma_mul_basics;
use vstd::arithmetic::mul::lemma_mul_cancels_negatives;
use vstd::arithmetic::mul::lemma_mul_is_associative;
use vstd::arithmetic::mul::lemma_mul_is_commutative;
use vstd::arithmetic::mul::lemma_mul_unary_negation;

use crate::assoc::lemma_compose_assoc;
use crate::laws::lemma_prod_rev_structure;
use crate::laws::lemma_rev_prod_structure;
use crate::rotor::RotorModel;
use crate::rotor::is_proper;
use crate::rotor::is_unit;
use crate::rotor::spec_compose;
use crate::rotor::spec_mag2_num;
use crate::rotor::spec_reverse;

verus! {

/// The `s` coefficient of `reverse(a b)` and of `reverse(b) reverse(a)` agree.
proof fn revcomp_s(a: RotorModel, b: RotorModel)
    ensures
        spec_reverse(spec_compose(a, b)).s == spec_compose(spec_reverse(b), spec_reverse(a)).s,
{
    lemma_mul_cancels_negatives(b.e12, a.e12);
    lemma_mul_is_commutative(b.e12, a.e12);
    lemma_mul_is_commutative(b.e1234, a.e1234);
    lemma_mul_cancels_negatives(b.e13, a.e13);
    lemma_mul_is_commutative(b.e13, a.e13);
    lemma_mul_cancels_negatives(b.e14, a.e14);
    lemma_mul_is_commutative(b.e14, a.e14);
    lemma_mul_cancels_negatives(b.e23, a.e23);
    lemma_mul_is_commutative(b.e23, a.e23);
    lemma_mul_cancels_negatives(b.e24, a.e24);
    lemma_mul_is_commutative(b.e24, a.e24);
    lemma_mul_cancels_negatives(b.e34, a.e34);
    lemma_mul_is_commutative(b.e34, a.e34);
    lemma_mul_is_commutative(b.s, a.s);
}

/// The `e01` coefficient of `reverse(a b)` and of `reverse(b) reverse(a)` agree.
proof fn revcomp_e01(a: RotorModel, b: RotorModel)
    ensures
        spec_reverse(spec_compose(a, b)).e01 == spec_compose(spec_reverse(b), spec_reverse(a)).e01,
{
    lemma_mul_unary_negation(b.e01, a.s);
    lemma_mul_is_commutative(b.e01, a.s);
    lemma_mul_unary_negation(b.e0123, a.e23);
    lemma_mul_is_commutative(b.e0123, a.e23);
    lemma_mul_unary_negation(b.e0124, a.e24);
    lemma_mul_is_commutative(b.e0124, a.e24);
    lemma_mul_unary_negation(b.e0134, a.e34);
    lemma_mul_is_commutative(b.e0134, a.e34);
    lemma_mul_cancels_negatives(b.e02, a.e12);
    lemma_mul_is_commutative(b.e02, a.e12);
    lemma_mul_is_commutative(b.e0234, a.e1234);
    lemma_mul_cancels_negatives(b.e03, a.e13);
    lemma_mul_is_commutative(b.e03, a.e13);
    lemma_mul_cancels_negatives(b.e04, a.e14);
    lemma_mul_is_commutative(b.e04, a.e14);
    lemma_mul_cancels_negatives(b.e12, a.e02);
    lemma_mul_is_commutative(b.e12, a.e02);
    lemma_mul_is_commutative(b.e1234, a.e0234);
    lemma_mul_cancels_negatives(b.e13, a.e03);
    lemma_mul_is_commutative(b.e13, a.e03);
    lemma_mul_cancels_negatives(b.e14, a.e04);
    lemma_mul_is_commutative(b.e14, a.e04);
    lemma_mul_unary_negation(b.e23, a.e0123);
    lemma_mul_is_commutative(b.e23, a.e0123);
    lemma_mul_unary_negation(b.e24, a.e0124);
    lemma_mul_is_commutative(b.e24, a.e0124);
    lemma_mul_unary_negation(b.e34, a.e0134);
    lemma_mul_is_commutative(b.e34, a.e0134);
    lemma_mul_unary_negation(b.s, a.e01);
    lemma_mul_is_commutative(b.s, a.e01);
}

/// The `e02` coefficient of `reverse(a b)` and of `reverse(b) reverse(a)` agree.
proof fn revcomp_e02(a: RotorModel, b: RotorModel)
    ensures
        spec_reverse(spec_compose(a, b)).e02 == spec_compose(spec_reverse(b), spec_reverse(a)).e02,
{
    lemma_mul_cancels_negatives(b.e01, a.e12);
    lemma_mul_is_commutative(b.e01, a.e12);
    lemma_mul_unary_negation(b.e0123, a.e13);
    lemma_mul_is_commutative(b.e0123, a.e13);
    lemma_mul_unary_negation(b.e0124, a.e14);
    lemma_mul_is_commutative(b.e0124, a.e14);
    lemma_mul_is_commutative(b.e0134, a.e1234);
    lemma_mul_unary_negation(b.e02, a.s);
    lemma_mul_is_commutative(b.e02, a.s);
    lemma_mul_unary_negation(b.e0234, a.e34);
    lemma_mul_is_commutative(b.e0234, a.e34);
    lemma_mul_cancels_negatives(b.e03, a.e23);
    lemma_mul_is_commutative(b.e03, a.e23);
    lemma_mul_cancels_negatives(b.e04, a.e24);
    lemma_mul_is_commutative(b.e04, a.e24);
    lemma_mul_cancels_negatives(b.e12, a.e01);
    lemma_mul_is_commutative(b.e12, a.e01);
    lemma_mul_is_commutative(b.e1234, a.e0134);
    lemma_mul_unary_negation(b.e13, a.e0123);
    lemma_mul_is_commutative(b.e13, a.e0123);
    lemma_mul_unary_negation(b.e14, a.e0124);
    lemma_mul_is_commutative(b.e14, a.e0124);
    lemma_mul_cancels_negatives(b.e23, a.e03);
    lemma_mul_is_commutative(b.e23, a.e03);
    lemma_mul_cancels_negatives(b.e24, a.e04);
    lemma_mul_is_commutative(b.e24, a.e04);
    lemma_mul_unary_negation(b.e34, a.e0234);
    lemma_mul_is_commutative(b.e34, a.e0234);
    lemma_mul_unary_negation(b.s, a.e02);
    lemma_mul_is_commutative(b.s, a.e02);
}

/// The `e03` coefficient of `reverse(a b)` and of `reverse(b) reverse(a)` agree.
proof fn revcomp_e03(a: RotorModel, b: RotorModel)
    ensures
        spec_reverse(spec_compose(a, b)).e03 == spec_compose(spec_reverse(b), spec_reverse(a)).e03,
{
    lemma_mul_cancels_negatives(b.e01, a.e13);
    lemma_mul_is_commutative(b.e01, a.e13);
    lemma_mul_unary_negation(b.e0123, a.e12);
    lemma_mul_is_commutative(b.e0123, a.e12);
    lemma_mul_is_commutative(b.e0124, a.e1234);
    lemma_mul_unary_negation(b.e0134, a.e14);
    lemma_mul_is_commutative(b.e0134, a.e14);
    lemma_mul_cancels_negatives(b.e02, a.e23);
    lemma_mul_is_commutative(b.e02, a.e23);
    lemma_mul_unary_negation(b.e0234, a.e24);
    lemma_mul_is_commutative(b.e0234, a.e24);
    lemma_mul_unary_negation(b.e03, a.s);
    lemma_mul_is_commutative(b.e03, a.s);
    lemma_mul_cancels_negatives(b.e04, a.e34);
    lemma_mul_is_commutative(b.e04, a.e34);
    lemma_mul_unary_negation(b.e12, a.e0123);
    lemma_mul_is_commutative(b.e12, a.e0123);
    lemma_mul_is_commutative(b.e1234, a.e0124);
    lemma_mul_cancels_negatives(b.e13, a.e01);
    lemma_mul_is_commutative(b.e13, a.e01);
    lemma_mul_unary_negation(b.e14, a.e0134);
    lemma_mul_is_commutative(b.e14, a.e0134);
    lemma_mul_cancels_negatives(b.e23, a.e02);
    lemma_mul_is_commutative(b.e23, a.e02);
    lemma_mul_unary_negation(b.e24, a.e0234);
    lemma_mul_is_commutative(b.e24, a.e0234);
    lemma_mul_cancels_negatives(b.e34, a.e04);
    lemma_mul_is_commutative(b.e34, a.e04);
    lemma_mul_unary_negation(b.s, a.e03);
    lemma_mul_is_commutative(b.s, a.e03);
}

/// The `e04` coefficient of `reverse(a b)` and of `reverse(b) reverse(a)` agree.
proof fn revcomp_e04(a: RotorModel, b: RotorModel)
    ensures
        spec_reverse(spec_compose(a, b)).e04 == spec_compose(spec_reverse(b), spec_reverse(a)).e04,
{
    lemma_mul_cancels_negatives(b.e01, a.e14);
    lemma_mul_is_commutative(b.e01, a.e14);
    lemma_mul_is_commutative(b.e0123, a.e1234);
    lemma_mul_unary_negation(b.e0124, a.e12);
    lemma_mul_is_commutative(b.e0124, a.e12);
    lemma_mul_unary_negation(b.e0134, a.e13);
    lemma_mul_is_commutative(b.e0134, a.e13);
    lemma_mul_cancels_negatives(b.e02, a.e24);
    lemma_mul_is_commutative(b.e02, a.e24);
    lemma_mul_unary_negation(b.e0234, a.e23);
    lemma_mul_is_commutative(b.e0234, a.e23);
    lemma_mul_cancels_negatives(b.e03, a.e34);
    lemma_mul_is_commutative(b.e03, a.e34);
    lemma_mul_unary_negation(b.e04, a.s);
    lemma_mul_is_commutative(b.e04, a.s);
    lemma_mul_unary_negation(b.e12, a.e0124);
    lemma_mul_is_commutative(b.e12, a.e0124);
    lemma_mul_is_commutative(b.e1234, a.e0123);
    lemma_mul_unary_negation(b.e13, a.e0134);
    lemma_mul_is_commutative(b.e13, a.e0134);
    lemma_mul_cancels_negatives(b.e14, a.e01);
    lemma_mul_is_commutative(b.e14, a.e01);
    lemma_mul_unary_negation(b.e23, a.e0234);
    lemma_mul_is_commutative(b.e23, a.e0234);
    lemma_mul_cancels_negatives(b.e24, a.e02);
    lemma_mul_is_commutative(b.e24, a.e02);
    lemma_mul_cancels_negatives(b.e34, a.e03);
    lemma_mul_is_commutative(b.e34, a.e03);
    lemma_mul_unary_negation(b.s, a.e04);
    lemma_mul_is_commutative(b.s, a.e04);
}

/// The `e12` coefficient of `reverse(a b)` and of `reverse(b) reverse(a)` agree.
proof fn revcomp_e12(a: RotorModel, b: RotorModel)
    ensures
        spec_reverse(spec_compose(a, b)).e12 == spec_compose(spec_reverse(b), spec_reverse(a)).e12,
{
    lemma_mul_unary_negation(b.e12, a.s);
    lemma_mul_is_commutative(b.e12, a.s);
    lemma_mul_unary_negation(b.e1234, a.e34);
    lemma_mul_is_commutative(b.e1234, a.e34);
    lemma_mul_cancels_negatives(b.e13, a.e23);
    lemma_mul_is_commutative(b.e13, a.e23);
    lemma_mul_cancels_negatives(b.e14, a.e24);
    lemma_mul_is_commutative(b.e14, a.e24);
    lemma_mul_cancels_negatives(b.e23, a.e13);
    lemma_mul_is_commutative(b.e23, a.e13);
    lemma_mul_cancels_negatives(b.e24, a.e14);
    lemma_mul_is_commutative(b.e24, a.e14);
    lemma_mul_unary_negation(b.e34, a.e1234);
    lemma_mul_is_commutative(b.e34, a.e1234);
    lemma_mul_unary_negation(b.s, a.e12);
    lemma_mul_is_commutative(b.s, a.e12);
}

/// The `e13` coefficient of `reverse(a b)` and of `reverse(b) reverse(a)` agree.
proof fn revcomp_e13(a: RotorModel, b: RotorModel)
    ensures
        spec_reverse(spec_compose(a, b)).e13 == spec_compose(spec_reverse(b), spec_reverse(a)).e13,
{
    lemma_mul_cancels_negatives(b.e12, a.e23);
    lemma_mul_is_commutative(b.e12, a.e23);
    lemma_mul_unary_negation(b.e1234, a.e24);
    lemma_mul_is_commutative(b.e1234, a.e24);
    lemma_mul_unary_negation(b.e13, a.s);
    lemma_mul_is_commutative(b.e13, a.s);
    lemma_mul_cancels_negatives(b.e14, a.e34);
    lemma_mul_is_commutative(b.e14, a.e34);
    lemma_mul_cancels_negatives(b.e23, a.e12);
    lemma_mul_is_commutative(b.e23, a.e12);
    lemma_mul_unary_negation(b.e24, a.e1234);
    lemma_mul_is_commutative(b.e24, a.e1234);
    lemma_mul_cancels_negatives(b.e34, a.e14);
    lemma_mul_is_commutative(b.e34, a.e14);
    lemma_mul_unary_negation(b.s, a.e13);
    lemma_mul_is_commutative(b.s, a.e13);
}

/// The `e14` coefficient of `reverse(a b)` and of `reverse(b) reverse(a)` agree.
proof fn revcomp_e14(a: RotorModel, b: RotorModel)
    ensures
        spec_reverse(spec_compose(a, b)).e14 == spec_compose(spec_reverse(b), spec_reverse(a)).e14,
{
    lemma_mul_cancels_negatives(b.e12, a.e24);
    lemma_mul_is_commutative(b.e12, a.e24);
    lemma_mul_unary_negation(b.e1234, a.e23);
    lemma_mul_is_commutative(b.e1234, a.e23);
    lemma_mul_cancels_negatives(b.e13, a.e34);
    lemma_mul_is_commutative(b.e13, a.e34);
    lemma_mul_unary_negation(b.e14, a.s);
    lemma_mul_is_commutative(b.e14, a.s);
    lemma_mul_unary_negation(b.e23, a.e1234);
    lemma_mul_is_commutative(b.e23, a.e1234);
    lemma_mul_cancels_negatives(b.e24, a.e12);
    lemma_mul_is_commutative(b.e24, a.e12);
    lemma_mul_cancels_negatives(b.e34, a.e13);
    lemma_mul_is_commutative(b.e34, a.e13);
    lemma_mul_unary_negation(b.s, a.e14);
    lemma_mul_is_commutative(b.s, a.e14);
}

/// The `e23` coefficient of `reverse(a b)` and of `reverse(b) reverse(a)` agree.
proof fn revcomp_e23(a: RotorModel, b: RotorModel)
    ensures
        spec_reverse(spec_compose(a, b)).e23 == spec_compose(spec_reverse(b), spec_reverse(a)).e23,
{
    lemma_mul_cancels_negatives(b.e12, a.e13);
    lemma_mul_is_commutative(b.e12, a.e13);
    lemma_mul_unary_negation(b.e1234, a.e14);
    lemma_mul_is_commutative(b.e1234, a.e14);
    lemma_mul_cancels_negatives(b.e13, a.e12);
    lemma_mul_is_commutative(b.e13, a.e12);
    lemma_mul_unary_negation(b.e14, a.e1234);
    lemma_mul_is_commutative(b.e14, a.e1234);
    lemma_mul_unary_negation(b.e23, a.s);
    lemma_mul_is_commutative(b.e23, a.s);
    lemma_mul_cancels_negatives(b.e24, a.e34);
    lemma_mul_is_commutative(b.e24, a.e34);
    lemma_mul_cancels_negatives(b.e34, a.e24);
    lemma_mul_is_commutative(b.e34, a.e24);
    lemma_mul_unary_negation(b.s, a.e23);
    lemma_mul_is_commutative(b.s, a.e23);
}

/// The `e24` coefficient of `reverse(a b)` and of `reverse(b) reverse(a)` agree.
proof fn revcomp_e24(a: RotorModel, b: RotorModel)
    ensures
        spec_reverse(spec_compose(a, b)).e24 == spec_compose(spec_reverse(b), spec_reverse(a)).e24,
{
    lemma_mul_cancels_negatives(b.e12, a.e14);
    lemma_mul_is_commutative(b.e12, a.e14);
    lemma_mul_unary_negation(b.e1234, a.e13);
    lemma_mul_is_commutative(b.e1234, a.e13);
    lemma_mul_unary_negation(b.e13, a.e1234);
    lemma_mul_is_commutative(b.e13, a.e1234);
    lemma_mul_cancels_negatives(b.e14, a.e12);
    lemma_mul_is_commutative(b.e14, a.e12);
    lemma_mul_cancels_negatives(b.e23, a.e34);
    lemma_mul_is_commutative(b.e23, a.e34);
    lemma_mul_unary_negation(b.e24, a.s);
    lemma_mul_is_commutative(b.e24, a.s);
    lemma_mul_cancels_negatives(b.e34, a.e23);
    lemma_mul_is_commutative(b.e34, a.e23);
    lemma_mul_unary_negation(b.s, a.e24);
    lemma_mul_is_commutative(b.s, a.e24);
}

/// The `e34` coefficient of `reverse(a b)` and of `reverse(b) reverse(a)` agree.
proof fn revcomp_e34(a: RotorModel, b: RotorModel)
    ensures
        spec_reverse(spec_compose(a, b)).e34 == spec_compose(spec_reverse(b), spec_reverse(a)).e34,
{
    lemma_mul_unary_negation(b.e12, a.e1234);
    lemma_mul_is_commutative(b.e12, a.e1234);
    lemma_mul_unary_negation(b.e1234, a.e12);
    lemma_mul_is_commutative(b.e1234, a.e12);
    lemma_mul_cancels_negatives(b.e13, a.e14);
    lemma_mul_is_commutative(b.e13, a.e14);
    lemma_mul_cancels_negatives(b.e14, a.e13);
    lemma_mul_is_commutative(b.e14, a.e13);
    lemma_mul_cancels_negatives(b.e23, a.e24);
    lemma_mul_is_commutative(b.e23, a.e24);
    lemma_mul_cancels_negatives(b.e24, a.e23);
    lemma_mul_is_commutative(b.e24, a.e23);
    lemma_mul_unary_negation(b.e34, a.s);
    lemma_mul_is_commutative(b.e34, a.s);
    lemma_mul_unary_negation(b.s, a.e34);
    lemma_mul_is_commutative(b.s, a.e34);
}

/// The `e0123` coefficient of `reverse(a b)` and of `reverse(b) reverse(a)` agree.
proof fn revcomp_e0123(a: RotorModel, b: RotorModel)
    ensures
        spec_reverse(spec_compose(a, b)).e0123 == spec_compose(spec_reverse(b), spec_reverse(a)).e0123,
{
    lemma_mul_cancels_negatives(b.e01, a.e23);
    lemma_mul_is_commutative(b.e01, a.e23);
    lemma_mul_is_commutative(b.e0123, a.s);
    lemma_mul_unary_negation(b.e0124, a.e34);
    lemma_mul_is_commutative(b.e0124, a.e34);
    lemma_mul_unary_negation(b.e0134, a.e24);
    lemma_mul_is_commutative(b.e0134, a.e24);
    lemma_mul_cancels_negatives(b.e02, a.e13);
    lemma_mul_is_commutative(b.e02, a.e13);
    lemma_mul_unary_negation(b.e0234, a.e14);
    lemma_mul_is_commutative(b.e0234, a.e14);
    lemma_mul_cancels_negatives(b.e03, a.e12);
    lemma_mul_is_commutative(b.e03, a.e12);
    lemma_mul_unary_negation(b.e04, a.e1234);
    lemma_mul_is_commutative(b.e04, a.e1234);
    lemma_mul_cancels_negatives(b.e12, a.e03);
    lemma_mul_is_commutative(b.e12, a.e03);
    lemma_mul_unary_negation(b.e1234, a.e04);
    lemma_mul_is_commutative(b.e1234, a.e04);
    lemma_mul_cancels_negatives(b.e13, a.e02);
    lemma_mul_is_commutative(b.e13, a.e02);
    lemma_mul_unary_negation(b.e14, a.e0234);
    lemma_mul_is_commutative(b.e14, a.e0234);
    lemma_mul_cancels_negatives(b.e23, a.e01);
    lemma_mul_is_commutative(b.e23, a.e01);
    lemma_mul_unary_negation(b.e24, a.e0134);
    lemma_mul_is_commutative(b.e24, a.e0134);
    lemma_mul_unary_negation(b.e34, a.e0124);
    lemma_mul_is_commutative(b.e34, a.e0124);
    lemma_mul_is_commutative(b.s, a.e0123);
}

/// The `e0124` coefficient of `reverse(a b)` and of `reverse(b) reverse(a)` agree.
proof fn revcomp_e0124(a: RotorModel, b: RotorModel)
    ensures
        spec_reverse(spec_compose(a, b)).e0124 == spec_compose(spec_reverse(b), spec_reverse(a)).e0124,
{
    lemma_mul_cancels_negatives(b.e01, a.e24);
    lemma_mul_is_commutative(b.e01, a.e24);
    lemma_mul_unary_negation(b.e0123, a.e34);
    lemma_mul_is_commutative(b.e0123, a.e34);
    lemma_mul_is_commutative(b.e0124, a.s);
    lemma_mul_unary_negation(b.e0134, a.e23);
    lemma_mul_is_commutative(b.e0134, a.e23);
    lemma_mul_cancels_negatives(b.e02, a.e14);
    lemma_mul_is_commutative(b.e02, a.e14);
    lemma_mul_unary_negation(b.e0234, a.e13);
    lemma_mul_is_commutative(b.e0234, a.e13);
    lemma_mul_unary_negation(b.e03, a.e1234);
    lemma_mul_is_commutative(b.e03, a.e1234);
    lemma_mul_cancels_negatives(b.e04, a.e12);
    lemma_mul_is_commutative(b.e04, a.e12);
    lemma_mul_cancels_negatives(b.e12, a.e04);
    lemma_mul_is_commutative(b.e12, a.e04);
    lemma_mul_unary_negation(b.e1234, a.e03);
    lemma_mul_is_commutative(b.e1234, a.e03);
    lemma_mul_unary_negation(b.e13, a.e0234);
    lemma_mul_is_commutative(b.e13, a.e0234);
    lemma_mul_cancels_negatives(b.e14, a.e02);
    lemma_mul_is_commutative(b.e14, a.e02);
    lemma_mul_unary_negation(b.e23, a.e0134);
    lemma_mul_is_commutative(b.e23, a.e0134);
    lemma_mul_cancels_negatives(b.e24, a.e01);
    lemma_mul_is_commutative(b.e24, a.e01);
    lemma_mul_unary_negation(b.e34, a.e0123);
    lemma_mul_is_commutative(b.e34, a.e0123);
    lemma_mul_is_commutative(b.s, a.e0124);
}

/// The `e0134` coefficient of `reverse(a b)` and of `reverse(b) reverse(a)` agree.
proof fn revcomp_e0134(a: RotorModel, b: RotorModel)
    ensures
        spec_reverse(spec_compose(a, b)).e0134 == spec_compose(spec_reverse(b), spec_reverse(a)).e0134,
{
    lemma_mul_cancels_negatives(b.e01, a.e34);
    lemma_mul_is_commutative(b.e01, a.e34);
    lemma_mul_unary_negation(b.e0123, a.e24);
    lemma_mul_is_commutative(b.e0123, a.e24);
    lemma_mul_unary_negation(b.e0124, a.e23);
    lemma_mul_is_commutative(b.e0124, a.e23);
    lemma_mul_is_commutative(b.e0134, a.s);
    lemma_mul_unary_negation(b.e02, a.e1234);
    lemma_mul_is_commutative(b.e02, a.e1234);
    lemma_mul_unary_negation(b.e0234, a.e12);
    lemma_mul_is_commutative(b.e0234, a.e12);
    lemma_mul_cancels_negatives(b.e03, a.e14);
    lemma_mul_is_commutative(b.e03, a.e14);
    lemma_mul_cancels_negatives(b.e04, a.e13);
    lemma_mul_is_commutative(b.e04, a.e13);
    lemma_mul_unary_negation(b.e12, a.e0234);
    lemma_mul_is_commutative(b.e12, a.e0234);
    lemma_mul_unary_negation(b.e1234, a.e02);
    lemma_mul_is_commutative(b.e1234, a.e02);
    lemma_mul_cancels_negatives(b.e13, a.e04);
    lemma_mul_is_commutative(b.e13, a.e04);
    lemma_mul_cancels_negatives(b.e14, a.e03);
    lemma_mul_is_commutative(b.e14, a.e03);
    lemma_mul_unary_negation(b.e23, a.e0124);
    lemma_mul_is_commutative(b.e23, a.e0124);
    lemma_mul_unary_negation(b.e24, a.e0123);
    lemma_mul_is_commutative(b.e24, a.e0123);
    lemma_mul_cancels_negatives(b.e34, a.e01);
    lemma_mul_is_commutative(b.e34, a.e01);
    lemma_mul_is_commutative(b.s, a.e0134);
}

/// The `e0234` coefficient of `reverse(a b)` and of `reverse(b) reverse(a)` agree.
proof fn revcomp_e0234(a: RotorModel, b: RotorModel)
    ensures
        spec_reverse(spec_compose(a, b)).e0234 == spec_compose(spec_reverse(b), spec_reverse(a)).e0234,
{
    lemma_mul_unary_negation(b.e01, a.e1234);
    lemma_mul_is_commutative(b.e01, a.e1234);
    lemma_mul_unary_negation(b.e0123, a.e14);
    lemma_mul_is_commutative(b.e0123, a.e14);
    lemma_mul_unary_negation(b.e0124, a.e13);
    lemma_mul_is_commutative(b.e0124, a.e13);
    lemma_mul_unary_negation(b.e0134, a.e12);
    lemma_mul_is_commutative(b.e0134, a.e12);
    lemma_mul_cancels_negatives(b.e02, a.e34);
    lemma_mul_is_commutative(b.e02, a.e34);
    lemma_mul_is_commutative(b.e0234, a.s);
    lemma_mul_cancels_negatives(b.e03, a.e24);
    lemma_mul_is_commutative(b.e03, a.e24);
    lemma_mul_cancels_negatives(b.e04, a.e23);
    lemma_mul_is_commutative(b.e04, a.e23);
    lemma_mul_unary_negation(b.e12, a.e0134);
    lemma_mul_is_commutative(b.e12, a.e0134);
    lemma_mul_unary_negation(b.e1234, a.e01);
    lemma_mul_is_commutative(b.e1234, a.e01);
    lemma_mul_unary_negation(b.e13, a.e0124);
    lemma_mul_is_commutative(b.e13, a.e0124);
    lemma_mul_unary_negation(b.e14, a.e0123);
    lemma_mul_is_commutative(b.e14, a.e0123);
    lemma_mul_cancels_negatives(b.e23, a.e04);
    lemma_mul_is_commutative(b.e23, a.e04);
    lemma_mul_cancels_negatives(b.e24, a.e03);
    lemma_mul_is_commutative(b.e24, a.e03);
    lemma_mul_cancels_negatives(b.e34, a.e02);
    lemma_mul_is_commutative(b.e34, a.e02);
    lemma_mul_is_commutative(b.s, a.e0234);
}

/// The `e1234` coefficient of `reverse(a b)` and of `reverse(b) reverse(a)` agree.
proof fn revcomp_e1234(a: RotorModel, b: RotorModel)
    ensures
        spec_reverse(spec_compose(a, b)).e1234 == spec_compose(spec_reverse(b), spec_reverse(a)).e1234,
{
    lemma_mul_cancels_negatives(b.e12, a.e34);
    lemma_mul_is_commutative(b.e12, a.e34);
    lemma_mul_is_commutative(b.e1234, a.s);
    lemma_mul_cancels_negatives(b.e13, a.e24);
    lemma_mul_is_commutative(b.e13, a.e24);
    lemma_mul_cancels_negatives(b.e14, a.e23);
    lemma_mul_is_commutative(b.e14, a.e23);
    lemma_mul_cancels_negatives(b.e23, a.e14);
    lemma_mul_is_commutative(b.e23, a.e14);
    lemma_mul_cancels_negatives(b.e24, a.e13);
    lemma_mul_is_commutative(b.e24, a.e13);
    lemma_mul_cancels_negatives(b.e34, a.e12);
    lemma_mul_is_commutative(b.e34, a.e12);
    lemma_mul_is_commutative(b.s, a.e1234);
}

/// Reversal is an anti-automorphism: `reverse(a b) == reverse(b) reverse(a)`.
pub proof fn lemma_reverse_compose(a: RotorModel, b: RotorModel)
    ensures
        spec_reverse(spec_compose(a, b)) == spec_compose(spec_reverse(b), spec_reverse(a)),
{
    revcomp_s(a, b);
    revcomp_e01(a, b);
    revcomp_e02(a, b);
    revcomp_e03(a, b);
    revcomp_e04(a, b);
    revcomp_e12(a, b);
    revcomp_e13(a, b);
    revcomp_e14(a, b);
    revcomp_e23(a, b);
    revcomp_e24(a, b);
    revcomp_e34(a, b);
    revcomp_e0123(a, b);
    revcomp_e0124(a, b);
    revcomp_e0134(a, b);
    revcomp_e0234(a, b);
    revcomp_e1234(a, b);
    lemma_mul_is_commutative(b.den, a.den);
    assert(spec_reverse(spec_compose(a, b)).den == spec_compose(spec_reverse(b), spec_reverse(a)).den);
    assert(spec_reverse(spec_compose(a, b)) == spec_compose(spec_reverse(b), spec_reverse(a)));
}

/// Composing with a scalar-shaped motor (only `s` and `den` nonzero) on
/// the left scales every coefficient of the other factor by its scalar.
pub proof fn lemma_compose_scalar_left(m: RotorModel, b: RotorModel)
    requires
        m.e01 == 0,
        m.e02 == 0,
        m.e03 == 0,
        m.e04 == 0,
        m.e12 == 0,
        m.e13 == 0,
        m.e14 == 0,
        m.e23 == 0,
        m.e24 == 0,
        m.e34 == 0,
        m.e0123 == 0,
        m.e0124 == 0,
        m.e0134 == 0,
        m.e0234 == 0,
        m.e1234 == 0,
    ensures
        spec_compose(m, b) == (RotorModel {
            s: m.s * b.s,
            e01: m.s * b.e01,
            e02: m.s * b.e02,
            e03: m.s * b.e03,
            e04: m.s * b.e04,
            e12: m.s * b.e12,
            e13: m.s * b.e13,
            e14: m.s * b.e14,
            e23: m.s * b.e23,
            e24: m.s * b.e24,
            e34: m.s * b.e34,
            e0123: m.s * b.e0123,
            e0124: m.s * b.e0124,
            e0134: m.s * b.e0134,
            e0234: m.s * b.e0234,
            e1234: m.s * b.e1234,
            den: m.den * b.den,
        }),
{
    lemma_mul_basics(b.e12);
    lemma_mul_basics(b.e1234);
    lemma_mul_basics(b.e13);
    lemma_mul_basics(b.e14);
    lemma_mul_basics(b.e23);
    lemma_mul_basics(b.e24);
    lemma_mul_basics(b.e34);
    lemma_mul_basics(b.s);
    lemma_mul_basics(b.e23);
    lemma_mul_basics(b.e24);
    lemma_mul_basics(b.e34);
    lemma_mul_basics(b.e12);
    lemma_mul_basics(b.e1234);
    lemma_mul_basics(b.e13);
    lemma_mul_basics(b.e14);
    lemma_mul_basics(b.e02);
    lemma_mul_basics(b.e0234);
    lemma_mul_basics(b.e03);
    lemma_mul_basics(b.e04);
    lemma_mul_basics(b.e0123);
    lemma_mul_basics(b.e0124);
    lemma_mul_basics(b.e0134);
    lemma_mul_basics(b.e12);
    lemma_mul_basics(b.e13);
    lemma_mul_basics(b.e14);
    lemma_mul_basics(b.e1234);
    lemma_mul_basics(b.s);
    lemma_mul_basics(b.e34);
    lemma_mul_basics(b.e23);
    lemma_mul_basics(b.e24);
    lemma_mul_basics(b.e01);
    lemma_mul_basics(b.e0134);
    lemma_mul_basics(b.e0123);
    lemma_mul_basics(b.e0124);
    lemma_mul_basics(b.e03);
    lemma_mul_basics(b.e04);
    lemma_mul_basics(b.e0234);
    lemma_mul_basics(b.e13);
    lemma_mul_basics(b.e12);
    lemma_mul_basics(b.e1234);
    lemma_mul_basics(b.e14);
    lemma_mul_basics(b.e23);
    lemma_mul_basics(b.e24);
    lemma_mul_basics(b.s);
    lemma_mul_basics(b.e34);
    lemma_mul_basics(b.e0123);
    lemma_mul_basics(b.e0124);
    lemma_mul_basics(b.e01);
    lemma_mul_basics(b.e0134);
    lemma_mul_basics(b.e02);
    lemma_mul_basics(b.e0234);
    lemma_mul_basics(b.e04);
    lemma_mul_basics(b.e14);
    lemma_mul_basics(b.e1234);
    lemma_mul_basics(b.e12);
    lemma_mul_basics(b.e13);
    lemma_mul_basics(b.e24);
    lemma_mul_basics(b.e23);
    lemma_mul_basics(b.e34);
    lemma_mul_basics(b.s);
    lemma_mul_basics(b.e0124);
    lemma_mul_basics(b.e0123);
    lemma_mul_basics(b.e0134);
    lemma_mul_basics(b.e01);
    lemma_mul_basics(b.e0234);
    lemma_mul_basics(b.e02);
    lemma_mul_basics(b.e03);
    lemma_mul_basics(b.s);
    lemma_mul_basics(b.e34);
    lemma_mul_basics(b.e23);
    lemma_mul_basics(b.e24);
    lemma_mul_basics(b.e13);
    lemma_mul_basics(b.e14);
    lemma_mul_basics(b.e1234);
    lemma_mul_basics(b.e23);
    lemma_mul_basics(b.e24);
    lemma_mul_basics(b.s);
    lemma_mul_basics(b.e34);
    lemma_mul_basics(b.e12);
    lemma_mul_basics(b.e1234);
    lemma_mul_basics(b.e14);
    lemma_mul_basics(b.e24);
    lemma_mul_basics(b.e23);
    lemma_mul_basics(b.e34);
    lemma_mul_basics(b.s);
    lemma_mul_basics(b.e1234);
    lemma_mul_basics(b.e12);
    lemma_mul_basics(b.e13);
    lemma_mul_basics(b.e13);
    lemma_mul_basics(b.e14);
    lemma_mul_basics(b.e12);
    lemma_mul_basics(b.e1234);
    lemma_mul_basics(b.s);
    lemma_mul_basics(b.e34);
    lemma_mul_basics(b.e24);
    lemma_mul_basics(b.e14);
    lemma_mul_basics(b.e13);
    lemma_mul_basics(b.e1234);
    lemma_mul_basics(b.e12);
    lemma_mul_basics(b.e34);
    lemma_mul_basics(b.s);
    lemma_mul_basics(b.e23);
    lemma_mul_basics(b.e1234);
    lemma_mul_basics(b.e12);
    lemma_mul_basics(b.e14);
    lemma_mul_basics(b.e13);
    lemma_mul_basics(b.e24);
    lemma_mul_basics(b.e23);
    lemma_mul_basics(b.s);
    lemma_mul_basics(b.e23);
    lemma_mul_basics(b.s);
    lemma_mul_basics(b.e34);
    lemma_mul_basics(b.e24);
    lemma_mul_basics(b.e13);
    lemma_mul_basics(b.e14);
    lemma_mul_basics(b.e12);
    lemma_mul_basics(b.e1234);
    lemma_mul_basics(b.e03);
    lemma_mul_basics(b.e04);
    lemma_mul_basics(b.e02);
    lemma_mul_basics(b.e0234);
    lemma_mul_basics(b.e01);
    lemma_mul_basics(b.e0134);
    lemma_mul_basics(b.e0124);
    lemma_mul_basics(b.e24);
    lemma_mul_basics(b.e34);
    lemma_mul_basics(b.s);
    lemma_mul_basics(b.e23);
    lemma_mul_basics(b.e14);
    lemma_mul_basics(b.e13);
    lemma_mul_basics(b.e1234);
    lemma_mul_basics(b.e12);
    lemma_mul_basics(b.e04);
    lemma_mul_basics(b.e03);
    lemma_mul_basics(b.e0234);
    lemma_mul_basics(b.e02);
    lemma_mul_basics(b.e0134);
    lemma_mul_basics(b.e01);
    lemma_mul_basics(b.e0123);
    lemma_mul_basics(b.e34);
    lemma_mul_basics(b.e24);
    lemma_mul_basics(b.e23);
    lemma_mul_basics(b.s);
    lemma_mul_basics(b.e1234);
    lemma_mul_basics(b.e12);
    lemma_mul_basics(b.e14);
    lemma_mul_basics(b.e13);
    lemma_mul_basics(b.e0234);
    lemma_mul_basics(b.e02);
    lemma_mul_basics(b.e04);
    lemma_mul_basics(b.e03);
    lemma_mul_basics(b.e0124);
    lemma_mul_basics(b.e0123);
    lemma_mul_basics(b.e01);
    lemma_mul_basics(b.e1234);
    lemma_mul_basics(b.e14);
    lemma_mul_basics(b.e13);
    lemma_mul_basics(b.e12);
    lemma_mul_basics(b.e34);
    lemma_mul_basics(b.s);
    lemma_mul_basics(b.e24);
    lemma_mul_basics(b.e23);
    lemma_mul_basics(b.e0134);
    lemma_mul_basics(b.e01);
    lemma_mul_basics(b.e0124);
    lemma_mul_basics(b.e0123);
    lemma_mul_basics(b.e04);
    lemma_mul_basics(b.e03);
    lemma_mul_basics(b.e02);
    lemma_mul_basics(b.e34);
    lemma_mul_basics(b.s);
    lemma_mul_basics(b.e24);
    lemma_mul_basics(b.e23);
    lemma_mul_basics(b.e14);
    lemma_mul_basics(b.e13);
    lemma_mul_basics(b.e12);
}

/// Composing with a scalar-shaped motor (only `s` and `den` nonzero) on
/// the right scales every coefficient of the other factor by its scalar.
pub proof fn lemma_compose_scalar_right(b: RotorModel, m: RotorModel)
    requires
        m.e01 == 0,
        m.e02 == 0,
        m.e03 == 0,
        m.e04 == 0,
        m.e12 == 0,
        m.e13 == 0,
        m.e14 == 0,
        m.e23 == 0,
        m.e24 == 0,
        m.e34 == 0,
        m.e0123 == 0,
        m.e0124 == 0,
        m.e0134 == 0,
        m.e0234 == 0,
        m.e1234 == 0,
    ensures
        spec_compose(b, m) == (RotorModel {
            s: m.s * b.s,
            e01: m.s * b.e01,
            e02: m.s * b.e02,
            e03: m.s * b.e03,
            e04: m.s * b.e04,
            e12: m.s * b.e12,
            e13: m.s * b.e13,
            e14: m.s * b.e14,
            e23: m.s * b.e23,
            e24: m.s * b.e24,
            e34: m.s * b.e34,
            e0123: m.s * b.e0123,
            e0124: m.s * b.e0124,
            e0134: m.s * b.e0134,
            e0234: m.s * b.e0234,
            e1234: m.s * b.e1234,
            den: b.den * m.den,
        }),
{
    lemma_mul_basics(b.e12);
    lemma_mul_basics(b.e1234);
    lemma_mul_basics(b.e13);
    lemma_mul_basics(b.e14);
    lemma_mul_basics(b.e23);
    lemma_mul_basics(b.e24);
    lemma_mul_basics(b.e34);
    lemma_mul_is_commutative(b.s, m.s);
    lemma_mul_is_commutative(b.e01, m.s);
    lemma_mul_basics(b.e0123);
    lemma_mul_basics(b.e0124);
    lemma_mul_basics(b.e0134);
    lemma_mul_basics(b.e02);
    lemma_mul_basics(b.e0234);
    lemma_mul_basics(b.e03);
    lemma_mul_basics(b.e04);
    lemma_mul_basics(b.e12);
    lemma_mul_basics(b.e1234);
    lemma_mul_basics(b.e13);
    lemma_mul_basics(b.e14);
    lemma_mul_basics(b.e23);
    lemma_mul_basics(b.e24);
    lemma_mul_basics(b.e34);
    lemma_mul_basics(b.s);
    lemma_mul_basics(b.e01);
    lemma_mul_basics(b.e0123);
    lemma_mul_basics(b.e0124);
    lemma_mul_basics(b.e0134);
    lemma_mul_is_commutative(b.e02, m.s);
    lemma_mul_basics(b.e0234);
    lemma_mul_basics(b.e03);
    lemma_mul_basics(b.e04);
    lemma_mul_basics(b.e12);
    lemma_mul_basics(b.e1234);
    lemma_mul_basics(b.e13);
    lemma_mul_basics(b.e14);
    lemma_mul_basics(b.e23);
    lemma_mul_basics(b.e24);
    lemma_mul_basics(b.e34);
    lemma_mul_basics(b.s);
    lemma_mul_basics(b.e01);
    lemma_mul_basics(b.e0123);
    lemma_mul_basics(b.e0124);
    lemma_mul_basics(b.e0134);
    lemma_mul_basics(b.e02);
    lemma_mul_basics(b.e0234);
    lemma_mul_is_commutative(b.e03, m.s);
    lemma_mul_basics(b.e04);
    lemma_mul_basics(b.e12);
    lemma_mul_basics(b.e1234);
    lemma_mul_basics(b.e13);
    lemma_mul_basics(b.e14);
    lemma_mul_basics(b.e23);
    lemma_mul_basics(b.e24);
    lemma_mul_basics(b.e34);
    lemma_mul_basics(b.s);
    lemma_mul_basics(b.e01);
    lemma_mul_basics(b.e0123);
    lemma_mul_basics(b.e0124);
    lemma_mul_basics(b.e0134);
    lemma_mul_basics(b.e02);
    lemma_mul_basics(b.e0234);
    lemma_mul_basics(b.e03);
    lemma_mul_is_commutative(b.e04, m.s);
    lemma_mul_basics(b.e12);
    lemma_mul_basics(b.e1234);
    lemma_mul_basics(b.e13);
    lemma_mul_basics(b.e14);
    lemma_mul_basics(b.e23);
    lemma_mul_basics(b.e24);
    lemma_mul_basics(b.e34);
    lemma_mul_basics(b.s);
    lemma_mul_is_commutative(b.e12, m.s);
    lemma_mul_basics(b.e1234);
    lemma_mul_basics(b.e13);
    lemma_mul_basics(b.e14);
    lemma_mul_basics(b.e23);
    lemma_mul_basics(b.e24);
    lemma_mul_basics(b.e34);
    lemma_mul_basics(b.s);
    lemma_mul_basics(b.e12);
    lemma_mul_basics(b.e1234);
    lemma_mul_is_commutative(b.e13, m.s);
    lemma_mul_basics(b.e14);
    lemma_mul_basics(b.e23);
    lemma_mul_basics(b.e24);
    lemma_mul_basics(b.e34);
    lemma_mul_basics(b.s);
    lemma_mul_basics(b.e12);
    lemma_mul_basics(b.e1234);
    lemma_mul_basics(b.e13);
    lemma_mul_is_commutative(b.e14, m.s);
    lemma_mul_basics(b.e23);
    lemma_mul_basics(b.e24);
    lemma_mul_basics(b.e34);
    lemma_mul_basics(b.s);
    lemma_mul_basics(b.e12);
    lemma_mul_basics(b.e1234);
    lemma_mul_basics(b.e13);
    lemma_mul_basics(b.e14);
    lemma_mul_is_commutative(b.e23, m.s);
    lemma_mul_basics(b.e24);
    lemma_mul_basics(b.e34);
    lemma_mul_basics(b.s);
    lemma_mul_basics(b.e12);
    lemma_mul_basics(b.e1234);
    lemma_mul_basics(b.e13);
    lemma_mul_basics(b.e14);
    lemma_mul_basics(b.e23);
    lemma_mul_is_commutative(b.e24, m.s);
    lemma_mul_basics(b.e34);
    lemma_mul_basics(b.s);
    lemma_mul_basics(b.e12);
    lemma_mul_basics(b.e1234);
    lemma_mul_basics(b.e13);
    lemma_mul_basics(b.e14);
    lemma_mul_basics(b.e23);
    lemma_mul_basics(b.e24);
    lemma_mul_is_commutative(b.e34, m.s);
    lemma_mul_basics(b.s);
    lemma_mul_basics(b.e01);
    lemma_mul_is_commutative(b.e0123, m.s);
    lemma_mul_basics(b.e0124);
    lemma_mul_basics(b.e0134);
    lemma_mul_basics(b.e02);
    lemma_mul_basics(b.e0234);
    lemma_mul_basics(b.e03);
    lemma_mul_basics(b.e04);
    lemma_mul_basics(b.e12);
    lemma_mul_basics(b.e1234);
    lemma_mul_basics(b.e13);
    lemma_mul_basics(b.e14);
    lemma_mul_basics(b.e23);
    lemma_mul_basics(b.e24);
    lemma_mul_basics(b.e34);
    lemma_mul_basics(b.s);
    lemma_mul_basics(b.e01);
    lemma_mul_basics(b.e0123);
    lemma_mul_is_commutative(b.e0124, m.s);
    lemma_mul_basics(b.e0134);
    lemma_mul_basics(b.e02);
    lemma_mul_basics(b.e0234);
    lemma_mul_basics(b.e03);
    lemma_mul_basics(b.e04);
    lemma_mul_basics(b.e12);
    lemma_mul_basics(b.e1234);
    lemma_mul_basics(b.e13);
    lemma_mul_basics(b.e14);
    lemma_mul_basics(b.e23);
    lemma_mul_basics(b.e24);
    lemma_mul_basics(b.e34);
    lemma_mul_basics(b.s);
    lemma_mul_basics(b.e01);
    lemma_mul_basics(b.e0123);
    lemma_mul_basics(b.e0124);
    lemma_mul_is_commutative(b.e0134, m.s);
    lemma_mul_basics(b.e02);
    lemma_mul_basics(b.e0234);
    lemma_mul_basics(b.e03);
    lemma_mul_basics(b.e04);
    lemma_mul_basics(b.e12);
    lemma_mul_basics(b.e1234);
    lemma_mul_basics(b.e13);
    lemma_mul_basics(b.e14);
    lemma_mul_basics(b.e23);
    lemma_mul_basics(b.e24);
    lemma_mul_basics(b.e34);
    lemma_mul_basics(b.s);
    lemma_mul_basics(b.e01);
    lemma_mul_basics(b.e0123);
    lemma_mul_basics(b.e0124);
    lemma_mul_basics(b.e0134);
    lemma_mul_basics(b.e02);
    lemma_mul_is_commutative(b.e0234, m.s);
    lemma_mul_basics(b.e03);
    lemma_mul_basics(b.e04);
    lemma_mul_basics(b.e12);
    lemma_mul_basics(b.e1234);
    lemma_mul_basics(b.e13);
    lemma_mul_basics(b.e14);
    lemma_mul_basics(b.e23);
    lemma_mul_basics(b.e24);
    lemma_mul_basics(b.e34);
    lemma_mul_basics(b.s);
    lemma_mul_basics(b.e12);
    lemma_mul_is_commutative(b.e1234, m.s);
    lemma_mul_basics(b.e13);
    lemma_mul_basics(b.e14);
    lemma_mul_basics(b.e23);
    lemma_mul_basics(b.e24);
    lemma_mul_basics(b.e34);
    lemma_mul_basics(b.s);
}

/// Scaling every coefficient of one factor by `k` scales every
/// coefficient of the product by `k`; denominators are untouched by `k`.
pub proof fn lemma_compose_scale_right(a: RotorModel, b: RotorModel, k: int, bk: RotorModel)
    requires
        bk.s == k * b.s,
        bk.e01 == k * b.e01,
        bk.e02 == k * b.e02,
        bk.e03 == k * b.e03,
        bk.e04 == k * b.e04,
        bk.e12 == k * b.e12,
        bk.e13 == k * b.e13,
        bk.e14 == k * b.e14,
        bk.e23 == k * b.e23,
        bk.e24 == k * b.e24,
        bk.e34 == k * b.e34,
        bk.e0123 == k * b.e0123,
        bk.e0124 == k * b.e0124,
        bk.e0134 == k * b.e0134,
        bk.e0234 == k * b.e0234,
        bk.e1234 == k * b.e1234,
    ensures
        spec_compose(a, bk) == (RotorModel {
            s: k * spec_compose(a, b).s,
            e01: k * spec_compose(a, b).e01,
            e02: k * spec_compose(a, b).e02,
            e03: k * spec_compose(a, b).e03,
            e04: k * spec_compose(a, b).e04,
            e12: k * spec_compose(a, b).e12,
            e13: k * spec_compose(a, b).e13,
            e14: k * spec_compose(a, b).e14,
            e23: k * spec_compose(a, b).e23,
            e24: k * spec_compose(a, b).e24,
            e34: k * spec_compose(a, b).e34,
            e0123: k * spec_compose(a, b).e0123,
            e0124: k * spec_compose(a, b).e0124,
            e0134: k * spec_compose(a, b).e0134,
            e0234: k * spec_compose(a, b).e0234,
            e1234: k * spec_compose(a, b).e1234,
            den: a.den * bk.den,
        }),
{
    lemma_mul_is_associative(a.e12, k, b.e12);
    lemma_mul_is_commutative(a.e12, k);
    lemma_mul_is_associative(k, a.e12, b.e12);
    lemma_mul_is_associative(a.e1234, k, b.e1234);
    lemma_mul_is_commutative(a.e1234, k);
    lemma_mul_is_associative(k, a.e1234, b.e1234);
    lemma_mul_is_associative(a.e13, k, b.e13);
    lemma_mul_is_commutative(a.e13, k);
    lemma_mul_is_associative(k, a.e13, b.e13);
    lemma_mul_is_associative(a.e14, k, b.e14);
    lemma_mul_is_commutative(a.e14, k);
    lemma_mul_is_associative(k, a.e14, b.e14);
    lemma_mul_is_associative(a.e23, k, b.e23);
    lemma_mul_is_commutative(a.e23, k);
    lemma_mul_is_associative(k, a.e23, b.e23);
    lemma_mul_is_associative(a.e24, k, b.e24);
    lemma_mul_is_commutative(a.e24, k);
    lemma_mul_is_associative(k, a.e24, b.e24);
    lemma_mul_is_associative(a.e34, k, b.e34);
    lemma_mul_is_commutative(a.e34, k);
    lemma_mul_is_associative(k, a.e34, b.e34);
    lemma_mul_is_associative(a.s, k, b.s);
    lemma_mul_is_commutative(a.s, k);
    lemma_mul_is_associative(k, a.s, b.s);
    lemma_mul_is_associative(a.e01, k, b.s);
    lemma_mul_is_commutative(a.e01, k);
    lemma_mul_is_associative(k, a.e01, b.s);
    lemma_mul_is_associative(a.e0123, k, b.e23);
    lemma_mul_is_commutative(a.e0123, k);
    lemma_mul_is_associative(k, a.e0123, b.e23);
    lemma_mul_is_associative(a.e0124, k, b.e24);
    lemma_mul_is_commutative(a.e0124, k);
    lemma_mul_is_associative(k, a.e0124, b.e24);
    lemma_mul_is_associative(a.e0134, k, b.e34);
    lemma_mul_is_commutative(a.e0134, k);
    lemma_mul_is_associative(k, a.e0134, b.e34);
    lemma_mul_is_associative(a.e02, k, b.e12);
    lemma_mul_is_commutative(a.e02, k);
    lemma_mul_is_associative(k, a.e02, b.e12);
    lemma_mul_is_associative(a.e0234, k, b.e1234);
    lemma_mul_is_commutative(a.e0234, k);
    lemma_mul_is_associative(k, a.e0234, b.e1234);
    lemma_mul_is_associative(a.e03, k, b.e13);
    lemma_mul_is_commutative(a.e03, k);
    lemma_mul_is_associative(k, a.e03, b.e13);
    lemma_mul_is_associative(a.e04, k, b.e14);
    lemma_mul_is_commutative(a.e04, k);
    lemma_mul_is_associative(k, a.e04, b.e14);
    lemma_mul_is_associative(a.e12, k, b.e02);
    lemma_mul_is_commutative(a.e12, k);
    lemma_mul_is_associative(k, a.e12, b.e02);
    lemma_mul_is_associative(a.e1234, k, b.e0234);
    lemma_mul_is_commutative(a.e1234, k);
    lemma_mul_is_associative(k, a.e1234, b.e0234);
    lemma_mul_is_associative(a.e13, k, b.e03);
    lemma_mul_is_commutative(a.e13, k);
    lemma_mul_is_associative(k, a.e13, b.e03);
    lemma_mul_is_associative(a.e14, k, b.e04);
    lemma_mul_is_commutative(a.e14, k);
    lemma_mul_is_associative(k, a.e14, b.e04);
    lemma_mul_is_associative(a.e23, k, b.e0123);
    lemma_mul_is_commutative(a.e23, k);
    lemma_mul_is_associative(k, a.e23, b.e0123);
    lemma_mul_is_associative(a.e24, k, b.e0124);
    lemma_mul_is_commutative(a.e24, k);
    lemma_mul_is_associative(k, a.e24, b.e0124);
    lemma_mul_is_associative(a.e34, k, b.e0134);
    lemma_mul_is_commutative(a.e34, k);
    lemma_mul_is_associative(k, a.e34, b.e0134);
    lemma_mul_is_associative(a.s, k, b.e01);
    lemma_mul_is_commutative(a.s, k);
    lemma_mul_is_associative(k, a.s, b.e01);
    lemma_mul_is_associative(a.e01, k, b.e12);
    lemma_mul_is_commutative(a.e01, k);
    lemma_mul_is_associative(k, a.e01, b.e12);
    lemma_mul_is_associative(a.e0123, k, b.e13);
    lemma_mul_is_commutative(a.e0123, k);
    lemma_mul_is_associative(k, a.e0123, b.e13);
    lemma_mul_is_associative(a.e0124, k, b.e14);
    lemma_mul_is_commutative(a.e0124, k);
    lemma_mul_is_associative(k, a.e0124, b.e14);
    lemma_mul_is_associative(a.e0134, k, b.e1234);
    lemma_mul_is_commutative(a.e0134, k);
    lemma_mul_is_associative(k, a.e0134, b.e1234);
    lemma_mul_is_associative(a.e02, k, b.s);
    lemma_mul_is_commutative(a.e02, k);
    lemma_mul_is_associative(k, a.e02, b.s);
    lemma_mul_is_associative(a.e0234, k, b.e34);
    lemma_mul_is_commutative(a.e0234, k);
    lemma_mul_is_associative(k, a.e0234, b.e34);
    lemma_mul_is_associative(a.e03, k, b.e23);
    lemma_mul_is_commutative(a.e03, k);
    lemma_mul_is_associative(k, a.e03, b.e23);
    lemma_mul_is_associative(a.e04, k, b.e24);
    lemma_mul_is_commutative(a.e04, k);
    lemma_mul_is_associative(k, a.e04, b.e24);
    lemma_mul_is_associative(a.e12, k, b.e01);
    lemma_mul_is_commutative(a.e12, k);
    lemma_mul_is_associative(k, a.e12, b.e01);
    lemma_mul_is_associative(a.e1234, k, b.e0134);
    lemma_mul_is_commutative(a.e1234, k);
    lemma_mul_is_associative(k, a.e1234, b.e0134);
    lemma_mul_is_associative(a.e13, k, b.e0123);
    lemma_mul_is_commutative(a.e13, k);
    lemma_mul_is_associative(k, a.e13, b.e0123);
    lemma_mul_is_associative(a.e14, k, b.e0124);
    lemma_mul_is_commutative(a.e14, k);
    lemma_mul_is_associative(k, a.e14, b.e0124);
    lemma_mul_is_associative(a.e23, k, b.e03);
    lemma_mul_is_commutative(a.e23, k);
    lemma_mul_is_associative(k, a.e23, b.e03);
    lemma_mul_is_associative(a.e24, k, b.e04);
    lemma_mul_is_commutative(a.e24, k);
    lemma_mul_is_associative(k, a.e24, b.e04);
    lemma_mul_is_associative(a.e34, k, b.e0234);
    lemma_mul_is_commutative(a.e34, k);
    lemma_mul_is_associative(k, a.e34, b.e0234);
    lemma_mul_is_associative(a.s, k, b.e02);
    lemma_mul_is_commutative(a.s, k);
    lemma_mul_is_associative(k, a.s, b.e02);
    lemma_mul_is_associative(a.e01, k, b.e13);
    lemma_mul_is_commutative(a.e01, k);
    lemma_mul_is_associative(k, a.e01, b.e13);
    lemma_mul_is_associative(a.e0123, k, b.e12);
    lemma_mul_is_commutative(a.e0123, k);
    lemma_mul_is_associative(k, a.e0123, b.e12);
    lemma_mul_is_associative(a.e0124, k, b.e1234);
    lemma_mul_is_commutative(a.e0124, k);
    lemma_mul_is_associative(k, a.e0124, b.e1234);
    lemma_mul_is_associative(a.e0134, k, b.e14);
    lemma_mul_is_commutative(a.e0134, k);
    lemma_mul_is_associative(k, a.e0134, b.e14);
    lemma_mul_is_associative(a.e02, k, b.e23);
    lemma_mul_is_commutative(a.e02, k);
    lemma_mul_is_associative(k, a.e02, b.e23);
    lemma_mul_is_associative(a.e0234, k, b.e24);
    lemma_mul_is_commutative(a.e0234, k);
    lemma_mul_is_associative(k, a.e0234, b.e24);
    lemma_mul_is_associative(a.e03, k, b.s);
    lemma_mul_is_commutative(a.e03, k);
    lemma_mul_is_associative(k, a.e03, b.s);
    lemma_mul_is_associative(a.e04, k, b.e34);
    lemma_mul_is_commutative(a.e04, k);
    lemma_mul_is_associative(k, a.e04, b.e34);
    lemma_mul_is_associative(a.e12, k, b.e0123);
    lemma_mul_is_commutative(a.e12, k);
    lemma_mul_is_associative(k, a.e12, b.e0123);
    lemma_mul_is_associative(a.e1234, k, b.e0124);
    lemma_mul_is_commutative(a.e1234, k);
    lemma_mul_is_associative(k, a.e1234, b.e0124);
    lemma_mul_is_associative(a.e13, k, b.e01);
    lemma_mul_is_commutative(a.e13, k);
    lemma_mul_is_associative(k, a.e13, b.e01);
    lemma_mul_is_associative(a.e14, k, b.e0134);
    lemma_mul_is_commutative(a.e14, k);
    lemma_mul_is_associative(k, a.e14, b.e0134);
    lemma_mul_is_associative(a.e23, k, b.e02);
    lemma_mul_is_commutative(a.e23, k);
    lemma_mul_is_associative(k, a.e23, b.e02);
    lemma_mul_is_associative(a.e24, k, b.e0234);
    lemma_mul_is_commutative(a.e24, k);
    lemma_mul_is_associative(k, a.e24, b.e0234);
    lemma_mul_is_associative(a.e34, k, b.e04);
    lemma_mul_is_commutative(a.e34, k);
    lemma_mul_is_associative(k, a.e34, b.e04);
    lemma_mul_is_associative(a.s, k, b.e03);
    lemma_mul_is_commutative(a.s, k);
    lemma_mul_is_associative(k, a.s, b.e03);
    lemma_mul_is_associative(a.e01, k, b.e14);
    lemma_mul_is_commutative(a.e01, k);
    lemma_mul_is_associative(k, a.e01, b.e14);
    lemma_mul_is_associative(a.e0123, k, b.e1234);
    lemma_mul_is_commutative(a.e0123, k);
    lemma_mul_is_associative(k, a.e0123, b.e1234);
    lemma_mul_is_associative(a.e0124, k, b.e12);
    lemma_mul_is_commutative(a.e0124, k);
    lemma_mul_is_associative(k, a.e0124, b.e12);
    lemma_mul_is_associative(a.e0134, k, b.e13);
    lemma_mul_is_commutative(a.e0134, k);
    lemma_mul_is_associative(k, a.e0134, b.e13);
    lemma_mul_is_associative(a.e02, k, b.e24);
    lemma_mul_is_commutative(a.e02, k);
    lemma_mul_is_associative(k, a.e02, b.e24);
    lemma_mul_is_associative(a.e0234, k, b.e23);
    lemma_mul_is_commutative(a.e0234, k);
    lemma_mul_is_associative(k, a.e0234, b.e23);
    lemma_mul_is_associative(a.e03, k, b.e34);
    lemma_mul_is_commutative(a.e03, k);
    lemma_mul_is_associative(k, a.e03, b.e34);
    lemma_mul_is_associative(a.e04, k, b.s);
    lemma_mul_is_commutative(a.e04, k);
    lemma_mul_is_associative(k, a.e04, b.s);
    lemma_mul_is_associative(a.e12, k, b.e0124);
    lemma_mul_is_commutative(a.e12, k);
    lemma_mul_is_associative(k, a.e12, b.e0124);
    lemma_mul_is_associative(a.e1234, k, b.e0123);
    lemma_mul_is_commutative(a.e1234, k);
    lemma_mul_is_associative(k, a.e1234, b.e0123);
    lemma_mul_is_associative(a.e13, k, b.e0134);
    lemma_mul_is_commutative(a.e13, k);
    lemma_mul_is_associative(k, a.e13, b.e0134);
    lemma_mul_is_associative(a.e14, k, b.e01);
    lemma_mul_is_commutative(a.e14, k);
    lemma_mul_is_associative(k, a.e14, b.e01);
    lemma_mul_is_associative(a.e23, k, b.e0234);
    lemma_mul_is_commutative(a.e23, k);
    lemma_mul_is_associative(k, a.e23, b.e0234);
    lemma_mul_is_associative(a.e24, k, b.e02);
    lemma_mul_is_commutative(a.e24, k);
    lemma_mul_is_associative(k, a.e24, b.e02);
    lemma_mul_is_associative(a.e34, k, b.e03);
    lemma_mul_is_commutative(a.e34, k);
    lemma_mul_is_associative(k, a.e34, b.e03);
    lemma_mul_is_associative(a.s, k, b.e04);
    lemma_mul_is_commutative(a.s, k);
    lemma_mul_is_associative(k, a.s, b.e04);
    lemma_mul_is_associative(a.e12, k, b.s);
    lemma_mul_is_commutative(a.e12, k);
    lemma_mul_is_associative(k, a.e12, b.s);
    lemma_mul_is_associative(a.e1234, k, b.e34);
    lemma_mul_is_commutative(a.e1234, k);
    lemma_mul_is_associative(k, a.e1234, b.e34);
    lemma_mul_is_associative(a.e13, k, b.e23);
    lemma_mul_is_commutative(a.e13, k);
    lemma_mul_is_associative(k, a.e13, b.e23);
    lemma_mul_is_associative(a.e14, k, b.e24);
    lemma_mul_is_commutative(a.e14, k);
    lemma_mul_is_associative(k, a.e14, b.e24);
    lemma_mul_is_associative(a.e23, k, b.e13);
    lemma_mul_is_commutative(a.e23, k);
    lemma_mul_is_associative(k, a.e23, b.e13);
    lemma_mul_is_associative(a.e24, k, b.e14);
    lemma_mul_is_commutative(a.e24, k);
    lemma_mul_is_associative(k, a.e24, b.e14);
    lemma_mul_is_associative(a.e34, k, b.e1234);
    lemma_mul_is_commutative(a.e34, k);
    lemma_mul_is_associative(k, a.e34, b.e1234);
    lemma_mul_is_associative(a.s, k, b.e12);
    lemma_mul_is_commutative(a.s, k);
    lemma_mul_is_associative(k, a.s, b.e12);
    lemma_mul_is_associative(a.e12, k, b.e23);
    lemma_mul_is_commutative(a.e12, k);
    lemma_mul_is_associative(k, a.e12, b.e23);
    lemma_mul_is_associative(a.e1234, k, b.e24);
    lemma_mul_is_commutative(a.e1234, k);
    lemma_mul_is_associative(k, a.e1234, b.e24);
    lemma_mul_is_associative(a.e13, k, b.s);
    lemma_mul_is_commutative(a.e13, k);
    lemma_mul_is_associative(k, a.e13, b.s);
    lemma_mul_is_associative(a.e14, k, b.e34);
    lemma_mul_is_commutative(a.e14, k);
    lemma_mul_is_associative(k, a.e14, b.e34);
    lemma_mul_is_associative(a.e23, k, b.e12);
    lemma_mul_is_commutative(a.e23, k);
    lemma_mul_is_associative(k, a.e23, b.e12);
    lemma_mul_is_associative(a.e24, k, b.e1234);
    lemma_mul_is_commutative(a.e24, k);
    lemma_mul_is_associative(k, a.e24, b.e1234);
    lemma_mul_is_associative(a.e34, k, b.e14);
    lemma_mul_is_commutative(a.e34, k);
    lemma_mul_is_associative(k, a.e34, b.e14);
    lemma_mul_is_associative(a.s, k, b.e13);
    lemma_mul_is_commutative(a.s, k);
    lemma_mul_is_associative(k, a.s, b.e13);
    lemma_mul_is_associative(a.e12, k, b.e24);
    lemma_mul_is_commutative(a.e12, k);
    lemma_mul_is_associative(k, a.e12, b.e24);
    lemma_mul_is_associative(a.e1234, k, b.e23);
    lemma_mul_is_commutative(a.e1234, k);
    lemma_mul_is_associative(k, a.e1234, b.e23);
    lemma_mul_is_associative(a.e13, k, b.e34);
    lemma_mul_is_commutative(a.e13, k);
    lemma_mul_is_associative(k, a.e13, b.e34);
    lemma_mul_is_associative(a.e14, k, b.s);
    lemma_mul_is_commutative(a.e14, k);
    lemma_mul_is_associative(k, a.e14, b.s);
    lemma_mul_is_associative(a.e23, k, b.e1234);
    lemma_mul_is_commutative(a.e23, k);
    lemma_mul_is_associative(k, a.e23, b.e1234);
    lemma_mul_is_associative(a.e24, k, b.e12);
    lemma_mul_is_commutative(a.e24, k);
    lemma_mul_is_associative(k, a.e24, b.e12);
    lemma_mul_is_associative(a.e34, k, b.e13);
    lemma_mul_is_commutative(a.e34, k);
    lemma_mul_is_associative(k, a.e34, b.e13);
    lemma_mul_is_associative(a.s, k, b.e14);
    lemma_mul_is_commutative(a.s, k);
    lemma_mul_is_associative(k, a.s, b.e14);
    lemma_mul_is_associative(a.e12, k, b.e13);
    lemma_mul_is_commutative(a.e12, k);
    lemma_mul_is_associative(k, a.e12, b.e13);
    lemma_mul_is_associative(a.e1234, k, b.e14);
    lemma_mul_is_commutative(a.e1234, k);
    lemma_mul_is_associative(k, a.e1234, b.e14);
    lemma_mul_is_associative(a.e13, k, b.e12);
    lemma_mul_is_commutative(a.e13, k);
    lemma_mul_is_associative(k, a.e13, b.e12);
    lemma_mul_is_associative(a.e14, k, b.e1234);
    lemma_mul_is_commutative(a.e14, k);
    lemma_mul_is_associative(k, a.e14, b.e1234);
    lemma_mul_is_associative(a.e23, k, b.s);
    lemma_mul_is_commutative(a.e23, k);
    lemma_mul_is_associative(k, a.e23, b.s);
    lemma_mul_is_associative(a.e24, k, b.e34);
    lemma_mul_is_commutative(a.e24, k);
    lemma_mul_is_associative(k, a.e24, b.e34);
    lemma_mul_is_associative(a.e34, k, b.e24);
    lemma_mul_is_commutative(a.e34, k);
    lemma_mul_is_associative(k, a.e34, b.e24);
    lemma_mul_is_associative(a.s, k, b.e23);
    lemma_mul_is_commutative(a.s, k);
    lemma_mul_is_associative(k, a.s, b.e23);
    lemma_mul_is_associative(a.e12, k, b.e14);
    lemma_mul_is_commutative(a.e12, k);
    lemma_mul_is_associative(k, a.e12, b.e14);
    lemma_mul_is_associative(a.e1234, k, b.e13);
    lemma_mul_is_commutative(a.e1234, k);
    lemma_mul_is_associative(k, a.e1234, b.e13);
    lemma_mul_is_associative(a.e13, k, b.e1234);
    lemma_mul_is_commutative(a.e13, k);
    lemma_mul_is_associative(k, a.e13, b.e1234);
    lemma_mul_is_associative(a.e14, k, b.e12);
    lemma_mul_is_commutative(a.e14, k);
    lemma_mul_is_associative(k, a.e14, b.e12);
    lemma_mul_is_associative(a.e23, k, b.e34);
    lemma_mul_is_commutative(a.e23, k);
    lemma_mul_is_associative(k, a.e23, b.e34);
    lemma_mul_is_associative(a.e24, k, b.s);
    lemma_mul_is_commutative(a.e24, k);
    lemma_mul_is_associative(k, a.e24, b.s);
    lemma_mul_is_associative(a.e34, k, b.e23);
    lemma_mul_is_commutative(a.e34, k);
    lemma_mul_is_associative(k, a.e34, b.e23);
    lemma_mul_is_associative(a.s, k, b.e24);
    lemma_mul_is_commutative(a.s, k);
    lemma_mul_is_associative(k, a.s, b.e24);
    lemma_mul_is_associative(a.e12, k, b.e1234);
    lemma_mul_is_commutative(a.e12, k);
    lemma_mul_is_associative(k, a.e12, b.e1234);
    lemma_mul_is_associative(a.e1234, k, b.e12);
    lemma_mul_is_commutative(a.e1234, k);
    lemma_mul_is_associative(k, a.e1234, b.e12);
    lemma_mul_is_associative(a.e13, k, b.e14);
    lemma_mul_is_commutative(a.e13, k);
    lemma_mul_is_associative(k, a.e13, b.e14);
    lemma_mul_is_associative(a.e14, k, b.e13);
    lemma_mul_is_commutative(a.e14, k);
    lemma_mul_is_associative(k, a.e14, b.e13);
    lemma_mul_is_associative(a.e23, k, b.e24);
    lemma_mul_is_commutative(a.e23, k);
    lemma_mul_is_associative(k, a.e23, b.e24);
    lemma_mul_is_associative(a.e24, k, b.e23);
    lemma_mul_is_commutative(a.e24, k);
    lemma_mul_is_associative(k, a.e24, b.e23);
    lemma_mul_is_associative(a.e34, k, b.s);
    lemma_mul_is_commutative(a.e34, k);
    lemma_mul_is_associative(k, a.e34, b.s);
    lemma_mul_is_associative(a.s, k, b.e34);
    lemma_mul_is_commutative(a.s, k);
    lemma_mul_is_associative(k, a.s, b.e34);
    lemma_mul_is_associative(a.e01, k, b.e23);
    lemma_mul_is_commutative(a.e01, k);
    lemma_mul_is_associative(k, a.e01, b.e23);
    lemma_mul_is_associative(a.e0123, k, b.s);
    lemma_mul_is_commutative(a.e0123, k);
    lemma_mul_is_associative(k, a.e0123, b.s);
    lemma_mul_is_associative(a.e0124, k, b.e34);
    lemma_mul_is_commutative(a.e0124, k);
    lemma_mul_is_associative(k, a.e0124, b.e34);
    lemma_mul_is_associative(a.e0134, k, b.e24);
    lemma_mul_is_commutative(a.e0134, k);
    lemma_mul_is_associative(k, a.e0134, b.e24);
    lemma_mul_is_associative(a.e02, k, b.e13);
    lemma_mul_is_commutative(a.e02, k);
    lemma_mul_is_associative(k, a.e02, b.e13);
    lemma_mul_is_associative(a.e0234, k, b.e14);
    lemma_mul_is_commutative(a.e0234, k);
    lemma_mul_is_associative(k, a.e0234, b.e14);
    lemma_mul_is_associative(a.e03, k, b.e12);
    lemma_mul_is_commutative(a.e03, k);
    lemma_mul_is_associative(k, a.e03, b.e12);
    lemma_mul_is_associative(a.e04, k, b.e1234);
    lemma_mul_is_commutative(a.e04, k);
    lemma_mul_is_associative(k, a.e04, b.e1234);
    lemma_mul_is_associative(a.e12, k, b.e03);
    lemma_mul_is_commutative(a.e12, k);
    lemma_mul_is_associative(k, a.e12, b.e03);
    lemma_mul_is_associative(a.e1234, k, b.e04);
    lemma_mul_is_commutative(a.e1234, k);
    lemma_mul_is_associative(k, a.e1234, b.e04);
    lemma_mul_is_associative(a.e13, k, b.e02);
    lemma_mul_is_commutative(a.e13, k);
    lemma_mul_is_associative(k, a.e13, b.e02);
    lemma_mul_is_associative(a.e14, k, b.e0234);
    lemma_mul_is_commutative(a.e14, k);
    lemma_mul_is_associative(k, a.e14, b.e0234);
    lemma_mul_is_associative(a.e23, k, b.e01);
    lemma_mul_is_commutative(a.e23, k);
    lemma_mul_is_associative(k, a.e23, b.e01);
    lemma_mul_is_associative(a.e24, k, b.e0134);
    lemma_mul_is_commutative(a.e24, k);
    lemma_mul_is_associative(k, a.e24, b.e0134);
    lemma_mul_is_associative(a.e34, k, b.e0124);
    lemma_mul_is_commutative(a.e34, k);
    lemma_mul_is_associative(k, a.e34, b.e0124);
    lemma_mul_is_associative(a.s, k, b.e0123);
    lemma_mul_is_commutative(a.s, k);
    lemma_mul_is_associative(k, a.s, b.e0123);
    lemma_mul_is_associative(a.e01, k, b.e24);
    lemma_mul_is_commutative(a.e01, k);
    lemma_mul_is_associative(k, a.e01, b.e24);
    lemma_mul_is_associative(a.e0123, k, b.e34);
    lemma_mul_is_commutative(a.e0123, k);
    lemma_mul_is_associative(k, a.e0123, b.e34);
    lemma_mul_is_associative(a.e0124, k, b.s);
    lemma_mul_is_commutative(a.e0124, k);
    lemma_mul_is_associative(k, a.e0124, b.s);
    lemma_mul_is_associative(a.e0134, k, b.e23);
    lemma_mul_is_commutative(a.e0134, k);
    lemma_mul_is_associative(k, a.e0134, b.e23);
    lemma_mul_is_associative(a.e02, k, b.e14);
    lemma_mul_is_commutative(a.e02, k);
    lemma_mul_is_associative(k, a.e02, b.e14);
    lemma_mul_is_associative(a.e0234, k, b.e13);
    lemma_mul_is_commutative(a.e0234, k);
    lemma_mul_is_associative(k, a.e0234, b.e13);
    lemma_mul_is_associative(a.e03, k, b.e1234);
    lemma_mul_is_commutative(a.e03, k);
    lemma_mul_is_associative(k, a.e03, b.e1234);
    lemma_mul_is_associative(a.e04, k, b.e12);
    lemma_mul_is_commutative(a.e04, k);
    lemma_mul_is_associative(k, a.e04, b.e12);
    lemma_mul_is_associative(a.e12, k, b.e04);
    lemma_mul_is_commutative(a.e12, k);
    lemma_mul_is_associative(k, a.e12, b.e04);
    lemma_mul_is_associative(a.e1234, k, b.e03);
    lemma_mul_is_commutative(a.e1234, k);
    lemma_mul_is_associative(k, a.e1234, b.e03);
    lemma_mul_is_associative(a.e13, k, b.e0234);
    lemma_mul_is_commutative(a.e13, k);
    lemma_mul_is_associative(k, a.e13, b.e0234);
    lemma_mul_is_associative(a.e14, k, b.e02);
    lemma_mul_is_commutative(a.e14, k);
    lemma_mul_is_associative(k, a.e14, b.e02);
    lemma_mul_is_associative(a.e23, k, b.e0134);
    lemma_mul_is_commutative(a.e23, k);
    lemma_mul_is_associative(k, a.e23, b.e0134);
    lemma_mul_is_associative(a.e24, k, b.e01);
    lemma_mul_is_commutative(a.e24, k);
    lemma_mul_is_associative(k, a.e24, b.e01);
    lemma_mul_is_associative(a.e34, k, b.e0123);
    lemma_mul_is_commutative(a.e34, k);
    lemma_mul_is_associative(k, a.e34, b.e0123);
    lemma_mul_is_associative(a.s, k, b.e0124);
    lemma_mul_is_commutative(a.s, k);
    lemma_mul_is_associative(k, a.s, b.e0124);
    lemma_mul_is_associative(a.e01, k, b.e34);
    lemma_mul_is_commutative(a.e01, k);
    lemma_mul_is_associative(k, a.e01, b.e34);
    lemma_mul_is_associative(a.e0123, k, b.e24);
    lemma_mul_is_commutative(a.e0123, k);
    lemma_mul_is_associative(k, a.e0123, b.e24);
    lemma_mul_is_associative(a.e0124, k, b.e23);
    lemma_mul_is_commutative(a.e0124, k);
    lemma_mul_is_associative(k, a.e0124, b.e23);
    lemma_mul_is_associative(a.e0134, k, b.s);
    lemma_mul_is_commutative(a.e0134, k);
    lemma_mul_is_associative(k, a.e0134, b.s);
    lemma_mul_is_associative(a.e02, k, b.e1234);
    lemma_mul_is_commutative(a.e02, k);
    lemma_mul_is_associative(k, a.e02, b.e1234);
    lemma_mul_is_associative(a.e0234, k, b.e12);
    lemma_mul_is_commutative(a.e0234, k);
    lemma_mul_is_associative(k, a.e0234, b.e12);
    lemma_mul_is_associative(a.e03, k, b.e14);
    lemma_mul_is_commutative(a.e03, k);
    lemma_mul_is_associative(k, a.e03, b.e14);
    lemma_mul_is_associative(a.e04, k, b.e13);
    lemma_mul_is_commutative(a.e04, k);
    lemma_mul_is_associative(k, a.e04, b.e13);
    lemma_mul_is_associative(a.e12, k, b.e0234);
    lemma_mul_is_commutative(a.e12, k);
    lemma_mul_is_associative(k, a.e12, b.e0234);
    lemma_mul_is_associative(a.e1234, k, b.e02);
    lemma_mul_is_commutative(a.e1234, k);
    lemma_mul_is_associative(k, a.e1234, b.e02);
    lemma_mul_is_associative(a.e13, k, b.e04);
    lemma_mul_is_commutative(a.e13, k);
    lemma_mul_is_associative(k, a.e13, b.e04);
    lemma_mul_is_associative(a.e14, k, b.e03);
    lemma_mul_is_commutative(a.e14, k);
    lemma_mul_is_associative(k, a.e14, b.e03);
    lemma_mul_is_associative(a.e23, k, b.e0124);
    lemma_mul_is_commutative(a.e23, k);
    lemma_mul_is_associative(k, a.e23, b.e0124);
    lemma_mul_is_associative(a.e24, k, b.e0123);
    lemma_mul_is_commutative(a.e24, k);
    lemma_mul_is_associative(k, a.e24, b.e0123);
    lemma_mul_is_associative(a.e34, k, b.e01);
    lemma_mul_is_commutative(a.e34, k);
    lemma_mul_is_associative(k, a.e34, b.e01);
    lemma_mul_is_associative(a.s, k, b.e0134);
    lemma_mul_is_commutative(a.s, k);
    lemma_mul_is_associative(k, a.s, b.e0134);
    lemma_mul_is_associative(a.e01, k, b.e1234);
    lemma_mul_is_commutative(a.e01, k);
    lemma_mul_is_associative(k, a.e01, b.e1234);
    lemma_mul_is_associative(a.e0123, k, b.e14);
    lemma_mul_is_commutative(a.e0123, k);
    lemma_mul_is_associative(k, a.e0123, b.e14);
    lemma_mul_is_associative(a.e0124, k, b.e13);
    lemma_mul_is_commutative(a.e0124, k);
    lemma_mul_is_associative(k, a.e0124, b.e13);
    lemma_mul_is_associative(a.e0134, k, b.e12);
    lemma_mul_is_commutative(a.e0134, k);
    lemma_mul_is_associative(k, a.e0134, b.e12);
    lemma_mul_is_associative(a.e02, k, b.e34);
    lemma_mul_is_commutative(a.e02, k);
    lemma_mul_is_associative(k, a.e02, b.e34);
    lemma_mul_is_associative(a.e0234, k, b.s);
    lemma_mul_is_commutative(a.e0234, k);
    lemma_mul_is_associative(k, a.e0234, b.s);
    lemma_mul_is_associative(a.e03, k, b.e24);
    lemma_mul_is_commutative(a.e03, k);
    lemma_mul_is_associative(k, a.e03, b.e24);
    lemma_mul_is_associative(a.e04, k, b.e23);
    lemma_mul_is_commutative(a.e04, k);
    lemma_mul_is_associative(k, a.e04, b.e23);
    lemma_mul_is_associative(a.e12, k, b.e0134);
    lemma_mul_is_commutative(a.e12, k);
    lemma_mul_is_associative(k, a.e12, b.e0134);
    lemma_mul_is_associative(a.e1234, k, b.e01);
    lemma_mul_is_commutative(a.e1234, k);
    lemma_mul_is_associative(k, a.e1234, b.e01);
    lemma_mul_is_associative(a.e13, k, b.e0124);
    lemma_mul_is_commutative(a.e13, k);
    lemma_mul_is_associative(k, a.e13, b.e0124);
    lemma_mul_is_associative(a.e14, k, b.e0123);
    lemma_mul_is_commutative(a.e14, k);
    lemma_mul_is_associative(k, a.e14, b.e0123);
    lemma_mul_is_associative(a.e23, k, b.e04);
    lemma_mul_is_commutative(a.e23, k);
    lemma_mul_is_associative(k, a.e23, b.e04);
    lemma_mul_is_associative(a.e24, k, b.e03);
    lemma_mul_is_commutative(a.e24, k);
    lemma_mul_is_associative(k, a.e24, b.e03);
    lemma_mul_is_associative(a.e34, k, b.e02);
    lemma_mul_is_commutative(a.e34, k);
    lemma_mul_is_associative(k, a.e34, b.e02);
    lemma_mul_is_associative(a.s, k, b.e0234);
    lemma_mul_is_commutative(a.s, k);
    lemma_mul_is_associative(k, a.s, b.e0234);
    lemma_mul_is_associative(a.e12, k, b.e34);
    lemma_mul_is_commutative(a.e12, k);
    lemma_mul_is_associative(k, a.e12, b.e34);
    lemma_mul_is_associative(a.e1234, k, b.s);
    lemma_mul_is_commutative(a.e1234, k);
    lemma_mul_is_associative(k, a.e1234, b.s);
    lemma_mul_is_associative(a.e13, k, b.e24);
    lemma_mul_is_commutative(a.e13, k);
    lemma_mul_is_associative(k, a.e13, b.e24);
    lemma_mul_is_associative(a.e14, k, b.e23);
    lemma_mul_is_commutative(a.e14, k);
    lemma_mul_is_associative(k, a.e14, b.e23);
    lemma_mul_is_associative(a.e23, k, b.e14);
    lemma_mul_is_commutative(a.e23, k);
    lemma_mul_is_associative(k, a.e23, b.e14);
    lemma_mul_is_associative(a.e24, k, b.e13);
    lemma_mul_is_commutative(a.e24, k);
    lemma_mul_is_associative(k, a.e24, b.e13);
    lemma_mul_is_associative(a.e34, k, b.e12);
    lemma_mul_is_commutative(a.e34, k);
    lemma_mul_is_associative(k, a.e34, b.e12);
    lemma_mul_is_associative(a.s, k, b.e1234);
    lemma_mul_is_commutative(a.s, k);
    lemma_mul_is_associative(k, a.s, b.e1234);
    crate::assoc::dist_r_p1(k, a.e12 * b.e12, a.e1234 * b.e1234, a.e13 * b.e13, a.e14 * b.e14, a.e23 * b.e23, a.e24 * b.e24, a.e34 * b.e34, a.s * b.s);
    crate::assoc::dist_r_p2(k, a.e01 * b.s, a.e0123 * b.e23, a.e0124 * b.e24, a.e0134 * b.e34, a.e02 * b.e12, a.e0234 * b.e1234, a.e03 * b.e13, a.e04 * b.e14, a.e12 * b.e02, a.e1234 * b.e0234, a.e13 * b.e03, a.e14 * b.e04, a.e23 * b.e0123, a.e24 * b.e0124, a.e34 * b.e0134, a.s * b.e01);
    crate::assoc::dist_r_p3(k, a.e01 * b.e12, a.e0123 * b.e13, a.e0124 * b.e14, a.e0134 * b.e1234, a.e02 * b.s, a.e0234 * b.e34, a.e03 * b.e23, a.e04 * b.e24, a.e12 * b.e01, a.e1234 * b.e0134, a.e13 * b.e0123, a.e14 * b.e0124, a.e23 * b.e03, a.e24 * b.e04, a.e34 * b.e0234, a.s * b.e02);
    crate::assoc::dist_r_p4(k, a.e01 * b.e13, a.e0123 * b.e12, a.e0124 * b.e1234, a.e0134 * b.e14, a.e02 * b.e23, a.e0234 * b.e24, a.e03 * b.s, a.e04 * b.e34, a.e12 * b.e0123, a.e1234 * b.e0124, a.e13 * b.e01, a.e14 * b.e0134, a.e23 * b.e02, a.e24 * b.e0234, a.e34 * b.e04, a.s * b.e03);
    crate::assoc::dist_r_p5(k, a.e01 * b.e14, a.e0123 * b.e1234, a.e0124 * b.e12, a.e0134 * b.e13, a.e02 * b.e24, a.e0234 * b.e23, a.e03 * b.e34, a.e04 * b.s, a.e12 * b.e0124, a.e1234 * b.e0123, a.e13 * b.e0134, a.e14 * b.e01, a.e23 * b.e0234, a.e24 * b.e02, a.e34 * b.e03, a.s * b.e04);
    crate::assoc::dist_r_p6(k, a.e12 * b.s, a.e1234 * b.e34, a.e13 * b.e23, a.e14 * b.e24, a.e23 * b.e13, a.e24 * b.e14, a.e34 * b.e1234, a.s * b.e12);
    crate::assoc::dist_r_p7(k, a.e12 * b.e23, a.e1234 * b.e24, a.e13 * b.s, a.e14 * b.e34, a.e23 * b.e12, a.e24 * b.e1234, a.e34 * b.e14, a.s * b.e13);
    crate::assoc::dist_r_p8(k, a.e12 * b.e24, a.e1234 * b.e23, a.e13 * b.e34, a.e14 * b.s, a.e23 * b.e1234, a.e24 * b.e12, a.e34 * b.e13, a.s * b.e14);
    crate::assoc::dist_r_p9(k, a.e12 * b.e13, a.e1234 * b.e14, a.e13 * b.e12, a.e14 * b.e1234, a.e23 * b.s, a.e24 * b.e34, a.e34 * b.e24, a.s * b.e23);
    crate::assoc::dist_r_p10(k, a.e12 * b.e14, a.e1234 * b.e13, a.e13 * b.e1234, a.e14 * b.e12, a.e23 * b.e34, a.e24 * b.s, a.e34 * b.e23, a.s * b.e24);
    crate::assoc::dist_r_p11(k, a.e12 * b.e1234, a.e1234 * b.e12, a.e13 * b.e14, a.e14 * b.e13, a.e23 * b.e24, a.e24 * b.e23, a.e34 * b.s, a.s * b.e34);
    crate::assoc::dist_r_p12(k, a.e01 * b.e23, a.e0123 * b.s, a.e0124 * b.e34, a.e0134 * b.e24, a.e02 * b.e13, a.e0234 * b.e14, a.e03 * b.e12, a.e04 * b.e1234, a.e12 * b.e03, a.e1234 * b.e04, a.e13 * b.e02, a.e14 * b.e0234, a.e23 * b.e01, a.e24 * b.e0134, a.e34 * b.e0124, a.s * b.e0123);
    crate::assoc::dist_r_p13(k, a.e01 * b.e24, a.e0123 * b.e34, a.e0124 * b.s, a.e0134 * b.e23, a.e02 * b.e14, a.e0234 * b.e13, a.e03 * b.e1234, a.e04 * b.e12, a.e12 * b.e04, a.e1234 * b.e03, a.e13 * b.e0234, a.e14 * b.e02, a.e23 * b.e0134, a.e24 * b.e01, a.e34 * b.e0123, a.s * b.e0124);
    crate::assoc::dist_r_p14(k, a.e01 * b.e34, a.e0123 * b.e24, a.e0124 * b.e23, a.e0134 * b.s, a.e02 * b.e1234, a.e0234 * b.e12, a.e03 * b.e14, a.e04 * b.e13, a.e12 * b.e0234, a.e1234 * b.e02, a.e13 * b.e04, a.e14 * b.e03, a.e23 * b.e0124, a.e24 * b.e0123, a.e34 * b.e01, a.s * b.e0134);
    crate::assoc::dist_r_p15(k, a.e01 * b.e1234, a.e0123 * b.e14, a.e0124 * b.e13, a.e0134 * b.e12, a.e02 * b.e34, a.e0234 * b.s, a.e03 * b.e24, a.e04 * b.e23, a.e12 * b.e0134, a.e1234 * b.e01, a.e13 * b.e0124, a.e14 * b.e0123, a.e23 * b.e04, a.e24 * b.e03, a.e34 * b.e02, a.s * b.e0234);
    crate::assoc::dist_r_p16(k, a.e12 * b.e34, a.e1234 * b.s, a.e13 * b.e24, a.e14 * b.e23, a.e23 * b.e14, a.e24 * b.e13, a.e34 * b.e12, a.s * b.e1234);
}

/// Scaling every coefficient of one factor by `k` scales every
/// coefficient of the product by `k`; denominators are untouched by `k`.
pub proof fn lemma_compose_scale_left(a: RotorModel, b: RotorModel, k: int, ak: RotorModel)
    requires
        ak.s == k * a.s,
        ak.e01 == k * a.e01,
        ak.e02 == k * a.e02,
        ak.e03 == k * a.e03,
        ak.e04 == k * a.e04,
        ak.e12 == k * a.e12,
        ak.e13 == k * a.e13,
        ak.e14 == k * a.e14,
        ak.e23 == k * a.e23,
        ak.e24 == k * a.e24,
        ak.e34 == k * a.e34,
        ak.e0123 == k * a.e0123,
        ak.e0124 == k * a.e0124,
        ak.e0134 == k * a.e0134,
        ak.e0234 == k * a.e0234,
        ak.e1234 == k * a.e1234,
    ensures
        spec_compose(ak, b) == (RotorModel {
            s: k * spec_compose(a, b).s,
            e01: k * spec_compose(a, b).e01,
            e02: k * spec_compose(a, b).e02,
            e03: k * spec_compose(a, b).e03,
            e04: k * spec_compose(a, b).e04,
            e12: k * spec_compose(a, b).e12,
            e13: k * spec_compose(a, b).e13,
            e14: k * spec_compose(a, b).e14,
            e23: k * spec_compose(a, b).e23,
            e24: k * spec_compose(a, b).e24,
            e34: k * spec_compose(a, b).e34,
            e0123: k * spec_compose(a, b).e0123,
            e0124: k * spec_compose(a, b).e0124,
            e0134: k * spec_compose(a, b).e0134,
            e0234: k * spec_compose(a, b).e0234,
            e1234: k * spec_compose(a, b).e1234,
            den: ak.den * b.den,
        }),
{
    lemma_mul_is_associative(k, a.e12, b.e12);
    lemma_mul_is_associative(k, a.e1234, b.e1234);
    lemma_mul_is_associative(k, a.e13, b.e13);
    lemma_mul_is_associative(k, a.e14, b.e14);
    lemma_mul_is_associative(k, a.e23, b.e23);
    lemma_mul_is_associative(k, a.e24, b.e24);
    lemma_mul_is_associative(k, a.e34, b.e34);
    lemma_mul_is_associative(k, a.s, b.s);
    lemma_mul_is_associative(k, a.e01, b.s);
    lemma_mul_is_associative(k, a.e0123, b.e23);
    lemma_mul_is_associative(k, a.e0124, b.e24);
    lemma_mul_is_associative(k, a.e0134, b.e34);
    lemma_mul_is_associative(k, a.e02, b.e12);
    lemma_mul_is_associative(k, a.e0234, b.e1234);
    lemma_mul_is_associative(k, a.e03, b.e13);
    lemma_mul_is_associative(k, a.e04, b.e14);
    lemma_mul_is_associative(k, a.e12, b.e02);
    lemma_mul_is_associative(k, a.e1234, b.e0234);
    lemma_mul_is_associative(k, a.e13, b.e03);
    lemma_mul_is_associative(k, a.e14, b.e04);
    lemma_mul_is_associative(k, a.e23, b.e0123);
    lemma_mul_is_associative(k, a.e24, b.e0124);
    lemma_mul_is_associative(k, a.e34, b.e0134);
    lemma_mul_is_associative(k, a.s, b.e01);
    lemma_mul_is_associative(k, a.e01, b.e12);
    lemma_mul_is_associative(k, a.e0123, b.e13);
    lemma_mul_is_associative(k, a.e0124, b.e14);
    lemma_mul_is_associative(k, a.e0134, b.e1234);
    lemma_mul_is_associative(k, a.e02, b.s);
    lemma_mul_is_associative(k, a.e0234, b.e34);
    lemma_mul_is_associative(k, a.e03, b.e23);
    lemma_mul_is_associative(k, a.e04, b.e24);
    lemma_mul_is_associative(k, a.e12, b.e01);
    lemma_mul_is_associative(k, a.e1234, b.e0134);
    lemma_mul_is_associative(k, a.e13, b.e0123);
    lemma_mul_is_associative(k, a.e14, b.e0124);
    lemma_mul_is_associative(k, a.e23, b.e03);
    lemma_mul_is_associative(k, a.e24, b.e04);
    lemma_mul_is_associative(k, a.e34, b.e0234);
    lemma_mul_is_associative(k, a.s, b.e02);
    lemma_mul_is_associative(k, a.e01, b.e13);
    lemma_mul_is_associative(k, a.e0123, b.e12);
    lemma_mul_is_associative(k, a.e0124, b.e1234);
    lemma_mul_is_associative(k, a.e0134, b.e14);
    lemma_mul_is_associative(k, a.e02, b.e23);
    lemma_mul_is_associative(k, a.e0234, b.e24);
    lemma_mul_is_associative(k, a.e03, b.s);
    lemma_mul_is_associative(k, a.e04, b.e34);
    lemma_mul_is_associative(k, a.e12, b.e0123);
    lemma_mul_is_associative(k, a.e1234, b.e0124);
    lemma_mul_is_associative(k, a.e13, b.e01);
    lemma_mul_is_associative(k, a.e14, b.e0134);
    lemma_mul_is_associative(k, a.e23, b.e02);
    lemma_mul_is_associative(k, a.e24, b.e0234);
    lemma_mul_is_associative(k, a.e34, b.e04);
    lemma_mul_is_associative(k, a.s, b.e03);
    lemma_mul_is_associative(k, a.e01, b.e14);
    lemma_mul_is_associative(k, a.e0123, b.e1234);
    lemma_mul_is_associative(k, a.e0124, b.e12);
    lemma_mul_is_associative(k, a.e0134, b.e13);
    lemma_mul_is_associative(k, a.e02, b.e24);
    lemma_mul_is_associative(k, a.e0234, b.e23);
    lemma_mul_is_associative(k, a.e03, b.e34);
    lemma_mul_is_associative(k, a.e04, b.s);
    lemma_mul_is_associative(k, a.e12, b.e0124);
    lemma_mul_is_associative(k, a.e1234, b.e0123);
    lemma_mul_is_associative(k, a.e13, b.e0134);
    lemma_mul_is_associative(k, a.e14, b.e01);
    lemma_mul_is_associative(k, a.e23, b.e0234);
    lemma_mul_is_associative(k, a.e24, b.e02);
    lemma_mul_is_associative(k, a.e34, b.e03);
    lemma_mul_is_associative(k, a.s, b.e04);
    lemma_mul_is_associative(k, a.e12, b.s);
    lemma_mul_is_associative(k, a.e1234, b.e34);
    lemma_mul_is_associative(k, a.e13, b.e23);
    lemma_mul_is_associative(k, a.e14, b.e24);
    lemma_mul_is_associative(k, a.e23, b.e13);
    lemma_mul_is_associative(k, a.e24, b.e14);
    lemma_mul_is_associative(k, a.e34, b.e1234);
    lemma_mul_is_associative(k, a.s, b.e12);
    lemma_mul_is_associative(k, a.e12, b.e23);
    lemma_mul_is_associative(k, a.e1234, b.e24);
    lemma_mul_is_associative(k, a.e13, b.s);
    lemma_mul_is_associative(k, a.e14, b.e34);
    lemma_mul_is_associative(k, a.e23, b.e12);
    lemma_mul_is_associative(k, a.e24, b.e1234);
    lemma_mul_is_associative(k, a.e34, b.e14);
    lemma_mul_is_associative(k, a.s, b.e13);
    lemma_mul_is_associative(k, a.e12, b.e24);
    lemma_mul_is_associative(k, a.e1234, b.e23);
    lemma_mul_is_associative(k, a.e13, b.e34);
    lemma_mul_is_associative(k, a.e14, b.s);
    lemma_mul_is_associative(k, a.e23, b.e1234);
    lemma_mul_is_associative(k, a.e24, b.e12);
    lemma_mul_is_associative(k, a.e34, b.e13);
    lemma_mul_is_associative(k, a.s, b.e14);
    lemma_mul_is_associative(k, a.e12, b.e13);
    lemma_mul_is_associative(k, a.e1234, b.e14);
    lemma_mul_is_associative(k, a.e13, b.e12);
    lemma_mul_is_associative(k, a.e14, b.e1234);
    lemma_mul_is_associative(k, a.e23, b.s);
    lemma_mul_is_associative(k, a.e24, b.e34);
    lemma_mul_is_associative(k, a.e34, b.e24);
    lemma_mul_is_associative(k, a.s, b.e23);
    lemma_mul_is_associative(k, a.e12, b.e14);
    lemma_mul_is_associative(k, a.e1234, b.e13);
    lemma_mul_is_associative(k, a.e13, b.e1234);
    lemma_mul_is_associative(k, a.e14, b.e12);
    lemma_mul_is_associative(k, a.e23, b.e34);
    lemma_mul_is_associative(k, a.e24, b.s);
    lemma_mul_is_associative(k, a.e34, b.e23);
    lemma_mul_is_associative(k, a.s, b.e24);
    lemma_mul_is_associative(k, a.e12, b.e1234);
    lemma_mul_is_associative(k, a.e1234, b.e12);
    lemma_mul_is_associative(k, a.e13, b.e14);
    lemma_mul_is_associative(k, a.e14, b.e13);
    lemma_mul_is_associative(k, a.e23, b.e24);
    lemma_mul_is_associative(k, a.e24, b.e23);
    lemma_mul_is_associative(k, a.e34, b.s);
    lemma_mul_is_associative(k, a.s, b.e34);
    lemma_mul_is_associative(k, a.e01, b.e23);
    lemma_mul_is_associative(k, a.e0123, b.s);
    lemma_mul_is_associative(k, a.e0124, b.e34);
    lemma_mul_is_associative(k, a.e0134, b.e24);
    lemma_mul_is_associative(k, a.e02, b.e13);
    lemma_mul_is_associative(k, a.e0234, b.e14);
    lemma_mul_is_associative(k, a.e03, b.e12);
    lemma_mul_is_associative(k, a.e04, b.e1234);
    lemma_mul_is_associative(k, a.e12, b.e03);
    lemma_mul_is_associative(k, a.e1234, b.e04);
    lemma_mul_is_associative(k, a.e13, b.e02);
    lemma_mul_is_associative(k, a.e14, b.e0234);
    lemma_mul_is_associative(k, a.e23, b.e01);
    lemma_mul_is_associative(k, a.e24, b.e0134);
    lemma_mul_is_associative(k, a.e34, b.e0124);
    lemma_mul_is_associative(k, a.s, b.e0123);
    lemma_mul_is_associative(k, a.e01, b.e24);
    lemma_mul_is_associative(k, a.e0123, b.e34);
    lemma_mul_is_associative(k, a.e0124, b.s);
    lemma_mul_is_associative(k, a.e0134, b.e23);
    lemma_mul_is_associative(k, a.e02, b.e14);
    lemma_mul_is_associative(k, a.e0234, b.e13);
    lemma_mul_is_associative(k, a.e03, b.e1234);
    lemma_mul_is_associative(k, a.e04, b.e12);
    lemma_mul_is_associative(k, a.e12, b.e04);
    lemma_mul_is_associative(k, a.e1234, b.e03);
    lemma_mul_is_associative(k, a.e13, b.e0234);
    lemma_mul_is_associative(k, a.e14, b.e02);
    lemma_mul_is_associative(k, a.e23, b.e0134);
    lemma_mul_is_associative(k, a.e24, b.e01);
    lemma_mul_is_associative(k, a.e34, b.e0123);
    lemma_mul_is_associative(k, a.s, b.e0124);
    lemma_mul_is_associative(k, a.e01, b.e34);
    lemma_mul_is_associative(k, a.e0123, b.e24);
    lemma_mul_is_associative(k, a.e0124, b.e23);
    lemma_mul_is_associative(k, a.e0134, b.s);
    lemma_mul_is_associative(k, a.e02, b.e1234);
    lemma_mul_is_associative(k, a.e0234, b.e12);
    lemma_mul_is_associative(k, a.e03, b.e14);
    lemma_mul_is_associative(k, a.e04, b.e13);
    lemma_mul_is_associative(k, a.e12, b.e0234);
    lemma_mul_is_associative(k, a.e1234, b.e02);
    lemma_mul_is_associative(k, a.e13, b.e04);
    lemma_mul_is_associative(k, a.e14, b.e03);
    lemma_mul_is_associative(k, a.e23, b.e0124);
    lemma_mul_is_associative(k, a.e24, b.e0123);
    lemma_mul_is_associative(k, a.e34, b.e01);
    lemma_mul_is_associative(k, a.s, b.e0134);
    lemma_mul_is_associative(k, a.e01, b.e1234);
    lemma_mul_is_associative(k, a.e0123, b.e14);
    lemma_mul_is_associative(k, a.e0124, b.e13);
    lemma_mul_is_associative(k, a.e0134, b.e12);
    lemma_mul_is_associative(k, a.e02, b.e34);
    lemma_mul_is_associative(k, a.e0234, b.s);
    lemma_mul_is_associative(k, a.e03, b.e24);
    lemma_mul_is_associative(k, a.e04, b.e23);
    lemma_mul_is_associative(k, a.e12, b.e0134);
    lemma_mul_is_associative(k, a.e1234, b.e01);
    lemma_mul_is_associative(k, a.e13, b.e0124);
    lemma_mul_is_associative(k, a.e14, b.e0123);
    lemma_mul_is_associative(k, a.e23, b.e04);
    lemma_mul_is_associative(k, a.e24, b.e03);
    lemma_mul_is_associative(k, a.e34, b.e02);
    lemma_mul_is_associative(k, a.s, b.e0234);
    lemma_mul_is_associative(k, a.e12, b.e34);
    lemma_mul_is_associative(k, a.e1234, b.s);
    lemma_mul_is_associative(k, a.e13, b.e24);
    lemma_mul_is_associative(k, a.e14, b.e23);
    lemma_mul_is_associative(k, a.e23, b.e14);
    lemma_mul_is_associative(k, a.e24, b.e13);
    lemma_mul_is_associative(k, a.e34, b.e12);
    lemma_mul_is_associative(k, a.s, b.e1234);
    crate::assoc::dist_r_p1(k, a.e12 * b.e12, a.e1234 * b.e1234, a.e13 * b.e13, a.e14 * b.e14, a.e23 * b.e23, a.e24 * b.e24, a.e34 * b.e34, a.s * b.s);
    crate::assoc::dist_r_p2(k, a.e01 * b.s, a.e0123 * b.e23, a.e0124 * b.e24, a.e0134 * b.e34, a.e02 * b.e12, a.e0234 * b.e1234, a.e03 * b.e13, a.e04 * b.e14, a.e12 * b.e02, a.e1234 * b.e0234, a.e13 * b.e03, a.e14 * b.e04, a.e23 * b.e0123, a.e24 * b.e0124, a.e34 * b.e0134, a.s * b.e01);
    crate::assoc::dist_r_p3(k, a.e01 * b.e12, a.e0123 * b.e13, a.e0124 * b.e14, a.e0134 * b.e1234, a.e02 * b.s, a.e0234 * b.e34, a.e03 * b.e23, a.e04 * b.e24, a.e12 * b.e01, a.e1234 * b.e0134, a.e13 * b.e0123, a.e14 * b.e0124, a.e23 * b.e03, a.e24 * b.e04, a.e34 * b.e0234, a.s * b.e02);
    crate::assoc::dist_r_p4(k, a.e01 * b.e13, a.e0123 * b.e12, a.e0124 * b.e1234, a.e0134 * b.e14, a.e02 * b.e23, a.e0234 * b.e24, a.e03 * b.s, a.e04 * b.e34, a.e12 * b.e0123, a.e1234 * b.e0124, a.e13 * b.e01, a.e14 * b.e0134, a.e23 * b.e02, a.e24 * b.e0234, a.e34 * b.e04, a.s * b.e03);
    crate::assoc::dist_r_p5(k, a.e01 * b.e14, a.e0123 * b.e1234, a.e0124 * b.e12, a.e0134 * b.e13, a.e02 * b.e24, a.e0234 * b.e23, a.e03 * b.e34, a.e04 * b.s, a.e12 * b.e0124, a.e1234 * b.e0123, a.e13 * b.e0134, a.e14 * b.e01, a.e23 * b.e0234, a.e24 * b.e02, a.e34 * b.e03, a.s * b.e04);
    crate::assoc::dist_r_p6(k, a.e12 * b.s, a.e1234 * b.e34, a.e13 * b.e23, a.e14 * b.e24, a.e23 * b.e13, a.e24 * b.e14, a.e34 * b.e1234, a.s * b.e12);
    crate::assoc::dist_r_p7(k, a.e12 * b.e23, a.e1234 * b.e24, a.e13 * b.s, a.e14 * b.e34, a.e23 * b.e12, a.e24 * b.e1234, a.e34 * b.e14, a.s * b.e13);
    crate::assoc::dist_r_p8(k, a.e12 * b.e24, a.e1234 * b.e23, a.e13 * b.e34, a.e14 * b.s, a.e23 * b.e1234, a.e24 * b.e12, a.e34 * b.e13, a.s * b.e14);
    crate::assoc::dist_r_p9(k, a.e12 * b.e13, a.e1234 * b.e14, a.e13 * b.e12, a.e14 * b.e1234, a.e23 * b.s, a.e24 * b.e34, a.e34 * b.e24, a.s * b.e23);
    crate::assoc::dist_r_p10(k, a.e12 * b.e14, a.e1234 * b.e13, a.e13 * b.e1234, a.e14 * b.e12, a.e23 * b.e34, a.e24 * b.s, a.e34 * b.e23, a.s * b.e24);
    crate::assoc::dist_r_p11(k, a.e12 * b.e1234, a.e1234 * b.e12, a.e13 * b.e14, a.e14 * b.e13, a.e23 * b.e24, a.e24 * b.e23, a.e34 * b.s, a.s * b.e34);
    crate::assoc::dist_r_p12(k, a.e01 * b.e23, a.e0123 * b.s, a.e0124 * b.e34, a.e0134 * b.e24, a.e02 * b.e13, a.e0234 * b.e14, a.e03 * b.e12, a.e04 * b.e1234, a.e12 * b.e03, a.e1234 * b.e04, a.e13 * b.e02, a.e14 * b.e0234, a.e23 * b.e01, a.e24 * b.e0134, a.e34 * b.e0124, a.s * b.e0123);
    crate::assoc::dist_r_p13(k, a.e01 * b.e24, a.e0123 * b.e34, a.e0124 * b.s, a.e0134 * b.e23, a.e02 * b.e14, a.e0234 * b.e13, a.e03 * b.e1234, a.e04 * b.e12, a.e12 * b.e04, a.e1234 * b.e03, a.e13 * b.e0234, a.e14 * b.e02, a.e23 * b.e0134, a.e24 * b.e01, a.e34 * b.e0123, a.s * b.e0124);
    crate::assoc::dist_r_p14(k, a.e01 * b.e34, a.e0123 * b.e24, a.e0124 * b.e23, a.e0134 * b.s, a.e02 * b.e1234, a.e0234 * b.e12, a.e03 * b.e14, a.e04 * b.e13, a.e12 * b.e0234, a.e1234 * b.e02, a.e13 * b.e04, a.e14 * b.e03, a.e23 * b.e0124, a.e24 * b.e0123, a.e34 * b.e01, a.s * b.e0134);
    crate::assoc::dist_r_p15(k, a.e01 * b.e1234, a.e0123 * b.e14, a.e0124 * b.e13, a.e0134 * b.e12, a.e02 * b.e34, a.e0234 * b.s, a.e03 * b.e24, a.e04 * b.e23, a.e12 * b.e0134, a.e1234 * b.e01, a.e13 * b.e0124, a.e14 * b.e0123, a.e23 * b.e04, a.e24 * b.e03, a.e34 * b.e02, a.s * b.e0234);
    crate::assoc::dist_r_p16(k, a.e12 * b.e34, a.e1234 * b.s, a.e13 * b.e24, a.e14 * b.e23, a.e23 * b.e14, a.e24 * b.e13, a.e34 * b.e12, a.s * b.e1234);
}

/// Magnitude is multiplicative over composition of rigid motions, and the
/// rigid-motion shape is itself closed under composition.
pub proof fn lemma_compose_magnitude(a: RotorModel, b: RotorModel)
    requires
        is_proper(a),
        is_proper(b),
    ensures
        spec_mag2_num(spec_compose(a, b)) == spec_mag2_num(a) * spec_mag2_num(b),
        is_proper(spec_compose(a, b)),
{
    let ab = spec_compose(a, b);
    let ra = spec_compose(spec_reverse(a), a);
    let rb = spec_compose(spec_reverse(b), b);
    lemma_rev_prod_structure(a);
    lemma_rev_prod_structure(b);
    lemma_rev_prod_structure(ab);
    // reverse(ab) (ab) == reverse(b) ((reverse(a) a) b)
    lemma_reverse_compose(a, b);
    lemma_compose_assoc(spec_reverse(b), spec_reverse(a), ab);
    lemma_compose_assoc(spec_reverse(a), a, b);
    lemma_compose_scalar_left(ra, b);
    let rab = spec_compose(ra, b);
    lemma_compose_scale_right(spec_reverse(b), b, ra.s, rab);
    lemma_mul_basics(ra.s);
    assert(spec_mag2_num(ab) == spec_mag2_num(a) * spec_mag2_num(b));

    // the mirrored product: (ab) reverse(ab) == (a (b reverse(b))) reverse(a)
    let pa = spec_compose(a, spec_reverse(a));
    let pb = spec_compose(b, spec_reverse(b));
    lemma_prod_rev_structure(a);
    lemma_prod_rev_structure(b);
    lemma_prod_rev_structure(ab);
    lemma_compose_assoc(ab, spec_reverse(b), spec_reverse(a));
    lemma_compose_assoc(a, b, spec_reverse(b));
    lemma_compose_scalar_right(a, pb);
    let apb = spec_compose(a, pb);
    lemma_compose_scale_left(a, spec_reverse(a), pb.s, apb);
    lemma_mul_basics(pb.s);
}

/// Composing two unit rigid motions yields a unit rigid motion.
pub proof fn lemma_compose_unit(a: RotorModel, b: RotorModel)
    requires
        is_proper(a),
        is_proper(b),
        is_unit(a),
        is_unit(b),
    ensures
        is_unit(spec_compose(a, b)),
        is_proper(spec_compose(a, b)),
{
    lemma_compose_magnitude(a, b);
    assert((a.den * a.den) * (b.den * b.den) == (a.den * b.den) * (a.den * b.den))
        by (nonlinear_arith);
}

} // verus!
