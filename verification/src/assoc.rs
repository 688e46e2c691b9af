//! Associativity of the geometric product, proved by expanding each
//! coefficient of a triple product into its canonical trilinear monomials.
//!
//! The two sides of `(a b) c == a (b c)` are expanded row by row: a row of
//! the product table is distributed over the remaining factor by a lemma
//! whose terms are opaque, which keeps every solver query small, and the
//! right-hand expansions are re-associated monomial by monomial. Both sides
//! land on the same signed sum of `a.i * b.j * c.k` monomials.

use vstd::prelude::*;

use vstd::arithmetic::mul::lemma_mul_is_associative;

use crate::rotor::RotorModel;
use crate::rotor::spec_compose;

verus! {

/// Distributes a signed 8-term sum over a right factor.
pub(crate) proof fn dist_l_p1(u1: int, u2: int, u3: int, u4: int, u5: int, u6: int, u7: int, u8: int, z: int)
    ensures
        (-(u1) + u2 - u3 - u4 - u5 - u6 - u7 + u8) * z == -(u1 * z) + u2 * z - u3 * z - u4 * z - u5 * z - u6 * z - u7 * z + u8 * z,
{
    assert((-(u1) + u2 - u3 - u4 - u5 - u6 - u7 + u8) * z == -(u1 * z) + u2 * z - u3 * z - u4 * z - u5 * z - u6 * z - u7 * z + u8 * z) by (nonlinear_arith);
}

/// Distributes a left factor over a signed 8-term sum.
pub(crate) proof fn dist_r_p1(x: int, u1: int, u2: int, u3: int, u4: int, u5: int, u6: int, u7: int, u8: int)
    ensures
        x * (-(u1) + u2 - u3 - u4 - u5 - u6 - u7 + u8) == -(x * u1) + x * u2 - x * u3 - x * u4 - x * u5 - x * u6 - x * u7 + x * u8,
{
    assert(x * (-(u1) + u2 - u3 - u4 - u5 - u6 - u7 + u8) == -(x * u1) + x * u2 - x * u3 - x * u4 - x * u5 - x * u6 - x * u7 + x * u8) by (nonlinear_arith);
}

/// Distributes a signed 16-term sum over a right factor.
pub(crate) proof fn dist_l_p2(u1: int, u2: int, u3: int, u4: int, u5: int, u6: int, u7: int, u8: int, u9: int, u10: int, u11: int, u12: int, u13: int, u14: int, u15: int, u16: int, z: int)
    ensures
        (u1 - u2 - u3 - u4 - u5 + u6 - u7 - u8 + u9 - u10 + u11 + u12 - u13 - u14 - u15 + u16) * z == u1 * z - u2 * z - u3 * z - u4 * z - u5 * z + u6 * z - u7 * z - u8 * z + u9 * z - u10 * z + u11 * z + u12 * z - u13 * z - u14 * z - u15 * z + u16 * z,
{
    assert((u1 - u2 - u3 - u4 - u5 + u6 - u7 - u8 + u9 - u10 + u11 + u12 - u13 - u14 - u15 + u16) * z == u1 * z - u2 * z - u3 * z - u4 * z - u5 * z + u6 * z - u7 * z - u8 * z + u9 * z - u10 * z + u11 * z + u12 * z - u13 * z - u14 * z - u15 * z + u16 * z) by (nonlinear_arith);
}

/// Distributes a left factor over a signed 16-term sum.
pub(crate) proof fn dist_r_p2(x: int, u1: int, u2: int, u3: int, u4: int, u5: int, u6: int, u7: int, u8: int, u9: int, u10: int, u11: int, u12: int, u13: int, u14: int, u15: int, u16: int)
    ensures
        x * (u1 - u2 - u3 - u4 - u5 + u6 - u7 - u8 + u9 - u10 + u11 + u12 - u13 - u14 - u15 + u16) == x * u1 - x * u2 - x * u3 - x * u4 - x * u5 + x * u6 - x * u7 - x * u8 + x * u9 - x * u10 + x * u11 + x * u12 - x * u13 - x * u14 - x * u15 + x * u16,
{
    assert(x * (u1 - u2 - u3 - u4 - u5 + u6 - u7 - u8 + u9 - u10 + u11 + u12 - u13 - u14 - u15 + u16) == x * u1 - x * u2 - x * u3 - x * u4 - x * u5 + x * u6 - x * u7 - x * u8 + x * u9 - x * u10 + x * u11 + x * u12 - x * u13 - x * u14 - x * u15 + x * u16) by (nonlinear_arith);
}

/// Distributes a signed 16-term sum over a right factor.
pub(crate) proof fn dist_l_p3(u1: int, u2: int, u3: int, u4: int, u5: int, u6: int, u7: int, u8: int, u9: int, u10: int, u11: int, u12: int, u13: int, u14: int, u15: int, u16: int, z: int)
    ensures
        (u1 + u2 + u3 - u4 + u5 - u6 - u7 - u8 - u9 + u10 + u11 + u12 + u13 + u14 - u15 + u16) * z == u1 * z + u2 * z + u3 * z - u4 * z + u5 * z - u6 * z - u7 * z - u8 * z - u9 * z + u10 * z + u11 * z + u12 * z + u13 * z + u14 * z - u15 * z + u16 * z,
{
    assert((u1 + u2 + u3 - u4 + u5 - u6 - u7 - u8 - u9 + u10 + u11 + u12 + u13 + u14 - u15 + u16) * z == u1 * z + u2 * z + u3 * z - u4 * z + u5 * z - u6 * z - u7 * z - u8 * z - u9 * z + u10 * z + u11 * z + u12 * z + u13 * z + u14 * z - u15 * z + u16 * z) by (nonlinear_arith);
}

/// Distributes a left factor over a signed 16-term sum.
pub(crate) proof fn dist_r_p3(x: int, u1: int, u2: int, u3: int, u4: int, u5: int, u6: int, u7: int, u8: int, u9: int, u10: int, u11: int, u12: int, u13: int, u14: int, u15: int, u16: int)
    ensures
        x * (u1 + u2 + u3 - u4 + u5 - u6 - u7 - u8 - u9 + u10 + u11 + u12 + u13 + u14 - u15 + u16) == x * u1 + x * u2 + x * u3 - x * u4 + x * u5 - x * u6 - x * u7 - x * u8 - x * u9 + x * u10 + x * u11 + x * u12 + x * u13 + x * u14 - x * u15 + x * u16,
{
    assert(x * (u1 + u2 + u3 - u4 + u5 - u6 - u7 - u8 - u9 + u10 + u11 + u12 + u13 + u14 - u15 + u16) == x * u1 + x * u2 + x * u3 - x * u4 + x * u5 - x * u6 - x * u7 - x * u8 - x * u9 + x * u10 + x * u11 + x * u12 + x * u13 + x * u14 - x * u15 + x * u16) by (nonlinear_arith);
}

/// Distributes a signed 16-term sum over a right factor.
pub(crate) proof fn dist_l_p4(u1: int, u2: int, u3: int, u4: int, u5: int, u6: int, u7: int, u8: int, u9: int, u10: int, u11: int, u12: int, u13: int, u14: int, u15: int, u16: int, z: int)
    ensures
        (u1 - u2 + u3 + u4 + u5 + u6 + u7 - u8 - u9 - u10 - u11 + u12 - u13 + u14 + u15 + u16) * z == u1 * z - u2 * z + u3 * z + u4 * z + u5 * z + u6 * z + u7 * z - u8 * z - u9 * z - u10 * z - u11 * z + u12 * z - u13 * z + u14 * z + u15 * z + u16 * z,
{
    assert((u1 - u2 + u3 + u4 + u5 + u6 + u7 - u8 - u9 - u10 - u11 + u12 - u13 + u14 + u15 + u16) * z == u1 * z - u2 * z + u3 * z + u4 * z + u5 * z + u6 * z + u7 * z - u8 * z - u9 * z - u10 * z - u11 * z + u12 * z - u13 * z + u14 * z + u15 * z + u16 * z) by (nonlinear_arith);
}

/// Distributes a left factor over a signed 16-term sum.
pub(crate) proof fn dist_r_p4(x: int, u1: int, u2: int, u3: int, u4: int, u5: int, u6: int, u7: int, u8: int, u9: int, u10: int, u11: int, u12: int, u13: int, u14: int, u15: int, u16: int)
    ensures
        x * (u1 - u2 + u3 + u4 + u5 + u6 + u7 - u8 - u9 - u10 - u11 + u12 - u13 + u14 + u15 + u16) == x * u1 - x * u2 + x * u3 + x * u4 + x * u5 + x * u6 + x * u7 - x * u8 - x * u9 - x * u10 - x * u11 + x * u12 - x * u13 + x * u14 + x * u15 + x * u16,
{
    assert(x * (u1 - u2 + u3 + u4 + u5 + u6 + u7 - u8 - u9 - u10 - u11 + u12 - u13 + u14 + u15 + u16) == x * u1 - x * u2 + x * u3 + x * u4 + x * u5 + x * u6 + x * u7 - x * u8 - x * u9 - x * u10 - x * u11 + x * u12 - x * u13 + x * u14 + x * u15 + x * u16) by (nonlinear_arith);
}

/// Distributes a signed 16-term sum over a right factor.
pub(crate) proof fn dist_l_p5(u1: int, u2: int, u3: int, u4: int, u5: int, u6: int, u7: int, u8: int, u9: int, u10: int, u11: int, u12: int, u13: int, u14: int, u15: int, u16: int, z: int)
    ensures
        (u1 - u2 - u3 - u4 + u5 - u6 + u7 + u8 - u9 + u10 - u11 - u12 - u13 - u14 - u15 + u16) * z == u1 * z - u2 * z - u3 * z - u4 * z + u5 * z - u6 * z + u7 * z + u8 * z - u9 * z + u10 * z - u11 * z - u12 * z - u13 * z - u14 * z - u15 * z + u16 * z,
{
    assert((u1 - u2 - u3 - u4 + u5 - u6 + u7 + u8 - u9 + u10 - u11 - u12 - u13 - u14 - u15 + u16) * z == u1 * z - u2 * z - u3 * z - u4 * z + u5 * z - u6 * z + u7 * z + u8 * z - u9 * z + u10 * z - u11 * z - u12 * z - u13 * z - u14 * z - u15 * z + u16 * z) by (nonlinear_arith);
}

/// Distributes a left factor over a signed 16-term sum.
pub(crate) proof fn dist_r_p5(x: int, u1: int, u2: int, u3: int, u4: int, u5: int, u6: int, u7: int, u8: int, u9: int, u10: int, u11: int, u12: int, u13: int, u14: int, u15: int, u16: int)
    ensures
        x * (u1 - u2 - u3 - u4 + u5 - u6 + u7 + u8 - u9 + u10 - u11 - u12 - u13 - u14 - u15 + u16) == x * u1 - x * u2 - x * u3 - x * u4 + x * u5 - x * u6 + x * u7 + x * u8 - x * u9 + x * u10 - x * u11 - x * u12 - x * u13 - x * u14 - x * u15 + x * u16,
{
    assert(x * (u1 - u2 - u3 - u4 + u5 - u6 + u7 + u8 - u9 + u10 - u11 - u12 - u13 - u14 - u15 + u16) == x * u1 - x * u2 - x * u3 - x * u4 + x * u5 - x * u6 + x * u7 + x * u8 - x * u9 + x * u10 - x * u11 - x * u12 - x * u13 - x * u14 - x * u15 + x * u16) by (nonlinear_arith);
}

/// Distributes a signed 8-term sum over a right factor.
pub(crate) proof fn dist_l_p6(u1: int, u2: int, u3: int, u4: int, u5: int, u6: int, u7: int, u8: int, z: int)
    ensures
        (u1 - u2 - u3 - u4 + u5 + u6 - u7 + u8) * z == u1 * z - u2 * z - u3 * z - u4 * z + u5 * z + u6 * z - u7 * z + u8 * z,
{
    assert((u1 - u2 - u3 - u4 + u5 + u6 - u7 + u8) * z == u1 * z - u2 * z - u3 * z - u4 * z + u5 * z + u6 * z - u7 * z + u8 * z) by (nonlinear_arith);
}

/// Distributes a left factor over a signed 8-term sum.
pub(crate) proof fn dist_r_p6(x: int, u1: int, u2: int, u3: int, u4: int, u5: int, u6: int, u7: int, u8: int)
    ensures
        x * (u1 - u2 - u3 - u4 + u5 + u6 - u7 + u8) == x * u1 - x * u2 - x * u3 - x * u4 + x * u5 + x * u6 - x * u7 + x * u8,
{
    assert(x * (u1 - u2 - u3 - u4 + u5 + u6 - u7 + u8) == x * u1 - x * u2 - x * u3 - x * u4 + x * u5 + x * u6 - x * u7 + x * u8) by (nonlinear_arith);
}

/// Distributes a signed 8-term sum over a right factor.
pub(crate) proof fn dist_l_p7(u1: int, u2: int, u3: int, u4: int, u5: int, u6: int, u7: int, u8: int, z: int)
    ensures
        (u1 + u2 + u3 - u4 - u5 + u6 + u7 + u8) * z == u1 * z + u2 * z + u3 * z - u4 * z - u5 * z + u6 * z + u7 * z + u8 * z,
{
    assert((u1 + u2 + u3 - u4 - u5 + u6 + u7 + u8) * z == u1 * z + u2 * z + u3 * z - u4 * z - u5 * z + u6 * z + u7 * z + u8 * z) by (nonlinear_arith);
}

/// Distributes a left factor over a signed 8-term sum.
pub(crate) proof fn dist_r_p7(x: int, u1: int, u2: int, u3: int, u4: int, u5: int, u6: int, u7: int, u8: int)
    ensures
        x * (u1 + u2 + u3 - u4 - u5 + u6 + u7 + u8) == x * u1 + x * u2 + x * u3 - x * u4 - x * u5 + x * u6 + x * u7 + x * u8,
{
    assert(x * (u1 + u2 + u3 - u4 - u5 + u6 + u7 + u8) == x * u1 + x * u2 + x * u3 - x * u4 - x * u5 + x * u6 + x * u7 + x * u8) by (nonlinear_arith);
}

/// Distributes a signed 8-term sum over a right factor.
pub(crate) proof fn dist_l_p8(u1: int, u2: int, u3: int, u4: int, u5: int, u6: int, u7: int, u8: int, z: int)
    ensures
        (u1 - u2 + u3 + u4 - u5 - u6 - u7 + u8) * z == u1 * z - u2 * z + u3 * z + u4 * z - u5 * z - u6 * z - u7 * z + u8 * z,
{
    assert((u1 - u2 + u3 + u4 - u5 - u6 - u7 + u8) * z == u1 * z - u2 * z + u3 * z + u4 * z - u5 * z - u6 * z - u7 * z + u8 * z) by (nonlinear_arith);
}

/// Distributes a left factor over a signed 8-term sum.
pub(crate) proof fn dist_r_p8(x: int, u1: int, u2: int, u3: int, u4: int, u5: int, u6: int, u7: int, u8: int)
    ensures
        x * (u1 - u2 + u3 + u4 - u5 - u6 - u7 + u8) == x * u1 - x * u2 + x * u3 + x * u4 - x * u5 - x * u6 - x * u7 + x * u8,
{
    assert(x * (u1 - u2 + u3 + u4 - u5 - u6 - u7 + u8) == x * u1 - x * u2 + x * u3 + x * u4 - x * u5 - x * u6 - x * u7 + x * u8) by (nonlinear_arith);
}

/// Distributes a signed 8-term sum over a right factor.
pub(crate) proof fn dist_l_p9(u1: int, u2: int, u3: int, u4: int, u5: int, u6: int, u7: int, u8: int, z: int)
    ensures
        (-(u1) - u2 + u3 - u4 + u5 - u6 + u7 + u8) * z == -(u1 * z) - u2 * z + u3 * z - u4 * z + u5 * z - u6 * z + u7 * z + u8 * z,
{
    assert((-(u1) - u2 + u3 - u4 + u5 - u6 + u7 + u8) * z == -(u1 * z) - u2 * z + u3 * z - u4 * z + u5 * z - u6 * z + u7 * z + u8 * z) by (nonlinear_arith);
}

/// Distributes a left factor over a signed 8-term sum.
pub(crate) proof fn dist_r_p9(x: int, u1: int, u2: int, u3: int, u4: int, u5: int, u6: int, u7: int, u8: int)
    ensures
        x * (-(u1) - u2 + u3 - u4 + u5 - u6 + u7 + u8) == -(x * u1) - x * u2 + x * u3 - x * u4 + x * u5 - x * u6 + x * u7 + x * u8,
{
    assert(x * (-(u1) - u2 + u3 - u4 + u5 - u6 + u7 + u8) == -(x * u1) - x * u2 + x * u3 - x * u4 + x * u5 - x * u6 + x * u7 + x * u8) by (nonlinear_arith);
}

/// Distributes a signed 8-term sum over a right factor.
pub(crate) proof fn dist_l_p10(u1: int, u2: int, u3: int, u4: int, u5: int, u6: int, u7: int, u8: int, z: int)
    ensures
        (-(u1) + u2 + u3 + u4 + u5 + u6 - u7 + u8) * z == -(u1 * z) + u2 * z + u3 * z + u4 * z + u5 * z + u6 * z - u7 * z + u8 * z,
{
    assert((-(u1) + u2 + u3 + u4 + u5 + u6 - u7 + u8) * z == -(u1 * z) + u2 * z + u3 * z + u4 * z + u5 * z + u6 * z - u7 * z + u8 * z) by (nonlinear_arith);
}

/// Distributes a left factor over a signed 8-term sum.
pub(crate) proof fn dist_r_p10(x: int, u1: int, u2: int, u3: int, u4: int, u5: int, u6: int, u7: int, u8: int)
    ensures
        x * (-(u1) + u2 + u3 + u4 + u5 + u6 - u7 + u8) == -(x * u1) + x * u2 + x * u3 + x * u4 + x * u5 + x * u6 - x * u7 + x * u8,
{
    assert(x * (-(u1) + u2 + u3 + u4 + u5 + u6 - u7 + u8) == -(x * u1) + x * u2 + x * u3 + x * u4 + x * u5 + x * u6 - x * u7 + x * u8) by (nonlinear_arith);
}

/// Distributes a signed 8-term sum over a right factor.
pub(crate) proof fn dist_l_p11(u1: int, u2: int, u3: int, u4: int, u5: int, u6: int, u7: int, u8: int, z: int)
    ensures
        (-(u1) - u2 - u3 + u4 - u5 + u6 + u7 + u8) * z == -(u1 * z) - u2 * z - u3 * z + u4 * z - u5 * z + u6 * z + u7 * z + u8 * z,
{
    assert((-(u1) - u2 - u3 + u4 - u5 + u6 + u7 + u8) * z == -(u1 * z) - u2 * z - u3 * z + u4 * z - u5 * z + u6 * z + u7 * z + u8 * z) by (nonlinear_arith);
}

/// Distributes a left factor over a signed 8-term sum.
pub(crate) proof fn dist_r_p11(x: int, u1: int, u2: int, u3: int, u4: int, u5: int, u6: int, u7: int, u8: int)
    ensures
        x * (-(u1) - u2 - u3 + u4 - u5 + u6 + u7 + u8) == -(x * u1) - x * u2 - x * u3 + x * u4 - x * u5 + x * u6 + x * u7 + x * u8,
{
    assert(x * (-(u1) - u2 - u3 + u4 - u5 + u6 + u7 + u8) == -(x * u1) - x * u2 - x * u3 + x * u4 - x * u5 + x * u6 + x * u7 + x * u8) by (nonlinear_arith);
}

/// Distributes a signed 16-term sum over a right factor.
pub(crate) proof fn dist_l_p12(u1: int, u2: int, u3: int, u4: int, u5: int, u6: int, u7: int, u8: int, u9: int, u10: int, u11: int, u12: int, u13: int, u14: int, u15: int, u16: int, z: int)
    ensures
        (u1 + u2 - u3 + u4 - u5 - u6 + u7 - u8 + u9 + u10 - u11 + u12 + u13 - u14 + u15 + u16) * z == u1 * z + u2 * z - u3 * z + u4 * z - u5 * z - u6 * z + u7 * z - u8 * z + u9 * z + u10 * z - u11 * z + u12 * z + u13 * z - u14 * z + u15 * z + u16 * z,
{
    assert((u1 + u2 - u3 + u4 - u5 - u6 + u7 - u8 + u9 + u10 - u11 + u12 + u13 - u14 + u15 + u16) * z == u1 * z + u2 * z - u3 * z + u4 * z - u5 * z - u6 * z + u7 * z - u8 * z + u9 * z + u10 * z - u11 * z + u12 * z + u13 * z - u14 * z + u15 * z + u16 * z) by (nonlinear_arith);
}

/// Distributes a left factor over a signed 16-term sum.
pub(crate) proof fn dist_r_p12(x: int, u1: int, u2: int, u3: int, u4: int, u5: int, u6: int, u7: int, u8: int, u9: int, u10: int, u11: int, u12: int, u13: int, u14: int, u15: int, u16: int)
    ensures
        x * (u1 + u2 - u3 + u4 - u5 - u6 + u7 - u8 + u9 + u10 - u11 + u12 + u13 - u14 + u15 + u16) == x * u1 + x * u2 - x * u3 + x * u4 - x * u5 - x * u6 + x * u7 - x * u8 + x * u9 + x * u10 - x * u11 + x * u12 + x * u13 - x * u14 + x * u15 + x * u16,
{
    assert(x * (u1 + u2 - u3 + u4 - u5 - u6 + u7 - u8 + u9 + u10 - u11 + u12 + u13 - u14 + u15 + u16) == x * u1 + x * u2 - x * u3 + x * u4 - x * u5 - x * u6 + x * u7 - x * u8 + x * u9 + x * u10 - x * u11 + x * u12 + x * u13 - x * u14 + x * u15 + x * u16) by (nonlinear_arith);
}

/// Distributes a signed 16-term sum over a right factor.
pub(crate) proof fn dist_l_p13(u1: int, u2: int, u3: int, u4: int, u5: int, u6: int, u7: int, u8: int, u9: int, u10: int, u11: int, u12: int, u13: int, u14: int, u15: int, u16: int, z: int)
    ensures
        (u1 + u2 + u3 - u4 - u5 + u6 + u7 + u8 + u9 - u10 - u11 - u12 + u13 + u14 - u15 + u16) * z == u1 * z + u2 * z + u3 * z - u4 * z - u5 * z + u6 * z + u7 * z + u8 * z + u9 * z - u10 * z - u11 * z - u12 * z + u13 * z + u14 * z - u15 * z + u16 * z,
{
    assert((u1 + u2 + u3 - u4 - u5 + u6 + u7 + u8 + u9 - u10 - u11 - u12 + u13 + u14 - u15 + u16) * z == u1 * z + u2 * z + u3 * z - u4 * z - u5 * z + u6 * z + u7 * z + u8 * z + u9 * z - u10 * z - u11 * z - u12 * z + u13 * z + u14 * z - u15 * z + u16 * z) by (nonlinear_arith);
}

/// Distributes a left factor over a signed 16-term sum.
pub(crate) proof fn dist_r_p13(x: int, u1: int, u2: int, u3: int, u4: int, u5: int, u6: int, u7: int, u8: int, u9: int, u10: int, u11: int, u12: int, u13: int, u14: int, u15: int, u16: int)
    ensures
        x * (u1 + u2 + u3 - u4 - u5 + u6 + u7 + u8 + u9 - u10 - u11 - u12 + u13 + u14 - u15 + u16) == x * u1 + x * u2 + x * u3 - x * u4 - x * u5 + x * u6 + x * u7 + x * u8 + x * u9 - x * u10 - x * u11 - x * u12 + x * u13 + x * u14 - x * u15 + x * u16,
{
    assert(x * (u1 + u2 + u3 - u4 - u5 + u6 + u7 + u8 + u9 - u10 - u11 - u12 + u13 + u14 - u15 + u16) == x * u1 + x * u2 + x * u3 - x * u4 - x * u5 + x * u6 + x * u7 + x * u8 + x * u9 - x * u10 - x * u11 - x * u12 + x * u13 + x * u14 - x * u15 + x * u16) by (nonlinear_arith);
}

/// Distributes a signed 16-term sum over a right factor.
pub(crate) proof fn dist_l_p14(u1: int, u2: int, u3: int, u4: int, u5: int, u6: int, u7: int, u8: int, u9: int, u10: int, u11: int, u12: int, u13: int, u14: int, u15: int, u16: int, z: int)
    ensures
        (u1 - u2 + u3 + u4 - u5 - u6 - u7 + u8 + u9 + u10 + u11 - u12 - u13 + u14 + u15 + u16) * z == u1 * z - u2 * z + u3 * z + u4 * z - u5 * z - u6 * z - u7 * z + u8 * z + u9 * z + u10 * z + u11 * z - u12 * z - u13 * z + u14 * z + u15 * z + u16 * z,
{
    assert((u1 - u2 + u3 + u4 - u5 - u6 - u7 + u8 + u9 + u10 + u11 - u12 - u13 + u14 + u15 + u16) * z == u1 * z - u2 * z + u3 * z + u4 * z - u5 * z - u6 * z - u7 * z + u8 * z + u9 * z + u10 * z + u11 * z - u12 * z - u13 * z + u14 * z + u15 * z + u16 * z) by (nonlinear_arith);
}

/// Distributes a left factor over a signed 16-term sum.
pub(crate) proof fn dist_r_p14(x: int, u1: int, u2: int, u3: int, u4: int, u5: int, u6: int, u7: int, u8: int, u9: int, u10: int, u11: int, u12: int, u13: int, u14: int, u15: int, u16: int)
    ensures
        x * (u1 - u2 + u3 + u4 - u5 - u6 - u7 + u8 + u9 + u10 + u11 - u12 - u13 + u14 + u15 + u16) == x * u1 - x * u2 + x * u3 + x * u4 - x * u5 - x * u6 - x * u7 + x * u8 + x * u9 + x * u10 + x * u11 - x * u12 - x * u13 + x * u14 + x * u15 + x * u16,
{
    assert(x * (u1 - u2 + u3 + u4 - u5 - u6 - u7 + u8 + u9 + u10 + u11 - u12 - u13 + u14 + u15 + u16) == x * u1 - x * u2 + x * u3 + x * u4 - x * u5 - x * u6 - x * u7 + x * u8 + x * u9 + x * u10 + x * u11 - x * u12 - x * u13 + x * u14 + x * u15 + x * u16) by (nonlinear_arith);
}

/// Distributes a signed 16-term sum over a right factor.
pub(crate) proof fn dist_l_p15(u1: int, u2: int, u3: int, u4: int, u5: int, u6: int, u7: int, u8: int, u9: int, u10: int, u11: int, u12: int, u13: int, u14: int, u15: int, u16: int, z: int)
    ensures
        (u1 + u2 - u3 + u4 + u5 + u6 - u7 + u8 - u9 - u10 + u11 - u12 + u13 - u14 + u15 + u16) * z == u1 * z + u2 * z - u3 * z + u4 * z + u5 * z + u6 * z - u7 * z + u8 * z - u9 * z - u10 * z + u11 * z - u12 * z + u13 * z - u14 * z + u15 * z + u16 * z,
{
    assert((u1 + u2 - u3 + u4 + u5 + u6 - u7 + u8 - u9 - u10 + u11 - u12 + u13 - u14 + u15 + u16) * z == u1 * z + u2 * z - u3 * z + u4 * z + u5 * z + u6 * z - u7 * z + u8 * z - u9 * z - u10 * z + u11 * z - u12 * z + u13 * z - u14 * z + u15 * z + u16 * z) by (nonlinear_arith);
}

/// Distributes a left factor over a signed 16-term sum.
pub(crate) proof fn dist_r_p15(x: int, u1: int, u2: int, u3: int, u4: int, u5: int, u6: int, u7: int, u8: int, u9: int, u10: int, u11: int, u12: int, u13: int, u14: int, u15: int, u16: int)
    ensures
        x * (u1 + u2 - u3 + u4 + u5 + u6 - u7 + u8 - u9 - u10 + u11 - u12 + u13 - u14 + u15 + u16) == x * u1 + x * u2 - x * u3 + x * u4 + x * u5 + x * u6 - x * u7 + x * u8 - x * u9 - x * u10 + x * u11 - x * u12 + x * u13 - x * u14 + x * u15 + x * u16,
{
    assert(x * (u1 + u2 - u3 + u4 + u5 + u6 - u7 + u8 - u9 - u10 + u11 - u12 + u13 - u14 + u15 + u16) == x * u1 + x * u2 - x * u3 + x * u4 + x * u5 + x * u6 - x * u7 + x * u8 - x * u9 - x * u10 + x * u11 - x * u12 + x * u13 - x * u14 + x * u15 + x * u16) by (nonlinear_arith);
}

/// Distributes a signed 8-term sum over a right factor.
pub(crate) proof fn dist_l_p16(u1: int, u2: int, u3: int, u4: int, u5: int, u6: int, u7: int, u8: int, z: int)
    ensures
        (u1 + u2 - u3 + u4 + u5 - u6 + u7 + u8) * z == u1 * z + u2 * z - u3 * z + u4 * z + u5 * z - u6 * z + u7 * z + u8 * z,
{
    assert((u1 + u2 - u3 + u4 + u5 - u6 + u7 + u8) * z == u1 * z + u2 * z - u3 * z + u4 * z + u5 * z - u6 * z + u7 * z + u8 * z) by (nonlinear_arith);
}

/// Distributes a left factor over a signed 8-term sum.
pub(crate) proof fn dist_r_p16(x: int, u1: int, u2: int, u3: int, u4: int, u5: int, u6: int, u7: int, u8: int)
    ensures
        x * (u1 + u2 - u3 + u4 + u5 - u6 + u7 + u8) == x * u1 + x * u2 - x * u3 + x * u4 + x * u5 - x * u6 + x * u7 + x * u8,
{
    assert(x * (u1 + u2 - u3 + u4 + u5 - u6 + u7 + u8) == x * u1 + x * u2 - x * u3 + x * u4 + x * u5 - x * u6 + x * u7 + x * u8) by (nonlinear_arith);
}

/// The `s` row of a product, times a factor, in expanded form.
proof fn row_l_s(a: RotorModel, b: RotorModel, z: int)
    ensures
        (-(a.e12 * b.e12) + a.e1234 * b.e1234 - a.e13 * b.e13 - a.e14 * b.e14 - a.e23 * b.e23 - a.e24 * b.e24 - a.e34 * b.e34 + a.s * b.s) * z == -(a.e12 * b.e12 * z) + a.e1234 * b.e1234 * z - a.e13 * b.e13 * z - a.e14 * b.e14 * z - a.e23 * b.e23 * z - a.e24 * b.e24 * z - a.e34 * b.e34 * z + a.s * b.s * z,
{
    dist_l_p1(a.e12 * b.e12, a.e1234 * b.e1234, a.e13 * b.e13, a.e14 * b.e14, a.e23 * b.e23, a.e24 * b.e24, a.e34 * b.e34, a.s * b.s, z);
}

/// A factor times the `s` row of a product, in expanded form.
proof fn row_r_s(x: int, b: RotorModel, c: RotorModel)
    ensures
        x * (-(b.e12 * c.e12) + b.e1234 * c.e1234 - b.e13 * c.e13 - b.e14 * c.e14 - b.e23 * c.e23 - b.e24 * c.e24 - b.e34 * c.e34 + b.s * c.s) == -(x * b.e12 * c.e12) + x * b.e1234 * c.e1234 - x * b.e13 * c.e13 - x * b.e14 * c.e14 - x * b.e23 * c.e23 - x * b.e24 * c.e24 - x * b.e34 * c.e34 + x * b.s * c.s,
{
    dist_r_p1(x, b.e12 * c.e12, b.e1234 * c.e1234, b.e13 * c.e13, b.e14 * c.e14, b.e23 * c.e23, b.e24 * c.e24, b.e34 * c.e34, b.s * c.s);
    lemma_mul_is_associative(x, b.e12, c.e12);
    lemma_mul_is_associative(x, b.e1234, c.e1234);
    lemma_mul_is_associative(x, b.e13, c.e13);
    lemma_mul_is_associative(x, b.e14, c.e14);
    lemma_mul_is_associative(x, b.e23, c.e23);
    lemma_mul_is_associative(x, b.e24, c.e24);
    lemma_mul_is_associative(x, b.e34, c.e34);
    lemma_mul_is_associative(x, b.s, c.s);
}

/// The `e01` row of a product, times a factor, in expanded form.
proof fn row_l_e01(a: RotorModel, b: RotorModel, z: int)
    ensures
        (a.e01 * b.s - a.e0123 * b.e23 - a.e0124 * b.e24 - a.e0134 * b.e34 - a.e02 * b.e12 + a.e0234 * b.e1234 - a.e03 * b.e13 - a.e04 * b.e14 + a.e12 * b.e02 - a.e1234 * b.e0234 + a.e13 * b.e03 + a.e14 * b.e04 - a.e23 * b.e0123 - a.e24 * b.e0124 - a.e34 * b.e0134 + a.s * b.e01) * z == a.e01 * b.s * z - a.e0123 * b.e23 * z - a.e0124 * b.e24 * z - a.e0134 * b.e34 * z - a.e02 * b.e12 * z + a.e0234 * b.e1234 * z - a.e03 * b.e13 * z - a.e04 * b.e14 * z + a.e12 * b.e02 * z - a.e1234 * b.e0234 * z + a.e13 * b.e03 * z + a.e14 * b.e04 * z - a.e23 * b.e0123 * z - a.e24 * b.e0124 * z - a.e34 * b.e0134 * z + a.s * b.e01 * z,
{
    dist_l_p2(a.e01 * b.s, a.e0123 * b.e23, a.e0124 * b.e24, a.e0134 * b.e34, a.e02 * b.e12, a.e0234 * b.e1234, a.e03 * b.e13, a.e04 * b.e14, a.e12 * b.e02, a.e1234 * b.e0234, a.e13 * b.e03, a.e14 * b.e04, a.e23 * b.e0123, a.e24 * b.e0124, a.e34 * b.e0134, a.s * b.e01, z);
}

/// A factor times the `e01` row of a product, in expanded form.
proof fn row_r_e01(x: int, b: RotorModel, c: RotorModel)
    ensures
        x * (b.e01 * c.s - b.e0123 * c.e23 - b.e0124 * c.e24 - b.e0134 * c.e34 - b.e02 * c.e12 + b.e0234 * c.e1234 - b.e03 * c.e13 - b.e04 * c.e14 + b.e12 * c.e02 - b.e1234 * c.e0234 + b.e13 * c.e03 + b.e14 * c.e04 - b.e23 * c.e0123 - b.e24 * c.e0124 - b.e34 * c.e0134 + b.s * c.e01) == x * b.e01 * c.s - x * b.e0123 * c.e23 - x * b.e0124 * c.e24 - x * b.e0134 * c.e34 - x * b.e02 * c.e12 + x * b.e0234 * c.e1234 - x * b.e03 * c.e13 - x * b.e04 * c.e14 + x * b.e12 * c.e02 - x * b.e1234 * c.e0234 + x * b.e13 * c.e03 + x * b.e14 * c.e04 - x * b.e23 * c.e0123 - x * b.e24 * c.e0124 - x * b.e34 * c.e0134 + x * b.s * c.e01,
{
    dist_r_p2(x, b.e01 * c.s, b.e0123 * c.e23, b.e0124 * c.e24, b.e0134 * c.e34, b.e02 * c.e12, b.e0234 * c.e1234, b.e03 * c.e13, b.e04 * c.e14, b.e12 * c.e02, b.e1234 * c.e0234, b.e13 * c.e03, b.e14 * c.e04, b.e23 * c.e0123, b.e24 * c.e0124, b.e34 * c.e0134, b.s * c.e01);
    lemma_mul_is_associative(x, b.e01, c.s);
    lemma_mul_is_associative(x, b.e0123, c.e23);
    lemma_mul_is_associative(x, b.e0124, c.e24);
    lemma_mul_is_associative(x, b.e0134, c.e34);
    lemma_mul_is_associative(x, b.e02, c.e12);
    lemma_mul_is_associative(x, b.e0234, c.e1234);
    lemma_mul_is_associative(x, b.e03, c.e13);
    lemma_mul_is_associative(x, b.e04, c.e14);
    lemma_mul_is_associative(x, b.e12, c.e02);
    lemma_mul_is_associative(x, b.e1234, c.e0234);
    lemma_mul_is_associative(x, b.e13, c.e03);
    lemma_mul_is_associative(x, b.e14, c.e04);
    lemma_mul_is_associative(x, b.e23, c.e0123);
    lemma_mul_is_associative(x, b.e24, c.e0124);
    lemma_mul_is_associative(x, b.e34, c.e0134);
    lemma_mul_is_associative(x, b.s, c.e01);
}

/// The `e02` row of a product, times a factor, in expanded form.
proof fn row_l_e02(a: RotorModel, b: RotorModel, z: int)
    ensures
        (a.e01 * b.e12 + a.e0123 * b.e13 + a.e0124 * b.e14 - a.e0134 * b.e1234 + a.e02 * b.s - a.e0234 * b.e34 - a.e03 * b.e23 - a.e04 * b.e24 - a.e12 * b.e01 + a.e1234 * b.e0134 + a.e13 * b.e0123 + a.e14 * b.e0124 + a.e23 * b.e03 + a.e24 * b.e04 - a.e34 * b.e0234 + a.s * b.e02) * z == a.e01 * b.e12 * z + a.e0123 * b.e13 * z + a.e0124 * b.e14 * z - a.e0134 * b.e1234 * z + a.e02 * b.s * z - a.e0234 * b.e34 * z - a.e03 * b.e23 * z - a.e04 * b.e24 * z - a.e12 * b.e01 * z + a.e1234 * b.e0134 * z + a.e13 * b.e0123 * z + a.e14 * b.e0124 * z + a.e23 * b.e03 * z + a.e24 * b.e04 * z - a.e34 * b.e0234 * z + a.s * b.e02 * z,
{
    dist_l_p3(a.e01 * b.e12, a.e0123 * b.e13, a.e0124 * b.e14, a.e0134 * b.e1234, a.e02 * b.s, a.e0234 * b.e34, a.e03 * b.e23, a.e04 * b.e24, a.e12 * b.e01, a.e1234 * b.e0134, a.e13 * b.e0123, a.e14 * b.e0124, a.e23 * b.e03, a.e24 * b.e04, a.e34 * b.e0234, a.s * b.e02, z);
}

/// A factor times the `e02` row of a product, in expanded form.
proof fn row_r_e02(x: int, b: RotorModel, c: RotorModel)
    ensures
        x * (b.e01 * c.e12 + b.e0123 * c.e13 + b.e0124 * c.e14 - b.e0134 * c.e1234 + b.e02 * c.s - b.e0234 * c.e34 - b.e03 * c.e23 - b.e04 * c.e24 - b.e12 * c.e01 + b.e1234 * c.e0134 + b.e13 * c.e0123 + b.e14 * c.e0124 + b.e23 * c.e03 + b.e24 * c.e04 - b.e34 * c.e0234 + b.s * c.e02) == x * b.e01 * c.e12 + x * b.e0123 * c.e13 + x * b.e0124 * c.e14 - x * b.e0134 * c.e1234 + x * b.e02 * c.s - x * b.e0234 * c.e34 - x * b.e03 * c.e23 - x * b.e04 * c.e24 - x * b.e12 * c.e01 + x * b.e1234 * c.e0134 + x * b.e13 * c.e0123 + x * b.e14 * c.e0124 + x * b.e23 * c.e03 + x * b.e24 * c.e04 - x * b.e34 * c.e0234 + x * b.s * c.e02,
{
    dist_r_p3(x, b.e01 * c.e12, b.e0123 * c.e13, b.e0124 * c.e14, b.e0134 * c.e1234, b.e02 * c.s, b.e0234 * c.e34, b.e03 * c.e23, b.e04 * c.e24, b.e12 * c.e01, b.e1234 * c.e0134, b.e13 * c.e0123, b.e14 * c.e0124, b.e23 * c.e03, b.e24 * c.e04, b.e34 * c.e0234, b.s * c.e02);
    lemma_mul_is_associative(x, b.e01, c.e12);
    lemma_mul_is_associative(x, b.e0123, c.e13);
    lemma_mul_is_associative(x, b.e0124, c.e14);
    lemma_mul_is_associative(x, b.e0134, c.e1234);
    lemma_mul_is_associative(x, b.e02, c.s);
    lemma_mul_is_associative(x, b.e0234, c.e34);
    lemma_mul_is_associative(x, b.e03, c.e23);
    lemma_mul_is_associative(x, b.e04, c.e24);
    lemma_mul_is_associative(x, b.e12, c.e01);
    lemma_mul_is_associative(x, b.e1234, c.e0134);
    lemma_mul_is_associative(x, b.e13, c.e0123);
    lemma_mul_is_associative(x, b.e14, c.e0124);
    lemma_mul_is_associative(x, b.e23, c.e03);
    lemma_mul_is_associative(x, b.e24, c.e04);
    lemma_mul_is_associative(x, b.e34, c.e0234);
    lemma_mul_is_associative(x, b.s, c.e02);
}

/// The `e03` row of a product, times a factor, in expanded form.
proof fn row_l_e03(a: RotorModel, b: RotorModel, z: int)
    ensures
        (a.e01 * b.e13 - a.e0123 * b.e12 + a.e0124 * b.e1234 + a.e0134 * b.e14 + a.e02 * b.e23 + a.e0234 * b.e24 + a.e03 * b.s - a.e04 * b.e34 - a.e12 * b.e0123 - a.e1234 * b.e0124 - a.e13 * b.e01 + a.e14 * b.e0134 - a.e23 * b.e02 + a.e24 * b.e0234 + a.e34 * b.e04 + a.s * b.e03) * z == a.e01 * b.e13 * z - a.e0123 * b.e12 * z + a.e0124 * b.e1234 * z + a.e0134 * b.e14 * z + a.e02 * b.e23 * z + a.e0234 * b.e24 * z + a.e03 * b.s * z - a.e04 * b.e34 * z - a.e12 * b.e0123 * z - a.e1234 * b.e0124 * z - a.e13 * b.e01 * z + a.e14 * b.e0134 * z - a.e23 * b.e02 * z + a.e24 * b.e0234 * z + a.e34 * b.e04 * z + a.s * b.e03 * z,
{
    dist_l_p4(a.e01 * b.e13, a.e0123 * b.e12, a.e0124 * b.e1234, a.e0134 * b.e14, a.e02 * b.e23, a.e0234 * b.e24, a.e03 * b.s, a.e04 * b.e34, a.e12 * b.e0123, a.e1234 * b.e0124, a.e13 * b.e01, a.e14 * b.e0134, a.e23 * b.e02, a.e24 * b.e0234, a.e34 * b.e04, a.s * b.e03, z);
}

/// A factor times the `e03` row of a product, in expanded form.
proof fn row_r_e03(x: int, b: RotorModel, c: RotorModel)
    ensures
        x * (b.e01 * c.e13 - b.e0123 * c.e12 + b.e0124 * c.e1234 + b.e0134 * c.e14 + b.e02 * c.e23 + b.e0234 * c.e24 + b.e03 * c.s - b.e04 * c.e34 - b.e12 * c.e0123 - b.e1234 * c.e0124 - b.e13 * c.e01 + b.e14 * c.e0134 - b.e23 * c.e02 + b.e24 * c.e0234 + b.e34 * c.e04 + b.s * c.e03) == x * b.e01 * c.e13 - x * b.e0123 * c.e12 + x * b.e0124 * c.e1234 + x * b.e0134 * c.e14 + x * b.e02 * c.e23 + x * b.e0234 * c.e24 + x * b.e03 * c.s - x * b.e04 * c.e34 - x * b.e12 * c.e0123 - x * b.e1234 * c.e0124 - x * b.e13 * c.e01 + x * b.e14 * c.e0134 - x * b.e23 * c.e02 + x * b.e24 * c.e0234 + x * b.e34 * c.e04 + x * b.s * c.e03,
{
    dist_r_p4(x, b.e01 * c.e13, b.e0123 * c.e12, b.e0124 * c.e1234, b.e0134 * c.e14, b.e02 * c.e23, b.e0234 * c.e24, b.e03 * c.s, b.e04 * c.e34, b.e12 * c.e0123, b.e1234 * c.e0124, b.e13 * c.e01, b.e14 * c.e0134, b.e23 * c.e02, b.e24 * c.e0234, b.e34 * c.e04, b.s * c.e03);
    lemma_mul_is_associative(x, b.e01, c.e13);
    lemma_mul_is_associative(x, b.e0123, c.e12);
    lemma_mul_is_associative(x, b.e0124, c.e1234);
    lemma_mul_is_associative(x, b.e0134, c.e14);
    lemma_mul_is_associative(x, b.e02, c.e23);
    lemma_mul_is_associative(x, b.e0234, c.e24);
    lemma_mul_is_associative(x, b.e03, c.s);
    lemma_mul_is_associative(x, b.e04, c.e34);
    lemma_mul_is_associative(x, b.e12, c.e0123);
    lemma_mul_is_associative(x, b.e1234, c.e0124);
    lemma_mul_is_associative(x, b.e13, c.e01);
    lemma_mul_is_associative(x, b.e14, c.e0134);
    lemma_mul_is_associative(x, b.e23, c.e02);
    lemma_mul_is_associative(x, b.e24, c.e0234);
    lemma_mul_is_associative(x, b.e34, c.e04);
    lemma_mul_is_associative(x, b.s, c.e03);
}

/// The `e04` row of a product, times a factor, in expanded form.
proof fn row_l_e04(a: RotorModel, b: RotorModel, z: int)
    ensures
        (a.e01 * b.e14 - a.e0123 * b.e1234 - a.e0124 * b.e12 - a.e0134 * b.e13 + a.e02 * b.e24 - a.e0234 * b.e23 + a.e03 * b.e34 + a.e04 * b.s - a.e12 * b.e0124 + a.e1234 * b.e0123 - a.e13 * b.e0134 - a.e14 * b.e01 - a.e23 * b.e0234 - a.e24 * b.e02 - a.e34 * b.e03 + a.s * b.e04) * z == a.e01 * b.e14 * z - a.e0123 * b.e1234 * z - a.e0124 * b.e12 * z - a.e0134 * b.e13 * z + a.e02 * b.e24 * z - a.e0234 * b.e23 * z + a.e03 * b.e34 * z + a.e04 * b.s * z - a.e12 * b.e0124 * z + a.e1234 * b.e0123 * z - a.e13 * b.e0134 * z - a.e14 * b.e01 * z - a.e23 * b.e0234 * z - a.e24 * b.e02 * z - a.e34 * b.e03 * z + a.s * b.e04 * z,
{
    dist_l_p5(a.e01 * b.e14, a.e0123 * b.e1234, a.e0124 * b.e12, a.e0134 * b.e13, a.e02 * b.e24, a.e0234 * b.e23, a.e03 * b.e34, a.e04 * b.s, a.e12 * b.e0124, a.e1234 * b.e0123, a.e13 * b.e0134, a.e14 * b.e01, a.e23 * b.e0234, a.e24 * b.e02, a.e34 * b.e03, a.s * b.e04, z);
}

/// A factor times the `e04` row of a product, in expanded form.
proof fn row_r_e04(x: int, b: RotorModel, c: RotorModel)
    ensures
        x * (b.e01 * c.e14 - b.e0123 * c.e1234 - b.e0124 * c.e12 - b.e0134 * c.e13 + b.e02 * c.e24 - b.e0234 * c.e23 + b.e03 * c.e34 + b.e04 * c.s - b.e12 * c.e0124 + b.e1234 * c.e0123 - b.e13 * c.e0134 - b.e14 * c.e01 - b.e23 * c.e0234 - b.e24 * c.e02 - b.e34 * c.e03 + b.s * c.e04) == x * b.e01 * c.e14 - x * b.e0123 * c.e1234 - x * b.e0124 * c.e12 - x * b.e0134 * c.e13 + x * b.e02 * c.e24 - x * b.e0234 * c.e23 + x * b.e03 * c.e34 + x * b.e04 * c.s - x * b.e12 * c.e0124 + x * b.e1234 * c.e0123 - x * b.e13 * c.e0134 - x * b.e14 * c.e01 - x * b.e23 * c.e0234 - x * b.e24 * c.e02 - x * b.e34 * c.e03 + x * b.s * c.e04,
{
    dist_r_p5(x, b.e01 * c.e14, b.e0123 * c.e1234, b.e0124 * c.e12, b.e0134 * c.e13, b.e02 * c.e24, b.e0234 * c.e23, b.e03 * c.e34, b.e04 * c.s, b.e12 * c.e0124, b.e1234 * c.e0123, b.e13 * c.e0134, b.e14 * c.e01, b.e23 * c.e0234, b.e24 * c.e02, b.e34 * c.e03, b.s * c.e04);
    lemma_mul_is_associative(x, b.e01, c.e14);
    lemma_mul_is_associative(x, b.e0123, c.e1234);
    lemma_mul_is_associative(x, b.e0124, c.e12);
    lemma_mul_is_associative(x, b.e0134, c.e13);
    lemma_mul_is_associative(x, b.e02, c.e24);
    lemma_mul_is_associative(x, b.e0234, c.e23);
    lemma_mul_is_associative(x, b.e03, c.e34);
    lemma_mul_is_associative(x, b.e04, c.s);
    lemma_mul_is_associative(x, b.e12, c.e0124);
    lemma_mul_is_associative(x, b.e1234, c.e0123);
    lemma_mul_is_associative(x, b.e13, c.e0134);
    lemma_mul_is_associative(x, b.e14, c.e01);
    lemma_mul_is_associative(x, b.e23, c.e0234);
    lemma_mul_is_associative(x, b.e24, c.e02);
    lemma_mul_is_associative(x, b.e34, c.e03);
    lemma_mul_is_associative(x, b.s, c.e04);
}

/// The `e12` row of a product, times a factor, in expanded form.
proof fn row_l_e12(a: RotorModel, b: RotorModel, z: int)
    ensures
        (a.e12 * b.s - a.e1234 * b.e34 - a.e13 * b.e23 - a.e14 * b.e24 + a.e23 * b.e13 + a.e24 * b.e14 - a.e34 * b.e1234 + a.s * b.e12) * z == a.e12 * b.s * z - a.e1234 * b.e34 * z - a.e13 * b.e23 * z - a.e14 * b.e24 * z + a.e23 * b.e13 * z + a.e24 * b.e14 * z - a.e34 * b.e1234 * z + a.s * b.e12 * z,
{
    dist_l_p6(a.e12 * b.s, a.e1234 * b.e34, a.e13 * b.e23, a.e14 * b.e24, a.e23 * b.e13, a.e24 * b.e14, a.e34 * b.e1234, a.s * b.e12, z);
}

/// A factor times the `e12` row of a product, in expanded form.
proof fn row_r_e12(x: int, b: RotorModel, c: RotorModel)
    ensures
        x * (b.e12 * c.s - b.e1234 * c.e34 - b.e13 * c.e23 - b.e14 * c.e24 + b.e23 * c.e13 + b.e24 * c.e14 - b.e34 * c.e1234 + b.s * c.e12) == x * b.e12 * c.s - x * b.e1234 * c.e34 - x * b.e13 * c.e23 - x * b.e14 * c.e24 + x * b.e23 * c.e13 + x * b.e24 * c.e14 - x * b.e34 * c.e1234 + x * b.s * c.e12,
{
    dist_r_p6(x, b.e12 * c.s, b.e1234 * c.e34, b.e13 * c.e23, b.e14 * c.e24, b.e23 * c.e13, b.e24 * c.e14, b.e34 * c.e1234, b.s * c.e12);
    lemma_mul_is_associative(x, b.e12, c.s);
    lemma_mul_is_associative(x, b.e1234, c.e34);
    lemma_mul_is_associative(x, b.e13, c.e23);
    lemma_mul_is_associative(x, b.e14, c.e24);
    lemma_mul_is_associative(x, b.e23, c.e13);
    lemma_mul_is_associative(x, b.e24, c.e14);
    lemma_mul_is_associative(x, b.e34, c.e1234);
    lemma_mul_is_associative(x, b.s, c.e12);
}

/// The `e13` row of a product, times a factor, in expanded form.
proof fn row_l_e13(a: RotorModel, b: RotorModel, z: int)
    ensures
        (a.e12 * b.e23 + a.e1234 * b.e24 + a.e13 * b.s - a.e14 * b.e34 - a.e23 * b.e12 + a.e24 * b.e1234 + a.e34 * b.e14 + a.s * b.e13) * z == a.e12 * b.e23 * z + a.e1234 * b.e24 * z + a.e13 * b.s * z - a.e14 * b.e34 * z - a.e23 * b.e12 * z + a.e24 * b.e1234 * z + a.e34 * b.e14 * z + a.s * b.e13 * z,
{
    dist_l_p7(a.e12 * b.e23, a.e1234 * b.e24, a.e13 * b.s, a.e14 * b.e34, a.e23 * b.e12, a.e24 * b.e1234, a.e34 * b.e14, a.s * b.e13, z);
}

/// A factor times the `e13` row of a product, in expanded form.
proof fn row_r_e13(x: int, b: RotorModel, c: RotorModel)
    ensures
        x * (b.e12 * c.e23 + b.e1234 * c.e24 + b.e13 * c.s - b.e14 * c.e34 - b.e23 * c.e12 + b.e24 * c.e1234 + b.e34 * c.e14 + b.s * c.e13) == x * b.e12 * c.e23 + x * b.e1234 * c.e24 + x * b.e13 * c.s - x * b.e14 * c.e34 - x * b.e23 * c.e12 + x * b.e24 * c.e1234 + x * b.e34 * c.e14 + x * b.s * c.e13,
{
    dist_r_p7(x, b.e12 * c.e23, b.e1234 * c.e24, b.e13 * c.s, b.e14 * c.e34, b.e23 * c.e12, b.e24 * c.e1234, b.e34 * c.e14, b.s * c.e13);
    lemma_mul_is_associative(x, b.e12, c.e23);
    lemma_mul_is_associative(x, b.e1234, c.e24);
    lemma_mul_is_associative(x, b.e13, c.s);
    lemma_mul_is_associative(x, b.e14, c.e34);
    lemma_mul_is_associative(x, b.e23, c.e12);
    lemma_mul_is_associative(x, b.e24, c.e1234);
    lemma_mul_is_associative(x, b.e34, c.e14);
    lemma_mul_is_associative(x, b.s, c.e13);
}

/// The `e14` row of a product, times a factor, in expanded form.
proof fn row_l_e14(a: RotorModel, b: RotorModel, z: int)
    ensures
        (a.e12 * b.e24 - a.e1234 * b.e23 + a.e13 * b.e34 + a.e14 * b.s - a.e23 * b.e1234 - a.e24 * b.e12 - a.e34 * b.e13 + a.s * b.e14) * z == a.e12 * b.e24 * z - a.e1234 * b.e23 * z + a.e13 * b.e34 * z + a.e14 * b.s * z - a.e23 * b.e1234 * z - a.e24 * b.e12 * z - a.e34 * b.e13 * z + a.s * b.e14 * z,
{
    dist_l_p8(a.e12 * b.e24, a.e1234 * b.e23, a.e13 * b.e34, a.e14 * b.s, a.e23 * b.e1234, a.e24 * b.e12, a.e34 * b.e13, a.s * b.e14, z);
}

/// A factor times the `e14` row of a product, in expanded form.
proof fn row_r_e14(x: int, b: RotorModel, c: RotorModel)
    ensures
        x * (b.e12 * c.e24 - b.e1234 * c.e23 + b.e13 * c.e34 + b.e14 * c.s - b.e23 * c.e1234 - b.e24 * c.e12 - b.e34 * c.e13 + b.s * c.e14) == x * b.e12 * c.e24 - x * b.e1234 * c.e23 + x * b.e13 * c.e34 + x * b.e14 * c.s - x * b.e23 * c.e1234 - x * b.e24 * c.e12 - x * b.e34 * c.e13 + x * b.s * c.e14,
{
    dist_r_p8(x, b.e12 * c.e24, b.e1234 * c.e23, b.e13 * c.e34, b.e14 * c.s, b.e23 * c.e1234, b.e24 * c.e12, b.e34 * c.e13, b.s * c.e14);
    lemma_mul_is_associative(x, b.e12, c.e24);
    lemma_mul_is_associative(x, b.e1234, c.e23);
    lemma_mul_is_associative(x, b.e13, c.e34);
    lemma_mul_is_associative(x, b.e14, c.s);
    lemma_mul_is_associative(x, b.e23, c.e1234);
    lemma_mul_is_associative(x, b.e24, c.e12);
    lemma_mul_is_associative(x, b.e34, c.e13);
    lemma_mul_is_associative(x, b.s, c.e14);
}

/// The `e23` row of a product, times a factor, in expanded form.
proof fn row_l_e23(a: RotorModel, b: RotorModel, z: int)
    ensures
        (-(a.e12 * b.e13) - a.e1234 * b.e14 + a.e13 * b.e12 - a.e14 * b.e1234 + a.e23 * b.s - a.e24 * b.e34 + a.e34 * b.e24 + a.s * b.e23) * z == -(a.e12 * b.e13 * z) - a.e1234 * b.e14 * z + a.e13 * b.e12 * z - a.e14 * b.e1234 * z + a.e23 * b.s * z - a.e24 * b.e34 * z + a.e34 * b.e24 * z + a.s * b.e23 * z,
{
    dist_l_p9(a.e12 * b.e13, a.e1234 * b.e14, a.e13 * b.e12, a.e14 * b.e1234, a.e23 * b.s, a.e24 * b.e34, a.e34 * b.e24, a.s * b.e23, z);
}

/// A factor times the `e23` row of a product, in expanded form.
proof fn row_r_e23(x: int, b: RotorModel, c: RotorModel)
    ensures
        x * (-(b.e12 * c.e13) - b.e1234 * c.e14 + b.e13 * c.e12 - b.e14 * c.e1234 + b.e23 * c.s - b.e24 * c.e34 + b.e34 * c.e24 + b.s * c.e23) == -(x * b.e12 * c.e13) - x * b.e1234 * c.e14 + x * b.e13 * c.e12 - x * b.e14 * c.e1234 + x * b.e23 * c.s - x * b.e24 * c.e34 + x * b.e34 * c.e24 + x * b.s * c.e23,
{
    dist_r_p9(x, b.e12 * c.e13, b.e1234 * c.e14, b.e13 * c.e12, b.e14 * c.e1234, b.e23 * c.s, b.e24 * c.e34, b.e34 * c.e24, b.s * c.e23);
    lemma_mul_is_associative(x, b.e12, c.e13);
    lemma_mul_is_associative(x, b.e1234, c.e14);
    lemma_mul_is_associative(x, b.e13, c.e12);
    lemma_mul_is_associative(x, b.e14, c.e1234);
    lemma_mul_is_associative(x, b.e23, c.s);
    lemma_mul_is_associative(x, b.e24, c.e34);
    lemma_mul_is_associative(x, b.e34, c.e24);
    lemma_mul_is_associative(x, b.s, c.e23);
}

/// The `e24` row of a product, times a factor, in expanded form.
proof fn row_l_e24(a: RotorModel, b: RotorModel, z: int)
    ensures
        (-(a.e12 * b.e14) + a.e1234 * b.e13 + a.e13 * b.e1234 + a.e14 * b.e12 + a.e23 * b.e34 + a.e24 * b.s - a.e34 * b.e23 + a.s * b.e24) * z == -(a.e12 * b.e14 * z) + a.e1234 * b.e13 * z + a.e13 * b.e1234 * z + a.e14 * b.e12 * z + a.e23 * b.e34 * z + a.e24 * b.s * z - a.e34 * b.e23 * z + a.s * b.e24 * z,
{
    dist_l_p10(a.e12 * b.e14, a.e1234 * b.e13, a.e13 * b.e1234, a.e14 * b.e12, a.e23 * b.e34, a.e24 * b.s, a.e34 * b.e23, a.s * b.e24, z);
}

/// A factor times the `e24` row of a product, in expanded form.
proof fn row_r_e24(x: int, b: RotorModel, c: RotorModel)
    ensures
        x * (-(b.e12 * c.e14) + b.e1234 * c.e13 + b.e13 * c.e1234 + b.e14 * c.e12 + b.e23 * c.e34 + b.e24 * c.s - b.e34 * c.e23 + b.s * c.e24) == -(x * b.e12 * c.e14) + x * b.e1234 * c.e13 + x * b.e13 * c.e1234 + x * b.e14 * c.e12 + x * b.e23 * c.e34 + x * b.e24 * c.s - x * b.e34 * c.e23 + x * b.s * c.e24,
{
    dist_r_p10(x, b.e12 * c.e14, b.e1234 * c.e13, b.e13 * c.e1234, b.e14 * c.e12, b.e23 * c.e34, b.e24 * c.s, b.e34 * c.e23, b.s * c.e24);
    lemma_mul_is_associative(x, b.e12, c.e14);
    lemma_mul_is_associative(x, b.e1234, c.e13);
    lemma_mul_is_associative(x, b.e13, c.e1234);
    lemma_mul_is_associative(x, b.e14, c.e12);
    lemma_mul_is_associative(x, b.e23, c.e34);
    lemma_mul_is_associative(x, b.e24, c.s);
    lemma_mul_is_associative(x, b.e34, c.e23);
    lemma_mul_is_associative(x, b.s, c.e24);
}

/// The `e34` row of a product, times a factor, in expanded form.
proof fn row_l_e34(a: RotorModel, b: RotorModel, z: int)
    ensures
        (-(a.e12 * b.e1234) - a.e1234 * b.e12 - a.e13 * b.e14 + a.e14 * b.e13 - a.e23 * b.e24 + a.e24 * b.e23 + a.e34 * b.s + a.s * b.e34) * z == -(a.e12 * b.e1234 * z) - a.e1234 * b.e12 * z - a.e13 * b.e14 * z + a.e14 * b.e13 * z - a.e23 * b.e24 * z + a.e24 * b.e23 * z + a.e34 * b.s * z + a.s * b.e34 * z,
{
    dist_l_p11(a.e12 * b.e1234, a.e1234 * b.e12, a.e13 * b.e14, a.e14 * b.e13, a.e23 * b.e24, a.e24 * b.e23, a.e34 * b.s, a.s * b.e34, z);
}

/// A factor times the `e34` row of a product, in expanded form.
proof fn row_r_e34(x: int, b: RotorModel, c: RotorModel)
    ensures
        x * (-(b.e12 * c.e1234) - b.e1234 * c.e12 - b.e13 * c.e14 + b.e14 * c.e13 - b.e23 * c.e24 + b.e24 * c.e23 + b.e34 * c.s + b.s * c.e34) == -(x * b.e12 * c.e1234) - x * b.e1234 * c.e12 - x * b.e13 * c.e14 + x * b.e14 * c.e13 - x * b.e23 * c.e24 + x * b.e24 * c.e23 + x * b.e34 * c.s + x * b.s * c.e34,
{
    dist_r_p11(x, b.e12 * c.e1234, b.e1234 * c.e12, b.e13 * c.e14, b.e14 * c.e13, b.e23 * c.e24, b.e24 * c.e23, b.e34 * c.s, b.s * c.e34);
    lemma_mul_is_associative(x, b.e12, c.e1234);
    lemma_mul_is_associative(x, b.e1234, c.e12);
    lemma_mul_is_associative(x, b.e13, c.e14);
    lemma_mul_is_associative(x, b.e14, c.e13);
    lemma_mul_is_associative(x, b.e23, c.e24);
    lemma_mul_is_associative(x, b.e24, c.e23);
    lemma_mul_is_associative(x, b.e34, c.s);
    lemma_mul_is_associative(x, b.s, c.e34);
}

/// The `e0123` row of a product, times a factor, in expanded form.
proof fn row_l_e0123(a: RotorModel, b: RotorModel, z: int)
    ensures
        (a.e01 * b.e23 + a.e0123 * b.s - a.e0124 * b.e34 + a.e0134 * b.e24 - a.e02 * b.e13 - a.e0234 * b.e14 + a.e03 * b.e12 - a.e04 * b.e1234 + a.e12 * b.e03 + a.e1234 * b.e04 - a.e13 * b.e02 + a.e14 * b.e0234 + a.e23 * b.e01 - a.e24 * b.e0134 + a.e34 * b.e0124 + a.s * b.e0123) * z == a.e01 * b.e23 * z + a.e0123 * b.s * z - a.e0124 * b.e34 * z + a.e0134 * b.e24 * z - a.e02 * b.e13 * z - a.e0234 * b.e14 * z + a.e03 * b.e12 * z - a.e04 * b.e1234 * z + a.e12 * b.e03 * z + a.e1234 * b.e04 * z - a.e13 * b.e02 * z + a.e14 * b.e0234 * z + a.e23 * b.e01 * z - a.e24 * b.e0134 * z + a.e34 * b.e0124 * z + a.s * b.e0123 * z,
{
    dist_l_p12(a.e01 * b.e23, a.e0123 * b.s, a.e0124 * b.e34, a.e0134 * b.e24, a.e02 * b.e13, a.e0234 * b.e14, a.e03 * b.e12, a.e04 * b.e1234, a.e12 * b.e03, a.e1234 * b.e04, a.e13 * b.e02, a.e14 * b.e0234, a.e23 * b.e01, a.e24 * b.e0134, a.e34 * b.e0124, a.s * b.e0123, z);
}

/// A factor times the `e0123` row of a product, in expanded form.
proof fn row_r_e0123(x: int, b: RotorModel, c: RotorModel)
    ensures
        x * (b.e01 * c.e23 + b.e0123 * c.s - b.e0124 * c.e34 + b.e0134 * c.e24 - b.e02 * c.e13 - b.e0234 * c.e14 + b.e03 * c.e12 - b.e04 * c.e1234 + b.e12 * c.e03 + b.e1234 * c.e04 - b.e13 * c.e02 + b.e14 * c.e0234 + b.e23 * c.e01 - b.e24 * c.e0134 + b.e34 * c.e0124 + b.s * c.e0123) == x * b.e01 * c.e23 + x * b.e0123 * c.s - x * b.e0124 * c.e34 + x * b.e0134 * c.e24 - x * b.e02 * c.e13 - x * b.e0234 * c.e14 + x * b.e03 * c.e12 - x * b.e04 * c.e1234 + x * b.e12 * c.e03 + x * b.e1234 * c.e04 - x * b.e13 * c.e02 + x * b.e14 * c.e0234 + x * b.e23 * c.e01 - x * b.e24 * c.e0134 + x * b.e34 * c.e0124 + x * b.s * c.e0123,
{
    dist_r_p12(x, b.e01 * c.e23, b.e0123 * c.s, b.e0124 * c.e34, b.e0134 * c.e24, b.e02 * c.e13, b.e0234 * c.e14, b.e03 * c.e12, b.e04 * c.e1234, b.e12 * c.e03, b.e1234 * c.e04, b.e13 * c.e02, b.e14 * c.e0234, b.e23 * c.e01, b.e24 * c.e0134, b.e34 * c.e0124, b.s * c.e0123);
    lemma_mul_is_associative(x, b.e01, c.e23);
    lemma_mul_is_associative(x, b.e0123, c.s);
    lemma_mul_is_associative(x, b.e0124, c.e34);
    lemma_mul_is_associative(x, b.e0134, c.e24);
    lemma_mul_is_associative(x, b.e02, c.e13);
    lemma_mul_is_associative(x, b.e0234, c.e14);
    lemma_mul_is_associative(x, b.e03, c.e12);
    lemma_mul_is_associative(x, b.e04, c.e1234);
    lemma_mul_is_associative(x, b.e12, c.e03);
    lemma_mul_is_associative(x, b.e1234, c.e04);
    lemma_mul_is_associative(x, b.e13, c.e02);
    lemma_mul_is_associative(x, b.e14, c.e0234);
    lemma_mul_is_associative(x, b.e23, c.e01);
    lemma_mul_is_associative(x, b.e24, c.e0134);
    lemma_mul_is_associative(x, b.e34, c.e0124);
    lemma_mul_is_associative(x, b.s, c.e0123);
}

/// The `e0124` row of a product, times a factor, in expanded form.
proof fn row_l_e0124(a: RotorModel, b: RotorModel, z: int)
    ensures
        (a.e01 * b.e24 + a.e0123 * b.e34 + a.e0124 * b.s - a.e0134 * b.e23 - a.e02 * b.e14 + a.e0234 * b.e13 + a.e03 * b.e1234 + a.e04 * b.e12 + a.e12 * b.e04 - a.e1234 * b.e03 - a.e13 * b.e0234 - a.e14 * b.e02 + a.e23 * b.e0134 + a.e24 * b.e01 - a.e34 * b.e0123 + a.s * b.e0124) * z == a.e01 * b.e24 * z + a.e0123 * b.e34 * z + a.e0124 * b.s * z - a.e0134 * b.e23 * z - a.e02 * b.e14 * z + a.e0234 * b.e13 * z + a.e03 * b.e1234 * z + a.e04 * b.e12 * z + a.e12 * b.e04 * z - a.e1234 * b.e03 * z - a.e13 * b.e0234 * z - a.e14 * b.e02 * z + a.e23 * b.e0134 * z + a.e24 * b.e01 * z - a.e34 * b.e0123 * z + a.s * b.e0124 * z,
{
    dist_l_p13(a.e01 * b.e24, a.e0123 * b.e34, a.e0124 * b.s, a.e0134 * b.e23, a.e02 * b.e14, a.e0234 * b.e13, a.e03 * b.e1234, a.e04 * b.e12, a.e12 * b.e04, a.e1234 * b.e03, a.e13 * b.e0234, a.e14 * b.e02, a.e23 * b.e0134, a.e24 * b.e01, a.e34 * b.e0123, a.s * b.e0124, z);
}

/// A factor times the `e0124` row of a product, in expanded form.
proof fn row_r_e0124(x: int, b: RotorModel, c: RotorModel)
    ensures
        x * (b.e01 * c.e24 + b.e0123 * c.e34 + b.e0124 * c.s - b.e0134 * c.e23 - b.e02 * c.e14 + b.e0234 * c.e13 + b.e03 * c.e1234 + b.e04 * c.e12 + b.e12 * c.e04 - b.e1234 * c.e03 - b.e13 * c.e0234 - b.e14 * c.e02 + b.e23 * c.e0134 + b.e24 * c.e01 - b.e34 * c.e0123 + b.s * c.e0124) == x * b.e01 * c.e24 + x * b.e0123 * c.e34 + x * b.e0124 * c.s - x * b.e0134 * c.e23 - x * b.e02 * c.e14 + x * b.e0234 * c.e13 + x * b.e03 * c.e1234 + x * b.e04 * c.e12 + x * b.e12 * c.e04 - x * b.e1234 * c.e03 - x * b.e13 * c.e0234 - x * b.e14 * c.e02 + x * b.e23 * c.e0134 + x * b.e24 * c.e01 - x * b.e34 * c.e0123 + x * b.s * c.e0124,
{
    dist_r_p13(x, b.e01 * c.e24, b.e0123 * c.e34, b.e0124 * c.s, b.e0134 * c.e23, b.e02 * c.e14, b.e0234 * c.e13, b.e03 * c.e1234, b.e04 * c.e12, b.e12 * c.e04, b.e1234 * c.e03, b.e13 * c.e0234, b.e14 * c.e02, b.e23 * c.e0134, b.e24 * c.e01, b.e34 * c.e0123, b.s * c.e0124);
    lemma_mul_is_associative(x, b.e01, c.e24);
    lemma_mul_is_associative(x, b.e0123, c.e34);
    lemma_mul_is_associative(x, b.e0124, c.s);
    lemma_mul_is_associative(x, b.e0134, c.e23);
    lemma_mul_is_associative(x, b.e02, c.e14);
    lemma_mul_is_associative(x, b.e0234, c.e13);
    lemma_mul_is_associative(x, b.e03, c.e1234);
    lemma_mul_is_associative(x, b.e04, c.e12);
    lemma_mul_is_associative(x, b.e12, c.e04);
    lemma_mul_is_associative(x, b.e1234, c.e03);
    lemma_mul_is_associative(x, b.e13, c.e0234);
    lemma_mul_is_associative(x, b.e14, c.e02);
    lemma_mul_is_associative(x, b.e23, c.e0134);
    lemma_mul_is_associative(x, b.e24, c.e01);
    lemma_mul_is_associative(x, b.e34, c.e0123);
    lemma_mul_is_associative(x, b.s, c.e0124);
}

/// The `e0134` row of a product, times a factor, in expanded form.
proof fn row_l_e0134(a: RotorModel, b: RotorModel, z: int)
    ensures
        (a.e01 * b.e34 - a.e0123 * b.e24 + a.e0124 * b.e23 + a.e0134 * b.s - a.e02 * b.e1234 - a.e0234 * b.e12 - a.e03 * b.e14 + a.e04 * b.e13 + a.e12 * b.e0234 + a.e1234 * b.e02 + a.e13 * b.e04 - a.e14 * b.e03 - a.e23 * b.e0124 + a.e24 * b.e0123 + a.e34 * b.e01 + a.s * b.e0134) * z == a.e01 * b.e34 * z - a.e0123 * b.e24 * z + a.e0124 * b.e23 * z + a.e0134 * b.s * z - a.e02 * b.e1234 * z - a.e0234 * b.e12 * z - a.e03 * b.e14 * z + a.e04 * b.e13 * z + a.e12 * b.e0234 * z + a.e1234 * b.e02 * z + a.e13 * b.e04 * z - a.e14 * b.e03 * z - a.e23 * b.e0124 * z + a.e24 * b.e0123 * z + a.e34 * b.e01 * z + a.s * b.e0134 * z,
{
    dist_l_p14(a.e01 * b.e34, a.e0123 * b.e24, a.e0124 * b.e23, a.e0134 * b.s, a.e02 * b.e1234, a.e0234 * b.e12, a.e03 * b.e14, a.e04 * b.e13, a.e12 * b.e0234, a.e1234 * b.e02, a.e13 * b.e04, a.e14 * b.e03, a.e23 * b.e0124, a.e24 * b.e0123, a.e34 * b.e01, a.s * b.e0134, z);
}

/// A factor times the `e0134` row of a product, in expanded form.
proof fn row_r_e0134(x: int, b: RotorModel, c: RotorModel)
    ensures
        x * (b.e01 * c.e34 - b.e0123 * c.e24 + b.e0124 * c.e23 + b.e0134 * c.s - b.e02 * c.e1234 - b.e0234 * c.e12 - b.e03 * c.e14 + b.e04 * c.e13 + b.e12 * c.e0234 + b.e1234 * c.e02 + b.e13 * c.e04 - b.e14 * c.e03 - b.e23 * c.e0124 + b.e24 * c.e0123 + b.e34 * c.e01 + b.s * c.e0134) == x * b.e01 * c.e34 - x * b.e0123 * c.e24 + x * b.e0124 * c.e23 + x * b.e0134 * c.s - x * b.e02 * c.e1234 - x * b.e0234 * c.e12 - x * b.e03 * c.e14 + x * b.e04 * c.e13 + x * b.e12 * c.e0234 + x * b.e1234 * c.e02 + x * b.e13 * c.e04 - x * b.e14 * c.e03 - x * b.e23 * c.e0124 + x * b.e24 * c.e0123 + x * b.e34 * c.e01 + x * b.s * c.e0134,
{
    dist_r_p14(x, b.e01 * c.e34, b.e0123 * c.e24, b.e0124 * c.e23, b.e0134 * c.s, b.e02 * c.e1234, b.e0234 * c.e12, b.e03 * c.e14, b.e04 * c.e13, b.e12 * c.e0234, b.e1234 * c.e02, b.e13 * c.e04, b.e14 * c.e03, b.e23 * c.e0124, b.e24 * c.e0123, b.e34 * c.e01, b.s * c.e0134);
    lemma_mul_is_associative(x, b.e01, c.e34);
    lemma_mul_is_associative(x, b.e0123, c.e24);
    lemma_mul_is_associative(x, b.e0124, c.e23);
    lemma_mul_is_associative(x, b.e0134, c.s);
    lemma_mul_is_associative(x, b.e02, c.e1234);
    lemma_mul_is_associative(x, b.e0234, c.e12);
    lemma_mul_is_associative(x, b.e03, c.e14);
    lemma_mul_is_associative(x, b.e04, c.e13);
    lemma_mul_is_associative(x, b.e12, c.e0234);
    lemma_mul_is_associative(x, b.e1234, c.e02);
    lemma_mul_is_associative(x, b.e13, c.e04);
    lemma_mul_is_associative(x, b.e14, c.e03);
    lemma_mul_is_associative(x, b.e23, c.e0124);
    lemma_mul_is_associative(x, b.e24, c.e0123);
    lemma_mul_is_associative(x, b.e34, c.e01);
    lemma_mul_is_associative(x, b.s, c.e0134);
}

/// The `e0234` row of a product, times a factor, in expanded form.
proof fn row_l_e0234(a: RotorModel, b: RotorModel, z: int)
    ensures
        (a.e01 * b.e1234 + a.e0123 * b.e14 - a.e0124 * b.e13 + a.e0134 * b.e12 + a.e02 * b.e34 + a.e0234 * b.s - a.e03 * b.e24 + a.e04 * b.e23 - a.e12 * b.e0134 - a.e1234 * b.e01 + a.e13 * b.e0124 - a.e14 * b.e0123 + a.e23 * b.e04 - a.e24 * b.e03 + a.e34 * b.e02 + a.s * b.e0234) * z == a.e01 * b.e1234 * z + a.e0123 * b.e14 * z - a.e0124 * b.e13 * z + a.e0134 * b.e12 * z + a.e02 * b.e34 * z + a.e0234 * b.s * z - a.e03 * b.e24 * z + a.e04 * b.e23 * z - a.e12 * b.e0134 * z - a.e1234 * b.e01 * z + a.e13 * b.e0124 * z - a.e14 * b.e0123 * z + a.e23 * b.e04 * z - a.e24 * b.e03 * z + a.e34 * b.e02 * z + a.s * b.e0234 * z,
{
    dist_l_p15(a.e01 * b.e1234, a.e0123 * b.e14, a.e0124 * b.e13, a.e0134 * b.e12, a.e02 * b.e34, a.e0234 * b.s, a.e03 * b.e24, a.e04 * b.e23, a.e12 * b.e0134, a.e1234 * b.e01, a.e13 * b.e0124, a.e14 * b.e0123, a.e23 * b.e04, a.e24 * b.e03, a.e34 * b.e02, a.s * b.e0234, z);
}

/// A factor times the `e0234` row of a product, in expanded form.
proof fn row_r_e0234(x: int, b: RotorModel, c: RotorModel)
    ensures
        x * (b.e01 * c.e1234 + b.e0123 * c.e14 - b.e0124 * c.e13 + b.e0134 * c.e12 + b.e02 * c.e34 + b.e0234 * c.s - b.e03 * c.e24 + b.e04 * c.e23 - b.e12 * c.e0134 - b.e1234 * c.e01 + b.e13 * c.e0124 - b.e14 * c.e0123 + b.e23 * c.e04 - b.e24 * c.e03 + b.e34 * c.e02 + b.s * c.e0234) == x * b.e01 * c.e1234 + x * b.e0123 * c.e14 - x * b.e0124 * c.e13 + x * b.e0134 * c.e12 + x * b.e02 * c.e34 + x * b.e0234 * c.s - x * b.e03 * c.e24 + x * b.e04 * c.e23 - x * b.e12 * c.e0134 - x * b.e1234 * c.e01 + x * b.e13 * c.e0124 - x * b.e14 * c.e0123 + x * b.e23 * c.e04 - x * b.e24 * c.e03 + x * b.e34 * c.e02 + x * b.s * c.e0234,
{
    dist_r_p15(x, b.e01 * c.e1234, b.e0123 * c.e14, b.e0124 * c.e13, b.e0134 * c.e12, b.e02 * c.e34, b.e0234 * c.s, b.e03 * c.e24, b.e04 * c.e23, b.e12 * c.e0134, b.e1234 * c.e01, b.e13 * c.e0124, b.e14 * c.e0123, b.e23 * c.e04, b.e24 * c.e03, b.e34 * c.e02, b.s * c.e0234);
    lemma_mul_is_associative(x, b.e01, c.e1234);
    lemma_mul_is_associative(x, b.e0123, c.e14);
    lemma_mul_is_associative(x, b.e0124, c.e13);
    lemma_mul_is_associative(x, b.e0134, c.e12);
    lemma_mul_is_associative(x, b.e02, c.e34);
    lemma_mul_is_associative(x, b.e0234, c.s);
    lemma_mul_is_associative(x, b.e03, c.e24);
    lemma_mul_is_associative(x, b.e04, c.e23);
    lemma_mul_is_associative(x, b.e12, c.e0134);
    lemma_mul_is_associative(x, b.e1234, c.e01);
    lemma_mul_is_associative(x, b.e13, c.e0124);
    lemma_mul_is_associative(x, b.e14, c.e0123);
    lemma_mul_is_associative(x, b.e23, c.e04);
    lemma_mul_is_associative(x, b.e24, c.e03);
    lemma_mul_is_associative(x, b.e34, c.e02);
    lemma_mul_is_associative(x, b.s, c.e0234);
}

/// The `e1234` row of a product, times a factor, in expanded form.
proof fn row_l_e1234(a: RotorModel, b: RotorModel, z: int)
    ensures
        (a.e12 * b.e34 + a.e1234 * b.s - a.e13 * b.e24 + a.e14 * b.e23 + a.e23 * b.e14 - a.e24 * b.e13 + a.e34 * b.e12 + a.s * b.e1234) * z == a.e12 * b.e34 * z + a.e1234 * b.s * z - a.e13 * b.e24 * z + a.e14 * b.e23 * z + a.e23 * b.e14 * z - a.e24 * b.e13 * z + a.e34 * b.e12 * z + a.s * b.e1234 * z,
{
    dist_l_p16(a.e12 * b.e34, a.e1234 * b.s, a.e13 * b.e24, a.e14 * b.e23, a.e23 * b.e14, a.e24 * b.e13, a.e34 * b.e12, a.s * b.e1234, z);
}

/// A factor times the `e1234` row of a product, in expanded form.
proof fn row_r_e1234(x: int, b: RotorModel, c: RotorModel)
    ensures
        x * (b.e12 * c.e34 + b.e1234 * c.s - b.e13 * c.e24 + b.e14 * c.e23 + b.e23 * c.e14 - b.e24 * c.e13 + b.e34 * c.e12 + b.s * c.e1234) == x * b.e12 * c.e34 + x * b.e1234 * c.s - x * b.e13 * c.e24 + x * b.e14 * c.e23 + x * b.e23 * c.e14 - x * b.e24 * c.e13 + x * b.e34 * c.e12 + x * b.s * c.e1234,
{
    dist_r_p16(x, b.e12 * c.e34, b.e1234 * c.s, b.e13 * c.e24, b.e14 * c.e23, b.e23 * c.e14, b.e24 * c.e13, b.e34 * c.e12, b.s * c.e1234);
    lemma_mul_is_associative(x, b.e12, c.e34);
    lemma_mul_is_associative(x, b.e1234, c.s);
    lemma_mul_is_associative(x, b.e13, c.e24);
    lemma_mul_is_associative(x, b.e14, c.e23);
    lemma_mul_is_associative(x, b.e23, c.e14);
    lemma_mul_is_associative(x, b.e24, c.e13);
    lemma_mul_is_associative(x, b.e34, c.e12);
    lemma_mul_is_associative(x, b.s, c.e1234);
}

/// The `s` coefficient of the two triple products agrees.
proof fn assoc_s(a: RotorModel, b: RotorModel, c: RotorModel)
    ensures
        spec_compose(spec_compose(a, b), c).s == spec_compose(a, spec_compose(b, c)).s,
{
    row_l_e12(a, b, c.e12);
    row_l_e1234(a, b, c.e1234);
    row_l_e13(a, b, c.e13);
    row_l_e14(a, b, c.e14);
    row_l_e23(a, b, c.e23);
    row_l_e24(a, b, c.e24);
    row_l_e34(a, b, c.e34);
    row_l_s(a, b, c.s);
    row_r_e12(a.e12, b, c);
    row_r_e1234(a.e1234, b, c);
    row_r_e13(a.e13, b, c);
    row_r_e14(a.e14, b, c);
    row_r_e23(a.e23, b, c);
    row_r_e24(a.e24, b, c);
    row_r_e34(a.e34, b, c);
    row_r_s(a.s, b, c);
}

/// The `e01` coefficient of the two triple products agrees.
proof fn assoc_e01(a: RotorModel, b: RotorModel, c: RotorModel)
    ensures
        spec_compose(spec_compose(a, b), c).e01 == spec_compose(a, spec_compose(b, c)).e01,
{
    row_l_e01(a, b, c.s);
    row_l_e0123(a, b, c.e23);
    row_l_e0124(a, b, c.e24);
    row_l_e0134(a, b, c.e34);
    row_l_e02(a, b, c.e12);
    row_l_e0234(a, b, c.e1234);
    row_l_e03(a, b, c.e13);
    row_l_e04(a, b, c.e14);
    row_l_e12(a, b, c.e02);
    row_l_e1234(a, b, c.e0234);
    row_l_e13(a, b, c.e03);
    row_l_e14(a, b, c.e04);
    row_l_e23(a, b, c.e0123);
    row_l_e24(a, b, c.e0124);
    row_l_e34(a, b, c.e0134);
    row_l_s(a, b, c.e01);
    row_r_s(a.e01, b, c);
    row_r_e23(a.e0123, b, c);
    row_r_e24(a.e0124, b, c);
    row_r_e34(a.e0134, b, c);
    row_r_e12(a.e02, b, c);
    row_r_e1234(a.e0234, b, c);
    row_r_e13(a.e03, b, c);
    row_r_e14(a.e04, b, c);
    row_r_e02(a.e12, b, c);
    row_r_e0234(a.e1234, b, c);
    row_r_e03(a.e13, b, c);
    row_r_e04(a.e14, b, c);
    row_r_e0123(a.e23, b, c);
    row_r_e0124(a.e24, b, c);
    row_r_e0134(a.e34, b, c);
    row_r_e01(a.s, b, c);
}

/// The `e02` coefficient of the two triple products agrees.
proof fn assoc_e02(a: RotorModel, b: RotorModel, c: RotorModel)
    ensures
        spec_compose(spec_compose(a, b), c).e02 == spec_compose(a, spec_compose(b, c)).e02,
{
    row_l_e01(a, b, c.e12);
    row_l_e0123(a, b, c.e13);
    row_l_e0124(a, b, c.e14);
    row_l_e0134(a, b, c.e1234);
    row_l_e02(a, b, c.s);
    row_l_e0234(a, b, c.e34);
    row_l_e03(a, b, c.e23);
    row_l_e04(a, b, c.e24);
    row_l_e12(a, b, c.e01);
    row_l_e1234(a, b, c.e0134);
    row_l_e13(a, b, c.e0123);
    row_l_e14(a, b, c.e0124);
    row_l_e23(a, b, c.e03);
    row_l_e24(a, b, c.e04);
    row_l_e34(a, b, c.e0234);
    row_l_s(a, b, c.e02);
    row_r_e12(a.e01, b, c);
    row_r_e13(a.e0123, b, c);
    row_r_e14(a.e0124, b, c);
    row_r_e1234(a.e0134, b, c);
    row_r_s(a.e02, b, c);
    row_r_e34(a.e0234, b, c);
    row_r_e23(a.e03, b, c);
    row_r_e24(a.e04, b, c);
    row_r_e01(a.e12, b, c);
    row_r_e0134(a.e1234, b, c);
    row_r_e0123(a.e13, b, c);
    row_r_e0124(a.e14, b, c);
    row_r_e03(a.e23, b, c);
    row_r_e04(a.e24, b, c);
    row_r_e0234(a.e34, b, c);
    row_r_e02(a.s, b, c);
}

/// The `e03` coefficient of the two triple products agrees.
proof fn assoc_e03(a: RotorModel, b: RotorModel, c: RotorModel)
    ensures
        spec_compose(spec_compose(a, b), c).e03 == spec_compose(a, spec_compose(b, c)).e03,
{
    row_l_e01(a, b, c.e13);
    row_l_e0123(a, b, c.e12);
    row_l_e0124(a, b, c.e1234);
    row_l_e0134(a, b, c.e14);
    row_l_e02(a, b, c.e23);
    row_l_e0234(a, b, c.e24);
    row_l_e03(a, b, c.s);
    row_l_e04(a, b, c.e34);
    row_l_e12(a, b, c.e0123);
    row_l_e1234(a, b, c.e0124);
    row_l_e13(a, b, c.e01);
    row_l_e14(a, b, c.e0134);
    row_l_e23(a, b, c.e02);
    row_l_e24(a, b, c.e0234);
    row_l_e34(a, b, c.e04);
    row_l_s(a, b, c.e03);
    row_r_e13(a.e01, b, c);
    row_r_e12(a.e0123, b, c);
    row_r_e1234(a.e0124, b, c);
    row_r_e14(a.e0134, b, c);
    row_r_e23(a.e02, b, c);
    row_r_e24(a.e0234, b, c);
    row_r_s(a.e03, b, c);
    row_r_e34(a.e04, b, c);
    row_r_e0123(a.e12, b, c);
    row_r_e0124(a.e1234, b, c);
    row_r_e01(a.e13, b, c);
    row_r_e0134(a.e14, b, c);
    row_r_e02(a.e23, b, c);
    row_r_e0234(a.e24, b, c);
    row_r_e04(a.e34, b, c);
    row_r_e03(a.s, b, c);
}

/// The `e04` coefficient of the two triple products agrees.
proof fn assoc_e04(a: RotorModel, b: RotorModel, c: RotorModel)
    ensures
        spec_compose(spec_compose(a, b), c).e04 == spec_compose(a, spec_compose(b, c)).e04,
{
    row_l_e01(a, b, c.e14);
    row_l_e0123(a, b, c.e1234);
    row_l_e0124(a, b, c.e12);
    row_l_e0134(a, b, c.e13);
    row_l_e02(a, b, c.e24);
    row_l_e0234(a, b, c.e23);
    row_l_e03(a, b, c.e34);
    row_l_e04(a, b, c.s);
    row_l_e12(a, b, c.e0124);
    row_l_e1234(a, b, c.e0123);
    row_l_e13(a, b, c.e0134);
    row_l_e14(a, b, c.e01);
    row_l_e23(a, b, c.e0234);
    row_l_e24(a, b, c.e02);
    row_l_e34(a, b, c.e03);
    row_l_s(a, b, c.e04);
    row_r_e14(a.e01, b, c);
    row_r_e1234(a.e0123, b, c);
    row_r_e12(a.e0124, b, c);
    row_r_e13(a.e0134, b, c);
    row_r_e24(a.e02, b, c);
    row_r_e23(a.e0234, b, c);
    row_r_e34(a.e03, b, c);
    row_r_s(a.e04, b, c);
    row_r_e0124(a.e12, b, c);
    row_r_e0123(a.e1234, b, c);
    row_r_e0134(a.e13, b, c);
    row_r_e01(a.e14, b, c);
    row_r_e0234(a.e23, b, c);
    row_r_e02(a.e24, b, c);
    row_r_e03(a.e34, b, c);
    row_r_e04(a.s, b, c);
}

/// The `e12` coefficient of the two triple products agrees.
proof fn assoc_e12(a: RotorModel, b: RotorModel, c: RotorModel)
    ensures
        spec_compose(spec_compose(a, b), c).e12 == spec_compose(a, spec_compose(b, c)).e12,
{
    row_l_e12(a, b, c.s);
    row_l_e1234(a, b, c.e34);
    row_l_e13(a, b, c.e23);
    row_l_e14(a, b, c.e24);
    row_l_e23(a, b, c.e13);
    row_l_e24(a, b, c.e14);
    row_l_e34(a, b, c.e1234);
    row_l_s(a, b, c.e12);
    row_r_s(a.e12, b, c);
    row_r_e34(a.e1234, b, c);
    row_r_e23(a.e13, b, c);
    row_r_e24(a.e14, b, c);
    row_r_e13(a.e23, b, c);
    row_r_e14(a.e24, b, c);
    row_r_e1234(a.e34, b, c);
    row_r_e12(a.s, b, c);
}

/// The `e13` coefficient of the two triple products agrees.
proof fn assoc_e13(a: RotorModel, b: RotorModel, c: RotorModel)
    ensures
        spec_compose(spec_compose(a, b), c).e13 == spec_compose(a, spec_compose(b, c)).e13,
{
    row_l_e12(a, b, c.e23);
    row_l_e1234(a, b, c.e24);
    row_l_e13(a, b, c.s);
    row_l_e14(a, b, c.e34);
    row_l_e23(a, b, c.e12);
    row_l_e24(a, b, c.e1234);
    row_l_e34(a, b, c.e14);
    row_l_s(a, b, c.e13);
    row_r_e23(a.e12, b, c);
    row_r_e24(a.e1234, b, c);
    row_r_s(a.e13, b, c);
    row_r_e34(a.e14, b, c);
    row_r_e12(a.e23, b, c);
    row_r_e1234(a.e24, b, c);
    row_r_e14(a.e34, b, c);
    row_r_e13(a.s, b, c);
}

/// The `e14` coefficient of the two triple products agrees.
proof fn assoc_e14(a: RotorModel, b: RotorModel, c: RotorModel)
    ensures
        spec_compose(spec_compose(a, b), c).e14 == spec_compose(a, spec_compose(b, c)).e14,
{
    row_l_e12(a, b, c.e24);
    row_l_e1234(a, b, c.e23);
    row_l_e13(a, b, c.e34);
    row_l_e14(a, b, c.s);
    row_l_e23(a, b, c.e1234);
    row_l_e24(a, b, c.e12);
    row_l_e34(a, b, c.e13);
    row_l_s(a, b, c.e14);
    row_r_e24(a.e12, b, c);
    row_r_e23(a.e1234, b, c);
    row_r_e34(a.e13, b, c);
    row_r_s(a.e14, b, c);
    row_r_e1234(a.e23, b, c);
    row_r_e12(a.e24, b, c);
    row_r_e13(a.e34, b, c);
    row_r_e14(a.s, b, c);
}

/// The `e23` coefficient of the two triple products agrees.
proof fn assoc_e23(a: RotorModel, b: RotorModel, c: RotorModel)
    ensures
        spec_compose(spec_compose(a, b), c).e23 == spec_compose(a, spec_compose(b, c)).e23,
{
    row_l_e12(a, b, c.e13);
    row_l_e1234(a, b, c.e14);
    row_l_e13(a, b, c.e12);
    row_l_e14(a, b, c.e1234);
    row_l_e23(a, b, c.s);
    row_l_e24(a, b, c.e34);
    row_l_e34(a, b, c.e24);
    row_l_s(a, b, c.e23);
    row_r_e13(a.e12, b, c);
    row_r_e14(a.e1234, b, c);
    row_r_e12(a.e13, b, c);
    row_r_e1234(a.e14, b, c);
    row_r_s(a.e23, b, c);
    row_r_e34(a.e24, b, c);
    row_r_e24(a.e34, b, c);
    row_r_e23(a.s, b, c);
}

/// The `e24` coefficient of the two triple products agrees.
proof fn assoc_e24(a: RotorModel, b: RotorModel, c: RotorModel)
    ensures
        spec_compose(spec_compose(a, b), c).e24 == spec_compose(a, spec_compose(b, c)).e24,
{
    row_l_e12(a, b, c.e14);
    row_l_e1234(a, b, c.e13);
    row_l_e13(a, b, c.e1234);
    row_l_e14(a, b, c.e12);
    row_l_e23(a, b, c.e34);
    row_l_e24(a, b, c.s);
    row_l_e34(a, b, c.e23);
    row_l_s(a, b, c.e24);
    row_r_e14(a.e12, b, c);
    row_r_e13(a.e1234, b, c);
    row_r_e1234(a.e13, b, c);
    row_r_e12(a.e14, b, c);
    row_r_e34(a.e23, b, c);
    row_r_s(a.e24, b, c);
    row_r_e23(a.e34, b, c);
    row_r_e24(a.s, b, c);
}

/// The `e34` coefficient of the two triple products agrees.
proof fn assoc_e34(a: RotorModel, b: RotorModel, c: RotorModel)
    ensures
        spec_compose(spec_compose(a, b), c).e34 == spec_compose(a, spec_compose(b, c)).e34,
{
    row_l_e12(a, b, c.e1234);
    row_l_e1234(a, b, c.e12);
    row_l_e13(a, b, c.e14);
    row_l_e14(a, b, c.e13);
    row_l_e23(a, b, c.e24);
    row_l_e24(a, b, c.e23);
    row_l_e34(a, b, c.s);
    row_l_s(a, b, c.e34);
    row_r_e1234(a.e12, b, c);
    row_r_e12(a.e1234, b, c);
    row_r_e14(a.e13, b, c);
    row_r_e13(a.e14, b, c);
    row_r_e24(a.e23, b, c);
    row_r_e23(a.e24, b, c);
    row_r_s(a.e34, b, c);
    row_r_e34(a.s, b, c);
}

/// The `e0123` coefficient of the two triple products agrees.
proof fn assoc_e0123(a: RotorModel, b: RotorModel, c: RotorModel)
    ensures
        spec_compose(spec_compose(a, b), c).e0123 == spec_compose(a, spec_compose(b, c)).e0123,
{
    row_l_e01(a, b, c.e23);
    row_l_e0123(a, b, c.s);
    row_l_e0124(a, b, c.e34);
    row_l_e0134(a, b, c.e24);
    row_l_e02(a, b, c.e13);
    row_l_e0234(a, b, c.e14);
    row_l_e03(a, b, c.e12);
    row_l_e04(a, b, c.e1234);
    row_l_e12(a, b, c.e03);
    row_l_e1234(a, b, c.e04);
    row_l_e13(a, b, c.e02);
    row_l_e14(a, b, c.e0234);
    row_l_e23(a, b, c.e01);
    row_l_e24(a, b, c.e0134);
    row_l_e34(a, b, c.e0124);
    row_l_s(a, b, c.e0123);
    row_r_e23(a.e01, b, c);
    row_r_s(a.e0123, b, c);
    row_r_e34(a.e0124, b, c);
    row_r_e24(a.e0134, b, c);
    row_r_e13(a.e02, b, c);
    row_r_e14(a.e0234, b, c);
    row_r_e12(a.e03, b, c);
    row_r_e1234(a.e04, b, c);
    row_r_e03(a.e12, b, c);
    row_r_e04(a.e1234, b, c);
    row_r_e02(a.e13, b, c);
    row_r_e0234(a.e14, b, c);
    row_r_e01(a.e23, b, c);
    row_r_e0134(a.e24, b, c);
    row_r_e0124(a.e34, b, c);
    row_r_e0123(a.s, b, c);
}

/// The `e0124` coefficient of the two triple products agrees.
proof fn assoc_e0124(a: RotorModel, b: RotorModel, c: RotorModel)
    ensures
        spec_compose(spec_compose(a, b), c).e0124 == spec_compose(a, spec_compose(b, c)).e0124,
{
    row_l_e01(a, b, c.e24);
    row_l_e0123(a, b, c.e34);
    row_l_e0124(a, b, c.s);
    row_l_e0134(a, b, c.e23);
    row_l_e02(a, b, c.e14);
    row_l_e0234(a, b, c.e13);
    row_l_e03(a, b, c.e1234);
    row_l_e04(a, b, c.e12);
    row_l_e12(a, b, c.e04);
    row_l_e1234(a, b, c.e03);
    row_l_e13(a, b, c.e0234);
    row_l_e14(a, b, c.e02);
    row_l_e23(a, b, c.e0134);
    row_l_e24(a, b, c.e01);
    row_l_e34(a, b, c.e0123);
    row_l_s(a, b, c.e0124);
    row_r_e24(a.e01, b, c);
    row_r_e34(a.e0123, b, c);
    row_r_s(a.e0124, b, c);
    row_r_e23(a.e0134, b, c);
    row_r_e14(a.e02, b, c);
    row_r_e13(a.e0234, b, c);
    row_r_e1234(a.e03, b, c);
    row_r_e12(a.e04, b, c);
    row_r_e04(a.e12, b, c);
    row_r_e03(a.e1234, b, c);
    row_r_e0234(a.e13, b, c);
    row_r_e02(a.e14, b, c);
    row_r_e0134(a.e23, b, c);
    row_r_e01(a.e24, b, c);
    row_r_e0123(a.e34, b, c);
    row_r_e0124(a.s, b, c);
}

/// The `e0134` coefficient of the two triple products agrees.
proof fn assoc_e0134(a: RotorModel, b: RotorModel, c: RotorModel)
    ensures
        spec_compose(spec_compose(a, b), c).e0134 == spec_compose(a, spec_compose(b, c)).e0134,
{
    row_l_e01(a, b, c.e34);
    row_l_e0123(a, b, c.e24);
    row_l_e0124(a, b, c.e23);
    row_l_e0134(a, b, c.s);
    row_l_e02(a, b, c.e1234);
    row_l_e0234(a, b, c.e12);
    row_l_e03(a, b, c.e14);
    row_l_e04(a, b, c.e13);
    row_l_e12(a, b, c.e0234);
    row_l_e1234(a, b, c.e02);
    row_l_e13(a, b, c.e04);
    row_l_e14(a, b, c.e03);
    row_l_e23(a, b, c.e0124);
    row_l_e24(a, b, c.e0123);
    row_l_e34(a, b, c.e01);
    row_l_s(a, b, c.e0134);
    row_r_e34(a.e01, b, c);
    row_r_e24(a.e0123, b, c);
    row_r_e23(a.e0124, b, c);
    row_r_s(a.e0134, b, c);
    row_r_e1234(a.e02, b, c);
    row_r_e12(a.e0234, b, c);
    row_r_e14(a.e03, b, c);
    row_r_e13(a.e04, b, c);
    row_r_e0234(a.e12, b, c);
    row_r_e02(a.e1234, b, c);
    row_r_e04(a.e13, b, c);
    row_r_e03(a.e14, b, c);
    row_r_e0124(a.e23, b, c);
    row_r_e0123(a.e24, b, c);
    row_r_e01(a.e34, b, c);
    row_r_e0134(a.s, b, c);
}

/// The `e0234` coefficient of the two triple products agrees.
proof fn assoc_e0234(a: RotorModel, b: RotorModel, c: RotorModel)
    ensures
        spec_compose(spec_compose(a, b), c).e0234 == spec_compose(a, spec_compose(b, c)).e0234,
{
    row_l_e01(a, b, c.e1234);
    row_l_e0123(a, b, c.e14);
    row_l_e0124(a, b, c.e13);
    row_l_e0134(a, b, c.e12);
    row_l_e02(a, b, c.e34);
    row_l_e0234(a, b, c.s);
    row_l_e03(a, b, c.e24);
    row_l_e04(a, b, c.e23);
    row_l_e12(a, b, c.e0134);
    row_l_e1234(a, b, c.e01);
    row_l_e13(a, b, c.e0124);
    row_l_e14(a, b, c.e0123);
    row_l_e23(a, b, c.e04);
    row_l_e24(a, b, c.e03);
    row_l_e34(a, b, c.e02);
    row_l_s(a, b, c.e0234);
    row_r_e1234(a.e01, b, c);
    row_r_e14(a.e0123, b, c);
    row_r_e13(a.e0124, b, c);
    row_r_e12(a.e0134, b, c);
    row_r_e34(a.e02, b, c);
    row_r_s(a.e0234, b, c);
    row_r_e24(a.e03, b, c);
    row_r_e23(a.e04, b, c);
    row_r_e0134(a.e12, b, c);
    row_r_e01(a.e1234, b, c);
    row_r_e0124(a.e13, b, c);
    row_r_e0123(a.e14, b, c);
    row_r_e04(a.e23, b, c);
    row_r_e03(a.e24, b, c);
    row_r_e02(a.e34, b, c);
    row_r_e0234(a.s, b, c);
}

/// The `e1234` coefficient of the two triple products agrees.
proof fn assoc_e1234(a: RotorModel, b: RotorModel, c: RotorModel)
    ensures
        spec_compose(spec_compose(a, b), c).e1234 == spec_compose(a, spec_compose(b, c)).e1234,
{
    row_l_e12(a, b, c.e34);
    row_l_e1234(a, b, c.s);
    row_l_e13(a, b, c.e24);
    row_l_e14(a, b, c.e23);
    row_l_e23(a, b, c.e14);
    row_l_e24(a, b, c.e13);
    row_l_e34(a, b, c.e12);
    row_l_s(a, b, c.e1234);
    row_r_e34(a.e12, b, c);
    row_r_s(a.e1234, b, c);
    row_r_e24(a.e13, b, c);
    row_r_e23(a.e14, b, c);
    row_r_e14(a.e23, b, c);
    row_r_e13(a.e24, b, c);
    row_r_e12(a.e34, b, c);
    row_r_e1234(a.s, b, c);
}

/// The geometric product is associative: `(a b) c == a (b c)`, exactly,
/// numerators and denominator alike.
pub proof fn lemma_compose_assoc(a: RotorModel, b: RotorModel, c: RotorModel)
    ensures
        spec_compose(spec_compose(a, b), c) == spec_compose(a, spec_compose(b, c)),
{
    assoc_s(a, b, c);
    assoc_e01(a, b, c);
    assoc_e02(a, b, c);
    assoc_e03(a, b, c);
    assoc_e04(a, b, c);
    assoc_e12(a, b, c);
    assoc_e13(a, b, c);
    assoc_e14(a, b, c);
    assoc_e23(a, b, c);
    assoc_e24(a, b, c);
    assoc_e34(a, b, c);
    assoc_e0123(a, b, c);
    assoc_e0124(a, b, c);
    assoc_e0134(a, b, c);
    assoc_e0234(a, b, c);
    assoc_e1234(a, b, c);
    assert((a.den * b.den) * c.den == a.den * (b.den * c.den)) by (nonlinear_arith);
    assert(spec_compose(spec_compose(a, b), c) == spec_compose(a, spec_compose(b, c)));
}

} // verus!
