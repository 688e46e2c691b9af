//! Exact rational motors for rigid motions in 4-dimensional Euclidean space.
//!
//! A motor is an element of the even subalgebra of the Clifford algebra over
//! basis vectors `e0..e4`, where `e0` squares to zero (the ideal direction
//! that encodes translations) and `e1..e4` square to one. Every quantity is
//! held as an integer numerator over a shared positive denominator, so all
//! of the algebra — composition, reversal, squared magnitude, the sandwich
//! transforms of points and directions — is computed exactly, and its laws
//! (associativity, magnitude preservation, translation invariance of
//! directions, round trips) are proved rather than sampled.

pub mod arith;
pub mod rotor;
pub mod transform;
pub mod point;
pub mod laws;
pub mod movement;
pub mod assoc;
pub mod magnitude;
