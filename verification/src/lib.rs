//! Exact integer model of the 4D geometric-algebra rotor/transform library
//! behind a 4D ray-tracing playground.
//!
//! The algebra is the Clifford algebra with one null basis vector `e0` and
//! four positive basis vectors `e1..e4`.  Three even subalgebras are
//! materialised as plain records of `i64` coefficients: a reduced rotor
//! without `e2` ([`rotor::NoE2Rotor`]), the full 4D rotor ([`rotor::Rotor`]),
//! and the projective motor ([`transform::Transform`]) that also carries
//! translation.  All arithmetic is exact; rotation constructors take the
//! half-angle cosine/sine pair as fixed-point integers, and `normalised`
//! rescales a rotor so that its magnitude is close to [`UNIT`].
//!
//! The signed-distance-field scene logic ([`sdf`]) and the sphere projection
//! step that keeps surface-bound spheres oriented along the field's gradient
//! are built on the same integer grid.

pub mod laws;
pub mod num;
pub mod rotor;
pub mod sdf;
pub mod transform;
pub mod vectors;

use vstd::prelude::*;

verus! {

/// Fixed-point scale: a rotor of squared magnitude `UNIT * UNIT` stands for a
/// unit rotor.  `normalised` rescales to this length.
pub const UNIT: i64 = 4096;

/// Coefficient bound under which a product of two multivectors cannot
/// overflow `i64`.
pub const COEFF_LIMIT: i64 = 0x1000_0000;

/// Coefficient bound under which a sandwich product (degree three) cannot
/// overflow `i64`.
pub const SANDWICH_LIMIT: i64 = 0x4_0000;

/// Element bound under which a sum of four squares cannot overflow `i64`.
pub const MAG_LIMIT: i64 = 0x4000_0000;

} // verus!
