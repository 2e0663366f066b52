//! The projective motor ("transform"): a rotor of the full algebra with the
//! null vector `e0`, modelling rigid motion, rotation and translation, in 4D
//! projective space, with exact `i64` coefficient arithmetic.
//!
//! Points are the 4-blades `(e1 - x e0) ^ (e2 - y e0) ^ (e3 - z e0) ^
//! (e4 - w e0)`; a motor moves a point by the left-reversed sandwich
//! `reverse(t) * point * t`, with the contraction `point | (1 - reverse(t) *
//! t)` added so that the result stays in the point group, and coordinates
//! are read back by the meet with each basis vector.

use vstd::prelude::*;

use crate::num::{abs_of, div_to_zero, div_trunc, isqrt, lemma_component_within_root,
    lemma_div_trunc_bound, lemma_div_trunc_even_half, lemma_mul_within, lemma_squares_nonneg,
    sqrt_floor};
use crate::rotor::{rotate_direction, rotor_in_limit, NoE2Rotor, Rotor, RotorModel};
use crate::vectors::{Vec4Model, Vector4};
use crate::{COEFF_LIMIT, SANDWICH_LIMIT, UNIT};

verus! {

/// Projective motor: even element of the full algebra `e0..e4`.
#[derive(Debug, Clone, Copy, PartialEq, Eq, Structural)]
pub struct Transform {
    pub s: i64,
    pub e0e1: i64,
    pub e0e2: i64,
    pub e0e3: i64,
    pub e0e4: i64,
    pub e1e2: i64,
    pub e1e3: i64,
    pub e1e4: i64,
    pub e2e3: i64,
    pub e2e4: i64,
    pub e3e4: i64,
    pub e0e1e2e3: i64,
    pub e0e1e2e4: i64,
    pub e0e1e3e4: i64,
    pub e0e2e3e4: i64,
    pub e1e2e3e4: i64,
}

/// The value of a [`Transform`]: its coefficients as mathematical integers.
pub struct TransformModel {
    pub s: int,
    pub e0e1: int,
    pub e0e2: int,
    pub e0e3: int,
    pub e0e4: int,
    pub e1e2: int,
    pub e1e3: int,
    pub e1e4: int,
    pub e2e3: int,
    pub e2e4: int,
    pub e3e4: int,
    pub e0e1e2e3: int,
    pub e0e1e2e4: int,
    pub e0e1e3e4: int,
    pub e0e2e3e4: int,
    pub e1e2e3e4: int,
}

impl View for Transform {
    type V = TransformModel;

    open spec fn view(&self) -> TransformModel {
        TransformModel {
            s: self.s as int,
            e0e1: self.e0e1 as int,
            e0e2: self.e0e2 as int,
            e0e3: self.e0e3 as int,
            e0e4: self.e0e4 as int,
            e1e2: self.e1e2 as int,
            e1e3: self.e1e3 as int,
            e1e4: self.e1e4 as int,
            e2e3: self.e2e3 as int,
            e2e4: self.e2e4 as int,
            e3e4: self.e3e4 as int,
            e0e1e2e3: self.e0e1e2e3 as int,
            e0e1e2e4: self.e0e1e2e4 as int,
            e0e1e3e4: self.e0e1e3e4 as int,
            e0e2e3e4: self.e0e2e3e4 as int,
            e1e2e3e4: self.e1e2e3e4 as int,
        }
    }
}

/// `reverse(t) * t` of a motor: a scalar plus the quadvector parts.
#[derive(Debug, Clone, Copy, PartialEq, Eq, Structural)]
pub struct TransformSquaredMagnitude {
    pub s: i64,
    pub e0e1e2e3: i64,
    pub e0e1e2e4: i64,
    pub e0e1e3e4: i64,
    pub e0e2e3e4: i64,
    pub e1e2e3e4: i64,
}

/// The value of a [`TransformSquaredMagnitude`].
pub struct TransformMagModel {
    pub s: int,
    pub e0e1e2e3: int,
    pub e0e1e2e4: int,
    pub e0e1e3e4: int,
    pub e0e2e3e4: int,
    pub e1e2e3e4: int,
}

impl View for TransformSquaredMagnitude {
    type V = TransformMagModel;

    open spec fn view(&self) -> TransformMagModel {
        TransformMagModel {
            s: self.s as int,
            e0e1e2e3: self.e0e1e2e3 as int,
            e0e1e2e4: self.e0e1e2e4 as int,
            e0e1e3e4: self.e0e1e3e4 as int,
            e0e2e3e4: self.e0e2e3e4 as int,
            e1e2e3e4: self.e1e2e3e4 as int,
        }
    }
}

/// Every coefficient of `m` lies within `lim`.
pub open spec fn transform_in_limit(m: TransformModel, lim: int) -> bool {
    -lim <= m.s <= lim
        && -lim <= m.e0e1 <= lim
        && -lim <= m.e0e2 <= lim
        && -lim <= m.e0e3 <= lim
        && -lim <= m.e0e4 <= lim
        && -lim <= m.e1e2 <= lim
        && -lim <= m.e1e3 <= lim
        && -lim <= m.e1e4 <= lim
        && -lim <= m.e2e3 <= lim
        && -lim <= m.e2e4 <= lim
        && -lim <= m.e3e4 <= lim
        && -lim <= m.e0e1e2e3 <= lim
        && -lim <= m.e0e1e2e4 <= lim
        && -lim <= m.e0e1e3e4 <= lim
        && -lim <= m.e0e2e3e4 <= lim
        && -lim <= m.e1e2e3e4 <= lim
}

/// The identity motor: scalar one.
pub open spec fn transform_identity() -> TransformModel {
    TransformModel {
        s: 1,
        e0e1: 0,
        e0e2: 0,
        e0e3: 0,
        e0e4: 0,
        e1e2: 0,
        e1e3: 0,
        e1e4: 0,
        e2e3: 0,
        e2e4: 0,
        e3e4: 0,
        e0e1e2e3: 0,
        e0e1e2e4: 0,
        e0e1e3e4: 0,
        e0e2e3e4: 0,
        e1e2e3e4: 0,
    }
}

/// Reversal: every blade of grade two changes sign, grade four keeps its.
pub open spec fn transform_reverse(m: TransformModel) -> TransformModel {
    TransformModel {
        s: m.s,
        e0e1: -m.e0e1,
        e0e2: -m.e0e2,
        e0e3: -m.e0e3,
        e0e4: -m.e0e4,
        e1e2: -m.e1e2,
        e1e3: -m.e1e3,
        e1e4: -m.e1e4,
        e2e3: -m.e2e3,
        e2e4: -m.e2e4,
        e3e4: -m.e3e4,
        e0e1e2e3: m.e0e1e2e3,
        e0e1e2e4: m.e0e1e2e4,
        e0e1e3e4: m.e0e1e3e4,
        e0e2e3e4: m.e0e2e3e4,
        e1e2e3e4: m.e1e2e3e4,
    }
}

/// Apply `a` then `b`: the geometric product `a * b`; under the
/// left-reversed sandwich the left factor acts first.
pub open spec fn transform_and_then(a: TransformModel, b: TransformModel) -> TransformModel {
    TransformModel {
        s: -(a.e1e2 * b.e1e2) + a.e1e2e3e4 * b.e1e2e3e4 - a.e1e3 * b.e1e3 - a.e1e4 * b.e1e4 - a.e2e3 * b.e2e3 - a.e2e4 * b.e2e4 - a.e3e4 * b.e3e4 + a.s * b.s,
        e0e1: a.e0e1 * b.s - a.e0e1e2e3 * b.e2e3 - a.e0e1e2e4 * b.e2e4 - a.e0e1e3e4 * b.e3e4 - a.e0e2 * b.e1e2 + a.e0e2e3e4 * b.e1e2e3e4 - a.e0e3 * b.e1e3 - a.e0e4 * b.e1e4 + a.e1e2 * b.e0e2 - a.e1e2e3e4 * b.e0e2e3e4 + a.e1e3 * b.e0e3 + a.e1e4 * b.e0e4 - a.e2e3 * b.e0e1e2e3 - a.e2e4 * b.e0e1e2e4 - a.e3e4 * b.e0e1e3e4 + a.s * b.e0e1,
        e0e2: a.e0e1 * b.e1e2 + a.e0e1e2e3 * b.e1e3 + a.e0e1e2e4 * b.e1e4 - a.e0e1e3e4 * b.e1e2e3e4 + a.e0e2 * b.s - a.e0e2e3e4 * b.e3e4 - a.e0e3 * b.e2e3 - a.e0e4 * b.e2e4 - a.e1e2 * b.e0e1 + a.e1e2e3e4 * b.e0e1e3e4 + a.e1e3 * b.e0e1e2e3 + a.e1e4 * b.e0e1e2e4 + a.e2e3 * b.e0e3 + a.e2e4 * b.e0e4 - a.e3e4 * b.e0e2e3e4 + a.s * b.e0e2,
        e0e3: a.e0e1 * b.e1e3 - a.e0e1e2e3 * b.e1e2 + a.e0e1e2e4 * b.e1e2e3e4 + a.e0e1e3e4 * b.e1e4 + a.e0e2 * b.e2e3 + a.e0e2e3e4 * b.e2e4 + a.e0e3 * b.s - a.e0e4 * b.e3e4 - a.e1e2 * b.e0e1e2e3 - a.e1e2e3e4 * b.e0e1e2e4 - a.e1e3 * b.e0e1 + a.e1e4 * b.e0e1e3e4 - a.e2e3 * b.e0e2 + a.e2e4 * b.e0e2e3e4 + a.e3e4 * b.e0e4 + a.s * b.e0e3,
        e0e4: a.e0e1 * b.e1e4 - a.e0e1e2e3 * b.e1e2e3e4 - a.e0e1e2e4 * b.e1e2 - a.e0e1e3e4 * b.e1e3 + a.e0e2 * b.e2e4 - a.e0e2e3e4 * b.e2e3 + a.e0e3 * b.e3e4 + a.e0e4 * b.s - a.e1e2 * b.e0e1e2e4 + a.e1e2e3e4 * b.e0e1e2e3 - a.e1e3 * b.e0e1e3e4 - a.e1e4 * b.e0e1 - a.e2e3 * b.e0e2e3e4 - a.e2e4 * b.e0e2 - a.e3e4 * b.e0e3 + a.s * b.e0e4,
        e1e2: a.e1e2 * b.s - a.e1e2e3e4 * b.e3e4 - a.e1e3 * b.e2e3 - a.e1e4 * b.e2e4 + a.e2e3 * b.e1e3 + a.e2e4 * b.e1e4 - a.e3e4 * b.e1e2e3e4 + a.s * b.e1e2,
        e1e3: a.e1e2 * b.e2e3 + a.e1e2e3e4 * b.e2e4 + a.e1e3 * b.s - a.e1e4 * b.e3e4 - a.e2e3 * b.e1e2 + a.e2e4 * b.e1e2e3e4 + a.e3e4 * b.e1e4 + a.s * b.e1e3,
        e1e4: a.e1e2 * b.e2e4 - a.e1e2e3e4 * b.e2e3 + a.e1e3 * b.e3e4 + a.e1e4 * b.s - a.e2e3 * b.e1e2e3e4 - a.e2e4 * b.e1e2 - a.e3e4 * b.e1e3 + a.s * b.e1e4,
        e2e3: -(a.e1e2 * b.e1e3) - a.e1e2e3e4 * b.e1e4 + a.e1e3 * b.e1e2 - a.e1e4 * b.e1e2e3e4 + a.e2e3 * b.s - a.e2e4 * b.e3e4 + a.e3e4 * b.e2e4 + a.s * b.e2e3,
        e2e4: -(a.e1e2 * b.e1e4) + a.e1e2e3e4 * b.e1e3 + a.e1e3 * b.e1e2e3e4 + a.e1e4 * b.e1e2 + a.e2e3 * b.e3e4 + a.e2e4 * b.s - a.e3e4 * b.e2e3 + a.s * b.e2e4,
        e3e4: -(a.e1e2 * b.e1e2e3e4) - a.e1e2e3e4 * b.e1e2 - a.e1e3 * b.e1e4 + a.e1e4 * b.e1e3 - a.e2e3 * b.e2e4 + a.e2e4 * b.e2e3 + a.e3e4 * b.s + a.s * b.e3e4,
        e0e1e2e3: a.e0e1 * b.e2e3 + a.e0e1e2e3 * b.s - a.e0e1e2e4 * b.e3e4 + a.e0e1e3e4 * b.e2e4 - a.e0e2 * b.e1e3 - a.e0e2e3e4 * b.e1e4 + a.e0e3 * b.e1e2 - a.e0e4 * b.e1e2e3e4 + a.e1e2 * b.e0e3 + a.e1e2e3e4 * b.e0e4 - a.e1e3 * b.e0e2 + a.e1e4 * b.e0e2e3e4 + a.e2e3 * b.e0e1 - a.e2e4 * b.e0e1e3e4 + a.e3e4 * b.e0e1e2e4 + a.s * b.e0e1e2e3,
        e0e1e2e4: a.e0e1 * b.e2e4 + a.e0e1e2e3 * b.e3e4 + a.e0e1e2e4 * b.s - a.e0e1e3e4 * b.e2e3 - a.e0e2 * b.e1e4 + a.e0e2e3e4 * b.e1e3 + a.e0e3 * b.e1e2e3e4 + a.e0e4 * b.e1e2 + a.e1e2 * b.e0e4 - a.e1e2e3e4 * b.e0e3 - a.e1e3 * b.e0e2e3e4 - a.e1e4 * b.e0e2 + a.e2e3 * b.e0e1e3e4 + a.e2e4 * b.e0e1 - a.e3e4 * b.e0e1e2e3 + a.s * b.e0e1e2e4,
        e0e1e3e4: a.e0e1 * b.e3e4 - a.e0e1e2e3 * b.e2e4 + a.e0e1e2e4 * b.e2e3 + a.e0e1e3e4 * b.s - a.e0e2 * b.e1e2e3e4 - a.e0e2e3e4 * b.e1e2 - a.e0e3 * b.e1e4 + a.e0e4 * b.e1e3 + a.e1e2 * b.e0e2e3e4 + a.e1e2e3e4 * b.e0e2 + a.e1e3 * b.e0e4 - a.e1e4 * b.e0e3 - a.e2e3 * b.e0e1e2e4 + a.e2e4 * b.e0e1e2e3 + a.e3e4 * b.e0e1 + a.s * b.e0e1e3e4,
        e0e2e3e4: a.e0e1 * b.e1e2e3e4 + a.e0e1e2e3 * b.e1e4 - a.e0e1e2e4 * b.e1e3 + a.e0e1e3e4 * b.e1e2 + a.e0e2 * b.e3e4 + a.e0e2e3e4 * b.s - a.e0e3 * b.e2e4 + a.e0e4 * b.e2e3 - a.e1e2 * b.e0e1e3e4 - a.e1e2e3e4 * b.e0e1 + a.e1e3 * b.e0e1e2e4 - a.e1e4 * b.e0e1e2e3 + a.e2e3 * b.e0e4 - a.e2e4 * b.e0e3 + a.e3e4 * b.e0e2 + a.s * b.e0e2e3e4,
        e1e2e3e4: a.e1e2 * b.e3e4 + a.e1e2e3e4 * b.s - a.e1e3 * b.e2e4 + a.e1e4 * b.e2e3 + a.e2e3 * b.e1e4 - a.e2e4 * b.e1e3 + a.e3e4 * b.e1e2 + a.s * b.e1e2e3e4,
    }
}

/// `reverse(t) * t`: the squared norm of the rotation part in the scalar
/// slot and the quadvector residues.
pub open spec fn transform_squared_magnitude(t: TransformModel) -> TransformMagModel {
    TransformMagModel {
        s: t.e1e2 * t.e1e2 + t.e1e2e3e4 * t.e1e2e3e4 + t.e1e3 * t.e1e3 + t.e1e4 * t.e1e4 + t.e2e3 * t.e2e3 + t.e2e4 * t.e2e4 + t.e3e4 * t.e3e4 + t.s * t.s,
        e0e1e2e3: 2 * (-t.e0e1 * t.e2e3 + t.e0e1e2e3 * t.s - t.e0e1e2e4 * t.e3e4 + t.e0e1e3e4 * t.e2e4 + t.e0e2 * t.e1e3 - t.e0e2e3e4 * t.e1e4 - t.e0e3 * t.e1e2 + t.e0e4 * t.e1e2e3e4),
        e0e1e2e4: 2 * (-t.e0e1 * t.e2e4 + t.e0e1e2e3 * t.e3e4 + t.e0e1e2e4 * t.s - t.e0e1e3e4 * t.e2e3 + t.e0e2 * t.e1e4 + t.e0e2e3e4 * t.e1e3 - t.e0e3 * t.e1e2e3e4 - t.e0e4 * t.e1e2),
        e0e1e3e4: 2 * (-t.e0e1 * t.e3e4 - t.e0e1e2e3 * t.e2e4 + t.e0e1e2e4 * t.e2e3 + t.e0e1e3e4 * t.s + t.e0e2 * t.e1e2e3e4 - t.e0e2e3e4 * t.e1e2 + t.e0e3 * t.e1e4 - t.e0e4 * t.e1e3),
        e0e2e3e4: 2 * (-t.e0e1 * t.e1e2e3e4 + t.e0e1e2e3 * t.e1e4 - t.e0e1e2e4 * t.e1e3 + t.e0e1e3e4 * t.e1e2 - t.e0e2 * t.e3e4 + t.e0e2e3e4 * t.s + t.e0e3 * t.e2e4 - t.e0e4 * t.e2e3),
        e1e2e3e4: 2 * (-t.e1e2 * t.e3e4 + t.e1e2e3e4 * t.s + t.e1e3 * t.e2e4 - t.e1e4 * t.e2e3),
    }
}

/// The image of the point `p` under the motor `t`.
pub open spec fn transform_point_image(t: TransformModel, p: Vec4Model) -> Vec4Model {
    Vec4Model {
        x: -p.x * t.e1e2 * t.e1e2 - p.x * t.e1e2e3e4 * t.e1e2e3e4 - p.x * t.e1e3 * t.e1e3 - p.x * t.e1e4 * t.e1e4 + p.x * t.e2e3 * t.e2e3 + p.x * t.e2e4 * t.e2e4 + p.x * t.e3e4 * t.e3e4 + p.x * t.s * t.s + 2 * (p.w * t.e1e2 * t.e2e4 - p.w * t.e1e2e3e4 * t.e2e3 + p.w * t.e1e3 * t.e3e4 - p.w * t.e1e4 * t.s - p.y * t.e1e2 * t.s - p.y * t.e1e2e3e4 * t.e3e4 - p.y * t.e1e3 * t.e2e3 - p.y * t.e1e4 * t.e2e4 + p.z * t.e1e2 * t.e2e3 + p.z * t.e1e2e3e4 * t.e2e4 - p.z * t.e1e3 * t.s - p.z * t.e1e4 * t.e3e4 + t.e0e1 * t.s + t.e0e1e2e3 * t.e2e3 + t.e0e1e2e4 * t.e2e4 + t.e0e1e3e4 * t.e3e4 - t.e0e2 * t.e1e2 - t.e0e2e3e4 * t.e1e2e3e4 - t.e0e3 * t.e1e3 - t.e0e4 * t.e1e4),
        y: -p.y * t.e1e2 * t.e1e2 - p.y * t.e1e2e3e4 * t.e1e2e3e4 + p.y * t.e1e3 * t.e1e3 + p.y * t.e1e4 * t.e1e4 - p.y * t.e2e3 * t.e2e3 - p.y * t.e2e4 * t.e2e4 + p.y * t.e3e4 * t.e3e4 + p.y * t.s * t.s + 2 * (-p.w * t.e1e2 * t.e1e4 + p.w * t.e1e2e3e4 * t.e1e3 + p.w * t.e2e3 * t.e3e4 - p.w * t.e2e4 * t.s + p.x * t.e1e2 * t.s + p.x * t.e1e2e3e4 * t.e3e4 - p.x * t.e1e3 * t.e2e3 - p.x * t.e1e4 * t.e2e4 - p.z * t.e1e2 * t.e1e3 - p.z * t.e1e2e3e4 * t.e1e4 - p.z * t.e2e3 * t.s - p.z * t.e2e4 * t.e3e4 + t.e0e1 * t.e1e2 - t.e0e1e2e3 * t.e1e3 - t.e0e1e2e4 * t.e1e4 + t.e0e1e3e4 * t.e1e2e3e4 + t.e0e2 * t.s + t.e0e2e3e4 * t.e3e4 - t.e0e3 * t.e2e3 - t.e0e4 * t.e2e4),
        z: p.z * t.e1e2 * t.e1e2 - p.z * t.e1e2e3e4 * t.e1e2e3e4 - p.z * t.e1e3 * t.e1e3 + p.z * t.e1e4 * t.e1e4 - p.z * t.e2e3 * t.e2e3 + p.z * t.e2e4 * t.e2e4 - p.z * t.e3e4 * t.e3e4 + p.z * t.s * t.s + 2 * (-p.w * t.e1e2 * t.e1e2e3e4 - p.w * t.e1e3 * t.e1e4 - p.w * t.e2e3 * t.e2e4 - p.w * t.e3e4 * t.s + p.x * t.e1e2 * t.e2e3 - p.x * t.e1e2e3e4 * t.e2e4 + p.x * t.e1e3 * t.s - p.x * t.e1e4 * t.e3e4 - p.y * t.e1e2 * t.e1e3 + p.y * t.e1e2e3e4 * t.e1e4 + p.y * t.e2e3 * t.s - p.y * t.e2e4 * t.e3e4 + t.e0e1 * t.e1e3 + t.e0e1e2e3 * t.e1e2 - t.e0e1e2e4 * t.e1e2e3e4 - t.e0e1e3e4 * t.e1e4 + t.e0e2 * t.e2e3 - t.e0e2e3e4 * t.e2e4 + t.e0e3 * t.s - t.e0e4 * t.e3e4),
        w: p.w * t.e1e2 * t.e1e2 - p.w * t.e1e2e3e4 * t.e1e2e3e4 + p.w * t.e1e3 * t.e1e3 - p.w * t.e1e4 * t.e1e4 + p.w * t.e2e3 * t.e2e3 - p.w * t.e2e4 * t.e2e4 - p.w * t.e3e4 * t.e3e4 + p.w * t.s * t.s + 2 * (p.x * t.e1e2 * t.e2e4 + p.x * t.e1e2e3e4 * t.e2e3 + p.x * t.e1e3 * t.e3e4 + p.x * t.e1e4 * t.s - p.y * t.e1e2 * t.e1e4 - p.y * t.e1e2e3e4 * t.e1e3 + p.y * t.e2e3 * t.e3e4 + p.y * t.e2e4 * t.s + p.z * t.e1e2 * t.e1e2e3e4 - p.z * t.e1e3 * t.e1e4 - p.z * t.e2e3 * t.e2e4 + p.z * t.e3e4 * t.s + t.e0e1 * t.e1e4 + t.e0e1e2e3 * t.e1e2e3e4 + t.e0e1e2e4 * t.e1e2 + t.e0e1e3e4 * t.e1e3 + t.e0e2 * t.e2e4 + t.e0e2e3e4 * t.e2e3 + t.e0e3 * t.e3e4 + t.e0e4 * t.s),
    }
}

/// The image of the origin under the motor `t`.
pub open spec fn transform_position(t: TransformModel) -> Vec4Model {
    Vec4Model {
        x: 2 * (t.e0e1 * t.s + t.e0e1e2e3 * t.e2e3 + t.e0e1e2e4 * t.e2e4 + t.e0e1e3e4 * t.e3e4 - t.e0e2 * t.e1e2 - t.e0e2e3e4 * t.e1e2e3e4 - t.e0e3 * t.e1e3 - t.e0e4 * t.e1e4),
        y: 2 * (t.e0e1 * t.e1e2 - t.e0e1e2e3 * t.e1e3 - t.e0e1e2e4 * t.e1e4 + t.e0e1e3e4 * t.e1e2e3e4 + t.e0e2 * t.s + t.e0e2e3e4 * t.e3e4 - t.e0e3 * t.e2e3 - t.e0e4 * t.e2e4),
        z: 2 * (t.e0e1 * t.e1e3 + t.e0e1e2e3 * t.e1e2 - t.e0e1e2e4 * t.e1e2e3e4 - t.e0e1e3e4 * t.e1e4 + t.e0e2 * t.e2e3 - t.e0e2e3e4 * t.e2e4 + t.e0e3 * t.s - t.e0e4 * t.e3e4),
        w: 2 * (t.e0e1 * t.e1e4 + t.e0e1e2e3 * t.e1e2e3e4 + t.e0e1e2e4 * t.e1e2 + t.e0e1e3e4 * t.e1e3 + t.e0e2 * t.e2e4 + t.e0e2e3e4 * t.e2e3 + t.e0e3 * t.e3e4 + t.e0e4 * t.s),
    }
}

/// The rotation part: the coefficients free of `e0`.
pub open spec fn transform_rotor_part(t: TransformModel) -> RotorModel {
    RotorModel {
        s: t.s,
        e1e2: t.e1e2,
        e1e3: t.e1e3,
        e1e4: t.e1e4,
        e2e3: t.e2e3,
        e2e4: t.e2e4,
        e3e4: t.e3e4,
        e1e2e3e4: t.e1e2e3e4,
    }
}

/// Embed a rotor: every `e0`-touching coefficient is zero.
pub open spec fn transform_from_rotor(r: RotorModel) -> TransformModel {
    TransformModel {
        s: r.s,
        e0e1: 0,
        e0e2: 0,
        e0e3: 0,
        e0e4: 0,
        e1e2: r.e1e2,
        e1e3: r.e1e3,
        e1e4: r.e1e4,
        e2e3: r.e2e3,
        e2e4: r.e2e4,
        e3e4: r.e3e4,
        e0e1e2e3: 0,
        e0e1e2e4: 0,
        e0e1e3e4: 0,
        e0e2e3e4: 0,
        e1e2e3e4: r.e1e2e3e4,
    }
}

impl Transform {

    /// The identity: scalar one, everything else zero.
    pub fn identity() -> (r: Self)
        ensures
            r@ == transform_identity(),
    {
        Transform {
            s: 1,
            e0e1: 0,
            e0e2: 0,
            e0e3: 0,
            e0e4: 0,
            e1e2: 0,
            e1e3: 0,
            e1e4: 0,
            e2e3: 0,
            e2e4: 0,
            e3e4: 0,
            e0e1e2e3: 0,
            e0e1e2e4: 0,
            e0e1e3e4: 0,
            e0e2e3e4: 0,
            e1e2e3e4: 0,
        }
    }

    /// The motor translating by `offset`: the half-generator convention
    /// stores half of each even offset on the `e0` bivectors.
    pub fn translation(offset: Vector4<i64>) -> (r: Self)
        requires
            offset@.x % 2 == 0 && offset@.y % 2 == 0 && offset@.z % 2 == 0
                && offset@.w % 2 == 0,
            offset.x != i64::MIN && offset.y != i64::MIN && offset.z != i64::MIN
                && offset.w != i64::MIN,
        ensures
            r@ == (TransformModel { s: 1, e0e1: offset@.x / 2, e0e2: offset@.y / 2, e0e3: offset@.z / 2, e0e4: offset@.w / 2, e1e2: 0, e1e3: 0, e1e4: 0, e2e3: 0, e2e4: 0, e3e4: 0, e0e1e2e3: 0, e0e1e2e4: 0, e0e1e3e4: 0, e0e2e3e4: 0, e1e2e3e4: 0 }),
    {
        proof {
            lemma_div_trunc_even_half(offset@.x);
            lemma_div_trunc_even_half(offset@.y);
            lemma_div_trunc_even_half(offset@.z);
            lemma_div_trunc_even_half(offset@.w);
        }
        Transform {
            s: 1,
            e0e1: div_to_zero(offset.x, 2),
            e0e2: div_to_zero(offset.y, 2),
            e0e3: div_to_zero(offset.z, 2),
            e0e4: div_to_zero(offset.w, 2),
            e1e2: 0,
            e1e3: 0,
            e1e4: 0,
            e2e3: 0,
            e2e4: 0,
            e3e4: 0,
            e0e1e2e3: 0,
            e0e1e2e4: 0,
            e0e1e3e4: 0,
            e0e2e3e4: 0,
            e1e2e3e4: 0,
        }
    }

    /// Motor of a rotation in the `xy` plane, from the cosine and sine of
    /// half the rotation angle.
    pub fn rotate_xy(cos_half: i64, sin_half: i64) -> (r: Self)
        ensures
            r@ == (TransformModel { s: cos_half as int, e0e1: 0, e0e2: 0, e0e3: 0, e0e4: 0, e1e2: sin_half as int, e1e3: 0, e1e4: 0, e2e3: 0, e2e4: 0, e3e4: 0, e0e1e2e3: 0, e0e1e2e4: 0, e0e1e3e4: 0, e0e2e3e4: 0, e1e2e3e4: 0 }),
    {
        Self::from_rotor(Rotor::rotate_xy(cos_half, sin_half))
    }

    /// Motor of a rotation in the `xz` plane, from the cosine and sine of
    /// half the rotation angle.
    pub fn rotate_xz(cos_half: i64, sin_half: i64) -> (r: Self)
        ensures
            r@ == (TransformModel { s: cos_half as int, e0e1: 0, e0e2: 0, e0e3: 0, e0e4: 0, e1e2: 0, e1e3: sin_half as int, e1e4: 0, e2e3: 0, e2e4: 0, e3e4: 0, e0e1e2e3: 0, e0e1e2e4: 0, e0e1e3e4: 0, e0e2e3e4: 0, e1e2e3e4: 0 }),
    {
        Self::from_rotor(Rotor::rotate_xz(cos_half, sin_half))
    }

    /// Motor of a rotation in the `xw` plane, from the cosine and sine of
    /// half the rotation angle.
    pub fn rotate_xw(cos_half: i64, sin_half: i64) -> (r: Self)
        ensures
            r@ == (TransformModel { s: cos_half as int, e0e1: 0, e0e2: 0, e0e3: 0, e0e4: 0, e1e2: 0, e1e3: 0, e1e4: sin_half as int, e2e3: 0, e2e4: 0, e3e4: 0, e0e1e2e3: 0, e0e1e2e4: 0, e0e1e3e4: 0, e0e2e3e4: 0, e1e2e3e4: 0 }),
    {
        Self::from_rotor(Rotor::rotate_xw(cos_half, sin_half))
    }

    /// Motor of a rotation in the `yz` plane, from the cosine and sine of
    /// half the rotation angle.
    pub fn rotate_yz(cos_half: i64, sin_half: i64) -> (r: Self)
        ensures
            r@ == (TransformModel { s: cos_half as int, e0e1: 0, e0e2: 0, e0e3: 0, e0e4: 0, e1e2: 0, e1e3: 0, e1e4: 0, e2e3: sin_half as int, e2e4: 0, e3e4: 0, e0e1e2e3: 0, e0e1e2e4: 0, e0e1e3e4: 0, e0e2e3e4: 0, e1e2e3e4: 0 }),
    {
        Self::from_rotor(Rotor::rotate_yz(cos_half, sin_half))
    }

    /// Motor of a rotation in the `yw` plane, from the cosine and sine of
    /// half the rotation angle.
    pub fn rotate_yw(cos_half: i64, sin_half: i64) -> (r: Self)
        ensures
            r@ == (TransformModel { s: cos_half as int, e0e1: 0, e0e2: 0, e0e3: 0, e0e4: 0, e1e2: 0, e1e3: 0, e1e4: 0, e2e3: 0, e2e4: sin_half as int, e3e4: 0, e0e1e2e3: 0, e0e1e2e4: 0, e0e1e3e4: 0, e0e2e3e4: 0, e1e2e3e4: 0 }),
    {
        Self::from_rotor(Rotor::rotate_yw(cos_half, sin_half))
    }

    /// Motor of a rotation in the `zw` plane, from the cosine and sine of
    /// half the rotation angle.
    pub fn rotate_zw(cos_half: i64, sin_half: i64) -> (r: Self)
        ensures
            r@ == (TransformModel { s: cos_half as int, e0e1: 0, e0e2: 0, e0e3: 0, e0e4: 0, e1e2: 0, e1e3: 0, e1e4: 0, e2e3: 0, e2e4: 0, e3e4: sin_half as int, e0e1e2e3: 0, e0e1e2e4: 0, e0e1e3e4: 0, e0e2e3e4: 0, e1e2e3e4: 0 }),
    {
        Self::from_rotor(Rotor::rotate_zw(cos_half, sin_half))
    }

    /// Compose: apply `self`, then `other`; the geometric product
    /// `self * other`, whose sandwich applies `self`'s motion first.
    #[verifier::rlimit(100)]
    pub fn and_then(self, other: Self) -> (r: Self)
        requires
            transform_in_limit(self@, COEFF_LIMIT as int),
            transform_in_limit(other@, COEFF_LIMIT as int),
        ensures
            r@ == transform_and_then(self@, other@),
    {
        proof {
            lemma_mul_within(COEFF_LIMIT as int, COEFF_LIMIT as int);
        }
        let a = self;
        let b = other;
        Transform {
        s: -(a.e1e2 * b.e1e2) + a.e1e2e3e4 * b.e1e2e3e4 - a.e1e3 * b.e1e3 - a.e1e4 * b.e1e4 - a.e2e3 * b.e2e3 - a.e2e4 * b.e2e4 - a.e3e4 * b.e3e4 + a.s * b.s,
        e0e1: a.e0e1 * b.s - a.e0e1e2e3 * b.e2e3 - a.e0e1e2e4 * b.e2e4 - a.e0e1e3e4 * b.e3e4 - a.e0e2 * b.e1e2 + a.e0e2e3e4 * b.e1e2e3e4 - a.e0e3 * b.e1e3 - a.e0e4 * b.e1e4 + a.e1e2 * b.e0e2 - a.e1e2e3e4 * b.e0e2e3e4 + a.e1e3 * b.e0e3 + a.e1e4 * b.e0e4 - a.e2e3 * b.e0e1e2e3 - a.e2e4 * b.e0e1e2e4 - a.e3e4 * b.e0e1e3e4 + a.s * b.e0e1,
        e0e2: a.e0e1 * b.e1e2 + a.e0e1e2e3 * b.e1e3 + a.e0e1e2e4 * b.e1e4 - a.e0e1e3e4 * b.e1e2e3e4 + a.e0e2 * b.s - a.e0e2e3e4 * b.e3e4 - a.e0e3 * b.e2e3 - a.e0e4 * b.e2e4 - a.e1e2 * b.e0e1 + a.e1e2e3e4 * b.e0e1e3e4 + a.e1e3 * b.e0e1e2e3 + a.e1e4 * b.e0e1e2e4 + a.e2e3 * b.e0e3 + a.e2e4 * b.e0e4 - a.e3e4 * b.e0e2e3e4 + a.s * b.e0e2,
        e0e3: a.e0e1 * b.e1e3 - a.e0e1e2e3 * b.e1e2 + a.e0e1e2e4 * b.e1e2e3e4 + a.e0e1e3e4 * b.e1e4 + a.e0e2 * b.e2e3 + a.e0e2e3e4 * b.e2e4 + a.e0e3 * b.s - a.e0e4 * b.e3e4 - a.e1e2 * b.e0e1e2e3 - a.e1e2e3e4 * b.e0e1e2e4 - a.e1e3 * b.e0e1 + a.e1e4 * b.e0e1e3e4 - a.e2e3 * b.e0e2 + a.e2e4 * b.e0e2e3e4 + a.e3e4 * b.e0e4 + a.s * b.e0e3,
        e0e4: a.e0e1 * b.e1e4 - a.e0e1e2e3 * b.e1e2e3e4 - a.e0e1e2e4 * b.e1e2 - a.e0e1e3e4 * b.e1e3 + a.e0e2 * b.e2e4 - a.e0e2e3e4 * b.e2e3 + a.e0e3 * b.e3e4 + a.e0e4 * b.s - a.e1e2 * b.e0e1e2e4 + a.e1e2e3e4 * b.e0e1e2e3 - a.e1e3 * b.e0e1e3e4 - a.e1e4 * b.e0e1 - a.e2e3 * b.e0e2e3e4 - a.e2e4 * b.e0e2 - a.e3e4 * b.e0e3 + a.s * b.e0e4,
        e1e2: a.e1e2 * b.s - a.e1e2e3e4 * b.e3e4 - a.e1e3 * b.e2e3 - a.e1e4 * b.e2e4 + a.e2e3 * b.e1e3 + a.e2e4 * b.e1e4 - a.e3e4 * b.e1e2e3e4 + a.s * b.e1e2,
        e1e3: a.e1e2 * b.e2e3 + a.e1e2e3e4 * b.e2e4 + a.e1e3 * b.s - a.e1e4 * b.e3e4 - a.e2e3 * b.e1e2 + a.e2e4 * b.e1e2e3e4 + a.e3e4 * b.e1e4 + a.s * b.e1e3,
        e1e4: a.e1e2 * b.e2e4 - a.e1e2e3e4 * b.e2e3 + a.e1e3 * b.e3e4 + a.e1e4 * b.s - a.e2e3 * b.e1e2e3e4 - a.e2e4 * b.e1e2 - a.e3e4 * b.e1e3 + a.s * b.e1e4,
        e2e3: -(a.e1e2 * b.e1e3) - a.e1e2e3e4 * b.e1e4 + a.e1e3 * b.e1e2 - a.e1e4 * b.e1e2e3e4 + a.e2e3 * b.s - a.e2e4 * b.e3e4 + a.e3e4 * b.e2e4 + a.s * b.e2e3,
        e2e4: -(a.e1e2 * b.e1e4) + a.e1e2e3e4 * b.e1e3 + a.e1e3 * b.e1e2e3e4 + a.e1e4 * b.e1e2 + a.e2e3 * b.e3e4 + a.e2e4 * b.s - a.e3e4 * b.e2e3 + a.s * b.e2e4,
        e3e4: -(a.e1e2 * b.e1e2e3e4) - a.e1e2e3e4 * b.e1e2 - a.e1e3 * b.e1e4 + a.e1e4 * b.e1e3 - a.e2e3 * b.e2e4 + a.e2e4 * b.e2e3 + a.e3e4 * b.s + a.s * b.e3e4,
        e0e1e2e3: a.e0e1 * b.e2e3 + a.e0e1e2e3 * b.s - a.e0e1e2e4 * b.e3e4 + a.e0e1e3e4 * b.e2e4 - a.e0e2 * b.e1e3 - a.e0e2e3e4 * b.e1e4 + a.e0e3 * b.e1e2 - a.e0e4 * b.e1e2e3e4 + a.e1e2 * b.e0e3 + a.e1e2e3e4 * b.e0e4 - a.e1e3 * b.e0e2 + a.e1e4 * b.e0e2e3e4 + a.e2e3 * b.e0e1 - a.e2e4 * b.e0e1e3e4 + a.e3e4 * b.e0e1e2e4 + a.s * b.e0e1e2e3,
        e0e1e2e4: a.e0e1 * b.e2e4 + a.e0e1e2e3 * b.e3e4 + a.e0e1e2e4 * b.s - a.e0e1e3e4 * b.e2e3 - a.e0e2 * b.e1e4 + a.e0e2e3e4 * b.e1e3 + a.e0e3 * b.e1e2e3e4 + a.e0e4 * b.e1e2 + a.e1e2 * b.e0e4 - a.e1e2e3e4 * b.e0e3 - a.e1e3 * b.e0e2e3e4 - a.e1e4 * b.e0e2 + a.e2e3 * b.e0e1e3e4 + a.e2e4 * b.e0e1 - a.e3e4 * b.e0e1e2e3 + a.s * b.e0e1e2e4,
        e0e1e3e4: a.e0e1 * b.e3e4 - a.e0e1e2e3 * b.e2e4 + a.e0e1e2e4 * b.e2e3 + a.e0e1e3e4 * b.s - a.e0e2 * b.e1e2e3e4 - a.e0e2e3e4 * b.e1e2 - a.e0e3 * b.e1e4 + a.e0e4 * b.e1e3 + a.e1e2 * b.e0e2e3e4 + a.e1e2e3e4 * b.e0e2 + a.e1e3 * b.e0e4 - a.e1e4 * b.e0e3 - a.e2e3 * b.e0e1e2e4 + a.e2e4 * b.e0e1e2e3 + a.e3e4 * b.e0e1 + a.s * b.e0e1e3e4,
        e0e2e3e4: a.e0e1 * b.e1e2e3e4 + a.e0e1e2e3 * b.e1e4 - a.e0e1e2e4 * b.e1e3 + a.e0e1e3e4 * b.e1e2 + a.e0e2 * b.e3e4 + a.e0e2e3e4 * b.s - a.e0e3 * b.e2e4 + a.e0e4 * b.e2e3 - a.e1e2 * b.e0e1e3e4 - a.e1e2e3e4 * b.e0e1 + a.e1e3 * b.e0e1e2e4 - a.e1e4 * b.e0e1e2e3 + a.e2e3 * b.e0e4 - a.e2e4 * b.e0e3 + a.e3e4 * b.e0e2 + a.s * b.e0e2e3e4,
        e1e2e3e4: a.e1e2 * b.e3e4 + a.e1e2e3e4 * b.s - a.e1e3 * b.e2e4 + a.e1e4 * b.e2e3 + a.e2e3 * b.e1e4 - a.e2e4 * b.e1e3 + a.e3e4 * b.e1e2 + a.s * b.e1e2e3e4,
        }
    }

    /// Reverse: negate every blade of grade two.
    pub fn reverse(self) -> (r: Self)
        requires
            self.e0e1 > i64::MIN,
            self.e0e2 > i64::MIN,
            self.e0e3 > i64::MIN,
            self.e0e4 > i64::MIN,
            self.e1e2 > i64::MIN,
            self.e1e3 > i64::MIN,
            self.e1e4 > i64::MIN,
            self.e2e3 > i64::MIN,
            self.e2e4 > i64::MIN,
            self.e3e4 > i64::MIN,
        ensures
            r@ == transform_reverse(self@),
    {
        Transform {
            s: self.s,
            e0e1: -self.e0e1,
            e0e2: -self.e0e2,
            e0e3: -self.e0e3,
            e0e4: -self.e0e4,
            e1e2: -self.e1e2,
            e1e3: -self.e1e3,
            e1e4: -self.e1e4,
            e2e3: -self.e2e3,
            e2e4: -self.e2e4,
            e3e4: -self.e3e4,
            e0e1e2e3: self.e0e1e2e3,
            e0e1e2e4: self.e0e1e2e4,
            e0e1e3e4: self.e0e1e3e4,
            e0e2e3e4: self.e0e2e3e4,
            e1e2e3e4: self.e1e2e3e4,
        }
    }

    /// Move a point with this motor: rotation and translation both apply.
    #[verifier::rlimit(100)]
    pub fn transform_point(self, point: Vector4<i64>) -> (r: Vector4<i64>)
        requires
            transform_in_limit(self@, SANDWICH_LIMIT as int),
            crate::vectors::vec4_in_limit(point@, SANDWICH_LIMIT as int),
        ensures
            r@ == transform_point_image(self@, point@),
    {
        proof {
            let l = SANDWICH_LIMIT as int;
            lemma_mul_within(l, l);
            lemma_mul_within(l * l, l);
        }
        let t = self;
        let p = point;
        Vector4 {
        x: -p.x * t.e1e2 * t.e1e2 - p.x * t.e1e2e3e4 * t.e1e2e3e4 - p.x * t.e1e3 * t.e1e3 - p.x * t.e1e4 * t.e1e4 + p.x * t.e2e3 * t.e2e3 + p.x * t.e2e4 * t.e2e4 + p.x * t.e3e4 * t.e3e4 + p.x * t.s * t.s + 2 * (p.w * t.e1e2 * t.e2e4 - p.w * t.e1e2e3e4 * t.e2e3 + p.w * t.e1e3 * t.e3e4 - p.w * t.e1e4 * t.s - p.y * t.e1e2 * t.s - p.y * t.e1e2e3e4 * t.e3e4 - p.y * t.e1e3 * t.e2e3 - p.y * t.e1e4 * t.e2e4 + p.z * t.e1e2 * t.e2e3 + p.z * t.e1e2e3e4 * t.e2e4 - p.z * t.e1e3 * t.s - p.z * t.e1e4 * t.e3e4 + t.e0e1 * t.s + t.e0e1e2e3 * t.e2e3 + t.e0e1e2e4 * t.e2e4 + t.e0e1e3e4 * t.e3e4 - t.e0e2 * t.e1e2 - t.e0e2e3e4 * t.e1e2e3e4 - t.e0e3 * t.e1e3 - t.e0e4 * t.e1e4),
        y: -p.y * t.e1e2 * t.e1e2 - p.y * t.e1e2e3e4 * t.e1e2e3e4 + p.y * t.e1e3 * t.e1e3 + p.y * t.e1e4 * t.e1e4 - p.y * t.e2e3 * t.e2e3 - p.y * t.e2e4 * t.e2e4 + p.y * t.e3e4 * t.e3e4 + p.y * t.s * t.s + 2 * (-p.w * t.e1e2 * t.e1e4 + p.w * t.e1e2e3e4 * t.e1e3 + p.w * t.e2e3 * t.e3e4 - p.w * t.e2e4 * t.s + p.x * t.e1e2 * t.s + p.x * t.e1e2e3e4 * t.e3e4 - p.x * t.e1e3 * t.e2e3 - p.x * t.e1e4 * t.e2e4 - p.z * t.e1e2 * t.e1e3 - p.z * t.e1e2e3e4 * t.e1e4 - p.z * t.e2e3 * t.s - p.z * t.e2e4 * t.e3e4 + t.e0e1 * t.e1e2 - t.e0e1e2e3 * t.e1e3 - t.e0e1e2e4 * t.e1e4 + t.e0e1e3e4 * t.e1e2e3e4 + t.e0e2 * t.s + t.e0e2e3e4 * t.e3e4 - t.e0e3 * t.e2e3 - t.e0e4 * t.e2e4),
        z: p.z * t.e1e2 * t.e1e2 - p.z * t.e1e2e3e4 * t.e1e2e3e4 - p.z * t.e1e3 * t.e1e3 + p.z * t.e1e4 * t.e1e4 - p.z * t.e2e3 * t.e2e3 + p.z * t.e2e4 * t.e2e4 - p.z * t.e3e4 * t.e3e4 + p.z * t.s * t.s + 2 * (-p.w * t.e1e2 * t.e1e2e3e4 - p.w * t.e1e3 * t.e1e4 - p.w * t.e2e3 * t.e2e4 - p.w * t.e3e4 * t.s + p.x * t.e1e2 * t.e2e3 - p.x * t.e1e2e3e4 * t.e2e4 + p.x * t.e1e3 * t.s - p.x * t.e1e4 * t.e3e4 - p.y * t.e1e2 * t.e1e3 + p.y * t.e1e2e3e4 * t.e1e4 + p.y * t.e2e3 * t.s - p.y * t.e2e4 * t.e3e4 + t.e0e1 * t.e1e3 + t.e0e1e2e3 * t.e1e2 - t.e0e1e2e4 * t.e1e2e3e4 - t.e0e1e3e4 * t.e1e4 + t.e0e2 * t.e2e3 - t.e0e2e3e4 * t.e2e4 + t.e0e3 * t.s - t.e0e4 * t.e3e4),
        w: p.w * t.e1e2 * t.e1e2 - p.w * t.e1e2e3e4 * t.e1e2e3e4 + p.w * t.e1e3 * t.e1e3 - p.w * t.e1e4 * t.e1e4 + p.w * t.e2e3 * t.e2e3 - p.w * t.e2e4 * t.e2e4 - p.w * t.e3e4 * t.e3e4 + p.w * t.s * t.s + 2 * (p.x * t.e1e2 * t.e2e4 + p.x * t.e1e2e3e4 * t.e2e3 + p.x * t.e1e3 * t.e3e4 + p.x * t.e1e4 * t.s - p.y * t.e1e2 * t.e1e4 - p.y * t.e1e2e3e4 * t.e1e3 + p.y * t.e2e3 * t.e3e4 + p.y * t.e2e4 * t.s + p.z * t.e1e2 * t.e1e2e3e4 - p.z * t.e1e3 * t.e1e4 - p.z * t.e2e3 * t.e2e4 + p.z * t.e3e4 * t.s + t.e0e1 * t.e1e4 + t.e0e1e2e3 * t.e1e2e3e4 + t.e0e1e2e4 * t.e1e2 + t.e0e1e3e4 * t.e1e3 + t.e0e2 * t.e2e4 + t.e0e2e3e4 * t.e2e3 + t.e0e3 * t.e3e4 + t.e0e4 * t.s),
        }
    }

    /// Carry a direction: only the rotation part applies.
    pub fn transform_direction(self, direction: Vector4<i64>) -> (r: Vector4<i64>)
        requires
            transform_in_limit(self@, SANDWICH_LIMIT as int),
            crate::vectors::vec4_in_limit(direction@, SANDWICH_LIMIT as int),
        ensures
            r@ == rotate_direction(transform_rotor_part(self@), direction@),
    {
        self.rotor_part().transform_direction(direction)
    }

    /// The image of the origin: where this motor places a point at rest.
    pub fn position(self) -> (r: Vector4<i64>)
        requires
            transform_in_limit(self@, SANDWICH_LIMIT as int),
        ensures
            r@ == transform_position(self@),
    {
        proof {
            let l = SANDWICH_LIMIT as int;
            lemma_mul_within(l, l);
        }
        let t = self;
        Vector4 {
        x: 2 * (t.e0e1 * t.s + t.e0e1e2e3 * t.e2e3 + t.e0e1e2e4 * t.e2e4 + t.e0e1e3e4 * t.e3e4 - t.e0e2 * t.e1e2 - t.e0e2e3e4 * t.e1e2e3e4 - t.e0e3 * t.e1e3 - t.e0e4 * t.e1e4),
        y: 2 * (t.e0e1 * t.e1e2 - t.e0e1e2e3 * t.e1e3 - t.e0e1e2e4 * t.e1e4 + t.e0e1e3e4 * t.e1e2e3e4 + t.e0e2 * t.s + t.e0e2e3e4 * t.e3e4 - t.e0e3 * t.e2e3 - t.e0e4 * t.e2e4),
        z: 2 * (t.e0e1 * t.e1e3 + t.e0e1e2e3 * t.e1e2 - t.e0e1e2e4 * t.e1e2e3e4 - t.e0e1e3e4 * t.e1e4 + t.e0e2 * t.e2e3 - t.e0e2e3e4 * t.e2e4 + t.e0e3 * t.s - t.e0e4 * t.e3e4),
        w: 2 * (t.e0e1 * t.e1e4 + t.e0e1e2e3 * t.e1e2e3e4 + t.e0e1e2e4 * t.e1e2 + t.e0e1e3e4 * t.e1e3 + t.e0e2 * t.e2e4 + t.e0e2e3e4 * t.e2e3 + t.e0e3 * t.e3e4 + t.e0e4 * t.s),
        }
    }

    /// The image of the canonical `x` direction.
    pub fn x(self) -> (r: Vector4<i64>)
        requires
            transform_in_limit(self@, SANDWICH_LIMIT as int),
        ensures
            r@ == rotate_direction(transform_rotor_part(self@), (Vec4Model { x: 1, y: 0, z: 0, w: 0 })),
    {
        self.rotor_part().x()
    }

    /// The image of the canonical `y` direction.
    pub fn y(self) -> (r: Vector4<i64>)
        requires
            transform_in_limit(self@, SANDWICH_LIMIT as int),
        ensures
            r@ == rotate_direction(transform_rotor_part(self@), (Vec4Model { x: 0, y: 1, z: 0, w: 0 })),
    {
        self.rotor_part().y()
    }

    /// The image of the canonical `z` direction.
    pub fn z(self) -> (r: Vector4<i64>)
        requires
            transform_in_limit(self@, SANDWICH_LIMIT as int),
        ensures
            r@ == rotate_direction(transform_rotor_part(self@), (Vec4Model { x: 0, y: 0, z: 1, w: 0 })),
    {
        self.rotor_part().z()
    }

    /// The image of the canonical `w` direction.
    pub fn w(self) -> (r: Vector4<i64>)
        requires
            transform_in_limit(self@, SANDWICH_LIMIT as int),
        ensures
            r@ == rotate_direction(transform_rotor_part(self@), (Vec4Model { x: 0, y: 0, z: 0, w: 1 })),
    {
        self.rotor_part().w()
    }

    /// Embed a rotor, filling every `e0`-touching coefficient with zero.
    pub fn from_rotor(rotor: Rotor) -> (r: Self)
        ensures
            r@ == transform_from_rotor(rotor@),
    {
        let Rotor { s, e1e2, e1e3, e1e4, e2e3, e2e4, e3e4, e1e2e3e4 } = rotor;
        Transform {
            s,
            e0e1: 0,
            e0e2: 0,
            e0e3: 0,
            e0e4: 0,
            e1e2,
            e1e3,
            e1e4,
            e2e3,
            e2e4,
            e3e4,
            e0e1e2e3: 0,
            e0e1e2e4: 0,
            e0e1e3e4: 0,
            e0e2e3e4: 0,
            e1e2e3e4,
        }
    }

    /// Discard the `e0`-touching coefficients, keeping the rotation.
    pub fn rotor_part(self) -> (r: Rotor)
        ensures
            r@ == transform_rotor_part(self@),
    {
        let Transform {
            s,
            e0e1: _,
            e0e2: _,
            e0e3: _,
            e0e4: _,
            e1e2,
            e1e3,
            e1e4,
            e2e3,
            e2e4,
            e3e4,
            e0e1e2e3: _,
            e0e1e2e4: _,
            e0e1e3e4: _,
            e0e2e3e4: _,
            e1e2e3e4,
        } = self;
        Rotor { s, e1e2, e1e3, e1e4, e2e3, e2e4, e3e4, e1e2e3e4 }
    }

    /// `reverse(self) * self`: squared norm of the rotation part and the
    /// quadvector residues.
    pub fn squared_magnitude(self) -> (m: TransformSquaredMagnitude)
        requires
            transform_in_limit(self@, COEFF_LIMIT as int),
        ensures
            m@ == transform_squared_magnitude(self@),
            m.s >= 0,
    {
        proof {
            lemma_mul_within(COEFF_LIMIT as int, COEFF_LIMIT as int);
            lemma_squares_nonneg();
        }
        let t = self;
        TransformSquaredMagnitude {
        s: t.e1e2 * t.e1e2 + t.e1e2e3e4 * t.e1e2e3e4 + t.e1e3 * t.e1e3 + t.e1e4 * t.e1e4 + t.e2e3 * t.e2e3 + t.e2e4 * t.e2e4 + t.e3e4 * t.e3e4 + t.s * t.s,
        e0e1e2e3: 2 * (-t.e0e1 * t.e2e3 + t.e0e1e2e3 * t.s - t.e0e1e2e4 * t.e3e4 + t.e0e1e3e4 * t.e2e4 + t.e0e2 * t.e1e3 - t.e0e2e3e4 * t.e1e4 - t.e0e3 * t.e1e2 + t.e0e4 * t.e1e2e3e4),
        e0e1e2e4: 2 * (-t.e0e1 * t.e2e4 + t.e0e1e2e3 * t.e3e4 + t.e0e1e2e4 * t.s - t.e0e1e3e4 * t.e2e3 + t.e0e2 * t.e1e4 + t.e0e2e3e4 * t.e1e3 - t.e0e3 * t.e1e2e3e4 - t.e0e4 * t.e1e2),
        e0e1e3e4: 2 * (-t.e0e1 * t.e3e4 - t.e0e1e2e3 * t.e2e4 + t.e0e1e2e4 * t.e2e3 + t.e0e1e3e4 * t.s + t.e0e2 * t.e1e2e3e4 - t.e0e2e3e4 * t.e1e2 + t.e0e3 * t.e1e4 - t.e0e4 * t.e1e3),
        e0e2e3e4: 2 * (-t.e0e1 * t.e1e2e3e4 + t.e0e1e2e3 * t.e1e4 - t.e0e1e2e4 * t.e1e3 + t.e0e1e3e4 * t.e1e2 - t.e0e2 * t.e3e4 + t.e0e2e3e4 * t.s + t.e0e3 * t.e2e4 - t.e0e4 * t.e2e3),
        e1e2e3e4: 2 * (-t.e1e2 * t.e3e4 + t.e1e2e3e4 * t.s + t.e1e3 * t.e2e4 - t.e1e4 * t.e2e3),
        }
    }

    /// Rescale every coefficient so that the squared magnitude of the
    /// rotation part is close to `UNIT * UNIT`; a motor whose rotation part
    /// is exactly zero becomes the identity.
    pub fn normalised(self) -> (r: Self)
        requires
            transform_in_limit(self@, COEFF_LIMIT as int),
        ensures
            (self.s == 0 && self.e1e2 == 0 && self.e1e3 == 0 && self.e1e4 == 0 && self.e2e3 == 0 && self.e2e4 == 0 && self.e3e4 == 0 && self.e1e2e3e4 == 0) ==> r@ == transform_identity(),
            !(self.s == 0 && self.e1e2 == 0 && self.e1e3 == 0 && self.e1e4 == 0 && self.e2e3 == 0 && self.e2e4 == 0 && self.e3e4 == 0 && self.e1e2e3e4 == 0) ==> {
                let m = sqrt_floor(self@.s * self@.s + self@.e1e2 * self@.e1e2 + self@.e1e3 * self@.e1e3 + self@.e1e4 * self@.e1e4 + self@.e2e3 * self@.e2e3 + self@.e2e4 * self@.e2e4 + self@.e3e4 * self@.e3e4 + self@.e1e2e3e4 * self@.e1e2e3e4);
                r@.s == div_trunc(self@.s * UNIT, m) && r@.e0e1 == div_trunc(self@.e0e1 * UNIT, m) && r@.e0e2 == div_trunc(self@.e0e2 * UNIT, m) && r@.e0e3 == div_trunc(self@.e0e3 * UNIT, m) && r@.e0e4 == div_trunc(self@.e0e4 * UNIT, m) && r@.e1e2 == div_trunc(self@.e1e2 * UNIT, m) && r@.e1e3 == div_trunc(self@.e1e3 * UNIT, m) && r@.e1e4 == div_trunc(self@.e1e4 * UNIT, m) && r@.e2e3 == div_trunc(self@.e2e3 * UNIT, m) && r@.e2e4 == div_trunc(self@.e2e4 * UNIT, m) && r@.e3e4 == div_trunc(self@.e3e4 * UNIT, m) && r@.e0e1e2e3 == div_trunc(self@.e0e1e2e3 * UNIT, m) && r@.e0e1e2e4 == div_trunc(self@.e0e1e2e4 * UNIT, m) && r@.e0e1e3e4 == div_trunc(self@.e0e1e3e4 * UNIT, m) && r@.e0e2e3e4 == div_trunc(self@.e0e2e3e4 * UNIT, m) && r@.e1e2e3e4 == div_trunc(self@.e1e2e3e4 * UNIT, m)
            },
            abs_of(r@.s) <= UNIT,
            abs_of(r@.e1e2) <= UNIT,
            abs_of(r@.e1e3) <= UNIT,
            abs_of(r@.e1e4) <= UNIT,
            abs_of(r@.e2e3) <= UNIT,
            abs_of(r@.e2e4) <= UNIT,
            abs_of(r@.e3e4) <= UNIT,
            abs_of(r@.e1e2e3e4) <= UNIT,
    {
        proof {
            lemma_mul_within(COEFF_LIMIT as int, COEFF_LIMIT as int);
            lemma_squares_nonneg();
        }
        let sq = self.squared_magnitude().s;
        let m = isqrt(sq);
        if m == 0 {
            proof {
                lemma_transform_zero(self@, sq as int);
            }
            return Self::identity();
        }
        proof {
            lemma_component_within_root(self@.s, m as int, sq as int);
            lemma_div_trunc_bound(self@.s * UNIT, m as int, UNIT as int);
            lemma_component_within_root(self@.e1e2, m as int, sq as int);
            lemma_div_trunc_bound(self@.e1e2 * UNIT, m as int, UNIT as int);
            lemma_component_within_root(self@.e1e3, m as int, sq as int);
            lemma_div_trunc_bound(self@.e1e3 * UNIT, m as int, UNIT as int);
            lemma_component_within_root(self@.e1e4, m as int, sq as int);
            lemma_div_trunc_bound(self@.e1e4 * UNIT, m as int, UNIT as int);
            lemma_component_within_root(self@.e2e3, m as int, sq as int);
            lemma_div_trunc_bound(self@.e2e3 * UNIT, m as int, UNIT as int);
            lemma_component_within_root(self@.e2e4, m as int, sq as int);
            lemma_div_trunc_bound(self@.e2e4 * UNIT, m as int, UNIT as int);
            lemma_component_within_root(self@.e3e4, m as int, sq as int);
            lemma_div_trunc_bound(self@.e3e4 * UNIT, m as int, UNIT as int);
            lemma_component_within_root(self@.e1e2e3e4, m as int, sq as int);
            lemma_div_trunc_bound(self@.e1e2e3e4 * UNIT, m as int, UNIT as int);
        }
        Transform {
            s: div_to_zero(self.s * UNIT, m),
            e0e1: div_to_zero(self.e0e1 * UNIT, m),
            e0e2: div_to_zero(self.e0e2 * UNIT, m),
            e0e3: div_to_zero(self.e0e3 * UNIT, m),
            e0e4: div_to_zero(self.e0e4 * UNIT, m),
            e1e2: div_to_zero(self.e1e2 * UNIT, m),
            e1e3: div_to_zero(self.e1e3 * UNIT, m),
            e1e4: div_to_zero(self.e1e4 * UNIT, m),
            e2e3: div_to_zero(self.e2e3 * UNIT, m),
            e2e4: div_to_zero(self.e2e4 * UNIT, m),
            e3e4: div_to_zero(self.e3e4 * UNIT, m),
            e0e1e2e3: div_to_zero(self.e0e1e2e3 * UNIT, m),
            e0e1e2e4: div_to_zero(self.e0e1e2e4 * UNIT, m),
            e0e1e3e4: div_to_zero(self.e0e1e3e4 * UNIT, m),
            e0e2e3e4: div_to_zero(self.e0e2e3e4 * UNIT, m),
            e1e2e3e4: div_to_zero(self.e1e2e3e4 * UNIT, m),
        }
    }

}

/// A zero squared magnitude forces every rotation coefficient to zero.
proof fn lemma_transform_zero(m: TransformModel, sq: int)
    requires
        sq == m.s * m.s + m.e1e2 * m.e1e2 + m.e1e3 * m.e1e3 + m.e1e4 * m.e1e4 + m.e2e3 * m.e2e3 + m.e2e4 * m.e2e4 + m.e3e4 * m.e3e4 + m.e1e2e3e4 * m.e1e2e3e4,
        sq == 0,
    ensures
        m.s == 0 && m.e1e2 == 0 && m.e1e3 == 0 && m.e1e4 == 0 && m.e2e3 == 0 && m.e2e4 == 0 && m.e3e4 == 0 && m.e1e2e3e4 == 0,
{
    assert(m.s == 0 && m.e1e2 == 0 && m.e1e3 == 0 && m.e1e4 == 0 && m.e2e3 == 0 && m.e2e4 == 0 && m.e3e4 == 0 && m.e1e2e3e4 == 0) by (nonlinear_arith)
        requires sq == m.s * m.s + m.e1e2 * m.e1e2 + m.e1e3 * m.e1e3 + m.e1e4 * m.e1e4 + m.e2e3 * m.e2e3 + m.e2e4 * m.e2e4 + m.e3e4 * m.e3e4 + m.e1e2e3e4 * m.e1e2e3e4, sq == 0;
}

} // verus!
