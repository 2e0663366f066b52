//! The two vector-rotor subalgebras: the reduced rotor without `e2` and the
//! full 4D rotor, with exact `i64` coefficient arithmetic.
//!
//! Every product is stated against a spec-level model over mathematical
//! integers; the closed-form coefficient expressions are the geometric
//! products of the algebra with `e0^2 = 0`, `e1^2 = .. = e4^2 = 1`, with
//! blades ordered by grade and then lexicographically.  Directions are
//! rotated by the left-reversed sandwich `reverse(r) * v * r`; the emitted
//! form adds the contraction `v | (1 - reverse(r) * r)`, which vanishes for a
//! normalised rotor, so that the result stays in the vector group.

use vstd::prelude::*;

use crate::num::{abs_of, div_to_zero, div_trunc, isqrt, lemma_component_within_root,
    lemma_div_trunc_bound, lemma_mul_within, lemma_square_le, lemma_squares_nonneg, sqrt_floor};
use crate::vectors::{Vec4Model, Vector4};
use crate::{COEFF_LIMIT, SANDWICH_LIMIT, UNIT};

verus! {

/// Reduced rotor: even element of the subalgebra spanned by `e1, e3, e4`.
#[derive(Debug, Clone, Copy, PartialEq, Eq, Structural)]
pub struct NoE2Rotor {
    pub s: i64,
    pub e1e3: i64,
    pub e1e4: i64,
    pub e3e4: i64,
}

/// The value of a [`NoE2Rotor`]: its coefficients as mathematical integers.
pub struct NoE2RotorModel {
    pub s: int,
    pub e1e3: int,
    pub e1e4: int,
    pub e3e4: int,
}

impl View for NoE2Rotor {
    type V = NoE2RotorModel;

    open spec fn view(&self) -> NoE2RotorModel {
        NoE2RotorModel { s: self.s as int, e1e3: self.e1e3 as int, e1e4: self.e1e4 as int, e3e4: self.e3e4 as int }
    }
}

/// Full 4D rotor: even element of the subalgebra spanned by `e1..e4`.
#[derive(Debug, Clone, Copy, PartialEq, Eq, Structural)]
pub struct Rotor {
    pub s: i64,
    pub e1e2: i64,
    pub e1e3: i64,
    pub e1e4: i64,
    pub e2e3: i64,
    pub e2e4: i64,
    pub e3e4: i64,
    pub e1e2e3e4: i64,
}

/// The value of a [`Rotor`]: its coefficients as mathematical integers.
pub struct RotorModel {
    pub s: int,
    pub e1e2: int,
    pub e1e3: int,
    pub e1e4: int,
    pub e2e3: int,
    pub e2e4: int,
    pub e3e4: int,
    pub e1e2e3e4: int,
}

impl View for Rotor {
    type V = RotorModel;

    open spec fn view(&self) -> RotorModel {
        RotorModel { s: self.s as int, e1e2: self.e1e2 as int, e1e3: self.e1e3 as int, e1e4: self.e1e4 as int, e2e3: self.e2e3 as int, e2e4: self.e2e4 as int, e3e4: self.e3e4 as int, e1e2e3e4: self.e1e2e3e4 as int }
    }
}

/// `reverse(r) * r` of a rotor: a scalar plus a quadvector part.
#[derive(Debug, Clone, Copy, PartialEq, Eq, Structural)]
pub struct RotorSquaredMagnitude {
    pub s: i64,
    pub e1e2e3e4: i64,
}

/// The value of a [`RotorSquaredMagnitude`].
pub struct RotorMagModel {
    pub s: int,
    pub e1e2e3e4: int,
}

impl View for RotorSquaredMagnitude {
    type V = RotorMagModel;

    open spec fn view(&self) -> RotorMagModel {
        RotorMagModel { s: self.s as int, e1e2e3e4: self.e1e2e3e4 as int }
    }
}

/// Every coefficient of `m` lies within `lim`.
pub open spec fn noe2_in_limit(m: NoE2RotorModel, lim: int) -> bool {
    -lim <= m.s <= lim && -lim <= m.e1e3 <= lim && -lim <= m.e1e4 <= lim && -lim <= m.e3e4 <= lim
}

/// Every coefficient of `m` lies within `lim`.
pub open spec fn rotor_in_limit(m: RotorModel, lim: int) -> bool {
    -lim <= m.s <= lim && -lim <= m.e1e2 <= lim && -lim <= m.e1e3 <= lim && -lim <= m.e1e4 <= lim && -lim <= m.e2e3 <= lim && -lim <= m.e2e4 <= lim && -lim <= m.e3e4 <= lim && -lim <= m.e1e2e3e4 <= lim
}

/// The identity rotor: scalar one.
pub open spec fn noe2_identity() -> NoE2RotorModel {
    NoE2RotorModel {
        s: 1,
        e1e3: 0,
        e1e4: 0,
        e3e4: 0,
    }
}

/// The identity rotor: scalar one.
pub open spec fn rotor_identity() -> RotorModel {
    RotorModel {
        s: 1,
        e1e2: 0,
        e1e3: 0,
        e1e4: 0,
        e2e3: 0,
        e2e4: 0,
        e3e4: 0,
        e1e2e3e4: 0,
    }
}

/// Reversal: bivector coefficients change sign.
pub open spec fn noe2_reverse(m: NoE2RotorModel) -> NoE2RotorModel {
    NoE2RotorModel {
        s: m.s,
        e1e3: -m.e1e3,
        e1e4: -m.e1e4,
        e3e4: -m.e3e4,
    }
}

/// Reversal: bivector coefficients change sign, the quadvector keeps its.
pub open spec fn rotor_reverse(m: RotorModel) -> RotorModel {
    RotorModel {
        s: m.s,
        e1e2: -m.e1e2,
        e1e3: -m.e1e3,
        e1e4: -m.e1e4,
        e2e3: -m.e2e3,
        e2e4: -m.e2e4,
        e3e4: -m.e3e4,
        e1e2e3e4: m.e1e2e3e4,
    }
}

/// Apply `a` then `b`: the geometric product `a * b`; under the
/// left-reversed sandwich the left factor acts first.
pub open spec fn noe2_and_then(a: NoE2RotorModel, b: NoE2RotorModel) -> NoE2RotorModel {
    NoE2RotorModel {
        s: -(a.e1e3 * b.e1e3) - a.e1e4 * b.e1e4 - a.e3e4 * b.e3e4 + a.s * b.s,
        e1e3: a.e1e3 * b.s - a.e1e4 * b.e3e4 + a.e3e4 * b.e1e4 + a.s * b.e1e3,
        e1e4: a.e1e3 * b.e3e4 + a.e1e4 * b.s - a.e3e4 * b.e1e3 + a.s * b.e1e4,
        e3e4: -(a.e1e3 * b.e1e4) + a.e1e4 * b.e1e3 + a.e3e4 * b.s + a.s * b.e3e4,
    }
}

/// Apply `a` then `b`: the geometric product `a * b`; under the
/// left-reversed sandwich the left factor acts first.
pub open spec fn rotor_and_then(a: RotorModel, b: RotorModel) -> RotorModel {
    RotorModel {
        s: -(a.e1e2 * b.e1e2) + a.e1e2e3e4 * b.e1e2e3e4 - a.e1e3 * b.e1e3 - a.e1e4 * b.e1e4 - a.e2e3 * b.e2e3 - a.e2e4 * b.e2e4 - a.e3e4 * b.e3e4 + a.s * b.s,
        e1e2: a.e1e2 * b.s - a.e1e2e3e4 * b.e3e4 - a.e1e3 * b.e2e3 - a.e1e4 * b.e2e4 + a.e2e3 * b.e1e3 + a.e2e4 * b.e1e4 - a.e3e4 * b.e1e2e3e4 + a.s * b.e1e2,
        e1e3: a.e1e2 * b.e2e3 + a.e1e2e3e4 * b.e2e4 + a.e1e3 * b.s - a.e1e4 * b.e3e4 - a.e2e3 * b.e1e2 + a.e2e4 * b.e1e2e3e4 + a.e3e4 * b.e1e4 + a.s * b.e1e3,
        e1e4: a.e1e2 * b.e2e4 - a.e1e2e3e4 * b.e2e3 + a.e1e3 * b.e3e4 + a.e1e4 * b.s - a.e2e3 * b.e1e2e3e4 - a.e2e4 * b.e1e2 - a.e3e4 * b.e1e3 + a.s * b.e1e4,
        e2e3: -(a.e1e2 * b.e1e3) - a.e1e2e3e4 * b.e1e4 + a.e1e3 * b.e1e2 - a.e1e4 * b.e1e2e3e4 + a.e2e3 * b.s - a.e2e4 * b.e3e4 + a.e3e4 * b.e2e4 + a.s * b.e2e3,
        e2e4: -(a.e1e2 * b.e1e4) + a.e1e2e3e4 * b.e1e3 + a.e1e3 * b.e1e2e3e4 + a.e1e4 * b.e1e2 + a.e2e3 * b.e3e4 + a.e2e4 * b.s - a.e3e4 * b.e2e3 + a.s * b.e2e4,
        e3e4: -(a.e1e2 * b.e1e2e3e4) - a.e1e2e3e4 * b.e1e2 - a.e1e3 * b.e1e4 + a.e1e4 * b.e1e3 - a.e2e3 * b.e2e4 + a.e2e4 * b.e2e3 + a.e3e4 * b.s + a.s * b.e3e4,
        e1e2e3e4: a.e1e2 * b.e3e4 + a.e1e2e3e4 * b.s - a.e1e3 * b.e2e4 + a.e1e4 * b.e2e3 + a.e2e3 * b.e1e4 - a.e2e4 * b.e1e3 + a.e3e4 * b.e1e2 + a.s * b.e1e2e3e4,
    }
}

/// The scalar part of `reverse(r) * r`: the sum of the squares of the
/// coefficients.
pub open spec fn noe2_squared_magnitude(r: NoE2RotorModel) -> int {
    r.s * r.s + r.e1e3 * r.e1e3 + r.e1e4 * r.e1e4 + r.e3e4 * r.e3e4
}

/// `reverse(r) * r`: the squared norm in the scalar slot and the quadvector
/// residue, which is zero exactly when `r` is a product of two vectors.
pub open spec fn rotor_squared_magnitude(r: RotorModel) -> RotorMagModel {
    RotorMagModel {
        s: r.e1e2 * r.e1e2 + r.e1e2e3e4 * r.e1e2e3e4 + r.e1e3 * r.e1e3 + r.e1e4 * r.e1e4 + r.e2e3 * r.e2e3 + r.e2e4 * r.e2e4 + r.e3e4 * r.e3e4 + r.s * r.s,
        e1e2e3e4: 2 * (-r.e1e2 * r.e3e4 + r.e1e2e3e4 * r.s + r.e1e3 * r.e2e4 - r.e1e4 * r.e2e3),
    }
}

/// The direction `v` carried by the rotor `r`: the vector part of
/// `reverse(r) * v * r + (v | (1 - reverse(r) * r))`.
pub open spec fn noe2_rotate_direction(r: NoE2RotorModel, v: Vec4Model) -> Vec4Model {
    Vec4Model {
        x: -r.e1e3 * r.e1e3 * v.x - r.e1e4 * r.e1e4 * v.x + r.e3e4 * r.e3e4 * v.x + r.s * r.s * v.x + 2 * (r.e1e3 * r.e3e4 * v.w - r.e1e3 * r.s * v.z - r.e1e4 * r.e3e4 * v.z - r.e1e4 * r.s * v.w),
        y: r.e1e3 * r.e1e3 * v.y + r.e1e4 * r.e1e4 * v.y + r.e3e4 * r.e3e4 * v.y + r.s * r.s * v.y,
        z: -r.e1e3 * r.e1e3 * v.z + r.e1e4 * r.e1e4 * v.z - r.e3e4 * r.e3e4 * v.z + r.s * r.s * v.z + 2 * (-r.e1e3 * r.e1e4 * v.w + r.e1e3 * r.s * v.x - r.e1e4 * r.e3e4 * v.x - r.e3e4 * r.s * v.w),
        w: r.e1e3 * r.e1e3 * v.w - r.e1e4 * r.e1e4 * v.w - r.e3e4 * r.e3e4 * v.w + r.s * r.s * v.w + 2 * (-r.e1e3 * r.e1e4 * v.z + r.e1e3 * r.e3e4 * v.x + r.e1e4 * r.s * v.x + r.e3e4 * r.s * v.z),
    }
}

/// The direction `v` carried by the rotor `r`: the vector part of
/// `reverse(r) * v * r + (v | (1 - reverse(r) * r))`.
pub open spec fn rotate_direction(r: RotorModel, v: Vec4Model) -> Vec4Model {
    Vec4Model {
        x: -r.e1e2 * r.e1e2 * v.x - r.e1e2e3e4 * r.e1e2e3e4 * v.x - r.e1e3 * r.e1e3 * v.x - r.e1e4 * r.e1e4 * v.x + r.e2e3 * r.e2e3 * v.x + r.e2e4 * r.e2e4 * v.x + r.e3e4 * r.e3e4 * v.x + r.s * r.s * v.x + 2 * (r.e1e2 * r.e2e3 * v.z + r.e1e2 * r.e2e4 * v.w - r.e1e2 * r.s * v.y - r.e1e2e3e4 * r.e2e3 * v.w + r.e1e2e3e4 * r.e2e4 * v.z - r.e1e2e3e4 * r.e3e4 * v.y - r.e1e3 * r.e2e3 * v.y + r.e1e3 * r.e3e4 * v.w - r.e1e3 * r.s * v.z - r.e1e4 * r.e2e4 * v.y - r.e1e4 * r.e3e4 * v.z - r.e1e4 * r.s * v.w),
        y: -r.e1e2 * r.e1e2 * v.y - r.e1e2e3e4 * r.e1e2e3e4 * v.y + r.e1e3 * r.e1e3 * v.y + r.e1e4 * r.e1e4 * v.y - r.e2e3 * r.e2e3 * v.y - r.e2e4 * r.e2e4 * v.y + r.e3e4 * r.e3e4 * v.y + r.s * r.s * v.y + 2 * (-r.e1e2 * r.e1e3 * v.z - r.e1e2 * r.e1e4 * v.w + r.e1e2 * r.s * v.x + r.e1e2e3e4 * r.e1e3 * v.w - r.e1e2e3e4 * r.e1e4 * v.z + r.e1e2e3e4 * r.e3e4 * v.x - r.e1e3 * r.e2e3 * v.x - r.e1e4 * r.e2e4 * v.x + r.e2e3 * r.e3e4 * v.w - r.e2e3 * r.s * v.z - r.e2e4 * r.e3e4 * v.z - r.e2e4 * r.s * v.w),
        z: r.e1e2 * r.e1e2 * v.z - r.e1e2e3e4 * r.e1e2e3e4 * v.z - r.e1e3 * r.e1e3 * v.z + r.e1e4 * r.e1e4 * v.z - r.e2e3 * r.e2e3 * v.z + r.e2e4 * r.e2e4 * v.z - r.e3e4 * r.e3e4 * v.z + r.s * r.s * v.z + 2 * (-r.e1e2 * r.e1e2e3e4 * v.w - r.e1e2 * r.e1e3 * v.y + r.e1e2 * r.e2e3 * v.x + r.e1e2e3e4 * r.e1e4 * v.y - r.e1e2e3e4 * r.e2e4 * v.x - r.e1e3 * r.e1e4 * v.w + r.e1e3 * r.s * v.x - r.e1e4 * r.e3e4 * v.x - r.e2e3 * r.e2e4 * v.w + r.e2e3 * r.s * v.y - r.e2e4 * r.e3e4 * v.y - r.e3e4 * r.s * v.w),
        w: r.e1e2 * r.e1e2 * v.w - r.e1e2e3e4 * r.e1e2e3e4 * v.w + r.e1e3 * r.e1e3 * v.w - r.e1e4 * r.e1e4 * v.w + r.e2e3 * r.e2e3 * v.w - r.e2e4 * r.e2e4 * v.w - r.e3e4 * r.e3e4 * v.w + r.s * r.s * v.w + 2 * (r.e1e2 * r.e1e2e3e4 * v.z - r.e1e2 * r.e1e4 * v.y + r.e1e2 * r.e2e4 * v.x - r.e1e2e3e4 * r.e1e3 * v.y + r.e1e2e3e4 * r.e2e3 * v.x - r.e1e3 * r.e1e4 * v.z + r.e1e3 * r.e3e4 * v.x + r.e1e4 * r.s * v.x - r.e2e3 * r.e2e4 * v.z + r.e2e3 * r.e3e4 * v.y + r.e2e4 * r.s * v.y + r.e3e4 * r.s * v.z),
    }
}

/// Embed a reduced rotor: every `e2`-touching coefficient is zero.
pub open spec fn rotor_from_no_e2(q: NoE2RotorModel) -> RotorModel {
    RotorModel {
        s: q.s,
        e1e2: 0,
        e1e3: q.e1e3,
        e1e4: q.e1e4,
        e2e3: 0,
        e2e4: 0,
        e3e4: q.e3e4,
        e1e2e3e4: 0,
    }
}

/// The unnormalised rotor `a * (a + b)` carrying `a` toward `b`: scalar part
/// `a . a + a . b`, bivector part the outer product `a ^ b`.
pub open spec fn rotor_from_to(a: Vec4Model, b: Vec4Model) -> RotorModel {
    RotorModel {
        s: a.w * a.w + a.w * b.w + a.x * a.x + a.x * b.x + a.y * a.y + a.y * b.y + a.z * a.z + a.z * b.z,
        e1e2: a.x * b.y - a.y * b.x,
        e1e3: a.x * b.z - a.z * b.x,
        e1e4: -a.w * b.x + a.x * b.w,
        e2e3: a.y * b.z - a.z * b.y,
        e2e4: -a.w * b.y + a.y * b.w,
        e3e4: -a.w * b.z + a.z * b.w,
        e1e2e3e4: 0,
    }
}

/// Rescaling a rotor so that its squared magnitude is close to
/// `UNIT * UNIT`: the zero rotor becomes the identity, every other rotor is
/// scaled by `UNIT` and divided by the floor root of its squared norm.
pub open spec fn rotor_normalised(m: RotorModel) -> RotorModel {
    let mm = sqrt_floor(m.s * m.s + m.e1e2 * m.e1e2 + m.e1e3 * m.e1e3 + m.e1e4 * m.e1e4 + m.e2e3 * m.e2e3 + m.e2e4 * m.e2e4 + m.e3e4 * m.e3e4 + m.e1e2e3e4 * m.e1e2e3e4);
    if mm == 0 {
        rotor_identity()
    } else {
        RotorModel {
            s: div_trunc(m.s * UNIT, mm),
            e1e2: div_trunc(m.e1e2 * UNIT, mm),
            e1e3: div_trunc(m.e1e3 * UNIT, mm),
            e1e4: div_trunc(m.e1e4 * UNIT, mm),
            e2e3: div_trunc(m.e2e3 * UNIT, mm),
            e2e4: div_trunc(m.e2e4 * UNIT, mm),
            e3e4: div_trunc(m.e3e4 * UNIT, mm),
            e1e2e3e4: div_trunc(m.e1e2e3e4 * UNIT, mm),
        }
    }
}

impl NoE2Rotor {

    /// The identity: scalar one, everything else zero.
    pub fn identity() -> (r: Self)
        ensures
            r@ == noe2_identity(),
    {
        NoE2Rotor {
            s: 1,
            e1e3: 0,
            e1e4: 0,
            e3e4: 0,
        }
    }

    /// Rotor of a rotation in the `xz` plane, from the cosine and sine of
    /// half the rotation angle.
    pub fn rotate_xz(cos_half: i64, sin_half: i64) -> (r: Self)
        ensures
            r@ == (NoE2RotorModel { s: cos_half as int, e1e3: sin_half as int, e1e4: 0, e3e4: 0 }),
    {
        NoE2Rotor {
            s: cos_half,
            e1e3: sin_half,
            e1e4: 0,
            e3e4: 0,
        }
    }

    /// Rotor of a rotation in the `xw` plane, from the cosine and sine of
    /// half the rotation angle.
    pub fn rotate_xw(cos_half: i64, sin_half: i64) -> (r: Self)
        ensures
            r@ == (NoE2RotorModel { s: cos_half as int, e1e3: 0, e1e4: sin_half as int, e3e4: 0 }),
    {
        NoE2Rotor {
            s: cos_half,
            e1e3: 0,
            e1e4: sin_half,
            e3e4: 0,
        }
    }

    /// Rotor of a rotation in the `zw` plane, from the cosine and sine of
    /// half the rotation angle.
    pub fn rotate_zw(cos_half: i64, sin_half: i64) -> (r: Self)
        ensures
            r@ == (NoE2RotorModel { s: cos_half as int, e1e3: 0, e1e4: 0, e3e4: sin_half as int }),
    {
        NoE2Rotor {
            s: cos_half,
            e1e3: 0,
            e1e4: 0,
            e3e4: sin_half,
        }
    }

    /// Compose: apply `self`, then `other`; the geometric product
    /// `self * other`, whose sandwich applies `self`'s motion first.
    pub fn and_then(self, other: Self) -> (r: Self)
        requires
            noe2_in_limit(self@, COEFF_LIMIT as int),
            noe2_in_limit(other@, COEFF_LIMIT as int),
        ensures
            r@ == noe2_and_then(self@, other@),
    {
        proof {
            lemma_mul_within(COEFF_LIMIT as int, COEFF_LIMIT as int);
        }
        let a = self;
        let b = other;
        NoE2Rotor {
        s: -(a.e1e3 * b.e1e3) - a.e1e4 * b.e1e4 - a.e3e4 * b.e3e4 + a.s * b.s,
        e1e3: a.e1e3 * b.s - a.e1e4 * b.e3e4 + a.e3e4 * b.e1e4 + a.s * b.e1e3,
        e1e4: a.e1e3 * b.e3e4 + a.e1e4 * b.s - a.e3e4 * b.e1e3 + a.s * b.e1e4,
        e3e4: -(a.e1e3 * b.e1e4) + a.e1e4 * b.e1e3 + a.e3e4 * b.s + a.s * b.e3e4,
        }
    }

    /// Reverse: negate every blade of grade two.
    pub fn reverse(self) -> (r: Self)
        requires
            self.e1e3 > i64::MIN,
            self.e1e4 > i64::MIN,
            self.e3e4 > i64::MIN,
        ensures
            r@ == noe2_reverse(self@),
    {
        NoE2Rotor {
            s: self.s,
            e1e3: -self.e1e3,
            e1e4: -self.e1e4,
            e3e4: -self.e3e4,
        }
    }

    /// Carry an arbitrary direction with this rotor.
    #[verifier::rlimit(100)]
    pub fn transform_direction(self, direction: Vector4<i64>) -> (r: Vector4<i64>)
        requires
            noe2_in_limit(self@, SANDWICH_LIMIT as int),
            crate::vectors::vec4_in_limit(direction@, SANDWICH_LIMIT as int),
        ensures
            r@ == noe2_rotate_direction(self@, direction@),
    {
        proof {
            let l = SANDWICH_LIMIT as int;
            lemma_mul_within(l, l);
            lemma_mul_within(l * l, l);
        }
        let r = self;
        let v = direction;
        Vector4 {
        x: -r.e1e3 * r.e1e3 * v.x - r.e1e4 * r.e1e4 * v.x + r.e3e4 * r.e3e4 * v.x + r.s * r.s * v.x + 2 * (r.e1e3 * r.e3e4 * v.w - r.e1e3 * r.s * v.z - r.e1e4 * r.e3e4 * v.z - r.e1e4 * r.s * v.w),
        y: r.e1e3 * r.e1e3 * v.y + r.e1e4 * r.e1e4 * v.y + r.e3e4 * r.e3e4 * v.y + r.s * r.s * v.y,
        z: -r.e1e3 * r.e1e3 * v.z + r.e1e4 * r.e1e4 * v.z - r.e3e4 * r.e3e4 * v.z + r.s * r.s * v.z + 2 * (-r.e1e3 * r.e1e4 * v.w + r.e1e3 * r.s * v.x - r.e1e4 * r.e3e4 * v.x - r.e3e4 * r.s * v.w),
        w: r.e1e3 * r.e1e3 * v.w - r.e1e4 * r.e1e4 * v.w - r.e3e4 * r.e3e4 * v.w + r.s * r.s * v.w + 2 * (-r.e1e3 * r.e1e4 * v.z + r.e1e3 * r.e3e4 * v.x + r.e1e4 * r.s * v.x + r.e3e4 * r.s * v.z),
        }
    }

    /// The image of the canonical `x` direction.
    pub fn x(self) -> (r: Vector4<i64>)
        requires
            noe2_in_limit(self@, SANDWICH_LIMIT as int),
        ensures
            r@ == noe2_rotate_direction(self@, (Vec4Model { x: 1, y: 0, z: 0, w: 0 })),
    {
        self.transform_direction(Vector4 { x: 1, y: 0, z: 0, w: 0 })
    }

    /// The image of the canonical `y` direction.
    pub fn y(self) -> (r: Vector4<i64>)
        requires
            noe2_in_limit(self@, SANDWICH_LIMIT as int),
        ensures
            r@ == noe2_rotate_direction(self@, (Vec4Model { x: 0, y: 1, z: 0, w: 0 })),
    {
        self.transform_direction(Vector4 { x: 0, y: 1, z: 0, w: 0 })
    }

    /// The image of the canonical `z` direction.
    pub fn z(self) -> (r: Vector4<i64>)
        requires
            noe2_in_limit(self@, SANDWICH_LIMIT as int),
        ensures
            r@ == noe2_rotate_direction(self@, (Vec4Model { x: 0, y: 0, z: 1, w: 0 })),
    {
        self.transform_direction(Vector4 { x: 0, y: 0, z: 1, w: 0 })
    }

    /// The image of the canonical `w` direction.
    pub fn w(self) -> (r: Vector4<i64>)
        requires
            noe2_in_limit(self@, SANDWICH_LIMIT as int),
        ensures
            r@ == noe2_rotate_direction(self@, (Vec4Model { x: 0, y: 0, z: 0, w: 1 })),
    {
        self.transform_direction(Vector4 { x: 0, y: 0, z: 0, w: 1 })
    }

    /// The scalar part of `reverse(self) * self`.
    pub fn squared_magnitude(self) -> (r: i64)
        requires
            noe2_in_limit(self@, COEFF_LIMIT as int),
        ensures
            r == noe2_squared_magnitude(self@),
            r >= 0,
    {
        proof {
            lemma_mul_within(COEFF_LIMIT as int, COEFF_LIMIT as int);
            lemma_squares_nonneg();
        }
        self.s * self.s + self.e1e3 * self.e1e3 + self.e1e4 * self.e1e4
            + self.e3e4 * self.e3e4
    }

    /// Rescale so that the squared magnitude is close to `UNIT * UNIT`; the
    /// zero rotor becomes the identity.
    pub fn normalised(self) -> (r: Self)
        requires
            noe2_in_limit(self@, COEFF_LIMIT as int),
        ensures
            (self.s == 0 && self.e1e3 == 0 && self.e1e4 == 0 && self.e3e4 == 0) ==> r@ == noe2_identity(),
            !(self.s == 0 && self.e1e3 == 0 && self.e1e4 == 0 && self.e3e4 == 0) ==> {
                let m = sqrt_floor(self@.s * self@.s + self@.e1e3 * self@.e1e3 + self@.e1e4 * self@.e1e4 + self@.e3e4 * self@.e3e4);
                r@.s == div_trunc(self@.s * UNIT, m) && r@.e1e3 == div_trunc(self@.e1e3 * UNIT, m) && r@.e1e4 == div_trunc(self@.e1e4 * UNIT, m) && r@.e3e4 == div_trunc(self@.e3e4 * UNIT, m)
            },
            abs_of(r@.s) <= UNIT,
            abs_of(r@.e1e3) <= UNIT,
            abs_of(r@.e1e4) <= UNIT,
            abs_of(r@.e3e4) <= UNIT,
    {
        proof {
            lemma_mul_within(COEFF_LIMIT as int, COEFF_LIMIT as int);
            lemma_squares_nonneg();
        }
        let sq = self.squared_magnitude();
        let m = isqrt(sq);
        if m == 0 {
            proof {
                lemma_noe2_zero(self@, sq as int);
            }
            return Self::identity();
        }
        proof {
            assert(sq < (m + 1) * (m + 1) && m * m <= sq);
            lemma_square_le(self@.s, COEFF_LIMIT as int);
            lemma_component_within_root(self@.s, m as int, sq as int);
            lemma_div_trunc_bound(self@.s * UNIT, m as int, UNIT as int);
            lemma_square_le(self@.e1e3, COEFF_LIMIT as int);
            lemma_component_within_root(self@.e1e3, m as int, sq as int);
            lemma_div_trunc_bound(self@.e1e3 * UNIT, m as int, UNIT as int);
            lemma_square_le(self@.e1e4, COEFF_LIMIT as int);
            lemma_component_within_root(self@.e1e4, m as int, sq as int);
            lemma_div_trunc_bound(self@.e1e4 * UNIT, m as int, UNIT as int);
            lemma_square_le(self@.e3e4, COEFF_LIMIT as int);
            lemma_component_within_root(self@.e3e4, m as int, sq as int);
            lemma_div_trunc_bound(self@.e3e4 * UNIT, m as int, UNIT as int);
        }
        Self {
            s: div_to_zero(self.s * UNIT, m),
            e1e3: div_to_zero(self.e1e3 * UNIT, m),
            e1e4: div_to_zero(self.e1e4 * UNIT, m),
            e3e4: div_to_zero(self.e3e4 * UNIT, m),
        }
    }

}

impl Rotor {

    /// The identity: scalar one, everything else zero.
    pub fn identity() -> (r: Self)
        ensures
            r@ == rotor_identity(),
    {
        Rotor {
            s: 1,
            e1e2: 0,
            e1e3: 0,
            e1e4: 0,
            e2e3: 0,
            e2e4: 0,
            e3e4: 0,
            e1e2e3e4: 0,
        }
    }

    /// Rotor of a rotation in the `xy` plane, from the cosine and sine of
    /// half the rotation angle.
    pub fn rotate_xy(cos_half: i64, sin_half: i64) -> (r: Self)
        ensures
            r@ == (RotorModel { s: cos_half as int, e1e2: sin_half as int, e1e3: 0, e1e4: 0, e2e3: 0, e2e4: 0, e3e4: 0, e1e2e3e4: 0 }),
    {
        Rotor {
            s: cos_half,
            e1e2: sin_half,
            e1e3: 0,
            e1e4: 0,
            e2e3: 0,
            e2e4: 0,
            e3e4: 0,
            e1e2e3e4: 0,
        }
    }

    /// Rotor of a rotation in the `xz` plane, from the cosine and sine of
    /// half the rotation angle.
    pub fn rotate_xz(cos_half: i64, sin_half: i64) -> (r: Self)
        ensures
            r@ == (RotorModel { s: cos_half as int, e1e2: 0, e1e3: sin_half as int, e1e4: 0, e2e3: 0, e2e4: 0, e3e4: 0, e1e2e3e4: 0 }),
    {
        Rotor {
            s: cos_half,
            e1e2: 0,
            e1e3: sin_half,
            e1e4: 0,
            e2e3: 0,
            e2e4: 0,
            e3e4: 0,
            e1e2e3e4: 0,
        }
    }

    /// Rotor of a rotation in the `xw` plane, from the cosine and sine of
    /// half the rotation angle.
    pub fn rotate_xw(cos_half: i64, sin_half: i64) -> (r: Self)
        ensures
            r@ == (RotorModel { s: cos_half as int, e1e2: 0, e1e3: 0, e1e4: sin_half as int, e2e3: 0, e2e4: 0, e3e4: 0, e1e2e3e4: 0 }),
    {
        Rotor {
            s: cos_half,
            e1e2: 0,
            e1e3: 0,
            e1e4: sin_half,
            e2e3: 0,
            e2e4: 0,
            e3e4: 0,
            e1e2e3e4: 0,
        }
    }

    /// Rotor of a rotation in the `yz` plane, from the cosine and sine of
    /// half the rotation angle.
    pub fn rotate_yz(cos_half: i64, sin_half: i64) -> (r: Self)
        ensures
            r@ == (RotorModel { s: cos_half as int, e1e2: 0, e1e3: 0, e1e4: 0, e2e3: sin_half as int, e2e4: 0, e3e4: 0, e1e2e3e4: 0 }),
    {
        Rotor {
            s: cos_half,
            e1e2: 0,
            e1e3: 0,
            e1e4: 0,
            e2e3: sin_half,
            e2e4: 0,
            e3e4: 0,
            e1e2e3e4: 0,
        }
    }

    /// Rotor of a rotation in the `yw` plane, from the cosine and sine of
    /// half the rotation angle.
    pub fn rotate_yw(cos_half: i64, sin_half: i64) -> (r: Self)
        ensures
            r@ == (RotorModel { s: cos_half as int, e1e2: 0, e1e3: 0, e1e4: 0, e2e3: 0, e2e4: sin_half as int, e3e4: 0, e1e2e3e4: 0 }),
    {
        Rotor {
            s: cos_half,
            e1e2: 0,
            e1e3: 0,
            e1e4: 0,
            e2e3: 0,
            e2e4: sin_half,
            e3e4: 0,
            e1e2e3e4: 0,
        }
    }

    /// Rotor of a rotation in the `zw` plane, from the cosine and sine of
    /// half the rotation angle.
    pub fn rotate_zw(cos_half: i64, sin_half: i64) -> (r: Self)
        ensures
            r@ == (RotorModel { s: cos_half as int, e1e2: 0, e1e3: 0, e1e4: 0, e2e3: 0, e2e4: 0, e3e4: sin_half as int, e1e2e3e4: 0 }),
    {
        Rotor {
            s: cos_half,
            e1e2: 0,
            e1e3: 0,
            e1e4: 0,
            e2e3: 0,
            e2e4: 0,
            e3e4: sin_half,
            e1e2e3e4: 0,
        }
    }

    /// Compose: apply `self`, then `other`; the geometric product
    /// `self * other`, whose sandwich applies `self`'s motion first.
    pub fn and_then(self, other: Self) -> (r: Self)
        requires
            rotor_in_limit(self@, COEFF_LIMIT as int),
            rotor_in_limit(other@, COEFF_LIMIT as int),
        ensures
            r@ == rotor_and_then(self@, other@),
    {
        proof {
            lemma_mul_within(COEFF_LIMIT as int, COEFF_LIMIT as int);
        }
        let a = self;
        let b = other;
        Rotor {
        s: -(a.e1e2 * b.e1e2) + a.e1e2e3e4 * b.e1e2e3e4 - a.e1e3 * b.e1e3 - a.e1e4 * b.e1e4 - a.e2e3 * b.e2e3 - a.e2e4 * b.e2e4 - a.e3e4 * b.e3e4 + a.s * b.s,
        e1e2: a.e1e2 * b.s - a.e1e2e3e4 * b.e3e4 - a.e1e3 * b.e2e3 - a.e1e4 * b.e2e4 + a.e2e3 * b.e1e3 + a.e2e4 * b.e1e4 - a.e3e4 * b.e1e2e3e4 + a.s * b.e1e2,
        e1e3: a.e1e2 * b.e2e3 + a.e1e2e3e4 * b.e2e4 + a.e1e3 * b.s - a.e1e4 * b.e3e4 - a.e2e3 * b.e1e2 + a.e2e4 * b.e1e2e3e4 + a.e3e4 * b.e1e4 + a.s * b.e1e3,
        e1e4: a.e1e2 * b.e2e4 - a.e1e2e3e4 * b.e2e3 + a.e1e3 * b.e3e4 + a.e1e4 * b.s - a.e2e3 * b.e1e2e3e4 - a.e2e4 * b.e1e2 - a.e3e4 * b.e1e3 + a.s * b.e1e4,
        e2e3: -(a.e1e2 * b.e1e3) - a.e1e2e3e4 * b.e1e4 + a.e1e3 * b.e1e2 - a.e1e4 * b.e1e2e3e4 + a.e2e3 * b.s - a.e2e4 * b.e3e4 + a.e3e4 * b.e2e4 + a.s * b.e2e3,
        e2e4: -(a.e1e2 * b.e1e4) + a.e1e2e3e4 * b.e1e3 + a.e1e3 * b.e1e2e3e4 + a.e1e4 * b.e1e2 + a.e2e3 * b.e3e4 + a.e2e4 * b.s - a.e3e4 * b.e2e3 + a.s * b.e2e4,
        e3e4: -(a.e1e2 * b.e1e2e3e4) - a.e1e2e3e4 * b.e1e2 - a.e1e3 * b.e1e4 + a.e1e4 * b.e1e3 - a.e2e3 * b.e2e4 + a.e2e4 * b.e2e3 + a.e3e4 * b.s + a.s * b.e3e4,
        e1e2e3e4: a.e1e2 * b.e3e4 + a.e1e2e3e4 * b.s - a.e1e3 * b.e2e4 + a.e1e4 * b.e2e3 + a.e2e3 * b.e1e4 - a.e2e4 * b.e1e3 + a.e3e4 * b.e1e2 + a.s * b.e1e2e3e4,
        }
    }

    /// Reverse: negate every blade of grade two.
    pub fn reverse(self) -> (r: Self)
        requires
            self.e1e2 > i64::MIN,
            self.e1e3 > i64::MIN,
            self.e1e4 > i64::MIN,
            self.e2e3 > i64::MIN,
            self.e2e4 > i64::MIN,
            self.e3e4 > i64::MIN,
        ensures
            r@ == rotor_reverse(self@),
    {
        Rotor {
            s: self.s,
            e1e2: -self.e1e2,
            e1e3: -self.e1e3,
            e1e4: -self.e1e4,
            e2e3: -self.e2e3,
            e2e4: -self.e2e4,
            e3e4: -self.e3e4,
            e1e2e3e4: self.e1e2e3e4,
        }
    }

    /// Carry an arbitrary direction with this rotor.
    #[verifier::rlimit(100)]
    pub fn transform_direction(self, direction: Vector4<i64>) -> (r: Vector4<i64>)
        requires
            rotor_in_limit(self@, SANDWICH_LIMIT as int),
            crate::vectors::vec4_in_limit(direction@, SANDWICH_LIMIT as int),
        ensures
            r@ == rotate_direction(self@, direction@),
            rotor_in_limit(self@, UNIT as int) && crate::vectors::vec4_in_limit(direction@, 1)
                ==> crate::vectors::vec4_in_limit(r@, 0x4000_0000),
    {
        proof {
            let l = SANDWICH_LIMIT as int;
            lemma_mul_within(l, l);
            lemma_mul_within(l * l, l);
            lemma_mul_within(0x1000, 0x1000);
            lemma_mul_within(0x1000000, 1);
        }
        let r = self;
        let v = direction;
        Vector4 {
        x: -r.e1e2 * r.e1e2 * v.x - r.e1e2e3e4 * r.e1e2e3e4 * v.x - r.e1e3 * r.e1e3 * v.x - r.e1e4 * r.e1e4 * v.x + r.e2e3 * r.e2e3 * v.x + r.e2e4 * r.e2e4 * v.x + r.e3e4 * r.e3e4 * v.x + r.s * r.s * v.x + 2 * (r.e1e2 * r.e2e3 * v.z + r.e1e2 * r.e2e4 * v.w - r.e1e2 * r.s * v.y - r.e1e2e3e4 * r.e2e3 * v.w + r.e1e2e3e4 * r.e2e4 * v.z - r.e1e2e3e4 * r.e3e4 * v.y - r.e1e3 * r.e2e3 * v.y + r.e1e3 * r.e3e4 * v.w - r.e1e3 * r.s * v.z - r.e1e4 * r.e2e4 * v.y - r.e1e4 * r.e3e4 * v.z - r.e1e4 * r.s * v.w),
        y: -r.e1e2 * r.e1e2 * v.y - r.e1e2e3e4 * r.e1e2e3e4 * v.y + r.e1e3 * r.e1e3 * v.y + r.e1e4 * r.e1e4 * v.y - r.e2e3 * r.e2e3 * v.y - r.e2e4 * r.e2e4 * v.y + r.e3e4 * r.e3e4 * v.y + r.s * r.s * v.y + 2 * (-r.e1e2 * r.e1e3 * v.z - r.e1e2 * r.e1e4 * v.w + r.e1e2 * r.s * v.x + r.e1e2e3e4 * r.e1e3 * v.w - r.e1e2e3e4 * r.e1e4 * v.z + r.e1e2e3e4 * r.e3e4 * v.x - r.e1e3 * r.e2e3 * v.x - r.e1e4 * r.e2e4 * v.x + r.e2e3 * r.e3e4 * v.w - r.e2e3 * r.s * v.z - r.e2e4 * r.e3e4 * v.z - r.e2e4 * r.s * v.w),
        z: r.e1e2 * r.e1e2 * v.z - r.e1e2e3e4 * r.e1e2e3e4 * v.z - r.e1e3 * r.e1e3 * v.z + r.e1e4 * r.e1e4 * v.z - r.e2e3 * r.e2e3 * v.z + r.e2e4 * r.e2e4 * v.z - r.e3e4 * r.e3e4 * v.z + r.s * r.s * v.z + 2 * (-r.e1e2 * r.e1e2e3e4 * v.w - r.e1e2 * r.e1e3 * v.y + r.e1e2 * r.e2e3 * v.x + r.e1e2e3e4 * r.e1e4 * v.y - r.e1e2e3e4 * r.e2e4 * v.x - r.e1e3 * r.e1e4 * v.w + r.e1e3 * r.s * v.x - r.e1e4 * r.e3e4 * v.x - r.e2e3 * r.e2e4 * v.w + r.e2e3 * r.s * v.y - r.e2e4 * r.e3e4 * v.y - r.e3e4 * r.s * v.w),
        w: r.e1e2 * r.e1e2 * v.w - r.e1e2e3e4 * r.e1e2e3e4 * v.w + r.e1e3 * r.e1e3 * v.w - r.e1e4 * r.e1e4 * v.w + r.e2e3 * r.e2e3 * v.w - r.e2e4 * r.e2e4 * v.w - r.e3e4 * r.e3e4 * v.w + r.s * r.s * v.w + 2 * (r.e1e2 * r.e1e2e3e4 * v.z - r.e1e2 * r.e1e4 * v.y + r.e1e2 * r.e2e4 * v.x - r.e1e2e3e4 * r.e1e3 * v.y + r.e1e2e3e4 * r.e2e3 * v.x - r.e1e3 * r.e1e4 * v.z + r.e1e3 * r.e3e4 * v.x + r.e1e4 * r.s * v.x - r.e2e3 * r.e2e4 * v.z + r.e2e3 * r.e3e4 * v.y + r.e2e4 * r.s * v.y + r.e3e4 * r.s * v.z),
        }
    }

    /// The image of the canonical `x` direction.
    pub fn x(self) -> (r: Vector4<i64>)
        requires
            rotor_in_limit(self@, SANDWICH_LIMIT as int),
        ensures
            r@ == rotate_direction(self@, (Vec4Model { x: 1, y: 0, z: 0, w: 0 })),
            rotor_in_limit(self@, UNIT as int) ==> crate::vectors::vec4_in_limit(
                r@, 0x4000_0000),
    {
        self.transform_direction(Vector4 { x: 1, y: 0, z: 0, w: 0 })
    }

    /// The image of the canonical `y` direction.
    pub fn y(self) -> (r: Vector4<i64>)
        requires
            rotor_in_limit(self@, SANDWICH_LIMIT as int),
        ensures
            r@ == rotate_direction(self@, (Vec4Model { x: 0, y: 1, z: 0, w: 0 })),
            rotor_in_limit(self@, UNIT as int) ==> crate::vectors::vec4_in_limit(
                r@, 0x4000_0000),
    {
        self.transform_direction(Vector4 { x: 0, y: 1, z: 0, w: 0 })
    }

    /// The image of the canonical `z` direction.
    pub fn z(self) -> (r: Vector4<i64>)
        requires
            rotor_in_limit(self@, SANDWICH_LIMIT as int),
        ensures
            r@ == rotate_direction(self@, (Vec4Model { x: 0, y: 0, z: 1, w: 0 })),
            rotor_in_limit(self@, UNIT as int) ==> crate::vectors::vec4_in_limit(
                r@, 0x4000_0000),
    {
        self.transform_direction(Vector4 { x: 0, y: 0, z: 1, w: 0 })
    }

    /// The image of the canonical `w` direction.
    pub fn w(self) -> (r: Vector4<i64>)
        requires
            rotor_in_limit(self@, SANDWICH_LIMIT as int),
        ensures
            r@ == rotate_direction(self@, (Vec4Model { x: 0, y: 0, z: 0, w: 1 })),
            rotor_in_limit(self@, UNIT as int) ==> crate::vectors::vec4_in_limit(
                r@, 0x4000_0000),
    {
        self.transform_direction(Vector4 { x: 0, y: 0, z: 0, w: 1 })
    }

    /// Embed a reduced rotor, filling every `e2`-touching coefficient with
    /// zero.
    pub fn from_no_e2_rotor(rotor: NoE2Rotor) -> (r: Self)
        ensures
            r@ == rotor_from_no_e2(rotor@),
    {
        let NoE2Rotor { s, e1e3, e1e4, e3e4 } = rotor;
        Self {
            s,
            e1e2: 0,
            e1e3,
            e1e4,
            e2e3: 0,
            e2e4: 0,
            e3e4,
            e1e2e3e4: 0,
        }
    }

    /// The unnormalised rotor `a * (a + b)` carrying the direction of `a`
    /// toward the direction of `b` along their common plane.
    pub fn from_to_vector(a: Vector4<i64>, b: Vector4<i64>) -> (r: Self)
        requires
            crate::vectors::vec4_in_limit(a@, SANDWICH_LIMIT as int),
            crate::vectors::vec4_in_limit(b@, SANDWICH_LIMIT as int),
        ensures
            r@ == rotor_from_to(a@, b@),
    {
        proof {
            lemma_mul_within(SANDWICH_LIMIT as int, SANDWICH_LIMIT as int);
        }
        Self {
        s: a.w * a.w + a.w * b.w + a.x * a.x + a.x * b.x + a.y * a.y + a.y * b.y + a.z * a.z + a.z * b.z,
        e1e2: a.x * b.y - a.y * b.x,
        e1e3: a.x * b.z - a.z * b.x,
        e1e4: -a.w * b.x + a.x * b.w,
        e2e3: a.y * b.z - a.z * b.y,
        e2e4: -a.w * b.y + a.y * b.w,
        e3e4: -a.w * b.z + a.z * b.w,
        e1e2e3e4: 0,
        }
    }

    /// `reverse(self) * self`: squared norm and quadvector residue.
    pub fn squared_magnitude(self) -> (m: RotorSquaredMagnitude)
        requires
            rotor_in_limit(self@, COEFF_LIMIT as int),
        ensures
            m@ == rotor_squared_magnitude(self@),
            m.s >= 0,
    {
        proof {
            lemma_mul_within(COEFF_LIMIT as int, COEFF_LIMIT as int);
            lemma_squares_nonneg();
        }
        let r = self;
        RotorSquaredMagnitude {
        s: r.e1e2 * r.e1e2 + r.e1e2e3e4 * r.e1e2e3e4 + r.e1e3 * r.e1e3 + r.e1e4 * r.e1e4 + r.e2e3 * r.e2e3 + r.e2e4 * r.e2e4 + r.e3e4 * r.e3e4 + r.s * r.s,
        e1e2e3e4: 2 * (-r.e1e2 * r.e3e4 + r.e1e2e3e4 * r.s + r.e1e3 * r.e2e4 - r.e1e4 * r.e2e3),
        }
    }

    /// Rescale so that the squared magnitude is close to `UNIT * UNIT`; the
    /// zero rotor becomes the identity.
    pub fn normalised(self) -> (r: Self)
        requires
            rotor_in_limit(self@, COEFF_LIMIT as int),
        ensures
            r@ == rotor_normalised(self@),
            abs_of(r@.s) <= UNIT,
            abs_of(r@.e1e2) <= UNIT,
            abs_of(r@.e1e3) <= UNIT,
            abs_of(r@.e1e4) <= UNIT,
            abs_of(r@.e2e3) <= UNIT,
            abs_of(r@.e2e4) <= UNIT,
            abs_of(r@.e3e4) <= UNIT,
            abs_of(r@.e1e2e3e4) <= UNIT,
    {
        proof {
            lemma_mul_within(COEFF_LIMIT as int, COEFF_LIMIT as int);
            lemma_squares_nonneg();
        }
        let sq = self.squared_magnitude().s;
        let m = isqrt(sq);
        if m == 0 {
            proof {
                lemma_rotor_zero(self@, sq as int);
            }
            return Self::identity();
        }
        proof {
            assert(sq < (m + 1) * (m + 1) && m * m <= sq);
            lemma_square_le(self@.s, COEFF_LIMIT as int);
            lemma_component_within_root(self@.s, m as int, sq as int);
            lemma_div_trunc_bound(self@.s * UNIT, m as int, UNIT as int);
            lemma_square_le(self@.e1e2, COEFF_LIMIT as int);
            lemma_component_within_root(self@.e1e2, m as int, sq as int);
            lemma_div_trunc_bound(self@.e1e2 * UNIT, m as int, UNIT as int);
            lemma_square_le(self@.e1e3, COEFF_LIMIT as int);
            lemma_component_within_root(self@.e1e3, m as int, sq as int);
            lemma_div_trunc_bound(self@.e1e3 * UNIT, m as int, UNIT as int);
            lemma_square_le(self@.e1e4, COEFF_LIMIT as int);
            lemma_component_within_root(self@.e1e4, m as int, sq as int);
            lemma_div_trunc_bound(self@.e1e4 * UNIT, m as int, UNIT as int);
            lemma_square_le(self@.e2e3, COEFF_LIMIT as int);
            lemma_component_within_root(self@.e2e3, m as int, sq as int);
            lemma_div_trunc_bound(self@.e2e3 * UNIT, m as int, UNIT as int);
            lemma_square_le(self@.e2e4, COEFF_LIMIT as int);
            lemma_component_within_root(self@.e2e4, m as int, sq as int);
            lemma_div_trunc_bound(self@.e2e4 * UNIT, m as int, UNIT as int);
            lemma_square_le(self@.e3e4, COEFF_LIMIT as int);
            lemma_component_within_root(self@.e3e4, m as int, sq as int);
            lemma_div_trunc_bound(self@.e3e4 * UNIT, m as int, UNIT as int);
            lemma_square_le(self@.e1e2e3e4, COEFF_LIMIT as int);
            lemma_component_within_root(self@.e1e2e3e4, m as int, sq as int);
            lemma_div_trunc_bound(self@.e1e2e3e4 * UNIT, m as int, UNIT as int);
        }
        Self {
            s: div_to_zero(self.s * UNIT, m),
            e1e2: div_to_zero(self.e1e2 * UNIT, m),
            e1e3: div_to_zero(self.e1e3 * UNIT, m),
            e1e4: div_to_zero(self.e1e4 * UNIT, m),
            e2e3: div_to_zero(self.e2e3 * UNIT, m),
            e2e4: div_to_zero(self.e2e4 * UNIT, m),
            e3e4: div_to_zero(self.e3e4 * UNIT, m),
            e1e2e3e4: div_to_zero(self.e1e2e3e4 * UNIT, m),
        }
    }

}

/// A zero squared magnitude forces every coefficient to zero.
proof fn lemma_noe2_zero(m: NoE2RotorModel, sq: int)
    requires
        sq == m.s * m.s + m.e1e3 * m.e1e3 + m.e1e4 * m.e1e4 + m.e3e4 * m.e3e4,
        sq == 0,
    ensures
        m.s == 0 && m.e1e3 == 0 && m.e1e4 == 0 && m.e3e4 == 0,
{
    assert(m.s == 0 && m.e1e3 == 0 && m.e1e4 == 0 && m.e3e4 == 0) by (nonlinear_arith)
        requires sq == m.s * m.s + m.e1e3 * m.e1e3 + m.e1e4 * m.e1e4 + m.e3e4 * m.e3e4, sq == 0;
}

/// A zero squared magnitude forces every coefficient to zero.
proof fn lemma_rotor_zero(m: RotorModel, sq: int)
    requires
        sq == m.s * m.s + m.e1e2 * m.e1e2 + m.e1e3 * m.e1e3 + m.e1e4 * m.e1e4 + m.e2e3 * m.e2e3 + m.e2e4 * m.e2e4 + m.e3e4 * m.e3e4 + m.e1e2e3e4 * m.e1e2e3e4,
        sq == 0,
    ensures
        m.s == 0 && m.e1e2 == 0 && m.e1e3 == 0 && m.e1e4 == 0 && m.e2e3 == 0 && m.e2e4 == 0 && m.e3e4 == 0 && m.e1e2e3e4 == 0,
{
    assert(m.s == 0 && m.e1e2 == 0 && m.e1e3 == 0 && m.e1e4 == 0 && m.e2e3 == 0 && m.e2e4 == 0 && m.e3e4 == 0 && m.e1e2e3e4 == 0) by (nonlinear_arith)
        requires sq == m.s * m.s + m.e1e2 * m.e1e2 + m.e1e3 * m.e1e3 + m.e1e4 * m.e1e4 + m.e2e3 * m.e2e3 + m.e2e4 * m.e2e4 + m.e3e4 * m.e3e4 + m.e1e2e3e4 * m.e1e2e3e4, sq == 0;
}

} // verus!
