//! Algebraic laws of the rotor/transform algebra, stated over the spec-level
//! models and proved once for every value.

use vstd::prelude::*;

use crate::rotor::{
    noe2_and_then, noe2_identity, noe2_reverse, rotate_direction, rotor_and_then,
    rotor_from_no_e2, rotor_identity, rotor_reverse, RotorModel, NoE2RotorModel,
};
use crate::vectors::{vec_scale, Vec4Model};
use crate::transform::{
    transform_and_then, transform_from_rotor, transform_identity, transform_position,
    transform_reverse, transform_rotor_part, TransformModel,
};

verus! {

/// The identity rotor is neutral on both sides of composition.
pub proof fn lemma_noe2_compose_identity(a: NoE2RotorModel)
    ensures
        noe2_and_then(a, noe2_identity()) == a,
        noe2_and_then(noe2_identity(), a) == a,
{
}

/// The identity rotor is neutral on both sides of composition.
pub proof fn lemma_rotor_compose_identity(a: RotorModel)
    ensures
        rotor_and_then(a, rotor_identity()) == a,
        rotor_and_then(rotor_identity(), a) == a,
{
}

/// The identity motor is neutral on both sides of composition.
pub proof fn lemma_transform_compose_identity(a: TransformModel)
    ensures
        transform_and_then(a, transform_identity()) == a,
        transform_and_then(transform_identity(), a) == a,
{
}

/// Embedding a rotor into a motor and taking the rotation part back gives
/// the rotor unchanged.
pub proof fn lemma_from_rotor_round_trip(r: RotorModel)
    ensures
        transform_rotor_part(transform_from_rotor(r)) == r,
{
}

/// The embedding of a reduced rotor leaves every `e2`-touching coefficient
/// at zero.
pub proof fn lemma_no_e2_embedding(q: NoE2RotorModel)
    ensures
        rotor_from_no_e2(q).e1e2 == 0,
        rotor_from_no_e2(q).e2e3 == 0,
        rotor_from_no_e2(q).e2e4 == 0,
        rotor_from_no_e2(q).s == q.s,
        rotor_from_no_e2(q).e1e3 == q.e1e3,
        rotor_from_no_e2(q).e1e4 == q.e1e4,
        rotor_from_no_e2(q).e3e4 == q.e3e4,
{
}

/// The two embeddings agree: lifting a reduced rotor to a motor directly or
/// through the full rotor is the same.
pub proof fn lemma_embeddings_compose(q: NoE2RotorModel)
    ensures
        transform_rotor_part(transform_from_rotor(rotor_from_no_e2(q))) == rotor_from_no_e2(q),
{
}

/// Any product of three factors regroups.
proof fn lemma_mul_regroup_all()
    ensures
        forall|x: int, y: int, z: int| #[trigger] (x * (y * z)) == (x * y) * z,
{
    assert forall|x: int, y: int, z: int| #[trigger] (x * (y * z)) == (x * y) * z by {
        assert(x * (y * z) == (x * y) * z) by (nonlinear_arith);
    }
}

/// A product is symmetric in its factors.
proof fn lemma_mul_comm(x: int, y: int)
    ensures
        x * y == y * x,
{
    assert(x * y == y * x) by (nonlinear_arith);
}

/// Two negated factors cancel.
proof fn lemma_mul_neg_both(x: int, y: int)
    ensures
        (-x) * (-y) == y * x,
{
    assert((-x) * (-y) == y * x) by (nonlinear_arith);
}

/// A negation pulls out of the left factor.
proof fn lemma_mul_neg_left(x: int, y: int)
    ensures
        (-x) * y == -(y * x),
{
    assert((-x) * y == -(y * x)) by (nonlinear_arith);
}

/// A negation pulls out of the right factor.
proof fn lemma_mul_neg_right(x: int, y: int)
    ensures
        x * (-y) == -(y * x),
{
    assert(x * (-y) == -(y * x)) by (nonlinear_arith);
}

/// Distribute a scalar over one coefficient of the product `u * v`.
proof fn scale_right_noe2_s(u: NoE2RotorModel, v: NoE2RotorModel, k: int)
    ensures
        (-(u.e1e3 * v.e1e3) - u.e1e4 * v.e1e4 - u.e3e4 * v.e3e4 + u.s * v.s) * k == -((u.e1e3 * v.e1e3) * k) - (u.e1e4 * v.e1e4) * k - (u.e3e4 * v.e3e4) * k + (u.s * v.s) * k,
{
    assert((-(u.e1e3 * v.e1e3) - u.e1e4 * v.e1e4 - u.e3e4 * v.e3e4 + u.s * v.s) * k == -((u.e1e3 * v.e1e3) * k) - (u.e1e4 * v.e1e4) * k - (u.e3e4 * v.e3e4) * k + (u.s * v.s) * k) by (nonlinear_arith);
}

/// Distribute a scalar over one coefficient of the product `u * v`.
proof fn scale_left_noe2_s(u: NoE2RotorModel, v: NoE2RotorModel, k: int)
    ensures
        k * (-(u.e1e3 * v.e1e3) - u.e1e4 * v.e1e4 - u.e3e4 * v.e3e4 + u.s * v.s) == -(k * (u.e1e3 * v.e1e3)) - k * (u.e1e4 * v.e1e4) - k * (u.e3e4 * v.e3e4) + k * (u.s * v.s),
{
    assert(k * (-(u.e1e3 * v.e1e3) - u.e1e4 * v.e1e4 - u.e3e4 * v.e3e4 + u.s * v.s) == -(k * (u.e1e3 * v.e1e3)) - k * (u.e1e4 * v.e1e4) - k * (u.e3e4 * v.e3e4) + k * (u.s * v.s)) by (nonlinear_arith);
}

/// Distribute a scalar over one coefficient of the product `u * v`.
proof fn scale_right_noe2_e1e3(u: NoE2RotorModel, v: NoE2RotorModel, k: int)
    ensures
        (u.e1e3 * v.s - u.e1e4 * v.e3e4 + u.e3e4 * v.e1e4 + u.s * v.e1e3) * k == (u.e1e3 * v.s) * k - (u.e1e4 * v.e3e4) * k + (u.e3e4 * v.e1e4) * k + (u.s * v.e1e3) * k,
{
    assert((u.e1e3 * v.s - u.e1e4 * v.e3e4 + u.e3e4 * v.e1e4 + u.s * v.e1e3) * k == (u.e1e3 * v.s) * k - (u.e1e4 * v.e3e4) * k + (u.e3e4 * v.e1e4) * k + (u.s * v.e1e3) * k) by (nonlinear_arith);
}

/// Distribute a scalar over one coefficient of the product `u * v`.
proof fn scale_left_noe2_e1e3(u: NoE2RotorModel, v: NoE2RotorModel, k: int)
    ensures
        k * (u.e1e3 * v.s - u.e1e4 * v.e3e4 + u.e3e4 * v.e1e4 + u.s * v.e1e3) == k * (u.e1e3 * v.s) - k * (u.e1e4 * v.e3e4) + k * (u.e3e4 * v.e1e4) + k * (u.s * v.e1e3),
{
    assert(k * (u.e1e3 * v.s - u.e1e4 * v.e3e4 + u.e3e4 * v.e1e4 + u.s * v.e1e3) == k * (u.e1e3 * v.s) - k * (u.e1e4 * v.e3e4) + k * (u.e3e4 * v.e1e4) + k * (u.s * v.e1e3)) by (nonlinear_arith);
}

/// Distribute a scalar over one coefficient of the product `u * v`.
proof fn scale_right_noe2_e1e4(u: NoE2RotorModel, v: NoE2RotorModel, k: int)
    ensures
        (u.e1e3 * v.e3e4 + u.e1e4 * v.s - u.e3e4 * v.e1e3 + u.s * v.e1e4) * k == (u.e1e3 * v.e3e4) * k + (u.e1e4 * v.s) * k - (u.e3e4 * v.e1e3) * k + (u.s * v.e1e4) * k,
{
    assert((u.e1e3 * v.e3e4 + u.e1e4 * v.s - u.e3e4 * v.e1e3 + u.s * v.e1e4) * k == (u.e1e3 * v.e3e4) * k + (u.e1e4 * v.s) * k - (u.e3e4 * v.e1e3) * k + (u.s * v.e1e4) * k) by (nonlinear_arith);
}

/// Distribute a scalar over one coefficient of the product `u * v`.
proof fn scale_left_noe2_e1e4(u: NoE2RotorModel, v: NoE2RotorModel, k: int)
    ensures
        k * (u.e1e3 * v.e3e4 + u.e1e4 * v.s - u.e3e4 * v.e1e3 + u.s * v.e1e4) == k * (u.e1e3 * v.e3e4) + k * (u.e1e4 * v.s) - k * (u.e3e4 * v.e1e3) + k * (u.s * v.e1e4),
{
    assert(k * (u.e1e3 * v.e3e4 + u.e1e4 * v.s - u.e3e4 * v.e1e3 + u.s * v.e1e4) == k * (u.e1e3 * v.e3e4) + k * (u.e1e4 * v.s) - k * (u.e3e4 * v.e1e3) + k * (u.s * v.e1e4)) by (nonlinear_arith);
}

/// Distribute a scalar over one coefficient of the product `u * v`.
proof fn scale_right_noe2_e3e4(u: NoE2RotorModel, v: NoE2RotorModel, k: int)
    ensures
        (-(u.e1e3 * v.e1e4) + u.e1e4 * v.e1e3 + u.e3e4 * v.s + u.s * v.e3e4) * k == -((u.e1e3 * v.e1e4) * k) + (u.e1e4 * v.e1e3) * k + (u.e3e4 * v.s) * k + (u.s * v.e3e4) * k,
{
    assert((-(u.e1e3 * v.e1e4) + u.e1e4 * v.e1e3 + u.e3e4 * v.s + u.s * v.e3e4) * k == -((u.e1e3 * v.e1e4) * k) + (u.e1e4 * v.e1e3) * k + (u.e3e4 * v.s) * k + (u.s * v.e3e4) * k) by (nonlinear_arith);
}

/// Distribute a scalar over one coefficient of the product `u * v`.
proof fn scale_left_noe2_e3e4(u: NoE2RotorModel, v: NoE2RotorModel, k: int)
    ensures
        k * (-(u.e1e3 * v.e1e4) + u.e1e4 * v.e1e3 + u.e3e4 * v.s + u.s * v.e3e4) == -(k * (u.e1e3 * v.e1e4)) + k * (u.e1e4 * v.e1e3) + k * (u.e3e4 * v.s) + k * (u.s * v.e3e4),
{
    assert(k * (-(u.e1e3 * v.e1e4) + u.e1e4 * v.e1e3 + u.e3e4 * v.s + u.s * v.e3e4) == -(k * (u.e1e3 * v.e1e4)) + k * (u.e1e4 * v.e1e3) + k * (u.e3e4 * v.s) + k * (u.s * v.e3e4)) by (nonlinear_arith);
}

/// Composition is associative.
#[verifier::rlimit(100)]
pub proof fn lemma_noe2_compose_assoc(a: NoE2RotorModel, b: NoE2RotorModel, c: NoE2RotorModel)
    ensures
        noe2_and_then(noe2_and_then(a, b), c) == noe2_and_then(a, noe2_and_then(b, c)),
{
    let l = noe2_and_then(noe2_and_then(a, b), c);
    let r = noe2_and_then(a, noe2_and_then(b, c));
    lemma_mul_regroup_all();
    assert(l.s == -((a.e1e3 * b.s - a.e1e4 * b.e3e4 + a.e3e4 * b.e1e4 + a.s * b.e1e3) * c.e1e3) - (a.e1e3 * b.e3e4 + a.e1e4 * b.s - a.e3e4 * b.e1e3 + a.s * b.e1e4) * c.e1e4 - (-(a.e1e3 * b.e1e4) + a.e1e4 * b.e1e3 + a.e3e4 * b.s + a.s * b.e3e4) * c.e3e4 + (-(a.e1e3 * b.e1e3) - a.e1e4 * b.e1e4 - a.e3e4 * b.e3e4 + a.s * b.s) * c.s);
    assert(r.s == -(a.e1e3 * (b.e1e3 * c.s - b.e1e4 * c.e3e4 + b.e3e4 * c.e1e4 + b.s * c.e1e3)) - a.e1e4 * (b.e1e3 * c.e3e4 + b.e1e4 * c.s - b.e3e4 * c.e1e3 + b.s * c.e1e4) - a.e3e4 * (-(b.e1e3 * c.e1e4) + b.e1e4 * c.e1e3 + b.e3e4 * c.s + b.s * c.e3e4) + a.s * (-(b.e1e3 * c.e1e3) - b.e1e4 * c.e1e4 - b.e3e4 * c.e3e4 + b.s * c.s));
    scale_right_noe2_e1e3(a, b, c.e1e3);
    scale_right_noe2_e1e4(a, b, c.e1e4);
    scale_right_noe2_e3e4(a, b, c.e3e4);
    scale_right_noe2_s(a, b, c.s);
    scale_left_noe2_e1e3(b, c, a.e1e3);
    scale_left_noe2_e1e4(b, c, a.e1e4);
    scale_left_noe2_e3e4(b, c, a.e3e4);
    scale_left_noe2_s(b, c, a.s);
    assert(l.s == -((a.e1e3 * b.e1e3) * c.s) + (a.e1e3 * b.e1e4) * c.e3e4 - (a.e1e3 * b.e3e4) * c.e1e4 - (a.e1e3 * b.s) * c.e1e3 - (a.e1e4 * b.e1e3) * c.e3e4 - (a.e1e4 * b.e1e4) * c.s + (a.e1e4 * b.e3e4) * c.e1e3 - (a.e1e4 * b.s) * c.e1e4 + (a.e3e4 * b.e1e3) * c.e1e4 - (a.e3e4 * b.e1e4) * c.e1e3 - (a.e3e4 * b.e3e4) * c.s - (a.e3e4 * b.s) * c.e3e4 - (a.s * b.e1e3) * c.e1e3 - (a.s * b.e1e4) * c.e1e4 - (a.s * b.e3e4) * c.e3e4 + (a.s * b.s) * c.s);
    assert(r.s == -((a.e1e3 * b.e1e3) * c.s) + (a.e1e3 * b.e1e4) * c.e3e4 - (a.e1e3 * b.e3e4) * c.e1e4 - (a.e1e3 * b.s) * c.e1e3 - (a.e1e4 * b.e1e3) * c.e3e4 - (a.e1e4 * b.e1e4) * c.s + (a.e1e4 * b.e3e4) * c.e1e3 - (a.e1e4 * b.s) * c.e1e4 + (a.e3e4 * b.e1e3) * c.e1e4 - (a.e3e4 * b.e1e4) * c.e1e3 - (a.e3e4 * b.e3e4) * c.s - (a.e3e4 * b.s) * c.e3e4 - (a.s * b.e1e3) * c.e1e3 - (a.s * b.e1e4) * c.e1e4 - (a.s * b.e3e4) * c.e3e4 + (a.s * b.s) * c.s);
    assert(l.e1e3 == (a.e1e3 * b.s - a.e1e4 * b.e3e4 + a.e3e4 * b.e1e4 + a.s * b.e1e3) * c.s - (a.e1e3 * b.e3e4 + a.e1e4 * b.s - a.e3e4 * b.e1e3 + a.s * b.e1e4) * c.e3e4 + (-(a.e1e3 * b.e1e4) + a.e1e4 * b.e1e3 + a.e3e4 * b.s + a.s * b.e3e4) * c.e1e4 + (-(a.e1e3 * b.e1e3) - a.e1e4 * b.e1e4 - a.e3e4 * b.e3e4 + a.s * b.s) * c.e1e3);
    assert(r.e1e3 == a.e1e3 * (-(b.e1e3 * c.e1e3) - b.e1e4 * c.e1e4 - b.e3e4 * c.e3e4 + b.s * c.s) - a.e1e4 * (-(b.e1e3 * c.e1e4) + b.e1e4 * c.e1e3 + b.e3e4 * c.s + b.s * c.e3e4) + a.e3e4 * (b.e1e3 * c.e3e4 + b.e1e4 * c.s - b.e3e4 * c.e1e3 + b.s * c.e1e4) + a.s * (b.e1e3 * c.s - b.e1e4 * c.e3e4 + b.e3e4 * c.e1e4 + b.s * c.e1e3));
    scale_right_noe2_e1e3(a, b, c.s);
    scale_right_noe2_e1e4(a, b, c.e3e4);
    scale_right_noe2_e3e4(a, b, c.e1e4);
    scale_right_noe2_s(a, b, c.e1e3);
    scale_left_noe2_s(b, c, a.e1e3);
    scale_left_noe2_e3e4(b, c, a.e1e4);
    scale_left_noe2_e1e4(b, c, a.e3e4);
    scale_left_noe2_e1e3(b, c, a.s);
    assert(l.e1e3 == -((a.e1e3 * b.e1e3) * c.e1e3) - (a.e1e3 * b.e1e4) * c.e1e4 - (a.e1e3 * b.e3e4) * c.e3e4 + (a.e1e3 * b.s) * c.s + (a.e1e4 * b.e1e3) * c.e1e4 - (a.e1e4 * b.e1e4) * c.e1e3 - (a.e1e4 * b.e3e4) * c.s - (a.e1e4 * b.s) * c.e3e4 + (a.e3e4 * b.e1e3) * c.e3e4 + (a.e3e4 * b.e1e4) * c.s - (a.e3e4 * b.e3e4) * c.e1e3 + (a.e3e4 * b.s) * c.e1e4 + (a.s * b.e1e3) * c.s - (a.s * b.e1e4) * c.e3e4 + (a.s * b.e3e4) * c.e1e4 + (a.s * b.s) * c.e1e3);
    assert(r.e1e3 == -((a.e1e3 * b.e1e3) * c.e1e3) - (a.e1e3 * b.e1e4) * c.e1e4 - (a.e1e3 * b.e3e4) * c.e3e4 + (a.e1e3 * b.s) * c.s + (a.e1e4 * b.e1e3) * c.e1e4 - (a.e1e4 * b.e1e4) * c.e1e3 - (a.e1e4 * b.e3e4) * c.s - (a.e1e4 * b.s) * c.e3e4 + (a.e3e4 * b.e1e3) * c.e3e4 + (a.e3e4 * b.e1e4) * c.s - (a.e3e4 * b.e3e4) * c.e1e3 + (a.e3e4 * b.s) * c.e1e4 + (a.s * b.e1e3) * c.s - (a.s * b.e1e4) * c.e3e4 + (a.s * b.e3e4) * c.e1e4 + (a.s * b.s) * c.e1e3);
    assert(l.e1e4 == (a.e1e3 * b.s - a.e1e4 * b.e3e4 + a.e3e4 * b.e1e4 + a.s * b.e1e3) * c.e3e4 + (a.e1e3 * b.e3e4 + a.e1e4 * b.s - a.e3e4 * b.e1e3 + a.s * b.e1e4) * c.s - (-(a.e1e3 * b.e1e4) + a.e1e4 * b.e1e3 + a.e3e4 * b.s + a.s * b.e3e4) * c.e1e3 + (-(a.e1e3 * b.e1e3) - a.e1e4 * b.e1e4 - a.e3e4 * b.e3e4 + a.s * b.s) * c.e1e4);
    assert(r.e1e4 == a.e1e3 * (-(b.e1e3 * c.e1e4) + b.e1e4 * c.e1e3 + b.e3e4 * c.s + b.s * c.e3e4) + a.e1e4 * (-(b.e1e3 * c.e1e3) - b.e1e4 * c.e1e4 - b.e3e4 * c.e3e4 + b.s * c.s) - a.e3e4 * (b.e1e3 * c.s - b.e1e4 * c.e3e4 + b.e3e4 * c.e1e4 + b.s * c.e1e3) + a.s * (b.e1e3 * c.e3e4 + b.e1e4 * c.s - b.e3e4 * c.e1e3 + b.s * c.e1e4));
    scale_right_noe2_e1e3(a, b, c.e3e4);
    scale_right_noe2_e1e4(a, b, c.s);
    scale_right_noe2_e3e4(a, b, c.e1e3);
    scale_right_noe2_s(a, b, c.e1e4);
    scale_left_noe2_e3e4(b, c, a.e1e3);
    scale_left_noe2_s(b, c, a.e1e4);
    scale_left_noe2_e1e3(b, c, a.e3e4);
    scale_left_noe2_e1e4(b, c, a.s);
    assert(l.e1e4 == -((a.e1e3 * b.e1e3) * c.e1e4) + (a.e1e3 * b.e1e4) * c.e1e3 + (a.e1e3 * b.e3e4) * c.s + (a.e1e3 * b.s) * c.e3e4 - (a.e1e4 * b.e1e3) * c.e1e3 - (a.e1e4 * b.e1e4) * c.e1e4 - (a.e1e4 * b.e3e4) * c.e3e4 + (a.e1e4 * b.s) * c.s - (a.e3e4 * b.e1e3) * c.s + (a.e3e4 * b.e1e4) * c.e3e4 - (a.e3e4 * b.e3e4) * c.e1e4 - (a.e3e4 * b.s) * c.e1e3 + (a.s * b.e1e3) * c.e3e4 + (a.s * b.e1e4) * c.s - (a.s * b.e3e4) * c.e1e3 + (a.s * b.s) * c.e1e4);
    assert(r.e1e4 == -((a.e1e3 * b.e1e3) * c.e1e4) + (a.e1e3 * b.e1e4) * c.e1e3 + (a.e1e3 * b.e3e4) * c.s + (a.e1e3 * b.s) * c.e3e4 - (a.e1e4 * b.e1e3) * c.e1e3 - (a.e1e4 * b.e1e4) * c.e1e4 - (a.e1e4 * b.e3e4) * c.e3e4 + (a.e1e4 * b.s) * c.s - (a.e3e4 * b.e1e3) * c.s + (a.e3e4 * b.e1e4) * c.e3e4 - (a.e3e4 * b.e3e4) * c.e1e4 - (a.e3e4 * b.s) * c.e1e3 + (a.s * b.e1e3) * c.e3e4 + (a.s * b.e1e4) * c.s - (a.s * b.e3e4) * c.e1e3 + (a.s * b.s) * c.e1e4);
    assert(l.e3e4 == -((a.e1e3 * b.s - a.e1e4 * b.e3e4 + a.e3e4 * b.e1e4 + a.s * b.e1e3) * c.e1e4) + (a.e1e3 * b.e3e4 + a.e1e4 * b.s - a.e3e4 * b.e1e3 + a.s * b.e1e4) * c.e1e3 + (-(a.e1e3 * b.e1e4) + a.e1e4 * b.e1e3 + a.e3e4 * b.s + a.s * b.e3e4) * c.s + (-(a.e1e3 * b.e1e3) - a.e1e4 * b.e1e4 - a.e3e4 * b.e3e4 + a.s * b.s) * c.e3e4);
    assert(r.e3e4 == -(a.e1e3 * (b.e1e3 * c.e3e4 + b.e1e4 * c.s - b.e3e4 * c.e1e3 + b.s * c.e1e4)) + a.e1e4 * (b.e1e3 * c.s - b.e1e4 * c.e3e4 + b.e3e4 * c.e1e4 + b.s * c.e1e3) + a.e3e4 * (-(b.e1e3 * c.e1e3) - b.e1e4 * c.e1e4 - b.e3e4 * c.e3e4 + b.s * c.s) + a.s * (-(b.e1e3 * c.e1e4) + b.e1e4 * c.e1e3 + b.e3e4 * c.s + b.s * c.e3e4));
    scale_right_noe2_e1e3(a, b, c.e1e4);
    scale_right_noe2_e1e4(a, b, c.e1e3);
    scale_right_noe2_e3e4(a, b, c.s);
    scale_right_noe2_s(a, b, c.e3e4);
    scale_left_noe2_e1e4(b, c, a.e1e3);
    scale_left_noe2_e1e3(b, c, a.e1e4);
    scale_left_noe2_s(b, c, a.e3e4);
    scale_left_noe2_e3e4(b, c, a.s);
    assert(l.e3e4 == -((a.e1e3 * b.e1e3) * c.e3e4) - (a.e1e3 * b.e1e4) * c.s + (a.e1e3 * b.e3e4) * c.e1e3 - (a.e1e3 * b.s) * c.e1e4 + (a.e1e4 * b.e1e3) * c.s - (a.e1e4 * b.e1e4) * c.e3e4 + (a.e1e4 * b.e3e4) * c.e1e4 + (a.e1e4 * b.s) * c.e1e3 - (a.e3e4 * b.e1e3) * c.e1e3 - (a.e3e4 * b.e1e4) * c.e1e4 - (a.e3e4 * b.e3e4) * c.e3e4 + (a.e3e4 * b.s) * c.s - (a.s * b.e1e3) * c.e1e4 + (a.s * b.e1e4) * c.e1e3 + (a.s * b.e3e4) * c.s + (a.s * b.s) * c.e3e4);
    assert(r.e3e4 == -((a.e1e3 * b.e1e3) * c.e3e4) - (a.e1e3 * b.e1e4) * c.s + (a.e1e3 * b.e3e4) * c.e1e3 - (a.e1e3 * b.s) * c.e1e4 + (a.e1e4 * b.e1e3) * c.s - (a.e1e4 * b.e1e4) * c.e3e4 + (a.e1e4 * b.e3e4) * c.e1e4 + (a.e1e4 * b.s) * c.e1e3 - (a.e3e4 * b.e1e3) * c.e1e3 - (a.e3e4 * b.e1e4) * c.e1e4 - (a.e3e4 * b.e3e4) * c.e3e4 + (a.e3e4 * b.s) * c.s - (a.s * b.e1e3) * c.e1e4 + (a.s * b.e1e4) * c.e1e3 + (a.s * b.e3e4) * c.s + (a.s * b.s) * c.e3e4);
}

/// Reversal is an antihomomorphism of composition.
#[verifier::rlimit(100)]
pub proof fn lemma_noe2_reverse_antihomomorphism(a: NoE2RotorModel, b: NoE2RotorModel)
    ensures
        noe2_reverse(noe2_and_then(a, b)) == noe2_and_then(noe2_reverse(b), noe2_reverse(a)),
{
    let l = noe2_reverse(noe2_and_then(a, b));
    let r = noe2_and_then(noe2_reverse(b), noe2_reverse(a));
    lemma_mul_neg_both(b.e1e3, a.e1e3);
    lemma_mul_neg_both(b.e1e4, a.e1e4);
    lemma_mul_neg_both(b.e3e4, a.e3e4);
    lemma_mul_comm(b.s, a.s);
    lemma_mul_neg_left(b.e1e3, a.s);
    lemma_mul_neg_both(b.e1e4, a.e3e4);
    lemma_mul_neg_both(b.e3e4, a.e1e4);
    lemma_mul_neg_right(b.s, a.e1e3);
    lemma_mul_neg_both(b.e1e3, a.e3e4);
    lemma_mul_neg_left(b.e1e4, a.s);
    lemma_mul_neg_both(b.e3e4, a.e1e3);
    lemma_mul_neg_right(b.s, a.e1e4);
    lemma_mul_neg_both(b.e1e3, a.e1e4);
    lemma_mul_neg_both(b.e1e4, a.e1e3);
    lemma_mul_neg_left(b.e3e4, a.s);
    lemma_mul_neg_right(b.s, a.e3e4);
    assert(l.s == -(a.e1e3 * b.e1e3) - a.e1e4 * b.e1e4 - a.e3e4 * b.e3e4 + a.s * b.s);
    assert(r.s == -((-b.e1e3) * (-a.e1e3)) - (-b.e1e4) * (-a.e1e4) - (-b.e3e4) * (-a.e3e4) + b.s * a.s);
    assert(l.s == r.s);
    assert(l.e1e3 == -(a.e1e3 * b.s - a.e1e4 * b.e3e4 + a.e3e4 * b.e1e4 + a.s * b.e1e3));
    assert(r.e1e3 == (-b.e1e3) * a.s - (-b.e1e4) * (-a.e3e4) + (-b.e3e4) * (-a.e1e4) + b.s * (-a.e1e3));
    assert(l.e1e3 == r.e1e3);
    assert(l.e1e4 == -(a.e1e3 * b.e3e4 + a.e1e4 * b.s - a.e3e4 * b.e1e3 + a.s * b.e1e4));
    assert(r.e1e4 == (-b.e1e3) * (-a.e3e4) + (-b.e1e4) * a.s - (-b.e3e4) * (-a.e1e3) + b.s * (-a.e1e4));
    assert(l.e1e4 == r.e1e4);
    assert(l.e3e4 == -(-(a.e1e3 * b.e1e4) + a.e1e4 * b.e1e3 + a.e3e4 * b.s + a.s * b.e3e4));
    assert(r.e3e4 == -((-b.e1e3) * (-a.e1e4)) + (-b.e1e4) * (-a.e1e3) + (-b.e3e4) * a.s + b.s * (-a.e3e4));
    assert(l.e3e4 == r.e3e4);
}

/// Distribute a scalar over one coefficient of the product `u * v`.
proof fn scale_right_rotor_s(u: RotorModel, v: RotorModel, k: int)
    ensures
        (-(u.e1e2 * v.e1e2) + u.e1e2e3e4 * v.e1e2e3e4 - u.e1e3 * v.e1e3 - u.e1e4 * v.e1e4 - u.e2e3 * v.e2e3 - u.e2e4 * v.e2e4 - u.e3e4 * v.e3e4 + u.s * v.s) * k == -((u.e1e2 * v.e1e2) * k) + (u.e1e2e3e4 * v.e1e2e3e4) * k - (u.e1e3 * v.e1e3) * k - (u.e1e4 * v.e1e4) * k - (u.e2e3 * v.e2e3) * k - (u.e2e4 * v.e2e4) * k - (u.e3e4 * v.e3e4) * k + (u.s * v.s) * k,
{
    assert((-(u.e1e2 * v.e1e2) + u.e1e2e3e4 * v.e1e2e3e4 - u.e1e3 * v.e1e3 - u.e1e4 * v.e1e4 - u.e2e3 * v.e2e3 - u.e2e4 * v.e2e4 - u.e3e4 * v.e3e4 + u.s * v.s) * k == -((u.e1e2 * v.e1e2) * k) + (u.e1e2e3e4 * v.e1e2e3e4) * k - (u.e1e3 * v.e1e3) * k - (u.e1e4 * v.e1e4) * k - (u.e2e3 * v.e2e3) * k - (u.e2e4 * v.e2e4) * k - (u.e3e4 * v.e3e4) * k + (u.s * v.s) * k) by (nonlinear_arith);
}

/// Distribute a scalar over one coefficient of the product `u * v`.
proof fn scale_left_rotor_s(u: RotorModel, v: RotorModel, k: int)
    ensures
        k * (-(u.e1e2 * v.e1e2) + u.e1e2e3e4 * v.e1e2e3e4 - u.e1e3 * v.e1e3 - u.e1e4 * v.e1e4 - u.e2e3 * v.e2e3 - u.e2e4 * v.e2e4 - u.e3e4 * v.e3e4 + u.s * v.s) == -(k * (u.e1e2 * v.e1e2)) + k * (u.e1e2e3e4 * v.e1e2e3e4) - k * (u.e1e3 * v.e1e3) - k * (u.e1e4 * v.e1e4) - k * (u.e2e3 * v.e2e3) - k * (u.e2e4 * v.e2e4) - k * (u.e3e4 * v.e3e4) + k * (u.s * v.s),
{
    assert(k * (-(u.e1e2 * v.e1e2) + u.e1e2e3e4 * v.e1e2e3e4 - u.e1e3 * v.e1e3 - u.e1e4 * v.e1e4 - u.e2e3 * v.e2e3 - u.e2e4 * v.e2e4 - u.e3e4 * v.e3e4 + u.s * v.s) == -(k * (u.e1e2 * v.e1e2)) + k * (u.e1e2e3e4 * v.e1e2e3e4) - k * (u.e1e3 * v.e1e3) - k * (u.e1e4 * v.e1e4) - k * (u.e2e3 * v.e2e3) - k * (u.e2e4 * v.e2e4) - k * (u.e3e4 * v.e3e4) + k * (u.s * v.s)) by (nonlinear_arith);
}

/// Distribute a scalar over one coefficient of the product `u * v`.
proof fn scale_right_rotor_e1e2(u: RotorModel, v: RotorModel, k: int)
    ensures
        (u.e1e2 * v.s - u.e1e2e3e4 * v.e3e4 - u.e1e3 * v.e2e3 - u.e1e4 * v.e2e4 + u.e2e3 * v.e1e3 + u.e2e4 * v.e1e4 - u.e3e4 * v.e1e2e3e4 + u.s * v.e1e2) * k == (u.e1e2 * v.s) * k - (u.e1e2e3e4 * v.e3e4) * k - (u.e1e3 * v.e2e3) * k - (u.e1e4 * v.e2e4) * k + (u.e2e3 * v.e1e3) * k + (u.e2e4 * v.e1e4) * k - (u.e3e4 * v.e1e2e3e4) * k + (u.s * v.e1e2) * k,
{
    assert((u.e1e2 * v.s - u.e1e2e3e4 * v.e3e4 - u.e1e3 * v.e2e3 - u.e1e4 * v.e2e4 + u.e2e3 * v.e1e3 + u.e2e4 * v.e1e4 - u.e3e4 * v.e1e2e3e4 + u.s * v.e1e2) * k == (u.e1e2 * v.s) * k - (u.e1e2e3e4 * v.e3e4) * k - (u.e1e3 * v.e2e3) * k - (u.e1e4 * v.e2e4) * k + (u.e2e3 * v.e1e3) * k + (u.e2e4 * v.e1e4) * k - (u.e3e4 * v.e1e2e3e4) * k + (u.s * v.e1e2) * k) by (nonlinear_arith);
}

/// Distribute a scalar over one coefficient of the product `u * v`.
proof fn scale_left_rotor_e1e2(u: RotorModel, v: RotorModel, k: int)
    ensures
        k * (u.e1e2 * v.s - u.e1e2e3e4 * v.e3e4 - u.e1e3 * v.e2e3 - u.e1e4 * v.e2e4 + u.e2e3 * v.e1e3 + u.e2e4 * v.e1e4 - u.e3e4 * v.e1e2e3e4 + u.s * v.e1e2) == k * (u.e1e2 * v.s) - k * (u.e1e2e3e4 * v.e3e4) - k * (u.e1e3 * v.e2e3) - k * (u.e1e4 * v.e2e4) + k * (u.e2e3 * v.e1e3) + k * (u.e2e4 * v.e1e4) - k * (u.e3e4 * v.e1e2e3e4) + k * (u.s * v.e1e2),
{
    assert(k * (u.e1e2 * v.s - u.e1e2e3e4 * v.e3e4 - u.e1e3 * v.e2e3 - u.e1e4 * v.e2e4 + u.e2e3 * v.e1e3 + u.e2e4 * v.e1e4 - u.e3e4 * v.e1e2e3e4 + u.s * v.e1e2) == k * (u.e1e2 * v.s) - k * (u.e1e2e3e4 * v.e3e4) - k * (u.e1e3 * v.e2e3) - k * (u.e1e4 * v.e2e4) + k * (u.e2e3 * v.e1e3) + k * (u.e2e4 * v.e1e4) - k * (u.e3e4 * v.e1e2e3e4) + k * (u.s * v.e1e2)) by (nonlinear_arith);
}

/// Distribute a scalar over one coefficient of the product `u * v`.
proof fn scale_right_rotor_e1e3(u: RotorModel, v: RotorModel, k: int)
    ensures
        (u.e1e2 * v.e2e3 + u.e1e2e3e4 * v.e2e4 + u.e1e3 * v.s - u.e1e4 * v.e3e4 - u.e2e3 * v.e1e2 + u.e2e4 * v.e1e2e3e4 + u.e3e4 * v.e1e4 + u.s * v.e1e3) * k == (u.e1e2 * v.e2e3) * k + (u.e1e2e3e4 * v.e2e4) * k + (u.e1e3 * v.s) * k - (u.e1e4 * v.e3e4) * k - (u.e2e3 * v.e1e2) * k + (u.e2e4 * v.e1e2e3e4) * k + (u.e3e4 * v.e1e4) * k + (u.s * v.e1e3) * k,
{
    assert((u.e1e2 * v.e2e3 + u.e1e2e3e4 * v.e2e4 + u.e1e3 * v.s - u.e1e4 * v.e3e4 - u.e2e3 * v.e1e2 + u.e2e4 * v.e1e2e3e4 + u.e3e4 * v.e1e4 + u.s * v.e1e3) * k == (u.e1e2 * v.e2e3) * k + (u.e1e2e3e4 * v.e2e4) * k + (u.e1e3 * v.s) * k - (u.e1e4 * v.e3e4) * k - (u.e2e3 * v.e1e2) * k + (u.e2e4 * v.e1e2e3e4) * k + (u.e3e4 * v.e1e4) * k + (u.s * v.e1e3) * k) by (nonlinear_arith);
}

/// Distribute a scalar over one coefficient of the product `u * v`.
proof fn scale_left_rotor_e1e3(u: RotorModel, v: RotorModel, k: int)
    ensures
        k * (u.e1e2 * v.e2e3 + u.e1e2e3e4 * v.e2e4 + u.e1e3 * v.s - u.e1e4 * v.e3e4 - u.e2e3 * v.e1e2 + u.e2e4 * v.e1e2e3e4 + u.e3e4 * v.e1e4 + u.s * v.e1e3) == k * (u.e1e2 * v.e2e3) + k * (u.e1e2e3e4 * v.e2e4) + k * (u.e1e3 * v.s) - k * (u.e1e4 * v.e3e4) - k * (u.e2e3 * v.e1e2) + k * (u.e2e4 * v.e1e2e3e4) + k * (u.e3e4 * v.e1e4) + k * (u.s * v.e1e3),
{
    assert(k * (u.e1e2 * v.e2e3 + u.e1e2e3e4 * v.e2e4 + u.e1e3 * v.s - u.e1e4 * v.e3e4 - u.e2e3 * v.e1e2 + u.e2e4 * v.e1e2e3e4 + u.e3e4 * v.e1e4 + u.s * v.e1e3) == k * (u.e1e2 * v.e2e3) + k * (u.e1e2e3e4 * v.e2e4) + k * (u.e1e3 * v.s) - k * (u.e1e4 * v.e3e4) - k * (u.e2e3 * v.e1e2) + k * (u.e2e4 * v.e1e2e3e4) + k * (u.e3e4 * v.e1e4) + k * (u.s * v.e1e3)) by (nonlinear_arith);
}

/// Distribute a scalar over one coefficient of the product `u * v`.
proof fn scale_right_rotor_e1e4(u: RotorModel, v: RotorModel, k: int)
    ensures
        (u.e1e2 * v.e2e4 - u.e1e2e3e4 * v.e2e3 + u.e1e3 * v.e3e4 + u.e1e4 * v.s - u.e2e3 * v.e1e2e3e4 - u.e2e4 * v.e1e2 - u.e3e4 * v.e1e3 + u.s * v.e1e4) * k == (u.e1e2 * v.e2e4) * k - (u.e1e2e3e4 * v.e2e3) * k + (u.e1e3 * v.e3e4) * k + (u.e1e4 * v.s) * k - (u.e2e3 * v.e1e2e3e4) * k - (u.e2e4 * v.e1e2) * k - (u.e3e4 * v.e1e3) * k + (u.s * v.e1e4) * k,
{
    assert((u.e1e2 * v.e2e4 - u.e1e2e3e4 * v.e2e3 + u.e1e3 * v.e3e4 + u.e1e4 * v.s - u.e2e3 * v.e1e2e3e4 - u.e2e4 * v.e1e2 - u.e3e4 * v.e1e3 + u.s * v.e1e4) * k == (u.e1e2 * v.e2e4) * k - (u.e1e2e3e4 * v.e2e3) * k + (u.e1e3 * v.e3e4) * k + (u.e1e4 * v.s) * k - (u.e2e3 * v.e1e2e3e4) * k - (u.e2e4 * v.e1e2) * k - (u.e3e4 * v.e1e3) * k + (u.s * v.e1e4) * k) by (nonlinear_arith);
}

/// Distribute a scalar over one coefficient of the product `u * v`.
proof fn scale_left_rotor_e1e4(u: RotorModel, v: RotorModel, k: int)
    ensures
        k * (u.e1e2 * v.e2e4 - u.e1e2e3e4 * v.e2e3 + u.e1e3 * v.e3e4 + u.e1e4 * v.s - u.e2e3 * v.e1e2e3e4 - u.e2e4 * v.e1e2 - u.e3e4 * v.e1e3 + u.s * v.e1e4) == k * (u.e1e2 * v.e2e4) - k * (u.e1e2e3e4 * v.e2e3) + k * (u.e1e3 * v.e3e4) + k * (u.e1e4 * v.s) - k * (u.e2e3 * v.e1e2e3e4) - k * (u.e2e4 * v.e1e2) - k * (u.e3e4 * v.e1e3) + k * (u.s * v.e1e4),
{
    assert(k * (u.e1e2 * v.e2e4 - u.e1e2e3e4 * v.e2e3 + u.e1e3 * v.e3e4 + u.e1e4 * v.s - u.e2e3 * v.e1e2e3e4 - u.e2e4 * v.e1e2 - u.e3e4 * v.e1e3 + u.s * v.e1e4) == k * (u.e1e2 * v.e2e4) - k * (u.e1e2e3e4 * v.e2e3) + k * (u.e1e3 * v.e3e4) + k * (u.e1e4 * v.s) - k * (u.e2e3 * v.e1e2e3e4) - k * (u.e2e4 * v.e1e2) - k * (u.e3e4 * v.e1e3) + k * (u.s * v.e1e4)) by (nonlinear_arith);
}

/// Distribute a scalar over one coefficient of the product `u * v`.
proof fn scale_right_rotor_e2e3(u: RotorModel, v: RotorModel, k: int)
    ensures
        (-(u.e1e2 * v.e1e3) - u.e1e2e3e4 * v.e1e4 + u.e1e3 * v.e1e2 - u.e1e4 * v.e1e2e3e4 + u.e2e3 * v.s - u.e2e4 * v.e3e4 + u.e3e4 * v.e2e4 + u.s * v.e2e3) * k == -((u.e1e2 * v.e1e3) * k) - (u.e1e2e3e4 * v.e1e4) * k + (u.e1e3 * v.e1e2) * k - (u.e1e4 * v.e1e2e3e4) * k + (u.e2e3 * v.s) * k - (u.e2e4 * v.e3e4) * k + (u.e3e4 * v.e2e4) * k + (u.s * v.e2e3) * k,
{
    assert((-(u.e1e2 * v.e1e3) - u.e1e2e3e4 * v.e1e4 + u.e1e3 * v.e1e2 - u.e1e4 * v.e1e2e3e4 + u.e2e3 * v.s - u.e2e4 * v.e3e4 + u.e3e4 * v.e2e4 + u.s * v.e2e3) * k == -((u.e1e2 * v.e1e3) * k) - (u.e1e2e3e4 * v.e1e4) * k + (u.e1e3 * v.e1e2) * k - (u.e1e4 * v.e1e2e3e4) * k + (u.e2e3 * v.s) * k - (u.e2e4 * v.e3e4) * k + (u.e3e4 * v.e2e4) * k + (u.s * v.e2e3) * k) by (nonlinear_arith);
}

/// Distribute a scalar over one coefficient of the product `u * v`.
proof fn scale_left_rotor_e2e3(u: RotorModel, v: RotorModel, k: int)
    ensures
        k * (-(u.e1e2 * v.e1e3) - u.e1e2e3e4 * v.e1e4 + u.e1e3 * v.e1e2 - u.e1e4 * v.e1e2e3e4 + u.e2e3 * v.s - u.e2e4 * v.e3e4 + u.e3e4 * v.e2e4 + u.s * v.e2e3) == -(k * (u.e1e2 * v.e1e3)) - k * (u.e1e2e3e4 * v.e1e4) + k * (u.e1e3 * v.e1e2) - k * (u.e1e4 * v.e1e2e3e4) + k * (u.e2e3 * v.s) - k * (u.e2e4 * v.e3e4) + k * (u.e3e4 * v.e2e4) + k * (u.s * v.e2e3),
{
    assert(k * (-(u.e1e2 * v.e1e3) - u.e1e2e3e4 * v.e1e4 + u.e1e3 * v.e1e2 - u.e1e4 * v.e1e2e3e4 + u.e2e3 * v.s - u.e2e4 * v.e3e4 + u.e3e4 * v.e2e4 + u.s * v.e2e3) == -(k * (u.e1e2 * v.e1e3)) - k * (u.e1e2e3e4 * v.e1e4) + k * (u.e1e3 * v.e1e2) - k * (u.e1e4 * v.e1e2e3e4) + k * (u.e2e3 * v.s) - k * (u.e2e4 * v.e3e4) + k * (u.e3e4 * v.e2e4) + k * (u.s * v.e2e3)) by (nonlinear_arith);
}

/// Distribute a scalar over one coefficient of the product `u * v`.
proof fn scale_right_rotor_e2e4(u: RotorModel, v: RotorModel, k: int)
    ensures
        (-(u.e1e2 * v.e1e4) + u.e1e2e3e4 * v.e1e3 + u.e1e3 * v.e1e2e3e4 + u.e1e4 * v.e1e2 + u.e2e3 * v.e3e4 + u.e2e4 * v.s - u.e3e4 * v.e2e3 + u.s * v.e2e4) * k == -((u.e1e2 * v.e1e4) * k) + (u.e1e2e3e4 * v.e1e3) * k + (u.e1e3 * v.e1e2e3e4) * k + (u.e1e4 * v.e1e2) * k + (u.e2e3 * v.e3e4) * k + (u.e2e4 * v.s) * k - (u.e3e4 * v.e2e3) * k + (u.s * v.e2e4) * k,
{
    assert((-(u.e1e2 * v.e1e4) + u.e1e2e3e4 * v.e1e3 + u.e1e3 * v.e1e2e3e4 + u.e1e4 * v.e1e2 + u.e2e3 * v.e3e4 + u.e2e4 * v.s - u.e3e4 * v.e2e3 + u.s * v.e2e4) * k == -((u.e1e2 * v.e1e4) * k) + (u.e1e2e3e4 * v.e1e3) * k + (u.e1e3 * v.e1e2e3e4) * k + (u.e1e4 * v.e1e2) * k + (u.e2e3 * v.e3e4) * k + (u.e2e4 * v.s) * k - (u.e3e4 * v.e2e3) * k + (u.s * v.e2e4) * k) by (nonlinear_arith);
}

/// Distribute a scalar over one coefficient of the product `u * v`.
proof fn scale_left_rotor_e2e4(u: RotorModel, v: RotorModel, k: int)
    ensures
        k * (-(u.e1e2 * v.e1e4) + u.e1e2e3e4 * v.e1e3 + u.e1e3 * v.e1e2e3e4 + u.e1e4 * v.e1e2 + u.e2e3 * v.e3e4 + u.e2e4 * v.s - u.e3e4 * v.e2e3 + u.s * v.e2e4) == -(k * (u.e1e2 * v.e1e4)) + k * (u.e1e2e3e4 * v.e1e3) + k * (u.e1e3 * v.e1e2e3e4) + k * (u.e1e4 * v.e1e2) + k * (u.e2e3 * v.e3e4) + k * (u.e2e4 * v.s) - k * (u.e3e4 * v.e2e3) + k * (u.s * v.e2e4),
{
    assert(k * (-(u.e1e2 * v.e1e4) + u.e1e2e3e4 * v.e1e3 + u.e1e3 * v.e1e2e3e4 + u.e1e4 * v.e1e2 + u.e2e3 * v.e3e4 + u.e2e4 * v.s - u.e3e4 * v.e2e3 + u.s * v.e2e4) == -(k * (u.e1e2 * v.e1e4)) + k * (u.e1e2e3e4 * v.e1e3) + k * (u.e1e3 * v.e1e2e3e4) + k * (u.e1e4 * v.e1e2) + k * (u.e2e3 * v.e3e4) + k * (u.e2e4 * v.s) - k * (u.e3e4 * v.e2e3) + k * (u.s * v.e2e4)) by (nonlinear_arith);
}

/// Distribute a scalar over one coefficient of the product `u * v`.
proof fn scale_right_rotor_e3e4(u: RotorModel, v: RotorModel, k: int)
    ensures
        (-(u.e1e2 * v.e1e2e3e4) - u.e1e2e3e4 * v.e1e2 - u.e1e3 * v.e1e4 + u.e1e4 * v.e1e3 - u.e2e3 * v.e2e4 + u.e2e4 * v.e2e3 + u.e3e4 * v.s + u.s * v.e3e4) * k == -((u.e1e2 * v.e1e2e3e4) * k) - (u.e1e2e3e4 * v.e1e2) * k - (u.e1e3 * v.e1e4) * k + (u.e1e4 * v.e1e3) * k - (u.e2e3 * v.e2e4) * k + (u.e2e4 * v.e2e3) * k + (u.e3e4 * v.s) * k + (u.s * v.e3e4) * k,
{
    assert((-(u.e1e2 * v.e1e2e3e4) - u.e1e2e3e4 * v.e1e2 - u.e1e3 * v.e1e4 + u.e1e4 * v.e1e3 - u.e2e3 * v.e2e4 + u.e2e4 * v.e2e3 + u.e3e4 * v.s + u.s * v.e3e4) * k == -((u.e1e2 * v.e1e2e3e4) * k) - (u.e1e2e3e4 * v.e1e2) * k - (u.e1e3 * v.e1e4) * k + (u.e1e4 * v.e1e3) * k - (u.e2e3 * v.e2e4) * k + (u.e2e4 * v.e2e3) * k + (u.e3e4 * v.s) * k + (u.s * v.e3e4) * k) by (nonlinear_arith);
}

/// Distribute a scalar over one coefficient of the product `u * v`.
proof fn scale_left_rotor_e3e4(u: RotorModel, v: RotorModel, k: int)
    ensures
        k * (-(u.e1e2 * v.e1e2e3e4) - u.e1e2e3e4 * v.e1e2 - u.e1e3 * v.e1e4 + u.e1e4 * v.e1e3 - u.e2e3 * v.e2e4 + u.e2e4 * v.e2e3 + u.e3e4 * v.s + u.s * v.e3e4) == -(k * (u.e1e2 * v.e1e2e3e4)) - k * (u.e1e2e3e4 * v.e1e2) - k * (u.e1e3 * v.e1e4) + k * (u.e1e4 * v.e1e3) - k * (u.e2e3 * v.e2e4) + k * (u.e2e4 * v.e2e3) + k * (u.e3e4 * v.s) + k * (u.s * v.e3e4),
{
    assert(k * (-(u.e1e2 * v.e1e2e3e4) - u.e1e2e3e4 * v.e1e2 - u.e1e3 * v.e1e4 + u.e1e4 * v.e1e3 - u.e2e3 * v.e2e4 + u.e2e4 * v.e2e3 + u.e3e4 * v.s + u.s * v.e3e4) == -(k * (u.e1e2 * v.e1e2e3e4)) - k * (u.e1e2e3e4 * v.e1e2) - k * (u.e1e3 * v.e1e4) + k * (u.e1e4 * v.e1e3) - k * (u.e2e3 * v.e2e4) + k * (u.e2e4 * v.e2e3) + k * (u.e3e4 * v.s) + k * (u.s * v.e3e4)) by (nonlinear_arith);
}

/// Distribute a scalar over one coefficient of the product `u * v`.
proof fn scale_right_rotor_e1e2e3e4(u: RotorModel, v: RotorModel, k: int)
    ensures
        (u.e1e2 * v.e3e4 + u.e1e2e3e4 * v.s - u.e1e3 * v.e2e4 + u.e1e4 * v.e2e3 + u.e2e3 * v.e1e4 - u.e2e4 * v.e1e3 + u.e3e4 * v.e1e2 + u.s * v.e1e2e3e4) * k == (u.e1e2 * v.e3e4) * k + (u.e1e2e3e4 * v.s) * k - (u.e1e3 * v.e2e4) * k + (u.e1e4 * v.e2e3) * k + (u.e2e3 * v.e1e4) * k - (u.e2e4 * v.e1e3) * k + (u.e3e4 * v.e1e2) * k + (u.s * v.e1e2e3e4) * k,
{
    assert((u.e1e2 * v.e3e4 + u.e1e2e3e4 * v.s - u.e1e3 * v.e2e4 + u.e1e4 * v.e2e3 + u.e2e3 * v.e1e4 - u.e2e4 * v.e1e3 + u.e3e4 * v.e1e2 + u.s * v.e1e2e3e4) * k == (u.e1e2 * v.e3e4) * k + (u.e1e2e3e4 * v.s) * k - (u.e1e3 * v.e2e4) * k + (u.e1e4 * v.e2e3) * k + (u.e2e3 * v.e1e4) * k - (u.e2e4 * v.e1e3) * k + (u.e3e4 * v.e1e2) * k + (u.s * v.e1e2e3e4) * k) by (nonlinear_arith);
}

/// Distribute a scalar over one coefficient of the product `u * v`.
proof fn scale_left_rotor_e1e2e3e4(u: RotorModel, v: RotorModel, k: int)
    ensures
        k * (u.e1e2 * v.e3e4 + u.e1e2e3e4 * v.s - u.e1e3 * v.e2e4 + u.e1e4 * v.e2e3 + u.e2e3 * v.e1e4 - u.e2e4 * v.e1e3 + u.e3e4 * v.e1e2 + u.s * v.e1e2e3e4) == k * (u.e1e2 * v.e3e4) + k * (u.e1e2e3e4 * v.s) - k * (u.e1e3 * v.e2e4) + k * (u.e1e4 * v.e2e3) + k * (u.e2e3 * v.e1e4) - k * (u.e2e4 * v.e1e3) + k * (u.e3e4 * v.e1e2) + k * (u.s * v.e1e2e3e4),
{
    assert(k * (u.e1e2 * v.e3e4 + u.e1e2e3e4 * v.s - u.e1e3 * v.e2e4 + u.e1e4 * v.e2e3 + u.e2e3 * v.e1e4 - u.e2e4 * v.e1e3 + u.e3e4 * v.e1e2 + u.s * v.e1e2e3e4) == k * (u.e1e2 * v.e3e4) + k * (u.e1e2e3e4 * v.s) - k * (u.e1e3 * v.e2e4) + k * (u.e1e4 * v.e2e3) + k * (u.e2e3 * v.e1e4) - k * (u.e2e4 * v.e1e3) + k * (u.e3e4 * v.e1e2) + k * (u.s * v.e1e2e3e4)) by (nonlinear_arith);
}

/// Composition is associative.
#[verifier::rlimit(100)]
pub proof fn lemma_rotor_compose_assoc(a: RotorModel, b: RotorModel, c: RotorModel)
    ensures
        rotor_and_then(rotor_and_then(a, b), c) == rotor_and_then(a, rotor_and_then(b, c)),
{
    let l = rotor_and_then(rotor_and_then(a, b), c);
    let r = rotor_and_then(a, rotor_and_then(b, c));
    lemma_mul_regroup_all();
    assert(l.s == -((a.e1e2 * b.s - a.e1e2e3e4 * b.e3e4 - a.e1e3 * b.e2e3 - a.e1e4 * b.e2e4 + a.e2e3 * b.e1e3 + a.e2e4 * b.e1e4 - a.e3e4 * b.e1e2e3e4 + a.s * b.e1e2) * c.e1e2) + (a.e1e2 * b.e3e4 + a.e1e2e3e4 * b.s - a.e1e3 * b.e2e4 + a.e1e4 * b.e2e3 + a.e2e3 * b.e1e4 - a.e2e4 * b.e1e3 + a.e3e4 * b.e1e2 + a.s * b.e1e2e3e4) * c.e1e2e3e4 - (a.e1e2 * b.e2e3 + a.e1e2e3e4 * b.e2e4 + a.e1e3 * b.s - a.e1e4 * b.e3e4 - a.e2e3 * b.e1e2 + a.e2e4 * b.e1e2e3e4 + a.e3e4 * b.e1e4 + a.s * b.e1e3) * c.e1e3 - (a.e1e2 * b.e2e4 - a.e1e2e3e4 * b.e2e3 + a.e1e3 * b.e3e4 + a.e1e4 * b.s - a.e2e3 * b.e1e2e3e4 - a.e2e4 * b.e1e2 - a.e3e4 * b.e1e3 + a.s * b.e1e4) * c.e1e4 - (-(a.e1e2 * b.e1e3) - a.e1e2e3e4 * b.e1e4 + a.e1e3 * b.e1e2 - a.e1e4 * b.e1e2e3e4 + a.e2e3 * b.s - a.e2e4 * b.e3e4 + a.e3e4 * b.e2e4 + a.s * b.e2e3) * c.e2e3 - (-(a.e1e2 * b.e1e4) + a.e1e2e3e4 * b.e1e3 + a.e1e3 * b.e1e2e3e4 + a.e1e4 * b.e1e2 + a.e2e3 * b.e3e4 + a.e2e4 * b.s - a.e3e4 * b.e2e3 + a.s * b.e2e4) * c.e2e4 - (-(a.e1e2 * b.e1e2e3e4) - a.e1e2e3e4 * b.e1e2 - a.e1e3 * b.e1e4 + a.e1e4 * b.e1e3 - a.e2e3 * b.e2e4 + a.e2e4 * b.e2e3 + a.e3e4 * b.s + a.s * b.e3e4) * c.e3e4 + (-(a.e1e2 * b.e1e2) + a.e1e2e3e4 * b.e1e2e3e4 - a.e1e3 * b.e1e3 - a.e1e4 * b.e1e4 - a.e2e3 * b.e2e3 - a.e2e4 * b.e2e4 - a.e3e4 * b.e3e4 + a.s * b.s) * c.s);
    assert(r.s == -(a.e1e2 * (b.e1e2 * c.s - b.e1e2e3e4 * c.e3e4 - b.e1e3 * c.e2e3 - b.e1e4 * c.e2e4 + b.e2e3 * c.e1e3 + b.e2e4 * c.e1e4 - b.e3e4 * c.e1e2e3e4 + b.s * c.e1e2)) + a.e1e2e3e4 * (b.e1e2 * c.e3e4 + b.e1e2e3e4 * c.s - b.e1e3 * c.e2e4 + b.e1e4 * c.e2e3 + b.e2e3 * c.e1e4 - b.e2e4 * c.e1e3 + b.e3e4 * c.e1e2 + b.s * c.e1e2e3e4) - a.e1e3 * (b.e1e2 * c.e2e3 + b.e1e2e3e4 * c.e2e4 + b.e1e3 * c.s - b.e1e4 * c.e3e4 - b.e2e3 * c.e1e2 + b.e2e4 * c.e1e2e3e4 + b.e3e4 * c.e1e4 + b.s * c.e1e3) - a.e1e4 * (b.e1e2 * c.e2e4 - b.e1e2e3e4 * c.e2e3 + b.e1e3 * c.e3e4 + b.e1e4 * c.s - b.e2e3 * c.e1e2e3e4 - b.e2e4 * c.e1e2 - b.e3e4 * c.e1e3 + b.s * c.e1e4) - a.e2e3 * (-(b.e1e2 * c.e1e3) - b.e1e2e3e4 * c.e1e4 + b.e1e3 * c.e1e2 - b.e1e4 * c.e1e2e3e4 + b.e2e3 * c.s - b.e2e4 * c.e3e4 + b.e3e4 * c.e2e4 + b.s * c.e2e3) - a.e2e4 * (-(b.e1e2 * c.e1e4) + b.e1e2e3e4 * c.e1e3 + b.e1e3 * c.e1e2e3e4 + b.e1e4 * c.e1e2 + b.e2e3 * c.e3e4 + b.e2e4 * c.s - b.e3e4 * c.e2e3 + b.s * c.e2e4) - a.e3e4 * (-(b.e1e2 * c.e1e2e3e4) - b.e1e2e3e4 * c.e1e2 - b.e1e3 * c.e1e4 + b.e1e4 * c.e1e3 - b.e2e3 * c.e2e4 + b.e2e4 * c.e2e3 + b.e3e4 * c.s + b.s * c.e3e4) + a.s * (-(b.e1e2 * c.e1e2) + b.e1e2e3e4 * c.e1e2e3e4 - b.e1e3 * c.e1e3 - b.e1e4 * c.e1e4 - b.e2e3 * c.e2e3 - b.e2e4 * c.e2e4 - b.e3e4 * c.e3e4 + b.s * c.s));
    scale_right_rotor_e1e2(a, b, c.e1e2);
    scale_right_rotor_e1e2e3e4(a, b, c.e1e2e3e4);
    scale_right_rotor_e1e3(a, b, c.e1e3);
    scale_right_rotor_e1e4(a, b, c.e1e4);
    scale_right_rotor_e2e3(a, b, c.e2e3);
    scale_right_rotor_e2e4(a, b, c.e2e4);
    scale_right_rotor_e3e4(a, b, c.e3e4);
    scale_right_rotor_s(a, b, c.s);
    scale_left_rotor_e1e2(b, c, a.e1e2);
    scale_left_rotor_e1e2e3e4(b, c, a.e1e2e3e4);
    scale_left_rotor_e1e3(b, c, a.e1e3);
    scale_left_rotor_e1e4(b, c, a.e1e4);
    scale_left_rotor_e2e3(b, c, a.e2e3);
    scale_left_rotor_e2e4(b, c, a.e2e4);
    scale_left_rotor_e3e4(b, c, a.e3e4);
    scale_left_rotor_s(b, c, a.s);
    assert(l.s == -((a.e1e2 * b.e1e2) * c.s) + (a.e1e2 * b.e1e2e3e4) * c.e3e4 + (a.e1e2 * b.e1e3) * c.e2e3 + (a.e1e2 * b.e1e4) * c.e2e4 - (a.e1e2 * b.e2e3) * c.e1e3 - (a.e1e2 * b.e2e4) * c.e1e4 + (a.e1e2 * b.e3e4) * c.e1e2e3e4 - (a.e1e2 * b.s) * c.e1e2 + (a.e1e2e3e4 * b.e1e2) * c.e3e4 + (a.e1e2e3e4 * b.e1e2e3e4) * c.s - (a.e1e2e3e4 * b.e1e3) * c.e2e4 + (a.e1e2e3e4 * b.e1e4) * c.e2e3 + (a.e1e2e3e4 * b.e2e3) * c.e1e4 - (a.e1e2e3e4 * b.e2e4) * c.e1e3 + (a.e1e2e3e4 * b.e3e4) * c.e1e2 + (a.e1e2e3e4 * b.s) * c.e1e2e3e4 - (a.e1e3 * b.e1e2) * c.e2e3 - (a.e1e3 * b.e1e2e3e4) * c.e2e4 - (a.e1e3 * b.e1e3) * c.s + (a.e1e3 * b.e1e4) * c.e3e4 + (a.e1e3 * b.e2e3) * c.e1e2 - (a.e1e3 * b.e2e4) * c.e1e2e3e4 - (a.e1e3 * b.e3e4) * c.e1e4 - (a.e1e3 * b.s) * c.e1e3 - (a.e1e4 * b.e1e2) * c.e2e4 + (a.e1e4 * b.e1e2e3e4) * c.e2e3 - (a.e1e4 * b.e1e3) * c.e3e4 - (a.e1e4 * b.e1e4) * c.s + (a.e1e4 * b.e2e3) * c.e1e2e3e4 + (a.e1e4 * b.e2e4) * c.e1e2 + (a.e1e4 * b.e3e4) * c.e1e3 - (a.e1e4 * b.s) * c.e1e4 + (a.e2e3 * b.e1e2) * c.e1e3 + (a.e2e3 * b.e1e2e3e4) * c.e1e4 - (a.e2e3 * b.e1e3) * c.e1e2 + (a.e2e3 * b.e1e4) * c.e1e2e3e4 - (a.e2e3 * b.e2e3) * c.s + (a.e2e3 * b.e2e4) * c.e3e4 - (a.e2e3 * b.e3e4) * c.e2e4 - (a.e2e3 * b.s) * c.e2e3 + (a.e2e4 * b.e1e2) * c.e1e4 - (a.e2e4 * b.e1e2e3e4) * c.e1e3 - (a.e2e4 * b.e1e3) * c.e1e2e3e4 - (a.e2e4 * b.e1e4) * c.e1e2 - (a.e2e4 * b.e2e3) * c.e3e4 - (a.e2e4 * b.e2e4) * c.s + (a.e2e4 * b.e3e4) * c.e2e3 - (a.e2e4 * b.s) * c.e2e4 + (a.e3e4 * b.e1e2) * c.e1e2e3e4 + (a.e3e4 * b.e1e2e3e4) * c.e1e2 + (a.e3e4 * b.e1e3) * c.e1e4 - (a.e3e4 * b.e1e4) * c.e1e3 + (a.e3e4 * b.e2e3) * c.e2e4 - (a.e3e4 * b.e2e4) * c.e2e3 - (a.e3e4 * b.e3e4) * c.s - (a.e3e4 * b.s) * c.e3e4 - (a.s * b.e1e2) * c.e1e2 + (a.s * b.e1e2e3e4) * c.e1e2e3e4 - (a.s * b.e1e3) * c.e1e3 - (a.s * b.e1e4) * c.e1e4 - (a.s * b.e2e3) * c.e2e3 - (a.s * b.e2e4) * c.e2e4 - (a.s * b.e3e4) * c.e3e4 + (a.s * b.s) * c.s);
    assert(r.s == -((a.e1e2 * b.e1e2) * c.s) + (a.e1e2 * b.e1e2e3e4) * c.e3e4 + (a.e1e2 * b.e1e3) * c.e2e3 + (a.e1e2 * b.e1e4) * c.e2e4 - (a.e1e2 * b.e2e3) * c.e1e3 - (a.e1e2 * b.e2e4) * c.e1e4 + (a.e1e2 * b.e3e4) * c.e1e2e3e4 - (a.e1e2 * b.s) * c.e1e2 + (a.e1e2e3e4 * b.e1e2) * c.e3e4 + (a.e1e2e3e4 * b.e1e2e3e4) * c.s - (a.e1e2e3e4 * b.e1e3) * c.e2e4 + (a.e1e2e3e4 * b.e1e4) * c.e2e3 + (a.e1e2e3e4 * b.e2e3) * c.e1e4 - (a.e1e2e3e4 * b.e2e4) * c.e1e3 + (a.e1e2e3e4 * b.e3e4) * c.e1e2 + (a.e1e2e3e4 * b.s) * c.e1e2e3e4 - (a.e1e3 * b.e1e2) * c.e2e3 - (a.e1e3 * b.e1e2e3e4) * c.e2e4 - (a.e1e3 * b.e1e3) * c.s + (a.e1e3 * b.e1e4) * c.e3e4 + (a.e1e3 * b.e2e3) * c.e1e2 - (a.e1e3 * b.e2e4) * c.e1e2e3e4 - (a.e1e3 * b.e3e4) * c.e1e4 - (a.e1e3 * b.s) * c.e1e3 - (a.e1e4 * b.e1e2) * c.e2e4 + (a.e1e4 * b.e1e2e3e4) * c.e2e3 - (a.e1e4 * b.e1e3) * c.e3e4 - (a.e1e4 * b.e1e4) * c.s + (a.e1e4 * b.e2e3) * c.e1e2e3e4 + (a.e1e4 * b.e2e4) * c.e1e2 + (a.e1e4 * b.e3e4) * c.e1e3 - (a.e1e4 * b.s) * c.e1e4 + (a.e2e3 * b.e1e2) * c.e1e3 + (a.e2e3 * b.e1e2e3e4) * c.e1e4 - (a.e2e3 * b.e1e3) * c.e1e2 + (a.e2e3 * b.e1e4) * c.e1e2e3e4 - (a.e2e3 * b.e2e3) * c.s + (a.e2e3 * b.e2e4) * c.e3e4 - (a.e2e3 * b.e3e4) * c.e2e4 - (a.e2e3 * b.s) * c.e2e3 + (a.e2e4 * b.e1e2) * c.e1e4 - (a.e2e4 * b.e1e2e3e4) * c.e1e3 - (a.e2e4 * b.e1e3) * c.e1e2e3e4 - (a.e2e4 * b.e1e4) * c.e1e2 - (a.e2e4 * b.e2e3) * c.e3e4 - (a.e2e4 * b.e2e4) * c.s + (a.e2e4 * b.e3e4) * c.e2e3 - (a.e2e4 * b.s) * c.e2e4 + (a.e3e4 * b.e1e2) * c.e1e2e3e4 + (a.e3e4 * b.e1e2e3e4) * c.e1e2 + (a.e3e4 * b.e1e3) * c.e1e4 - (a.e3e4 * b.e1e4) * c.e1e3 + (a.e3e4 * b.e2e3) * c.e2e4 - (a.e3e4 * b.e2e4) * c.e2e3 - (a.e3e4 * b.e3e4) * c.s - (a.e3e4 * b.s) * c.e3e4 - (a.s * b.e1e2) * c.e1e2 + (a.s * b.e1e2e3e4) * c.e1e2e3e4 - (a.s * b.e1e3) * c.e1e3 - (a.s * b.e1e4) * c.e1e4 - (a.s * b.e2e3) * c.e2e3 - (a.s * b.e2e4) * c.e2e4 - (a.s * b.e3e4) * c.e3e4 + (a.s * b.s) * c.s);
    assert(l.e1e2 == (a.e1e2 * b.s - a.e1e2e3e4 * b.e3e4 - a.e1e3 * b.e2e3 - a.e1e4 * b.e2e4 + a.e2e3 * b.e1e3 + a.e2e4 * b.e1e4 - a.e3e4 * b.e1e2e3e4 + a.s * b.e1e2) * c.s - (a.e1e2 * b.e3e4 + a.e1e2e3e4 * b.s - a.e1e3 * b.e2e4 + a.e1e4 * b.e2e3 + a.e2e3 * b.e1e4 - a.e2e4 * b.e1e3 + a.e3e4 * b.e1e2 + a.s * b.e1e2e3e4) * c.e3e4 - (a.e1e2 * b.e2e3 + a.e1e2e3e4 * b.e2e4 + a.e1e3 * b.s - a.e1e4 * b.e3e4 - a.e2e3 * b.e1e2 + a.e2e4 * b.e1e2e3e4 + a.e3e4 * b.e1e4 + a.s * b.e1e3) * c.e2e3 - (a.e1e2 * b.e2e4 - a.e1e2e3e4 * b.e2e3 + a.e1e3 * b.e3e4 + a.e1e4 * b.s - a.e2e3 * b.e1e2e3e4 - a.e2e4 * b.e1e2 - a.e3e4 * b.e1e3 + a.s * b.e1e4) * c.e2e4 + (-(a.e1e2 * b.e1e3) - a.e1e2e3e4 * b.e1e4 + a.e1e3 * b.e1e2 - a.e1e4 * b.e1e2e3e4 + a.e2e3 * b.s - a.e2e4 * b.e3e4 + a.e3e4 * b.e2e4 + a.s * b.e2e3) * c.e1e3 + (-(a.e1e2 * b.e1e4) + a.e1e2e3e4 * b.e1e3 + a.e1e3 * b.e1e2e3e4 + a.e1e4 * b.e1e2 + a.e2e3 * b.e3e4 + a.e2e4 * b.s - a.e3e4 * b.e2e3 + a.s * b.e2e4) * c.e1e4 - (-(a.e1e2 * b.e1e2e3e4) - a.e1e2e3e4 * b.e1e2 - a.e1e3 * b.e1e4 + a.e1e4 * b.e1e3 - a.e2e3 * b.e2e4 + a.e2e4 * b.e2e3 + a.e3e4 * b.s + a.s * b.e3e4) * c.e1e2e3e4 + (-(a.e1e2 * b.e1e2) + a.e1e2e3e4 * b.e1e2e3e4 - a.e1e3 * b.e1e3 - a.e1e4 * b.e1e4 - a.e2e3 * b.e2e3 - a.e2e4 * b.e2e4 - a.e3e4 * b.e3e4 + a.s * b.s) * c.e1e2);
    assert(r.e1e2 == a.e1e2 * (-(b.e1e2 * c.e1e2) + b.e1e2e3e4 * c.e1e2e3e4 - b.e1e3 * c.e1e3 - b.e1e4 * c.e1e4 - b.e2e3 * c.e2e3 - b.e2e4 * c.e2e4 - b.e3e4 * c.e3e4 + b.s * c.s) - a.e1e2e3e4 * (-(b.e1e2 * c.e1e2e3e4) - b.e1e2e3e4 * c.e1e2 - b.e1e3 * c.e1e4 + b.e1e4 * c.e1e3 - b.e2e3 * c.e2e4 + b.e2e4 * c.e2e3 + b.e3e4 * c.s + b.s * c.e3e4) - a.e1e3 * (-(b.e1e2 * c.e1e3) - b.e1e2e3e4 * c.e1e4 + b.e1e3 * c.e1e2 - b.e1e4 * c.e1e2e3e4 + b.e2e3 * c.s - b.e2e4 * c.e3e4 + b.e3e4 * c.e2e4 + b.s * c.e2e3) - a.e1e4 * (-(b.e1e2 * c.e1e4) + b.e1e2e3e4 * c.e1e3 + b.e1e3 * c.e1e2e3e4 + b.e1e4 * c.e1e2 + b.e2e3 * c.e3e4 + b.e2e4 * c.s - b.e3e4 * c.e2e3 + b.s * c.e2e4) + a.e2e3 * (b.e1e2 * c.e2e3 + b.e1e2e3e4 * c.e2e4 + b.e1e3 * c.s - b.e1e4 * c.e3e4 - b.e2e3 * c.e1e2 + b.e2e4 * c.e1e2e3e4 + b.e3e4 * c.e1e4 + b.s * c.e1e3) + a.e2e4 * (b.e1e2 * c.e2e4 - b.e1e2e3e4 * c.e2e3 + b.e1e3 * c.e3e4 + b.e1e4 * c.s - b.e2e3 * c.e1e2e3e4 - b.e2e4 * c.e1e2 - b.e3e4 * c.e1e3 + b.s * c.e1e4) - a.e3e4 * (b.e1e2 * c.e3e4 + b.e1e2e3e4 * c.s - b.e1e3 * c.e2e4 + b.e1e4 * c.e2e3 + b.e2e3 * c.e1e4 - b.e2e4 * c.e1e3 + b.e3e4 * c.e1e2 + b.s * c.e1e2e3e4) + a.s * (b.e1e2 * c.s - b.e1e2e3e4 * c.e3e4 - b.e1e3 * c.e2e3 - b.e1e4 * c.e2e4 + b.e2e3 * c.e1e3 + b.e2e4 * c.e1e4 - b.e3e4 * c.e1e2e3e4 + b.s * c.e1e2));
    scale_right_rotor_e1e2(a, b, c.s);
    scale_right_rotor_e1e2e3e4(a, b, c.e3e4);
    scale_right_rotor_e1e3(a, b, c.e2e3);
    scale_right_rotor_e1e4(a, b, c.e2e4);
    scale_right_rotor_e2e3(a, b, c.e1e3);
    scale_right_rotor_e2e4(a, b, c.e1e4);
    scale_right_rotor_e3e4(a, b, c.e1e2e3e4);
    scale_right_rotor_s(a, b, c.e1e2);
    scale_left_rotor_s(b, c, a.e1e2);
    scale_left_rotor_e3e4(b, c, a.e1e2e3e4);
    scale_left_rotor_e2e3(b, c, a.e1e3);
    scale_left_rotor_e2e4(b, c, a.e1e4);
    scale_left_rotor_e1e3(b, c, a.e2e3);
    scale_left_rotor_e1e4(b, c, a.e2e4);
    scale_left_rotor_e1e2e3e4(b, c, a.e3e4);
    scale_left_rotor_e1e2(b, c, a.s);
    assert(l.e1e2 == -((a.e1e2 * b.e1e2) * c.e1e2) + (a.e1e2 * b.e1e2e3e4) * c.e1e2e3e4 - (a.e1e2 * b.e1e3) * c.e1e3 - (a.e1e2 * b.e1e4) * c.e1e4 - (a.e1e2 * b.e2e3) * c.e2e3 - (a.e1e2 * b.e2e4) * c.e2e4 - (a.e1e2 * b.e3e4) * c.e3e4 + (a.e1e2 * b.s) * c.s + (a.e1e2e3e4 * b.e1e2) * c.e1e2e3e4 + (a.e1e2e3e4 * b.e1e2e3e4) * c.e1e2 + (a.e1e2e3e4 * b.e1e3) * c.e1e4 - (a.e1e2e3e4 * b.e1e4) * c.e1e3 + (a.e1e2e3e4 * b.e2e3) * c.e2e4 - (a.e1e2e3e4 * b.e2e4) * c.e2e3 - (a.e1e2e3e4 * b.e3e4) * c.s - (a.e1e2e3e4 * b.s) * c.e3e4 + (a.e1e3 * b.e1e2) * c.e1e3 + (a.e1e3 * b.e1e2e3e4) * c.e1e4 - (a.e1e3 * b.e1e3) * c.e1e2 + (a.e1e3 * b.e1e4) * c.e1e2e3e4 - (a.e1e3 * b.e2e3) * c.s + (a.e1e3 * b.e2e4) * c.e3e4 - (a.e1e3 * b.e3e4) * c.e2e4 - (a.e1e3 * b.s) * c.e2e3 + (a.e1e4 * b.e1e2) * c.e1e4 - (a.e1e4 * b.e1e2e3e4) * c.e1e3 - (a.e1e4 * b.e1e3) * c.e1e2e3e4 - (a.e1e4 * b.e1e4) * c.e1e2 - (a.e1e4 * b.e2e3) * c.e3e4 - (a.e1e4 * b.e2e4) * c.s + (a.e1e4 * b.e3e4) * c.e2e3 - (a.e1e4 * b.s) * c.e2e4 + (a.e2e3 * b.e1e2) * c.e2e3 + (a.e2e3 * b.e1e2e3e4) * c.e2e4 + (a.e2e3 * b.e1e3) * c.s - (a.e2e3 * b.e1e4) * c.e3e4 - (a.e2e3 * b.e2e3) * c.e1e2 + (a.e2e3 * b.e2e4) * c.e1e2e3e4 + (a.e2e3 * b.e3e4) * c.e1e4 + (a.e2e3 * b.s) * c.e1e3 + (a.e2e4 * b.e1e2) * c.e2e4 - (a.e2e4 * b.e1e2e3e4) * c.e2e3 + (a.e2e4 * b.e1e3) * c.e3e4 + (a.e2e4 * b.e1e4) * c.s - (a.e2e4 * b.e2e3) * c.e1e2e3e4 - (a.e2e4 * b.e2e4) * c.e1e2 - (a.e2e4 * b.e3e4) * c.e1e3 + (a.e2e4 * b.s) * c.e1e4 - (a.e3e4 * b.e1e2) * c.e3e4 - (a.e3e4 * b.e1e2e3e4) * c.s + (a.e3e4 * b.e1e3) * c.e2e4 - (a.e3e4 * b.e1e4) * c.e2e3 - (a.e3e4 * b.e2e3) * c.e1e4 + (a.e3e4 * b.e2e4) * c.e1e3 - (a.e3e4 * b.e3e4) * c.e1e2 - (a.e3e4 * b.s) * c.e1e2e3e4 + (a.s * b.e1e2) * c.s - (a.s * b.e1e2e3e4) * c.e3e4 - (a.s * b.e1e3) * c.e2e3 - (a.s * b.e1e4) * c.e2e4 + (a.s * b.e2e3) * c.e1e3 + (a.s * b.e2e4) * c.e1e4 - (a.s * b.e3e4) * c.e1e2e3e4 + (a.s * b.s) * c.e1e2);
    assert(r.e1e2 == -((a.e1e2 * b.e1e2) * c.e1e2) + (a.e1e2 * b.e1e2e3e4) * c.e1e2e3e4 - (a.e1e2 * b.e1e3) * c.e1e3 - (a.e1e2 * b.e1e4) * c.e1e4 - (a.e1e2 * b.e2e3) * c.e2e3 - (a.e1e2 * b.e2e4) * c.e2e4 - (a.e1e2 * b.e3e4) * c.e3e4 + (a.e1e2 * b.s) * c.s + (a.e1e2e3e4 * b.e1e2) * c.e1e2e3e4 + (a.e1e2e3e4 * b.e1e2e3e4) * c.e1e2 + (a.e1e2e3e4 * b.e1e3) * c.e1e4 - (a.e1e2e3e4 * b.e1e4) * c.e1e3 + (a.e1e2e3e4 * b.e2e3) * c.e2e4 - (a.e1e2e3e4 * b.e2e4) * c.e2e3 - (a.e1e2e3e4 * b.e3e4) * c.s - (a.e1e2e3e4 * b.s) * c.e3e4 + (a.e1e3 * b.e1e2) * c.e1e3 + (a.e1e3 * b.e1e2e3e4) * c.e1e4 - (a.e1e3 * b.e1e3) * c.e1e2 + (a.e1e3 * b.e1e4) * c.e1e2e3e4 - (a.e1e3 * b.e2e3) * c.s + (a.e1e3 * b.e2e4) * c.e3e4 - (a.e1e3 * b.e3e4) * c.e2e4 - (a.e1e3 * b.s) * c.e2e3 + (a.e1e4 * b.e1e2) * c.e1e4 - (a.e1e4 * b.e1e2e3e4) * c.e1e3 - (a.e1e4 * b.e1e3) * c.e1e2e3e4 - (a.e1e4 * b.e1e4) * c.e1e2 - (a.e1e4 * b.e2e3) * c.e3e4 - (a.e1e4 * b.e2e4) * c.s + (a.e1e4 * b.e3e4) * c.e2e3 - (a.e1e4 * b.s) * c.e2e4 + (a.e2e3 * b.e1e2) * c.e2e3 + (a.e2e3 * b.e1e2e3e4) * c.e2e4 + (a.e2e3 * b.e1e3) * c.s - (a.e2e3 * b.e1e4) * c.e3e4 - (a.e2e3 * b.e2e3) * c.e1e2 + (a.e2e3 * b.e2e4) * c.e1e2e3e4 + (a.e2e3 * b.e3e4) * c.e1e4 + (a.e2e3 * b.s) * c.e1e3 + (a.e2e4 * b.e1e2) * c.e2e4 - (a.e2e4 * b.e1e2e3e4) * c.e2e3 + (a.e2e4 * b.e1e3) * c.e3e4 + (a.e2e4 * b.e1e4) * c.s - (a.e2e4 * b.e2e3) * c.e1e2e3e4 - (a.e2e4 * b.e2e4) * c.e1e2 - (a.e2e4 * b.e3e4) * c.e1e3 + (a.e2e4 * b.s) * c.e1e4 - (a.e3e4 * b.e1e2) * c.e3e4 - (a.e3e4 * b.e1e2e3e4) * c.s + (a.e3e4 * b.e1e3) * c.e2e4 - (a.e3e4 * b.e1e4) * c.e2e3 - (a.e3e4 * b.e2e3) * c.e1e4 + (a.e3e4 * b.e2e4) * c.e1e3 - (a.e3e4 * b.e3e4) * c.e1e2 - (a.e3e4 * b.s) * c.e1e2e3e4 + (a.s * b.e1e2) * c.s - (a.s * b.e1e2e3e4) * c.e3e4 - (a.s * b.e1e3) * c.e2e3 - (a.s * b.e1e4) * c.e2e4 + (a.s * b.e2e3) * c.e1e3 + (a.s * b.e2e4) * c.e1e4 - (a.s * b.e3e4) * c.e1e2e3e4 + (a.s * b.s) * c.e1e2);
    assert(l.e1e3 == (a.e1e2 * b.s - a.e1e2e3e4 * b.e3e4 - a.e1e3 * b.e2e3 - a.e1e4 * b.e2e4 + a.e2e3 * b.e1e3 + a.e2e4 * b.e1e4 - a.e3e4 * b.e1e2e3e4 + a.s * b.e1e2) * c.e2e3 + (a.e1e2 * b.e3e4 + a.e1e2e3e4 * b.s - a.e1e3 * b.e2e4 + a.e1e4 * b.e2e3 + a.e2e3 * b.e1e4 - a.e2e4 * b.e1e3 + a.e3e4 * b.e1e2 + a.s * b.e1e2e3e4) * c.e2e4 + (a.e1e2 * b.e2e3 + a.e1e2e3e4 * b.e2e4 + a.e1e3 * b.s - a.e1e4 * b.e3e4 - a.e2e3 * b.e1e2 + a.e2e4 * b.e1e2e3e4 + a.e3e4 * b.e1e4 + a.s * b.e1e3) * c.s - (a.e1e2 * b.e2e4 - a.e1e2e3e4 * b.e2e3 + a.e1e3 * b.e3e4 + a.e1e4 * b.s - a.e2e3 * b.e1e2e3e4 - a.e2e4 * b.e1e2 - a.e3e4 * b.e1e3 + a.s * b.e1e4) * c.e3e4 - (-(a.e1e2 * b.e1e3) - a.e1e2e3e4 * b.e1e4 + a.e1e3 * b.e1e2 - a.e1e4 * b.e1e2e3e4 + a.e2e3 * b.s - a.e2e4 * b.e3e4 + a.e3e4 * b.e2e4 + a.s * b.e2e3) * c.e1e2 + (-(a.e1e2 * b.e1e4) + a.e1e2e3e4 * b.e1e3 + a.e1e3 * b.e1e2e3e4 + a.e1e4 * b.e1e2 + a.e2e3 * b.e3e4 + a.e2e4 * b.s - a.e3e4 * b.e2e3 + a.s * b.e2e4) * c.e1e2e3e4 + (-(a.e1e2 * b.e1e2e3e4) - a.e1e2e3e4 * b.e1e2 - a.e1e3 * b.e1e4 + a.e1e4 * b.e1e3 - a.e2e3 * b.e2e4 + a.e2e4 * b.e2e3 + a.e3e4 * b.s + a.s * b.e3e4) * c.e1e4 + (-(a.e1e2 * b.e1e2) + a.e1e2e3e4 * b.e1e2e3e4 - a.e1e3 * b.e1e3 - a.e1e4 * b.e1e4 - a.e2e3 * b.e2e3 - a.e2e4 * b.e2e4 - a.e3e4 * b.e3e4 + a.s * b.s) * c.e1e3);
    assert(r.e1e3 == a.e1e2 * (-(b.e1e2 * c.e1e3) - b.e1e2e3e4 * c.e1e4 + b.e1e3 * c.e1e2 - b.e1e4 * c.e1e2e3e4 + b.e2e3 * c.s - b.e2e4 * c.e3e4 + b.e3e4 * c.e2e4 + b.s * c.e2e3) + a.e1e2e3e4 * (-(b.e1e2 * c.e1e4) + b.e1e2e3e4 * c.e1e3 + b.e1e3 * c.e1e2e3e4 + b.e1e4 * c.e1e2 + b.e2e3 * c.e3e4 + b.e2e4 * c.s - b.e3e4 * c.e2e3 + b.s * c.e2e4) + a.e1e3 * (-(b.e1e2 * c.e1e2) + b.e1e2e3e4 * c.e1e2e3e4 - b.e1e3 * c.e1e3 - b.e1e4 * c.e1e4 - b.e2e3 * c.e2e3 - b.e2e4 * c.e2e4 - b.e3e4 * c.e3e4 + b.s * c.s) - a.e1e4 * (-(b.e1e2 * c.e1e2e3e4) - b.e1e2e3e4 * c.e1e2 - b.e1e3 * c.e1e4 + b.e1e4 * c.e1e3 - b.e2e3 * c.e2e4 + b.e2e4 * c.e2e3 + b.e3e4 * c.s + b.s * c.e3e4) - a.e2e3 * (b.e1e2 * c.s - b.e1e2e3e4 * c.e3e4 - b.e1e3 * c.e2e3 - b.e1e4 * c.e2e4 + b.e2e3 * c.e1e3 + b.e2e4 * c.e1e4 - b.e3e4 * c.e1e2e3e4 + b.s * c.e1e2) + a.e2e4 * (b.e1e2 * c.e3e4 + b.e1e2e3e4 * c.s - b.e1e3 * c.e2e4 + b.e1e4 * c.e2e3 + b.e2e3 * c.e1e4 - b.e2e4 * c.e1e3 + b.e3e4 * c.e1e2 + b.s * c.e1e2e3e4) + a.e3e4 * (b.e1e2 * c.e2e4 - b.e1e2e3e4 * c.e2e3 + b.e1e3 * c.e3e4 + b.e1e4 * c.s - b.e2e3 * c.e1e2e3e4 - b.e2e4 * c.e1e2 - b.e3e4 * c.e1e3 + b.s * c.e1e4) + a.s * (b.e1e2 * c.e2e3 + b.e1e2e3e4 * c.e2e4 + b.e1e3 * c.s - b.e1e4 * c.e3e4 - b.e2e3 * c.e1e2 + b.e2e4 * c.e1e2e3e4 + b.e3e4 * c.e1e4 + b.s * c.e1e3));
    scale_right_rotor_e1e2(a, b, c.e2e3);
    scale_right_rotor_e1e2e3e4(a, b, c.e2e4);
    scale_right_rotor_e1e3(a, b, c.s);
    scale_right_rotor_e1e4(a, b, c.e3e4);
    scale_right_rotor_e2e3(a, b, c.e1e2);
    scale_right_rotor_e2e4(a, b, c.e1e2e3e4);
    scale_right_rotor_e3e4(a, b, c.e1e4);
    scale_right_rotor_s(a, b, c.e1e3);
    scale_left_rotor_e2e3(b, c, a.e1e2);
    scale_left_rotor_e2e4(b, c, a.e1e2e3e4);
    scale_left_rotor_s(b, c, a.e1e3);
    scale_left_rotor_e3e4(b, c, a.e1e4);
    scale_left_rotor_e1e2(b, c, a.e2e3);
    scale_left_rotor_e1e2e3e4(b, c, a.e2e4);
    scale_left_rotor_e1e4(b, c, a.e3e4);
    scale_left_rotor_e1e3(b, c, a.s);
    assert(l.e1e3 == -((a.e1e2 * b.e1e2) * c.e1e3) - (a.e1e2 * b.e1e2e3e4) * c.e1e4 + (a.e1e2 * b.e1e3) * c.e1e2 - (a.e1e2 * b.e1e4) * c.e1e2e3e4 + (a.e1e2 * b.e2e3) * c.s - (a.e1e2 * b.e2e4) * c.e3e4 + (a.e1e2 * b.e3e4) * c.e2e4 + (a.e1e2 * b.s) * c.e2e3 - (a.e1e2e3e4 * b.e1e2) * c.e1e4 + (a.e1e2e3e4 * b.e1e2e3e4) * c.e1e3 + (a.e1e2e3e4 * b.e1e3) * c.e1e2e3e4 + (a.e1e2e3e4 * b.e1e4) * c.e1e2 + (a.e1e2e3e4 * b.e2e3) * c.e3e4 + (a.e1e2e3e4 * b.e2e4) * c.s - (a.e1e2e3e4 * b.e3e4) * c.e2e3 + (a.e1e2e3e4 * b.s) * c.e2e4 - (a.e1e3 * b.e1e2) * c.e1e2 + (a.e1e3 * b.e1e2e3e4) * c.e1e2e3e4 - (a.e1e3 * b.e1e3) * c.e1e3 - (a.e1e3 * b.e1e4) * c.e1e4 - (a.e1e3 * b.e2e3) * c.e2e3 - (a.e1e3 * b.e2e4) * c.e2e4 - (a.e1e3 * b.e3e4) * c.e3e4 + (a.e1e3 * b.s) * c.s + (a.e1e4 * b.e1e2) * c.e1e2e3e4 + (a.e1e4 * b.e1e2e3e4) * c.e1e2 + (a.e1e4 * b.e1e3) * c.e1e4 - (a.e1e4 * b.e1e4) * c.e1e3 + (a.e1e4 * b.e2e3) * c.e2e4 - (a.e1e4 * b.e2e4) * c.e2e3 - (a.e1e4 * b.e3e4) * c.s - (a.e1e4 * b.s) * c.e3e4 - (a.e2e3 * b.e1e2) * c.s + (a.e2e3 * b.e1e2e3e4) * c.e3e4 + (a.e2e3 * b.e1e3) * c.e2e3 + (a.e2e3 * b.e1e4) * c.e2e4 - (a.e2e3 * b.e2e3) * c.e1e3 - (a.e2e3 * b.e2e4) * c.e1e4 + (a.e2e3 * b.e3e4) * c.e1e2e3e4 - (a.e2e3 * b.s) * c.e1e2 + (a.e2e4 * b.e1e2) * c.e3e4 + (a.e2e4 * b.e1e2e3e4) * c.s - (a.e2e4 * b.e1e3) * c.e2e4 + (a.e2e4 * b.e1e4) * c.e2e3 + (a.e2e4 * b.e2e3) * c.e1e4 - (a.e2e4 * b.e2e4) * c.e1e3 + (a.e2e4 * b.e3e4) * c.e1e2 + (a.e2e4 * b.s) * c.e1e2e3e4 + (a.e3e4 * b.e1e2) * c.e2e4 - (a.e3e4 * b.e1e2e3e4) * c.e2e3 + (a.e3e4 * b.e1e3) * c.e3e4 + (a.e3e4 * b.e1e4) * c.s - (a.e3e4 * b.e2e3) * c.e1e2e3e4 - (a.e3e4 * b.e2e4) * c.e1e2 - (a.e3e4 * b.e3e4) * c.e1e3 + (a.e3e4 * b.s) * c.e1e4 + (a.s * b.e1e2) * c.e2e3 + (a.s * b.e1e2e3e4) * c.e2e4 + (a.s * b.e1e3) * c.s - (a.s * b.e1e4) * c.e3e4 - (a.s * b.e2e3) * c.e1e2 + (a.s * b.e2e4) * c.e1e2e3e4 + (a.s * b.e3e4) * c.e1e4 + (a.s * b.s) * c.e1e3);
    assert(r.e1e3 == -((a.e1e2 * b.e1e2) * c.e1e3) - (a.e1e2 * b.e1e2e3e4) * c.e1e4 + (a.e1e2 * b.e1e3) * c.e1e2 - (a.e1e2 * b.e1e4) * c.e1e2e3e4 + (a.e1e2 * b.e2e3) * c.s - (a.e1e2 * b.e2e4) * c.e3e4 + (a.e1e2 * b.e3e4) * c.e2e4 + (a.e1e2 * b.s) * c.e2e3 - (a.e1e2e3e4 * b.e1e2) * c.e1e4 + (a.e1e2e3e4 * b.e1e2e3e4) * c.e1e3 + (a.e1e2e3e4 * b.e1e3) * c.e1e2e3e4 + (a.e1e2e3e4 * b.e1e4) * c.e1e2 + (a.e1e2e3e4 * b.e2e3) * c.e3e4 + (a.e1e2e3e4 * b.e2e4) * c.s - (a.e1e2e3e4 * b.e3e4) * c.e2e3 + (a.e1e2e3e4 * b.s) * c.e2e4 - (a.e1e3 * b.e1e2) * c.e1e2 + (a.e1e3 * b.e1e2e3e4) * c.e1e2e3e4 - (a.e1e3 * b.e1e3) * c.e1e3 - (a.e1e3 * b.e1e4) * c.e1e4 - (a.e1e3 * b.e2e3) * c.e2e3 - (a.e1e3 * b.e2e4) * c.e2e4 - (a.e1e3 * b.e3e4) * c.e3e4 + (a.e1e3 * b.s) * c.s + (a.e1e4 * b.e1e2) * c.e1e2e3e4 + (a.e1e4 * b.e1e2e3e4) * c.e1e2 + (a.e1e4 * b.e1e3) * c.e1e4 - (a.e1e4 * b.e1e4) * c.e1e3 + (a.e1e4 * b.e2e3) * c.e2e4 - (a.e1e4 * b.e2e4) * c.e2e3 - (a.e1e4 * b.e3e4) * c.s - (a.e1e4 * b.s) * c.e3e4 - (a.e2e3 * b.e1e2) * c.s + (a.e2e3 * b.e1e2e3e4) * c.e3e4 + (a.e2e3 * b.e1e3) * c.e2e3 + (a.e2e3 * b.e1e4) * c.e2e4 - (a.e2e3 * b.e2e3) * c.e1e3 - (a.e2e3 * b.e2e4) * c.e1e4 + (a.e2e3 * b.e3e4) * c.e1e2e3e4 - (a.e2e3 * b.s) * c.e1e2 + (a.e2e4 * b.e1e2) * c.e3e4 + (a.e2e4 * b.e1e2e3e4) * c.s - (a.e2e4 * b.e1e3) * c.e2e4 + (a.e2e4 * b.e1e4) * c.e2e3 + (a.e2e4 * b.e2e3) * c.e1e4 - (a.e2e4 * b.e2e4) * c.e1e3 + (a.e2e4 * b.e3e4) * c.e1e2 + (a.e2e4 * b.s) * c.e1e2e3e4 + (a.e3e4 * b.e1e2) * c.e2e4 - (a.e3e4 * b.e1e2e3e4) * c.e2e3 + (a.e3e4 * b.e1e3) * c.e3e4 + (a.e3e4 * b.e1e4) * c.s - (a.e3e4 * b.e2e3) * c.e1e2e3e4 - (a.e3e4 * b.e2e4) * c.e1e2 - (a.e3e4 * b.e3e4) * c.e1e3 + (a.e3e4 * b.s) * c.e1e4 + (a.s * b.e1e2) * c.e2e3 + (a.s * b.e1e2e3e4) * c.e2e4 + (a.s * b.e1e3) * c.s - (a.s * b.e1e4) * c.e3e4 - (a.s * b.e2e3) * c.e1e2 + (a.s * b.e2e4) * c.e1e2e3e4 + (a.s * b.e3e4) * c.e1e4 + (a.s * b.s) * c.e1e3);
    assert(l.e1e4 == (a.e1e2 * b.s - a.e1e2e3e4 * b.e3e4 - a.e1e3 * b.e2e3 - a.e1e4 * b.e2e4 + a.e2e3 * b.e1e3 + a.e2e4 * b.e1e4 - a.e3e4 * b.e1e2e3e4 + a.s * b.e1e2) * c.e2e4 - (a.e1e2 * b.e3e4 + a.e1e2e3e4 * b.s - a.e1e3 * b.e2e4 + a.e1e4 * b.e2e3 + a.e2e3 * b.e1e4 - a.e2e4 * b.e1e3 + a.e3e4 * b.e1e2 + a.s * b.e1e2e3e4) * c.e2e3 + (a.e1e2 * b.e2e3 + a.e1e2e3e4 * b.e2e4 + a.e1e3 * b.s - a.e1e4 * b.e3e4 - a.e2e3 * b.e1e2 + a.e2e4 * b.e1e2e3e4 + a.e3e4 * b.e1e4 + a.s * b.e1e3) * c.e3e4 + (a.e1e2 * b.e2e4 - a.e1e2e3e4 * b.e2e3 + a.e1e3 * b.e3e4 + a.e1e4 * b.s - a.e2e3 * b.e1e2e3e4 - a.e2e4 * b.e1e2 - a.e3e4 * b.e1e3 + a.s * b.e1e4) * c.s - (-(a.e1e2 * b.e1e3) - a.e1e2e3e4 * b.e1e4 + a.e1e3 * b.e1e2 - a.e1e4 * b.e1e2e3e4 + a.e2e3 * b.s - a.e2e4 * b.e3e4 + a.e3e4 * b.e2e4 + a.s * b.e2e3) * c.e1e2e3e4 - (-(a.e1e2 * b.e1e4) + a.e1e2e3e4 * b.e1e3 + a.e1e3 * b.e1e2e3e4 + a.e1e4 * b.e1e2 + a.e2e3 * b.e3e4 + a.e2e4 * b.s - a.e3e4 * b.e2e3 + a.s * b.e2e4) * c.e1e2 - (-(a.e1e2 * b.e1e2e3e4) - a.e1e2e3e4 * b.e1e2 - a.e1e3 * b.e1e4 + a.e1e4 * b.e1e3 - a.e2e3 * b.e2e4 + a.e2e4 * b.e2e3 + a.e3e4 * b.s + a.s * b.e3e4) * c.e1e3 + (-(a.e1e2 * b.e1e2) + a.e1e2e3e4 * b.e1e2e3e4 - a.e1e3 * b.e1e3 - a.e1e4 * b.e1e4 - a.e2e3 * b.e2e3 - a.e2e4 * b.e2e4 - a.e3e4 * b.e3e4 + a.s * b.s) * c.e1e4);
    assert(r.e1e4 == a.e1e2 * (-(b.e1e2 * c.e1e4) + b.e1e2e3e4 * c.e1e3 + b.e1e3 * c.e1e2e3e4 + b.e1e4 * c.e1e2 + b.e2e3 * c.e3e4 + b.e2e4 * c.s - b.e3e4 * c.e2e3 + b.s * c.e2e4) - a.e1e2e3e4 * (-(b.e1e2 * c.e1e3) - b.e1e2e3e4 * c.e1e4 + b.e1e3 * c.e1e2 - b.e1e4 * c.e1e2e3e4 + b.e2e3 * c.s - b.e2e4 * c.e3e4 + b.e3e4 * c.e2e4 + b.s * c.e2e3) + a.e1e3 * (-(b.e1e2 * c.e1e2e3e4) - b.e1e2e3e4 * c.e1e2 - b.e1e3 * c.e1e4 + b.e1e4 * c.e1e3 - b.e2e3 * c.e2e4 + b.e2e4 * c.e2e3 + b.e3e4 * c.s + b.s * c.e3e4) + a.e1e4 * (-(b.e1e2 * c.e1e2) + b.e1e2e3e4 * c.e1e2e3e4 - b.e1e3 * c.e1e3 - b.e1e4 * c.e1e4 - b.e2e3 * c.e2e3 - b.e2e4 * c.e2e4 - b.e3e4 * c.e3e4 + b.s * c.s) - a.e2e3 * (b.e1e2 * c.e3e4 + b.e1e2e3e4 * c.s - b.e1e3 * c.e2e4 + b.e1e4 * c.e2e3 + b.e2e3 * c.e1e4 - b.e2e4 * c.e1e3 + b.e3e4 * c.e1e2 + b.s * c.e1e2e3e4) - a.e2e4 * (b.e1e2 * c.s - b.e1e2e3e4 * c.e3e4 - b.e1e3 * c.e2e3 - b.e1e4 * c.e2e4 + b.e2e3 * c.e1e3 + b.e2e4 * c.e1e4 - b.e3e4 * c.e1e2e3e4 + b.s * c.e1e2) - a.e3e4 * (b.e1e2 * c.e2e3 + b.e1e2e3e4 * c.e2e4 + b.e1e3 * c.s - b.e1e4 * c.e3e4 - b.e2e3 * c.e1e2 + b.e2e4 * c.e1e2e3e4 + b.e3e4 * c.e1e4 + b.s * c.e1e3) + a.s * (b.e1e2 * c.e2e4 - b.e1e2e3e4 * c.e2e3 + b.e1e3 * c.e3e4 + b.e1e4 * c.s - b.e2e3 * c.e1e2e3e4 - b.e2e4 * c.e1e2 - b.e3e4 * c.e1e3 + b.s * c.e1e4));
    scale_right_rotor_e1e2(a, b, c.e2e4);
    scale_right_rotor_e1e2e3e4(a, b, c.e2e3);
    scale_right_rotor_e1e3(a, b, c.e3e4);
    scale_right_rotor_e1e4(a, b, c.s);
    scale_right_rotor_e2e3(a, b, c.e1e2e3e4);
    scale_right_rotor_e2e4(a, b, c.e1e2);
    scale_right_rotor_e3e4(a, b, c.e1e3);
    scale_right_rotor_s(a, b, c.e1e4);
    scale_left_rotor_e2e4(b, c, a.e1e2);
    scale_left_rotor_e2e3(b, c, a.e1e2e3e4);
    scale_left_rotor_e3e4(b, c, a.e1e3);
    scale_left_rotor_s(b, c, a.e1e4);
    scale_left_rotor_e1e2e3e4(b, c, a.e2e3);
    scale_left_rotor_e1e2(b, c, a.e2e4);
    scale_left_rotor_e1e3(b, c, a.e3e4);
    scale_left_rotor_e1e4(b, c, a.s);
    assert(l.e1e4 == -((a.e1e2 * b.e1e2) * c.e1e4) + (a.e1e2 * b.e1e2e3e4) * c.e1e3 + (a.e1e2 * b.e1e3) * c.e1e2e3e4 + (a.e1e2 * b.e1e4) * c.e1e2 + (a.e1e2 * b.e2e3) * c.e3e4 + (a.e1e2 * b.e2e4) * c.s - (a.e1e2 * b.e3e4) * c.e2e3 + (a.e1e2 * b.s) * c.e2e4 + (a.e1e2e3e4 * b.e1e2) * c.e1e3 + (a.e1e2e3e4 * b.e1e2e3e4) * c.e1e4 - (a.e1e2e3e4 * b.e1e3) * c.e1e2 + (a.e1e2e3e4 * b.e1e4) * c.e1e2e3e4 - (a.e1e2e3e4 * b.e2e3) * c.s + (a.e1e2e3e4 * b.e2e4) * c.e3e4 - (a.e1e2e3e4 * b.e3e4) * c.e2e4 - (a.e1e2e3e4 * b.s) * c.e2e3 - (a.e1e3 * b.e1e2) * c.e1e2e3e4 - (a.e1e3 * b.e1e2e3e4) * c.e1e2 - (a.e1e3 * b.e1e3) * c.e1e4 + (a.e1e3 * b.e1e4) * c.e1e3 - (a.e1e3 * b.e2e3) * c.e2e4 + (a.e1e3 * b.e2e4) * c.e2e3 + (a.e1e3 * b.e3e4) * c.s + (a.e1e3 * b.s) * c.e3e4 - (a.e1e4 * b.e1e2) * c.e1e2 + (a.e1e4 * b.e1e2e3e4) * c.e1e2e3e4 - (a.e1e4 * b.e1e3) * c.e1e3 - (a.e1e4 * b.e1e4) * c.e1e4 - (a.e1e4 * b.e2e3) * c.e2e3 - (a.e1e4 * b.e2e4) * c.e2e4 - (a.e1e4 * b.e3e4) * c.e3e4 + (a.e1e4 * b.s) * c.s - (a.e2e3 * b.e1e2) * c.e3e4 - (a.e2e3 * b.e1e2e3e4) * c.s + (a.e2e3 * b.e1e3) * c.e2e4 - (a.e2e3 * b.e1e4) * c.e2e3 - (a.e2e3 * b.e2e3) * c.e1e4 + (a.e2e3 * b.e2e4) * c.e1e3 - (a.e2e3 * b.e3e4) * c.e1e2 - (a.e2e3 * b.s) * c.e1e2e3e4 - (a.e2e4 * b.e1e2) * c.s + (a.e2e4 * b.e1e2e3e4) * c.e3e4 + (a.e2e4 * b.e1e3) * c.e2e3 + (a.e2e4 * b.e1e4) * c.e2e4 - (a.e2e4 * b.e2e3) * c.e1e3 - (a.e2e4 * b.e2e4) * c.e1e4 + (a.e2e4 * b.e3e4) * c.e1e2e3e4 - (a.e2e4 * b.s) * c.e1e2 - (a.e3e4 * b.e1e2) * c.e2e3 - (a.e3e4 * b.e1e2e3e4) * c.e2e4 - (a.e3e4 * b.e1e3) * c.s + (a.e3e4 * b.e1e4) * c.e3e4 + (a.e3e4 * b.e2e3) * c.e1e2 - (a.e3e4 * b.e2e4) * c.e1e2e3e4 - (a.e3e4 * b.e3e4) * c.e1e4 - (a.e3e4 * b.s) * c.e1e3 + (a.s * b.e1e2) * c.e2e4 - (a.s * b.e1e2e3e4) * c.e2e3 + (a.s * b.e1e3) * c.e3e4 + (a.s * b.e1e4) * c.s - (a.s * b.e2e3) * c.e1e2e3e4 - (a.s * b.e2e4) * c.e1e2 - (a.s * b.e3e4) * c.e1e3 + (a.s * b.s) * c.e1e4);
    assert(r.e1e4 == -((a.e1e2 * b.e1e2) * c.e1e4) + (a.e1e2 * b.e1e2e3e4) * c.e1e3 + (a.e1e2 * b.e1e3) * c.e1e2e3e4 + (a.e1e2 * b.e1e4) * c.e1e2 + (a.e1e2 * b.e2e3) * c.e3e4 + (a.e1e2 * b.e2e4) * c.s - (a.e1e2 * b.e3e4) * c.e2e3 + (a.e1e2 * b.s) * c.e2e4 + (a.e1e2e3e4 * b.e1e2) * c.e1e3 + (a.e1e2e3e4 * b.e1e2e3e4) * c.e1e4 - (a.e1e2e3e4 * b.e1e3) * c.e1e2 + (a.e1e2e3e4 * b.e1e4) * c.e1e2e3e4 - (a.e1e2e3e4 * b.e2e3) * c.s + (a.e1e2e3e4 * b.e2e4) * c.e3e4 - (a.e1e2e3e4 * b.e3e4) * c.e2e4 - (a.e1e2e3e4 * b.s) * c.e2e3 - (a.e1e3 * b.e1e2) * c.e1e2e3e4 - (a.e1e3 * b.e1e2e3e4) * c.e1e2 - (a.e1e3 * b.e1e3) * c.e1e4 + (a.e1e3 * b.e1e4) * c.e1e3 - (a.e1e3 * b.e2e3) * c.e2e4 + (a.e1e3 * b.e2e4) * c.e2e3 + (a.e1e3 * b.e3e4) * c.s + (a.e1e3 * b.s) * c.e3e4 - (a.e1e4 * b.e1e2) * c.e1e2 + (a.e1e4 * b.e1e2e3e4) * c.e1e2e3e4 - (a.e1e4 * b.e1e3) * c.e1e3 - (a.e1e4 * b.e1e4) * c.e1e4 - (a.e1e4 * b.e2e3) * c.e2e3 - (a.e1e4 * b.e2e4) * c.e2e4 - (a.e1e4 * b.e3e4) * c.e3e4 + (a.e1e4 * b.s) * c.s - (a.e2e3 * b.e1e2) * c.e3e4 - (a.e2e3 * b.e1e2e3e4) * c.s + (a.e2e3 * b.e1e3) * c.e2e4 - (a.e2e3 * b.e1e4) * c.e2e3 - (a.e2e3 * b.e2e3) * c.e1e4 + (a.e2e3 * b.e2e4) * c.e1e3 - (a.e2e3 * b.e3e4) * c.e1e2 - (a.e2e3 * b.s) * c.e1e2e3e4 - (a.e2e4 * b.e1e2) * c.s + (a.e2e4 * b.e1e2e3e4) * c.e3e4 + (a.e2e4 * b.e1e3) * c.e2e3 + (a.e2e4 * b.e1e4) * c.e2e4 - (a.e2e4 * b.e2e3) * c.e1e3 - (a.e2e4 * b.e2e4) * c.e1e4 + (a.e2e4 * b.e3e4) * c.e1e2e3e4 - (a.e2e4 * b.s) * c.e1e2 - (a.e3e4 * b.e1e2) * c.e2e3 - (a.e3e4 * b.e1e2e3e4) * c.e2e4 - (a.e3e4 * b.e1e3) * c.s + (a.e3e4 * b.e1e4) * c.e3e4 + (a.e3e4 * b.e2e3) * c.e1e2 - (a.e3e4 * b.e2e4) * c.e1e2e3e4 - (a.e3e4 * b.e3e4) * c.e1e4 - (a.e3e4 * b.s) * c.e1e3 + (a.s * b.e1e2) * c.e2e4 - (a.s * b.e1e2e3e4) * c.e2e3 + (a.s * b.e1e3) * c.e3e4 + (a.s * b.e1e4) * c.s - (a.s * b.e2e3) * c.e1e2e3e4 - (a.s * b.e2e4) * c.e1e2 - (a.s * b.e3e4) * c.e1e3 + (a.s * b.s) * c.e1e4);
    assert(l.e2e3 == -((a.e1e2 * b.s - a.e1e2e3e4 * b.e3e4 - a.e1e3 * b.e2e3 - a.e1e4 * b.e2e4 + a.e2e3 * b.e1e3 + a.e2e4 * b.e1e4 - a.e3e4 * b.e1e2e3e4 + a.s * b.e1e2) * c.e1e3) - (a.e1e2 * b.e3e4 + a.e1e2e3e4 * b.s - a.e1e3 * b.e2e4 + a.e1e4 * b.e2e3 + a.e2e3 * b.e1e4 - a.e2e4 * b.e1e3 + a.e3e4 * b.e1e2 + a.s * b.e1e2e3e4) * c.e1e4 + (a.e1e2 * b.e2e3 + a.e1e2e3e4 * b.e2e4 + a.e1e3 * b.s - a.e1e4 * b.e3e4 - a.e2e3 * b.e1e2 + a.e2e4 * b.e1e2e3e4 + a.e3e4 * b.e1e4 + a.s * b.e1e3) * c.e1e2 - (a.e1e2 * b.e2e4 - a.e1e2e3e4 * b.e2e3 + a.e1e3 * b.e3e4 + a.e1e4 * b.s - a.e2e3 * b.e1e2e3e4 - a.e2e4 * b.e1e2 - a.e3e4 * b.e1e3 + a.s * b.e1e4) * c.e1e2e3e4 + (-(a.e1e2 * b.e1e3) - a.e1e2e3e4 * b.e1e4 + a.e1e3 * b.e1e2 - a.e1e4 * b.e1e2e3e4 + a.e2e3 * b.s - a.e2e4 * b.e3e4 + a.e3e4 * b.e2e4 + a.s * b.e2e3) * c.s - (-(a.e1e2 * b.e1e4) + a.e1e2e3e4 * b.e1e3 + a.e1e3 * b.e1e2e3e4 + a.e1e4 * b.e1e2 + a.e2e3 * b.e3e4 + a.e2e4 * b.s - a.e3e4 * b.e2e3 + a.s * b.e2e4) * c.e3e4 + (-(a.e1e2 * b.e1e2e3e4) - a.e1e2e3e4 * b.e1e2 - a.e1e3 * b.e1e4 + a.e1e4 * b.e1e3 - a.e2e3 * b.e2e4 + a.e2e4 * b.e2e3 + a.e3e4 * b.s + a.s * b.e3e4) * c.e2e4 + (-(a.e1e2 * b.e1e2) + a.e1e2e3e4 * b.e1e2e3e4 - a.e1e3 * b.e1e3 - a.e1e4 * b.e1e4 - a.e2e3 * b.e2e3 - a.e2e4 * b.e2e4 - a.e3e4 * b.e3e4 + a.s * b.s) * c.e2e3);
    assert(r.e2e3 == -(a.e1e2 * (b.e1e2 * c.e2e3 + b.e1e2e3e4 * c.e2e4 + b.e1e3 * c.s - b.e1e4 * c.e3e4 - b.e2e3 * c.e1e2 + b.e2e4 * c.e1e2e3e4 + b.e3e4 * c.e1e4 + b.s * c.e1e3)) - a.e1e2e3e4 * (b.e1e2 * c.e2e4 - b.e1e2e3e4 * c.e2e3 + b.e1e3 * c.e3e4 + b.e1e4 * c.s - b.e2e3 * c.e1e2e3e4 - b.e2e4 * c.e1e2 - b.e3e4 * c.e1e3 + b.s * c.e1e4) + a.e1e3 * (b.e1e2 * c.s - b.e1e2e3e4 * c.e3e4 - b.e1e3 * c.e2e3 - b.e1e4 * c.e2e4 + b.e2e3 * c.e1e3 + b.e2e4 * c.e1e4 - b.e3e4 * c.e1e2e3e4 + b.s * c.e1e2) - a.e1e4 * (b.e1e2 * c.e3e4 + b.e1e2e3e4 * c.s - b.e1e3 * c.e2e4 + b.e1e4 * c.e2e3 + b.e2e3 * c.e1e4 - b.e2e4 * c.e1e3 + b.e3e4 * c.e1e2 + b.s * c.e1e2e3e4) + a.e2e3 * (-(b.e1e2 * c.e1e2) + b.e1e2e3e4 * c.e1e2e3e4 - b.e1e3 * c.e1e3 - b.e1e4 * c.e1e4 - b.e2e3 * c.e2e3 - b.e2e4 * c.e2e4 - b.e3e4 * c.e3e4 + b.s * c.s) - a.e2e4 * (-(b.e1e2 * c.e1e2e3e4) - b.e1e2e3e4 * c.e1e2 - b.e1e3 * c.e1e4 + b.e1e4 * c.e1e3 - b.e2e3 * c.e2e4 + b.e2e4 * c.e2e3 + b.e3e4 * c.s + b.s * c.e3e4) + a.e3e4 * (-(b.e1e2 * c.e1e4) + b.e1e2e3e4 * c.e1e3 + b.e1e3 * c.e1e2e3e4 + b.e1e4 * c.e1e2 + b.e2e3 * c.e3e4 + b.e2e4 * c.s - b.e3e4 * c.e2e3 + b.s * c.e2e4) + a.s * (-(b.e1e2 * c.e1e3) - b.e1e2e3e4 * c.e1e4 + b.e1e3 * c.e1e2 - b.e1e4 * c.e1e2e3e4 + b.e2e3 * c.s - b.e2e4 * c.e3e4 + b.e3e4 * c.e2e4 + b.s * c.e2e3));
    scale_right_rotor_e1e2(a, b, c.e1e3);
    scale_right_rotor_e1e2e3e4(a, b, c.e1e4);
    scale_right_rotor_e1e3(a, b, c.e1e2);
    scale_right_rotor_e1e4(a, b, c.e1e2e3e4);
    scale_right_rotor_e2e3(a, b, c.s);
    scale_right_rotor_e2e4(a, b, c.e3e4);
    scale_right_rotor_e3e4(a, b, c.e2e4);
    scale_right_rotor_s(a, b, c.e2e3);
    scale_left_rotor_e1e3(b, c, a.e1e2);
    scale_left_rotor_e1e4(b, c, a.e1e2e3e4);
    scale_left_rotor_e1e2(b, c, a.e1e3);
    scale_left_rotor_e1e2e3e4(b, c, a.e1e4);
    scale_left_rotor_s(b, c, a.e2e3);
    scale_left_rotor_e3e4(b, c, a.e2e4);
    scale_left_rotor_e2e4(b, c, a.e3e4);
    scale_left_rotor_e2e3(b, c, a.s);
    assert(l.e2e3 == -((a.e1e2 * b.e1e2) * c.e2e3) - (a.e1e2 * b.e1e2e3e4) * c.e2e4 - (a.e1e2 * b.e1e3) * c.s + (a.e1e2 * b.e1e4) * c.e3e4 + (a.e1e2 * b.e2e3) * c.e1e2 - (a.e1e2 * b.e2e4) * c.e1e2e3e4 - (a.e1e2 * b.e3e4) * c.e1e4 - (a.e1e2 * b.s) * c.e1e3 - (a.e1e2e3e4 * b.e1e2) * c.e2e4 + (a.e1e2e3e4 * b.e1e2e3e4) * c.e2e3 - (a.e1e2e3e4 * b.e1e3) * c.e3e4 - (a.e1e2e3e4 * b.e1e4) * c.s + (a.e1e2e3e4 * b.e2e3) * c.e1e2e3e4 + (a.e1e2e3e4 * b.e2e4) * c.e1e2 + (a.e1e2e3e4 * b.e3e4) * c.e1e3 - (a.e1e2e3e4 * b.s) * c.e1e4 + (a.e1e3 * b.e1e2) * c.s - (a.e1e3 * b.e1e2e3e4) * c.e3e4 - (a.e1e3 * b.e1e3) * c.e2e3 - (a.e1e3 * b.e1e4) * c.e2e4 + (a.e1e3 * b.e2e3) * c.e1e3 + (a.e1e3 * b.e2e4) * c.e1e4 - (a.e1e3 * b.e3e4) * c.e1e2e3e4 + (a.e1e3 * b.s) * c.e1e2 - (a.e1e4 * b.e1e2) * c.e3e4 - (a.e1e4 * b.e1e2e3e4) * c.s + (a.e1e4 * b.e1e3) * c.e2e4 - (a.e1e4 * b.e1e4) * c.e2e3 - (a.e1e4 * b.e2e3) * c.e1e4 + (a.e1e4 * b.e2e4) * c.e1e3 - (a.e1e4 * b.e3e4) * c.e1e2 - (a.e1e4 * b.s) * c.e1e2e3e4 - (a.e2e3 * b.e1e2) * c.e1e2 + (a.e2e3 * b.e1e2e3e4) * c.e1e2e3e4 - (a.e2e3 * b.e1e3) * c.e1e3 - (a.e2e3 * b.e1e4) * c.e1e4 - (a.e2e3 * b.e2e3) * c.e2e3 - (a.e2e3 * b.e2e4) * c.e2e4 - (a.e2e3 * b.e3e4) * c.e3e4 + (a.e2e3 * b.s) * c.s + (a.e2e4 * b.e1e2) * c.e1e2e3e4 + (a.e2e4 * b.e1e2e3e4) * c.e1e2 + (a.e2e4 * b.e1e3) * c.e1e4 - (a.e2e4 * b.e1e4) * c.e1e3 + (a.e2e4 * b.e2e3) * c.e2e4 - (a.e2e4 * b.e2e4) * c.e2e3 - (a.e2e4 * b.e3e4) * c.s - (a.e2e4 * b.s) * c.e3e4 - (a.e3e4 * b.e1e2) * c.e1e4 + (a.e3e4 * b.e1e2e3e4) * c.e1e3 + (a.e3e4 * b.e1e3) * c.e1e2e3e4 + (a.e3e4 * b.e1e4) * c.e1e2 + (a.e3e4 * b.e2e3) * c.e3e4 + (a.e3e4 * b.e2e4) * c.s - (a.e3e4 * b.e3e4) * c.e2e3 + (a.e3e4 * b.s) * c.e2e4 - (a.s * b.e1e2) * c.e1e3 - (a.s * b.e1e2e3e4) * c.e1e4 + (a.s * b.e1e3) * c.e1e2 - (a.s * b.e1e4) * c.e1e2e3e4 + (a.s * b.e2e3) * c.s - (a.s * b.e2e4) * c.e3e4 + (a.s * b.e3e4) * c.e2e4 + (a.s * b.s) * c.e2e3);
    assert(r.e2e3 == -((a.e1e2 * b.e1e2) * c.e2e3) - (a.e1e2 * b.e1e2e3e4) * c.e2e4 - (a.e1e2 * b.e1e3) * c.s + (a.e1e2 * b.e1e4) * c.e3e4 + (a.e1e2 * b.e2e3) * c.e1e2 - (a.e1e2 * b.e2e4) * c.e1e2e3e4 - (a.e1e2 * b.e3e4) * c.e1e4 - (a.e1e2 * b.s) * c.e1e3 - (a.e1e2e3e4 * b.e1e2) * c.e2e4 + (a.e1e2e3e4 * b.e1e2e3e4) * c.e2e3 - (a.e1e2e3e4 * b.e1e3) * c.e3e4 - (a.e1e2e3e4 * b.e1e4) * c.s + (a.e1e2e3e4 * b.e2e3) * c.e1e2e3e4 + (a.e1e2e3e4 * b.e2e4) * c.e1e2 + (a.e1e2e3e4 * b.e3e4) * c.e1e3 - (a.e1e2e3e4 * b.s) * c.e1e4 + (a.e1e3 * b.e1e2) * c.s - (a.e1e3 * b.e1e2e3e4) * c.e3e4 - (a.e1e3 * b.e1e3) * c.e2e3 - (a.e1e3 * b.e1e4) * c.e2e4 + (a.e1e3 * b.e2e3) * c.e1e3 + (a.e1e3 * b.e2e4) * c.e1e4 - (a.e1e3 * b.e3e4) * c.e1e2e3e4 + (a.e1e3 * b.s) * c.e1e2 - (a.e1e4 * b.e1e2) * c.e3e4 - (a.e1e4 * b.e1e2e3e4) * c.s + (a.e1e4 * b.e1e3) * c.e2e4 - (a.e1e4 * b.e1e4) * c.e2e3 - (a.e1e4 * b.e2e3) * c.e1e4 + (a.e1e4 * b.e2e4) * c.e1e3 - (a.e1e4 * b.e3e4) * c.e1e2 - (a.e1e4 * b.s) * c.e1e2e3e4 - (a.e2e3 * b.e1e2) * c.e1e2 + (a.e2e3 * b.e1e2e3e4) * c.e1e2e3e4 - (a.e2e3 * b.e1e3) * c.e1e3 - (a.e2e3 * b.e1e4) * c.e1e4 - (a.e2e3 * b.e2e3) * c.e2e3 - (a.e2e3 * b.e2e4) * c.e2e4 - (a.e2e3 * b.e3e4) * c.e3e4 + (a.e2e3 * b.s) * c.s + (a.e2e4 * b.e1e2) * c.e1e2e3e4 + (a.e2e4 * b.e1e2e3e4) * c.e1e2 + (a.e2e4 * b.e1e3) * c.e1e4 - (a.e2e4 * b.e1e4) * c.e1e3 + (a.e2e4 * b.e2e3) * c.e2e4 - (a.e2e4 * b.e2e4) * c.e2e3 - (a.e2e4 * b.e3e4) * c.s - (a.e2e4 * b.s) * c.e3e4 - (a.e3e4 * b.e1e2) * c.e1e4 + (a.e3e4 * b.e1e2e3e4) * c.e1e3 + (a.e3e4 * b.e1e3) * c.e1e2e3e4 + (a.e3e4 * b.e1e4) * c.e1e2 + (a.e3e4 * b.e2e3) * c.e3e4 + (a.e3e4 * b.e2e4) * c.s - (a.e3e4 * b.e3e4) * c.e2e3 + (a.e3e4 * b.s) * c.e2e4 - (a.s * b.e1e2) * c.e1e3 - (a.s * b.e1e2e3e4) * c.e1e4 + (a.s * b.e1e3) * c.e1e2 - (a.s * b.e1e4) * c.e1e2e3e4 + (a.s * b.e2e3) * c.s - (a.s * b.e2e4) * c.e3e4 + (a.s * b.e3e4) * c.e2e4 + (a.s * b.s) * c.e2e3);
    assert(l.e2e4 == -((a.e1e2 * b.s - a.e1e2e3e4 * b.e3e4 - a.e1e3 * b.e2e3 - a.e1e4 * b.e2e4 + a.e2e3 * b.e1e3 + a.e2e4 * b.e1e4 - a.e3e4 * b.e1e2e3e4 + a.s * b.e1e2) * c.e1e4) + (a.e1e2 * b.e3e4 + a.e1e2e3e4 * b.s - a.e1e3 * b.e2e4 + a.e1e4 * b.e2e3 + a.e2e3 * b.e1e4 - a.e2e4 * b.e1e3 + a.e3e4 * b.e1e2 + a.s * b.e1e2e3e4) * c.e1e3 + (a.e1e2 * b.e2e3 + a.e1e2e3e4 * b.e2e4 + a.e1e3 * b.s - a.e1e4 * b.e3e4 - a.e2e3 * b.e1e2 + a.e2e4 * b.e1e2e3e4 + a.e3e4 * b.e1e4 + a.s * b.e1e3) * c.e1e2e3e4 + (a.e1e2 * b.e2e4 - a.e1e2e3e4 * b.e2e3 + a.e1e3 * b.e3e4 + a.e1e4 * b.s - a.e2e3 * b.e1e2e3e4 - a.e2e4 * b.e1e2 - a.e3e4 * b.e1e3 + a.s * b.e1e4) * c.e1e2 + (-(a.e1e2 * b.e1e3) - a.e1e2e3e4 * b.e1e4 + a.e1e3 * b.e1e2 - a.e1e4 * b.e1e2e3e4 + a.e2e3 * b.s - a.e2e4 * b.e3e4 + a.e3e4 * b.e2e4 + a.s * b.e2e3) * c.e3e4 + (-(a.e1e2 * b.e1e4) + a.e1e2e3e4 * b.e1e3 + a.e1e3 * b.e1e2e3e4 + a.e1e4 * b.e1e2 + a.e2e3 * b.e3e4 + a.e2e4 * b.s - a.e3e4 * b.e2e3 + a.s * b.e2e4) * c.s - (-(a.e1e2 * b.e1e2e3e4) - a.e1e2e3e4 * b.e1e2 - a.e1e3 * b.e1e4 + a.e1e4 * b.e1e3 - a.e2e3 * b.e2e4 + a.e2e4 * b.e2e3 + a.e3e4 * b.s + a.s * b.e3e4) * c.e2e3 + (-(a.e1e2 * b.e1e2) + a.e1e2e3e4 * b.e1e2e3e4 - a.e1e3 * b.e1e3 - a.e1e4 * b.e1e4 - a.e2e3 * b.e2e3 - a.e2e4 * b.e2e4 - a.e3e4 * b.e3e4 + a.s * b.s) * c.e2e4);
    assert(r.e2e4 == -(a.e1e2 * (b.e1e2 * c.e2e4 - b.e1e2e3e4 * c.e2e3 + b.e1e3 * c.e3e4 + b.e1e4 * c.s - b.e2e3 * c.e1e2e3e4 - b.e2e4 * c.e1e2 - b.e3e4 * c.e1e3 + b.s * c.e1e4)) + a.e1e2e3e4 * (b.e1e2 * c.e2e3 + b.e1e2e3e4 * c.e2e4 + b.e1e3 * c.s - b.e1e4 * c.e3e4 - b.e2e3 * c.e1e2 + b.e2e4 * c.e1e2e3e4 + b.e3e4 * c.e1e4 + b.s * c.e1e3) + a.e1e3 * (b.e1e2 * c.e3e4 + b.e1e2e3e4 * c.s - b.e1e3 * c.e2e4 + b.e1e4 * c.e2e3 + b.e2e3 * c.e1e4 - b.e2e4 * c.e1e3 + b.e3e4 * c.e1e2 + b.s * c.e1e2e3e4) + a.e1e4 * (b.e1e2 * c.s - b.e1e2e3e4 * c.e3e4 - b.e1e3 * c.e2e3 - b.e1e4 * c.e2e4 + b.e2e3 * c.e1e3 + b.e2e4 * c.e1e4 - b.e3e4 * c.e1e2e3e4 + b.s * c.e1e2) + a.e2e3 * (-(b.e1e2 * c.e1e2e3e4) - b.e1e2e3e4 * c.e1e2 - b.e1e3 * c.e1e4 + b.e1e4 * c.e1e3 - b.e2e3 * c.e2e4 + b.e2e4 * c.e2e3 + b.e3e4 * c.s + b.s * c.e3e4) + a.e2e4 * (-(b.e1e2 * c.e1e2) + b.e1e2e3e4 * c.e1e2e3e4 - b.e1e3 * c.e1e3 - b.e1e4 * c.e1e4 - b.e2e3 * c.e2e3 - b.e2e4 * c.e2e4 - b.e3e4 * c.e3e4 + b.s * c.s) - a.e3e4 * (-(b.e1e2 * c.e1e3) - b.e1e2e3e4 * c.e1e4 + b.e1e3 * c.e1e2 - b.e1e4 * c.e1e2e3e4 + b.e2e3 * c.s - b.e2e4 * c.e3e4 + b.e3e4 * c.e2e4 + b.s * c.e2e3) + a.s * (-(b.e1e2 * c.e1e4) + b.e1e2e3e4 * c.e1e3 + b.e1e3 * c.e1e2e3e4 + b.e1e4 * c.e1e2 + b.e2e3 * c.e3e4 + b.e2e4 * c.s - b.e3e4 * c.e2e3 + b.s * c.e2e4));
    scale_right_rotor_e1e2(a, b, c.e1e4);
    scale_right_rotor_e1e2e3e4(a, b, c.e1e3);
    scale_right_rotor_e1e3(a, b, c.e1e2e3e4);
    scale_right_rotor_e1e4(a, b, c.e1e2);
    scale_right_rotor_e2e3(a, b, c.e3e4);
    scale_right_rotor_e2e4(a, b, c.s);
    scale_right_rotor_e3e4(a, b, c.e2e3);
    scale_right_rotor_s(a, b, c.e2e4);
    scale_left_rotor_e1e4(b, c, a.e1e2);
    scale_left_rotor_e1e3(b, c, a.e1e2e3e4);
    scale_left_rotor_e1e2e3e4(b, c, a.e1e3);
    scale_left_rotor_e1e2(b, c, a.e1e4);
    scale_left_rotor_e3e4(b, c, a.e2e3);
    scale_left_rotor_s(b, c, a.e2e4);
    scale_left_rotor_e2e3(b, c, a.e3e4);
    scale_left_rotor_e2e4(b, c, a.s);
    assert(l.e2e4 == -((a.e1e2 * b.e1e2) * c.e2e4) + (a.e1e2 * b.e1e2e3e4) * c.e2e3 - (a.e1e2 * b.e1e3) * c.e3e4 - (a.e1e2 * b.e1e4) * c.s + (a.e1e2 * b.e2e3) * c.e1e2e3e4 + (a.e1e2 * b.e2e4) * c.e1e2 + (a.e1e2 * b.e3e4) * c.e1e3 - (a.e1e2 * b.s) * c.e1e4 + (a.e1e2e3e4 * b.e1e2) * c.e2e3 + (a.e1e2e3e4 * b.e1e2e3e4) * c.e2e4 + (a.e1e2e3e4 * b.e1e3) * c.s - (a.e1e2e3e4 * b.e1e4) * c.e3e4 - (a.e1e2e3e4 * b.e2e3) * c.e1e2 + (a.e1e2e3e4 * b.e2e4) * c.e1e2e3e4 + (a.e1e2e3e4 * b.e3e4) * c.e1e4 + (a.e1e2e3e4 * b.s) * c.e1e3 + (a.e1e3 * b.e1e2) * c.e3e4 + (a.e1e3 * b.e1e2e3e4) * c.s - (a.e1e3 * b.e1e3) * c.e2e4 + (a.e1e3 * b.e1e4) * c.e2e3 + (a.e1e3 * b.e2e3) * c.e1e4 - (a.e1e3 * b.e2e4) * c.e1e3 + (a.e1e3 * b.e3e4) * c.e1e2 + (a.e1e3 * b.s) * c.e1e2e3e4 + (a.e1e4 * b.e1e2) * c.s - (a.e1e4 * b.e1e2e3e4) * c.e3e4 - (a.e1e4 * b.e1e3) * c.e2e3 - (a.e1e4 * b.e1e4) * c.e2e4 + (a.e1e4 * b.e2e3) * c.e1e3 + (a.e1e4 * b.e2e4) * c.e1e4 - (a.e1e4 * b.e3e4) * c.e1e2e3e4 + (a.e1e4 * b.s) * c.e1e2 - (a.e2e3 * b.e1e2) * c.e1e2e3e4 - (a.e2e3 * b.e1e2e3e4) * c.e1e2 - (a.e2e3 * b.e1e3) * c.e1e4 + (a.e2e3 * b.e1e4) * c.e1e3 - (a.e2e3 * b.e2e3) * c.e2e4 + (a.e2e3 * b.e2e4) * c.e2e3 + (a.e2e3 * b.e3e4) * c.s + (a.e2e3 * b.s) * c.e3e4 - (a.e2e4 * b.e1e2) * c.e1e2 + (a.e2e4 * b.e1e2e3e4) * c.e1e2e3e4 - (a.e2e4 * b.e1e3) * c.e1e3 - (a.e2e4 * b.e1e4) * c.e1e4 - (a.e2e4 * b.e2e3) * c.e2e3 - (a.e2e4 * b.e2e4) * c.e2e4 - (a.e2e4 * b.e3e4) * c.e3e4 + (a.e2e4 * b.s) * c.s + (a.e3e4 * b.e1e2) * c.e1e3 + (a.e3e4 * b.e1e2e3e4) * c.e1e4 - (a.e3e4 * b.e1e3) * c.e1e2 + (a.e3e4 * b.e1e4) * c.e1e2e3e4 - (a.e3e4 * b.e2e3) * c.s + (a.e3e4 * b.e2e4) * c.e3e4 - (a.e3e4 * b.e3e4) * c.e2e4 - (a.e3e4 * b.s) * c.e2e3 - (a.s * b.e1e2) * c.e1e4 + (a.s * b.e1e2e3e4) * c.e1e3 + (a.s * b.e1e3) * c.e1e2e3e4 + (a.s * b.e1e4) * c.e1e2 + (a.s * b.e2e3) * c.e3e4 + (a.s * b.e2e4) * c.s - (a.s * b.e3e4) * c.e2e3 + (a.s * b.s) * c.e2e4);
    assert(r.e2e4 == -((a.e1e2 * b.e1e2) * c.e2e4) + (a.e1e2 * b.e1e2e3e4) * c.e2e3 - (a.e1e2 * b.e1e3) * c.e3e4 - (a.e1e2 * b.e1e4) * c.s + (a.e1e2 * b.e2e3) * c.e1e2e3e4 + (a.e1e2 * b.e2e4) * c.e1e2 + (a.e1e2 * b.e3e4) * c.e1e3 - (a.e1e2 * b.s) * c.e1e4 + (a.e1e2e3e4 * b.e1e2) * c.e2e3 + (a.e1e2e3e4 * b.e1e2e3e4) * c.e2e4 + (a.e1e2e3e4 * b.e1e3) * c.s - (a.e1e2e3e4 * b.e1e4) * c.e3e4 - (a.e1e2e3e4 * b.e2e3) * c.e1e2 + (a.e1e2e3e4 * b.e2e4) * c.e1e2e3e4 + (a.e1e2e3e4 * b.e3e4) * c.e1e4 + (a.e1e2e3e4 * b.s) * c.e1e3 + (a.e1e3 * b.e1e2) * c.e3e4 + (a.e1e3 * b.e1e2e3e4) * c.s - (a.e1e3 * b.e1e3) * c.e2e4 + (a.e1e3 * b.e1e4) * c.e2e3 + (a.e1e3 * b.e2e3) * c.e1e4 - (a.e1e3 * b.e2e4) * c.e1e3 + (a.e1e3 * b.e3e4) * c.e1e2 + (a.e1e3 * b.s) * c.e1e2e3e4 + (a.e1e4 * b.e1e2) * c.s - (a.e1e4 * b.e1e2e3e4) * c.e3e4 - (a.e1e4 * b.e1e3) * c.e2e3 - (a.e1e4 * b.e1e4) * c.e2e4 + (a.e1e4 * b.e2e3) * c.e1e3 + (a.e1e4 * b.e2e4) * c.e1e4 - (a.e1e4 * b.e3e4) * c.e1e2e3e4 + (a.e1e4 * b.s) * c.e1e2 - (a.e2e3 * b.e1e2) * c.e1e2e3e4 - (a.e2e3 * b.e1e2e3e4) * c.e1e2 - (a.e2e3 * b.e1e3) * c.e1e4 + (a.e2e3 * b.e1e4) * c.e1e3 - (a.e2e3 * b.e2e3) * c.e2e4 + (a.e2e3 * b.e2e4) * c.e2e3 + (a.e2e3 * b.e3e4) * c.s + (a.e2e3 * b.s) * c.e3e4 - (a.e2e4 * b.e1e2) * c.e1e2 + (a.e2e4 * b.e1e2e3e4) * c.e1e2e3e4 - (a.e2e4 * b.e1e3) * c.e1e3 - (a.e2e4 * b.e1e4) * c.e1e4 - (a.e2e4 * b.e2e3) * c.e2e3 - (a.e2e4 * b.e2e4) * c.e2e4 - (a.e2e4 * b.e3e4) * c.e3e4 + (a.e2e4 * b.s) * c.s + (a.e3e4 * b.e1e2) * c.e1e3 + (a.e3e4 * b.e1e2e3e4) * c.e1e4 - (a.e3e4 * b.e1e3) * c.e1e2 + (a.e3e4 * b.e1e4) * c.e1e2e3e4 - (a.e3e4 * b.e2e3) * c.s + (a.e3e4 * b.e2e4) * c.e3e4 - (a.e3e4 * b.e3e4) * c.e2e4 - (a.e3e4 * b.s) * c.e2e3 - (a.s * b.e1e2) * c.e1e4 + (a.s * b.e1e2e3e4) * c.e1e3 + (a.s * b.e1e3) * c.e1e2e3e4 + (a.s * b.e1e4) * c.e1e2 + (a.s * b.e2e3) * c.e3e4 + (a.s * b.e2e4) * c.s - (a.s * b.e3e4) * c.e2e3 + (a.s * b.s) * c.e2e4);
    assert(l.e3e4 == -((a.e1e2 * b.s - a.e1e2e3e4 * b.e3e4 - a.e1e3 * b.e2e3 - a.e1e4 * b.e2e4 + a.e2e3 * b.e1e3 + a.e2e4 * b.e1e4 - a.e3e4 * b.e1e2e3e4 + a.s * b.e1e2) * c.e1e2e3e4) - (a.e1e2 * b.e3e4 + a.e1e2e3e4 * b.s - a.e1e3 * b.e2e4 + a.e1e4 * b.e2e3 + a.e2e3 * b.e1e4 - a.e2e4 * b.e1e3 + a.e3e4 * b.e1e2 + a.s * b.e1e2e3e4) * c.e1e2 - (a.e1e2 * b.e2e3 + a.e1e2e3e4 * b.e2e4 + a.e1e3 * b.s - a.e1e4 * b.e3e4 - a.e2e3 * b.e1e2 + a.e2e4 * b.e1e2e3e4 + a.e3e4 * b.e1e4 + a.s * b.e1e3) * c.e1e4 + (a.e1e2 * b.e2e4 - a.e1e2e3e4 * b.e2e3 + a.e1e3 * b.e3e4 + a.e1e4 * b.s - a.e2e3 * b.e1e2e3e4 - a.e2e4 * b.e1e2 - a.e3e4 * b.e1e3 + a.s * b.e1e4) * c.e1e3 - (-(a.e1e2 * b.e1e3) - a.e1e2e3e4 * b.e1e4 + a.e1e3 * b.e1e2 - a.e1e4 * b.e1e2e3e4 + a.e2e3 * b.s - a.e2e4 * b.e3e4 + a.e3e4 * b.e2e4 + a.s * b.e2e3) * c.e2e4 + (-(a.e1e2 * b.e1e4) + a.e1e2e3e4 * b.e1e3 + a.e1e3 * b.e1e2e3e4 + a.e1e4 * b.e1e2 + a.e2e3 * b.e3e4 + a.e2e4 * b.s - a.e3e4 * b.e2e3 + a.s * b.e2e4) * c.e2e3 + (-(a.e1e2 * b.e1e2e3e4) - a.e1e2e3e4 * b.e1e2 - a.e1e3 * b.e1e4 + a.e1e4 * b.e1e3 - a.e2e3 * b.e2e4 + a.e2e4 * b.e2e3 + a.e3e4 * b.s + a.s * b.e3e4) * c.s + (-(a.e1e2 * b.e1e2) + a.e1e2e3e4 * b.e1e2e3e4 - a.e1e3 * b.e1e3 - a.e1e4 * b.e1e4 - a.e2e3 * b.e2e3 - a.e2e4 * b.e2e4 - a.e3e4 * b.e3e4 + a.s * b.s) * c.e3e4);
    assert(r.e3e4 == -(a.e1e2 * (b.e1e2 * c.e3e4 + b.e1e2e3e4 * c.s - b.e1e3 * c.e2e4 + b.e1e4 * c.e2e3 + b.e2e3 * c.e1e4 - b.e2e4 * c.e1e3 + b.e3e4 * c.e1e2 + b.s * c.e1e2e3e4)) - a.e1e2e3e4 * (b.e1e2 * c.s - b.e1e2e3e4 * c.e3e4 - b.e1e3 * c.e2e3 - b.e1e4 * c.e2e4 + b.e2e3 * c.e1e3 + b.e2e4 * c.e1e4 - b.e3e4 * c.e1e2e3e4 + b.s * c.e1e2) - a.e1e3 * (b.e1e2 * c.e2e4 - b.e1e2e3e4 * c.e2e3 + b.e1e3 * c.e3e4 + b.e1e4 * c.s - b.e2e3 * c.e1e2e3e4 - b.e2e4 * c.e1e2 - b.e3e4 * c.e1e3 + b.s * c.e1e4) + a.e1e4 * (b.e1e2 * c.e2e3 + b.e1e2e3e4 * c.e2e4 + b.e1e3 * c.s - b.e1e4 * c.e3e4 - b.e2e3 * c.e1e2 + b.e2e4 * c.e1e2e3e4 + b.e3e4 * c.e1e4 + b.s * c.e1e3) - a.e2e3 * (-(b.e1e2 * c.e1e4) + b.e1e2e3e4 * c.e1e3 + b.e1e3 * c.e1e2e3e4 + b.e1e4 * c.e1e2 + b.e2e3 * c.e3e4 + b.e2e4 * c.s - b.e3e4 * c.e2e3 + b.s * c.e2e4) + a.e2e4 * (-(b.e1e2 * c.e1e3) - b.e1e2e3e4 * c.e1e4 + b.e1e3 * c.e1e2 - b.e1e4 * c.e1e2e3e4 + b.e2e3 * c.s - b.e2e4 * c.e3e4 + b.e3e4 * c.e2e4 + b.s * c.e2e3) + a.e3e4 * (-(b.e1e2 * c.e1e2) + b.e1e2e3e4 * c.e1e2e3e4 - b.e1e3 * c.e1e3 - b.e1e4 * c.e1e4 - b.e2e3 * c.e2e3 - b.e2e4 * c.e2e4 - b.e3e4 * c.e3e4 + b.s * c.s) + a.s * (-(b.e1e2 * c.e1e2e3e4) - b.e1e2e3e4 * c.e1e2 - b.e1e3 * c.e1e4 + b.e1e4 * c.e1e3 - b.e2e3 * c.e2e4 + b.e2e4 * c.e2e3 + b.e3e4 * c.s + b.s * c.e3e4));
    scale_right_rotor_e1e2(a, b, c.e1e2e3e4);
    scale_right_rotor_e1e2e3e4(a, b, c.e1e2);
    scale_right_rotor_e1e3(a, b, c.e1e4);
    scale_right_rotor_e1e4(a, b, c.e1e3);
    scale_right_rotor_e2e3(a, b, c.e2e4);
    scale_right_rotor_e2e4(a, b, c.e2e3);
    scale_right_rotor_e3e4(a, b, c.s);
    scale_right_rotor_s(a, b, c.e3e4);
    scale_left_rotor_e1e2e3e4(b, c, a.e1e2);
    scale_left_rotor_e1e2(b, c, a.e1e2e3e4);
    scale_left_rotor_e1e4(b, c, a.e1e3);
    scale_left_rotor_e1e3(b, c, a.e1e4);
    scale_left_rotor_e2e4(b, c, a.e2e3);
    scale_left_rotor_e2e3(b, c, a.e2e4);
    scale_left_rotor_s(b, c, a.e3e4);
    scale_left_rotor_e3e4(b, c, a.s);
    assert(l.e3e4 == -((a.e1e2 * b.e1e2) * c.e3e4) - (a.e1e2 * b.e1e2e3e4) * c.s + (a.e1e2 * b.e1e3) * c.e2e4 - (a.e1e2 * b.e1e4) * c.e2e3 - (a.e1e2 * b.e2e3) * c.e1e4 + (a.e1e2 * b.e2e4) * c.e1e3 - (a.e1e2 * b.e3e4) * c.e1e2 - (a.e1e2 * b.s) * c.e1e2e3e4 - (a.e1e2e3e4 * b.e1e2) * c.s + (a.e1e2e3e4 * b.e1e2e3e4) * c.e3e4 + (a.e1e2e3e4 * b.e1e3) * c.e2e3 + (a.e1e2e3e4 * b.e1e4) * c.e2e4 - (a.e1e2e3e4 * b.e2e3) * c.e1e3 - (a.e1e2e3e4 * b.e2e4) * c.e1e4 + (a.e1e2e3e4 * b.e3e4) * c.e1e2e3e4 - (a.e1e2e3e4 * b.s) * c.e1e2 - (a.e1e3 * b.e1e2) * c.e2e4 + (a.e1e3 * b.e1e2e3e4) * c.e2e3 - (a.e1e3 * b.e1e3) * c.e3e4 - (a.e1e3 * b.e1e4) * c.s + (a.e1e3 * b.e2e3) * c.e1e2e3e4 + (a.e1e3 * b.e2e4) * c.e1e2 + (a.e1e3 * b.e3e4) * c.e1e3 - (a.e1e3 * b.s) * c.e1e4 + (a.e1e4 * b.e1e2) * c.e2e3 + (a.e1e4 * b.e1e2e3e4) * c.e2e4 + (a.e1e4 * b.e1e3) * c.s - (a.e1e4 * b.e1e4) * c.e3e4 - (a.e1e4 * b.e2e3) * c.e1e2 + (a.e1e4 * b.e2e4) * c.e1e2e3e4 + (a.e1e4 * b.e3e4) * c.e1e4 + (a.e1e4 * b.s) * c.e1e3 + (a.e2e3 * b.e1e2) * c.e1e4 - (a.e2e3 * b.e1e2e3e4) * c.e1e3 - (a.e2e3 * b.e1e3) * c.e1e2e3e4 - (a.e2e3 * b.e1e4) * c.e1e2 - (a.e2e3 * b.e2e3) * c.e3e4 - (a.e2e3 * b.e2e4) * c.s + (a.e2e3 * b.e3e4) * c.e2e3 - (a.e2e3 * b.s) * c.e2e4 - (a.e2e4 * b.e1e2) * c.e1e3 - (a.e2e4 * b.e1e2e3e4) * c.e1e4 + (a.e2e4 * b.e1e3) * c.e1e2 - (a.e2e4 * b.e1e4) * c.e1e2e3e4 + (a.e2e4 * b.e2e3) * c.s - (a.e2e4 * b.e2e4) * c.e3e4 + (a.e2e4 * b.e3e4) * c.e2e4 + (a.e2e4 * b.s) * c.e2e3 - (a.e3e4 * b.e1e2) * c.e1e2 + (a.e3e4 * b.e1e2e3e4) * c.e1e2e3e4 - (a.e3e4 * b.e1e3) * c.e1e3 - (a.e3e4 * b.e1e4) * c.e1e4 - (a.e3e4 * b.e2e3) * c.e2e3 - (a.e3e4 * b.e2e4) * c.e2e4 - (a.e3e4 * b.e3e4) * c.e3e4 + (a.e3e4 * b.s) * c.s - (a.s * b.e1e2) * c.e1e2e3e4 - (a.s * b.e1e2e3e4) * c.e1e2 - (a.s * b.e1e3) * c.e1e4 + (a.s * b.e1e4) * c.e1e3 - (a.s * b.e2e3) * c.e2e4 + (a.s * b.e2e4) * c.e2e3 + (a.s * b.e3e4) * c.s + (a.s * b.s) * c.e3e4);
    assert(r.e3e4 == -((a.e1e2 * b.e1e2) * c.e3e4) - (a.e1e2 * b.e1e2e3e4) * c.s + (a.e1e2 * b.e1e3) * c.e2e4 - (a.e1e2 * b.e1e4) * c.e2e3 - (a.e1e2 * b.e2e3) * c.e1e4 + (a.e1e2 * b.e2e4) * c.e1e3 - (a.e1e2 * b.e3e4) * c.e1e2 - (a.e1e2 * b.s) * c.e1e2e3e4 - (a.e1e2e3e4 * b.e1e2) * c.s + (a.e1e2e3e4 * b.e1e2e3e4) * c.e3e4 + (a.e1e2e3e4 * b.e1e3) * c.e2e3 + (a.e1e2e3e4 * b.e1e4) * c.e2e4 - (a.e1e2e3e4 * b.e2e3) * c.e1e3 - (a.e1e2e3e4 * b.e2e4) * c.e1e4 + (a.e1e2e3e4 * b.e3e4) * c.e1e2e3e4 - (a.e1e2e3e4 * b.s) * c.e1e2 - (a.e1e3 * b.e1e2) * c.e2e4 + (a.e1e3 * b.e1e2e3e4) * c.e2e3 - (a.e1e3 * b.e1e3) * c.e3e4 - (a.e1e3 * b.e1e4) * c.s + (a.e1e3 * b.e2e3) * c.e1e2e3e4 + (a.e1e3 * b.e2e4) * c.e1e2 + (a.e1e3 * b.e3e4) * c.e1e3 - (a.e1e3 * b.s) * c.e1e4 + (a.e1e4 * b.e1e2) * c.e2e3 + (a.e1e4 * b.e1e2e3e4) * c.e2e4 + (a.e1e4 * b.e1e3) * c.s - (a.e1e4 * b.e1e4) * c.e3e4 - (a.e1e4 * b.e2e3) * c.e1e2 + (a.e1e4 * b.e2e4) * c.e1e2e3e4 + (a.e1e4 * b.e3e4) * c.e1e4 + (a.e1e4 * b.s) * c.e1e3 + (a.e2e3 * b.e1e2) * c.e1e4 - (a.e2e3 * b.e1e2e3e4) * c.e1e3 - (a.e2e3 * b.e1e3) * c.e1e2e3e4 - (a.e2e3 * b.e1e4) * c.e1e2 - (a.e2e3 * b.e2e3) * c.e3e4 - (a.e2e3 * b.e2e4) * c.s + (a.e2e3 * b.e3e4) * c.e2e3 - (a.e2e3 * b.s) * c.e2e4 - (a.e2e4 * b.e1e2) * c.e1e3 - (a.e2e4 * b.e1e2e3e4) * c.e1e4 + (a.e2e4 * b.e1e3) * c.e1e2 - (a.e2e4 * b.e1e4) * c.e1e2e3e4 + (a.e2e4 * b.e2e3) * c.s - (a.e2e4 * b.e2e4) * c.e3e4 + (a.e2e4 * b.e3e4) * c.e2e4 + (a.e2e4 * b.s) * c.e2e3 - (a.e3e4 * b.e1e2) * c.e1e2 + (a.e3e4 * b.e1e2e3e4) * c.e1e2e3e4 - (a.e3e4 * b.e1e3) * c.e1e3 - (a.e3e4 * b.e1e4) * c.e1e4 - (a.e3e4 * b.e2e3) * c.e2e3 - (a.e3e4 * b.e2e4) * c.e2e4 - (a.e3e4 * b.e3e4) * c.e3e4 + (a.e3e4 * b.s) * c.s - (a.s * b.e1e2) * c.e1e2e3e4 - (a.s * b.e1e2e3e4) * c.e1e2 - (a.s * b.e1e3) * c.e1e4 + (a.s * b.e1e4) * c.e1e3 - (a.s * b.e2e3) * c.e2e4 + (a.s * b.e2e4) * c.e2e3 + (a.s * b.e3e4) * c.s + (a.s * b.s) * c.e3e4);
    assert(l.e1e2e3e4 == (a.e1e2 * b.s - a.e1e2e3e4 * b.e3e4 - a.e1e3 * b.e2e3 - a.e1e4 * b.e2e4 + a.e2e3 * b.e1e3 + a.e2e4 * b.e1e4 - a.e3e4 * b.e1e2e3e4 + a.s * b.e1e2) * c.e3e4 + (a.e1e2 * b.e3e4 + a.e1e2e3e4 * b.s - a.e1e3 * b.e2e4 + a.e1e4 * b.e2e3 + a.e2e3 * b.e1e4 - a.e2e4 * b.e1e3 + a.e3e4 * b.e1e2 + a.s * b.e1e2e3e4) * c.s - (a.e1e2 * b.e2e3 + a.e1e2e3e4 * b.e2e4 + a.e1e3 * b.s - a.e1e4 * b.e3e4 - a.e2e3 * b.e1e2 + a.e2e4 * b.e1e2e3e4 + a.e3e4 * b.e1e4 + a.s * b.e1e3) * c.e2e4 + (a.e1e2 * b.e2e4 - a.e1e2e3e4 * b.e2e3 + a.e1e3 * b.e3e4 + a.e1e4 * b.s - a.e2e3 * b.e1e2e3e4 - a.e2e4 * b.e1e2 - a.e3e4 * b.e1e3 + a.s * b.e1e4) * c.e2e3 + (-(a.e1e2 * b.e1e3) - a.e1e2e3e4 * b.e1e4 + a.e1e3 * b.e1e2 - a.e1e4 * b.e1e2e3e4 + a.e2e3 * b.s - a.e2e4 * b.e3e4 + a.e3e4 * b.e2e4 + a.s * b.e2e3) * c.e1e4 - (-(a.e1e2 * b.e1e4) + a.e1e2e3e4 * b.e1e3 + a.e1e3 * b.e1e2e3e4 + a.e1e4 * b.e1e2 + a.e2e3 * b.e3e4 + a.e2e4 * b.s - a.e3e4 * b.e2e3 + a.s * b.e2e4) * c.e1e3 + (-(a.e1e2 * b.e1e2e3e4) - a.e1e2e3e4 * b.e1e2 - a.e1e3 * b.e1e4 + a.e1e4 * b.e1e3 - a.e2e3 * b.e2e4 + a.e2e4 * b.e2e3 + a.e3e4 * b.s + a.s * b.e3e4) * c.e1e2 + (-(a.e1e2 * b.e1e2) + a.e1e2e3e4 * b.e1e2e3e4 - a.e1e3 * b.e1e3 - a.e1e4 * b.e1e4 - a.e2e3 * b.e2e3 - a.e2e4 * b.e2e4 - a.e3e4 * b.e3e4 + a.s * b.s) * c.e1e2e3e4);
    assert(r.e1e2e3e4 == a.e1e2 * (-(b.e1e2 * c.e1e2e3e4) - b.e1e2e3e4 * c.e1e2 - b.e1e3 * c.e1e4 + b.e1e4 * c.e1e3 - b.e2e3 * c.e2e4 + b.e2e4 * c.e2e3 + b.e3e4 * c.s + b.s * c.e3e4) + a.e1e2e3e4 * (-(b.e1e2 * c.e1e2) + b.e1e2e3e4 * c.e1e2e3e4 - b.e1e3 * c.e1e3 - b.e1e4 * c.e1e4 - b.e2e3 * c.e2e3 - b.e2e4 * c.e2e4 - b.e3e4 * c.e3e4 + b.s * c.s) - a.e1e3 * (-(b.e1e2 * c.e1e4) + b.e1e2e3e4 * c.e1e3 + b.e1e3 * c.e1e2e3e4 + b.e1e4 * c.e1e2 + b.e2e3 * c.e3e4 + b.e2e4 * c.s - b.e3e4 * c.e2e3 + b.s * c.e2e4) + a.e1e4 * (-(b.e1e2 * c.e1e3) - b.e1e2e3e4 * c.e1e4 + b.e1e3 * c.e1e2 - b.e1e4 * c.e1e2e3e4 + b.e2e3 * c.s - b.e2e4 * c.e3e4 + b.e3e4 * c.e2e4 + b.s * c.e2e3) + a.e2e3 * (b.e1e2 * c.e2e4 - b.e1e2e3e4 * c.e2e3 + b.e1e3 * c.e3e4 + b.e1e4 * c.s - b.e2e3 * c.e1e2e3e4 - b.e2e4 * c.e1e2 - b.e3e4 * c.e1e3 + b.s * c.e1e4) - a.e2e4 * (b.e1e2 * c.e2e3 + b.e1e2e3e4 * c.e2e4 + b.e1e3 * c.s - b.e1e4 * c.e3e4 - b.e2e3 * c.e1e2 + b.e2e4 * c.e1e2e3e4 + b.e3e4 * c.e1e4 + b.s * c.e1e3) + a.e3e4 * (b.e1e2 * c.s - b.e1e2e3e4 * c.e3e4 - b.e1e3 * c.e2e3 - b.e1e4 * c.e2e4 + b.e2e3 * c.e1e3 + b.e2e4 * c.e1e4 - b.e3e4 * c.e1e2e3e4 + b.s * c.e1e2) + a.s * (b.e1e2 * c.e3e4 + b.e1e2e3e4 * c.s - b.e1e3 * c.e2e4 + b.e1e4 * c.e2e3 + b.e2e3 * c.e1e4 - b.e2e4 * c.e1e3 + b.e3e4 * c.e1e2 + b.s * c.e1e2e3e4));
    scale_right_rotor_e1e2(a, b, c.e3e4);
    scale_right_rotor_e1e2e3e4(a, b, c.s);
    scale_right_rotor_e1e3(a, b, c.e2e4);
    scale_right_rotor_e1e4(a, b, c.e2e3);
    scale_right_rotor_e2e3(a, b, c.e1e4);
    scale_right_rotor_e2e4(a, b, c.e1e3);
    scale_right_rotor_e3e4(a, b, c.e1e2);
    scale_right_rotor_s(a, b, c.e1e2e3e4);
    scale_left_rotor_e3e4(b, c, a.e1e2);
    scale_left_rotor_s(b, c, a.e1e2e3e4);
    scale_left_rotor_e2e4(b, c, a.e1e3);
    scale_left_rotor_e2e3(b, c, a.e1e4);
    scale_left_rotor_e1e4(b, c, a.e2e3);
    scale_left_rotor_e1e3(b, c, a.e2e4);
    scale_left_rotor_e1e2(b, c, a.e3e4);
    scale_left_rotor_e1e2e3e4(b, c, a.s);
    assert(l.e1e2e3e4 == -((a.e1e2 * b.e1e2) * c.e1e2e3e4) - (a.e1e2 * b.e1e2e3e4) * c.e1e2 - (a.e1e2 * b.e1e3) * c.e1e4 + (a.e1e2 * b.e1e4) * c.e1e3 - (a.e1e2 * b.e2e3) * c.e2e4 + (a.e1e2 * b.e2e4) * c.e2e3 + (a.e1e2 * b.e3e4) * c.s + (a.e1e2 * b.s) * c.e3e4 - (a.e1e2e3e4 * b.e1e2) * c.e1e2 + (a.e1e2e3e4 * b.e1e2e3e4) * c.e1e2e3e4 - (a.e1e2e3e4 * b.e1e3) * c.e1e3 - (a.e1e2e3e4 * b.e1e4) * c.e1e4 - (a.e1e2e3e4 * b.e2e3) * c.e2e3 - (a.e1e2e3e4 * b.e2e4) * c.e2e4 - (a.e1e2e3e4 * b.e3e4) * c.e3e4 + (a.e1e2e3e4 * b.s) * c.s + (a.e1e3 * b.e1e2) * c.e1e4 - (a.e1e3 * b.e1e2e3e4) * c.e1e3 - (a.e1e3 * b.e1e3) * c.e1e2e3e4 - (a.e1e3 * b.e1e4) * c.e1e2 - (a.e1e3 * b.e2e3) * c.e3e4 - (a.e1e3 * b.e2e4) * c.s + (a.e1e3 * b.e3e4) * c.e2e3 - (a.e1e3 * b.s) * c.e2e4 - (a.e1e4 * b.e1e2) * c.e1e3 - (a.e1e4 * b.e1e2e3e4) * c.e1e4 + (a.e1e4 * b.e1e3) * c.e1e2 - (a.e1e4 * b.e1e4) * c.e1e2e3e4 + (a.e1e4 * b.e2e3) * c.s - (a.e1e4 * b.e2e4) * c.e3e4 + (a.e1e4 * b.e3e4) * c.e2e4 + (a.e1e4 * b.s) * c.e2e3 + (a.e2e3 * b.e1e2) * c.e2e4 - (a.e2e3 * b.e1e2e3e4) * c.e2e3 + (a.e2e3 * b.e1e3) * c.e3e4 + (a.e2e3 * b.e1e4) * c.s - (a.e2e3 * b.e2e3) * c.e1e2e3e4 - (a.e2e3 * b.e2e4) * c.e1e2 - (a.e2e3 * b.e3e4) * c.e1e3 + (a.e2e3 * b.s) * c.e1e4 - (a.e2e4 * b.e1e2) * c.e2e3 - (a.e2e4 * b.e1e2e3e4) * c.e2e4 - (a.e2e4 * b.e1e3) * c.s + (a.e2e4 * b.e1e4) * c.e3e4 + (a.e2e4 * b.e2e3) * c.e1e2 - (a.e2e4 * b.e2e4) * c.e1e2e3e4 - (a.e2e4 * b.e3e4) * c.e1e4 - (a.e2e4 * b.s) * c.e1e3 + (a.e3e4 * b.e1e2) * c.s - (a.e3e4 * b.e1e2e3e4) * c.e3e4 - (a.e3e4 * b.e1e3) * c.e2e3 - (a.e3e4 * b.e1e4) * c.e2e4 + (a.e3e4 * b.e2e3) * c.e1e3 + (a.e3e4 * b.e2e4) * c.e1e4 - (a.e3e4 * b.e3e4) * c.e1e2e3e4 + (a.e3e4 * b.s) * c.e1e2 + (a.s * b.e1e2) * c.e3e4 + (a.s * b.e1e2e3e4) * c.s - (a.s * b.e1e3) * c.e2e4 + (a.s * b.e1e4) * c.e2e3 + (a.s * b.e2e3) * c.e1e4 - (a.s * b.e2e4) * c.e1e3 + (a.s * b.e3e4) * c.e1e2 + (a.s * b.s) * c.e1e2e3e4);
    assert(r.e1e2e3e4 == -((a.e1e2 * b.e1e2) * c.e1e2e3e4) - (a.e1e2 * b.e1e2e3e4) * c.e1e2 - (a.e1e2 * b.e1e3) * c.e1e4 + (a.e1e2 * b.e1e4) * c.e1e3 - (a.e1e2 * b.e2e3) * c.e2e4 + (a.e1e2 * b.e2e4) * c.e2e3 + (a.e1e2 * b.e3e4) * c.s + (a.e1e2 * b.s) * c.e3e4 - (a.e1e2e3e4 * b.e1e2) * c.e1e2 + (a.e1e2e3e4 * b.e1e2e3e4) * c.e1e2e3e4 - (a.e1e2e3e4 * b.e1e3) * c.e1e3 - (a.e1e2e3e4 * b.e1e4) * c.e1e4 - (a.e1e2e3e4 * b.e2e3) * c.e2e3 - (a.e1e2e3e4 * b.e2e4) * c.e2e4 - (a.e1e2e3e4 * b.e3e4) * c.e3e4 + (a.e1e2e3e4 * b.s) * c.s + (a.e1e3 * b.e1e2) * c.e1e4 - (a.e1e3 * b.e1e2e3e4) * c.e1e3 - (a.e1e3 * b.e1e3) * c.e1e2e3e4 - (a.e1e3 * b.e1e4) * c.e1e2 - (a.e1e3 * b.e2e3) * c.e3e4 - (a.e1e3 * b.e2e4) * c.s + (a.e1e3 * b.e3e4) * c.e2e3 - (a.e1e3 * b.s) * c.e2e4 - (a.e1e4 * b.e1e2) * c.e1e3 - (a.e1e4 * b.e1e2e3e4) * c.e1e4 + (a.e1e4 * b.e1e3) * c.e1e2 - (a.e1e4 * b.e1e4) * c.e1e2e3e4 + (a.e1e4 * b.e2e3) * c.s - (a.e1e4 * b.e2e4) * c.e3e4 + (a.e1e4 * b.e3e4) * c.e2e4 + (a.e1e4 * b.s) * c.e2e3 + (a.e2e3 * b.e1e2) * c.e2e4 - (a.e2e3 * b.e1e2e3e4) * c.e2e3 + (a.e2e3 * b.e1e3) * c.e3e4 + (a.e2e3 * b.e1e4) * c.s - (a.e2e3 * b.e2e3) * c.e1e2e3e4 - (a.e2e3 * b.e2e4) * c.e1e2 - (a.e2e3 * b.e3e4) * c.e1e3 + (a.e2e3 * b.s) * c.e1e4 - (a.e2e4 * b.e1e2) * c.e2e3 - (a.e2e4 * b.e1e2e3e4) * c.e2e4 - (a.e2e4 * b.e1e3) * c.s + (a.e2e4 * b.e1e4) * c.e3e4 + (a.e2e4 * b.e2e3) * c.e1e2 - (a.e2e4 * b.e2e4) * c.e1e2e3e4 - (a.e2e4 * b.e3e4) * c.e1e4 - (a.e2e4 * b.s) * c.e1e3 + (a.e3e4 * b.e1e2) * c.s - (a.e3e4 * b.e1e2e3e4) * c.e3e4 - (a.e3e4 * b.e1e3) * c.e2e3 - (a.e3e4 * b.e1e4) * c.e2e4 + (a.e3e4 * b.e2e3) * c.e1e3 + (a.e3e4 * b.e2e4) * c.e1e4 - (a.e3e4 * b.e3e4) * c.e1e2e3e4 + (a.e3e4 * b.s) * c.e1e2 + (a.s * b.e1e2) * c.e3e4 + (a.s * b.e1e2e3e4) * c.s - (a.s * b.e1e3) * c.e2e4 + (a.s * b.e1e4) * c.e2e3 + (a.s * b.e2e3) * c.e1e4 - (a.s * b.e2e4) * c.e1e3 + (a.s * b.e3e4) * c.e1e2 + (a.s * b.s) * c.e1e2e3e4);
}

/// Reversal is an antihomomorphism of composition.
#[verifier::rlimit(100)]
pub proof fn lemma_rotor_reverse_antihomomorphism(a: RotorModel, b: RotorModel)
    ensures
        rotor_reverse(rotor_and_then(a, b)) == rotor_and_then(rotor_reverse(b), rotor_reverse(a)),
{
    let l = rotor_reverse(rotor_and_then(a, b));
    let r = rotor_and_then(rotor_reverse(b), rotor_reverse(a));
    lemma_mul_neg_both(b.e1e2, a.e1e2);
    lemma_mul_comm(b.e1e2e3e4, a.e1e2e3e4);
    lemma_mul_neg_both(b.e1e3, a.e1e3);
    lemma_mul_neg_both(b.e1e4, a.e1e4);
    lemma_mul_neg_both(b.e2e3, a.e2e3);
    lemma_mul_neg_both(b.e2e4, a.e2e4);
    lemma_mul_neg_both(b.e3e4, a.e3e4);
    lemma_mul_comm(b.s, a.s);
    lemma_mul_neg_left(b.e1e2, a.s);
    lemma_mul_neg_right(b.e1e2e3e4, a.e3e4);
    lemma_mul_neg_both(b.e1e3, a.e2e3);
    lemma_mul_neg_both(b.e1e4, a.e2e4);
    lemma_mul_neg_both(b.e2e3, a.e1e3);
    lemma_mul_neg_both(b.e2e4, a.e1e4);
    lemma_mul_neg_left(b.e3e4, a.e1e2e3e4);
    lemma_mul_neg_right(b.s, a.e1e2);
    lemma_mul_neg_both(b.e1e2, a.e2e3);
    lemma_mul_neg_right(b.e1e2e3e4, a.e2e4);
    lemma_mul_neg_left(b.e1e3, a.s);
    lemma_mul_neg_both(b.e1e4, a.e3e4);
    lemma_mul_neg_both(b.e2e3, a.e1e2);
    lemma_mul_neg_left(b.e2e4, a.e1e2e3e4);
    lemma_mul_neg_both(b.e3e4, a.e1e4);
    lemma_mul_neg_right(b.s, a.e1e3);
    lemma_mul_neg_both(b.e1e2, a.e2e4);
    lemma_mul_neg_right(b.e1e2e3e4, a.e2e3);
    lemma_mul_neg_both(b.e1e3, a.e3e4);
    lemma_mul_neg_left(b.e1e4, a.s);
    lemma_mul_neg_left(b.e2e3, a.e1e2e3e4);
    lemma_mul_neg_both(b.e2e4, a.e1e2);
    lemma_mul_neg_both(b.e3e4, a.e1e3);
    lemma_mul_neg_right(b.s, a.e1e4);
    lemma_mul_neg_both(b.e1e2, a.e1e3);
    lemma_mul_neg_right(b.e1e2e3e4, a.e1e4);
    lemma_mul_neg_both(b.e1e3, a.e1e2);
    lemma_mul_neg_left(b.e1e4, a.e1e2e3e4);
    lemma_mul_neg_left(b.e2e3, a.s);
    lemma_mul_neg_both(b.e2e4, a.e3e4);
    lemma_mul_neg_both(b.e3e4, a.e2e4);
    lemma_mul_neg_right(b.s, a.e2e3);
    lemma_mul_neg_both(b.e1e2, a.e1e4);
    lemma_mul_neg_right(b.e1e2e3e4, a.e1e3);
    lemma_mul_neg_left(b.e1e3, a.e1e2e3e4);
    lemma_mul_neg_both(b.e1e4, a.e1e2);
    lemma_mul_neg_both(b.e2e3, a.e3e4);
    lemma_mul_neg_left(b.e2e4, a.s);
    lemma_mul_neg_both(b.e3e4, a.e2e3);
    lemma_mul_neg_right(b.s, a.e2e4);
    lemma_mul_neg_left(b.e1e2, a.e1e2e3e4);
    lemma_mul_neg_right(b.e1e2e3e4, a.e1e2);
    lemma_mul_neg_both(b.e1e3, a.e1e4);
    lemma_mul_neg_both(b.e1e4, a.e1e3);
    lemma_mul_neg_both(b.e2e3, a.e2e4);
    lemma_mul_neg_both(b.e2e4, a.e2e3);
    lemma_mul_neg_left(b.e3e4, a.s);
    lemma_mul_neg_right(b.s, a.e3e4);
    lemma_mul_neg_both(b.e1e2, a.e3e4);
    lemma_mul_comm(b.e1e2e3e4, a.s);
    lemma_mul_neg_both(b.e1e3, a.e2e4);
    lemma_mul_neg_both(b.e1e4, a.e2e3);
    lemma_mul_neg_both(b.e2e3, a.e1e4);
    lemma_mul_neg_both(b.e2e4, a.e1e3);
    lemma_mul_neg_both(b.e3e4, a.e1e2);
    lemma_mul_comm(b.s, a.e1e2e3e4);
    assert(l.s == -(a.e1e2 * b.e1e2) + a.e1e2e3e4 * b.e1e2e3e4 - a.e1e3 * b.e1e3 - a.e1e4 * b.e1e4 - a.e2e3 * b.e2e3 - a.e2e4 * b.e2e4 - a.e3e4 * b.e3e4 + a.s * b.s);
    assert(r.s == -((-b.e1e2) * (-a.e1e2)) + b.e1e2e3e4 * a.e1e2e3e4 - (-b.e1e3) * (-a.e1e3) - (-b.e1e4) * (-a.e1e4) - (-b.e2e3) * (-a.e2e3) - (-b.e2e4) * (-a.e2e4) - (-b.e3e4) * (-a.e3e4) + b.s * a.s);
    assert(l.s == r.s);
    assert(l.e1e2 == -(a.e1e2 * b.s - a.e1e2e3e4 * b.e3e4 - a.e1e3 * b.e2e3 - a.e1e4 * b.e2e4 + a.e2e3 * b.e1e3 + a.e2e4 * b.e1e4 - a.e3e4 * b.e1e2e3e4 + a.s * b.e1e2));
    assert(r.e1e2 == (-b.e1e2) * a.s - b.e1e2e3e4 * (-a.e3e4) - (-b.e1e3) * (-a.e2e3) - (-b.e1e4) * (-a.e2e4) + (-b.e2e3) * (-a.e1e3) + (-b.e2e4) * (-a.e1e4) - (-b.e3e4) * a.e1e2e3e4 + b.s * (-a.e1e2));
    assert(l.e1e2 == r.e1e2);
    assert(l.e1e3 == -(a.e1e2 * b.e2e3 + a.e1e2e3e4 * b.e2e4 + a.e1e3 * b.s - a.e1e4 * b.e3e4 - a.e2e3 * b.e1e2 + a.e2e4 * b.e1e2e3e4 + a.e3e4 * b.e1e4 + a.s * b.e1e3));
    assert(r.e1e3 == (-b.e1e2) * (-a.e2e3) + b.e1e2e3e4 * (-a.e2e4) + (-b.e1e3) * a.s - (-b.e1e4) * (-a.e3e4) - (-b.e2e3) * (-a.e1e2) + (-b.e2e4) * a.e1e2e3e4 + (-b.e3e4) * (-a.e1e4) + b.s * (-a.e1e3));
    assert(l.e1e3 == r.e1e3);
    assert(l.e1e4 == -(a.e1e2 * b.e2e4 - a.e1e2e3e4 * b.e2e3 + a.e1e3 * b.e3e4 + a.e1e4 * b.s - a.e2e3 * b.e1e2e3e4 - a.e2e4 * b.e1e2 - a.e3e4 * b.e1e3 + a.s * b.e1e4));
    assert(r.e1e4 == (-b.e1e2) * (-a.e2e4) - b.e1e2e3e4 * (-a.e2e3) + (-b.e1e3) * (-a.e3e4) + (-b.e1e4) * a.s - (-b.e2e3) * a.e1e2e3e4 - (-b.e2e4) * (-a.e1e2) - (-b.e3e4) * (-a.e1e3) + b.s * (-a.e1e4));
    assert(l.e1e4 == r.e1e4);
    assert(l.e2e3 == -(-(a.e1e2 * b.e1e3) - a.e1e2e3e4 * b.e1e4 + a.e1e3 * b.e1e2 - a.e1e4 * b.e1e2e3e4 + a.e2e3 * b.s - a.e2e4 * b.e3e4 + a.e3e4 * b.e2e4 + a.s * b.e2e3));
    assert(r.e2e3 == -((-b.e1e2) * (-a.e1e3)) - b.e1e2e3e4 * (-a.e1e4) + (-b.e1e3) * (-a.e1e2) - (-b.e1e4) * a.e1e2e3e4 + (-b.e2e3) * a.s - (-b.e2e4) * (-a.e3e4) + (-b.e3e4) * (-a.e2e4) + b.s * (-a.e2e3));
    assert(l.e2e3 == r.e2e3);
    assert(l.e2e4 == -(-(a.e1e2 * b.e1e4) + a.e1e2e3e4 * b.e1e3 + a.e1e3 * b.e1e2e3e4 + a.e1e4 * b.e1e2 + a.e2e3 * b.e3e4 + a.e2e4 * b.s - a.e3e4 * b.e2e3 + a.s * b.e2e4));
    assert(r.e2e4 == -((-b.e1e2) * (-a.e1e4)) + b.e1e2e3e4 * (-a.e1e3) + (-b.e1e3) * a.e1e2e3e4 + (-b.e1e4) * (-a.e1e2) + (-b.e2e3) * (-a.e3e4) + (-b.e2e4) * a.s - (-b.e3e4) * (-a.e2e3) + b.s * (-a.e2e4));
    assert(l.e2e4 == r.e2e4);
    assert(l.e3e4 == -(-(a.e1e2 * b.e1e2e3e4) - a.e1e2e3e4 * b.e1e2 - a.e1e3 * b.e1e4 + a.e1e4 * b.e1e3 - a.e2e3 * b.e2e4 + a.e2e4 * b.e2e3 + a.e3e4 * b.s + a.s * b.e3e4));
    assert(r.e3e4 == -((-b.e1e2) * a.e1e2e3e4) - b.e1e2e3e4 * (-a.e1e2) - (-b.e1e3) * (-a.e1e4) + (-b.e1e4) * (-a.e1e3) - (-b.e2e3) * (-a.e2e4) + (-b.e2e4) * (-a.e2e3) + (-b.e3e4) * a.s + b.s * (-a.e3e4));
    assert(l.e3e4 == r.e3e4);
    assert(l.e1e2e3e4 == a.e1e2 * b.e3e4 + a.e1e2e3e4 * b.s - a.e1e3 * b.e2e4 + a.e1e4 * b.e2e3 + a.e2e3 * b.e1e4 - a.e2e4 * b.e1e3 + a.e3e4 * b.e1e2 + a.s * b.e1e2e3e4);
    assert(r.e1e2e3e4 == (-b.e1e2) * (-a.e3e4) + b.e1e2e3e4 * a.s - (-b.e1e3) * (-a.e2e4) + (-b.e1e4) * (-a.e2e3) + (-b.e2e3) * (-a.e1e4) - (-b.e2e4) * (-a.e1e3) + (-b.e3e4) * (-a.e1e2) + b.s * a.e1e2e3e4);
    assert(l.e1e2e3e4 == r.e1e2e3e4);
}

/// Distribute a scalar over one coefficient of the product `u * v`.
proof fn scale_right_transform_s(u: TransformModel, v: TransformModel, k: int)
    ensures
        (-(u.e1e2 * v.e1e2) + u.e1e2e3e4 * v.e1e2e3e4 - u.e1e3 * v.e1e3 - u.e1e4 * v.e1e4 - u.e2e3 * v.e2e3 - u.e2e4 * v.e2e4 - u.e3e4 * v.e3e4 + u.s * v.s) * k == -((u.e1e2 * v.e1e2) * k) + (u.e1e2e3e4 * v.e1e2e3e4) * k - (u.e1e3 * v.e1e3) * k - (u.e1e4 * v.e1e4) * k - (u.e2e3 * v.e2e3) * k - (u.e2e4 * v.e2e4) * k - (u.e3e4 * v.e3e4) * k + (u.s * v.s) * k,
{
    assert((-(u.e1e2 * v.e1e2) + u.e1e2e3e4 * v.e1e2e3e4 - u.e1e3 * v.e1e3 - u.e1e4 * v.e1e4 - u.e2e3 * v.e2e3 - u.e2e4 * v.e2e4 - u.e3e4 * v.e3e4 + u.s * v.s) * k == -((u.e1e2 * v.e1e2) * k) + (u.e1e2e3e4 * v.e1e2e3e4) * k - (u.e1e3 * v.e1e3) * k - (u.e1e4 * v.e1e4) * k - (u.e2e3 * v.e2e3) * k - (u.e2e4 * v.e2e4) * k - (u.e3e4 * v.e3e4) * k + (u.s * v.s) * k) by (nonlinear_arith);
}

/// Distribute a scalar over one coefficient of the product `u * v`.
proof fn scale_left_transform_s(u: TransformModel, v: TransformModel, k: int)
    ensures
        k * (-(u.e1e2 * v.e1e2) + u.e1e2e3e4 * v.e1e2e3e4 - u.e1e3 * v.e1e3 - u.e1e4 * v.e1e4 - u.e2e3 * v.e2e3 - u.e2e4 * v.e2e4 - u.e3e4 * v.e3e4 + u.s * v.s) == -(k * (u.e1e2 * v.e1e2)) + k * (u.e1e2e3e4 * v.e1e2e3e4) - k * (u.e1e3 * v.e1e3) - k * (u.e1e4 * v.e1e4) - k * (u.e2e3 * v.e2e3) - k * (u.e2e4 * v.e2e4) - k * (u.e3e4 * v.e3e4) + k * (u.s * v.s),
{
    assert(k * (-(u.e1e2 * v.e1e2) + u.e1e2e3e4 * v.e1e2e3e4 - u.e1e3 * v.e1e3 - u.e1e4 * v.e1e4 - u.e2e3 * v.e2e3 - u.e2e4 * v.e2e4 - u.e3e4 * v.e3e4 + u.s * v.s) == -(k * (u.e1e2 * v.e1e2)) + k * (u.e1e2e3e4 * v.e1e2e3e4) - k * (u.e1e3 * v.e1e3) - k * (u.e1e4 * v.e1e4) - k * (u.e2e3 * v.e2e3) - k * (u.e2e4 * v.e2e4) - k * (u.e3e4 * v.e3e4) + k * (u.s * v.s)) by (nonlinear_arith);
}

/// Distribute a scalar over one coefficient of the product `u * v`.
proof fn scale_right_transform_e0e1(u: TransformModel, v: TransformModel, k: int)
    ensures
        (u.e0e1 * v.s - u.e0e1e2e3 * v.e2e3 - u.e0e1e2e4 * v.e2e4 - u.e0e1e3e4 * v.e3e4 - u.e0e2 * v.e1e2 + u.e0e2e3e4 * v.e1e2e3e4 - u.e0e3 * v.e1e3 - u.e0e4 * v.e1e4 + u.e1e2 * v.e0e2 - u.e1e2e3e4 * v.e0e2e3e4 + u.e1e3 * v.e0e3 + u.e1e4 * v.e0e4 - u.e2e3 * v.e0e1e2e3 - u.e2e4 * v.e0e1e2e4 - u.e3e4 * v.e0e1e3e4 + u.s * v.e0e1) * k == (u.e0e1 * v.s) * k - (u.e0e1e2e3 * v.e2e3) * k - (u.e0e1e2e4 * v.e2e4) * k - (u.e0e1e3e4 * v.e3e4) * k - (u.e0e2 * v.e1e2) * k + (u.e0e2e3e4 * v.e1e2e3e4) * k - (u.e0e3 * v.e1e3) * k - (u.e0e4 * v.e1e4) * k + (u.e1e2 * v.e0e2) * k - (u.e1e2e3e4 * v.e0e2e3e4) * k + (u.e1e3 * v.e0e3) * k + (u.e1e4 * v.e0e4) * k - (u.e2e3 * v.e0e1e2e3) * k - (u.e2e4 * v.e0e1e2e4) * k - (u.e3e4 * v.e0e1e3e4) * k + (u.s * v.e0e1) * k,
{
    assert((u.e0e1 * v.s - u.e0e1e2e3 * v.e2e3 - u.e0e1e2e4 * v.e2e4 - u.e0e1e3e4 * v.e3e4 - u.e0e2 * v.e1e2 + u.e0e2e3e4 * v.e1e2e3e4 - u.e0e3 * v.e1e3 - u.e0e4 * v.e1e4 + u.e1e2 * v.e0e2 - u.e1e2e3e4 * v.e0e2e3e4 + u.e1e3 * v.e0e3 + u.e1e4 * v.e0e4 - u.e2e3 * v.e0e1e2e3 - u.e2e4 * v.e0e1e2e4 - u.e3e4 * v.e0e1e3e4 + u.s * v.e0e1) * k == (u.e0e1 * v.s) * k - (u.e0e1e2e3 * v.e2e3) * k - (u.e0e1e2e4 * v.e2e4) * k - (u.e0e1e3e4 * v.e3e4) * k - (u.e0e2 * v.e1e2) * k + (u.e0e2e3e4 * v.e1e2e3e4) * k - (u.e0e3 * v.e1e3) * k - (u.e0e4 * v.e1e4) * k + (u.e1e2 * v.e0e2) * k - (u.e1e2e3e4 * v.e0e2e3e4) * k + (u.e1e3 * v.e0e3) * k + (u.e1e4 * v.e0e4) * k - (u.e2e3 * v.e0e1e2e3) * k - (u.e2e4 * v.e0e1e2e4) * k - (u.e3e4 * v.e0e1e3e4) * k + (u.s * v.e0e1) * k) by (nonlinear_arith);
}

/// Distribute a scalar over one coefficient of the product `u * v`.
proof fn scale_left_transform_e0e1(u: TransformModel, v: TransformModel, k: int)
    ensures
        k * (u.e0e1 * v.s - u.e0e1e2e3 * v.e2e3 - u.e0e1e2e4 * v.e2e4 - u.e0e1e3e4 * v.e3e4 - u.e0e2 * v.e1e2 + u.e0e2e3e4 * v.e1e2e3e4 - u.e0e3 * v.e1e3 - u.e0e4 * v.e1e4 + u.e1e2 * v.e0e2 - u.e1e2e3e4 * v.e0e2e3e4 + u.e1e3 * v.e0e3 + u.e1e4 * v.e0e4 - u.e2e3 * v.e0e1e2e3 - u.e2e4 * v.e0e1e2e4 - u.e3e4 * v.e0e1e3e4 + u.s * v.e0e1) == k * (u.e0e1 * v.s) - k * (u.e0e1e2e3 * v.e2e3) - k * (u.e0e1e2e4 * v.e2e4) - k * (u.e0e1e3e4 * v.e3e4) - k * (u.e0e2 * v.e1e2) + k * (u.e0e2e3e4 * v.e1e2e3e4) - k * (u.e0e3 * v.e1e3) - k * (u.e0e4 * v.e1e4) + k * (u.e1e2 * v.e0e2) - k * (u.e1e2e3e4 * v.e0e2e3e4) + k * (u.e1e3 * v.e0e3) + k * (u.e1e4 * v.e0e4) - k * (u.e2e3 * v.e0e1e2e3) - k * (u.e2e4 * v.e0e1e2e4) - k * (u.e3e4 * v.e0e1e3e4) + k * (u.s * v.e0e1),
{
    assert(k * (u.e0e1 * v.s - u.e0e1e2e3 * v.e2e3 - u.e0e1e2e4 * v.e2e4 - u.e0e1e3e4 * v.e3e4 - u.e0e2 * v.e1e2 + u.e0e2e3e4 * v.e1e2e3e4 - u.e0e3 * v.e1e3 - u.e0e4 * v.e1e4 + u.e1e2 * v.e0e2 - u.e1e2e3e4 * v.e0e2e3e4 + u.e1e3 * v.e0e3 + u.e1e4 * v.e0e4 - u.e2e3 * v.e0e1e2e3 - u.e2e4 * v.e0e1e2e4 - u.e3e4 * v.e0e1e3e4 + u.s * v.e0e1) == k * (u.e0e1 * v.s) - k * (u.e0e1e2e3 * v.e2e3) - k * (u.e0e1e2e4 * v.e2e4) - k * (u.e0e1e3e4 * v.e3e4) - k * (u.e0e2 * v.e1e2) + k * (u.e0e2e3e4 * v.e1e2e3e4) - k * (u.e0e3 * v.e1e3) - k * (u.e0e4 * v.e1e4) + k * (u.e1e2 * v.e0e2) - k * (u.e1e2e3e4 * v.e0e2e3e4) + k * (u.e1e3 * v.e0e3) + k * (u.e1e4 * v.e0e4) - k * (u.e2e3 * v.e0e1e2e3) - k * (u.e2e4 * v.e0e1e2e4) - k * (u.e3e4 * v.e0e1e3e4) + k * (u.s * v.e0e1)) by (nonlinear_arith);
}

/// Distribute a scalar over one coefficient of the product `u * v`.
proof fn scale_right_transform_e0e2(u: TransformModel, v: TransformModel, k: int)
    ensures
        (u.e0e1 * v.e1e2 + u.e0e1e2e3 * v.e1e3 + u.e0e1e2e4 * v.e1e4 - u.e0e1e3e4 * v.e1e2e3e4 + u.e0e2 * v.s - u.e0e2e3e4 * v.e3e4 - u.e0e3 * v.e2e3 - u.e0e4 * v.e2e4 - u.e1e2 * v.e0e1 + u.e1e2e3e4 * v.e0e1e3e4 + u.e1e3 * v.e0e1e2e3 + u.e1e4 * v.e0e1e2e4 + u.e2e3 * v.e0e3 + u.e2e4 * v.e0e4 - u.e3e4 * v.e0e2e3e4 + u.s * v.e0e2) * k == (u.e0e1 * v.e1e2) * k + (u.e0e1e2e3 * v.e1e3) * k + (u.e0e1e2e4 * v.e1e4) * k - (u.e0e1e3e4 * v.e1e2e3e4) * k + (u.e0e2 * v.s) * k - (u.e0e2e3e4 * v.e3e4) * k - (u.e0e3 * v.e2e3) * k - (u.e0e4 * v.e2e4) * k - (u.e1e2 * v.e0e1) * k + (u.e1e2e3e4 * v.e0e1e3e4) * k + (u.e1e3 * v.e0e1e2e3) * k + (u.e1e4 * v.e0e1e2e4) * k + (u.e2e3 * v.e0e3) * k + (u.e2e4 * v.e0e4) * k - (u.e3e4 * v.e0e2e3e4) * k + (u.s * v.e0e2) * k,
{
    assert((u.e0e1 * v.e1e2 + u.e0e1e2e3 * v.e1e3 + u.e0e1e2e4 * v.e1e4 - u.e0e1e3e4 * v.e1e2e3e4 + u.e0e2 * v.s - u.e0e2e3e4 * v.e3e4 - u.e0e3 * v.e2e3 - u.e0e4 * v.e2e4 - u.e1e2 * v.e0e1 + u.e1e2e3e4 * v.e0e1e3e4 + u.e1e3 * v.e0e1e2e3 + u.e1e4 * v.e0e1e2e4 + u.e2e3 * v.e0e3 + u.e2e4 * v.e0e4 - u.e3e4 * v.e0e2e3e4 + u.s * v.e0e2) * k == (u.e0e1 * v.e1e2) * k + (u.e0e1e2e3 * v.e1e3) * k + (u.e0e1e2e4 * v.e1e4) * k - (u.e0e1e3e4 * v.e1e2e3e4) * k + (u.e0e2 * v.s) * k - (u.e0e2e3e4 * v.e3e4) * k - (u.e0e3 * v.e2e3) * k - (u.e0e4 * v.e2e4) * k - (u.e1e2 * v.e0e1) * k + (u.e1e2e3e4 * v.e0e1e3e4) * k + (u.e1e3 * v.e0e1e2e3) * k + (u.e1e4 * v.e0e1e2e4) * k + (u.e2e3 * v.e0e3) * k + (u.e2e4 * v.e0e4) * k - (u.e3e4 * v.e0e2e3e4) * k + (u.s * v.e0e2) * k) by (nonlinear_arith);
}

/// Distribute a scalar over one coefficient of the product `u * v`.
proof fn scale_left_transform_e0e2(u: TransformModel, v: TransformModel, k: int)
    ensures
        k * (u.e0e1 * v.e1e2 + u.e0e1e2e3 * v.e1e3 + u.e0e1e2e4 * v.e1e4 - u.e0e1e3e4 * v.e1e2e3e4 + u.e0e2 * v.s - u.e0e2e3e4 * v.e3e4 - u.e0e3 * v.e2e3 - u.e0e4 * v.e2e4 - u.e1e2 * v.e0e1 + u.e1e2e3e4 * v.e0e1e3e4 + u.e1e3 * v.e0e1e2e3 + u.e1e4 * v.e0e1e2e4 + u.e2e3 * v.e0e3 + u.e2e4 * v.e0e4 - u.e3e4 * v.e0e2e3e4 + u.s * v.e0e2) == k * (u.e0e1 * v.e1e2) + k * (u.e0e1e2e3 * v.e1e3) + k * (u.e0e1e2e4 * v.e1e4) - k * (u.e0e1e3e4 * v.e1e2e3e4) + k * (u.e0e2 * v.s) - k * (u.e0e2e3e4 * v.e3e4) - k * (u.e0e3 * v.e2e3) - k * (u.e0e4 * v.e2e4) - k * (u.e1e2 * v.e0e1) + k * (u.e1e2e3e4 * v.e0e1e3e4) + k * (u.e1e3 * v.e0e1e2e3) + k * (u.e1e4 * v.e0e1e2e4) + k * (u.e2e3 * v.e0e3) + k * (u.e2e4 * v.e0e4) - k * (u.e3e4 * v.e0e2e3e4) + k * (u.s * v.e0e2),
{
    assert(k * (u.e0e1 * v.e1e2 + u.e0e1e2e3 * v.e1e3 + u.e0e1e2e4 * v.e1e4 - u.e0e1e3e4 * v.e1e2e3e4 + u.e0e2 * v.s - u.e0e2e3e4 * v.e3e4 - u.e0e3 * v.e2e3 - u.e0e4 * v.e2e4 - u.e1e2 * v.e0e1 + u.e1e2e3e4 * v.e0e1e3e4 + u.e1e3 * v.e0e1e2e3 + u.e1e4 * v.e0e1e2e4 + u.e2e3 * v.e0e3 + u.e2e4 * v.e0e4 - u.e3e4 * v.e0e2e3e4 + u.s * v.e0e2) == k * (u.e0e1 * v.e1e2) + k * (u.e0e1e2e3 * v.e1e3) + k * (u.e0e1e2e4 * v.e1e4) - k * (u.e0e1e3e4 * v.e1e2e3e4) + k * (u.e0e2 * v.s) - k * (u.e0e2e3e4 * v.e3e4) - k * (u.e0e3 * v.e2e3) - k * (u.e0e4 * v.e2e4) - k * (u.e1e2 * v.e0e1) + k * (u.e1e2e3e4 * v.e0e1e3e4) + k * (u.e1e3 * v.e0e1e2e3) + k * (u.e1e4 * v.e0e1e2e4) + k * (u.e2e3 * v.e0e3) + k * (u.e2e4 * v.e0e4) - k * (u.e3e4 * v.e0e2e3e4) + k * (u.s * v.e0e2)) by (nonlinear_arith);
}

/// Distribute a scalar over one coefficient of the product `u * v`.
proof fn scale_right_transform_e0e3(u: TransformModel, v: TransformModel, k: int)
    ensures
        (u.e0e1 * v.e1e3 - u.e0e1e2e3 * v.e1e2 + u.e0e1e2e4 * v.e1e2e3e4 + u.e0e1e3e4 * v.e1e4 + u.e0e2 * v.e2e3 + u.e0e2e3e4 * v.e2e4 + u.e0e3 * v.s - u.e0e4 * v.e3e4 - u.e1e2 * v.e0e1e2e3 - u.e1e2e3e4 * v.e0e1e2e4 - u.e1e3 * v.e0e1 + u.e1e4 * v.e0e1e3e4 - u.e2e3 * v.e0e2 + u.e2e4 * v.e0e2e3e4 + u.e3e4 * v.e0e4 + u.s * v.e0e3) * k == (u.e0e1 * v.e1e3) * k - (u.e0e1e2e3 * v.e1e2) * k + (u.e0e1e2e4 * v.e1e2e3e4) * k + (u.e0e1e3e4 * v.e1e4) * k + (u.e0e2 * v.e2e3) * k + (u.e0e2e3e4 * v.e2e4) * k + (u.e0e3 * v.s) * k - (u.e0e4 * v.e3e4) * k - (u.e1e2 * v.e0e1e2e3) * k - (u.e1e2e3e4 * v.e0e1e2e4) * k - (u.e1e3 * v.e0e1) * k + (u.e1e4 * v.e0e1e3e4) * k - (u.e2e3 * v.e0e2) * k + (u.e2e4 * v.e0e2e3e4) * k + (u.e3e4 * v.e0e4) * k + (u.s * v.e0e3) * k,
{
    assert((u.e0e1 * v.e1e3 - u.e0e1e2e3 * v.e1e2 + u.e0e1e2e4 * v.e1e2e3e4 + u.e0e1e3e4 * v.e1e4 + u.e0e2 * v.e2e3 + u.e0e2e3e4 * v.e2e4 + u.e0e3 * v.s - u.e0e4 * v.e3e4 - u.e1e2 * v.e0e1e2e3 - u.e1e2e3e4 * v.e0e1e2e4 - u.e1e3 * v.e0e1 + u.e1e4 * v.e0e1e3e4 - u.e2e3 * v.e0e2 + u.e2e4 * v.e0e2e3e4 + u.e3e4 * v.e0e4 + u.s * v.e0e3) * k == (u.e0e1 * v.e1e3) * k - (u.e0e1e2e3 * v.e1e2) * k + (u.e0e1e2e4 * v.e1e2e3e4) * k + (u.e0e1e3e4 * v.e1e4) * k + (u.e0e2 * v.e2e3) * k + (u.e0e2e3e4 * v.e2e4) * k + (u.e0e3 * v.s) * k - (u.e0e4 * v.e3e4) * k - (u.e1e2 * v.e0e1e2e3) * k - (u.e1e2e3e4 * v.e0e1e2e4) * k - (u.e1e3 * v.e0e1) * k + (u.e1e4 * v.e0e1e3e4) * k - (u.e2e3 * v.e0e2) * k + (u.e2e4 * v.e0e2e3e4) * k + (u.e3e4 * v.e0e4) * k + (u.s * v.e0e3) * k) by (nonlinear_arith);
}

/// Distribute a scalar over one coefficient of the product `u * v`.
proof fn scale_left_transform_e0e3(u: TransformModel, v: TransformModel, k: int)
    ensures
        k * (u.e0e1 * v.e1e3 - u.e0e1e2e3 * v.e1e2 + u.e0e1e2e4 * v.e1e2e3e4 + u.e0e1e3e4 * v.e1e4 + u.e0e2 * v.e2e3 + u.e0e2e3e4 * v.e2e4 + u.e0e3 * v.s - u.e0e4 * v.e3e4 - u.e1e2 * v.e0e1e2e3 - u.e1e2e3e4 * v.e0e1e2e4 - u.e1e3 * v.e0e1 + u.e1e4 * v.e0e1e3e4 - u.e2e3 * v.e0e2 + u.e2e4 * v.e0e2e3e4 + u.e3e4 * v.e0e4 + u.s * v.e0e3) == k * (u.e0e1 * v.e1e3) - k * (u.e0e1e2e3 * v.e1e2) + k * (u.e0e1e2e4 * v.e1e2e3e4) + k * (u.e0e1e3e4 * v.e1e4) + k * (u.e0e2 * v.e2e3) + k * (u.e0e2e3e4 * v.e2e4) + k * (u.e0e3 * v.s) - k * (u.e0e4 * v.e3e4) - k * (u.e1e2 * v.e0e1e2e3) - k * (u.e1e2e3e4 * v.e0e1e2e4) - k * (u.e1e3 * v.e0e1) + k * (u.e1e4 * v.e0e1e3e4) - k * (u.e2e3 * v.e0e2) + k * (u.e2e4 * v.e0e2e3e4) + k * (u.e3e4 * v.e0e4) + k * (u.s * v.e0e3),
{
    assert(k * (u.e0e1 * v.e1e3 - u.e0e1e2e3 * v.e1e2 + u.e0e1e2e4 * v.e1e2e3e4 + u.e0e1e3e4 * v.e1e4 + u.e0e2 * v.e2e3 + u.e0e2e3e4 * v.e2e4 + u.e0e3 * v.s - u.e0e4 * v.e3e4 - u.e1e2 * v.e0e1e2e3 - u.e1e2e3e4 * v.e0e1e2e4 - u.e1e3 * v.e0e1 + u.e1e4 * v.e0e1e3e4 - u.e2e3 * v.e0e2 + u.e2e4 * v.e0e2e3e4 + u.e3e4 * v.e0e4 + u.s * v.e0e3) == k * (u.e0e1 * v.e1e3) - k * (u.e0e1e2e3 * v.e1e2) + k * (u.e0e1e2e4 * v.e1e2e3e4) + k * (u.e0e1e3e4 * v.e1e4) + k * (u.e0e2 * v.e2e3) + k * (u.e0e2e3e4 * v.e2e4) + k * (u.e0e3 * v.s) - k * (u.e0e4 * v.e3e4) - k * (u.e1e2 * v.e0e1e2e3) - k * (u.e1e2e3e4 * v.e0e1e2e4) - k * (u.e1e3 * v.e0e1) + k * (u.e1e4 * v.e0e1e3e4) - k * (u.e2e3 * v.e0e2) + k * (u.e2e4 * v.e0e2e3e4) + k * (u.e3e4 * v.e0e4) + k * (u.s * v.e0e3)) by (nonlinear_arith);
}

/// Distribute a scalar over one coefficient of the product `u * v`.
proof fn scale_right_transform_e0e4(u: TransformModel, v: TransformModel, k: int)
    ensures
        (u.e0e1 * v.e1e4 - u.e0e1e2e3 * v.e1e2e3e4 - u.e0e1e2e4 * v.e1e2 - u.e0e1e3e4 * v.e1e3 + u.e0e2 * v.e2e4 - u.e0e2e3e4 * v.e2e3 + u.e0e3 * v.e3e4 + u.e0e4 * v.s - u.e1e2 * v.e0e1e2e4 + u.e1e2e3e4 * v.e0e1e2e3 - u.e1e3 * v.e0e1e3e4 - u.e1e4 * v.e0e1 - u.e2e3 * v.e0e2e3e4 - u.e2e4 * v.e0e2 - u.e3e4 * v.e0e3 + u.s * v.e0e4) * k == (u.e0e1 * v.e1e4) * k - (u.e0e1e2e3 * v.e1e2e3e4) * k - (u.e0e1e2e4 * v.e1e2) * k - (u.e0e1e3e4 * v.e1e3) * k + (u.e0e2 * v.e2e4) * k - (u.e0e2e3e4 * v.e2e3) * k + (u.e0e3 * v.e3e4) * k + (u.e0e4 * v.s) * k - (u.e1e2 * v.e0e1e2e4) * k + (u.e1e2e3e4 * v.e0e1e2e3) * k - (u.e1e3 * v.e0e1e3e4) * k - (u.e1e4 * v.e0e1) * k - (u.e2e3 * v.e0e2e3e4) * k - (u.e2e4 * v.e0e2) * k - (u.e3e4 * v.e0e3) * k + (u.s * v.e0e4) * k,
{
    assert((u.e0e1 * v.e1e4 - u.e0e1e2e3 * v.e1e2e3e4 - u.e0e1e2e4 * v.e1e2 - u.e0e1e3e4 * v.e1e3 + u.e0e2 * v.e2e4 - u.e0e2e3e4 * v.e2e3 + u.e0e3 * v.e3e4 + u.e0e4 * v.s - u.e1e2 * v.e0e1e2e4 + u.e1e2e3e4 * v.e0e1e2e3 - u.e1e3 * v.e0e1e3e4 - u.e1e4 * v.e0e1 - u.e2e3 * v.e0e2e3e4 - u.e2e4 * v.e0e2 - u.e3e4 * v.e0e3 + u.s * v.e0e4) * k == (u.e0e1 * v.e1e4) * k - (u.e0e1e2e3 * v.e1e2e3e4) * k - (u.e0e1e2e4 * v.e1e2) * k - (u.e0e1e3e4 * v.e1e3) * k + (u.e0e2 * v.e2e4) * k - (u.e0e2e3e4 * v.e2e3) * k + (u.e0e3 * v.e3e4) * k + (u.e0e4 * v.s) * k - (u.e1e2 * v.e0e1e2e4) * k + (u.e1e2e3e4 * v.e0e1e2e3) * k - (u.e1e3 * v.e0e1e3e4) * k - (u.e1e4 * v.e0e1) * k - (u.e2e3 * v.e0e2e3e4) * k - (u.e2e4 * v.e0e2) * k - (u.e3e4 * v.e0e3) * k + (u.s * v.e0e4) * k) by (nonlinear_arith);
}

/// Distribute a scalar over one coefficient of the product `u * v`.
proof fn scale_left_transform_e0e4(u: TransformModel, v: TransformModel, k: int)
    ensures
        k * (u.e0e1 * v.e1e4 - u.e0e1e2e3 * v.e1e2e3e4 - u.e0e1e2e4 * v.e1e2 - u.e0e1e3e4 * v.e1e3 + u.e0e2 * v.e2e4 - u.e0e2e3e4 * v.e2e3 + u.e0e3 * v.e3e4 + u.e0e4 * v.s - u.e1e2 * v.e0e1e2e4 + u.e1e2e3e4 * v.e0e1e2e3 - u.e1e3 * v.e0e1e3e4 - u.e1e4 * v.e0e1 - u.e2e3 * v.e0e2e3e4 - u.e2e4 * v.e0e2 - u.e3e4 * v.e0e3 + u.s * v.e0e4) == k * (u.e0e1 * v.e1e4) - k * (u.e0e1e2e3 * v.e1e2e3e4) - k * (u.e0e1e2e4 * v.e1e2) - k * (u.e0e1e3e4 * v.e1e3) + k * (u.e0e2 * v.e2e4) - k * (u.e0e2e3e4 * v.e2e3) + k * (u.e0e3 * v.e3e4) + k * (u.e0e4 * v.s) - k * (u.e1e2 * v.e0e1e2e4) + k * (u.e1e2e3e4 * v.e0e1e2e3) - k * (u.e1e3 * v.e0e1e3e4) - k * (u.e1e4 * v.e0e1) - k * (u.e2e3 * v.e0e2e3e4) - k * (u.e2e4 * v.e0e2) - k * (u.e3e4 * v.e0e3) + k * (u.s * v.e0e4),
{
    assert(k * (u.e0e1 * v.e1e4 - u.e0e1e2e3 * v.e1e2e3e4 - u.e0e1e2e4 * v.e1e2 - u.e0e1e3e4 * v.e1e3 + u.e0e2 * v.e2e4 - u.e0e2e3e4 * v.e2e3 + u.e0e3 * v.e3e4 + u.e0e4 * v.s - u.e1e2 * v.e0e1e2e4 + u.e1e2e3e4 * v.e0e1e2e3 - u.e1e3 * v.e0e1e3e4 - u.e1e4 * v.e0e1 - u.e2e3 * v.e0e2e3e4 - u.e2e4 * v.e0e2 - u.e3e4 * v.e0e3 + u.s * v.e0e4) == k * (u.e0e1 * v.e1e4) - k * (u.e0e1e2e3 * v.e1e2e3e4) - k * (u.e0e1e2e4 * v.e1e2) - k * (u.e0e1e3e4 * v.e1e3) + k * (u.e0e2 * v.e2e4) - k * (u.e0e2e3e4 * v.e2e3) + k * (u.e0e3 * v.e3e4) + k * (u.e0e4 * v.s) - k * (u.e1e2 * v.e0e1e2e4) + k * (u.e1e2e3e4 * v.e0e1e2e3) - k * (u.e1e3 * v.e0e1e3e4) - k * (u.e1e4 * v.e0e1) - k * (u.e2e3 * v.e0e2e3e4) - k * (u.e2e4 * v.e0e2) - k * (u.e3e4 * v.e0e3) + k * (u.s * v.e0e4)) by (nonlinear_arith);
}

/// Distribute a scalar over one coefficient of the product `u * v`.
proof fn scale_right_transform_e1e2(u: TransformModel, v: TransformModel, k: int)
    ensures
        (u.e1e2 * v.s - u.e1e2e3e4 * v.e3e4 - u.e1e3 * v.e2e3 - u.e1e4 * v.e2e4 + u.e2e3 * v.e1e3 + u.e2e4 * v.e1e4 - u.e3e4 * v.e1e2e3e4 + u.s * v.e1e2) * k == (u.e1e2 * v.s) * k - (u.e1e2e3e4 * v.e3e4) * k - (u.e1e3 * v.e2e3) * k - (u.e1e4 * v.e2e4) * k + (u.e2e3 * v.e1e3) * k + (u.e2e4 * v.e1e4) * k - (u.e3e4 * v.e1e2e3e4) * k + (u.s * v.e1e2) * k,
{
    assert((u.e1e2 * v.s - u.e1e2e3e4 * v.e3e4 - u.e1e3 * v.e2e3 - u.e1e4 * v.e2e4 + u.e2e3 * v.e1e3 + u.e2e4 * v.e1e4 - u.e3e4 * v.e1e2e3e4 + u.s * v.e1e2) * k == (u.e1e2 * v.s) * k - (u.e1e2e3e4 * v.e3e4) * k - (u.e1e3 * v.e2e3) * k - (u.e1e4 * v.e2e4) * k + (u.e2e3 * v.e1e3) * k + (u.e2e4 * v.e1e4) * k - (u.e3e4 * v.e1e2e3e4) * k + (u.s * v.e1e2) * k) by (nonlinear_arith);
}

/// Distribute a scalar over one coefficient of the product `u * v`.
proof fn scale_left_transform_e1e2(u: TransformModel, v: TransformModel, k: int)
    ensures
        k * (u.e1e2 * v.s - u.e1e2e3e4 * v.e3e4 - u.e1e3 * v.e2e3 - u.e1e4 * v.e2e4 + u.e2e3 * v.e1e3 + u.e2e4 * v.e1e4 - u.e3e4 * v.e1e2e3e4 + u.s * v.e1e2) == k * (u.e1e2 * v.s) - k * (u.e1e2e3e4 * v.e3e4) - k * (u.e1e3 * v.e2e3) - k * (u.e1e4 * v.e2e4) + k * (u.e2e3 * v.e1e3) + k * (u.e2e4 * v.e1e4) - k * (u.e3e4 * v.e1e2e3e4) + k * (u.s * v.e1e2),
{
    assert(k * (u.e1e2 * v.s - u.e1e2e3e4 * v.e3e4 - u.e1e3 * v.e2e3 - u.e1e4 * v.e2e4 + u.e2e3 * v.e1e3 + u.e2e4 * v.e1e4 - u.e3e4 * v.e1e2e3e4 + u.s * v.e1e2) == k * (u.e1e2 * v.s) - k * (u.e1e2e3e4 * v.e3e4) - k * (u.e1e3 * v.e2e3) - k * (u.e1e4 * v.e2e4) + k * (u.e2e3 * v.e1e3) + k * (u.e2e4 * v.e1e4) - k * (u.e3e4 * v.e1e2e3e4) + k * (u.s * v.e1e2)) by (nonlinear_arith);
}

/// Distribute a scalar over one coefficient of the product `u * v`.
proof fn scale_right_transform_e1e3(u: TransformModel, v: TransformModel, k: int)
    ensures
        (u.e1e2 * v.e2e3 + u.e1e2e3e4 * v.e2e4 + u.e1e3 * v.s - u.e1e4 * v.e3e4 - u.e2e3 * v.e1e2 + u.e2e4 * v.e1e2e3e4 + u.e3e4 * v.e1e4 + u.s * v.e1e3) * k == (u.e1e2 * v.e2e3) * k + (u.e1e2e3e4 * v.e2e4) * k + (u.e1e3 * v.s) * k - (u.e1e4 * v.e3e4) * k - (u.e2e3 * v.e1e2) * k + (u.e2e4 * v.e1e2e3e4) * k + (u.e3e4 * v.e1e4) * k + (u.s * v.e1e3) * k,
{
    assert((u.e1e2 * v.e2e3 + u.e1e2e3e4 * v.e2e4 + u.e1e3 * v.s - u.e1e4 * v.e3e4 - u.e2e3 * v.e1e2 + u.e2e4 * v.e1e2e3e4 + u.e3e4 * v.e1e4 + u.s * v.e1e3) * k == (u.e1e2 * v.e2e3) * k + (u.e1e2e3e4 * v.e2e4) * k + (u.e1e3 * v.s) * k - (u.e1e4 * v.e3e4) * k - (u.e2e3 * v.e1e2) * k + (u.e2e4 * v.e1e2e3e4) * k + (u.e3e4 * v.e1e4) * k + (u.s * v.e1e3) * k) by (nonlinear_arith);
}

/// Distribute a scalar over one coefficient of the product `u * v`.
proof fn scale_left_transform_e1e3(u: TransformModel, v: TransformModel, k: int)
    ensures
        k * (u.e1e2 * v.e2e3 + u.e1e2e3e4 * v.e2e4 + u.e1e3 * v.s - u.e1e4 * v.e3e4 - u.e2e3 * v.e1e2 + u.e2e4 * v.e1e2e3e4 + u.e3e4 * v.e1e4 + u.s * v.e1e3) == k * (u.e1e2 * v.e2e3) + k * (u.e1e2e3e4 * v.e2e4) + k * (u.e1e3 * v.s) - k * (u.e1e4 * v.e3e4) - k * (u.e2e3 * v.e1e2) + k * (u.e2e4 * v.e1e2e3e4) + k * (u.e3e4 * v.e1e4) + k * (u.s * v.e1e3),
{
    assert(k * (u.e1e2 * v.e2e3 + u.e1e2e3e4 * v.e2e4 + u.e1e3 * v.s - u.e1e4 * v.e3e4 - u.e2e3 * v.e1e2 + u.e2e4 * v.e1e2e3e4 + u.e3e4 * v.e1e4 + u.s * v.e1e3) == k * (u.e1e2 * v.e2e3) + k * (u.e1e2e3e4 * v.e2e4) + k * (u.e1e3 * v.s) - k * (u.e1e4 * v.e3e4) - k * (u.e2e3 * v.e1e2) + k * (u.e2e4 * v.e1e2e3e4) + k * (u.e3e4 * v.e1e4) + k * (u.s * v.e1e3)) by (nonlinear_arith);
}

/// Distribute a scalar over one coefficient of the product `u * v`.
proof fn scale_right_transform_e1e4(u: TransformModel, v: TransformModel, k: int)
    ensures
        (u.e1e2 * v.e2e4 - u.e1e2e3e4 * v.e2e3 + u.e1e3 * v.e3e4 + u.e1e4 * v.s - u.e2e3 * v.e1e2e3e4 - u.e2e4 * v.e1e2 - u.e3e4 * v.e1e3 + u.s * v.e1e4) * k == (u.e1e2 * v.e2e4) * k - (u.e1e2e3e4 * v.e2e3) * k + (u.e1e3 * v.e3e4) * k + (u.e1e4 * v.s) * k - (u.e2e3 * v.e1e2e3e4) * k - (u.e2e4 * v.e1e2) * k - (u.e3e4 * v.e1e3) * k + (u.s * v.e1e4) * k,
{
    assert((u.e1e2 * v.e2e4 - u.e1e2e3e4 * v.e2e3 + u.e1e3 * v.e3e4 + u.e1e4 * v.s - u.e2e3 * v.e1e2e3e4 - u.e2e4 * v.e1e2 - u.e3e4 * v.e1e3 + u.s * v.e1e4) * k == (u.e1e2 * v.e2e4) * k - (u.e1e2e3e4 * v.e2e3) * k + (u.e1e3 * v.e3e4) * k + (u.e1e4 * v.s) * k - (u.e2e3 * v.e1e2e3e4) * k - (u.e2e4 * v.e1e2) * k - (u.e3e4 * v.e1e3) * k + (u.s * v.e1e4) * k) by (nonlinear_arith);
}

/// Distribute a scalar over one coefficient of the product `u * v`.
proof fn scale_left_transform_e1e4(u: TransformModel, v: TransformModel, k: int)
    ensures
        k * (u.e1e2 * v.e2e4 - u.e1e2e3e4 * v.e2e3 + u.e1e3 * v.e3e4 + u.e1e4 * v.s - u.e2e3 * v.e1e2e3e4 - u.e2e4 * v.e1e2 - u.e3e4 * v.e1e3 + u.s * v.e1e4) == k * (u.e1e2 * v.e2e4) - k * (u.e1e2e3e4 * v.e2e3) + k * (u.e1e3 * v.e3e4) + k * (u.e1e4 * v.s) - k * (u.e2e3 * v.e1e2e3e4) - k * (u.e2e4 * v.e1e2) - k * (u.e3e4 * v.e1e3) + k * (u.s * v.e1e4),
{
    assert(k * (u.e1e2 * v.e2e4 - u.e1e2e3e4 * v.e2e3 + u.e1e3 * v.e3e4 + u.e1e4 * v.s - u.e2e3 * v.e1e2e3e4 - u.e2e4 * v.e1e2 - u.e3e4 * v.e1e3 + u.s * v.e1e4) == k * (u.e1e2 * v.e2e4) - k * (u.e1e2e3e4 * v.e2e3) + k * (u.e1e3 * v.e3e4) + k * (u.e1e4 * v.s) - k * (u.e2e3 * v.e1e2e3e4) - k * (u.e2e4 * v.e1e2) - k * (u.e3e4 * v.e1e3) + k * (u.s * v.e1e4)) by (nonlinear_arith);
}

/// Distribute a scalar over one coefficient of the product `u * v`.
proof fn scale_right_transform_e2e3(u: TransformModel, v: TransformModel, k: int)
    ensures
        (-(u.e1e2 * v.e1e3) - u.e1e2e3e4 * v.e1e4 + u.e1e3 * v.e1e2 - u.e1e4 * v.e1e2e3e4 + u.e2e3 * v.s - u.e2e4 * v.e3e4 + u.e3e4 * v.e2e4 + u.s * v.e2e3) * k == -((u.e1e2 * v.e1e3) * k) - (u.e1e2e3e4 * v.e1e4) * k + (u.e1e3 * v.e1e2) * k - (u.e1e4 * v.e1e2e3e4) * k + (u.e2e3 * v.s) * k - (u.e2e4 * v.e3e4) * k + (u.e3e4 * v.e2e4) * k + (u.s * v.e2e3) * k,
{
    assert((-(u.e1e2 * v.e1e3) - u.e1e2e3e4 * v.e1e4 + u.e1e3 * v.e1e2 - u.e1e4 * v.e1e2e3e4 + u.e2e3 * v.s - u.e2e4 * v.e3e4 + u.e3e4 * v.e2e4 + u.s * v.e2e3) * k == -((u.e1e2 * v.e1e3) * k) - (u.e1e2e3e4 * v.e1e4) * k + (u.e1e3 * v.e1e2) * k - (u.e1e4 * v.e1e2e3e4) * k + (u.e2e3 * v.s) * k - (u.e2e4 * v.e3e4) * k + (u.e3e4 * v.e2e4) * k + (u.s * v.e2e3) * k) by (nonlinear_arith);
}

/// Distribute a scalar over one coefficient of the product `u * v`.
proof fn scale_left_transform_e2e3(u: TransformModel, v: TransformModel, k: int)
    ensures
        k * (-(u.e1e2 * v.e1e3) - u.e1e2e3e4 * v.e1e4 + u.e1e3 * v.e1e2 - u.e1e4 * v.e1e2e3e4 + u.e2e3 * v.s - u.e2e4 * v.e3e4 + u.e3e4 * v.e2e4 + u.s * v.e2e3) == -(k * (u.e1e2 * v.e1e3)) - k * (u.e1e2e3e4 * v.e1e4) + k * (u.e1e3 * v.e1e2) - k * (u.e1e4 * v.e1e2e3e4) + k * (u.e2e3 * v.s) - k * (u.e2e4 * v.e3e4) + k * (u.e3e4 * v.e2e4) + k * (u.s * v.e2e3),
{
    assert(k * (-(u.e1e2 * v.e1e3) - u.e1e2e3e4 * v.e1e4 + u.e1e3 * v.e1e2 - u.e1e4 * v.e1e2e3e4 + u.e2e3 * v.s - u.e2e4 * v.e3e4 + u.e3e4 * v.e2e4 + u.s * v.e2e3) == -(k * (u.e1e2 * v.e1e3)) - k * (u.e1e2e3e4 * v.e1e4) + k * (u.e1e3 * v.e1e2) - k * (u.e1e4 * v.e1e2e3e4) + k * (u.e2e3 * v.s) - k * (u.e2e4 * v.e3e4) + k * (u.e3e4 * v.e2e4) + k * (u.s * v.e2e3)) by (nonlinear_arith);
}

/// Distribute a scalar over one coefficient of the product `u * v`.
proof fn scale_right_transform_e2e4(u: TransformModel, v: TransformModel, k: int)
    ensures
        (-(u.e1e2 * v.e1e4) + u.e1e2e3e4 * v.e1e3 + u.e1e3 * v.e1e2e3e4 + u.e1e4 * v.e1e2 + u.e2e3 * v.e3e4 + u.e2e4 * v.s - u.e3e4 * v.e2e3 + u.s * v.e2e4) * k == -((u.e1e2 * v.e1e4) * k) + (u.e1e2e3e4 * v.e1e3) * k + (u.e1e3 * v.e1e2e3e4) * k + (u.e1e4 * v.e1e2) * k + (u.e2e3 * v.e3e4) * k + (u.e2e4 * v.s) * k - (u.e3e4 * v.e2e3) * k + (u.s * v.e2e4) * k,
{
    assert((-(u.e1e2 * v.e1e4) + u.e1e2e3e4 * v.e1e3 + u.e1e3 * v.e1e2e3e4 + u.e1e4 * v.e1e2 + u.e2e3 * v.e3e4 + u.e2e4 * v.s - u.e3e4 * v.e2e3 + u.s * v.e2e4) * k == -((u.e1e2 * v.e1e4) * k) + (u.e1e2e3e4 * v.e1e3) * k + (u.e1e3 * v.e1e2e3e4) * k + (u.e1e4 * v.e1e2) * k + (u.e2e3 * v.e3e4) * k + (u.e2e4 * v.s) * k - (u.e3e4 * v.e2e3) * k + (u.s * v.e2e4) * k) by (nonlinear_arith);
}

/// Distribute a scalar over one coefficient of the product `u * v`.
proof fn scale_left_transform_e2e4(u: TransformModel, v: TransformModel, k: int)
    ensures
        k * (-(u.e1e2 * v.e1e4) + u.e1e2e3e4 * v.e1e3 + u.e1e3 * v.e1e2e3e4 + u.e1e4 * v.e1e2 + u.e2e3 * v.e3e4 + u.e2e4 * v.s - u.e3e4 * v.e2e3 + u.s * v.e2e4) == -(k * (u.e1e2 * v.e1e4)) + k * (u.e1e2e3e4 * v.e1e3) + k * (u.e1e3 * v.e1e2e3e4) + k * (u.e1e4 * v.e1e2) + k * (u.e2e3 * v.e3e4) + k * (u.e2e4 * v.s) - k * (u.e3e4 * v.e2e3) + k * (u.s * v.e2e4),
{
    assert(k * (-(u.e1e2 * v.e1e4) + u.e1e2e3e4 * v.e1e3 + u.e1e3 * v.e1e2e3e4 + u.e1e4 * v.e1e2 + u.e2e3 * v.e3e4 + u.e2e4 * v.s - u.e3e4 * v.e2e3 + u.s * v.e2e4) == -(k * (u.e1e2 * v.e1e4)) + k * (u.e1e2e3e4 * v.e1e3) + k * (u.e1e3 * v.e1e2e3e4) + k * (u.e1e4 * v.e1e2) + k * (u.e2e3 * v.e3e4) + k * (u.e2e4 * v.s) - k * (u.e3e4 * v.e2e3) + k * (u.s * v.e2e4)) by (nonlinear_arith);
}

/// Distribute a scalar over one coefficient of the product `u * v`.
proof fn scale_right_transform_e3e4(u: TransformModel, v: TransformModel, k: int)
    ensures
        (-(u.e1e2 * v.e1e2e3e4) - u.e1e2e3e4 * v.e1e2 - u.e1e3 * v.e1e4 + u.e1e4 * v.e1e3 - u.e2e3 * v.e2e4 + u.e2e4 * v.e2e3 + u.e3e4 * v.s + u.s * v.e3e4) * k == -((u.e1e2 * v.e1e2e3e4) * k) - (u.e1e2e3e4 * v.e1e2) * k - (u.e1e3 * v.e1e4) * k + (u.e1e4 * v.e1e3) * k - (u.e2e3 * v.e2e4) * k + (u.e2e4 * v.e2e3) * k + (u.e3e4 * v.s) * k + (u.s * v.e3e4) * k,
{
    assert((-(u.e1e2 * v.e1e2e3e4) - u.e1e2e3e4 * v.e1e2 - u.e1e3 * v.e1e4 + u.e1e4 * v.e1e3 - u.e2e3 * v.e2e4 + u.e2e4 * v.e2e3 + u.e3e4 * v.s + u.s * v.e3e4) * k == -((u.e1e2 * v.e1e2e3e4) * k) - (u.e1e2e3e4 * v.e1e2) * k - (u.e1e3 * v.e1e4) * k + (u.e1e4 * v.e1e3) * k - (u.e2e3 * v.e2e4) * k + (u.e2e4 * v.e2e3) * k + (u.e3e4 * v.s) * k + (u.s * v.e3e4) * k) by (nonlinear_arith);
}

/// Distribute a scalar over one coefficient of the product `u * v`.
proof fn scale_left_transform_e3e4(u: TransformModel, v: TransformModel, k: int)
    ensures
        k * (-(u.e1e2 * v.e1e2e3e4) - u.e1e2e3e4 * v.e1e2 - u.e1e3 * v.e1e4 + u.e1e4 * v.e1e3 - u.e2e3 * v.e2e4 + u.e2e4 * v.e2e3 + u.e3e4 * v.s + u.s * v.e3e4) == -(k * (u.e1e2 * v.e1e2e3e4)) - k * (u.e1e2e3e4 * v.e1e2) - k * (u.e1e3 * v.e1e4) + k * (u.e1e4 * v.e1e3) - k * (u.e2e3 * v.e2e4) + k * (u.e2e4 * v.e2e3) + k * (u.e3e4 * v.s) + k * (u.s * v.e3e4),
{
    assert(k * (-(u.e1e2 * v.e1e2e3e4) - u.e1e2e3e4 * v.e1e2 - u.e1e3 * v.e1e4 + u.e1e4 * v.e1e3 - u.e2e3 * v.e2e4 + u.e2e4 * v.e2e3 + u.e3e4 * v.s + u.s * v.e3e4) == -(k * (u.e1e2 * v.e1e2e3e4)) - k * (u.e1e2e3e4 * v.e1e2) - k * (u.e1e3 * v.e1e4) + k * (u.e1e4 * v.e1e3) - k * (u.e2e3 * v.e2e4) + k * (u.e2e4 * v.e2e3) + k * (u.e3e4 * v.s) + k * (u.s * v.e3e4)) by (nonlinear_arith);
}

/// Distribute a scalar over one coefficient of the product `u * v`.
proof fn scale_right_transform_e0e1e2e3(u: TransformModel, v: TransformModel, k: int)
    ensures
        (u.e0e1 * v.e2e3 + u.e0e1e2e3 * v.s - u.e0e1e2e4 * v.e3e4 + u.e0e1e3e4 * v.e2e4 - u.e0e2 * v.e1e3 - u.e0e2e3e4 * v.e1e4 + u.e0e3 * v.e1e2 - u.e0e4 * v.e1e2e3e4 + u.e1e2 * v.e0e3 + u.e1e2e3e4 * v.e0e4 - u.e1e3 * v.e0e2 + u.e1e4 * v.e0e2e3e4 + u.e2e3 * v.e0e1 - u.e2e4 * v.e0e1e3e4 + u.e3e4 * v.e0e1e2e4 + u.s * v.e0e1e2e3) * k == (u.e0e1 * v.e2e3) * k + (u.e0e1e2e3 * v.s) * k - (u.e0e1e2e4 * v.e3e4) * k + (u.e0e1e3e4 * v.e2e4) * k - (u.e0e2 * v.e1e3) * k - (u.e0e2e3e4 * v.e1e4) * k + (u.e0e3 * v.e1e2) * k - (u.e0e4 * v.e1e2e3e4) * k + (u.e1e2 * v.e0e3) * k + (u.e1e2e3e4 * v.e0e4) * k - (u.e1e3 * v.e0e2) * k + (u.e1e4 * v.e0e2e3e4) * k + (u.e2e3 * v.e0e1) * k - (u.e2e4 * v.e0e1e3e4) * k + (u.e3e4 * v.e0e1e2e4) * k + (u.s * v.e0e1e2e3) * k,
{
    assert((u.e0e1 * v.e2e3 + u.e0e1e2e3 * v.s - u.e0e1e2e4 * v.e3e4 + u.e0e1e3e4 * v.e2e4 - u.e0e2 * v.e1e3 - u.e0e2e3e4 * v.e1e4 + u.e0e3 * v.e1e2 - u.e0e4 * v.e1e2e3e4 + u.e1e2 * v.e0e3 + u.e1e2e3e4 * v.e0e4 - u.e1e3 * v.e0e2 + u.e1e4 * v.e0e2e3e4 + u.e2e3 * v.e0e1 - u.e2e4 * v.e0e1e3e4 + u.e3e4 * v.e0e1e2e4 + u.s * v.e0e1e2e3) * k == (u.e0e1 * v.e2e3) * k + (u.e0e1e2e3 * v.s) * k - (u.e0e1e2e4 * v.e3e4) * k + (u.e0e1e3e4 * v.e2e4) * k - (u.e0e2 * v.e1e3) * k - (u.e0e2e3e4 * v.e1e4) * k + (u.e0e3 * v.e1e2) * k - (u.e0e4 * v.e1e2e3e4) * k + (u.e1e2 * v.e0e3) * k + (u.e1e2e3e4 * v.e0e4) * k - (u.e1e3 * v.e0e2) * k + (u.e1e4 * v.e0e2e3e4) * k + (u.e2e3 * v.e0e1) * k - (u.e2e4 * v.e0e1e3e4) * k + (u.e3e4 * v.e0e1e2e4) * k + (u.s * v.e0e1e2e3) * k) by (nonlinear_arith);
}

/// Distribute a scalar over one coefficient of the product `u * v`.
proof fn scale_left_transform_e0e1e2e3(u: TransformModel, v: TransformModel, k: int)
    ensures
        k * (u.e0e1 * v.e2e3 + u.e0e1e2e3 * v.s - u.e0e1e2e4 * v.e3e4 + u.e0e1e3e4 * v.e2e4 - u.e0e2 * v.e1e3 - u.e0e2e3e4 * v.e1e4 + u.e0e3 * v.e1e2 - u.e0e4 * v.e1e2e3e4 + u.e1e2 * v.e0e3 + u.e1e2e3e4 * v.e0e4 - u.e1e3 * v.e0e2 + u.e1e4 * v.e0e2e3e4 + u.e2e3 * v.e0e1 - u.e2e4 * v.e0e1e3e4 + u.e3e4 * v.e0e1e2e4 + u.s * v.e0e1e2e3) == k * (u.e0e1 * v.e2e3) + k * (u.e0e1e2e3 * v.s) - k * (u.e0e1e2e4 * v.e3e4) + k * (u.e0e1e3e4 * v.e2e4) - k * (u.e0e2 * v.e1e3) - k * (u.e0e2e3e4 * v.e1e4) + k * (u.e0e3 * v.e1e2) - k * (u.e0e4 * v.e1e2e3e4) + k * (u.e1e2 * v.e0e3) + k * (u.e1e2e3e4 * v.e0e4) - k * (u.e1e3 * v.e0e2) + k * (u.e1e4 * v.e0e2e3e4) + k * (u.e2e3 * v.e0e1) - k * (u.e2e4 * v.e0e1e3e4) + k * (u.e3e4 * v.e0e1e2e4) + k * (u.s * v.e0e1e2e3),
{
    assert(k * (u.e0e1 * v.e2e3 + u.e0e1e2e3 * v.s - u.e0e1e2e4 * v.e3e4 + u.e0e1e3e4 * v.e2e4 - u.e0e2 * v.e1e3 - u.e0e2e3e4 * v.e1e4 + u.e0e3 * v.e1e2 - u.e0e4 * v.e1e2e3e4 + u.e1e2 * v.e0e3 + u.e1e2e3e4 * v.e0e4 - u.e1e3 * v.e0e2 + u.e1e4 * v.e0e2e3e4 + u.e2e3 * v.e0e1 - u.e2e4 * v.e0e1e3e4 + u.e3e4 * v.e0e1e2e4 + u.s * v.e0e1e2e3) == k * (u.e0e1 * v.e2e3) + k * (u.e0e1e2e3 * v.s) - k * (u.e0e1e2e4 * v.e3e4) + k * (u.e0e1e3e4 * v.e2e4) - k * (u.e0e2 * v.e1e3) - k * (u.e0e2e3e4 * v.e1e4) + k * (u.e0e3 * v.e1e2) - k * (u.e0e4 * v.e1e2e3e4) + k * (u.e1e2 * v.e0e3) + k * (u.e1e2e3e4 * v.e0e4) - k * (u.e1e3 * v.e0e2) + k * (u.e1e4 * v.e0e2e3e4) + k * (u.e2e3 * v.e0e1) - k * (u.e2e4 * v.e0e1e3e4) + k * (u.e3e4 * v.e0e1e2e4) + k * (u.s * v.e0e1e2e3)) by (nonlinear_arith);
}

/// Distribute a scalar over one coefficient of the product `u * v`.
proof fn scale_right_transform_e0e1e2e4(u: TransformModel, v: TransformModel, k: int)
    ensures
        (u.e0e1 * v.e2e4 + u.e0e1e2e3 * v.e3e4 + u.e0e1e2e4 * v.s - u.e0e1e3e4 * v.e2e3 - u.e0e2 * v.e1e4 + u.e0e2e3e4 * v.e1e3 + u.e0e3 * v.e1e2e3e4 + u.e0e4 * v.e1e2 + u.e1e2 * v.e0e4 - u.e1e2e3e4 * v.e0e3 - u.e1e3 * v.e0e2e3e4 - u.e1e4 * v.e0e2 + u.e2e3 * v.e0e1e3e4 + u.e2e4 * v.e0e1 - u.e3e4 * v.e0e1e2e3 + u.s * v.e0e1e2e4) * k == (u.e0e1 * v.e2e4) * k + (u.e0e1e2e3 * v.e3e4) * k + (u.e0e1e2e4 * v.s) * k - (u.e0e1e3e4 * v.e2e3) * k - (u.e0e2 * v.e1e4) * k + (u.e0e2e3e4 * v.e1e3) * k + (u.e0e3 * v.e1e2e3e4) * k + (u.e0e4 * v.e1e2) * k + (u.e1e2 * v.e0e4) * k - (u.e1e2e3e4 * v.e0e3) * k - (u.e1e3 * v.e0e2e3e4) * k - (u.e1e4 * v.e0e2) * k + (u.e2e3 * v.e0e1e3e4) * k + (u.e2e4 * v.e0e1) * k - (u.e3e4 * v.e0e1e2e3) * k + (u.s * v.e0e1e2e4) * k,
{
    assert((u.e0e1 * v.e2e4 + u.e0e1e2e3 * v.e3e4 + u.e0e1e2e4 * v.s - u.e0e1e3e4 * v.e2e3 - u.e0e2 * v.e1e4 + u.e0e2e3e4 * v.e1e3 + u.e0e3 * v.e1e2e3e4 + u.e0e4 * v.e1e2 + u.e1e2 * v.e0e4 - u.e1e2e3e4 * v.e0e3 - u.e1e3 * v.e0e2e3e4 - u.e1e4 * v.e0e2 + u.e2e3 * v.e0e1e3e4 + u.e2e4 * v.e0e1 - u.e3e4 * v.e0e1e2e3 + u.s * v.e0e1e2e4) * k == (u.e0e1 * v.e2e4) * k + (u.e0e1e2e3 * v.e3e4) * k + (u.e0e1e2e4 * v.s) * k - (u.e0e1e3e4 * v.e2e3) * k - (u.e0e2 * v.e1e4) * k + (u.e0e2e3e4 * v.e1e3) * k + (u.e0e3 * v.e1e2e3e4) * k + (u.e0e4 * v.e1e2) * k + (u.e1e2 * v.e0e4) * k - (u.e1e2e3e4 * v.e0e3) * k - (u.e1e3 * v.e0e2e3e4) * k - (u.e1e4 * v.e0e2) * k + (u.e2e3 * v.e0e1e3e4) * k + (u.e2e4 * v.e0e1) * k - (u.e3e4 * v.e0e1e2e3) * k + (u.s * v.e0e1e2e4) * k) by (nonlinear_arith);
}

/// Distribute a scalar over one coefficient of the product `u * v`.
proof fn scale_left_transform_e0e1e2e4(u: TransformModel, v: TransformModel, k: int)
    ensures
        k * (u.e0e1 * v.e2e4 + u.e0e1e2e3 * v.e3e4 + u.e0e1e2e4 * v.s - u.e0e1e3e4 * v.e2e3 - u.e0e2 * v.e1e4 + u.e0e2e3e4 * v.e1e3 + u.e0e3 * v.e1e2e3e4 + u.e0e4 * v.e1e2 + u.e1e2 * v.e0e4 - u.e1e2e3e4 * v.e0e3 - u.e1e3 * v.e0e2e3e4 - u.e1e4 * v.e0e2 + u.e2e3 * v.e0e1e3e4 + u.e2e4 * v.e0e1 - u.e3e4 * v.e0e1e2e3 + u.s * v.e0e1e2e4) == k * (u.e0e1 * v.e2e4) + k * (u.e0e1e2e3 * v.e3e4) + k * (u.e0e1e2e4 * v.s) - k * (u.e0e1e3e4 * v.e2e3) - k * (u.e0e2 * v.e1e4) + k * (u.e0e2e3e4 * v.e1e3) + k * (u.e0e3 * v.e1e2e3e4) + k * (u.e0e4 * v.e1e2) + k * (u.e1e2 * v.e0e4) - k * (u.e1e2e3e4 * v.e0e3) - k * (u.e1e3 * v.e0e2e3e4) - k * (u.e1e4 * v.e0e2) + k * (u.e2e3 * v.e0e1e3e4) + k * (u.e2e4 * v.e0e1) - k * (u.e3e4 * v.e0e1e2e3) + k * (u.s * v.e0e1e2e4),
{
    assert(k * (u.e0e1 * v.e2e4 + u.e0e1e2e3 * v.e3e4 + u.e0e1e2e4 * v.s - u.e0e1e3e4 * v.e2e3 - u.e0e2 * v.e1e4 + u.e0e2e3e4 * v.e1e3 + u.e0e3 * v.e1e2e3e4 + u.e0e4 * v.e1e2 + u.e1e2 * v.e0e4 - u.e1e2e3e4 * v.e0e3 - u.e1e3 * v.e0e2e3e4 - u.e1e4 * v.e0e2 + u.e2e3 * v.e0e1e3e4 + u.e2e4 * v.e0e1 - u.e3e4 * v.e0e1e2e3 + u.s * v.e0e1e2e4) == k * (u.e0e1 * v.e2e4) + k * (u.e0e1e2e3 * v.e3e4) + k * (u.e0e1e2e4 * v.s) - k * (u.e0e1e3e4 * v.e2e3) - k * (u.e0e2 * v.e1e4) + k * (u.e0e2e3e4 * v.e1e3) + k * (u.e0e3 * v.e1e2e3e4) + k * (u.e0e4 * v.e1e2) + k * (u.e1e2 * v.e0e4) - k * (u.e1e2e3e4 * v.e0e3) - k * (u.e1e3 * v.e0e2e3e4) - k * (u.e1e4 * v.e0e2) + k * (u.e2e3 * v.e0e1e3e4) + k * (u.e2e4 * v.e0e1) - k * (u.e3e4 * v.e0e1e2e3) + k * (u.s * v.e0e1e2e4)) by (nonlinear_arith);
}

/// Distribute a scalar over one coefficient of the product `u * v`.
proof fn scale_right_transform_e0e1e3e4(u: TransformModel, v: TransformModel, k: int)
    ensures
        (u.e0e1 * v.e3e4 - u.e0e1e2e3 * v.e2e4 + u.e0e1e2e4 * v.e2e3 + u.e0e1e3e4 * v.s - u.e0e2 * v.e1e2e3e4 - u.e0e2e3e4 * v.e1e2 - u.e0e3 * v.e1e4 + u.e0e4 * v.e1e3 + u.e1e2 * v.e0e2e3e4 + u.e1e2e3e4 * v.e0e2 + u.e1e3 * v.e0e4 - u.e1e4 * v.e0e3 - u.e2e3 * v.e0e1e2e4 + u.e2e4 * v.e0e1e2e3 + u.e3e4 * v.e0e1 + u.s * v.e0e1e3e4) * k == (u.e0e1 * v.e3e4) * k - (u.e0e1e2e3 * v.e2e4) * k + (u.e0e1e2e4 * v.e2e3) * k + (u.e0e1e3e4 * v.s) * k - (u.e0e2 * v.e1e2e3e4) * k - (u.e0e2e3e4 * v.e1e2) * k - (u.e0e3 * v.e1e4) * k + (u.e0e4 * v.e1e3) * k + (u.e1e2 * v.e0e2e3e4) * k + (u.e1e2e3e4 * v.e0e2) * k + (u.e1e3 * v.e0e4) * k - (u.e1e4 * v.e0e3) * k - (u.e2e3 * v.e0e1e2e4) * k + (u.e2e4 * v.e0e1e2e3) * k + (u.e3e4 * v.e0e1) * k + (u.s * v.e0e1e3e4) * k,
{
    assert((u.e0e1 * v.e3e4 - u.e0e1e2e3 * v.e2e4 + u.e0e1e2e4 * v.e2e3 + u.e0e1e3e4 * v.s - u.e0e2 * v.e1e2e3e4 - u.e0e2e3e4 * v.e1e2 - u.e0e3 * v.e1e4 + u.e0e4 * v.e1e3 + u.e1e2 * v.e0e2e3e4 + u.e1e2e3e4 * v.e0e2 + u.e1e3 * v.e0e4 - u.e1e4 * v.e0e3 - u.e2e3 * v.e0e1e2e4 + u.e2e4 * v.e0e1e2e3 + u.e3e4 * v.e0e1 + u.s * v.e0e1e3e4) * k == (u.e0e1 * v.e3e4) * k - (u.e0e1e2e3 * v.e2e4) * k + (u.e0e1e2e4 * v.e2e3) * k + (u.e0e1e3e4 * v.s) * k - (u.e0e2 * v.e1e2e3e4) * k - (u.e0e2e3e4 * v.e1e2) * k - (u.e0e3 * v.e1e4) * k + (u.e0e4 * v.e1e3) * k + (u.e1e2 * v.e0e2e3e4) * k + (u.e1e2e3e4 * v.e0e2) * k + (u.e1e3 * v.e0e4) * k - (u.e1e4 * v.e0e3) * k - (u.e2e3 * v.e0e1e2e4) * k + (u.e2e4 * v.e0e1e2e3) * k + (u.e3e4 * v.e0e1) * k + (u.s * v.e0e1e3e4) * k) by (nonlinear_arith);
}

/// Distribute a scalar over one coefficient of the product `u * v`.
proof fn scale_left_transform_e0e1e3e4(u: TransformModel, v: TransformModel, k: int)
    ensures
        k * (u.e0e1 * v.e3e4 - u.e0e1e2e3 * v.e2e4 + u.e0e1e2e4 * v.e2e3 + u.e0e1e3e4 * v.s - u.e0e2 * v.e1e2e3e4 - u.e0e2e3e4 * v.e1e2 - u.e0e3 * v.e1e4 + u.e0e4 * v.e1e3 + u.e1e2 * v.e0e2e3e4 + u.e1e2e3e4 * v.e0e2 + u.e1e3 * v.e0e4 - u.e1e4 * v.e0e3 - u.e2e3 * v.e0e1e2e4 + u.e2e4 * v.e0e1e2e3 + u.e3e4 * v.e0e1 + u.s * v.e0e1e3e4) == k * (u.e0e1 * v.e3e4) - k * (u.e0e1e2e3 * v.e2e4) + k * (u.e0e1e2e4 * v.e2e3) + k * (u.e0e1e3e4 * v.s) - k * (u.e0e2 * v.e1e2e3e4) - k * (u.e0e2e3e4 * v.e1e2) - k * (u.e0e3 * v.e1e4) + k * (u.e0e4 * v.e1e3) + k * (u.e1e2 * v.e0e2e3e4) + k * (u.e1e2e3e4 * v.e0e2) + k * (u.e1e3 * v.e0e4) - k * (u.e1e4 * v.e0e3) - k * (u.e2e3 * v.e0e1e2e4) + k * (u.e2e4 * v.e0e1e2e3) + k * (u.e3e4 * v.e0e1) + k * (u.s * v.e0e1e3e4),
{
    assert(k * (u.e0e1 * v.e3e4 - u.e0e1e2e3 * v.e2e4 + u.e0e1e2e4 * v.e2e3 + u.e0e1e3e4 * v.s - u.e0e2 * v.e1e2e3e4 - u.e0e2e3e4 * v.e1e2 - u.e0e3 * v.e1e4 + u.e0e4 * v.e1e3 + u.e1e2 * v.e0e2e3e4 + u.e1e2e3e4 * v.e0e2 + u.e1e3 * v.e0e4 - u.e1e4 * v.e0e3 - u.e2e3 * v.e0e1e2e4 + u.e2e4 * v.e0e1e2e3 + u.e3e4 * v.e0e1 + u.s * v.e0e1e3e4) == k * (u.e0e1 * v.e3e4) - k * (u.e0e1e2e3 * v.e2e4) + k * (u.e0e1e2e4 * v.e2e3) + k * (u.e0e1e3e4 * v.s) - k * (u.e0e2 * v.e1e2e3e4) - k * (u.e0e2e3e4 * v.e1e2) - k * (u.e0e3 * v.e1e4) + k * (u.e0e4 * v.e1e3) + k * (u.e1e2 * v.e0e2e3e4) + k * (u.e1e2e3e4 * v.e0e2) + k * (u.e1e3 * v.e0e4) - k * (u.e1e4 * v.e0e3) - k * (u.e2e3 * v.e0e1e2e4) + k * (u.e2e4 * v.e0e1e2e3) + k * (u.e3e4 * v.e0e1) + k * (u.s * v.e0e1e3e4)) by (nonlinear_arith);
}

/// Distribute a scalar over one coefficient of the product `u * v`.
proof fn scale_right_transform_e0e2e3e4(u: TransformModel, v: TransformModel, k: int)
    ensures
        (u.e0e1 * v.e1e2e3e4 + u.e0e1e2e3 * v.e1e4 - u.e0e1e2e4 * v.e1e3 + u.e0e1e3e4 * v.e1e2 + u.e0e2 * v.e3e4 + u.e0e2e3e4 * v.s - u.e0e3 * v.e2e4 + u.e0e4 * v.e2e3 - u.e1e2 * v.e0e1e3e4 - u.e1e2e3e4 * v.e0e1 + u.e1e3 * v.e0e1e2e4 - u.e1e4 * v.e0e1e2e3 + u.e2e3 * v.e0e4 - u.e2e4 * v.e0e3 + u.e3e4 * v.e0e2 + u.s * v.e0e2e3e4) * k == (u.e0e1 * v.e1e2e3e4) * k + (u.e0e1e2e3 * v.e1e4) * k - (u.e0e1e2e4 * v.e1e3) * k + (u.e0e1e3e4 * v.e1e2) * k + (u.e0e2 * v.e3e4) * k + (u.e0e2e3e4 * v.s) * k - (u.e0e3 * v.e2e4) * k + (u.e0e4 * v.e2e3) * k - (u.e1e2 * v.e0e1e3e4) * k - (u.e1e2e3e4 * v.e0e1) * k + (u.e1e3 * v.e0e1e2e4) * k - (u.e1e4 * v.e0e1e2e3) * k + (u.e2e3 * v.e0e4) * k - (u.e2e4 * v.e0e3) * k + (u.e3e4 * v.e0e2) * k + (u.s * v.e0e2e3e4) * k,
{
    assert((u.e0e1 * v.e1e2e3e4 + u.e0e1e2e3 * v.e1e4 - u.e0e1e2e4 * v.e1e3 + u.e0e1e3e4 * v.e1e2 + u.e0e2 * v.e3e4 + u.e0e2e3e4 * v.s - u.e0e3 * v.e2e4 + u.e0e4 * v.e2e3 - u.e1e2 * v.e0e1e3e4 - u.e1e2e3e4 * v.e0e1 + u.e1e3 * v.e0e1e2e4 - u.e1e4 * v.e0e1e2e3 + u.e2e3 * v.e0e4 - u.e2e4 * v.e0e3 + u.e3e4 * v.e0e2 + u.s * v.e0e2e3e4) * k == (u.e0e1 * v.e1e2e3e4) * k + (u.e0e1e2e3 * v.e1e4) * k - (u.e0e1e2e4 * v.e1e3) * k + (u.e0e1e3e4 * v.e1e2) * k + (u.e0e2 * v.e3e4) * k + (u.e0e2e3e4 * v.s) * k - (u.e0e3 * v.e2e4) * k + (u.e0e4 * v.e2e3) * k - (u.e1e2 * v.e0e1e3e4) * k - (u.e1e2e3e4 * v.e0e1) * k + (u.e1e3 * v.e0e1e2e4) * k - (u.e1e4 * v.e0e1e2e3) * k + (u.e2e3 * v.e0e4) * k - (u.e2e4 * v.e0e3) * k + (u.e3e4 * v.e0e2) * k + (u.s * v.e0e2e3e4) * k) by (nonlinear_arith);
}

/// Distribute a scalar over one coefficient of the product `u * v`.
proof fn scale_left_transform_e0e2e3e4(u: TransformModel, v: TransformModel, k: int)
    ensures
        k * (u.e0e1 * v.e1e2e3e4 + u.e0e1e2e3 * v.e1e4 - u.e0e1e2e4 * v.e1e3 + u.e0e1e3e4 * v.e1e2 + u.e0e2 * v.e3e4 + u.e0e2e3e4 * v.s - u.e0e3 * v.e2e4 + u.e0e4 * v.e2e3 - u.e1e2 * v.e0e1e3e4 - u.e1e2e3e4 * v.e0e1 + u.e1e3 * v.e0e1e2e4 - u.e1e4 * v.e0e1e2e3 + u.e2e3 * v.e0e4 - u.e2e4 * v.e0e3 + u.e3e4 * v.e0e2 + u.s * v.e0e2e3e4) == k * (u.e0e1 * v.e1e2e3e4) + k * (u.e0e1e2e3 * v.e1e4) - k * (u.e0e1e2e4 * v.e1e3) + k * (u.e0e1e3e4 * v.e1e2) + k * (u.e0e2 * v.e3e4) + k * (u.e0e2e3e4 * v.s) - k * (u.e0e3 * v.e2e4) + k * (u.e0e4 * v.e2e3) - k * (u.e1e2 * v.e0e1e3e4) - k * (u.e1e2e3e4 * v.e0e1) + k * (u.e1e3 * v.e0e1e2e4) - k * (u.e1e4 * v.e0e1e2e3) + k * (u.e2e3 * v.e0e4) - k * (u.e2e4 * v.e0e3) + k * (u.e3e4 * v.e0e2) + k * (u.s * v.e0e2e3e4),
{
    assert(k * (u.e0e1 * v.e1e2e3e4 + u.e0e1e2e3 * v.e1e4 - u.e0e1e2e4 * v.e1e3 + u.e0e1e3e4 * v.e1e2 + u.e0e2 * v.e3e4 + u.e0e2e3e4 * v.s - u.e0e3 * v.e2e4 + u.e0e4 * v.e2e3 - u.e1e2 * v.e0e1e3e4 - u.e1e2e3e4 * v.e0e1 + u.e1e3 * v.e0e1e2e4 - u.e1e4 * v.e0e1e2e3 + u.e2e3 * v.e0e4 - u.e2e4 * v.e0e3 + u.e3e4 * v.e0e2 + u.s * v.e0e2e3e4) == k * (u.e0e1 * v.e1e2e3e4) + k * (u.e0e1e2e3 * v.e1e4) - k * (u.e0e1e2e4 * v.e1e3) + k * (u.e0e1e3e4 * v.e1e2) + k * (u.e0e2 * v.e3e4) + k * (u.e0e2e3e4 * v.s) - k * (u.e0e3 * v.e2e4) + k * (u.e0e4 * v.e2e3) - k * (u.e1e2 * v.e0e1e3e4) - k * (u.e1e2e3e4 * v.e0e1) + k * (u.e1e3 * v.e0e1e2e4) - k * (u.e1e4 * v.e0e1e2e3) + k * (u.e2e3 * v.e0e4) - k * (u.e2e4 * v.e0e3) + k * (u.e3e4 * v.e0e2) + k * (u.s * v.e0e2e3e4)) by (nonlinear_arith);
}

/// Distribute a scalar over one coefficient of the product `u * v`.
proof fn scale_right_transform_e1e2e3e4(u: TransformModel, v: TransformModel, k: int)
    ensures
        (u.e1e2 * v.e3e4 + u.e1e2e3e4 * v.s - u.e1e3 * v.e2e4 + u.e1e4 * v.e2e3 + u.e2e3 * v.e1e4 - u.e2e4 * v.e1e3 + u.e3e4 * v.e1e2 + u.s * v.e1e2e3e4) * k == (u.e1e2 * v.e3e4) * k + (u.e1e2e3e4 * v.s) * k - (u.e1e3 * v.e2e4) * k + (u.e1e4 * v.e2e3) * k + (u.e2e3 * v.e1e4) * k - (u.e2e4 * v.e1e3) * k + (u.e3e4 * v.e1e2) * k + (u.s * v.e1e2e3e4) * k,
{
    assert((u.e1e2 * v.e3e4 + u.e1e2e3e4 * v.s - u.e1e3 * v.e2e4 + u.e1e4 * v.e2e3 + u.e2e3 * v.e1e4 - u.e2e4 * v.e1e3 + u.e3e4 * v.e1e2 + u.s * v.e1e2e3e4) * k == (u.e1e2 * v.e3e4) * k + (u.e1e2e3e4 * v.s) * k - (u.e1e3 * v.e2e4) * k + (u.e1e4 * v.e2e3) * k + (u.e2e3 * v.e1e4) * k - (u.e2e4 * v.e1e3) * k + (u.e3e4 * v.e1e2) * k + (u.s * v.e1e2e3e4) * k) by (nonlinear_arith);
}

/// Distribute a scalar over one coefficient of the product `u * v`.
proof fn scale_left_transform_e1e2e3e4(u: TransformModel, v: TransformModel, k: int)
    ensures
        k * (u.e1e2 * v.e3e4 + u.e1e2e3e4 * v.s - u.e1e3 * v.e2e4 + u.e1e4 * v.e2e3 + u.e2e3 * v.e1e4 - u.e2e4 * v.e1e3 + u.e3e4 * v.e1e2 + u.s * v.e1e2e3e4) == k * (u.e1e2 * v.e3e4) + k * (u.e1e2e3e4 * v.s) - k * (u.e1e3 * v.e2e4) + k * (u.e1e4 * v.e2e3) + k * (u.e2e3 * v.e1e4) - k * (u.e2e4 * v.e1e3) + k * (u.e3e4 * v.e1e2) + k * (u.s * v.e1e2e3e4),
{
    assert(k * (u.e1e2 * v.e3e4 + u.e1e2e3e4 * v.s - u.e1e3 * v.e2e4 + u.e1e4 * v.e2e3 + u.e2e3 * v.e1e4 - u.e2e4 * v.e1e3 + u.e3e4 * v.e1e2 + u.s * v.e1e2e3e4) == k * (u.e1e2 * v.e3e4) + k * (u.e1e2e3e4 * v.s) - k * (u.e1e3 * v.e2e4) + k * (u.e1e4 * v.e2e3) + k * (u.e2e3 * v.e1e4) - k * (u.e2e4 * v.e1e3) + k * (u.e3e4 * v.e1e2) + k * (u.s * v.e1e2e3e4)) by (nonlinear_arith);
}

/// Composition is associative.
#[verifier::rlimit(100)]
pub proof fn lemma_transform_compose_assoc(a: TransformModel, b: TransformModel, c: TransformModel)
    ensures
        transform_and_then(transform_and_then(a, b), c) == transform_and_then(a, transform_and_then(b, c)),
{
    let l = transform_and_then(transform_and_then(a, b), c);
    let r = transform_and_then(a, transform_and_then(b, c));
    lemma_mul_regroup_all();
    assert(l.s == -((a.e1e2 * b.s - a.e1e2e3e4 * b.e3e4 - a.e1e3 * b.e2e3 - a.e1e4 * b.e2e4 + a.e2e3 * b.e1e3 + a.e2e4 * b.e1e4 - a.e3e4 * b.e1e2e3e4 + a.s * b.e1e2) * c.e1e2) + (a.e1e2 * b.e3e4 + a.e1e2e3e4 * b.s - a.e1e3 * b.e2e4 + a.e1e4 * b.e2e3 + a.e2e3 * b.e1e4 - a.e2e4 * b.e1e3 + a.e3e4 * b.e1e2 + a.s * b.e1e2e3e4) * c.e1e2e3e4 - (a.e1e2 * b.e2e3 + a.e1e2e3e4 * b.e2e4 + a.e1e3 * b.s - a.e1e4 * b.e3e4 - a.e2e3 * b.e1e2 + a.e2e4 * b.e1e2e3e4 + a.e3e4 * b.e1e4 + a.s * b.e1e3) * c.e1e3 - (a.e1e2 * b.e2e4 - a.e1e2e3e4 * b.e2e3 + a.e1e3 * b.e3e4 + a.e1e4 * b.s - a.e2e3 * b.e1e2e3e4 - a.e2e4 * b.e1e2 - a.e3e4 * b.e1e3 + a.s * b.e1e4) * c.e1e4 - (-(a.e1e2 * b.e1e3) - a.e1e2e3e4 * b.e1e4 + a.e1e3 * b.e1e2 - a.e1e4 * b.e1e2e3e4 + a.e2e3 * b.s - a.e2e4 * b.e3e4 + a.e3e4 * b.e2e4 + a.s * b.e2e3) * c.e2e3 - (-(a.e1e2 * b.e1e4) + a.e1e2e3e4 * b.e1e3 + a.e1e3 * b.e1e2e3e4 + a.e1e4 * b.e1e2 + a.e2e3 * b.e3e4 + a.e2e4 * b.s - a.e3e4 * b.e2e3 + a.s * b.e2e4) * c.e2e4 - (-(a.e1e2 * b.e1e2e3e4) - a.e1e2e3e4 * b.e1e2 - a.e1e3 * b.e1e4 + a.e1e4 * b.e1e3 - a.e2e3 * b.e2e4 + a.e2e4 * b.e2e3 + a.e3e4 * b.s + a.s * b.e3e4) * c.e3e4 + (-(a.e1e2 * b.e1e2) + a.e1e2e3e4 * b.e1e2e3e4 - a.e1e3 * b.e1e3 - a.e1e4 * b.e1e4 - a.e2e3 * b.e2e3 - a.e2e4 * b.e2e4 - a.e3e4 * b.e3e4 + a.s * b.s) * c.s);
    assert(r.s == -(a.e1e2 * (b.e1e2 * c.s - b.e1e2e3e4 * c.e3e4 - b.e1e3 * c.e2e3 - b.e1e4 * c.e2e4 + b.e2e3 * c.e1e3 + b.e2e4 * c.e1e4 - b.e3e4 * c.e1e2e3e4 + b.s * c.e1e2)) + a.e1e2e3e4 * (b.e1e2 * c.e3e4 + b.e1e2e3e4 * c.s - b.e1e3 * c.e2e4 + b.e1e4 * c.e2e3 + b.e2e3 * c.e1e4 - b.e2e4 * c.e1e3 + b.e3e4 * c.e1e2 + b.s * c.e1e2e3e4) - a.e1e3 * (b.e1e2 * c.e2e3 + b.e1e2e3e4 * c.e2e4 + b.e1e3 * c.s - b.e1e4 * c.e3e4 - b.e2e3 * c.e1e2 + b.e2e4 * c.e1e2e3e4 + b.e3e4 * c.e1e4 + b.s * c.e1e3) - a.e1e4 * (b.e1e2 * c.e2e4 - b.e1e2e3e4 * c.e2e3 + b.e1e3 * c.e3e4 + b.e1e4 * c.s - b.e2e3 * c.e1e2e3e4 - b.e2e4 * c.e1e2 - b.e3e4 * c.e1e3 + b.s * c.e1e4) - a.e2e3 * (-(b.e1e2 * c.e1e3) - b.e1e2e3e4 * c.e1e4 + b.e1e3 * c.e1e2 - b.e1e4 * c.e1e2e3e4 + b.e2e3 * c.s - b.e2e4 * c.e3e4 + b.e3e4 * c.e2e4 + b.s * c.e2e3) - a.e2e4 * (-(b.e1e2 * c.e1e4) + b.e1e2e3e4 * c.e1e3 + b.e1e3 * c.e1e2e3e4 + b.e1e4 * c.e1e2 + b.e2e3 * c.e3e4 + b.e2e4 * c.s - b.e3e4 * c.e2e3 + b.s * c.e2e4) - a.e3e4 * (-(b.e1e2 * c.e1e2e3e4) - b.e1e2e3e4 * c.e1e2 - b.e1e3 * c.e1e4 + b.e1e4 * c.e1e3 - b.e2e3 * c.e2e4 + b.e2e4 * c.e2e3 + b.e3e4 * c.s + b.s * c.e3e4) + a.s * (-(b.e1e2 * c.e1e2) + b.e1e2e3e4 * c.e1e2e3e4 - b.e1e3 * c.e1e3 - b.e1e4 * c.e1e4 - b.e2e3 * c.e2e3 - b.e2e4 * c.e2e4 - b.e3e4 * c.e3e4 + b.s * c.s));
    scale_right_transform_e1e2(a, b, c.e1e2);
    scale_right_transform_e1e2e3e4(a, b, c.e1e2e3e4);
    scale_right_transform_e1e3(a, b, c.e1e3);
    scale_right_transform_e1e4(a, b, c.e1e4);
    scale_right_transform_e2e3(a, b, c.e2e3);
    scale_right_transform_e2e4(a, b, c.e2e4);
    scale_right_transform_e3e4(a, b, c.e3e4);
    scale_right_transform_s(a, b, c.s);
    scale_left_transform_e1e2(b, c, a.e1e2);
    scale_left_transform_e1e2e3e4(b, c, a.e1e2e3e4);
    scale_left_transform_e1e3(b, c, a.e1e3);
    scale_left_transform_e1e4(b, c, a.e1e4);
    scale_left_transform_e2e3(b, c, a.e2e3);
    scale_left_transform_e2e4(b, c, a.e2e4);
    scale_left_transform_e3e4(b, c, a.e3e4);
    scale_left_transform_s(b, c, a.s);
    assert(l.s == -((a.e1e2 * b.e1e2) * c.s) + (a.e1e2 * b.e1e2e3e4) * c.e3e4 + (a.e1e2 * b.e1e3) * c.e2e3 + (a.e1e2 * b.e1e4) * c.e2e4 - (a.e1e2 * b.e2e3) * c.e1e3 - (a.e1e2 * b.e2e4) * c.e1e4 + (a.e1e2 * b.e3e4) * c.e1e2e3e4 - (a.e1e2 * b.s) * c.e1e2 + (a.e1e2e3e4 * b.e1e2) * c.e3e4 + (a.e1e2e3e4 * b.e1e2e3e4) * c.s - (a.e1e2e3e4 * b.e1e3) * c.e2e4 + (a.e1e2e3e4 * b.e1e4) * c.e2e3 + (a.e1e2e3e4 * b.e2e3) * c.e1e4 - (a.e1e2e3e4 * b.e2e4) * c.e1e3 + (a.e1e2e3e4 * b.e3e4) * c.e1e2 + (a.e1e2e3e4 * b.s) * c.e1e2e3e4 - (a.e1e3 * b.e1e2) * c.e2e3 - (a.e1e3 * b.e1e2e3e4) * c.e2e4 - (a.e1e3 * b.e1e3) * c.s + (a.e1e3 * b.e1e4) * c.e3e4 + (a.e1e3 * b.e2e3) * c.e1e2 - (a.e1e3 * b.e2e4) * c.e1e2e3e4 - (a.e1e3 * b.e3e4) * c.e1e4 - (a.e1e3 * b.s) * c.e1e3 - (a.e1e4 * b.e1e2) * c.e2e4 + (a.e1e4 * b.e1e2e3e4) * c.e2e3 - (a.e1e4 * b.e1e3) * c.e3e4 - (a.e1e4 * b.e1e4) * c.s + (a.e1e4 * b.e2e3) * c.e1e2e3e4 + (a.e1e4 * b.e2e4) * c.e1e2 + (a.e1e4 * b.e3e4) * c.e1e3 - (a.e1e4 * b.s) * c.e1e4 + (a.e2e3 * b.e1e2) * c.e1e3 + (a.e2e3 * b.e1e2e3e4) * c.e1e4 - (a.e2e3 * b.e1e3) * c.e1e2 + (a.e2e3 * b.e1e4) * c.e1e2e3e4 - (a.e2e3 * b.e2e3) * c.s + (a.e2e3 * b.e2e4) * c.e3e4 - (a.e2e3 * b.e3e4) * c.e2e4 - (a.e2e3 * b.s) * c.e2e3 + (a.e2e4 * b.e1e2) * c.e1e4 - (a.e2e4 * b.e1e2e3e4) * c.e1e3 - (a.e2e4 * b.e1e3) * c.e1e2e3e4 - (a.e2e4 * b.e1e4) * c.e1e2 - (a.e2e4 * b.e2e3) * c.e3e4 - (a.e2e4 * b.e2e4) * c.s + (a.e2e4 * b.e3e4) * c.e2e3 - (a.e2e4 * b.s) * c.e2e4 + (a.e3e4 * b.e1e2) * c.e1e2e3e4 + (a.e3e4 * b.e1e2e3e4) * c.e1e2 + (a.e3e4 * b.e1e3) * c.e1e4 - (a.e3e4 * b.e1e4) * c.e1e3 + (a.e3e4 * b.e2e3) * c.e2e4 - (a.e3e4 * b.e2e4) * c.e2e3 - (a.e3e4 * b.e3e4) * c.s - (a.e3e4 * b.s) * c.e3e4 - (a.s * b.e1e2) * c.e1e2 + (a.s * b.e1e2e3e4) * c.e1e2e3e4 - (a.s * b.e1e3) * c.e1e3 - (a.s * b.e1e4) * c.e1e4 - (a.s * b.e2e3) * c.e2e3 - (a.s * b.e2e4) * c.e2e4 - (a.s * b.e3e4) * c.e3e4 + (a.s * b.s) * c.s);
    assert(r.s == -((a.e1e2 * b.e1e2) * c.s) + (a.e1e2 * b.e1e2e3e4) * c.e3e4 + (a.e1e2 * b.e1e3) * c.e2e3 + (a.e1e2 * b.e1e4) * c.e2e4 - (a.e1e2 * b.e2e3) * c.e1e3 - (a.e1e2 * b.e2e4) * c.e1e4 + (a.e1e2 * b.e3e4) * c.e1e2e3e4 - (a.e1e2 * b.s) * c.e1e2 + (a.e1e2e3e4 * b.e1e2) * c.e3e4 + (a.e1e2e3e4 * b.e1e2e3e4) * c.s - (a.e1e2e3e4 * b.e1e3) * c.e2e4 + (a.e1e2e3e4 * b.e1e4) * c.e2e3 + (a.e1e2e3e4 * b.e2e3) * c.e1e4 - (a.e1e2e3e4 * b.e2e4) * c.e1e3 + (a.e1e2e3e4 * b.e3e4) * c.e1e2 + (a.e1e2e3e4 * b.s) * c.e1e2e3e4 - (a.e1e3 * b.e1e2) * c.e2e3 - (a.e1e3 * b.e1e2e3e4) * c.e2e4 - (a.e1e3 * b.e1e3) * c.s + (a.e1e3 * b.e1e4) * c.e3e4 + (a.e1e3 * b.e2e3) * c.e1e2 - (a.e1e3 * b.e2e4) * c.e1e2e3e4 - (a.e1e3 * b.e3e4) * c.e1e4 - (a.e1e3 * b.s) * c.e1e3 - (a.e1e4 * b.e1e2) * c.e2e4 + (a.e1e4 * b.e1e2e3e4) * c.e2e3 - (a.e1e4 * b.e1e3) * c.e3e4 - (a.e1e4 * b.e1e4) * c.s + (a.e1e4 * b.e2e3) * c.e1e2e3e4 + (a.e1e4 * b.e2e4) * c.e1e2 + (a.e1e4 * b.e3e4) * c.e1e3 - (a.e1e4 * b.s) * c.e1e4 + (a.e2e3 * b.e1e2) * c.e1e3 + (a.e2e3 * b.e1e2e3e4) * c.e1e4 - (a.e2e3 * b.e1e3) * c.e1e2 + (a.e2e3 * b.e1e4) * c.e1e2e3e4 - (a.e2e3 * b.e2e3) * c.s + (a.e2e3 * b.e2e4) * c.e3e4 - (a.e2e3 * b.e3e4) * c.e2e4 - (a.e2e3 * b.s) * c.e2e3 + (a.e2e4 * b.e1e2) * c.e1e4 - (a.e2e4 * b.e1e2e3e4) * c.e1e3 - (a.e2e4 * b.e1e3) * c.e1e2e3e4 - (a.e2e4 * b.e1e4) * c.e1e2 - (a.e2e4 * b.e2e3) * c.e3e4 - (a.e2e4 * b.e2e4) * c.s + (a.e2e4 * b.e3e4) * c.e2e3 - (a.e2e4 * b.s) * c.e2e4 + (a.e3e4 * b.e1e2) * c.e1e2e3e4 + (a.e3e4 * b.e1e2e3e4) * c.e1e2 + (a.e3e4 * b.e1e3) * c.e1e4 - (a.e3e4 * b.e1e4) * c.e1e3 + (a.e3e4 * b.e2e3) * c.e2e4 - (a.e3e4 * b.e2e4) * c.e2e3 - (a.e3e4 * b.e3e4) * c.s - (a.e3e4 * b.s) * c.e3e4 - (a.s * b.e1e2) * c.e1e2 + (a.s * b.e1e2e3e4) * c.e1e2e3e4 - (a.s * b.e1e3) * c.e1e3 - (a.s * b.e1e4) * c.e1e4 - (a.s * b.e2e3) * c.e2e3 - (a.s * b.e2e4) * c.e2e4 - (a.s * b.e3e4) * c.e3e4 + (a.s * b.s) * c.s);
    assert(l.e0e1 == (a.e0e1 * b.s - a.e0e1e2e3 * b.e2e3 - a.e0e1e2e4 * b.e2e4 - a.e0e1e3e4 * b.e3e4 - a.e0e2 * b.e1e2 + a.e0e2e3e4 * b.e1e2e3e4 - a.e0e3 * b.e1e3 - a.e0e4 * b.e1e4 + a.e1e2 * b.e0e2 - a.e1e2e3e4 * b.e0e2e3e4 + a.e1e3 * b.e0e3 + a.e1e4 * b.e0e4 - a.e2e3 * b.e0e1e2e3 - a.e2e4 * b.e0e1e2e4 - a.e3e4 * b.e0e1e3e4 + a.s * b.e0e1) * c.s - (a.e0e1 * b.e2e3 + a.e0e1e2e3 * b.s - a.e0e1e2e4 * b.e3e4 + a.e0e1e3e4 * b.e2e4 - a.e0e2 * b.e1e3 - a.e0e2e3e4 * b.e1e4 + a.e0e3 * b.e1e2 - a.e0e4 * b.e1e2e3e4 + a.e1e2 * b.e0e3 + a.e1e2e3e4 * b.e0e4 - a.e1e3 * b.e0e2 + a.e1e4 * b.e0e2e3e4 + a.e2e3 * b.e0e1 - a.e2e4 * b.e0e1e3e4 + a.e3e4 * b.e0e1e2e4 + a.s * b.e0e1e2e3) * c.e2e3 - (a.e0e1 * b.e2e4 + a.e0e1e2e3 * b.e3e4 + a.e0e1e2e4 * b.s - a.e0e1e3e4 * b.e2e3 - a.e0e2 * b.e1e4 + a.e0e2e3e4 * b.e1e3 + a.e0e3 * b.e1e2e3e4 + a.e0e4 * b.e1e2 + a.e1e2 * b.e0e4 - a.e1e2e3e4 * b.e0e3 - a.e1e3 * b.e0e2e3e4 - a.e1e4 * b.e0e2 + a.e2e3 * b.e0e1e3e4 + a.e2e4 * b.e0e1 - a.e3e4 * b.e0e1e2e3 + a.s * b.e0e1e2e4) * c.e2e4 - (a.e0e1 * b.e3e4 - a.e0e1e2e3 * b.e2e4 + a.e0e1e2e4 * b.e2e3 + a.e0e1e3e4 * b.s - a.e0e2 * b.e1e2e3e4 - a.e0e2e3e4 * b.e1e2 - a.e0e3 * b.e1e4 + a.e0e4 * b.e1e3 + a.e1e2 * b.e0e2e3e4 + a.e1e2e3e4 * b.e0e2 + a.e1e3 * b.e0e4 - a.e1e4 * b.e0e3 - a.e2e3 * b.e0e1e2e4 + a.e2e4 * b.e0e1e2e3 + a.e3e4 * b.e0e1 + a.s * b.e0e1e3e4) * c.e3e4 - (a.e0e1 * b.e1e2 + a.e0e1e2e3 * b.e1e3 + a.e0e1e2e4 * b.e1e4 - a.e0e1e3e4 * b.e1e2e3e4 + a.e0e2 * b.s - a.e0e2e3e4 * b.e3e4 - a.e0e3 * b.e2e3 - a.e0e4 * b.e2e4 - a.e1e2 * b.e0e1 + a.e1e2e3e4 * b.e0e1e3e4 + a.e1e3 * b.e0e1e2e3 + a.e1e4 * b.e0e1e2e4 + a.e2e3 * b.e0e3 + a.e2e4 * b.e0e4 - a.e3e4 * b.e0e2e3e4 + a.s * b.e0e2) * c.e1e2 + (a.e0e1 * b.e1e2e3e4 + a.e0e1e2e3 * b.e1e4 - a.e0e1e2e4 * b.e1e3 + a.e0e1e3e4 * b.e1e2 + a.e0e2 * b.e3e4 + a.e0e2e3e4 * b.s - a.e0e3 * b.e2e4 + a.e0e4 * b.e2e3 - a.e1e2 * b.e0e1e3e4 - a.e1e2e3e4 * b.e0e1 + a.e1e3 * b.e0e1e2e4 - a.e1e4 * b.e0e1e2e3 + a.e2e3 * b.e0e4 - a.e2e4 * b.e0e3 + a.e3e4 * b.e0e2 + a.s * b.e0e2e3e4) * c.e1e2e3e4 - (a.e0e1 * b.e1e3 - a.e0e1e2e3 * b.e1e2 + a.e0e1e2e4 * b.e1e2e3e4 + a.e0e1e3e4 * b.e1e4 + a.e0e2 * b.e2e3 + a.e0e2e3e4 * b.e2e4 + a.e0e3 * b.s - a.e0e4 * b.e3e4 - a.e1e2 * b.e0e1e2e3 - a.e1e2e3e4 * b.e0e1e2e4 - a.e1e3 * b.e0e1 + a.e1e4 * b.e0e1e3e4 - a.e2e3 * b.e0e2 + a.e2e4 * b.e0e2e3e4 + a.e3e4 * b.e0e4 + a.s * b.e0e3) * c.e1e3 - (a.e0e1 * b.e1e4 - a.e0e1e2e3 * b.e1e2e3e4 - a.e0e1e2e4 * b.e1e2 - a.e0e1e3e4 * b.e1e3 + a.e0e2 * b.e2e4 - a.e0e2e3e4 * b.e2e3 + a.e0e3 * b.e3e4 + a.e0e4 * b.s - a.e1e2 * b.e0e1e2e4 + a.e1e2e3e4 * b.e0e1e2e3 - a.e1e3 * b.e0e1e3e4 - a.e1e4 * b.e0e1 - a.e2e3 * b.e0e2e3e4 - a.e2e4 * b.e0e2 - a.e3e4 * b.e0e3 + a.s * b.e0e4) * c.e1e4 + (a.e1e2 * b.s - a.e1e2e3e4 * b.e3e4 - a.e1e3 * b.e2e3 - a.e1e4 * b.e2e4 + a.e2e3 * b.e1e3 + a.e2e4 * b.e1e4 - a.e3e4 * b.e1e2e3e4 + a.s * b.e1e2) * c.e0e2 - (a.e1e2 * b.e3e4 + a.e1e2e3e4 * b.s - a.e1e3 * b.e2e4 + a.e1e4 * b.e2e3 + a.e2e3 * b.e1e4 - a.e2e4 * b.e1e3 + a.e3e4 * b.e1e2 + a.s * b.e1e2e3e4) * c.e0e2e3e4 + (a.e1e2 * b.e2e3 + a.e1e2e3e4 * b.e2e4 + a.e1e3 * b.s - a.e1e4 * b.e3e4 - a.e2e3 * b.e1e2 + a.e2e4 * b.e1e2e3e4 + a.e3e4 * b.e1e4 + a.s * b.e1e3) * c.e0e3 + (a.e1e2 * b.e2e4 - a.e1e2e3e4 * b.e2e3 + a.e1e3 * b.e3e4 + a.e1e4 * b.s - a.e2e3 * b.e1e2e3e4 - a.e2e4 * b.e1e2 - a.e3e4 * b.e1e3 + a.s * b.e1e4) * c.e0e4 - (-(a.e1e2 * b.e1e3) - a.e1e2e3e4 * b.e1e4 + a.e1e3 * b.e1e2 - a.e1e4 * b.e1e2e3e4 + a.e2e3 * b.s - a.e2e4 * b.e3e4 + a.e3e4 * b.e2e4 + a.s * b.e2e3) * c.e0e1e2e3 - (-(a.e1e2 * b.e1e4) + a.e1e2e3e4 * b.e1e3 + a.e1e3 * b.e1e2e3e4 + a.e1e4 * b.e1e2 + a.e2e3 * b.e3e4 + a.e2e4 * b.s - a.e3e4 * b.e2e3 + a.s * b.e2e4) * c.e0e1e2e4 - (-(a.e1e2 * b.e1e2e3e4) - a.e1e2e3e4 * b.e1e2 - a.e1e3 * b.e1e4 + a.e1e4 * b.e1e3 - a.e2e3 * b.e2e4 + a.e2e4 * b.e2e3 + a.e3e4 * b.s + a.s * b.e3e4) * c.e0e1e3e4 + (-(a.e1e2 * b.e1e2) + a.e1e2e3e4 * b.e1e2e3e4 - a.e1e3 * b.e1e3 - a.e1e4 * b.e1e4 - a.e2e3 * b.e2e3 - a.e2e4 * b.e2e4 - a.e3e4 * b.e3e4 + a.s * b.s) * c.e0e1);
    assert(r.e0e1 == a.e0e1 * (-(b.e1e2 * c.e1e2) + b.e1e2e3e4 * c.e1e2e3e4 - b.e1e3 * c.e1e3 - b.e1e4 * c.e1e4 - b.e2e3 * c.e2e3 - b.e2e4 * c.e2e4 - b.e3e4 * c.e3e4 + b.s * c.s) - a.e0e1e2e3 * (-(b.e1e2 * c.e1e3) - b.e1e2e3e4 * c.e1e4 + b.e1e3 * c.e1e2 - b.e1e4 * c.e1e2e3e4 + b.e2e3 * c.s - b.e2e4 * c.e3e4 + b.e3e4 * c.e2e4 + b.s * c.e2e3) - a.e0e1e2e4 * (-(b.e1e2 * c.e1e4) + b.e1e2e3e4 * c.e1e3 + b.e1e3 * c.e1e2e3e4 + b.e1e4 * c.e1e2 + b.e2e3 * c.e3e4 + b.e2e4 * c.s - b.e3e4 * c.e2e3 + b.s * c.e2e4) - a.e0e1e3e4 * (-(b.e1e2 * c.e1e2e3e4) - b.e1e2e3e4 * c.e1e2 - b.e1e3 * c.e1e4 + b.e1e4 * c.e1e3 - b.e2e3 * c.e2e4 + b.e2e4 * c.e2e3 + b.e3e4 * c.s + b.s * c.e3e4) - a.e0e2 * (b.e1e2 * c.s - b.e1e2e3e4 * c.e3e4 - b.e1e3 * c.e2e3 - b.e1e4 * c.e2e4 + b.e2e3 * c.e1e3 + b.e2e4 * c.e1e4 - b.e3e4 * c.e1e2e3e4 + b.s * c.e1e2) + a.e0e2e3e4 * (b.e1e2 * c.e3e4 + b.e1e2e3e4 * c.s - b.e1e3 * c.e2e4 + b.e1e4 * c.e2e3 + b.e2e3 * c.e1e4 - b.e2e4 * c.e1e3 + b.e3e4 * c.e1e2 + b.s * c.e1e2e3e4) - a.e0e3 * (b.e1e2 * c.e2e3 + b.e1e2e3e4 * c.e2e4 + b.e1e3 * c.s - b.e1e4 * c.e3e4 - b.e2e3 * c.e1e2 + b.e2e4 * c.e1e2e3e4 + b.e3e4 * c.e1e4 + b.s * c.e1e3) - a.e0e4 * (b.e1e2 * c.e2e4 - b.e1e2e3e4 * c.e2e3 + b.e1e3 * c.e3e4 + b.e1e4 * c.s - b.e2e3 * c.e1e2e3e4 - b.e2e4 * c.e1e2 - b.e3e4 * c.e1e3 + b.s * c.e1e4) + a.e1e2 * (b.e0e1 * c.e1e2 + b.e0e1e2e3 * c.e1e3 + b.e0e1e2e4 * c.e1e4 - b.e0e1e3e4 * c.e1e2e3e4 + b.e0e2 * c.s - b.e0e2e3e4 * c.e3e4 - b.e0e3 * c.e2e3 - b.e0e4 * c.e2e4 - b.e1e2 * c.e0e1 + b.e1e2e3e4 * c.e0e1e3e4 + b.e1e3 * c.e0e1e2e3 + b.e1e4 * c.e0e1e2e4 + b.e2e3 * c.e0e3 + b.e2e4 * c.e0e4 - b.e3e4 * c.e0e2e3e4 + b.s * c.e0e2) - a.e1e2e3e4 * (b.e0e1 * c.e1e2e3e4 + b.e0e1e2e3 * c.e1e4 - b.e0e1e2e4 * c.e1e3 + b.e0e1e3e4 * c.e1e2 + b.e0e2 * c.e3e4 + b.e0e2e3e4 * c.s - b.e0e3 * c.e2e4 + b.e0e4 * c.e2e3 - b.e1e2 * c.e0e1e3e4 - b.e1e2e3e4 * c.e0e1 + b.e1e3 * c.e0e1e2e4 - b.e1e4 * c.e0e1e2e3 + b.e2e3 * c.e0e4 - b.e2e4 * c.e0e3 + b.e3e4 * c.e0e2 + b.s * c.e0e2e3e4) + a.e1e3 * (b.e0e1 * c.e1e3 - b.e0e1e2e3 * c.e1e2 + b.e0e1e2e4 * c.e1e2e3e4 + b.e0e1e3e4 * c.e1e4 + b.e0e2 * c.e2e3 + b.e0e2e3e4 * c.e2e4 + b.e0e3 * c.s - b.e0e4 * c.e3e4 - b.e1e2 * c.e0e1e2e3 - b.e1e2e3e4 * c.e0e1e2e4 - b.e1e3 * c.e0e1 + b.e1e4 * c.e0e1e3e4 - b.e2e3 * c.e0e2 + b.e2e4 * c.e0e2e3e4 + b.e3e4 * c.e0e4 + b.s * c.e0e3) + a.e1e4 * (b.e0e1 * c.e1e4 - b.e0e1e2e3 * c.e1e2e3e4 - b.e0e1e2e4 * c.e1e2 - b.e0e1e3e4 * c.e1e3 + b.e0e2 * c.e2e4 - b.e0e2e3e4 * c.e2e3 + b.e0e3 * c.e3e4 + b.e0e4 * c.s - b.e1e2 * c.e0e1e2e4 + b.e1e2e3e4 * c.e0e1e2e3 - b.e1e3 * c.e0e1e3e4 - b.e1e4 * c.e0e1 - b.e2e3 * c.e0e2e3e4 - b.e2e4 * c.e0e2 - b.e3e4 * c.e0e3 + b.s * c.e0e4) - a.e2e3 * (b.e0e1 * c.e2e3 + b.e0e1e2e3 * c.s - b.e0e1e2e4 * c.e3e4 + b.e0e1e3e4 * c.e2e4 - b.e0e2 * c.e1e3 - b.e0e2e3e4 * c.e1e4 + b.e0e3 * c.e1e2 - b.e0e4 * c.e1e2e3e4 + b.e1e2 * c.e0e3 + b.e1e2e3e4 * c.e0e4 - b.e1e3 * c.e0e2 + b.e1e4 * c.e0e2e3e4 + b.e2e3 * c.e0e1 - b.e2e4 * c.e0e1e3e4 + b.e3e4 * c.e0e1e2e4 + b.s * c.e0e1e2e3) - a.e2e4 * (b.e0e1 * c.e2e4 + b.e0e1e2e3 * c.e3e4 + b.e0e1e2e4 * c.s - b.e0e1e3e4 * c.e2e3 - b.e0e2 * c.e1e4 + b.e0e2e3e4 * c.e1e3 + b.e0e3 * c.e1e2e3e4 + b.e0e4 * c.e1e2 + b.e1e2 * c.e0e4 - b.e1e2e3e4 * c.e0e3 - b.e1e3 * c.e0e2e3e4 - b.e1e4 * c.e0e2 + b.e2e3 * c.e0e1e3e4 + b.e2e4 * c.e0e1 - b.e3e4 * c.e0e1e2e3 + b.s * c.e0e1e2e4) - a.e3e4 * (b.e0e1 * c.e3e4 - b.e0e1e2e3 * c.e2e4 + b.e0e1e2e4 * c.e2e3 + b.e0e1e3e4 * c.s - b.e0e2 * c.e1e2e3e4 - b.e0e2e3e4 * c.e1e2 - b.e0e3 * c.e1e4 + b.e0e4 * c.e1e3 + b.e1e2 * c.e0e2e3e4 + b.e1e2e3e4 * c.e0e2 + b.e1e3 * c.e0e4 - b.e1e4 * c.e0e3 - b.e2e3 * c.e0e1e2e4 + b.e2e4 * c.e0e1e2e3 + b.e3e4 * c.e0e1 + b.s * c.e0e1e3e4) + a.s * (b.e0e1 * c.s - b.e0e1e2e3 * c.e2e3 - b.e0e1e2e4 * c.e2e4 - b.e0e1e3e4 * c.e3e4 - b.e0e2 * c.e1e2 + b.e0e2e3e4 * c.e1e2e3e4 - b.e0e3 * c.e1e3 - b.e0e4 * c.e1e4 + b.e1e2 * c.e0e2 - b.e1e2e3e4 * c.e0e2e3e4 + b.e1e3 * c.e0e3 + b.e1e4 * c.e0e4 - b.e2e3 * c.e0e1e2e3 - b.e2e4 * c.e0e1e2e4 - b.e3e4 * c.e0e1e3e4 + b.s * c.e0e1));
    scale_right_transform_e0e1(a, b, c.s);
    scale_right_transform_e0e1e2e3(a, b, c.e2e3);
    scale_right_transform_e0e1e2e4(a, b, c.e2e4);
    scale_right_transform_e0e1e3e4(a, b, c.e3e4);
    scale_right_transform_e0e2(a, b, c.e1e2);
    scale_right_transform_e0e2e3e4(a, b, c.e1e2e3e4);
    scale_right_transform_e0e3(a, b, c.e1e3);
    scale_right_transform_e0e4(a, b, c.e1e4);
    scale_right_transform_e1e2(a, b, c.e0e2);
    scale_right_transform_e1e2e3e4(a, b, c.e0e2e3e4);
    scale_right_transform_e1e3(a, b, c.e0e3);
    scale_right_transform_e1e4(a, b, c.e0e4);
    scale_right_transform_e2e3(a, b, c.e0e1e2e3);
    scale_right_transform_e2e4(a, b, c.e0e1e2e4);
    scale_right_transform_e3e4(a, b, c.e0e1e3e4);
    scale_right_transform_s(a, b, c.e0e1);
    scale_left_transform_s(b, c, a.e0e1);
    scale_left_transform_e2e3(b, c, a.e0e1e2e3);
    scale_left_transform_e2e4(b, c, a.e0e1e2e4);
    scale_left_transform_e3e4(b, c, a.e0e1e3e4);
    scale_left_transform_e1e2(b, c, a.e0e2);
    scale_left_transform_e1e2e3e4(b, c, a.e0e2e3e4);
    scale_left_transform_e1e3(b, c, a.e0e3);
    scale_left_transform_e1e4(b, c, a.e0e4);
    scale_left_transform_e0e2(b, c, a.e1e2);
    scale_left_transform_e0e2e3e4(b, c, a.e1e2e3e4);
    scale_left_transform_e0e3(b, c, a.e1e3);
    scale_left_transform_e0e4(b, c, a.e1e4);
    scale_left_transform_e0e1e2e3(b, c, a.e2e3);
    scale_left_transform_e0e1e2e4(b, c, a.e2e4);
    scale_left_transform_e0e1e3e4(b, c, a.e3e4);
    scale_left_transform_e0e1(b, c, a.s);
    assert(l.e0e1 == -((a.e0e1 * b.e1e2) * c.e1e2) + (a.e0e1 * b.e1e2e3e4) * c.e1e2e3e4 - (a.e0e1 * b.e1e3) * c.e1e3 - (a.e0e1 * b.e1e4) * c.e1e4 - (a.e0e1 * b.e2e3) * c.e2e3 - (a.e0e1 * b.e2e4) * c.e2e4 - (a.e0e1 * b.e3e4) * c.e3e4 + (a.e0e1 * b.s) * c.s + (a.e0e1e2e3 * b.e1e2) * c.e1e3 + (a.e0e1e2e3 * b.e1e2e3e4) * c.e1e4 - (a.e0e1e2e3 * b.e1e3) * c.e1e2 + (a.e0e1e2e3 * b.e1e4) * c.e1e2e3e4 - (a.e0e1e2e3 * b.e2e3) * c.s + (a.e0e1e2e3 * b.e2e4) * c.e3e4 - (a.e0e1e2e3 * b.e3e4) * c.e2e4 - (a.e0e1e2e3 * b.s) * c.e2e3 + (a.e0e1e2e4 * b.e1e2) * c.e1e4 - (a.e0e1e2e4 * b.e1e2e3e4) * c.e1e3 - (a.e0e1e2e4 * b.e1e3) * c.e1e2e3e4 - (a.e0e1e2e4 * b.e1e4) * c.e1e2 - (a.e0e1e2e4 * b.e2e3) * c.e3e4 - (a.e0e1e2e4 * b.e2e4) * c.s + (a.e0e1e2e4 * b.e3e4) * c.e2e3 - (a.e0e1e2e4 * b.s) * c.e2e4 + (a.e0e1e3e4 * b.e1e2) * c.e1e2e3e4 + (a.e0e1e3e4 * b.e1e2e3e4) * c.e1e2 + (a.e0e1e3e4 * b.e1e3) * c.e1e4 - (a.e0e1e3e4 * b.e1e4) * c.e1e3 + (a.e0e1e3e4 * b.e2e3) * c.e2e4 - (a.e0e1e3e4 * b.e2e4) * c.e2e3 - (a.e0e1e3e4 * b.e3e4) * c.s - (a.e0e1e3e4 * b.s) * c.e3e4 - (a.e0e2 * b.e1e2) * c.s + (a.e0e2 * b.e1e2e3e4) * c.e3e4 + (a.e0e2 * b.e1e3) * c.e2e3 + (a.e0e2 * b.e1e4) * c.e2e4 - (a.e0e2 * b.e2e3) * c.e1e3 - (a.e0e2 * b.e2e4) * c.e1e4 + (a.e0e2 * b.e3e4) * c.e1e2e3e4 - (a.e0e2 * b.s) * c.e1e2 + (a.e0e2e3e4 * b.e1e2) * c.e3e4 + (a.e0e2e3e4 * b.e1e2e3e4) * c.s - (a.e0e2e3e4 * b.e1e3) * c.e2e4 + (a.e0e2e3e4 * b.e1e4) * c.e2e3 + (a.e0e2e3e4 * b.e2e3) * c.e1e4 - (a.e0e2e3e4 * b.e2e4) * c.e1e3 + (a.e0e2e3e4 * b.e3e4) * c.e1e2 + (a.e0e2e3e4 * b.s) * c.e1e2e3e4 - (a.e0e3 * b.e1e2) * c.e2e3 - (a.e0e3 * b.e1e2e3e4) * c.e2e4 - (a.e0e3 * b.e1e3) * c.s + (a.e0e3 * b.e1e4) * c.e3e4 + (a.e0e3 * b.e2e3) * c.e1e2 - (a.e0e3 * b.e2e4) * c.e1e2e3e4 - (a.e0e3 * b.e3e4) * c.e1e4 - (a.e0e3 * b.s) * c.e1e3 - (a.e0e4 * b.e1e2) * c.e2e4 + (a.e0e4 * b.e1e2e3e4) * c.e2e3 - (a.e0e4 * b.e1e3) * c.e3e4 - (a.e0e4 * b.e1e4) * c.s + (a.e0e4 * b.e2e3) * c.e1e2e3e4 + (a.e0e4 * b.e2e4) * c.e1e2 + (a.e0e4 * b.e3e4) * c.e1e3 - (a.e0e4 * b.s) * c.e1e4 + (a.e1e2 * b.e0e1) * c.e1e2 + (a.e1e2 * b.e0e1e2e3) * c.e1e3 + (a.e1e2 * b.e0e1e2e4) * c.e1e4 - (a.e1e2 * b.e0e1e3e4) * c.e1e2e3e4 + (a.e1e2 * b.e0e2) * c.s - (a.e1e2 * b.e0e2e3e4) * c.e3e4 - (a.e1e2 * b.e0e3) * c.e2e3 - (a.e1e2 * b.e0e4) * c.e2e4 - (a.e1e2 * b.e1e2) * c.e0e1 + (a.e1e2 * b.e1e2e3e4) * c.e0e1e3e4 + (a.e1e2 * b.e1e3) * c.e0e1e2e3 + (a.e1e2 * b.e1e4) * c.e0e1e2e4 + (a.e1e2 * b.e2e3) * c.e0e3 + (a.e1e2 * b.e2e4) * c.e0e4 - (a.e1e2 * b.e3e4) * c.e0e2e3e4 + (a.e1e2 * b.s) * c.e0e2 - (a.e1e2e3e4 * b.e0e1) * c.e1e2e3e4 - (a.e1e2e3e4 * b.e0e1e2e3) * c.e1e4 + (a.e1e2e3e4 * b.e0e1e2e4) * c.e1e3 - (a.e1e2e3e4 * b.e0e1e3e4) * c.e1e2 - (a.e1e2e3e4 * b.e0e2) * c.e3e4 - (a.e1e2e3e4 * b.e0e2e3e4) * c.s + (a.e1e2e3e4 * b.e0e3) * c.e2e4 - (a.e1e2e3e4 * b.e0e4) * c.e2e3 + (a.e1e2e3e4 * b.e1e2) * c.e0e1e3e4 + (a.e1e2e3e4 * b.e1e2e3e4) * c.e0e1 - (a.e1e2e3e4 * b.e1e3) * c.e0e1e2e4 + (a.e1e2e3e4 * b.e1e4) * c.e0e1e2e3 - (a.e1e2e3e4 * b.e2e3) * c.e0e4 + (a.e1e2e3e4 * b.e2e4) * c.e0e3 - (a.e1e2e3e4 * b.e3e4) * c.e0e2 - (a.e1e2e3e4 * b.s) * c.e0e2e3e4 + (a.e1e3 * b.e0e1) * c.e1e3 - (a.e1e3 * b.e0e1e2e3) * c.e1e2 + (a.e1e3 * b.e0e1e2e4) * c.e1e2e3e4 + (a.e1e3 * b.e0e1e3e4) * c.e1e4 + (a.e1e3 * b.e0e2) * c.e2e3 + (a.e1e3 * b.e0e2e3e4) * c.e2e4 + (a.e1e3 * b.e0e3) * c.s - (a.e1e3 * b.e0e4) * c.e3e4 - (a.e1e3 * b.e1e2) * c.e0e1e2e3 - (a.e1e3 * b.e1e2e3e4) * c.e0e1e2e4 - (a.e1e3 * b.e1e3) * c.e0e1 + (a.e1e3 * b.e1e4) * c.e0e1e3e4 - (a.e1e3 * b.e2e3) * c.e0e2 + (a.e1e3 * b.e2e4) * c.e0e2e3e4 + (a.e1e3 * b.e3e4) * c.e0e4 + (a.e1e3 * b.s) * c.e0e3 + (a.e1e4 * b.e0e1) * c.e1e4 - (a.e1e4 * b.e0e1e2e3) * c.e1e2e3e4 - (a.e1e4 * b.e0e1e2e4) * c.e1e2 - (a.e1e4 * b.e0e1e3e4) * c.e1e3 + (a.e1e4 * b.e0e2) * c.e2e4 - (a.e1e4 * b.e0e2e3e4) * c.e2e3 + (a.e1e4 * b.e0e3) * c.e3e4 + (a.e1e4 * b.e0e4) * c.s - (a.e1e4 * b.e1e2) * c.e0e1e2e4 + (a.e1e4 * b.e1e2e3e4) * c.e0e1e2e3 - (a.e1e4 * b.e1e3) * c.e0e1e3e4 - (a.e1e4 * b.e1e4) * c.e0e1 - (a.e1e4 * b.e2e3) * c.e0e2e3e4 - (a.e1e4 * b.e2e4) * c.e0e2 - (a.e1e4 * b.e3e4) * c.e0e3 + (a.e1e4 * b.s) * c.e0e4 - (a.e2e3 * b.e0e1) * c.e2e3 - (a.e2e3 * b.e0e1e2e3) * c.s + (a.e2e3 * b.e0e1e2e4) * c.e3e4 - (a.e2e3 * b.e0e1e3e4) * c.e2e4 + (a.e2e3 * b.e0e2) * c.e1e3 + (a.e2e3 * b.e0e2e3e4) * c.e1e4 - (a.e2e3 * b.e0e3) * c.e1e2 + (a.e2e3 * b.e0e4) * c.e1e2e3e4 - (a.e2e3 * b.e1e2) * c.e0e3 - (a.e2e3 * b.e1e2e3e4) * c.e0e4 + (a.e2e3 * b.e1e3) * c.e0e2 - (a.e2e3 * b.e1e4) * c.e0e2e3e4 - (a.e2e3 * b.e2e3) * c.e0e1 + (a.e2e3 * b.e2e4) * c.e0e1e3e4 - (a.e2e3 * b.e3e4) * c.e0e1e2e4 - (a.e2e3 * b.s) * c.e0e1e2e3 - (a.e2e4 * b.e0e1) * c.e2e4 - (a.e2e4 * b.e0e1e2e3) * c.e3e4 - (a.e2e4 * b.e0e1e2e4) * c.s + (a.e2e4 * b.e0e1e3e4) * c.e2e3 + (a.e2e4 * b.e0e2) * c.e1e4 - (a.e2e4 * b.e0e2e3e4) * c.e1e3 - (a.e2e4 * b.e0e3) * c.e1e2e3e4 - (a.e2e4 * b.e0e4) * c.e1e2 - (a.e2e4 * b.e1e2) * c.e0e4 + (a.e2e4 * b.e1e2e3e4) * c.e0e3 + (a.e2e4 * b.e1e3) * c.e0e2e3e4 + (a.e2e4 * b.e1e4) * c.e0e2 - (a.e2e4 * b.e2e3) * c.e0e1e3e4 - (a.e2e4 * b.e2e4) * c.e0e1 + (a.e2e4 * b.e3e4) * c.e0e1e2e3 - (a.e2e4 * b.s) * c.e0e1e2e4 - (a.e3e4 * b.e0e1) * c.e3e4 + (a.e3e4 * b.e0e1e2e3) * c.e2e4 - (a.e3e4 * b.e0e1e2e4) * c.e2e3 - (a.e3e4 * b.e0e1e3e4) * c.s + (a.e3e4 * b.e0e2) * c.e1e2e3e4 + (a.e3e4 * b.e0e2e3e4) * c.e1e2 + (a.e3e4 * b.e0e3) * c.e1e4 - (a.e3e4 * b.e0e4) * c.e1e3 - (a.e3e4 * b.e1e2) * c.e0e2e3e4 - (a.e3e4 * b.e1e2e3e4) * c.e0e2 - (a.e3e4 * b.e1e3) * c.e0e4 + (a.e3e4 * b.e1e4) * c.e0e3 + (a.e3e4 * b.e2e3) * c.e0e1e2e4 - (a.e3e4 * b.e2e4) * c.e0e1e2e3 - (a.e3e4 * b.e3e4) * c.e0e1 - (a.e3e4 * b.s) * c.e0e1e3e4 + (a.s * b.e0e1) * c.s - (a.s * b.e0e1e2e3) * c.e2e3 - (a.s * b.e0e1e2e4) * c.e2e4 - (a.s * b.e0e1e3e4) * c.e3e4 - (a.s * b.e0e2) * c.e1e2 + (a.s * b.e0e2e3e4) * c.e1e2e3e4 - (a.s * b.e0e3) * c.e1e3 - (a.s * b.e0e4) * c.e1e4 + (a.s * b.e1e2) * c.e0e2 - (a.s * b.e1e2e3e4) * c.e0e2e3e4 + (a.s * b.e1e3) * c.e0e3 + (a.s * b.e1e4) * c.e0e4 - (a.s * b.e2e3) * c.e0e1e2e3 - (a.s * b.e2e4) * c.e0e1e2e4 - (a.s * b.e3e4) * c.e0e1e3e4 + (a.s * b.s) * c.e0e1);
    assert(r.e0e1 == -((a.e0e1 * b.e1e2) * c.e1e2) + (a.e0e1 * b.e1e2e3e4) * c.e1e2e3e4 - (a.e0e1 * b.e1e3) * c.e1e3 - (a.e0e1 * b.e1e4) * c.e1e4 - (a.e0e1 * b.e2e3) * c.e2e3 - (a.e0e1 * b.e2e4) * c.e2e4 - (a.e0e1 * b.e3e4) * c.e3e4 + (a.e0e1 * b.s) * c.s + (a.e0e1e2e3 * b.e1e2) * c.e1e3 + (a.e0e1e2e3 * b.e1e2e3e4) * c.e1e4 - (a.e0e1e2e3 * b.e1e3) * c.e1e2 + (a.e0e1e2e3 * b.e1e4) * c.e1e2e3e4 - (a.e0e1e2e3 * b.e2e3) * c.s + (a.e0e1e2e3 * b.e2e4) * c.e3e4 - (a.e0e1e2e3 * b.e3e4) * c.e2e4 - (a.e0e1e2e3 * b.s) * c.e2e3 + (a.e0e1e2e4 * b.e1e2) * c.e1e4 - (a.e0e1e2e4 * b.e1e2e3e4) * c.e1e3 - (a.e0e1e2e4 * b.e1e3) * c.e1e2e3e4 - (a.e0e1e2e4 * b.e1e4) * c.e1e2 - (a.e0e1e2e4 * b.e2e3) * c.e3e4 - (a.e0e1e2e4 * b.e2e4) * c.s + (a.e0e1e2e4 * b.e3e4) * c.e2e3 - (a.e0e1e2e4 * b.s) * c.e2e4 + (a.e0e1e3e4 * b.e1e2) * c.e1e2e3e4 + (a.e0e1e3e4 * b.e1e2e3e4) * c.e1e2 + (a.e0e1e3e4 * b.e1e3) * c.e1e4 - (a.e0e1e3e4 * b.e1e4) * c.e1e3 + (a.e0e1e3e4 * b.e2e3) * c.e2e4 - (a.e0e1e3e4 * b.e2e4) * c.e2e3 - (a.e0e1e3e4 * b.e3e4) * c.s - (a.e0e1e3e4 * b.s) * c.e3e4 - (a.e0e2 * b.e1e2) * c.s + (a.e0e2 * b.e1e2e3e4) * c.e3e4 + (a.e0e2 * b.e1e3) * c.e2e3 + (a.e0e2 * b.e1e4) * c.e2e4 - (a.e0e2 * b.e2e3) * c.e1e3 - (a.e0e2 * b.e2e4) * c.e1e4 + (a.e0e2 * b.e3e4) * c.e1e2e3e4 - (a.e0e2 * b.s) * c.e1e2 + (a.e0e2e3e4 * b.e1e2) * c.e3e4 + (a.e0e2e3e4 * b.e1e2e3e4) * c.s - (a.e0e2e3e4 * b.e1e3) * c.e2e4 + (a.e0e2e3e4 * b.e1e4) * c.e2e3 + (a.e0e2e3e4 * b.e2e3) * c.e1e4 - (a.e0e2e3e4 * b.e2e4) * c.e1e3 + (a.e0e2e3e4 * b.e3e4) * c.e1e2 + (a.e0e2e3e4 * b.s) * c.e1e2e3e4 - (a.e0e3 * b.e1e2) * c.e2e3 - (a.e0e3 * b.e1e2e3e4) * c.e2e4 - (a.e0e3 * b.e1e3) * c.s + (a.e0e3 * b.e1e4) * c.e3e4 + (a.e0e3 * b.e2e3) * c.e1e2 - (a.e0e3 * b.e2e4) * c.e1e2e3e4 - (a.e0e3 * b.e3e4) * c.e1e4 - (a.e0e3 * b.s) * c.e1e3 - (a.e0e4 * b.e1e2) * c.e2e4 + (a.e0e4 * b.e1e2e3e4) * c.e2e3 - (a.e0e4 * b.e1e3) * c.e3e4 - (a.e0e4 * b.e1e4) * c.s + (a.e0e4 * b.e2e3) * c.e1e2e3e4 + (a.e0e4 * b.e2e4) * c.e1e2 + (a.e0e4 * b.e3e4) * c.e1e3 - (a.e0e4 * b.s) * c.e1e4 + (a.e1e2 * b.e0e1) * c.e1e2 + (a.e1e2 * b.e0e1e2e3) * c.e1e3 + (a.e1e2 * b.e0e1e2e4) * c.e1e4 - (a.e1e2 * b.e0e1e3e4) * c.e1e2e3e4 + (a.e1e2 * b.e0e2) * c.s - (a.e1e2 * b.e0e2e3e4) * c.e3e4 - (a.e1e2 * b.e0e3) * c.e2e3 - (a.e1e2 * b.e0e4) * c.e2e4 - (a.e1e2 * b.e1e2) * c.e0e1 + (a.e1e2 * b.e1e2e3e4) * c.e0e1e3e4 + (a.e1e2 * b.e1e3) * c.e0e1e2e3 + (a.e1e2 * b.e1e4) * c.e0e1e2e4 + (a.e1e2 * b.e2e3) * c.e0e3 + (a.e1e2 * b.e2e4) * c.e0e4 - (a.e1e2 * b.e3e4) * c.e0e2e3e4 + (a.e1e2 * b.s) * c.e0e2 - (a.e1e2e3e4 * b.e0e1) * c.e1e2e3e4 - (a.e1e2e3e4 * b.e0e1e2e3) * c.e1e4 + (a.e1e2e3e4 * b.e0e1e2e4) * c.e1e3 - (a.e1e2e3e4 * b.e0e1e3e4) * c.e1e2 - (a.e1e2e3e4 * b.e0e2) * c.e3e4 - (a.e1e2e3e4 * b.e0e2e3e4) * c.s + (a.e1e2e3e4 * b.e0e3) * c.e2e4 - (a.e1e2e3e4 * b.e0e4) * c.e2e3 + (a.e1e2e3e4 * b.e1e2) * c.e0e1e3e4 + (a.e1e2e3e4 * b.e1e2e3e4) * c.e0e1 - (a.e1e2e3e4 * b.e1e3) * c.e0e1e2e4 + (a.e1e2e3e4 * b.e1e4) * c.e0e1e2e3 - (a.e1e2e3e4 * b.e2e3) * c.e0e4 + (a.e1e2e3e4 * b.e2e4) * c.e0e3 - (a.e1e2e3e4 * b.e3e4) * c.e0e2 - (a.e1e2e3e4 * b.s) * c.e0e2e3e4 + (a.e1e3 * b.e0e1) * c.e1e3 - (a.e1e3 * b.e0e1e2e3) * c.e1e2 + (a.e1e3 * b.e0e1e2e4) * c.e1e2e3e4 + (a.e1e3 * b.e0e1e3e4) * c.e1e4 + (a.e1e3 * b.e0e2) * c.e2e3 + (a.e1e3 * b.e0e2e3e4) * c.e2e4 + (a.e1e3 * b.e0e3) * c.s - (a.e1e3 * b.e0e4) * c.e3e4 - (a.e1e3 * b.e1e2) * c.e0e1e2e3 - (a.e1e3 * b.e1e2e3e4) * c.e0e1e2e4 - (a.e1e3 * b.e1e3) * c.e0e1 + (a.e1e3 * b.e1e4) * c.e0e1e3e4 - (a.e1e3 * b.e2e3) * c.e0e2 + (a.e1e3 * b.e2e4) * c.e0e2e3e4 + (a.e1e3 * b.e3e4) * c.e0e4 + (a.e1e3 * b.s) * c.e0e3 + (a.e1e4 * b.e0e1) * c.e1e4 - (a.e1e4 * b.e0e1e2e3) * c.e1e2e3e4 - (a.e1e4 * b.e0e1e2e4) * c.e1e2 - (a.e1e4 * b.e0e1e3e4) * c.e1e3 + (a.e1e4 * b.e0e2) * c.e2e4 - (a.e1e4 * b.e0e2e3e4) * c.e2e3 + (a.e1e4 * b.e0e3) * c.e3e4 + (a.e1e4 * b.e0e4) * c.s - (a.e1e4 * b.e1e2) * c.e0e1e2e4 + (a.e1e4 * b.e1e2e3e4) * c.e0e1e2e3 - (a.e1e4 * b.e1e3) * c.e0e1e3e4 - (a.e1e4 * b.e1e4) * c.e0e1 - (a.e1e4 * b.e2e3) * c.e0e2e3e4 - (a.e1e4 * b.e2e4) * c.e0e2 - (a.e1e4 * b.e3e4) * c.e0e3 + (a.e1e4 * b.s) * c.e0e4 - (a.e2e3 * b.e0e1) * c.e2e3 - (a.e2e3 * b.e0e1e2e3) * c.s + (a.e2e3 * b.e0e1e2e4) * c.e3e4 - (a.e2e3 * b.e0e1e3e4) * c.e2e4 + (a.e2e3 * b.e0e2) * c.e1e3 + (a.e2e3 * b.e0e2e3e4) * c.e1e4 - (a.e2e3 * b.e0e3) * c.e1e2 + (a.e2e3 * b.e0e4) * c.e1e2e3e4 - (a.e2e3 * b.e1e2) * c.e0e3 - (a.e2e3 * b.e1e2e3e4) * c.e0e4 + (a.e2e3 * b.e1e3) * c.e0e2 - (a.e2e3 * b.e1e4) * c.e0e2e3e4 - (a.e2e3 * b.e2e3) * c.e0e1 + (a.e2e3 * b.e2e4) * c.e0e1e3e4 - (a.e2e3 * b.e3e4) * c.e0e1e2e4 - (a.e2e3 * b.s) * c.e0e1e2e3 - (a.e2e4 * b.e0e1) * c.e2e4 - (a.e2e4 * b.e0e1e2e3) * c.e3e4 - (a.e2e4 * b.e0e1e2e4) * c.s + (a.e2e4 * b.e0e1e3e4) * c.e2e3 + (a.e2e4 * b.e0e2) * c.e1e4 - (a.e2e4 * b.e0e2e3e4) * c.e1e3 - (a.e2e4 * b.e0e3) * c.e1e2e3e4 - (a.e2e4 * b.e0e4) * c.e1e2 - (a.e2e4 * b.e1e2) * c.e0e4 + (a.e2e4 * b.e1e2e3e4) * c.e0e3 + (a.e2e4 * b.e1e3) * c.e0e2e3e4 + (a.e2e4 * b.e1e4) * c.e0e2 - (a.e2e4 * b.e2e3) * c.e0e1e3e4 - (a.e2e4 * b.e2e4) * c.e0e1 + (a.e2e4 * b.e3e4) * c.e0e1e2e3 - (a.e2e4 * b.s) * c.e0e1e2e4 - (a.e3e4 * b.e0e1) * c.e3e4 + (a.e3e4 * b.e0e1e2e3) * c.e2e4 - (a.e3e4 * b.e0e1e2e4) * c.e2e3 - (a.e3e4 * b.e0e1e3e4) * c.s + (a.e3e4 * b.e0e2) * c.e1e2e3e4 + (a.e3e4 * b.e0e2e3e4) * c.e1e2 + (a.e3e4 * b.e0e3) * c.e1e4 - (a.e3e4 * b.e0e4) * c.e1e3 - (a.e3e4 * b.e1e2) * c.e0e2e3e4 - (a.e3e4 * b.e1e2e3e4) * c.e0e2 - (a.e3e4 * b.e1e3) * c.e0e4 + (a.e3e4 * b.e1e4) * c.e0e3 + (a.e3e4 * b.e2e3) * c.e0e1e2e4 - (a.e3e4 * b.e2e4) * c.e0e1e2e3 - (a.e3e4 * b.e3e4) * c.e0e1 - (a.e3e4 * b.s) * c.e0e1e3e4 + (a.s * b.e0e1) * c.s - (a.s * b.e0e1e2e3) * c.e2e3 - (a.s * b.e0e1e2e4) * c.e2e4 - (a.s * b.e0e1e3e4) * c.e3e4 - (a.s * b.e0e2) * c.e1e2 + (a.s * b.e0e2e3e4) * c.e1e2e3e4 - (a.s * b.e0e3) * c.e1e3 - (a.s * b.e0e4) * c.e1e4 + (a.s * b.e1e2) * c.e0e2 - (a.s * b.e1e2e3e4) * c.e0e2e3e4 + (a.s * b.e1e3) * c.e0e3 + (a.s * b.e1e4) * c.e0e4 - (a.s * b.e2e3) * c.e0e1e2e3 - (a.s * b.e2e4) * c.e0e1e2e4 - (a.s * b.e3e4) * c.e0e1e3e4 + (a.s * b.s) * c.e0e1);
    assert(l.e0e2 == (a.e0e1 * b.s - a.e0e1e2e3 * b.e2e3 - a.e0e1e2e4 * b.e2e4 - a.e0e1e3e4 * b.e3e4 - a.e0e2 * b.e1e2 + a.e0e2e3e4 * b.e1e2e3e4 - a.e0e3 * b.e1e3 - a.e0e4 * b.e1e4 + a.e1e2 * b.e0e2 - a.e1e2e3e4 * b.e0e2e3e4 + a.e1e3 * b.e0e3 + a.e1e4 * b.e0e4 - a.e2e3 * b.e0e1e2e3 - a.e2e4 * b.e0e1e2e4 - a.e3e4 * b.e0e1e3e4 + a.s * b.e0e1) * c.e1e2 + (a.e0e1 * b.e2e3 + a.e0e1e2e3 * b.s - a.e0e1e2e4 * b.e3e4 + a.e0e1e3e4 * b.e2e4 - a.e0e2 * b.e1e3 - a.e0e2e3e4 * b.e1e4 + a.e0e3 * b.e1e2 - a.e0e4 * b.e1e2e3e4 + a.e1e2 * b.e0e3 + a.e1e2e3e4 * b.e0e4 - a.e1e3 * b.e0e2 + a.e1e4 * b.e0e2e3e4 + a.e2e3 * b.e0e1 - a.e2e4 * b.e0e1e3e4 + a.e3e4 * b.e0e1e2e4 + a.s * b.e0e1e2e3) * c.e1e3 + (a.e0e1 * b.e2e4 + a.e0e1e2e3 * b.e3e4 + a.e0e1e2e4 * b.s - a.e0e1e3e4 * b.e2e3 - a.e0e2 * b.e1e4 + a.e0e2e3e4 * b.e1e3 + a.e0e3 * b.e1e2e3e4 + a.e0e4 * b.e1e2 + a.e1e2 * b.e0e4 - a.e1e2e3e4 * b.e0e3 - a.e1e3 * b.e0e2e3e4 - a.e1e4 * b.e0e2 + a.e2e3 * b.e0e1e3e4 + a.e2e4 * b.e0e1 - a.e3e4 * b.e0e1e2e3 + a.s * b.e0e1e2e4) * c.e1e4 - (a.e0e1 * b.e3e4 - a.e0e1e2e3 * b.e2e4 + a.e0e1e2e4 * b.e2e3 + a.e0e1e3e4 * b.s - a.e0e2 * b.e1e2e3e4 - a.e0e2e3e4 * b.e1e2 - a.e0e3 * b.e1e4 + a.e0e4 * b.e1e3 + a.e1e2 * b.e0e2e3e4 + a.e1e2e3e4 * b.e0e2 + a.e1e3 * b.e0e4 - a.e1e4 * b.e0e3 - a.e2e3 * b.e0e1e2e4 + a.e2e4 * b.e0e1e2e3 + a.e3e4 * b.e0e1 + a.s * b.e0e1e3e4) * c.e1e2e3e4 + (a.e0e1 * b.e1e2 + a.e0e1e2e3 * b.e1e3 + a.e0e1e2e4 * b.e1e4 - a.e0e1e3e4 * b.e1e2e3e4 + a.e0e2 * b.s - a.e0e2e3e4 * b.e3e4 - a.e0e3 * b.e2e3 - a.e0e4 * b.e2e4 - a.e1e2 * b.e0e1 + a.e1e2e3e4 * b.e0e1e3e4 + a.e1e3 * b.e0e1e2e3 + a.e1e4 * b.e0e1e2e4 + a.e2e3 * b.e0e3 + a.e2e4 * b.e0e4 - a.e3e4 * b.e0e2e3e4 + a.s * b.e0e2) * c.s - (a.e0e1 * b.e1e2e3e4 + a.e0e1e2e3 * b.e1e4 - a.e0e1e2e4 * b.e1e3 + a.e0e1e3e4 * b.e1e2 + a.e0e2 * b.e3e4 + a.e0e2e3e4 * b.s - a.e0e3 * b.e2e4 + a.e0e4 * b.e2e3 - a.e1e2 * b.e0e1e3e4 - a.e1e2e3e4 * b.e0e1 + a.e1e3 * b.e0e1e2e4 - a.e1e4 * b.e0e1e2e3 + a.e2e3 * b.e0e4 - a.e2e4 * b.e0e3 + a.e3e4 * b.e0e2 + a.s * b.e0e2e3e4) * c.e3e4 - (a.e0e1 * b.e1e3 - a.e0e1e2e3 * b.e1e2 + a.e0e1e2e4 * b.e1e2e3e4 + a.e0e1e3e4 * b.e1e4 + a.e0e2 * b.e2e3 + a.e0e2e3e4 * b.e2e4 + a.e0e3 * b.s - a.e0e4 * b.e3e4 - a.e1e2 * b.e0e1e2e3 - a.e1e2e3e4 * b.e0e1e2e4 - a.e1e3 * b.e0e1 + a.e1e4 * b.e0e1e3e4 - a.e2e3 * b.e0e2 + a.e2e4 * b.e0e2e3e4 + a.e3e4 * b.e0e4 + a.s * b.e0e3) * c.e2e3 - (a.e0e1 * b.e1e4 - a.e0e1e2e3 * b.e1e2e3e4 - a.e0e1e2e4 * b.e1e2 - a.e0e1e3e4 * b.e1e3 + a.e0e2 * b.e2e4 - a.e0e2e3e4 * b.e2e3 + a.e0e3 * b.e3e4 + a.e0e4 * b.s - a.e1e2 * b.e0e1e2e4 + a.e1e2e3e4 * b.e0e1e2e3 - a.e1e3 * b.e0e1e3e4 - a.e1e4 * b.e0e1 - a.e2e3 * b.e0e2e3e4 - a.e2e4 * b.e0e2 - a.e3e4 * b.e0e3 + a.s * b.e0e4) * c.e2e4 - (a.e1e2 * b.s - a.e1e2e3e4 * b.e3e4 - a.e1e3 * b.e2e3 - a.e1e4 * b.e2e4 + a.e2e3 * b.e1e3 + a.e2e4 * b.e1e4 - a.e3e4 * b.e1e2e3e4 + a.s * b.e1e2) * c.e0e1 + (a.e1e2 * b.e3e4 + a.e1e2e3e4 * b.s - a.e1e3 * b.e2e4 + a.e1e4 * b.e2e3 + a.e2e3 * b.e1e4 - a.e2e4 * b.e1e3 + a.e3e4 * b.e1e2 + a.s * b.e1e2e3e4) * c.e0e1e3e4 + (a.e1e2 * b.e2e3 + a.e1e2e3e4 * b.e2e4 + a.e1e3 * b.s - a.e1e4 * b.e3e4 - a.e2e3 * b.e1e2 + a.e2e4 * b.e1e2e3e4 + a.e3e4 * b.e1e4 + a.s * b.e1e3) * c.e0e1e2e3 + (a.e1e2 * b.e2e4 - a.e1e2e3e4 * b.e2e3 + a.e1e3 * b.e3e4 + a.e1e4 * b.s - a.e2e3 * b.e1e2e3e4 - a.e2e4 * b.e1e2 - a.e3e4 * b.e1e3 + a.s * b.e1e4) * c.e0e1e2e4 + (-(a.e1e2 * b.e1e3) - a.e1e2e3e4 * b.e1e4 + a.e1e3 * b.e1e2 - a.e1e4 * b.e1e2e3e4 + a.e2e3 * b.s - a.e2e4 * b.e3e4 + a.e3e4 * b.e2e4 + a.s * b.e2e3) * c.e0e3 + (-(a.e1e2 * b.e1e4) + a.e1e2e3e4 * b.e1e3 + a.e1e3 * b.e1e2e3e4 + a.e1e4 * b.e1e2 + a.e2e3 * b.e3e4 + a.e2e4 * b.s - a.e3e4 * b.e2e3 + a.s * b.e2e4) * c.e0e4 - (-(a.e1e2 * b.e1e2e3e4) - a.e1e2e3e4 * b.e1e2 - a.e1e3 * b.e1e4 + a.e1e4 * b.e1e3 - a.e2e3 * b.e2e4 + a.e2e4 * b.e2e3 + a.e3e4 * b.s + a.s * b.e3e4) * c.e0e2e3e4 + (-(a.e1e2 * b.e1e2) + a.e1e2e3e4 * b.e1e2e3e4 - a.e1e3 * b.e1e3 - a.e1e4 * b.e1e4 - a.e2e3 * b.e2e3 - a.e2e4 * b.e2e4 - a.e3e4 * b.e3e4 + a.s * b.s) * c.e0e2);
    assert(r.e0e2 == a.e0e1 * (b.e1e2 * c.s - b.e1e2e3e4 * c.e3e4 - b.e1e3 * c.e2e3 - b.e1e4 * c.e2e4 + b.e2e3 * c.e1e3 + b.e2e4 * c.e1e4 - b.e3e4 * c.e1e2e3e4 + b.s * c.e1e2) + a.e0e1e2e3 * (b.e1e2 * c.e2e3 + b.e1e2e3e4 * c.e2e4 + b.e1e3 * c.s - b.e1e4 * c.e3e4 - b.e2e3 * c.e1e2 + b.e2e4 * c.e1e2e3e4 + b.e3e4 * c.e1e4 + b.s * c.e1e3) + a.e0e1e2e4 * (b.e1e2 * c.e2e4 - b.e1e2e3e4 * c.e2e3 + b.e1e3 * c.e3e4 + b.e1e4 * c.s - b.e2e3 * c.e1e2e3e4 - b.e2e4 * c.e1e2 - b.e3e4 * c.e1e3 + b.s * c.e1e4) - a.e0e1e3e4 * (b.e1e2 * c.e3e4 + b.e1e2e3e4 * c.s - b.e1e3 * c.e2e4 + b.e1e4 * c.e2e3 + b.e2e3 * c.e1e4 - b.e2e4 * c.e1e3 + b.e3e4 * c.e1e2 + b.s * c.e1e2e3e4) + a.e0e2 * (-(b.e1e2 * c.e1e2) + b.e1e2e3e4 * c.e1e2e3e4 - b.e1e3 * c.e1e3 - b.e1e4 * c.e1e4 - b.e2e3 * c.e2e3 - b.e2e4 * c.e2e4 - b.e3e4 * c.e3e4 + b.s * c.s) - a.e0e2e3e4 * (-(b.e1e2 * c.e1e2e3e4) - b.e1e2e3e4 * c.e1e2 - b.e1e3 * c.e1e4 + b.e1e4 * c.e1e3 - b.e2e3 * c.e2e4 + b.e2e4 * c.e2e3 + b.e3e4 * c.s + b.s * c.e3e4) - a.e0e3 * (-(b.e1e2 * c.e1e3) - b.e1e2e3e4 * c.e1e4 + b.e1e3 * c.e1e2 - b.e1e4 * c.e1e2e3e4 + b.e2e3 * c.s - b.e2e4 * c.e3e4 + b.e3e4 * c.e2e4 + b.s * c.e2e3) - a.e0e4 * (-(b.e1e2 * c.e1e4) + b.e1e2e3e4 * c.e1e3 + b.e1e3 * c.e1e2e3e4 + b.e1e4 * c.e1e2 + b.e2e3 * c.e3e4 + b.e2e4 * c.s - b.e3e4 * c.e2e3 + b.s * c.e2e4) - a.e1e2 * (b.e0e1 * c.s - b.e0e1e2e3 * c.e2e3 - b.e0e1e2e4 * c.e2e4 - b.e0e1e3e4 * c.e3e4 - b.e0e2 * c.e1e2 + b.e0e2e3e4 * c.e1e2e3e4 - b.e0e3 * c.e1e3 - b.e0e4 * c.e1e4 + b.e1e2 * c.e0e2 - b.e1e2e3e4 * c.e0e2e3e4 + b.e1e3 * c.e0e3 + b.e1e4 * c.e0e4 - b.e2e3 * c.e0e1e2e3 - b.e2e4 * c.e0e1e2e4 - b.e3e4 * c.e0e1e3e4 + b.s * c.e0e1) + a.e1e2e3e4 * (b.e0e1 * c.e3e4 - b.e0e1e2e3 * c.e2e4 + b.e0e1e2e4 * c.e2e3 + b.e0e1e3e4 * c.s - b.e0e2 * c.e1e2e3e4 - b.e0e2e3e4 * c.e1e2 - b.e0e3 * c.e1e4 + b.e0e4 * c.e1e3 + b.e1e2 * c.e0e2e3e4 + b.e1e2e3e4 * c.e0e2 + b.e1e3 * c.e0e4 - b.e1e4 * c.e0e3 - b.e2e3 * c.e0e1e2e4 + b.e2e4 * c.e0e1e2e3 + b.e3e4 * c.e0e1 + b.s * c.e0e1e3e4) + a.e1e3 * (b.e0e1 * c.e2e3 + b.e0e1e2e3 * c.s - b.e0e1e2e4 * c.e3e4 + b.e0e1e3e4 * c.e2e4 - b.e0e2 * c.e1e3 - b.e0e2e3e4 * c.e1e4 + b.e0e3 * c.e1e2 - b.e0e4 * c.e1e2e3e4 + b.e1e2 * c.e0e3 + b.e1e2e3e4 * c.e0e4 - b.e1e3 * c.e0e2 + b.e1e4 * c.e0e2e3e4 + b.e2e3 * c.e0e1 - b.e2e4 * c.e0e1e3e4 + b.e3e4 * c.e0e1e2e4 + b.s * c.e0e1e2e3) + a.e1e4 * (b.e0e1 * c.e2e4 + b.e0e1e2e3 * c.e3e4 + b.e0e1e2e4 * c.s - b.e0e1e3e4 * c.e2e3 - b.e0e2 * c.e1e4 + b.e0e2e3e4 * c.e1e3 + b.e0e3 * c.e1e2e3e4 + b.e0e4 * c.e1e2 + b.e1e2 * c.e0e4 - b.e1e2e3e4 * c.e0e3 - b.e1e3 * c.e0e2e3e4 - b.e1e4 * c.e0e2 + b.e2e3 * c.e0e1e3e4 + b.e2e4 * c.e0e1 - b.e3e4 * c.e0e1e2e3 + b.s * c.e0e1e2e4) + a.e2e3 * (b.e0e1 * c.e1e3 - b.e0e1e2e3 * c.e1e2 + b.e0e1e2e4 * c.e1e2e3e4 + b.e0e1e3e4 * c.e1e4 + b.e0e2 * c.e2e3 + b.e0e2e3e4 * c.e2e4 + b.e0e3 * c.s - b.e0e4 * c.e3e4 - b.e1e2 * c.e0e1e2e3 - b.e1e2e3e4 * c.e0e1e2e4 - b.e1e3 * c.e0e1 + b.e1e4 * c.e0e1e3e4 - b.e2e3 * c.e0e2 + b.e2e4 * c.e0e2e3e4 + b.e3e4 * c.e0e4 + b.s * c.e0e3) + a.e2e4 * (b.e0e1 * c.e1e4 - b.e0e1e2e3 * c.e1e2e3e4 - b.e0e1e2e4 * c.e1e2 - b.e0e1e3e4 * c.e1e3 + b.e0e2 * c.e2e4 - b.e0e2e3e4 * c.e2e3 + b.e0e3 * c.e3e4 + b.e0e4 * c.s - b.e1e2 * c.e0e1e2e4 + b.e1e2e3e4 * c.e0e1e2e3 - b.e1e3 * c.e0e1e3e4 - b.e1e4 * c.e0e1 - b.e2e3 * c.e0e2e3e4 - b.e2e4 * c.e0e2 - b.e3e4 * c.e0e3 + b.s * c.e0e4) - a.e3e4 * (b.e0e1 * c.e1e2e3e4 + b.e0e1e2e3 * c.e1e4 - b.e0e1e2e4 * c.e1e3 + b.e0e1e3e4 * c.e1e2 + b.e0e2 * c.e3e4 + b.e0e2e3e4 * c.s - b.e0e3 * c.e2e4 + b.e0e4 * c.e2e3 - b.e1e2 * c.e0e1e3e4 - b.e1e2e3e4 * c.e0e1 + b.e1e3 * c.e0e1e2e4 - b.e1e4 * c.e0e1e2e3 + b.e2e3 * c.e0e4 - b.e2e4 * c.e0e3 + b.e3e4 * c.e0e2 + b.s * c.e0e2e3e4) + a.s * (b.e0e1 * c.e1e2 + b.e0e1e2e3 * c.e1e3 + b.e0e1e2e4 * c.e1e4 - b.e0e1e3e4 * c.e1e2e3e4 + b.e0e2 * c.s - b.e0e2e3e4 * c.e3e4 - b.e0e3 * c.e2e3 - b.e0e4 * c.e2e4 - b.e1e2 * c.e0e1 + b.e1e2e3e4 * c.e0e1e3e4 + b.e1e3 * c.e0e1e2e3 + b.e1e4 * c.e0e1e2e4 + b.e2e3 * c.e0e3 + b.e2e4 * c.e0e4 - b.e3e4 * c.e0e2e3e4 + b.s * c.e0e2));
    scale_right_transform_e0e1(a, b, c.e1e2);
    scale_right_transform_e0e1e2e3(a, b, c.e1e3);
    scale_right_transform_e0e1e2e4(a, b, c.e1e4);
    scale_right_transform_e0e1e3e4(a, b, c.e1e2e3e4);
    scale_right_transform_e0e2(a, b, c.s);
    scale_right_transform_e0e2e3e4(a, b, c.e3e4);
    scale_right_transform_e0e3(a, b, c.e2e3);
    scale_right_transform_e0e4(a, b, c.e2e4);
    scale_right_transform_e1e2(a, b, c.e0e1);
    scale_right_transform_e1e2e3e4(a, b, c.e0e1e3e4);
    scale_right_transform_e1e3(a, b, c.e0e1e2e3);
    scale_right_transform_e1e4(a, b, c.e0e1e2e4);
    scale_right_transform_e2e3(a, b, c.e0e3);
    scale_right_transform_e2e4(a, b, c.e0e4);
    scale_right_transform_e3e4(a, b, c.e0e2e3e4);
    scale_right_transform_s(a, b, c.e0e2);
    scale_left_transform_e1e2(b, c, a.e0e1);
    scale_left_transform_e1e3(b, c, a.e0e1e2e3);
    scale_left_transform_e1e4(b, c, a.e0e1e2e4);
    scale_left_transform_e1e2e3e4(b, c, a.e0e1e3e4);
    scale_left_transform_s(b, c, a.e0e2);
    scale_left_transform_e3e4(b, c, a.e0e2e3e4);
    scale_left_transform_e2e3(b, c, a.e0e3);
    scale_left_transform_e2e4(b, c, a.e0e4);
    scale_left_transform_e0e1(b, c, a.e1e2);
    scale_left_transform_e0e1e3e4(b, c, a.e1e2e3e4);
    scale_left_transform_e0e1e2e3(b, c, a.e1e3);
    scale_left_transform_e0e1e2e4(b, c, a.e1e4);
    scale_left_transform_e0e3(b, c, a.e2e3);
    scale_left_transform_e0e4(b, c, a.e2e4);
    scale_left_transform_e0e2e3e4(b, c, a.e3e4);
    scale_left_transform_e0e2(b, c, a.s);
    assert(l.e0e2 == (a.e0e1 * b.e1e2) * c.s - (a.e0e1 * b.e1e2e3e4) * c.e3e4 - (a.e0e1 * b.e1e3) * c.e2e3 - (a.e0e1 * b.e1e4) * c.e2e4 + (a.e0e1 * b.e2e3) * c.e1e3 + (a.e0e1 * b.e2e4) * c.e1e4 - (a.e0e1 * b.e3e4) * c.e1e2e3e4 + (a.e0e1 * b.s) * c.e1e2 + (a.e0e1e2e3 * b.e1e2) * c.e2e3 + (a.e0e1e2e3 * b.e1e2e3e4) * c.e2e4 + (a.e0e1e2e3 * b.e1e3) * c.s - (a.e0e1e2e3 * b.e1e4) * c.e3e4 - (a.e0e1e2e3 * b.e2e3) * c.e1e2 + (a.e0e1e2e3 * b.e2e4) * c.e1e2e3e4 + (a.e0e1e2e3 * b.e3e4) * c.e1e4 + (a.e0e1e2e3 * b.s) * c.e1e3 + (a.e0e1e2e4 * b.e1e2) * c.e2e4 - (a.e0e1e2e4 * b.e1e2e3e4) * c.e2e3 + (a.e0e1e2e4 * b.e1e3) * c.e3e4 + (a.e0e1e2e4 * b.e1e4) * c.s - (a.e0e1e2e4 * b.e2e3) * c.e1e2e3e4 - (a.e0e1e2e4 * b.e2e4) * c.e1e2 - (a.e0e1e2e4 * b.e3e4) * c.e1e3 + (a.e0e1e2e4 * b.s) * c.e1e4 - (a.e0e1e3e4 * b.e1e2) * c.e3e4 - (a.e0e1e3e4 * b.e1e2e3e4) * c.s + (a.e0e1e3e4 * b.e1e3) * c.e2e4 - (a.e0e1e3e4 * b.e1e4) * c.e2e3 - (a.e0e1e3e4 * b.e2e3) * c.e1e4 + (a.e0e1e3e4 * b.e2e4) * c.e1e3 - (a.e0e1e3e4 * b.e3e4) * c.e1e2 - (a.e0e1e3e4 * b.s) * c.e1e2e3e4 - (a.e0e2 * b.e1e2) * c.e1e2 + (a.e0e2 * b.e1e2e3e4) * c.e1e2e3e4 - (a.e0e2 * b.e1e3) * c.e1e3 - (a.e0e2 * b.e1e4) * c.e1e4 - (a.e0e2 * b.e2e3) * c.e2e3 - (a.e0e2 * b.e2e4) * c.e2e4 - (a.e0e2 * b.e3e4) * c.e3e4 + (a.e0e2 * b.s) * c.s + (a.e0e2e3e4 * b.e1e2) * c.e1e2e3e4 + (a.e0e2e3e4 * b.e1e2e3e4) * c.e1e2 + (a.e0e2e3e4 * b.e1e3) * c.e1e4 - (a.e0e2e3e4 * b.e1e4) * c.e1e3 + (a.e0e2e3e4 * b.e2e3) * c.e2e4 - (a.e0e2e3e4 * b.e2e4) * c.e2e3 - (a.e0e2e3e4 * b.e3e4) * c.s - (a.e0e2e3e4 * b.s) * c.e3e4 + (a.e0e3 * b.e1e2) * c.e1e3 + (a.e0e3 * b.e1e2e3e4) * c.e1e4 - (a.e0e3 * b.e1e3) * c.e1e2 + (a.e0e3 * b.e1e4) * c.e1e2e3e4 - (a.e0e3 * b.e2e3) * c.s + (a.e0e3 * b.e2e4) * c.e3e4 - (a.e0e3 * b.e3e4) * c.e2e4 - (a.e0e3 * b.s) * c.e2e3 + (a.e0e4 * b.e1e2) * c.e1e4 - (a.e0e4 * b.e1e2e3e4) * c.e1e3 - (a.e0e4 * b.e1e3) * c.e1e2e3e4 - (a.e0e4 * b.e1e4) * c.e1e2 - (a.e0e4 * b.e2e3) * c.e3e4 - (a.e0e4 * b.e2e4) * c.s + (a.e0e4 * b.e3e4) * c.e2e3 - (a.e0e4 * b.s) * c.e2e4 - (a.e1e2 * b.e0e1) * c.s + (a.e1e2 * b.e0e1e2e3) * c.e2e3 + (a.e1e2 * b.e0e1e2e4) * c.e2e4 + (a.e1e2 * b.e0e1e3e4) * c.e3e4 + (a.e1e2 * b.e0e2) * c.e1e2 - (a.e1e2 * b.e0e2e3e4) * c.e1e2e3e4 + (a.e1e2 * b.e0e3) * c.e1e3 + (a.e1e2 * b.e0e4) * c.e1e4 - (a.e1e2 * b.e1e2) * c.e0e2 + (a.e1e2 * b.e1e2e3e4) * c.e0e2e3e4 - (a.e1e2 * b.e1e3) * c.e0e3 - (a.e1e2 * b.e1e4) * c.e0e4 + (a.e1e2 * b.e2e3) * c.e0e1e2e3 + (a.e1e2 * b.e2e4) * c.e0e1e2e4 + (a.e1e2 * b.e3e4) * c.e0e1e3e4 - (a.e1e2 * b.s) * c.e0e1 + (a.e1e2e3e4 * b.e0e1) * c.e3e4 - (a.e1e2e3e4 * b.e0e1e2e3) * c.e2e4 + (a.e1e2e3e4 * b.e0e1e2e4) * c.e2e3 + (a.e1e2e3e4 * b.e0e1e3e4) * c.s - (a.e1e2e3e4 * b.e0e2) * c.e1e2e3e4 - (a.e1e2e3e4 * b.e0e2e3e4) * c.e1e2 - (a.e1e2e3e4 * b.e0e3) * c.e1e4 + (a.e1e2e3e4 * b.e0e4) * c.e1e3 + (a.e1e2e3e4 * b.e1e2) * c.e0e2e3e4 + (a.e1e2e3e4 * b.e1e2e3e4) * c.e0e2 + (a.e1e2e3e4 * b.e1e3) * c.e0e4 - (a.e1e2e3e4 * b.e1e4) * c.e0e3 - (a.e1e2e3e4 * b.e2e3) * c.e0e1e2e4 + (a.e1e2e3e4 * b.e2e4) * c.e0e1e2e3 + (a.e1e2e3e4 * b.e3e4) * c.e0e1 + (a.e1e2e3e4 * b.s) * c.e0e1e3e4 + (a.e1e3 * b.e0e1) * c.e2e3 + (a.e1e3 * b.e0e1e2e3) * c.s - (a.e1e3 * b.e0e1e2e4) * c.e3e4 + (a.e1e3 * b.e0e1e3e4) * c.e2e4 - (a.e1e3 * b.e0e2) * c.e1e3 - (a.e1e3 * b.e0e2e3e4) * c.e1e4 + (a.e1e3 * b.e0e3) * c.e1e2 - (a.e1e3 * b.e0e4) * c.e1e2e3e4 + (a.e1e3 * b.e1e2) * c.e0e3 + (a.e1e3 * b.e1e2e3e4) * c.e0e4 - (a.e1e3 * b.e1e3) * c.e0e2 + (a.e1e3 * b.e1e4) * c.e0e2e3e4 + (a.e1e3 * b.e2e3) * c.e0e1 - (a.e1e3 * b.e2e4) * c.e0e1e3e4 + (a.e1e3 * b.e3e4) * c.e0e1e2e4 + (a.e1e3 * b.s) * c.e0e1e2e3 + (a.e1e4 * b.e0e1) * c.e2e4 + (a.e1e4 * b.e0e1e2e3) * c.e3e4 + (a.e1e4 * b.e0e1e2e4) * c.s - (a.e1e4 * b.e0e1e3e4) * c.e2e3 - (a.e1e4 * b.e0e2) * c.e1e4 + (a.e1e4 * b.e0e2e3e4) * c.e1e3 + (a.e1e4 * b.e0e3) * c.e1e2e3e4 + (a.e1e4 * b.e0e4) * c.e1e2 + (a.e1e4 * b.e1e2) * c.e0e4 - (a.e1e4 * b.e1e2e3e4) * c.e0e3 - (a.e1e4 * b.e1e3) * c.e0e2e3e4 - (a.e1e4 * b.e1e4) * c.e0e2 + (a.e1e4 * b.e2e3) * c.e0e1e3e4 + (a.e1e4 * b.e2e4) * c.e0e1 - (a.e1e4 * b.e3e4) * c.e0e1e2e3 + (a.e1e4 * b.s) * c.e0e1e2e4 + (a.e2e3 * b.e0e1) * c.e1e3 - (a.e2e3 * b.e0e1e2e3) * c.e1e2 + (a.e2e3 * b.e0e1e2e4) * c.e1e2e3e4 + (a.e2e3 * b.e0e1e3e4) * c.e1e4 + (a.e2e3 * b.e0e2) * c.e2e3 + (a.e2e3 * b.e0e2e3e4) * c.e2e4 + (a.e2e3 * b.e0e3) * c.s - (a.e2e3 * b.e0e4) * c.e3e4 - (a.e2e3 * b.e1e2) * c.e0e1e2e3 - (a.e2e3 * b.e1e2e3e4) * c.e0e1e2e4 - (a.e2e3 * b.e1e3) * c.e0e1 + (a.e2e3 * b.e1e4) * c.e0e1e3e4 - (a.e2e3 * b.e2e3) * c.e0e2 + (a.e2e3 * b.e2e4) * c.e0e2e3e4 + (a.e2e3 * b.e3e4) * c.e0e4 + (a.e2e3 * b.s) * c.e0e3 + (a.e2e4 * b.e0e1) * c.e1e4 - (a.e2e4 * b.e0e1e2e3) * c.e1e2e3e4 - (a.e2e4 * b.e0e1e2e4) * c.e1e2 - (a.e2e4 * b.e0e1e3e4) * c.e1e3 + (a.e2e4 * b.e0e2) * c.e2e4 - (a.e2e4 * b.e0e2e3e4) * c.e2e3 + (a.e2e4 * b.e0e3) * c.e3e4 + (a.e2e4 * b.e0e4) * c.s - (a.e2e4 * b.e1e2) * c.e0e1e2e4 + (a.e2e4 * b.e1e2e3e4) * c.e0e1e2e3 - (a.e2e4 * b.e1e3) * c.e0e1e3e4 - (a.e2e4 * b.e1e4) * c.e0e1 - (a.e2e4 * b.e2e3) * c.e0e2e3e4 - (a.e2e4 * b.e2e4) * c.e0e2 - (a.e2e4 * b.e3e4) * c.e0e3 + (a.e2e4 * b.s) * c.e0e4 - (a.e3e4 * b.e0e1) * c.e1e2e3e4 - (a.e3e4 * b.e0e1e2e3) * c.e1e4 + (a.e3e4 * b.e0e1e2e4) * c.e1e3 - (a.e3e4 * b.e0e1e3e4) * c.e1e2 - (a.e3e4 * b.e0e2) * c.e3e4 - (a.e3e4 * b.e0e2e3e4) * c.s + (a.e3e4 * b.e0e3) * c.e2e4 - (a.e3e4 * b.e0e4) * c.e2e3 + (a.e3e4 * b.e1e2) * c.e0e1e3e4 + (a.e3e4 * b.e1e2e3e4) * c.e0e1 - (a.e3e4 * b.e1e3) * c.e0e1e2e4 + (a.e3e4 * b.e1e4) * c.e0e1e2e3 - (a.e3e4 * b.e2e3) * c.e0e4 + (a.e3e4 * b.e2e4) * c.e0e3 - (a.e3e4 * b.e3e4) * c.e0e2 - (a.e3e4 * b.s) * c.e0e2e3e4 + (a.s * b.e0e1) * c.e1e2 + (a.s * b.e0e1e2e3) * c.e1e3 + (a.s * b.e0e1e2e4) * c.e1e4 - (a.s * b.e0e1e3e4) * c.e1e2e3e4 + (a.s * b.e0e2) * c.s - (a.s * b.e0e2e3e4) * c.e3e4 - (a.s * b.e0e3) * c.e2e3 - (a.s * b.e0e4) * c.e2e4 - (a.s * b.e1e2) * c.e0e1 + (a.s * b.e1e2e3e4) * c.e0e1e3e4 + (a.s * b.e1e3) * c.e0e1e2e3 + (a.s * b.e1e4) * c.e0e1e2e4 + (a.s * b.e2e3) * c.e0e3 + (a.s * b.e2e4) * c.e0e4 - (a.s * b.e3e4) * c.e0e2e3e4 + (a.s * b.s) * c.e0e2);
    assert(r.e0e2 == (a.e0e1 * b.e1e2) * c.s - (a.e0e1 * b.e1e2e3e4) * c.e3e4 - (a.e0e1 * b.e1e3) * c.e2e3 - (a.e0e1 * b.e1e4) * c.e2e4 + (a.e0e1 * b.e2e3) * c.e1e3 + (a.e0e1 * b.e2e4) * c.e1e4 - (a.e0e1 * b.e3e4) * c.e1e2e3e4 + (a.e0e1 * b.s) * c.e1e2 + (a.e0e1e2e3 * b.e1e2) * c.e2e3 + (a.e0e1e2e3 * b.e1e2e3e4) * c.e2e4 + (a.e0e1e2e3 * b.e1e3) * c.s - (a.e0e1e2e3 * b.e1e4) * c.e3e4 - (a.e0e1e2e3 * b.e2e3) * c.e1e2 + (a.e0e1e2e3 * b.e2e4) * c.e1e2e3e4 + (a.e0e1e2e3 * b.e3e4) * c.e1e4 + (a.e0e1e2e3 * b.s) * c.e1e3 + (a.e0e1e2e4 * b.e1e2) * c.e2e4 - (a.e0e1e2e4 * b.e1e2e3e4) * c.e2e3 + (a.e0e1e2e4 * b.e1e3) * c.e3e4 + (a.e0e1e2e4 * b.e1e4) * c.s - (a.e0e1e2e4 * b.e2e3) * c.e1e2e3e4 - (a.e0e1e2e4 * b.e2e4) * c.e1e2 - (a.e0e1e2e4 * b.e3e4) * c.e1e3 + (a.e0e1e2e4 * b.s) * c.e1e4 - (a.e0e1e3e4 * b.e1e2) * c.e3e4 - (a.e0e1e3e4 * b.e1e2e3e4) * c.s + (a.e0e1e3e4 * b.e1e3) * c.e2e4 - (a.e0e1e3e4 * b.e1e4) * c.e2e3 - (a.e0e1e3e4 * b.e2e3) * c.e1e4 + (a.e0e1e3e4 * b.e2e4) * c.e1e3 - (a.e0e1e3e4 * b.e3e4) * c.e1e2 - (a.e0e1e3e4 * b.s) * c.e1e2e3e4 - (a.e0e2 * b.e1e2) * c.e1e2 + (a.e0e2 * b.e1e2e3e4) * c.e1e2e3e4 - (a.e0e2 * b.e1e3) * c.e1e3 - (a.e0e2 * b.e1e4) * c.e1e4 - (a.e0e2 * b.e2e3) * c.e2e3 - (a.e0e2 * b.e2e4) * c.e2e4 - (a.e0e2 * b.e3e4) * c.e3e4 + (a.e0e2 * b.s) * c.s + (a.e0e2e3e4 * b.e1e2) * c.e1e2e3e4 + (a.e0e2e3e4 * b.e1e2e3e4) * c.e1e2 + (a.e0e2e3e4 * b.e1e3) * c.e1e4 - (a.e0e2e3e4 * b.e1e4) * c.e1e3 + (a.e0e2e3e4 * b.e2e3) * c.e2e4 - (a.e0e2e3e4 * b.e2e4) * c.e2e3 - (a.e0e2e3e4 * b.e3e4) * c.s - (a.e0e2e3e4 * b.s) * c.e3e4 + (a.e0e3 * b.e1e2) * c.e1e3 + (a.e0e3 * b.e1e2e3e4) * c.e1e4 - (a.e0e3 * b.e1e3) * c.e1e2 + (a.e0e3 * b.e1e4) * c.e1e2e3e4 - (a.e0e3 * b.e2e3) * c.s + (a.e0e3 * b.e2e4) * c.e3e4 - (a.e0e3 * b.e3e4) * c.e2e4 - (a.e0e3 * b.s) * c.e2e3 + (a.e0e4 * b.e1e2) * c.e1e4 - (a.e0e4 * b.e1e2e3e4) * c.e1e3 - (a.e0e4 * b.e1e3) * c.e1e2e3e4 - (a.e0e4 * b.e1e4) * c.e1e2 - (a.e0e4 * b.e2e3) * c.e3e4 - (a.e0e4 * b.e2e4) * c.s + (a.e0e4 * b.e3e4) * c.e2e3 - (a.e0e4 * b.s) * c.e2e4 - (a.e1e2 * b.e0e1) * c.s + (a.e1e2 * b.e0e1e2e3) * c.e2e3 + (a.e1e2 * b.e0e1e2e4) * c.e2e4 + (a.e1e2 * b.e0e1e3e4) * c.e3e4 + (a.e1e2 * b.e0e2) * c.e1e2 - (a.e1e2 * b.e0e2e3e4) * c.e1e2e3e4 + (a.e1e2 * b.e0e3) * c.e1e3 + (a.e1e2 * b.e0e4) * c.e1e4 - (a.e1e2 * b.e1e2) * c.e0e2 + (a.e1e2 * b.e1e2e3e4) * c.e0e2e3e4 - (a.e1e2 * b.e1e3) * c.e0e3 - (a.e1e2 * b.e1e4) * c.e0e4 + (a.e1e2 * b.e2e3) * c.e0e1e2e3 + (a.e1e2 * b.e2e4) * c.e0e1e2e4 + (a.e1e2 * b.e3e4) * c.e0e1e3e4 - (a.e1e2 * b.s) * c.e0e1 + (a.e1e2e3e4 * b.e0e1) * c.e3e4 - (a.e1e2e3e4 * b.e0e1e2e3) * c.e2e4 + (a.e1e2e3e4 * b.e0e1e2e4) * c.e2e3 + (a.e1e2e3e4 * b.e0e1e3e4) * c.s - (a.e1e2e3e4 * b.e0e2) * c.e1e2e3e4 - (a.e1e2e3e4 * b.e0e2e3e4) * c.e1e2 - (a.e1e2e3e4 * b.e0e3) * c.e1e4 + (a.e1e2e3e4 * b.e0e4) * c.e1e3 + (a.e1e2e3e4 * b.e1e2) * c.e0e2e3e4 + (a.e1e2e3e4 * b.e1e2e3e4) * c.e0e2 + (a.e1e2e3e4 * b.e1e3) * c.e0e4 - (a.e1e2e3e4 * b.e1e4) * c.e0e3 - (a.e1e2e3e4 * b.e2e3) * c.e0e1e2e4 + (a.e1e2e3e4 * b.e2e4) * c.e0e1e2e3 + (a.e1e2e3e4 * b.e3e4) * c.e0e1 + (a.e1e2e3e4 * b.s) * c.e0e1e3e4 + (a.e1e3 * b.e0e1) * c.e2e3 + (a.e1e3 * b.e0e1e2e3) * c.s - (a.e1e3 * b.e0e1e2e4) * c.e3e4 + (a.e1e3 * b.e0e1e3e4) * c.e2e4 - (a.e1e3 * b.e0e2) * c.e1e3 - (a.e1e3 * b.e0e2e3e4) * c.e1e4 + (a.e1e3 * b.e0e3) * c.e1e2 - (a.e1e3 * b.e0e4) * c.e1e2e3e4 + (a.e1e3 * b.e1e2) * c.e0e3 + (a.e1e3 * b.e1e2e3e4) * c.e0e4 - (a.e1e3 * b.e1e3) * c.e0e2 + (a.e1e3 * b.e1e4) * c.e0e2e3e4 + (a.e1e3 * b.e2e3) * c.e0e1 - (a.e1e3 * b.e2e4) * c.e0e1e3e4 + (a.e1e3 * b.e3e4) * c.e0e1e2e4 + (a.e1e3 * b.s) * c.e0e1e2e3 + (a.e1e4 * b.e0e1) * c.e2e4 + (a.e1e4 * b.e0e1e2e3) * c.e3e4 + (a.e1e4 * b.e0e1e2e4) * c.s - (a.e1e4 * b.e0e1e3e4) * c.e2e3 - (a.e1e4 * b.e0e2) * c.e1e4 + (a.e1e4 * b.e0e2e3e4) * c.e1e3 + (a.e1e4 * b.e0e3) * c.e1e2e3e4 + (a.e1e4 * b.e0e4) * c.e1e2 + (a.e1e4 * b.e1e2) * c.e0e4 - (a.e1e4 * b.e1e2e3e4) * c.e0e3 - (a.e1e4 * b.e1e3) * c.e0e2e3e4 - (a.e1e4 * b.e1e4) * c.e0e2 + (a.e1e4 * b.e2e3) * c.e0e1e3e4 + (a.e1e4 * b.e2e4) * c.e0e1 - (a.e1e4 * b.e3e4) * c.e0e1e2e3 + (a.e1e4 * b.s) * c.e0e1e2e4 + (a.e2e3 * b.e0e1) * c.e1e3 - (a.e2e3 * b.e0e1e2e3) * c.e1e2 + (a.e2e3 * b.e0e1e2e4) * c.e1e2e3e4 + (a.e2e3 * b.e0e1e3e4) * c.e1e4 + (a.e2e3 * b.e0e2) * c.e2e3 + (a.e2e3 * b.e0e2e3e4) * c.e2e4 + (a.e2e3 * b.e0e3) * c.s - (a.e2e3 * b.e0e4) * c.e3e4 - (a.e2e3 * b.e1e2) * c.e0e1e2e3 - (a.e2e3 * b.e1e2e3e4) * c.e0e1e2e4 - (a.e2e3 * b.e1e3) * c.e0e1 + (a.e2e3 * b.e1e4) * c.e0e1e3e4 - (a.e2e3 * b.e2e3) * c.e0e2 + (a.e2e3 * b.e2e4) * c.e0e2e3e4 + (a.e2e3 * b.e3e4) * c.e0e4 + (a.e2e3 * b.s) * c.e0e3 + (a.e2e4 * b.e0e1) * c.e1e4 - (a.e2e4 * b.e0e1e2e3) * c.e1e2e3e4 - (a.e2e4 * b.e0e1e2e4) * c.e1e2 - (a.e2e4 * b.e0e1e3e4) * c.e1e3 + (a.e2e4 * b.e0e2) * c.e2e4 - (a.e2e4 * b.e0e2e3e4) * c.e2e3 + (a.e2e4 * b.e0e3) * c.e3e4 + (a.e2e4 * b.e0e4) * c.s - (a.e2e4 * b.e1e2) * c.e0e1e2e4 + (a.e2e4 * b.e1e2e3e4) * c.e0e1e2e3 - (a.e2e4 * b.e1e3) * c.e0e1e3e4 - (a.e2e4 * b.e1e4) * c.e0e1 - (a.e2e4 * b.e2e3) * c.e0e2e3e4 - (a.e2e4 * b.e2e4) * c.e0e2 - (a.e2e4 * b.e3e4) * c.e0e3 + (a.e2e4 * b.s) * c.e0e4 - (a.e3e4 * b.e0e1) * c.e1e2e3e4 - (a.e3e4 * b.e0e1e2e3) * c.e1e4 + (a.e3e4 * b.e0e1e2e4) * c.e1e3 - (a.e3e4 * b.e0e1e3e4) * c.e1e2 - (a.e3e4 * b.e0e2) * c.e3e4 - (a.e3e4 * b.e0e2e3e4) * c.s + (a.e3e4 * b.e0e3) * c.e2e4 - (a.e3e4 * b.e0e4) * c.e2e3 + (a.e3e4 * b.e1e2) * c.e0e1e3e4 + (a.e3e4 * b.e1e2e3e4) * c.e0e1 - (a.e3e4 * b.e1e3) * c.e0e1e2e4 + (a.e3e4 * b.e1e4) * c.e0e1e2e3 - (a.e3e4 * b.e2e3) * c.e0e4 + (a.e3e4 * b.e2e4) * c.e0e3 - (a.e3e4 * b.e3e4) * c.e0e2 - (a.e3e4 * b.s) * c.e0e2e3e4 + (a.s * b.e0e1) * c.e1e2 + (a.s * b.e0e1e2e3) * c.e1e3 + (a.s * b.e0e1e2e4) * c.e1e4 - (a.s * b.e0e1e3e4) * c.e1e2e3e4 + (a.s * b.e0e2) * c.s - (a.s * b.e0e2e3e4) * c.e3e4 - (a.s * b.e0e3) * c.e2e3 - (a.s * b.e0e4) * c.e2e4 - (a.s * b.e1e2) * c.e0e1 + (a.s * b.e1e2e3e4) * c.e0e1e3e4 + (a.s * b.e1e3) * c.e0e1e2e3 + (a.s * b.e1e4) * c.e0e1e2e4 + (a.s * b.e2e3) * c.e0e3 + (a.s * b.e2e4) * c.e0e4 - (a.s * b.e3e4) * c.e0e2e3e4 + (a.s * b.s) * c.e0e2);
    assert(l.e0e3 == (a.e0e1 * b.s - a.e0e1e2e3 * b.e2e3 - a.e0e1e2e4 * b.e2e4 - a.e0e1e3e4 * b.e3e4 - a.e0e2 * b.e1e2 + a.e0e2e3e4 * b.e1e2e3e4 - a.e0e3 * b.e1e3 - a.e0e4 * b.e1e4 + a.e1e2 * b.e0e2 - a.e1e2e3e4 * b.e0e2e3e4 + a.e1e3 * b.e0e3 + a.e1e4 * b.e0e4 - a.e2e3 * b.e0e1e2e3 - a.e2e4 * b.e0e1e2e4 - a.e3e4 * b.e0e1e3e4 + a.s * b.e0e1) * c.e1e3 - (a.e0e1 * b.e2e3 + a.e0e1e2e3 * b.s - a.e0e1e2e4 * b.e3e4 + a.e0e1e3e4 * b.e2e4 - a.e0e2 * b.e1e3 - a.e0e2e3e4 * b.e1e4 + a.e0e3 * b.e1e2 - a.e0e4 * b.e1e2e3e4 + a.e1e2 * b.e0e3 + a.e1e2e3e4 * b.e0e4 - a.e1e3 * b.e0e2 + a.e1e4 * b.e0e2e3e4 + a.e2e3 * b.e0e1 - a.e2e4 * b.e0e1e3e4 + a.e3e4 * b.e0e1e2e4 + a.s * b.e0e1e2e3) * c.e1e2 + (a.e0e1 * b.e2e4 + a.e0e1e2e3 * b.e3e4 + a.e0e1e2e4 * b.s - a.e0e1e3e4 * b.e2e3 - a.e0e2 * b.e1e4 + a.e0e2e3e4 * b.e1e3 + a.e0e3 * b.e1e2e3e4 + a.e0e4 * b.e1e2 + a.e1e2 * b.e0e4 - a.e1e2e3e4 * b.e0e3 - a.e1e3 * b.e0e2e3e4 - a.e1e4 * b.e0e2 + a.e2e3 * b.e0e1e3e4 + a.e2e4 * b.e0e1 - a.e3e4 * b.e0e1e2e3 + a.s * b.e0e1e2e4) * c.e1e2e3e4 + (a.e0e1 * b.e3e4 - a.e0e1e2e3 * b.e2e4 + a.e0e1e2e4 * b.e2e3 + a.e0e1e3e4 * b.s - a.e0e2 * b.e1e2e3e4 - a.e0e2e3e4 * b.e1e2 - a.e0e3 * b.e1e4 + a.e0e4 * b.e1e3 + a.e1e2 * b.e0e2e3e4 + a.e1e2e3e4 * b.e0e2 + a.e1e3 * b.e0e4 - a.e1e4 * b.e0e3 - a.e2e3 * b.e0e1e2e4 + a.e2e4 * b.e0e1e2e3 + a.e3e4 * b.e0e1 + a.s * b.e0e1e3e4) * c.e1e4 + (a.e0e1 * b.e1e2 + a.e0e1e2e3 * b.e1e3 + a.e0e1e2e4 * b.e1e4 - a.e0e1e3e4 * b.e1e2e3e4 + a.e0e2 * b.s - a.e0e2e3e4 * b.e3e4 - a.e0e3 * b.e2e3 - a.e0e4 * b.e2e4 - a.e1e2 * b.e0e1 + a.e1e2e3e4 * b.e0e1e3e4 + a.e1e3 * b.e0e1e2e3 + a.e1e4 * b.e0e1e2e4 + a.e2e3 * b.e0e3 + a.e2e4 * b.e0e4 - a.e3e4 * b.e0e2e3e4 + a.s * b.e0e2) * c.e2e3 + (a.e0e1 * b.e1e2e3e4 + a.e0e1e2e3 * b.e1e4 - a.e0e1e2e4 * b.e1e3 + a.e0e1e3e4 * b.e1e2 + a.e0e2 * b.e3e4 + a.e0e2e3e4 * b.s - a.e0e3 * b.e2e4 + a.e0e4 * b.e2e3 - a.e1e2 * b.e0e1e3e4 - a.e1e2e3e4 * b.e0e1 + a.e1e3 * b.e0e1e2e4 - a.e1e4 * b.e0e1e2e3 + a.e2e3 * b.e0e4 - a.e2e4 * b.e0e3 + a.e3e4 * b.e0e2 + a.s * b.e0e2e3e4) * c.e2e4 + (a.e0e1 * b.e1e3 - a.e0e1e2e3 * b.e1e2 + a.e0e1e2e4 * b.e1e2e3e4 + a.e0e1e3e4 * b.e1e4 + a.e0e2 * b.e2e3 + a.e0e2e3e4 * b.e2e4 + a.e0e3 * b.s - a.e0e4 * b.e3e4 - a.e1e2 * b.e0e1e2e3 - a.e1e2e3e4 * b.e0e1e2e4 - a.e1e3 * b.e0e1 + a.e1e4 * b.e0e1e3e4 - a.e2e3 * b.e0e2 + a.e2e4 * b.e0e2e3e4 + a.e3e4 * b.e0e4 + a.s * b.e0e3) * c.s - (a.e0e1 * b.e1e4 - a.e0e1e2e3 * b.e1e2e3e4 - a.e0e1e2e4 * b.e1e2 - a.e0e1e3e4 * b.e1e3 + a.e0e2 * b.e2e4 - a.e0e2e3e4 * b.e2e3 + a.e0e3 * b.e3e4 + a.e0e4 * b.s - a.e1e2 * b.e0e1e2e4 + a.e1e2e3e4 * b.e0e1e2e3 - a.e1e3 * b.e0e1e3e4 - a.e1e4 * b.e0e1 - a.e2e3 * b.e0e2e3e4 - a.e2e4 * b.e0e2 - a.e3e4 * b.e0e3 + a.s * b.e0e4) * c.e3e4 - (a.e1e2 * b.s - a.e1e2e3e4 * b.e3e4 - a.e1e3 * b.e2e3 - a.e1e4 * b.e2e4 + a.e2e3 * b.e1e3 + a.e2e4 * b.e1e4 - a.e3e4 * b.e1e2e3e4 + a.s * b.e1e2) * c.e0e1e2e3 - (a.e1e2 * b.e3e4 + a.e1e2e3e4 * b.s - a.e1e3 * b.e2e4 + a.e1e4 * b.e2e3 + a.e2e3 * b.e1e4 - a.e2e4 * b.e1e3 + a.e3e4 * b.e1e2 + a.s * b.e1e2e3e4) * c.e0e1e2e4 - (a.e1e2 * b.e2e3 + a.e1e2e3e4 * b.e2e4 + a.e1e3 * b.s - a.e1e4 * b.e3e4 - a.e2e3 * b.e1e2 + a.e2e4 * b.e1e2e3e4 + a.e3e4 * b.e1e4 + a.s * b.e1e3) * c.e0e1 + (a.e1e2 * b.e2e4 - a.e1e2e3e4 * b.e2e3 + a.e1e3 * b.e3e4 + a.e1e4 * b.s - a.e2e3 * b.e1e2e3e4 - a.e2e4 * b.e1e2 - a.e3e4 * b.e1e3 + a.s * b.e1e4) * c.e0e1e3e4 - (-(a.e1e2 * b.e1e3) - a.e1e2e3e4 * b.e1e4 + a.e1e3 * b.e1e2 - a.e1e4 * b.e1e2e3e4 + a.e2e3 * b.s - a.e2e4 * b.e3e4 + a.e3e4 * b.e2e4 + a.s * b.e2e3) * c.e0e2 + (-(a.e1e2 * b.e1e4) + a.e1e2e3e4 * b.e1e3 + a.e1e3 * b.e1e2e3e4 + a.e1e4 * b.e1e2 + a.e2e3 * b.e3e4 + a.e2e4 * b.s - a.e3e4 * b.e2e3 + a.s * b.e2e4) * c.e0e2e3e4 + (-(a.e1e2 * b.e1e2e3e4) - a.e1e2e3e4 * b.e1e2 - a.e1e3 * b.e1e4 + a.e1e4 * b.e1e3 - a.e2e3 * b.e2e4 + a.e2e4 * b.e2e3 + a.e3e4 * b.s + a.s * b.e3e4) * c.e0e4 + (-(a.e1e2 * b.e1e2) + a.e1e2e3e4 * b.e1e2e3e4 - a.e1e3 * b.e1e3 - a.e1e4 * b.e1e4 - a.e2e3 * b.e2e3 - a.e2e4 * b.e2e4 - a.e3e4 * b.e3e4 + a.s * b.s) * c.e0e3);
    assert(r.e0e3 == a.e0e1 * (b.e1e2 * c.e2e3 + b.e1e2e3e4 * c.e2e4 + b.e1e3 * c.s - b.e1e4 * c.e3e4 - b.e2e3 * c.e1e2 + b.e2e4 * c.e1e2e3e4 + b.e3e4 * c.e1e4 + b.s * c.e1e3) - a.e0e1e2e3 * (b.e1e2 * c.s - b.e1e2e3e4 * c.e3e4 - b.e1e3 * c.e2e3 - b.e1e4 * c.e2e4 + b.e2e3 * c.e1e3 + b.e2e4 * c.e1e4 - b.e3e4 * c.e1e2e3e4 + b.s * c.e1e2) + a.e0e1e2e4 * (b.e1e2 * c.e3e4 + b.e1e2e3e4 * c.s - b.e1e3 * c.e2e4 + b.e1e4 * c.e2e3 + b.e2e3 * c.e1e4 - b.e2e4 * c.e1e3 + b.e3e4 * c.e1e2 + b.s * c.e1e2e3e4) + a.e0e1e3e4 * (b.e1e2 * c.e2e4 - b.e1e2e3e4 * c.e2e3 + b.e1e3 * c.e3e4 + b.e1e4 * c.s - b.e2e3 * c.e1e2e3e4 - b.e2e4 * c.e1e2 - b.e3e4 * c.e1e3 + b.s * c.e1e4) + a.e0e2 * (-(b.e1e2 * c.e1e3) - b.e1e2e3e4 * c.e1e4 + b.e1e3 * c.e1e2 - b.e1e4 * c.e1e2e3e4 + b.e2e3 * c.s - b.e2e4 * c.e3e4 + b.e3e4 * c.e2e4 + b.s * c.e2e3) + a.e0e2e3e4 * (-(b.e1e2 * c.e1e4) + b.e1e2e3e4 * c.e1e3 + b.e1e3 * c.e1e2e3e4 + b.e1e4 * c.e1e2 + b.e2e3 * c.e3e4 + b.e2e4 * c.s - b.e3e4 * c.e2e3 + b.s * c.e2e4) + a.e0e3 * (-(b.e1e2 * c.e1e2) + b.e1e2e3e4 * c.e1e2e3e4 - b.e1e3 * c.e1e3 - b.e1e4 * c.e1e4 - b.e2e3 * c.e2e3 - b.e2e4 * c.e2e4 - b.e3e4 * c.e3e4 + b.s * c.s) - a.e0e4 * (-(b.e1e2 * c.e1e2e3e4) - b.e1e2e3e4 * c.e1e2 - b.e1e3 * c.e1e4 + b.e1e4 * c.e1e3 - b.e2e3 * c.e2e4 + b.e2e4 * c.e2e3 + b.e3e4 * c.s + b.s * c.e3e4) - a.e1e2 * (b.e0e1 * c.e2e3 + b.e0e1e2e3 * c.s - b.e0e1e2e4 * c.e3e4 + b.e0e1e3e4 * c.e2e4 - b.e0e2 * c.e1e3 - b.e0e2e3e4 * c.e1e4 + b.e0e3 * c.e1e2 - b.e0e4 * c.e1e2e3e4 + b.e1e2 * c.e0e3 + b.e1e2e3e4 * c.e0e4 - b.e1e3 * c.e0e2 + b.e1e4 * c.e0e2e3e4 + b.e2e3 * c.e0e1 - b.e2e4 * c.e0e1e3e4 + b.e3e4 * c.e0e1e2e4 + b.s * c.e0e1e2e3) - a.e1e2e3e4 * (b.e0e1 * c.e2e4 + b.e0e1e2e3 * c.e3e4 + b.e0e1e2e4 * c.s - b.e0e1e3e4 * c.e2e3 - b.e0e2 * c.e1e4 + b.e0e2e3e4 * c.e1e3 + b.e0e3 * c.e1e2e3e4 + b.e0e4 * c.e1e2 + b.e1e2 * c.e0e4 - b.e1e2e3e4 * c.e0e3 - b.e1e3 * c.e0e2e3e4 - b.e1e4 * c.e0e2 + b.e2e3 * c.e0e1e3e4 + b.e2e4 * c.e0e1 - b.e3e4 * c.e0e1e2e3 + b.s * c.e0e1e2e4) - a.e1e3 * (b.e0e1 * c.s - b.e0e1e2e3 * c.e2e3 - b.e0e1e2e4 * c.e2e4 - b.e0e1e3e4 * c.e3e4 - b.e0e2 * c.e1e2 + b.e0e2e3e4 * c.e1e2e3e4 - b.e0e3 * c.e1e3 - b.e0e4 * c.e1e4 + b.e1e2 * c.e0e2 - b.e1e2e3e4 * c.e0e2e3e4 + b.e1e3 * c.e0e3 + b.e1e4 * c.e0e4 - b.e2e3 * c.e0e1e2e3 - b.e2e4 * c.e0e1e2e4 - b.e3e4 * c.e0e1e3e4 + b.s * c.e0e1) + a.e1e4 * (b.e0e1 * c.e3e4 - b.e0e1e2e3 * c.e2e4 + b.e0e1e2e4 * c.e2e3 + b.e0e1e3e4 * c.s - b.e0e2 * c.e1e2e3e4 - b.e0e2e3e4 * c.e1e2 - b.e0e3 * c.e1e4 + b.e0e4 * c.e1e3 + b.e1e2 * c.e0e2e3e4 + b.e1e2e3e4 * c.e0e2 + b.e1e3 * c.e0e4 - b.e1e4 * c.e0e3 - b.e2e3 * c.e0e1e2e4 + b.e2e4 * c.e0e1e2e3 + b.e3e4 * c.e0e1 + b.s * c.e0e1e3e4) - a.e2e3 * (b.e0e1 * c.e1e2 + b.e0e1e2e3 * c.e1e3 + b.e0e1e2e4 * c.e1e4 - b.e0e1e3e4 * c.e1e2e3e4 + b.e0e2 * c.s - b.e0e2e3e4 * c.e3e4 - b.e0e3 * c.e2e3 - b.e0e4 * c.e2e4 - b.e1e2 * c.e0e1 + b.e1e2e3e4 * c.e0e1e3e4 + b.e1e3 * c.e0e1e2e3 + b.e1e4 * c.e0e1e2e4 + b.e2e3 * c.e0e3 + b.e2e4 * c.e0e4 - b.e3e4 * c.e0e2e3e4 + b.s * c.e0e2) + a.e2e4 * (b.e0e1 * c.e1e2e3e4 + b.e0e1e2e3 * c.e1e4 - b.e0e1e2e4 * c.e1e3 + b.e0e1e3e4 * c.e1e2 + b.e0e2 * c.e3e4 + b.e0e2e3e4 * c.s - b.e0e3 * c.e2e4 + b.e0e4 * c.e2e3 - b.e1e2 * c.e0e1e3e4 - b.e1e2e3e4 * c.e0e1 + b.e1e3 * c.e0e1e2e4 - b.e1e4 * c.e0e1e2e3 + b.e2e3 * c.e0e4 - b.e2e4 * c.e0e3 + b.e3e4 * c.e0e2 + b.s * c.e0e2e3e4) + a.e3e4 * (b.e0e1 * c.e1e4 - b.e0e1e2e3 * c.e1e2e3e4 - b.e0e1e2e4 * c.e1e2 - b.e0e1e3e4 * c.e1e3 + b.e0e2 * c.e2e4 - b.e0e2e3e4 * c.e2e3 + b.e0e3 * c.e3e4 + b.e0e4 * c.s - b.e1e2 * c.e0e1e2e4 + b.e1e2e3e4 * c.e0e1e2e3 - b.e1e3 * c.e0e1e3e4 - b.e1e4 * c.e0e1 - b.e2e3 * c.e0e2e3e4 - b.e2e4 * c.e0e2 - b.e3e4 * c.e0e3 + b.s * c.e0e4) + a.s * (b.e0e1 * c.e1e3 - b.e0e1e2e3 * c.e1e2 + b.e0e1e2e4 * c.e1e2e3e4 + b.e0e1e3e4 * c.e1e4 + b.e0e2 * c.e2e3 + b.e0e2e3e4 * c.e2e4 + b.e0e3 * c.s - b.e0e4 * c.e3e4 - b.e1e2 * c.e0e1e2e3 - b.e1e2e3e4 * c.e0e1e2e4 - b.e1e3 * c.e0e1 + b.e1e4 * c.e0e1e3e4 - b.e2e3 * c.e0e2 + b.e2e4 * c.e0e2e3e4 + b.e3e4 * c.e0e4 + b.s * c.e0e3));
    scale_right_transform_e0e1(a, b, c.e1e3);
    scale_right_transform_e0e1e2e3(a, b, c.e1e2);
    scale_right_transform_e0e1e2e4(a, b, c.e1e2e3e4);
    scale_right_transform_e0e1e3e4(a, b, c.e1e4);
    scale_right_transform_e0e2(a, b, c.e2e3);
    scale_right_transform_e0e2e3e4(a, b, c.e2e4);
    scale_right_transform_e0e3(a, b, c.s);
    scale_right_transform_e0e4(a, b, c.e3e4);
    scale_right_transform_e1e2(a, b, c.e0e1e2e3);
    scale_right_transform_e1e2e3e4(a, b, c.e0e1e2e4);
    scale_right_transform_e1e3(a, b, c.e0e1);
    scale_right_transform_e1e4(a, b, c.e0e1e3e4);
    scale_right_transform_e2e3(a, b, c.e0e2);
    scale_right_transform_e2e4(a, b, c.e0e2e3e4);
    scale_right_transform_e3e4(a, b, c.e0e4);
    scale_right_transform_s(a, b, c.e0e3);
    scale_left_transform_e1e3(b, c, a.e0e1);
    scale_left_transform_e1e2(b, c, a.e0e1e2e3);
    scale_left_transform_e1e2e3e4(b, c, a.e0e1e2e4);
    scale_left_transform_e1e4(b, c, a.e0e1e3e4);
    scale_left_transform_e2e3(b, c, a.e0e2);
    scale_left_transform_e2e4(b, c, a.e0e2e3e4);
    scale_left_transform_s(b, c, a.e0e3);
    scale_left_transform_e3e4(b, c, a.e0e4);
    scale_left_transform_e0e1e2e3(b, c, a.e1e2);
    scale_left_transform_e0e1e2e4(b, c, a.e1e2e3e4);
    scale_left_transform_e0e1(b, c, a.e1e3);
    scale_left_transform_e0e1e3e4(b, c, a.e1e4);
    scale_left_transform_e0e2(b, c, a.e2e3);
    scale_left_transform_e0e2e3e4(b, c, a.e2e4);
    scale_left_transform_e0e4(b, c, a.e3e4);
    scale_left_transform_e0e3(b, c, a.s);
    assert(l.e0e3 == (a.e0e1 * b.e1e2) * c.e2e3 + (a.e0e1 * b.e1e2e3e4) * c.e2e4 + (a.e0e1 * b.e1e3) * c.s - (a.e0e1 * b.e1e4) * c.e3e4 - (a.e0e1 * b.e2e3) * c.e1e2 + (a.e0e1 * b.e2e4) * c.e1e2e3e4 + (a.e0e1 * b.e3e4) * c.e1e4 + (a.e0e1 * b.s) * c.e1e3 - (a.e0e1e2e3 * b.e1e2) * c.s + (a.e0e1e2e3 * b.e1e2e3e4) * c.e3e4 + (a.e0e1e2e3 * b.e1e3) * c.e2e3 + (a.e0e1e2e3 * b.e1e4) * c.e2e4 - (a.e0e1e2e3 * b.e2e3) * c.e1e3 - (a.e0e1e2e3 * b.e2e4) * c.e1e4 + (a.e0e1e2e3 * b.e3e4) * c.e1e2e3e4 - (a.e0e1e2e3 * b.s) * c.e1e2 + (a.e0e1e2e4 * b.e1e2) * c.e3e4 + (a.e0e1e2e4 * b.e1e2e3e4) * c.s - (a.e0e1e2e4 * b.e1e3) * c.e2e4 + (a.e0e1e2e4 * b.e1e4) * c.e2e3 + (a.e0e1e2e4 * b.e2e3) * c.e1e4 - (a.e0e1e2e4 * b.e2e4) * c.e1e3 + (a.e0e1e2e4 * b.e3e4) * c.e1e2 + (a.e0e1e2e4 * b.s) * c.e1e2e3e4 + (a.e0e1e3e4 * b.e1e2) * c.e2e4 - (a.e0e1e3e4 * b.e1e2e3e4) * c.e2e3 + (a.e0e1e3e4 * b.e1e3) * c.e3e4 + (a.e0e1e3e4 * b.e1e4) * c.s - (a.e0e1e3e4 * b.e2e3) * c.e1e2e3e4 - (a.e0e1e3e4 * b.e2e4) * c.e1e2 - (a.e0e1e3e4 * b.e3e4) * c.e1e3 + (a.e0e1e3e4 * b.s) * c.e1e4 - (a.e0e2 * b.e1e2) * c.e1e3 - (a.e0e2 * b.e1e2e3e4) * c.e1e4 + (a.e0e2 * b.e1e3) * c.e1e2 - (a.e0e2 * b.e1e4) * c.e1e2e3e4 + (a.e0e2 * b.e2e3) * c.s - (a.e0e2 * b.e2e4) * c.e3e4 + (a.e0e2 * b.e3e4) * c.e2e4 + (a.e0e2 * b.s) * c.e2e3 - (a.e0e2e3e4 * b.e1e2) * c.e1e4 + (a.e0e2e3e4 * b.e1e2e3e4) * c.e1e3 + (a.e0e2e3e4 * b.e1e3) * c.e1e2e3e4 + (a.e0e2e3e4 * b.e1e4) * c.e1e2 + (a.e0e2e3e4 * b.e2e3) * c.e3e4 + (a.e0e2e3e4 * b.e2e4) * c.s - (a.e0e2e3e4 * b.e3e4) * c.e2e3 + (a.e0e2e3e4 * b.s) * c.e2e4 - (a.e0e3 * b.e1e2) * c.e1e2 + (a.e0e3 * b.e1e2e3e4) * c.e1e2e3e4 - (a.e0e3 * b.e1e3) * c.e1e3 - (a.e0e3 * b.e1e4) * c.e1e4 - (a.e0e3 * b.e2e3) * c.e2e3 - (a.e0e3 * b.e2e4) * c.e2e4 - (a.e0e3 * b.e3e4) * c.e3e4 + (a.e0e3 * b.s) * c.s + (a.e0e4 * b.e1e2) * c.e1e2e3e4 + (a.e0e4 * b.e1e2e3e4) * c.e1e2 + (a.e0e4 * b.e1e3) * c.e1e4 - (a.e0e4 * b.e1e4) * c.e1e3 + (a.e0e4 * b.e2e3) * c.e2e4 - (a.e0e4 * b.e2e4) * c.e2e3 - (a.e0e4 * b.e3e4) * c.s - (a.e0e4 * b.s) * c.e3e4 - (a.e1e2 * b.e0e1) * c.e2e3 - (a.e1e2 * b.e0e1e2e3) * c.s + (a.e1e2 * b.e0e1e2e4) * c.e3e4 - (a.e1e2 * b.e0e1e3e4) * c.e2e4 + (a.e1e2 * b.e0e2) * c.e1e3 + (a.e1e2 * b.e0e2e3e4) * c.e1e4 - (a.e1e2 * b.e0e3) * c.e1e2 + (a.e1e2 * b.e0e4) * c.e1e2e3e4 - (a.e1e2 * b.e1e2) * c.e0e3 - (a.e1e2 * b.e1e2e3e4) * c.e0e4 + (a.e1e2 * b.e1e3) * c.e0e2 - (a.e1e2 * b.e1e4) * c.e0e2e3e4 - (a.e1e2 * b.e2e3) * c.e0e1 + (a.e1e2 * b.e2e4) * c.e0e1e3e4 - (a.e1e2 * b.e3e4) * c.e0e1e2e4 - (a.e1e2 * b.s) * c.e0e1e2e3 - (a.e1e2e3e4 * b.e0e1) * c.e2e4 - (a.e1e2e3e4 * b.e0e1e2e3) * c.e3e4 - (a.e1e2e3e4 * b.e0e1e2e4) * c.s + (a.e1e2e3e4 * b.e0e1e3e4) * c.e2e3 + (a.e1e2e3e4 * b.e0e2) * c.e1e4 - (a.e1e2e3e4 * b.e0e2e3e4) * c.e1e3 - (a.e1e2e3e4 * b.e0e3) * c.e1e2e3e4 - (a.e1e2e3e4 * b.e0e4) * c.e1e2 - (a.e1e2e3e4 * b.e1e2) * c.e0e4 + (a.e1e2e3e4 * b.e1e2e3e4) * c.e0e3 + (a.e1e2e3e4 * b.e1e3) * c.e0e2e3e4 + (a.e1e2e3e4 * b.e1e4) * c.e0e2 - (a.e1e2e3e4 * b.e2e3) * c.e0e1e3e4 - (a.e1e2e3e4 * b.e2e4) * c.e0e1 + (a.e1e2e3e4 * b.e3e4) * c.e0e1e2e3 - (a.e1e2e3e4 * b.s) * c.e0e1e2e4 - (a.e1e3 * b.e0e1) * c.s + (a.e1e3 * b.e0e1e2e3) * c.e2e3 + (a.e1e3 * b.e0e1e2e4) * c.e2e4 + (a.e1e3 * b.e0e1e3e4) * c.e3e4 + (a.e1e3 * b.e0e2) * c.e1e2 - (a.e1e3 * b.e0e2e3e4) * c.e1e2e3e4 + (a.e1e3 * b.e0e3) * c.e1e3 + (a.e1e3 * b.e0e4) * c.e1e4 - (a.e1e3 * b.e1e2) * c.e0e2 + (a.e1e3 * b.e1e2e3e4) * c.e0e2e3e4 - (a.e1e3 * b.e1e3) * c.e0e3 - (a.e1e3 * b.e1e4) * c.e0e4 + (a.e1e3 * b.e2e3) * c.e0e1e2e3 + (a.e1e3 * b.e2e4) * c.e0e1e2e4 + (a.e1e3 * b.e3e4) * c.e0e1e3e4 - (a.e1e3 * b.s) * c.e0e1 + (a.e1e4 * b.e0e1) * c.e3e4 - (a.e1e4 * b.e0e1e2e3) * c.e2e4 + (a.e1e4 * b.e0e1e2e4) * c.e2e3 + (a.e1e4 * b.e0e1e3e4) * c.s - (a.e1e4 * b.e0e2) * c.e1e2e3e4 - (a.e1e4 * b.e0e2e3e4) * c.e1e2 - (a.e1e4 * b.e0e3) * c.e1e4 + (a.e1e4 * b.e0e4) * c.e1e3 + (a.e1e4 * b.e1e2) * c.e0e2e3e4 + (a.e1e4 * b.e1e2e3e4) * c.e0e2 + (a.e1e4 * b.e1e3) * c.e0e4 - (a.e1e4 * b.e1e4) * c.e0e3 - (a.e1e4 * b.e2e3) * c.e0e1e2e4 + (a.e1e4 * b.e2e4) * c.e0e1e2e3 + (a.e1e4 * b.e3e4) * c.e0e1 + (a.e1e4 * b.s) * c.e0e1e3e4 - (a.e2e3 * b.e0e1) * c.e1e2 - (a.e2e3 * b.e0e1e2e3) * c.e1e3 - (a.e2e3 * b.e0e1e2e4) * c.e1e4 + (a.e2e3 * b.e0e1e3e4) * c.e1e2e3e4 - (a.e2e3 * b.e0e2) * c.s + (a.e2e3 * b.e0e2e3e4) * c.e3e4 + (a.e2e3 * b.e0e3) * c.e2e3 + (a.e2e3 * b.e0e4) * c.e2e4 + (a.e2e3 * b.e1e2) * c.e0e1 - (a.e2e3 * b.e1e2e3e4) * c.e0e1e3e4 - (a.e2e3 * b.e1e3) * c.e0e1e2e3 - (a.e2e3 * b.e1e4) * c.e0e1e2e4 - (a.e2e3 * b.e2e3) * c.e0e3 - (a.e2e3 * b.e2e4) * c.e0e4 + (a.e2e3 * b.e3e4) * c.e0e2e3e4 - (a.e2e3 * b.s) * c.e0e2 + (a.e2e4 * b.e0e1) * c.e1e2e3e4 + (a.e2e4 * b.e0e1e2e3) * c.e1e4 - (a.e2e4 * b.e0e1e2e4) * c.e1e3 + (a.e2e4 * b.e0e1e3e4) * c.e1e2 + (a.e2e4 * b.e0e2) * c.e3e4 + (a.e2e4 * b.e0e2e3e4) * c.s - (a.e2e4 * b.e0e3) * c.e2e4 + (a.e2e4 * b.e0e4) * c.e2e3 - (a.e2e4 * b.e1e2) * c.e0e1e3e4 - (a.e2e4 * b.e1e2e3e4) * c.e0e1 + (a.e2e4 * b.e1e3) * c.e0e1e2e4 - (a.e2e4 * b.e1e4) * c.e0e1e2e3 + (a.e2e4 * b.e2e3) * c.e0e4 - (a.e2e4 * b.e2e4) * c.e0e3 + (a.e2e4 * b.e3e4) * c.e0e2 + (a.e2e4 * b.s) * c.e0e2e3e4 + (a.e3e4 * b.e0e1) * c.e1e4 - (a.e3e4 * b.e0e1e2e3) * c.e1e2e3e4 - (a.e3e4 * b.e0e1e2e4) * c.e1e2 - (a.e3e4 * b.e0e1e3e4) * c.e1e3 + (a.e3e4 * b.e0e2) * c.e2e4 - (a.e3e4 * b.e0e2e3e4) * c.e2e3 + (a.e3e4 * b.e0e3) * c.e3e4 + (a.e3e4 * b.e0e4) * c.s - (a.e3e4 * b.e1e2) * c.e0e1e2e4 + (a.e3e4 * b.e1e2e3e4) * c.e0e1e2e3 - (a.e3e4 * b.e1e3) * c.e0e1e3e4 - (a.e3e4 * b.e1e4) * c.e0e1 - (a.e3e4 * b.e2e3) * c.e0e2e3e4 - (a.e3e4 * b.e2e4) * c.e0e2 - (a.e3e4 * b.e3e4) * c.e0e3 + (a.e3e4 * b.s) * c.e0e4 + (a.s * b.e0e1) * c.e1e3 - (a.s * b.e0e1e2e3) * c.e1e2 + (a.s * b.e0e1e2e4) * c.e1e2e3e4 + (a.s * b.e0e1e3e4) * c.e1e4 + (a.s * b.e0e2) * c.e2e3 + (a.s * b.e0e2e3e4) * c.e2e4 + (a.s * b.e0e3) * c.s - (a.s * b.e0e4) * c.e3e4 - (a.s * b.e1e2) * c.e0e1e2e3 - (a.s * b.e1e2e3e4) * c.e0e1e2e4 - (a.s * b.e1e3) * c.e0e1 + (a.s * b.e1e4) * c.e0e1e3e4 - (a.s * b.e2e3) * c.e0e2 + (a.s * b.e2e4) * c.e0e2e3e4 + (a.s * b.e3e4) * c.e0e4 + (a.s * b.s) * c.e0e3);
    assert(r.e0e3 == (a.e0e1 * b.e1e2) * c.e2e3 + (a.e0e1 * b.e1e2e3e4) * c.e2e4 + (a.e0e1 * b.e1e3) * c.s - (a.e0e1 * b.e1e4) * c.e3e4 - (a.e0e1 * b.e2e3) * c.e1e2 + (a.e0e1 * b.e2e4) * c.e1e2e3e4 + (a.e0e1 * b.e3e4) * c.e1e4 + (a.e0e1 * b.s) * c.e1e3 - (a.e0e1e2e3 * b.e1e2) * c.s + (a.e0e1e2e3 * b.e1e2e3e4) * c.e3e4 + (a.e0e1e2e3 * b.e1e3) * c.e2e3 + (a.e0e1e2e3 * b.e1e4) * c.e2e4 - (a.e0e1e2e3 * b.e2e3) * c.e1e3 - (a.e0e1e2e3 * b.e2e4) * c.e1e4 + (a.e0e1e2e3 * b.e3e4) * c.e1e2e3e4 - (a.e0e1e2e3 * b.s) * c.e1e2 + (a.e0e1e2e4 * b.e1e2) * c.e3e4 + (a.e0e1e2e4 * b.e1e2e3e4) * c.s - (a.e0e1e2e4 * b.e1e3) * c.e2e4 + (a.e0e1e2e4 * b.e1e4) * c.e2e3 + (a.e0e1e2e4 * b.e2e3) * c.e1e4 - (a.e0e1e2e4 * b.e2e4) * c.e1e3 + (a.e0e1e2e4 * b.e3e4) * c.e1e2 + (a.e0e1e2e4 * b.s) * c.e1e2e3e4 + (a.e0e1e3e4 * b.e1e2) * c.e2e4 - (a.e0e1e3e4 * b.e1e2e3e4) * c.e2e3 + (a.e0e1e3e4 * b.e1e3) * c.e3e4 + (a.e0e1e3e4 * b.e1e4) * c.s - (a.e0e1e3e4 * b.e2e3) * c.e1e2e3e4 - (a.e0e1e3e4 * b.e2e4) * c.e1e2 - (a.e0e1e3e4 * b.e3e4) * c.e1e3 + (a.e0e1e3e4 * b.s) * c.e1e4 - (a.e0e2 * b.e1e2) * c.e1e3 - (a.e0e2 * b.e1e2e3e4) * c.e1e4 + (a.e0e2 * b.e1e3) * c.e1e2 - (a.e0e2 * b.e1e4) * c.e1e2e3e4 + (a.e0e2 * b.e2e3) * c.s - (a.e0e2 * b.e2e4) * c.e3e4 + (a.e0e2 * b.e3e4) * c.e2e4 + (a.e0e2 * b.s) * c.e2e3 - (a.e0e2e3e4 * b.e1e2) * c.e1e4 + (a.e0e2e3e4 * b.e1e2e3e4) * c.e1e3 + (a.e0e2e3e4 * b.e1e3) * c.e1e2e3e4 + (a.e0e2e3e4 * b.e1e4) * c.e1e2 + (a.e0e2e3e4 * b.e2e3) * c.e3e4 + (a.e0e2e3e4 * b.e2e4) * c.s - (a.e0e2e3e4 * b.e3e4) * c.e2e3 + (a.e0e2e3e4 * b.s) * c.e2e4 - (a.e0e3 * b.e1e2) * c.e1e2 + (a.e0e3 * b.e1e2e3e4) * c.e1e2e3e4 - (a.e0e3 * b.e1e3) * c.e1e3 - (a.e0e3 * b.e1e4) * c.e1e4 - (a.e0e3 * b.e2e3) * c.e2e3 - (a.e0e3 * b.e2e4) * c.e2e4 - (a.e0e3 * b.e3e4) * c.e3e4 + (a.e0e3 * b.s) * c.s + (a.e0e4 * b.e1e2) * c.e1e2e3e4 + (a.e0e4 * b.e1e2e3e4) * c.e1e2 + (a.e0e4 * b.e1e3) * c.e1e4 - (a.e0e4 * b.e1e4) * c.e1e3 + (a.e0e4 * b.e2e3) * c.e2e4 - (a.e0e4 * b.e2e4) * c.e2e3 - (a.e0e4 * b.e3e4) * c.s - (a.e0e4 * b.s) * c.e3e4 - (a.e1e2 * b.e0e1) * c.e2e3 - (a.e1e2 * b.e0e1e2e3) * c.s + (a.e1e2 * b.e0e1e2e4) * c.e3e4 - (a.e1e2 * b.e0e1e3e4) * c.e2e4 + (a.e1e2 * b.e0e2) * c.e1e3 + (a.e1e2 * b.e0e2e3e4) * c.e1e4 - (a.e1e2 * b.e0e3) * c.e1e2 + (a.e1e2 * b.e0e4) * c.e1e2e3e4 - (a.e1e2 * b.e1e2) * c.e0e3 - (a.e1e2 * b.e1e2e3e4) * c.e0e4 + (a.e1e2 * b.e1e3) * c.e0e2 - (a.e1e2 * b.e1e4) * c.e0e2e3e4 - (a.e1e2 * b.e2e3) * c.e0e1 + (a.e1e2 * b.e2e4) * c.e0e1e3e4 - (a.e1e2 * b.e3e4) * c.e0e1e2e4 - (a.e1e2 * b.s) * c.e0e1e2e3 - (a.e1e2e3e4 * b.e0e1) * c.e2e4 - (a.e1e2e3e4 * b.e0e1e2e3) * c.e3e4 - (a.e1e2e3e4 * b.e0e1e2e4) * c.s + (a.e1e2e3e4 * b.e0e1e3e4) * c.e2e3 + (a.e1e2e3e4 * b.e0e2) * c.e1e4 - (a.e1e2e3e4 * b.e0e2e3e4) * c.e1e3 - (a.e1e2e3e4 * b.e0e3) * c.e1e2e3e4 - (a.e1e2e3e4 * b.e0e4) * c.e1e2 - (a.e1e2e3e4 * b.e1e2) * c.e0e4 + (a.e1e2e3e4 * b.e1e2e3e4) * c.e0e3 + (a.e1e2e3e4 * b.e1e3) * c.e0e2e3e4 + (a.e1e2e3e4 * b.e1e4) * c.e0e2 - (a.e1e2e3e4 * b.e2e3) * c.e0e1e3e4 - (a.e1e2e3e4 * b.e2e4) * c.e0e1 + (a.e1e2e3e4 * b.e3e4) * c.e0e1e2e3 - (a.e1e2e3e4 * b.s) * c.e0e1e2e4 - (a.e1e3 * b.e0e1) * c.s + (a.e1e3 * b.e0e1e2e3) * c.e2e3 + (a.e1e3 * b.e0e1e2e4) * c.e2e4 + (a.e1e3 * b.e0e1e3e4) * c.e3e4 + (a.e1e3 * b.e0e2) * c.e1e2 - (a.e1e3 * b.e0e2e3e4) * c.e1e2e3e4 + (a.e1e3 * b.e0e3) * c.e1e3 + (a.e1e3 * b.e0e4) * c.e1e4 - (a.e1e3 * b.e1e2) * c.e0e2 + (a.e1e3 * b.e1e2e3e4) * c.e0e2e3e4 - (a.e1e3 * b.e1e3) * c.e0e3 - (a.e1e3 * b.e1e4) * c.e0e4 + (a.e1e3 * b.e2e3) * c.e0e1e2e3 + (a.e1e3 * b.e2e4) * c.e0e1e2e4 + (a.e1e3 * b.e3e4) * c.e0e1e3e4 - (a.e1e3 * b.s) * c.e0e1 + (a.e1e4 * b.e0e1) * c.e3e4 - (a.e1e4 * b.e0e1e2e3) * c.e2e4 + (a.e1e4 * b.e0e1e2e4) * c.e2e3 + (a.e1e4 * b.e0e1e3e4) * c.s - (a.e1e4 * b.e0e2) * c.e1e2e3e4 - (a.e1e4 * b.e0e2e3e4) * c.e1e2 - (a.e1e4 * b.e0e3) * c.e1e4 + (a.e1e4 * b.e0e4) * c.e1e3 + (a.e1e4 * b.e1e2) * c.e0e2e3e4 + (a.e1e4 * b.e1e2e3e4) * c.e0e2 + (a.e1e4 * b.e1e3) * c.e0e4 - (a.e1e4 * b.e1e4) * c.e0e3 - (a.e1e4 * b.e2e3) * c.e0e1e2e4 + (a.e1e4 * b.e2e4) * c.e0e1e2e3 + (a.e1e4 * b.e3e4) * c.e0e1 + (a.e1e4 * b.s) * c.e0e1e3e4 - (a.e2e3 * b.e0e1) * c.e1e2 - (a.e2e3 * b.e0e1e2e3) * c.e1e3 - (a.e2e3 * b.e0e1e2e4) * c.e1e4 + (a.e2e3 * b.e0e1e3e4) * c.e1e2e3e4 - (a.e2e3 * b.e0e2) * c.s + (a.e2e3 * b.e0e2e3e4) * c.e3e4 + (a.e2e3 * b.e0e3) * c.e2e3 + (a.e2e3 * b.e0e4) * c.e2e4 + (a.e2e3 * b.e1e2) * c.e0e1 - (a.e2e3 * b.e1e2e3e4) * c.e0e1e3e4 - (a.e2e3 * b.e1e3) * c.e0e1e2e3 - (a.e2e3 * b.e1e4) * c.e0e1e2e4 - (a.e2e3 * b.e2e3) * c.e0e3 - (a.e2e3 * b.e2e4) * c.e0e4 + (a.e2e3 * b.e3e4) * c.e0e2e3e4 - (a.e2e3 * b.s) * c.e0e2 + (a.e2e4 * b.e0e1) * c.e1e2e3e4 + (a.e2e4 * b.e0e1e2e3) * c.e1e4 - (a.e2e4 * b.e0e1e2e4) * c.e1e3 + (a.e2e4 * b.e0e1e3e4) * c.e1e2 + (a.e2e4 * b.e0e2) * c.e3e4 + (a.e2e4 * b.e0e2e3e4) * c.s - (a.e2e4 * b.e0e3) * c.e2e4 + (a.e2e4 * b.e0e4) * c.e2e3 - (a.e2e4 * b.e1e2) * c.e0e1e3e4 - (a.e2e4 * b.e1e2e3e4) * c.e0e1 + (a.e2e4 * b.e1e3) * c.e0e1e2e4 - (a.e2e4 * b.e1e4) * c.e0e1e2e3 + (a.e2e4 * b.e2e3) * c.e0e4 - (a.e2e4 * b.e2e4) * c.e0e3 + (a.e2e4 * b.e3e4) * c.e0e2 + (a.e2e4 * b.s) * c.e0e2e3e4 + (a.e3e4 * b.e0e1) * c.e1e4 - (a.e3e4 * b.e0e1e2e3) * c.e1e2e3e4 - (a.e3e4 * b.e0e1e2e4) * c.e1e2 - (a.e3e4 * b.e0e1e3e4) * c.e1e3 + (a.e3e4 * b.e0e2) * c.e2e4 - (a.e3e4 * b.e0e2e3e4) * c.e2e3 + (a.e3e4 * b.e0e3) * c.e3e4 + (a.e3e4 * b.e0e4) * c.s - (a.e3e4 * b.e1e2) * c.e0e1e2e4 + (a.e3e4 * b.e1e2e3e4) * c.e0e1e2e3 - (a.e3e4 * b.e1e3) * c.e0e1e3e4 - (a.e3e4 * b.e1e4) * c.e0e1 - (a.e3e4 * b.e2e3) * c.e0e2e3e4 - (a.e3e4 * b.e2e4) * c.e0e2 - (a.e3e4 * b.e3e4) * c.e0e3 + (a.e3e4 * b.s) * c.e0e4 + (a.s * b.e0e1) * c.e1e3 - (a.s * b.e0e1e2e3) * c.e1e2 + (a.s * b.e0e1e2e4) * c.e1e2e3e4 + (a.s * b.e0e1e3e4) * c.e1e4 + (a.s * b.e0e2) * c.e2e3 + (a.s * b.e0e2e3e4) * c.e2e4 + (a.s * b.e0e3) * c.s - (a.s * b.e0e4) * c.e3e4 - (a.s * b.e1e2) * c.e0e1e2e3 - (a.s * b.e1e2e3e4) * c.e0e1e2e4 - (a.s * b.e1e3) * c.e0e1 + (a.s * b.e1e4) * c.e0e1e3e4 - (a.s * b.e2e3) * c.e0e2 + (a.s * b.e2e4) * c.e0e2e3e4 + (a.s * b.e3e4) * c.e0e4 + (a.s * b.s) * c.e0e3);
    assert(l.e0e4 == (a.e0e1 * b.s - a.e0e1e2e3 * b.e2e3 - a.e0e1e2e4 * b.e2e4 - a.e0e1e3e4 * b.e3e4 - a.e0e2 * b.e1e2 + a.e0e2e3e4 * b.e1e2e3e4 - a.e0e3 * b.e1e3 - a.e0e4 * b.e1e4 + a.e1e2 * b.e0e2 - a.e1e2e3e4 * b.e0e2e3e4 + a.e1e3 * b.e0e3 + a.e1e4 * b.e0e4 - a.e2e3 * b.e0e1e2e3 - a.e2e4 * b.e0e1e2e4 - a.e3e4 * b.e0e1e3e4 + a.s * b.e0e1) * c.e1e4 - (a.e0e1 * b.e2e3 + a.e0e1e2e3 * b.s - a.e0e1e2e4 * b.e3e4 + a.e0e1e3e4 * b.e2e4 - a.e0e2 * b.e1e3 - a.e0e2e3e4 * b.e1e4 + a.e0e3 * b.e1e2 - a.e0e4 * b.e1e2e3e4 + a.e1e2 * b.e0e3 + a.e1e2e3e4 * b.e0e4 - a.e1e3 * b.e0e2 + a.e1e4 * b.e0e2e3e4 + a.e2e3 * b.e0e1 - a.e2e4 * b.e0e1e3e4 + a.e3e4 * b.e0e1e2e4 + a.s * b.e0e1e2e3) * c.e1e2e3e4 - (a.e0e1 * b.e2e4 + a.e0e1e2e3 * b.e3e4 + a.e0e1e2e4 * b.s - a.e0e1e3e4 * b.e2e3 - a.e0e2 * b.e1e4 + a.e0e2e3e4 * b.e1e3 + a.e0e3 * b.e1e2e3e4 + a.e0e4 * b.e1e2 + a.e1e2 * b.e0e4 - a.e1e2e3e4 * b.e0e3 - a.e1e3 * b.e0e2e3e4 - a.e1e4 * b.e0e2 + a.e2e3 * b.e0e1e3e4 + a.e2e4 * b.e0e1 - a.e3e4 * b.e0e1e2e3 + a.s * b.e0e1e2e4) * c.e1e2 - (a.e0e1 * b.e3e4 - a.e0e1e2e3 * b.e2e4 + a.e0e1e2e4 * b.e2e3 + a.e0e1e3e4 * b.s - a.e0e2 * b.e1e2e3e4 - a.e0e2e3e4 * b.e1e2 - a.e0e3 * b.e1e4 + a.e0e4 * b.e1e3 + a.e1e2 * b.e0e2e3e4 + a.e1e2e3e4 * b.e0e2 + a.e1e3 * b.e0e4 - a.e1e4 * b.e0e3 - a.e2e3 * b.e0e1e2e4 + a.e2e4 * b.e0e1e2e3 + a.e3e4 * b.e0e1 + a.s * b.e0e1e3e4) * c.e1e3 + (a.e0e1 * b.e1e2 + a.e0e1e2e3 * b.e1e3 + a.e0e1e2e4 * b.e1e4 - a.e0e1e3e4 * b.e1e2e3e4 + a.e0e2 * b.s - a.e0e2e3e4 * b.e3e4 - a.e0e3 * b.e2e3 - a.e0e4 * b.e2e4 - a.e1e2 * b.e0e1 + a.e1e2e3e4 * b.e0e1e3e4 + a.e1e3 * b.e0e1e2e3 + a.e1e4 * b.e0e1e2e4 + a.e2e3 * b.e0e3 + a.e2e4 * b.e0e4 - a.e3e4 * b.e0e2e3e4 + a.s * b.e0e2) * c.e2e4 - (a.e0e1 * b.e1e2e3e4 + a.e0e1e2e3 * b.e1e4 - a.e0e1e2e4 * b.e1e3 + a.e0e1e3e4 * b.e1e2 + a.e0e2 * b.e3e4 + a.e0e2e3e4 * b.s - a.e0e3 * b.e2e4 + a.e0e4 * b.e2e3 - a.e1e2 * b.e0e1e3e4 - a.e1e2e3e4 * b.e0e1 + a.e1e3 * b.e0e1e2e4 - a.e1e4 * b.e0e1e2e3 + a.e2e3 * b.e0e4 - a.e2e4 * b.e0e3 + a.e3e4 * b.e0e2 + a.s * b.e0e2e3e4) * c.e2e3 + (a.e0e1 * b.e1e3 - a.e0e1e2e3 * b.e1e2 + a.e0e1e2e4 * b.e1e2e3e4 + a.e0e1e3e4 * b.e1e4 + a.e0e2 * b.e2e3 + a.e0e2e3e4 * b.e2e4 + a.e0e3 * b.s - a.e0e4 * b.e3e4 - a.e1e2 * b.e0e1e2e3 - a.e1e2e3e4 * b.e0e1e2e4 - a.e1e3 * b.e0e1 + a.e1e4 * b.e0e1e3e4 - a.e2e3 * b.e0e2 + a.e2e4 * b.e0e2e3e4 + a.e3e4 * b.e0e4 + a.s * b.e0e3) * c.e3e4 + (a.e0e1 * b.e1e4 - a.e0e1e2e3 * b.e1e2e3e4 - a.e0e1e2e4 * b.e1e2 - a.e0e1e3e4 * b.e1e3 + a.e0e2 * b.e2e4 - a.e0e2e3e4 * b.e2e3 + a.e0e3 * b.e3e4 + a.e0e4 * b.s - a.e1e2 * b.e0e1e2e4 + a.e1e2e3e4 * b.e0e1e2e3 - a.e1e3 * b.e0e1e3e4 - a.e1e4 * b.e0e1 - a.e2e3 * b.e0e2e3e4 - a.e2e4 * b.e0e2 - a.e3e4 * b.e0e3 + a.s * b.e0e4) * c.s - (a.e1e2 * b.s - a.e1e2e3e4 * b.e3e4 - a.e1e3 * b.e2e3 - a.e1e4 * b.e2e4 + a.e2e3 * b.e1e3 + a.e2e4 * b.e1e4 - a.e3e4 * b.e1e2e3e4 + a.s * b.e1e2) * c.e0e1e2e4 + (a.e1e2 * b.e3e4 + a.e1e2e3e4 * b.s - a.e1e3 * b.e2e4 + a.e1e4 * b.e2e3 + a.e2e3 * b.e1e4 - a.e2e4 * b.e1e3 + a.e3e4 * b.e1e2 + a.s * b.e1e2e3e4) * c.e0e1e2e3 - (a.e1e2 * b.e2e3 + a.e1e2e3e4 * b.e2e4 + a.e1e3 * b.s - a.e1e4 * b.e3e4 - a.e2e3 * b.e1e2 + a.e2e4 * b.e1e2e3e4 + a.e3e4 * b.e1e4 + a.s * b.e1e3) * c.e0e1e3e4 - (a.e1e2 * b.e2e4 - a.e1e2e3e4 * b.e2e3 + a.e1e3 * b.e3e4 + a.e1e4 * b.s - a.e2e3 * b.e1e2e3e4 - a.e2e4 * b.e1e2 - a.e3e4 * b.e1e3 + a.s * b.e1e4) * c.e0e1 - (-(a.e1e2 * b.e1e3) - a.e1e2e3e4 * b.e1e4 + a.e1e3 * b.e1e2 - a.e1e4 * b.e1e2e3e4 + a.e2e3 * b.s - a.e2e4 * b.e3e4 + a.e3e4 * b.e2e4 + a.s * b.e2e3) * c.e0e2e3e4 - (-(a.e1e2 * b.e1e4) + a.e1e2e3e4 * b.e1e3 + a.e1e3 * b.e1e2e3e4 + a.e1e4 * b.e1e2 + a.e2e3 * b.e3e4 + a.e2e4 * b.s - a.e3e4 * b.e2e3 + a.s * b.e2e4) * c.e0e2 - (-(a.e1e2 * b.e1e2e3e4) - a.e1e2e3e4 * b.e1e2 - a.e1e3 * b.e1e4 + a.e1e4 * b.e1e3 - a.e2e3 * b.e2e4 + a.e2e4 * b.e2e3 + a.e3e4 * b.s + a.s * b.e3e4) * c.e0e3 + (-(a.e1e2 * b.e1e2) + a.e1e2e3e4 * b.e1e2e3e4 - a.e1e3 * b.e1e3 - a.e1e4 * b.e1e4 - a.e2e3 * b.e2e3 - a.e2e4 * b.e2e4 - a.e3e4 * b.e3e4 + a.s * b.s) * c.e0e4);
    assert(r.e0e4 == a.e0e1 * (b.e1e2 * c.e2e4 - b.e1e2e3e4 * c.e2e3 + b.e1e3 * c.e3e4 + b.e1e4 * c.s - b.e2e3 * c.e1e2e3e4 - b.e2e4 * c.e1e2 - b.e3e4 * c.e1e3 + b.s * c.e1e4) - a.e0e1e2e3 * (b.e1e2 * c.e3e4 + b.e1e2e3e4 * c.s - b.e1e3 * c.e2e4 + b.e1e4 * c.e2e3 + b.e2e3 * c.e1e4 - b.e2e4 * c.e1e3 + b.e3e4 * c.e1e2 + b.s * c.e1e2e3e4) - a.e0e1e2e4 * (b.e1e2 * c.s - b.e1e2e3e4 * c.e3e4 - b.e1e3 * c.e2e3 - b.e1e4 * c.e2e4 + b.e2e3 * c.e1e3 + b.e2e4 * c.e1e4 - b.e3e4 * c.e1e2e3e4 + b.s * c.e1e2) - a.e0e1e3e4 * (b.e1e2 * c.e2e3 + b.e1e2e3e4 * c.e2e4 + b.e1e3 * c.s - b.e1e4 * c.e3e4 - b.e2e3 * c.e1e2 + b.e2e4 * c.e1e2e3e4 + b.e3e4 * c.e1e4 + b.s * c.e1e3) + a.e0e2 * (-(b.e1e2 * c.e1e4) + b.e1e2e3e4 * c.e1e3 + b.e1e3 * c.e1e2e3e4 + b.e1e4 * c.e1e2 + b.e2e3 * c.e3e4 + b.e2e4 * c.s - b.e3e4 * c.e2e3 + b.s * c.e2e4) - a.e0e2e3e4 * (-(b.e1e2 * c.e1e3) - b.e1e2e3e4 * c.e1e4 + b.e1e3 * c.e1e2 - b.e1e4 * c.e1e2e3e4 + b.e2e3 * c.s - b.e2e4 * c.e3e4 + b.e3e4 * c.e2e4 + b.s * c.e2e3) + a.e0e3 * (-(b.e1e2 * c.e1e2e3e4) - b.e1e2e3e4 * c.e1e2 - b.e1e3 * c.e1e4 + b.e1e4 * c.e1e3 - b.e2e3 * c.e2e4 + b.e2e4 * c.e2e3 + b.e3e4 * c.s + b.s * c.e3e4) + a.e0e4 * (-(b.e1e2 * c.e1e2) + b.e1e2e3e4 * c.e1e2e3e4 - b.e1e3 * c.e1e3 - b.e1e4 * c.e1e4 - b.e2e3 * c.e2e3 - b.e2e4 * c.e2e4 - b.e3e4 * c.e3e4 + b.s * c.s) - a.e1e2 * (b.e0e1 * c.e2e4 + b.e0e1e2e3 * c.e3e4 + b.e0e1e2e4 * c.s - b.e0e1e3e4 * c.e2e3 - b.e0e2 * c.e1e4 + b.e0e2e3e4 * c.e1e3 + b.e0e3 * c.e1e2e3e4 + b.e0e4 * c.e1e2 + b.e1e2 * c.e0e4 - b.e1e2e3e4 * c.e0e3 - b.e1e3 * c.e0e2e3e4 - b.e1e4 * c.e0e2 + b.e2e3 * c.e0e1e3e4 + b.e2e4 * c.e0e1 - b.e3e4 * c.e0e1e2e3 + b.s * c.e0e1e2e4) + a.e1e2e3e4 * (b.e0e1 * c.e2e3 + b.e0e1e2e3 * c.s - b.e0e1e2e4 * c.e3e4 + b.e0e1e3e4 * c.e2e4 - b.e0e2 * c.e1e3 - b.e0e2e3e4 * c.e1e4 + b.e0e3 * c.e1e2 - b.e0e4 * c.e1e2e3e4 + b.e1e2 * c.e0e3 + b.e1e2e3e4 * c.e0e4 - b.e1e3 * c.e0e2 + b.e1e4 * c.e0e2e3e4 + b.e2e3 * c.e0e1 - b.e2e4 * c.e0e1e3e4 + b.e3e4 * c.e0e1e2e4 + b.s * c.e0e1e2e3) - a.e1e3 * (b.e0e1 * c.e3e4 - b.e0e1e2e3 * c.e2e4 + b.e0e1e2e4 * c.e2e3 + b.e0e1e3e4 * c.s - b.e0e2 * c.e1e2e3e4 - b.e0e2e3e4 * c.e1e2 - b.e0e3 * c.e1e4 + b.e0e4 * c.e1e3 + b.e1e2 * c.e0e2e3e4 + b.e1e2e3e4 * c.e0e2 + b.e1e3 * c.e0e4 - b.e1e4 * c.e0e3 - b.e2e3 * c.e0e1e2e4 + b.e2e4 * c.e0e1e2e3 + b.e3e4 * c.e0e1 + b.s * c.e0e1e3e4) - a.e1e4 * (b.e0e1 * c.s - b.e0e1e2e3 * c.e2e3 - b.e0e1e2e4 * c.e2e4 - b.e0e1e3e4 * c.e3e4 - b.e0e2 * c.e1e2 + b.e0e2e3e4 * c.e1e2e3e4 - b.e0e3 * c.e1e3 - b.e0e4 * c.e1e4 + b.e1e2 * c.e0e2 - b.e1e2e3e4 * c.e0e2e3e4 + b.e1e3 * c.e0e3 + b.e1e4 * c.e0e4 - b.e2e3 * c.e0e1e2e3 - b.e2e4 * c.e0e1e2e4 - b.e3e4 * c.e0e1e3e4 + b.s * c.e0e1) - a.e2e3 * (b.e0e1 * c.e1e2e3e4 + b.e0e1e2e3 * c.e1e4 - b.e0e1e2e4 * c.e1e3 + b.e0e1e3e4 * c.e1e2 + b.e0e2 * c.e3e4 + b.e0e2e3e4 * c.s - b.e0e3 * c.e2e4 + b.e0e4 * c.e2e3 - b.e1e2 * c.e0e1e3e4 - b.e1e2e3e4 * c.e0e1 + b.e1e3 * c.e0e1e2e4 - b.e1e4 * c.e0e1e2e3 + b.e2e3 * c.e0e4 - b.e2e4 * c.e0e3 + b.e3e4 * c.e0e2 + b.s * c.e0e2e3e4) - a.e2e4 * (b.e0e1 * c.e1e2 + b.e0e1e2e3 * c.e1e3 + b.e0e1e2e4 * c.e1e4 - b.e0e1e3e4 * c.e1e2e3e4 + b.e0e2 * c.s - b.e0e2e3e4 * c.e3e4 - b.e0e3 * c.e2e3 - b.e0e4 * c.e2e4 - b.e1e2 * c.e0e1 + b.e1e2e3e4 * c.e0e1e3e4 + b.e1e3 * c.e0e1e2e3 + b.e1e4 * c.e0e1e2e4 + b.e2e3 * c.e0e3 + b.e2e4 * c.e0e4 - b.e3e4 * c.e0e2e3e4 + b.s * c.e0e2) - a.e3e4 * (b.e0e1 * c.e1e3 - b.e0e1e2e3 * c.e1e2 + b.e0e1e2e4 * c.e1e2e3e4 + b.e0e1e3e4 * c.e1e4 + b.e0e2 * c.e2e3 + b.e0e2e3e4 * c.e2e4 + b.e0e3 * c.s - b.e0e4 * c.e3e4 - b.e1e2 * c.e0e1e2e3 - b.e1e2e3e4 * c.e0e1e2e4 - b.e1e3 * c.e0e1 + b.e1e4 * c.e0e1e3e4 - b.e2e3 * c.e0e2 + b.e2e4 * c.e0e2e3e4 + b.e3e4 * c.e0e4 + b.s * c.e0e3) + a.s * (b.e0e1 * c.e1e4 - b.e0e1e2e3 * c.e1e2e3e4 - b.e0e1e2e4 * c.e1e2 - b.e0e1e3e4 * c.e1e3 + b.e0e2 * c.e2e4 - b.e0e2e3e4 * c.e2e3 + b.e0e3 * c.e3e4 + b.e0e4 * c.s - b.e1e2 * c.e0e1e2e4 + b.e1e2e3e4 * c.e0e1e2e3 - b.e1e3 * c.e0e1e3e4 - b.e1e4 * c.e0e1 - b.e2e3 * c.e0e2e3e4 - b.e2e4 * c.e0e2 - b.e3e4 * c.e0e3 + b.s * c.e0e4));
    scale_right_transform_e0e1(a, b, c.e1e4);
    scale_right_transform_e0e1e2e3(a, b, c.e1e2e3e4);
    scale_right_transform_e0e1e2e4(a, b, c.e1e2);
    scale_right_transform_e0e1e3e4(a, b, c.e1e3);
    scale_right_transform_e0e2(a, b, c.e2e4);
    scale_right_transform_e0e2e3e4(a, b, c.e2e3);
    scale_right_transform_e0e3(a, b, c.e3e4);
    scale_right_transform_e0e4(a, b, c.s);
    scale_right_transform_e1e2(a, b, c.e0e1e2e4);
    scale_right_transform_e1e2e3e4(a, b, c.e0e1e2e3);
    scale_right_transform_e1e3(a, b, c.e0e1e3e4);
    scale_right_transform_e1e4(a, b, c.e0e1);
    scale_right_transform_e2e3(a, b, c.e0e2e3e4);
    scale_right_transform_e2e4(a, b, c.e0e2);
    scale_right_transform_e3e4(a, b, c.e0e3);
    scale_right_transform_s(a, b, c.e0e4);
    scale_left_transform_e1e4(b, c, a.e0e1);
    scale_left_transform_e1e2e3e4(b, c, a.e0e1e2e3);
    scale_left_transform_e1e2(b, c, a.e0e1e2e4);
    scale_left_transform_e1e3(b, c, a.e0e1e3e4);
    scale_left_transform_e2e4(b, c, a.e0e2);
    scale_left_transform_e2e3(b, c, a.e0e2e3e4);
    scale_left_transform_e3e4(b, c, a.e0e3);
    scale_left_transform_s(b, c, a.e0e4);
    scale_left_transform_e0e1e2e4(b, c, a.e1e2);
    scale_left_transform_e0e1e2e3(b, c, a.e1e2e3e4);
    scale_left_transform_e0e1e3e4(b, c, a.e1e3);
    scale_left_transform_e0e1(b, c, a.e1e4);
    scale_left_transform_e0e2e3e4(b, c, a.e2e3);
    scale_left_transform_e0e2(b, c, a.e2e4);
    scale_left_transform_e0e3(b, c, a.e3e4);
    scale_left_transform_e0e4(b, c, a.s);
    assert(l.e0e4 == (a.e0e1 * b.e1e2) * c.e2e4 - (a.e0e1 * b.e1e2e3e4) * c.e2e3 + (a.e0e1 * b.e1e3) * c.e3e4 + (a.e0e1 * b.e1e4) * c.s - (a.e0e1 * b.e2e3) * c.e1e2e3e4 - (a.e0e1 * b.e2e4) * c.e1e2 - (a.e0e1 * b.e3e4) * c.e1e3 + (a.e0e1 * b.s) * c.e1e4 - (a.e0e1e2e3 * b.e1e2) * c.e3e4 - (a.e0e1e2e3 * b.e1e2e3e4) * c.s + (a.e0e1e2e3 * b.e1e3) * c.e2e4 - (a.e0e1e2e3 * b.e1e4) * c.e2e3 - (a.e0e1e2e3 * b.e2e3) * c.e1e4 + (a.e0e1e2e3 * b.e2e4) * c.e1e3 - (a.e0e1e2e3 * b.e3e4) * c.e1e2 - (a.e0e1e2e3 * b.s) * c.e1e2e3e4 - (a.e0e1e2e4 * b.e1e2) * c.s + (a.e0e1e2e4 * b.e1e2e3e4) * c.e3e4 + (a.e0e1e2e4 * b.e1e3) * c.e2e3 + (a.e0e1e2e4 * b.e1e4) * c.e2e4 - (a.e0e1e2e4 * b.e2e3) * c.e1e3 - (a.e0e1e2e4 * b.e2e4) * c.e1e4 + (a.e0e1e2e4 * b.e3e4) * c.e1e2e3e4 - (a.e0e1e2e4 * b.s) * c.e1e2 - (a.e0e1e3e4 * b.e1e2) * c.e2e3 - (a.e0e1e3e4 * b.e1e2e3e4) * c.e2e4 - (a.e0e1e3e4 * b.e1e3) * c.s + (a.e0e1e3e4 * b.e1e4) * c.e3e4 + (a.e0e1e3e4 * b.e2e3) * c.e1e2 - (a.e0e1e3e4 * b.e2e4) * c.e1e2e3e4 - (a.e0e1e3e4 * b.e3e4) * c.e1e4 - (a.e0e1e3e4 * b.s) * c.e1e3 - (a.e0e2 * b.e1e2) * c.e1e4 + (a.e0e2 * b.e1e2e3e4) * c.e1e3 + (a.e0e2 * b.e1e3) * c.e1e2e3e4 + (a.e0e2 * b.e1e4) * c.e1e2 + (a.e0e2 * b.e2e3) * c.e3e4 + (a.e0e2 * b.e2e4) * c.s - (a.e0e2 * b.e3e4) * c.e2e3 + (a.e0e2 * b.s) * c.e2e4 + (a.e0e2e3e4 * b.e1e2) * c.e1e3 + (a.e0e2e3e4 * b.e1e2e3e4) * c.e1e4 - (a.e0e2e3e4 * b.e1e3) * c.e1e2 + (a.e0e2e3e4 * b.e1e4) * c.e1e2e3e4 - (a.e0e2e3e4 * b.e2e3) * c.s + (a.e0e2e3e4 * b.e2e4) * c.e3e4 - (a.e0e2e3e4 * b.e3e4) * c.e2e4 - (a.e0e2e3e4 * b.s) * c.e2e3 - (a.e0e3 * b.e1e2) * c.e1e2e3e4 - (a.e0e3 * b.e1e2e3e4) * c.e1e2 - (a.e0e3 * b.e1e3) * c.e1e4 + (a.e0e3 * b.e1e4) * c.e1e3 - (a.e0e3 * b.e2e3) * c.e2e4 + (a.e0e3 * b.e2e4) * c.e2e3 + (a.e0e3 * b.e3e4) * c.s + (a.e0e3 * b.s) * c.e3e4 - (a.e0e4 * b.e1e2) * c.e1e2 + (a.e0e4 * b.e1e2e3e4) * c.e1e2e3e4 - (a.e0e4 * b.e1e3) * c.e1e3 - (a.e0e4 * b.e1e4) * c.e1e4 - (a.e0e4 * b.e2e3) * c.e2e3 - (a.e0e4 * b.e2e4) * c.e2e4 - (a.e0e4 * b.e3e4) * c.e3e4 + (a.e0e4 * b.s) * c.s - (a.e1e2 * b.e0e1) * c.e2e4 - (a.e1e2 * b.e0e1e2e3) * c.e3e4 - (a.e1e2 * b.e0e1e2e4) * c.s + (a.e1e2 * b.e0e1e3e4) * c.e2e3 + (a.e1e2 * b.e0e2) * c.e1e4 - (a.e1e2 * b.e0e2e3e4) * c.e1e3 - (a.e1e2 * b.e0e3) * c.e1e2e3e4 - (a.e1e2 * b.e0e4) * c.e1e2 - (a.e1e2 * b.e1e2) * c.e0e4 + (a.e1e2 * b.e1e2e3e4) * c.e0e3 + (a.e1e2 * b.e1e3) * c.e0e2e3e4 + (a.e1e2 * b.e1e4) * c.e0e2 - (a.e1e2 * b.e2e3) * c.e0e1e3e4 - (a.e1e2 * b.e2e4) * c.e0e1 + (a.e1e2 * b.e3e4) * c.e0e1e2e3 - (a.e1e2 * b.s) * c.e0e1e2e4 + (a.e1e2e3e4 * b.e0e1) * c.e2e3 + (a.e1e2e3e4 * b.e0e1e2e3) * c.s - (a.e1e2e3e4 * b.e0e1e2e4) * c.e3e4 + (a.e1e2e3e4 * b.e0e1e3e4) * c.e2e4 - (a.e1e2e3e4 * b.e0e2) * c.e1e3 - (a.e1e2e3e4 * b.e0e2e3e4) * c.e1e4 + (a.e1e2e3e4 * b.e0e3) * c.e1e2 - (a.e1e2e3e4 * b.e0e4) * c.e1e2e3e4 + (a.e1e2e3e4 * b.e1e2) * c.e0e3 + (a.e1e2e3e4 * b.e1e2e3e4) * c.e0e4 - (a.e1e2e3e4 * b.e1e3) * c.e0e2 + (a.e1e2e3e4 * b.e1e4) * c.e0e2e3e4 + (a.e1e2e3e4 * b.e2e3) * c.e0e1 - (a.e1e2e3e4 * b.e2e4) * c.e0e1e3e4 + (a.e1e2e3e4 * b.e3e4) * c.e0e1e2e4 + (a.e1e2e3e4 * b.s) * c.e0e1e2e3 - (a.e1e3 * b.e0e1) * c.e3e4 + (a.e1e3 * b.e0e1e2e3) * c.e2e4 - (a.e1e3 * b.e0e1e2e4) * c.e2e3 - (a.e1e3 * b.e0e1e3e4) * c.s + (a.e1e3 * b.e0e2) * c.e1e2e3e4 + (a.e1e3 * b.e0e2e3e4) * c.e1e2 + (a.e1e3 * b.e0e3) * c.e1e4 - (a.e1e3 * b.e0e4) * c.e1e3 - (a.e1e3 * b.e1e2) * c.e0e2e3e4 - (a.e1e3 * b.e1e2e3e4) * c.e0e2 - (a.e1e3 * b.e1e3) * c.e0e4 + (a.e1e3 * b.e1e4) * c.e0e3 + (a.e1e3 * b.e2e3) * c.e0e1e2e4 - (a.e1e3 * b.e2e4) * c.e0e1e2e3 - (a.e1e3 * b.e3e4) * c.e0e1 - (a.e1e3 * b.s) * c.e0e1e3e4 - (a.e1e4 * b.e0e1) * c.s + (a.e1e4 * b.e0e1e2e3) * c.e2e3 + (a.e1e4 * b.e0e1e2e4) * c.e2e4 + (a.e1e4 * b.e0e1e3e4) * c.e3e4 + (a.e1e4 * b.e0e2) * c.e1e2 - (a.e1e4 * b.e0e2e3e4) * c.e1e2e3e4 + (a.e1e4 * b.e0e3) * c.e1e3 + (a.e1e4 * b.e0e4) * c.e1e4 - (a.e1e4 * b.e1e2) * c.e0e2 + (a.e1e4 * b.e1e2e3e4) * c.e0e2e3e4 - (a.e1e4 * b.e1e3) * c.e0e3 - (a.e1e4 * b.e1e4) * c.e0e4 + (a.e1e4 * b.e2e3) * c.e0e1e2e3 + (a.e1e4 * b.e2e4) * c.e0e1e2e4 + (a.e1e4 * b.e3e4) * c.e0e1e3e4 - (a.e1e4 * b.s) * c.e0e1 - (a.e2e3 * b.e0e1) * c.e1e2e3e4 - (a.e2e3 * b.e0e1e2e3) * c.e1e4 + (a.e2e3 * b.e0e1e2e4) * c.e1e3 - (a.e2e3 * b.e0e1e3e4) * c.e1e2 - (a.e2e3 * b.e0e2) * c.e3e4 - (a.e2e3 * b.e0e2e3e4) * c.s + (a.e2e3 * b.e0e3) * c.e2e4 - (a.e2e3 * b.e0e4) * c.e2e3 + (a.e2e3 * b.e1e2) * c.e0e1e3e4 + (a.e2e3 * b.e1e2e3e4) * c.e0e1 - (a.e2e3 * b.e1e3) * c.e0e1e2e4 + (a.e2e3 * b.e1e4) * c.e0e1e2e3 - (a.e2e3 * b.e2e3) * c.e0e4 + (a.e2e3 * b.e2e4) * c.e0e3 - (a.e2e3 * b.e3e4) * c.e0e2 - (a.e2e3 * b.s) * c.e0e2e3e4 - (a.e2e4 * b.e0e1) * c.e1e2 - (a.e2e4 * b.e0e1e2e3) * c.e1e3 - (a.e2e4 * b.e0e1e2e4) * c.e1e4 + (a.e2e4 * b.e0e1e3e4) * c.e1e2e3e4 - (a.e2e4 * b.e0e2) * c.s + (a.e2e4 * b.e0e2e3e4) * c.e3e4 + (a.e2e4 * b.e0e3) * c.e2e3 + (a.e2e4 * b.e0e4) * c.e2e4 + (a.e2e4 * b.e1e2) * c.e0e1 - (a.e2e4 * b.e1e2e3e4) * c.e0e1e3e4 - (a.e2e4 * b.e1e3) * c.e0e1e2e3 - (a.e2e4 * b.e1e4) * c.e0e1e2e4 - (a.e2e4 * b.e2e3) * c.e0e3 - (a.e2e4 * b.e2e4) * c.e0e4 + (a.e2e4 * b.e3e4) * c.e0e2e3e4 - (a.e2e4 * b.s) * c.e0e2 - (a.e3e4 * b.e0e1) * c.e1e3 + (a.e3e4 * b.e0e1e2e3) * c.e1e2 - (a.e3e4 * b.e0e1e2e4) * c.e1e2e3e4 - (a.e3e4 * b.e0e1e3e4) * c.e1e4 - (a.e3e4 * b.e0e2) * c.e2e3 - (a.e3e4 * b.e0e2e3e4) * c.e2e4 - (a.e3e4 * b.e0e3) * c.s + (a.e3e4 * b.e0e4) * c.e3e4 + (a.e3e4 * b.e1e2) * c.e0e1e2e3 + (a.e3e4 * b.e1e2e3e4) * c.e0e1e2e4 + (a.e3e4 * b.e1e3) * c.e0e1 - (a.e3e4 * b.e1e4) * c.e0e1e3e4 + (a.e3e4 * b.e2e3) * c.e0e2 - (a.e3e4 * b.e2e4) * c.e0e2e3e4 - (a.e3e4 * b.e3e4) * c.e0e4 - (a.e3e4 * b.s) * c.e0e3 + (a.s * b.e0e1) * c.e1e4 - (a.s * b.e0e1e2e3) * c.e1e2e3e4 - (a.s * b.e0e1e2e4) * c.e1e2 - (a.s * b.e0e1e3e4) * c.e1e3 + (a.s * b.e0e2) * c.e2e4 - (a.s * b.e0e2e3e4) * c.e2e3 + (a.s * b.e0e3) * c.e3e4 + (a.s * b.e0e4) * c.s - (a.s * b.e1e2) * c.e0e1e2e4 + (a.s * b.e1e2e3e4) * c.e0e1e2e3 - (a.s * b.e1e3) * c.e0e1e3e4 - (a.s * b.e1e4) * c.e0e1 - (a.s * b.e2e3) * c.e0e2e3e4 - (a.s * b.e2e4) * c.e0e2 - (a.s * b.e3e4) * c.e0e3 + (a.s * b.s) * c.e0e4);
    assert(r.e0e4 == (a.e0e1 * b.e1e2) * c.e2e4 - (a.e0e1 * b.e1e2e3e4) * c.e2e3 + (a.e0e1 * b.e1e3) * c.e3e4 + (a.e0e1 * b.e1e4) * c.s - (a.e0e1 * b.e2e3) * c.e1e2e3e4 - (a.e0e1 * b.e2e4) * c.e1e2 - (a.e0e1 * b.e3e4) * c.e1e3 + (a.e0e1 * b.s) * c.e1e4 - (a.e0e1e2e3 * b.e1e2) * c.e3e4 - (a.e0e1e2e3 * b.e1e2e3e4) * c.s + (a.e0e1e2e3 * b.e1e3) * c.e2e4 - (a.e0e1e2e3 * b.e1e4) * c.e2e3 - (a.e0e1e2e3 * b.e2e3) * c.e1e4 + (a.e0e1e2e3 * b.e2e4) * c.e1e3 - (a.e0e1e2e3 * b.e3e4) * c.e1e2 - (a.e0e1e2e3 * b.s) * c.e1e2e3e4 - (a.e0e1e2e4 * b.e1e2) * c.s + (a.e0e1e2e4 * b.e1e2e3e4) * c.e3e4 + (a.e0e1e2e4 * b.e1e3) * c.e2e3 + (a.e0e1e2e4 * b.e1e4) * c.e2e4 - (a.e0e1e2e4 * b.e2e3) * c.e1e3 - (a.e0e1e2e4 * b.e2e4) * c.e1e4 + (a.e0e1e2e4 * b.e3e4) * c.e1e2e3e4 - (a.e0e1e2e4 * b.s) * c.e1e2 - (a.e0e1e3e4 * b.e1e2) * c.e2e3 - (a.e0e1e3e4 * b.e1e2e3e4) * c.e2e4 - (a.e0e1e3e4 * b.e1e3) * c.s + (a.e0e1e3e4 * b.e1e4) * c.e3e4 + (a.e0e1e3e4 * b.e2e3) * c.e1e2 - (a.e0e1e3e4 * b.e2e4) * c.e1e2e3e4 - (a.e0e1e3e4 * b.e3e4) * c.e1e4 - (a.e0e1e3e4 * b.s) * c.e1e3 - (a.e0e2 * b.e1e2) * c.e1e4 + (a.e0e2 * b.e1e2e3e4) * c.e1e3 + (a.e0e2 * b.e1e3) * c.e1e2e3e4 + (a.e0e2 * b.e1e4) * c.e1e2 + (a.e0e2 * b.e2e3) * c.e3e4 + (a.e0e2 * b.e2e4) * c.s - (a.e0e2 * b.e3e4) * c.e2e3 + (a.e0e2 * b.s) * c.e2e4 + (a.e0e2e3e4 * b.e1e2) * c.e1e3 + (a.e0e2e3e4 * b.e1e2e3e4) * c.e1e4 - (a.e0e2e3e4 * b.e1e3) * c.e1e2 + (a.e0e2e3e4 * b.e1e4) * c.e1e2e3e4 - (a.e0e2e3e4 * b.e2e3) * c.s + (a.e0e2e3e4 * b.e2e4) * c.e3e4 - (a.e0e2e3e4 * b.e3e4) * c.e2e4 - (a.e0e2e3e4 * b.s) * c.e2e3 - (a.e0e3 * b.e1e2) * c.e1e2e3e4 - (a.e0e3 * b.e1e2e3e4) * c.e1e2 - (a.e0e3 * b.e1e3) * c.e1e4 + (a.e0e3 * b.e1e4) * c.e1e3 - (a.e0e3 * b.e2e3) * c.e2e4 + (a.e0e3 * b.e2e4) * c.e2e3 + (a.e0e3 * b.e3e4) * c.s + (a.e0e3 * b.s) * c.e3e4 - (a.e0e4 * b.e1e2) * c.e1e2 + (a.e0e4 * b.e1e2e3e4) * c.e1e2e3e4 - (a.e0e4 * b.e1e3) * c.e1e3 - (a.e0e4 * b.e1e4) * c.e1e4 - (a.e0e4 * b.e2e3) * c.e2e3 - (a.e0e4 * b.e2e4) * c.e2e4 - (a.e0e4 * b.e3e4) * c.e3e4 + (a.e0e4 * b.s) * c.s - (a.e1e2 * b.e0e1) * c.e2e4 - (a.e1e2 * b.e0e1e2e3) * c.e3e4 - (a.e1e2 * b.e0e1e2e4) * c.s + (a.e1e2 * b.e0e1e3e4) * c.e2e3 + (a.e1e2 * b.e0e2) * c.e1e4 - (a.e1e2 * b.e0e2e3e4) * c.e1e3 - (a.e1e2 * b.e0e3) * c.e1e2e3e4 - (a.e1e2 * b.e0e4) * c.e1e2 - (a.e1e2 * b.e1e2) * c.e0e4 + (a.e1e2 * b.e1e2e3e4) * c.e0e3 + (a.e1e2 * b.e1e3) * c.e0e2e3e4 + (a.e1e2 * b.e1e4) * c.e0e2 - (a.e1e2 * b.e2e3) * c.e0e1e3e4 - (a.e1e2 * b.e2e4) * c.e0e1 + (a.e1e2 * b.e3e4) * c.e0e1e2e3 - (a.e1e2 * b.s) * c.e0e1e2e4 + (a.e1e2e3e4 * b.e0e1) * c.e2e3 + (a.e1e2e3e4 * b.e0e1e2e3) * c.s - (a.e1e2e3e4 * b.e0e1e2e4) * c.e3e4 + (a.e1e2e3e4 * b.e0e1e3e4) * c.e2e4 - (a.e1e2e3e4 * b.e0e2) * c.e1e3 - (a.e1e2e3e4 * b.e0e2e3e4) * c.e1e4 + (a.e1e2e3e4 * b.e0e3) * c.e1e2 - (a.e1e2e3e4 * b.e0e4) * c.e1e2e3e4 + (a.e1e2e3e4 * b.e1e2) * c.e0e3 + (a.e1e2e3e4 * b.e1e2e3e4) * c.e0e4 - (a.e1e2e3e4 * b.e1e3) * c.e0e2 + (a.e1e2e3e4 * b.e1e4) * c.e0e2e3e4 + (a.e1e2e3e4 * b.e2e3) * c.e0e1 - (a.e1e2e3e4 * b.e2e4) * c.e0e1e3e4 + (a.e1e2e3e4 * b.e3e4) * c.e0e1e2e4 + (a.e1e2e3e4 * b.s) * c.e0e1e2e3 - (a.e1e3 * b.e0e1) * c.e3e4 + (a.e1e3 * b.e0e1e2e3) * c.e2e4 - (a.e1e3 * b.e0e1e2e4) * c.e2e3 - (a.e1e3 * b.e0e1e3e4) * c.s + (a.e1e3 * b.e0e2) * c.e1e2e3e4 + (a.e1e3 * b.e0e2e3e4) * c.e1e2 + (a.e1e3 * b.e0e3) * c.e1e4 - (a.e1e3 * b.e0e4) * c.e1e3 - (a.e1e3 * b.e1e2) * c.e0e2e3e4 - (a.e1e3 * b.e1e2e3e4) * c.e0e2 - (a.e1e3 * b.e1e3) * c.e0e4 + (a.e1e3 * b.e1e4) * c.e0e3 + (a.e1e3 * b.e2e3) * c.e0e1e2e4 - (a.e1e3 * b.e2e4) * c.e0e1e2e3 - (a.e1e3 * b.e3e4) * c.e0e1 - (a.e1e3 * b.s) * c.e0e1e3e4 - (a.e1e4 * b.e0e1) * c.s + (a.e1e4 * b.e0e1e2e3) * c.e2e3 + (a.e1e4 * b.e0e1e2e4) * c.e2e4 + (a.e1e4 * b.e0e1e3e4) * c.e3e4 + (a.e1e4 * b.e0e2) * c.e1e2 - (a.e1e4 * b.e0e2e3e4) * c.e1e2e3e4 + (a.e1e4 * b.e0e3) * c.e1e3 + (a.e1e4 * b.e0e4) * c.e1e4 - (a.e1e4 * b.e1e2) * c.e0e2 + (a.e1e4 * b.e1e2e3e4) * c.e0e2e3e4 - (a.e1e4 * b.e1e3) * c.e0e3 - (a.e1e4 * b.e1e4) * c.e0e4 + (a.e1e4 * b.e2e3) * c.e0e1e2e3 + (a.e1e4 * b.e2e4) * c.e0e1e2e4 + (a.e1e4 * b.e3e4) * c.e0e1e3e4 - (a.e1e4 * b.s) * c.e0e1 - (a.e2e3 * b.e0e1) * c.e1e2e3e4 - (a.e2e3 * b.e0e1e2e3) * c.e1e4 + (a.e2e3 * b.e0e1e2e4) * c.e1e3 - (a.e2e3 * b.e0e1e3e4) * c.e1e2 - (a.e2e3 * b.e0e2) * c.e3e4 - (a.e2e3 * b.e0e2e3e4) * c.s + (a.e2e3 * b.e0e3) * c.e2e4 - (a.e2e3 * b.e0e4) * c.e2e3 + (a.e2e3 * b.e1e2) * c.e0e1e3e4 + (a.e2e3 * b.e1e2e3e4) * c.e0e1 - (a.e2e3 * b.e1e3) * c.e0e1e2e4 + (a.e2e3 * b.e1e4) * c.e0e1e2e3 - (a.e2e3 * b.e2e3) * c.e0e4 + (a.e2e3 * b.e2e4) * c.e0e3 - (a.e2e3 * b.e3e4) * c.e0e2 - (a.e2e3 * b.s) * c.e0e2e3e4 - (a.e2e4 * b.e0e1) * c.e1e2 - (a.e2e4 * b.e0e1e2e3) * c.e1e3 - (a.e2e4 * b.e0e1e2e4) * c.e1e4 + (a.e2e4 * b.e0e1e3e4) * c.e1e2e3e4 - (a.e2e4 * b.e0e2) * c.s + (a.e2e4 * b.e0e2e3e4) * c.e3e4 + (a.e2e4 * b.e0e3) * c.e2e3 + (a.e2e4 * b.e0e4) * c.e2e4 + (a.e2e4 * b.e1e2) * c.e0e1 - (a.e2e4 * b.e1e2e3e4) * c.e0e1e3e4 - (a.e2e4 * b.e1e3) * c.e0e1e2e3 - (a.e2e4 * b.e1e4) * c.e0e1e2e4 - (a.e2e4 * b.e2e3) * c.e0e3 - (a.e2e4 * b.e2e4) * c.e0e4 + (a.e2e4 * b.e3e4) * c.e0e2e3e4 - (a.e2e4 * b.s) * c.e0e2 - (a.e3e4 * b.e0e1) * c.e1e3 + (a.e3e4 * b.e0e1e2e3) * c.e1e2 - (a.e3e4 * b.e0e1e2e4) * c.e1e2e3e4 - (a.e3e4 * b.e0e1e3e4) * c.e1e4 - (a.e3e4 * b.e0e2) * c.e2e3 - (a.e3e4 * b.e0e2e3e4) * c.e2e4 - (a.e3e4 * b.e0e3) * c.s + (a.e3e4 * b.e0e4) * c.e3e4 + (a.e3e4 * b.e1e2) * c.e0e1e2e3 + (a.e3e4 * b.e1e2e3e4) * c.e0e1e2e4 + (a.e3e4 * b.e1e3) * c.e0e1 - (a.e3e4 * b.e1e4) * c.e0e1e3e4 + (a.e3e4 * b.e2e3) * c.e0e2 - (a.e3e4 * b.e2e4) * c.e0e2e3e4 - (a.e3e4 * b.e3e4) * c.e0e4 - (a.e3e4 * b.s) * c.e0e3 + (a.s * b.e0e1) * c.e1e4 - (a.s * b.e0e1e2e3) * c.e1e2e3e4 - (a.s * b.e0e1e2e4) * c.e1e2 - (a.s * b.e0e1e3e4) * c.e1e3 + (a.s * b.e0e2) * c.e2e4 - (a.s * b.e0e2e3e4) * c.e2e3 + (a.s * b.e0e3) * c.e3e4 + (a.s * b.e0e4) * c.s - (a.s * b.e1e2) * c.e0e1e2e4 + (a.s * b.e1e2e3e4) * c.e0e1e2e3 - (a.s * b.e1e3) * c.e0e1e3e4 - (a.s * b.e1e4) * c.e0e1 - (a.s * b.e2e3) * c.e0e2e3e4 - (a.s * b.e2e4) * c.e0e2 - (a.s * b.e3e4) * c.e0e3 + (a.s * b.s) * c.e0e4);
    assert(l.e1e2 == (a.e1e2 * b.s - a.e1e2e3e4 * b.e3e4 - a.e1e3 * b.e2e3 - a.e1e4 * b.e2e4 + a.e2e3 * b.e1e3 + a.e2e4 * b.e1e4 - a.e3e4 * b.e1e2e3e4 + a.s * b.e1e2) * c.s - (a.e1e2 * b.e3e4 + a.e1e2e3e4 * b.s - a.e1e3 * b.e2e4 + a.e1e4 * b.e2e3 + a.e2e3 * b.e1e4 - a.e2e4 * b.e1e3 + a.e3e4 * b.e1e2 + a.s * b.e1e2e3e4) * c.e3e4 - (a.e1e2 * b.e2e3 + a.e1e2e3e4 * b.e2e4 + a.e1e3 * b.s - a.e1e4 * b.e3e4 - a.e2e3 * b.e1e2 + a.e2e4 * b.e1e2e3e4 + a.e3e4 * b.e1e4 + a.s * b.e1e3) * c.e2e3 - (a.e1e2 * b.e2e4 - a.e1e2e3e4 * b.e2e3 + a.e1e3 * b.e3e4 + a.e1e4 * b.s - a.e2e3 * b.e1e2e3e4 - a.e2e4 * b.e1e2 - a.e3e4 * b.e1e3 + a.s * b.e1e4) * c.e2e4 + (-(a.e1e2 * b.e1e3) - a.e1e2e3e4 * b.e1e4 + a.e1e3 * b.e1e2 - a.e1e4 * b.e1e2e3e4 + a.e2e3 * b.s - a.e2e4 * b.e3e4 + a.e3e4 * b.e2e4 + a.s * b.e2e3) * c.e1e3 + (-(a.e1e2 * b.e1e4) + a.e1e2e3e4 * b.e1e3 + a.e1e3 * b.e1e2e3e4 + a.e1e4 * b.e1e2 + a.e2e3 * b.e3e4 + a.e2e4 * b.s - a.e3e4 * b.e2e3 + a.s * b.e2e4) * c.e1e4 - (-(a.e1e2 * b.e1e2e3e4) - a.e1e2e3e4 * b.e1e2 - a.e1e3 * b.e1e4 + a.e1e4 * b.e1e3 - a.e2e3 * b.e2e4 + a.e2e4 * b.e2e3 + a.e3e4 * b.s + a.s * b.e3e4) * c.e1e2e3e4 + (-(a.e1e2 * b.e1e2) + a.e1e2e3e4 * b.e1e2e3e4 - a.e1e3 * b.e1e3 - a.e1e4 * b.e1e4 - a.e2e3 * b.e2e3 - a.e2e4 * b.e2e4 - a.e3e4 * b.e3e4 + a.s * b.s) * c.e1e2);
    assert(r.e1e2 == a.e1e2 * (-(b.e1e2 * c.e1e2) + b.e1e2e3e4 * c.e1e2e3e4 - b.e1e3 * c.e1e3 - b.e1e4 * c.e1e4 - b.e2e3 * c.e2e3 - b.e2e4 * c.e2e4 - b.e3e4 * c.e3e4 + b.s * c.s) - a.e1e2e3e4 * (-(b.e1e2 * c.e1e2e3e4) - b.e1e2e3e4 * c.e1e2 - b.e1e3 * c.e1e4 + b.e1e4 * c.e1e3 - b.e2e3 * c.e2e4 + b.e2e4 * c.e2e3 + b.e3e4 * c.s + b.s * c.e3e4) - a.e1e3 * (-(b.e1e2 * c.e1e3) - b.e1e2e3e4 * c.e1e4 + b.e1e3 * c.e1e2 - b.e1e4 * c.e1e2e3e4 + b.e2e3 * c.s - b.e2e4 * c.e3e4 + b.e3e4 * c.e2e4 + b.s * c.e2e3) - a.e1e4 * (-(b.e1e2 * c.e1e4) + b.e1e2e3e4 * c.e1e3 + b.e1e3 * c.e1e2e3e4 + b.e1e4 * c.e1e2 + b.e2e3 * c.e3e4 + b.e2e4 * c.s - b.e3e4 * c.e2e3 + b.s * c.e2e4) + a.e2e3 * (b.e1e2 * c.e2e3 + b.e1e2e3e4 * c.e2e4 + b.e1e3 * c.s - b.e1e4 * c.e3e4 - b.e2e3 * c.e1e2 + b.e2e4 * c.e1e2e3e4 + b.e3e4 * c.e1e4 + b.s * c.e1e3) + a.e2e4 * (b.e1e2 * c.e2e4 - b.e1e2e3e4 * c.e2e3 + b.e1e3 * c.e3e4 + b.e1e4 * c.s - b.e2e3 * c.e1e2e3e4 - b.e2e4 * c.e1e2 - b.e3e4 * c.e1e3 + b.s * c.e1e4) - a.e3e4 * (b.e1e2 * c.e3e4 + b.e1e2e3e4 * c.s - b.e1e3 * c.e2e4 + b.e1e4 * c.e2e3 + b.e2e3 * c.e1e4 - b.e2e4 * c.e1e3 + b.e3e4 * c.e1e2 + b.s * c.e1e2e3e4) + a.s * (b.e1e2 * c.s - b.e1e2e3e4 * c.e3e4 - b.e1e3 * c.e2e3 - b.e1e4 * c.e2e4 + b.e2e3 * c.e1e3 + b.e2e4 * c.e1e4 - b.e3e4 * c.e1e2e3e4 + b.s * c.e1e2));
    scale_right_transform_e1e2(a, b, c.s);
    scale_right_transform_e1e2e3e4(a, b, c.e3e4);
    scale_right_transform_e1e3(a, b, c.e2e3);
    scale_right_transform_e1e4(a, b, c.e2e4);
    scale_right_transform_e2e3(a, b, c.e1e3);
    scale_right_transform_e2e4(a, b, c.e1e4);
    scale_right_transform_e3e4(a, b, c.e1e2e3e4);
    scale_right_transform_s(a, b, c.e1e2);
    scale_left_transform_s(b, c, a.e1e2);
    scale_left_transform_e3e4(b, c, a.e1e2e3e4);
    scale_left_transform_e2e3(b, c, a.e1e3);
    scale_left_transform_e2e4(b, c, a.e1e4);
    scale_left_transform_e1e3(b, c, a.e2e3);
    scale_left_transform_e1e4(b, c, a.e2e4);
    scale_left_transform_e1e2e3e4(b, c, a.e3e4);
    scale_left_transform_e1e2(b, c, a.s);
    assert(l.e1e2 == -((a.e1e2 * b.e1e2) * c.e1e2) + (a.e1e2 * b.e1e2e3e4) * c.e1e2e3e4 - (a.e1e2 * b.e1e3) * c.e1e3 - (a.e1e2 * b.e1e4) * c.e1e4 - (a.e1e2 * b.e2e3) * c.e2e3 - (a.e1e2 * b.e2e4) * c.e2e4 - (a.e1e2 * b.e3e4) * c.e3e4 + (a.e1e2 * b.s) * c.s + (a.e1e2e3e4 * b.e1e2) * c.e1e2e3e4 + (a.e1e2e3e4 * b.e1e2e3e4) * c.e1e2 + (a.e1e2e3e4 * b.e1e3) * c.e1e4 - (a.e1e2e3e4 * b.e1e4) * c.e1e3 + (a.e1e2e3e4 * b.e2e3) * c.e2e4 - (a.e1e2e3e4 * b.e2e4) * c.e2e3 - (a.e1e2e3e4 * b.e3e4) * c.s - (a.e1e2e3e4 * b.s) * c.e3e4 + (a.e1e3 * b.e1e2) * c.e1e3 + (a.e1e3 * b.e1e2e3e4) * c.e1e4 - (a.e1e3 * b.e1e3) * c.e1e2 + (a.e1e3 * b.e1e4) * c.e1e2e3e4 - (a.e1e3 * b.e2e3) * c.s + (a.e1e3 * b.e2e4) * c.e3e4 - (a.e1e3 * b.e3e4) * c.e2e4 - (a.e1e3 * b.s) * c.e2e3 + (a.e1e4 * b.e1e2) * c.e1e4 - (a.e1e4 * b.e1e2e3e4) * c.e1e3 - (a.e1e4 * b.e1e3) * c.e1e2e3e4 - (a.e1e4 * b.e1e4) * c.e1e2 - (a.e1e4 * b.e2e3) * c.e3e4 - (a.e1e4 * b.e2e4) * c.s + (a.e1e4 * b.e3e4) * c.e2e3 - (a.e1e4 * b.s) * c.e2e4 + (a.e2e3 * b.e1e2) * c.e2e3 + (a.e2e3 * b.e1e2e3e4) * c.e2e4 + (a.e2e3 * b.e1e3) * c.s - (a.e2e3 * b.e1e4) * c.e3e4 - (a.e2e3 * b.e2e3) * c.e1e2 + (a.e2e3 * b.e2e4) * c.e1e2e3e4 + (a.e2e3 * b.e3e4) * c.e1e4 + (a.e2e3 * b.s) * c.e1e3 + (a.e2e4 * b.e1e2) * c.e2e4 - (a.e2e4 * b.e1e2e3e4) * c.e2e3 + (a.e2e4 * b.e1e3) * c.e3e4 + (a.e2e4 * b.e1e4) * c.s - (a.e2e4 * b.e2e3) * c.e1e2e3e4 - (a.e2e4 * b.e2e4) * c.e1e2 - (a.e2e4 * b.e3e4) * c.e1e3 + (a.e2e4 * b.s) * c.e1e4 - (a.e3e4 * b.e1e2) * c.e3e4 - (a.e3e4 * b.e1e2e3e4) * c.s + (a.e3e4 * b.e1e3) * c.e2e4 - (a.e3e4 * b.e1e4) * c.e2e3 - (a.e3e4 * b.e2e3) * c.e1e4 + (a.e3e4 * b.e2e4) * c.e1e3 - (a.e3e4 * b.e3e4) * c.e1e2 - (a.e3e4 * b.s) * c.e1e2e3e4 + (a.s * b.e1e2) * c.s - (a.s * b.e1e2e3e4) * c.e3e4 - (a.s * b.e1e3) * c.e2e3 - (a.s * b.e1e4) * c.e2e4 + (a.s * b.e2e3) * c.e1e3 + (a.s * b.e2e4) * c.e1e4 - (a.s * b.e3e4) * c.e1e2e3e4 + (a.s * b.s) * c.e1e2);
    assert(r.e1e2 == -((a.e1e2 * b.e1e2) * c.e1e2) + (a.e1e2 * b.e1e2e3e4) * c.e1e2e3e4 - (a.e1e2 * b.e1e3) * c.e1e3 - (a.e1e2 * b.e1e4) * c.e1e4 - (a.e1e2 * b.e2e3) * c.e2e3 - (a.e1e2 * b.e2e4) * c.e2e4 - (a.e1e2 * b.e3e4) * c.e3e4 + (a.e1e2 * b.s) * c.s + (a.e1e2e3e4 * b.e1e2) * c.e1e2e3e4 + (a.e1e2e3e4 * b.e1e2e3e4) * c.e1e2 + (a.e1e2e3e4 * b.e1e3) * c.e1e4 - (a.e1e2e3e4 * b.e1e4) * c.e1e3 + (a.e1e2e3e4 * b.e2e3) * c.e2e4 - (a.e1e2e3e4 * b.e2e4) * c.e2e3 - (a.e1e2e3e4 * b.e3e4) * c.s - (a.e1e2e3e4 * b.s) * c.e3e4 + (a.e1e3 * b.e1e2) * c.e1e3 + (a.e1e3 * b.e1e2e3e4) * c.e1e4 - (a.e1e3 * b.e1e3) * c.e1e2 + (a.e1e3 * b.e1e4) * c.e1e2e3e4 - (a.e1e3 * b.e2e3) * c.s + (a.e1e3 * b.e2e4) * c.e3e4 - (a.e1e3 * b.e3e4) * c.e2e4 - (a.e1e3 * b.s) * c.e2e3 + (a.e1e4 * b.e1e2) * c.e1e4 - (a.e1e4 * b.e1e2e3e4) * c.e1e3 - (a.e1e4 * b.e1e3) * c.e1e2e3e4 - (a.e1e4 * b.e1e4) * c.e1e2 - (a.e1e4 * b.e2e3) * c.e3e4 - (a.e1e4 * b.e2e4) * c.s + (a.e1e4 * b.e3e4) * c.e2e3 - (a.e1e4 * b.s) * c.e2e4 + (a.e2e3 * b.e1e2) * c.e2e3 + (a.e2e3 * b.e1e2e3e4) * c.e2e4 + (a.e2e3 * b.e1e3) * c.s - (a.e2e3 * b.e1e4) * c.e3e4 - (a.e2e3 * b.e2e3) * c.e1e2 + (a.e2e3 * b.e2e4) * c.e1e2e3e4 + (a.e2e3 * b.e3e4) * c.e1e4 + (a.e2e3 * b.s) * c.e1e3 + (a.e2e4 * b.e1e2) * c.e2e4 - (a.e2e4 * b.e1e2e3e4) * c.e2e3 + (a.e2e4 * b.e1e3) * c.e3e4 + (a.e2e4 * b.e1e4) * c.s - (a.e2e4 * b.e2e3) * c.e1e2e3e4 - (a.e2e4 * b.e2e4) * c.e1e2 - (a.e2e4 * b.e3e4) * c.e1e3 + (a.e2e4 * b.s) * c.e1e4 - (a.e3e4 * b.e1e2) * c.e3e4 - (a.e3e4 * b.e1e2e3e4) * c.s + (a.e3e4 * b.e1e3) * c.e2e4 - (a.e3e4 * b.e1e4) * c.e2e3 - (a.e3e4 * b.e2e3) * c.e1e4 + (a.e3e4 * b.e2e4) * c.e1e3 - (a.e3e4 * b.e3e4) * c.e1e2 - (a.e3e4 * b.s) * c.e1e2e3e4 + (a.s * b.e1e2) * c.s - (a.s * b.e1e2e3e4) * c.e3e4 - (a.s * b.e1e3) * c.e2e3 - (a.s * b.e1e4) * c.e2e4 + (a.s * b.e2e3) * c.e1e3 + (a.s * b.e2e4) * c.e1e4 - (a.s * b.e3e4) * c.e1e2e3e4 + (a.s * b.s) * c.e1e2);
    assert(l.e1e3 == (a.e1e2 * b.s - a.e1e2e3e4 * b.e3e4 - a.e1e3 * b.e2e3 - a.e1e4 * b.e2e4 + a.e2e3 * b.e1e3 + a.e2e4 * b.e1e4 - a.e3e4 * b.e1e2e3e4 + a.s * b.e1e2) * c.e2e3 + (a.e1e2 * b.e3e4 + a.e1e2e3e4 * b.s - a.e1e3 * b.e2e4 + a.e1e4 * b.e2e3 + a.e2e3 * b.e1e4 - a.e2e4 * b.e1e3 + a.e3e4 * b.e1e2 + a.s * b.e1e2e3e4) * c.e2e4 + (a.e1e2 * b.e2e3 + a.e1e2e3e4 * b.e2e4 + a.e1e3 * b.s - a.e1e4 * b.e3e4 - a.e2e3 * b.e1e2 + a.e2e4 * b.e1e2e3e4 + a.e3e4 * b.e1e4 + a.s * b.e1e3) * c.s - (a.e1e2 * b.e2e4 - a.e1e2e3e4 * b.e2e3 + a.e1e3 * b.e3e4 + a.e1e4 * b.s - a.e2e3 * b.e1e2e3e4 - a.e2e4 * b.e1e2 - a.e3e4 * b.e1e3 + a.s * b.e1e4) * c.e3e4 - (-(a.e1e2 * b.e1e3) - a.e1e2e3e4 * b.e1e4 + a.e1e3 * b.e1e2 - a.e1e4 * b.e1e2e3e4 + a.e2e3 * b.s - a.e2e4 * b.e3e4 + a.e3e4 * b.e2e4 + a.s * b.e2e3) * c.e1e2 + (-(a.e1e2 * b.e1e4) + a.e1e2e3e4 * b.e1e3 + a.e1e3 * b.e1e2e3e4 + a.e1e4 * b.e1e2 + a.e2e3 * b.e3e4 + a.e2e4 * b.s - a.e3e4 * b.e2e3 + a.s * b.e2e4) * c.e1e2e3e4 + (-(a.e1e2 * b.e1e2e3e4) - a.e1e2e3e4 * b.e1e2 - a.e1e3 * b.e1e4 + a.e1e4 * b.e1e3 - a.e2e3 * b.e2e4 + a.e2e4 * b.e2e3 + a.e3e4 * b.s + a.s * b.e3e4) * c.e1e4 + (-(a.e1e2 * b.e1e2) + a.e1e2e3e4 * b.e1e2e3e4 - a.e1e3 * b.e1e3 - a.e1e4 * b.e1e4 - a.e2e3 * b.e2e3 - a.e2e4 * b.e2e4 - a.e3e4 * b.e3e4 + a.s * b.s) * c.e1e3);
    assert(r.e1e3 == a.e1e2 * (-(b.e1e2 * c.e1e3) - b.e1e2e3e4 * c.e1e4 + b.e1e3 * c.e1e2 - b.e1e4 * c.e1e2e3e4 + b.e2e3 * c.s - b.e2e4 * c.e3e4 + b.e3e4 * c.e2e4 + b.s * c.e2e3) + a.e1e2e3e4 * (-(b.e1e2 * c.e1e4) + b.e1e2e3e4 * c.e1e3 + b.e1e3 * c.e1e2e3e4 + b.e1e4 * c.e1e2 + b.e2e3 * c.e3e4 + b.e2e4 * c.s - b.e3e4 * c.e2e3 + b.s * c.e2e4) + a.e1e3 * (-(b.e1e2 * c.e1e2) + b.e1e2e3e4 * c.e1e2e3e4 - b.e1e3 * c.e1e3 - b.e1e4 * c.e1e4 - b.e2e3 * c.e2e3 - b.e2e4 * c.e2e4 - b.e3e4 * c.e3e4 + b.s * c.s) - a.e1e4 * (-(b.e1e2 * c.e1e2e3e4) - b.e1e2e3e4 * c.e1e2 - b.e1e3 * c.e1e4 + b.e1e4 * c.e1e3 - b.e2e3 * c.e2e4 + b.e2e4 * c.e2e3 + b.e3e4 * c.s + b.s * c.e3e4) - a.e2e3 * (b.e1e2 * c.s - b.e1e2e3e4 * c.e3e4 - b.e1e3 * c.e2e3 - b.e1e4 * c.e2e4 + b.e2e3 * c.e1e3 + b.e2e4 * c.e1e4 - b.e3e4 * c.e1e2e3e4 + b.s * c.e1e2) + a.e2e4 * (b.e1e2 * c.e3e4 + b.e1e2e3e4 * c.s - b.e1e3 * c.e2e4 + b.e1e4 * c.e2e3 + b.e2e3 * c.e1e4 - b.e2e4 * c.e1e3 + b.e3e4 * c.e1e2 + b.s * c.e1e2e3e4) + a.e3e4 * (b.e1e2 * c.e2e4 - b.e1e2e3e4 * c.e2e3 + b.e1e3 * c.e3e4 + b.e1e4 * c.s - b.e2e3 * c.e1e2e3e4 - b.e2e4 * c.e1e2 - b.e3e4 * c.e1e3 + b.s * c.e1e4) + a.s * (b.e1e2 * c.e2e3 + b.e1e2e3e4 * c.e2e4 + b.e1e3 * c.s - b.e1e4 * c.e3e4 - b.e2e3 * c.e1e2 + b.e2e4 * c.e1e2e3e4 + b.e3e4 * c.e1e4 + b.s * c.e1e3));
    scale_right_transform_e1e2(a, b, c.e2e3);
    scale_right_transform_e1e2e3e4(a, b, c.e2e4);
    scale_right_transform_e1e3(a, b, c.s);
    scale_right_transform_e1e4(a, b, c.e3e4);
    scale_right_transform_e2e3(a, b, c.e1e2);
    scale_right_transform_e2e4(a, b, c.e1e2e3e4);
    scale_right_transform_e3e4(a, b, c.e1e4);
    scale_right_transform_s(a, b, c.e1e3);
    scale_left_transform_e2e3(b, c, a.e1e2);
    scale_left_transform_e2e4(b, c, a.e1e2e3e4);
    scale_left_transform_s(b, c, a.e1e3);
    scale_left_transform_e3e4(b, c, a.e1e4);
    scale_left_transform_e1e2(b, c, a.e2e3);
    scale_left_transform_e1e2e3e4(b, c, a.e2e4);
    scale_left_transform_e1e4(b, c, a.e3e4);
    scale_left_transform_e1e3(b, c, a.s);
    assert(l.e1e3 == -((a.e1e2 * b.e1e2) * c.e1e3) - (a.e1e2 * b.e1e2e3e4) * c.e1e4 + (a.e1e2 * b.e1e3) * c.e1e2 - (a.e1e2 * b.e1e4) * c.e1e2e3e4 + (a.e1e2 * b.e2e3) * c.s - (a.e1e2 * b.e2e4) * c.e3e4 + (a.e1e2 * b.e3e4) * c.e2e4 + (a.e1e2 * b.s) * c.e2e3 - (a.e1e2e3e4 * b.e1e2) * c.e1e4 + (a.e1e2e3e4 * b.e1e2e3e4) * c.e1e3 + (a.e1e2e3e4 * b.e1e3) * c.e1e2e3e4 + (a.e1e2e3e4 * b.e1e4) * c.e1e2 + (a.e1e2e3e4 * b.e2e3) * c.e3e4 + (a.e1e2e3e4 * b.e2e4) * c.s - (a.e1e2e3e4 * b.e3e4) * c.e2e3 + (a.e1e2e3e4 * b.s) * c.e2e4 - (a.e1e3 * b.e1e2) * c.e1e2 + (a.e1e3 * b.e1e2e3e4) * c.e1e2e3e4 - (a.e1e3 * b.e1e3) * c.e1e3 - (a.e1e3 * b.e1e4) * c.e1e4 - (a.e1e3 * b.e2e3) * c.e2e3 - (a.e1e3 * b.e2e4) * c.e2e4 - (a.e1e3 * b.e3e4) * c.e3e4 + (a.e1e3 * b.s) * c.s + (a.e1e4 * b.e1e2) * c.e1e2e3e4 + (a.e1e4 * b.e1e2e3e4) * c.e1e2 + (a.e1e4 * b.e1e3) * c.e1e4 - (a.e1e4 * b.e1e4) * c.e1e3 + (a.e1e4 * b.e2e3) * c.e2e4 - (a.e1e4 * b.e2e4) * c.e2e3 - (a.e1e4 * b.e3e4) * c.s - (a.e1e4 * b.s) * c.e3e4 - (a.e2e3 * b.e1e2) * c.s + (a.e2e3 * b.e1e2e3e4) * c.e3e4 + (a.e2e3 * b.e1e3) * c.e2e3 + (a.e2e3 * b.e1e4) * c.e2e4 - (a.e2e3 * b.e2e3) * c.e1e3 - (a.e2e3 * b.e2e4) * c.e1e4 + (a.e2e3 * b.e3e4) * c.e1e2e3e4 - (a.e2e3 * b.s) * c.e1e2 + (a.e2e4 * b.e1e2) * c.e3e4 + (a.e2e4 * b.e1e2e3e4) * c.s - (a.e2e4 * b.e1e3) * c.e2e4 + (a.e2e4 * b.e1e4) * c.e2e3 + (a.e2e4 * b.e2e3) * c.e1e4 - (a.e2e4 * b.e2e4) * c.e1e3 + (a.e2e4 * b.e3e4) * c.e1e2 + (a.e2e4 * b.s) * c.e1e2e3e4 + (a.e3e4 * b.e1e2) * c.e2e4 - (a.e3e4 * b.e1e2e3e4) * c.e2e3 + (a.e3e4 * b.e1e3) * c.e3e4 + (a.e3e4 * b.e1e4) * c.s - (a.e3e4 * b.e2e3) * c.e1e2e3e4 - (a.e3e4 * b.e2e4) * c.e1e2 - (a.e3e4 * b.e3e4) * c.e1e3 + (a.e3e4 * b.s) * c.e1e4 + (a.s * b.e1e2) * c.e2e3 + (a.s * b.e1e2e3e4) * c.e2e4 + (a.s * b.e1e3) * c.s - (a.s * b.e1e4) * c.e3e4 - (a.s * b.e2e3) * c.e1e2 + (a.s * b.e2e4) * c.e1e2e3e4 + (a.s * b.e3e4) * c.e1e4 + (a.s * b.s) * c.e1e3);
    assert(r.e1e3 == -((a.e1e2 * b.e1e2) * c.e1e3) - (a.e1e2 * b.e1e2e3e4) * c.e1e4 + (a.e1e2 * b.e1e3) * c.e1e2 - (a.e1e2 * b.e1e4) * c.e1e2e3e4 + (a.e1e2 * b.e2e3) * c.s - (a.e1e2 * b.e2e4) * c.e3e4 + (a.e1e2 * b.e3e4) * c.e2e4 + (a.e1e2 * b.s) * c.e2e3 - (a.e1e2e3e4 * b.e1e2) * c.e1e4 + (a.e1e2e3e4 * b.e1e2e3e4) * c.e1e3 + (a.e1e2e3e4 * b.e1e3) * c.e1e2e3e4 + (a.e1e2e3e4 * b.e1e4) * c.e1e2 + (a.e1e2e3e4 * b.e2e3) * c.e3e4 + (a.e1e2e3e4 * b.e2e4) * c.s - (a.e1e2e3e4 * b.e3e4) * c.e2e3 + (a.e1e2e3e4 * b.s) * c.e2e4 - (a.e1e3 * b.e1e2) * c.e1e2 + (a.e1e3 * b.e1e2e3e4) * c.e1e2e3e4 - (a.e1e3 * b.e1e3) * c.e1e3 - (a.e1e3 * b.e1e4) * c.e1e4 - (a.e1e3 * b.e2e3) * c.e2e3 - (a.e1e3 * b.e2e4) * c.e2e4 - (a.e1e3 * b.e3e4) * c.e3e4 + (a.e1e3 * b.s) * c.s + (a.e1e4 * b.e1e2) * c.e1e2e3e4 + (a.e1e4 * b.e1e2e3e4) * c.e1e2 + (a.e1e4 * b.e1e3) * c.e1e4 - (a.e1e4 * b.e1e4) * c.e1e3 + (a.e1e4 * b.e2e3) * c.e2e4 - (a.e1e4 * b.e2e4) * c.e2e3 - (a.e1e4 * b.e3e4) * c.s - (a.e1e4 * b.s) * c.e3e4 - (a.e2e3 * b.e1e2) * c.s + (a.e2e3 * b.e1e2e3e4) * c.e3e4 + (a.e2e3 * b.e1e3) * c.e2e3 + (a.e2e3 * b.e1e4) * c.e2e4 - (a.e2e3 * b.e2e3) * c.e1e3 - (a.e2e3 * b.e2e4) * c.e1e4 + (a.e2e3 * b.e3e4) * c.e1e2e3e4 - (a.e2e3 * b.s) * c.e1e2 + (a.e2e4 * b.e1e2) * c.e3e4 + (a.e2e4 * b.e1e2e3e4) * c.s - (a.e2e4 * b.e1e3) * c.e2e4 + (a.e2e4 * b.e1e4) * c.e2e3 + (a.e2e4 * b.e2e3) * c.e1e4 - (a.e2e4 * b.e2e4) * c.e1e3 + (a.e2e4 * b.e3e4) * c.e1e2 + (a.e2e4 * b.s) * c.e1e2e3e4 + (a.e3e4 * b.e1e2) * c.e2e4 - (a.e3e4 * b.e1e2e3e4) * c.e2e3 + (a.e3e4 * b.e1e3) * c.e3e4 + (a.e3e4 * b.e1e4) * c.s - (a.e3e4 * b.e2e3) * c.e1e2e3e4 - (a.e3e4 * b.e2e4) * c.e1e2 - (a.e3e4 * b.e3e4) * c.e1e3 + (a.e3e4 * b.s) * c.e1e4 + (a.s * b.e1e2) * c.e2e3 + (a.s * b.e1e2e3e4) * c.e2e4 + (a.s * b.e1e3) * c.s - (a.s * b.e1e4) * c.e3e4 - (a.s * b.e2e3) * c.e1e2 + (a.s * b.e2e4) * c.e1e2e3e4 + (a.s * b.e3e4) * c.e1e4 + (a.s * b.s) * c.e1e3);
    assert(l.e1e4 == (a.e1e2 * b.s - a.e1e2e3e4 * b.e3e4 - a.e1e3 * b.e2e3 - a.e1e4 * b.e2e4 + a.e2e3 * b.e1e3 + a.e2e4 * b.e1e4 - a.e3e4 * b.e1e2e3e4 + a.s * b.e1e2) * c.e2e4 - (a.e1e2 * b.e3e4 + a.e1e2e3e4 * b.s - a.e1e3 * b.e2e4 + a.e1e4 * b.e2e3 + a.e2e3 * b.e1e4 - a.e2e4 * b.e1e3 + a.e3e4 * b.e1e2 + a.s * b.e1e2e3e4) * c.e2e3 + (a.e1e2 * b.e2e3 + a.e1e2e3e4 * b.e2e4 + a.e1e3 * b.s - a.e1e4 * b.e3e4 - a.e2e3 * b.e1e2 + a.e2e4 * b.e1e2e3e4 + a.e3e4 * b.e1e4 + a.s * b.e1e3) * c.e3e4 + (a.e1e2 * b.e2e4 - a.e1e2e3e4 * b.e2e3 + a.e1e3 * b.e3e4 + a.e1e4 * b.s - a.e2e3 * b.e1e2e3e4 - a.e2e4 * b.e1e2 - a.e3e4 * b.e1e3 + a.s * b.e1e4) * c.s - (-(a.e1e2 * b.e1e3) - a.e1e2e3e4 * b.e1e4 + a.e1e3 * b.e1e2 - a.e1e4 * b.e1e2e3e4 + a.e2e3 * b.s - a.e2e4 * b.e3e4 + a.e3e4 * b.e2e4 + a.s * b.e2e3) * c.e1e2e3e4 - (-(a.e1e2 * b.e1e4) + a.e1e2e3e4 * b.e1e3 + a.e1e3 * b.e1e2e3e4 + a.e1e4 * b.e1e2 + a.e2e3 * b.e3e4 + a.e2e4 * b.s - a.e3e4 * b.e2e3 + a.s * b.e2e4) * c.e1e2 - (-(a.e1e2 * b.e1e2e3e4) - a.e1e2e3e4 * b.e1e2 - a.e1e3 * b.e1e4 + a.e1e4 * b.e1e3 - a.e2e3 * b.e2e4 + a.e2e4 * b.e2e3 + a.e3e4 * b.s + a.s * b.e3e4) * c.e1e3 + (-(a.e1e2 * b.e1e2) + a.e1e2e3e4 * b.e1e2e3e4 - a.e1e3 * b.e1e3 - a.e1e4 * b.e1e4 - a.e2e3 * b.e2e3 - a.e2e4 * b.e2e4 - a.e3e4 * b.e3e4 + a.s * b.s) * c.e1e4);
    assert(r.e1e4 == a.e1e2 * (-(b.e1e2 * c.e1e4) + b.e1e2e3e4 * c.e1e3 + b.e1e3 * c.e1e2e3e4 + b.e1e4 * c.e1e2 + b.e2e3 * c.e3e4 + b.e2e4 * c.s - b.e3e4 * c.e2e3 + b.s * c.e2e4) - a.e1e2e3e4 * (-(b.e1e2 * c.e1e3) - b.e1e2e3e4 * c.e1e4 + b.e1e3 * c.e1e2 - b.e1e4 * c.e1e2e3e4 + b.e2e3 * c.s - b.e2e4 * c.e3e4 + b.e3e4 * c.e2e4 + b.s * c.e2e3) + a.e1e3 * (-(b.e1e2 * c.e1e2e3e4) - b.e1e2e3e4 * c.e1e2 - b.e1e3 * c.e1e4 + b.e1e4 * c.e1e3 - b.e2e3 * c.e2e4 + b.e2e4 * c.e2e3 + b.e3e4 * c.s + b.s * c.e3e4) + a.e1e4 * (-(b.e1e2 * c.e1e2) + b.e1e2e3e4 * c.e1e2e3e4 - b.e1e3 * c.e1e3 - b.e1e4 * c.e1e4 - b.e2e3 * c.e2e3 - b.e2e4 * c.e2e4 - b.e3e4 * c.e3e4 + b.s * c.s) - a.e2e3 * (b.e1e2 * c.e3e4 + b.e1e2e3e4 * c.s - b.e1e3 * c.e2e4 + b.e1e4 * c.e2e3 + b.e2e3 * c.e1e4 - b.e2e4 * c.e1e3 + b.e3e4 * c.e1e2 + b.s * c.e1e2e3e4) - a.e2e4 * (b.e1e2 * c.s - b.e1e2e3e4 * c.e3e4 - b.e1e3 * c.e2e3 - b.e1e4 * c.e2e4 + b.e2e3 * c.e1e3 + b.e2e4 * c.e1e4 - b.e3e4 * c.e1e2e3e4 + b.s * c.e1e2) - a.e3e4 * (b.e1e2 * c.e2e3 + b.e1e2e3e4 * c.e2e4 + b.e1e3 * c.s - b.e1e4 * c.e3e4 - b.e2e3 * c.e1e2 + b.e2e4 * c.e1e2e3e4 + b.e3e4 * c.e1e4 + b.s * c.e1e3) + a.s * (b.e1e2 * c.e2e4 - b.e1e2e3e4 * c.e2e3 + b.e1e3 * c.e3e4 + b.e1e4 * c.s - b.e2e3 * c.e1e2e3e4 - b.e2e4 * c.e1e2 - b.e3e4 * c.e1e3 + b.s * c.e1e4));
    scale_right_transform_e1e2(a, b, c.e2e4);
    scale_right_transform_e1e2e3e4(a, b, c.e2e3);
    scale_right_transform_e1e3(a, b, c.e3e4);
    scale_right_transform_e1e4(a, b, c.s);
    scale_right_transform_e2e3(a, b, c.e1e2e3e4);
    scale_right_transform_e2e4(a, b, c.e1e2);
    scale_right_transform_e3e4(a, b, c.e1e3);
    scale_right_transform_s(a, b, c.e1e4);
    scale_left_transform_e2e4(b, c, a.e1e2);
    scale_left_transform_e2e3(b, c, a.e1e2e3e4);
    scale_left_transform_e3e4(b, c, a.e1e3);
    scale_left_transform_s(b, c, a.e1e4);
    scale_left_transform_e1e2e3e4(b, c, a.e2e3);
    scale_left_transform_e1e2(b, c, a.e2e4);
    scale_left_transform_e1e3(b, c, a.e3e4);
    scale_left_transform_e1e4(b, c, a.s);
    assert(l.e1e4 == -((a.e1e2 * b.e1e2) * c.e1e4) + (a.e1e2 * b.e1e2e3e4) * c.e1e3 + (a.e1e2 * b.e1e3) * c.e1e2e3e4 + (a.e1e2 * b.e1e4) * c.e1e2 + (a.e1e2 * b.e2e3) * c.e3e4 + (a.e1e2 * b.e2e4) * c.s - (a.e1e2 * b.e3e4) * c.e2e3 + (a.e1e2 * b.s) * c.e2e4 + (a.e1e2e3e4 * b.e1e2) * c.e1e3 + (a.e1e2e3e4 * b.e1e2e3e4) * c.e1e4 - (a.e1e2e3e4 * b.e1e3) * c.e1e2 + (a.e1e2e3e4 * b.e1e4) * c.e1e2e3e4 - (a.e1e2e3e4 * b.e2e3) * c.s + (a.e1e2e3e4 * b.e2e4) * c.e3e4 - (a.e1e2e3e4 * b.e3e4) * c.e2e4 - (a.e1e2e3e4 * b.s) * c.e2e3 - (a.e1e3 * b.e1e2) * c.e1e2e3e4 - (a.e1e3 * b.e1e2e3e4) * c.e1e2 - (a.e1e3 * b.e1e3) * c.e1e4 + (a.e1e3 * b.e1e4) * c.e1e3 - (a.e1e3 * b.e2e3) * c.e2e4 + (a.e1e3 * b.e2e4) * c.e2e3 + (a.e1e3 * b.e3e4) * c.s + (a.e1e3 * b.s) * c.e3e4 - (a.e1e4 * b.e1e2) * c.e1e2 + (a.e1e4 * b.e1e2e3e4) * c.e1e2e3e4 - (a.e1e4 * b.e1e3) * c.e1e3 - (a.e1e4 * b.e1e4) * c.e1e4 - (a.e1e4 * b.e2e3) * c.e2e3 - (a.e1e4 * b.e2e4) * c.e2e4 - (a.e1e4 * b.e3e4) * c.e3e4 + (a.e1e4 * b.s) * c.s - (a.e2e3 * b.e1e2) * c.e3e4 - (a.e2e3 * b.e1e2e3e4) * c.s + (a.e2e3 * b.e1e3) * c.e2e4 - (a.e2e3 * b.e1e4) * c.e2e3 - (a.e2e3 * b.e2e3) * c.e1e4 + (a.e2e3 * b.e2e4) * c.e1e3 - (a.e2e3 * b.e3e4) * c.e1e2 - (a.e2e3 * b.s) * c.e1e2e3e4 - (a.e2e4 * b.e1e2) * c.s + (a.e2e4 * b.e1e2e3e4) * c.e3e4 + (a.e2e4 * b.e1e3) * c.e2e3 + (a.e2e4 * b.e1e4) * c.e2e4 - (a.e2e4 * b.e2e3) * c.e1e3 - (a.e2e4 * b.e2e4) * c.e1e4 + (a.e2e4 * b.e3e4) * c.e1e2e3e4 - (a.e2e4 * b.s) * c.e1e2 - (a.e3e4 * b.e1e2) * c.e2e3 - (a.e3e4 * b.e1e2e3e4) * c.e2e4 - (a.e3e4 * b.e1e3) * c.s + (a.e3e4 * b.e1e4) * c.e3e4 + (a.e3e4 * b.e2e3) * c.e1e2 - (a.e3e4 * b.e2e4) * c.e1e2e3e4 - (a.e3e4 * b.e3e4) * c.e1e4 - (a.e3e4 * b.s) * c.e1e3 + (a.s * b.e1e2) * c.e2e4 - (a.s * b.e1e2e3e4) * c.e2e3 + (a.s * b.e1e3) * c.e3e4 + (a.s * b.e1e4) * c.s - (a.s * b.e2e3) * c.e1e2e3e4 - (a.s * b.e2e4) * c.e1e2 - (a.s * b.e3e4) * c.e1e3 + (a.s * b.s) * c.e1e4);
    assert(r.e1e4 == -((a.e1e2 * b.e1e2) * c.e1e4) + (a.e1e2 * b.e1e2e3e4) * c.e1e3 + (a.e1e2 * b.e1e3) * c.e1e2e3e4 + (a.e1e2 * b.e1e4) * c.e1e2 + (a.e1e2 * b.e2e3) * c.e3e4 + (a.e1e2 * b.e2e4) * c.s - (a.e1e2 * b.e3e4) * c.e2e3 + (a.e1e2 * b.s) * c.e2e4 + (a.e1e2e3e4 * b.e1e2) * c.e1e3 + (a.e1e2e3e4 * b.e1e2e3e4) * c.e1e4 - (a.e1e2e3e4 * b.e1e3) * c.e1e2 + (a.e1e2e3e4 * b.e1e4) * c.e1e2e3e4 - (a.e1e2e3e4 * b.e2e3) * c.s + (a.e1e2e3e4 * b.e2e4) * c.e3e4 - (a.e1e2e3e4 * b.e3e4) * c.e2e4 - (a.e1e2e3e4 * b.s) * c.e2e3 - (a.e1e3 * b.e1e2) * c.e1e2e3e4 - (a.e1e3 * b.e1e2e3e4) * c.e1e2 - (a.e1e3 * b.e1e3) * c.e1e4 + (a.e1e3 * b.e1e4) * c.e1e3 - (a.e1e3 * b.e2e3) * c.e2e4 + (a.e1e3 * b.e2e4) * c.e2e3 + (a.e1e3 * b.e3e4) * c.s + (a.e1e3 * b.s) * c.e3e4 - (a.e1e4 * b.e1e2) * c.e1e2 + (a.e1e4 * b.e1e2e3e4) * c.e1e2e3e4 - (a.e1e4 * b.e1e3) * c.e1e3 - (a.e1e4 * b.e1e4) * c.e1e4 - (a.e1e4 * b.e2e3) * c.e2e3 - (a.e1e4 * b.e2e4) * c.e2e4 - (a.e1e4 * b.e3e4) * c.e3e4 + (a.e1e4 * b.s) * c.s - (a.e2e3 * b.e1e2) * c.e3e4 - (a.e2e3 * b.e1e2e3e4) * c.s + (a.e2e3 * b.e1e3) * c.e2e4 - (a.e2e3 * b.e1e4) * c.e2e3 - (a.e2e3 * b.e2e3) * c.e1e4 + (a.e2e3 * b.e2e4) * c.e1e3 - (a.e2e3 * b.e3e4) * c.e1e2 - (a.e2e3 * b.s) * c.e1e2e3e4 - (a.e2e4 * b.e1e2) * c.s + (a.e2e4 * b.e1e2e3e4) * c.e3e4 + (a.e2e4 * b.e1e3) * c.e2e3 + (a.e2e4 * b.e1e4) * c.e2e4 - (a.e2e4 * b.e2e3) * c.e1e3 - (a.e2e4 * b.e2e4) * c.e1e4 + (a.e2e4 * b.e3e4) * c.e1e2e3e4 - (a.e2e4 * b.s) * c.e1e2 - (a.e3e4 * b.e1e2) * c.e2e3 - (a.e3e4 * b.e1e2e3e4) * c.e2e4 - (a.e3e4 * b.e1e3) * c.s + (a.e3e4 * b.e1e4) * c.e3e4 + (a.e3e4 * b.e2e3) * c.e1e2 - (a.e3e4 * b.e2e4) * c.e1e2e3e4 - (a.e3e4 * b.e3e4) * c.e1e4 - (a.e3e4 * b.s) * c.e1e3 + (a.s * b.e1e2) * c.e2e4 - (a.s * b.e1e2e3e4) * c.e2e3 + (a.s * b.e1e3) * c.e3e4 + (a.s * b.e1e4) * c.s - (a.s * b.e2e3) * c.e1e2e3e4 - (a.s * b.e2e4) * c.e1e2 - (a.s * b.e3e4) * c.e1e3 + (a.s * b.s) * c.e1e4);
    assert(l.e2e3 == -((a.e1e2 * b.s - a.e1e2e3e4 * b.e3e4 - a.e1e3 * b.e2e3 - a.e1e4 * b.e2e4 + a.e2e3 * b.e1e3 + a.e2e4 * b.e1e4 - a.e3e4 * b.e1e2e3e4 + a.s * b.e1e2) * c.e1e3) - (a.e1e2 * b.e3e4 + a.e1e2e3e4 * b.s - a.e1e3 * b.e2e4 + a.e1e4 * b.e2e3 + a.e2e3 * b.e1e4 - a.e2e4 * b.e1e3 + a.e3e4 * b.e1e2 + a.s * b.e1e2e3e4) * c.e1e4 + (a.e1e2 * b.e2e3 + a.e1e2e3e4 * b.e2e4 + a.e1e3 * b.s - a.e1e4 * b.e3e4 - a.e2e3 * b.e1e2 + a.e2e4 * b.e1e2e3e4 + a.e3e4 * b.e1e4 + a.s * b.e1e3) * c.e1e2 - (a.e1e2 * b.e2e4 - a.e1e2e3e4 * b.e2e3 + a.e1e3 * b.e3e4 + a.e1e4 * b.s - a.e2e3 * b.e1e2e3e4 - a.e2e4 * b.e1e2 - a.e3e4 * b.e1e3 + a.s * b.e1e4) * c.e1e2e3e4 + (-(a.e1e2 * b.e1e3) - a.e1e2e3e4 * b.e1e4 + a.e1e3 * b.e1e2 - a.e1e4 * b.e1e2e3e4 + a.e2e3 * b.s - a.e2e4 * b.e3e4 + a.e3e4 * b.e2e4 + a.s * b.e2e3) * c.s - (-(a.e1e2 * b.e1e4) + a.e1e2e3e4 * b.e1e3 + a.e1e3 * b.e1e2e3e4 + a.e1e4 * b.e1e2 + a.e2e3 * b.e3e4 + a.e2e4 * b.s - a.e3e4 * b.e2e3 + a.s * b.e2e4) * c.e3e4 + (-(a.e1e2 * b.e1e2e3e4) - a.e1e2e3e4 * b.e1e2 - a.e1e3 * b.e1e4 + a.e1e4 * b.e1e3 - a.e2e3 * b.e2e4 + a.e2e4 * b.e2e3 + a.e3e4 * b.s + a.s * b.e3e4) * c.e2e4 + (-(a.e1e2 * b.e1e2) + a.e1e2e3e4 * b.e1e2e3e4 - a.e1e3 * b.e1e3 - a.e1e4 * b.e1e4 - a.e2e3 * b.e2e3 - a.e2e4 * b.e2e4 - a.e3e4 * b.e3e4 + a.s * b.s) * c.e2e3);
    assert(r.e2e3 == -(a.e1e2 * (b.e1e2 * c.e2e3 + b.e1e2e3e4 * c.e2e4 + b.e1e3 * c.s - b.e1e4 * c.e3e4 - b.e2e3 * c.e1e2 + b.e2e4 * c.e1e2e3e4 + b.e3e4 * c.e1e4 + b.s * c.e1e3)) - a.e1e2e3e4 * (b.e1e2 * c.e2e4 - b.e1e2e3e4 * c.e2e3 + b.e1e3 * c.e3e4 + b.e1e4 * c.s - b.e2e3 * c.e1e2e3e4 - b.e2e4 * c.e1e2 - b.e3e4 * c.e1e3 + b.s * c.e1e4) + a.e1e3 * (b.e1e2 * c.s - b.e1e2e3e4 * c.e3e4 - b.e1e3 * c.e2e3 - b.e1e4 * c.e2e4 + b.e2e3 * c.e1e3 + b.e2e4 * c.e1e4 - b.e3e4 * c.e1e2e3e4 + b.s * c.e1e2) - a.e1e4 * (b.e1e2 * c.e3e4 + b.e1e2e3e4 * c.s - b.e1e3 * c.e2e4 + b.e1e4 * c.e2e3 + b.e2e3 * c.e1e4 - b.e2e4 * c.e1e3 + b.e3e4 * c.e1e2 + b.s * c.e1e2e3e4) + a.e2e3 * (-(b.e1e2 * c.e1e2) + b.e1e2e3e4 * c.e1e2e3e4 - b.e1e3 * c.e1e3 - b.e1e4 * c.e1e4 - b.e2e3 * c.e2e3 - b.e2e4 * c.e2e4 - b.e3e4 * c.e3e4 + b.s * c.s) - a.e2e4 * (-(b.e1e2 * c.e1e2e3e4) - b.e1e2e3e4 * c.e1e2 - b.e1e3 * c.e1e4 + b.e1e4 * c.e1e3 - b.e2e3 * c.e2e4 + b.e2e4 * c.e2e3 + b.e3e4 * c.s + b.s * c.e3e4) + a.e3e4 * (-(b.e1e2 * c.e1e4) + b.e1e2e3e4 * c.e1e3 + b.e1e3 * c.e1e2e3e4 + b.e1e4 * c.e1e2 + b.e2e3 * c.e3e4 + b.e2e4 * c.s - b.e3e4 * c.e2e3 + b.s * c.e2e4) + a.s * (-(b.e1e2 * c.e1e3) - b.e1e2e3e4 * c.e1e4 + b.e1e3 * c.e1e2 - b.e1e4 * c.e1e2e3e4 + b.e2e3 * c.s - b.e2e4 * c.e3e4 + b.e3e4 * c.e2e4 + b.s * c.e2e3));
    scale_right_transform_e1e2(a, b, c.e1e3);
    scale_right_transform_e1e2e3e4(a, b, c.e1e4);
    scale_right_transform_e1e3(a, b, c.e1e2);
    scale_right_transform_e1e4(a, b, c.e1e2e3e4);
    scale_right_transform_e2e3(a, b, c.s);
    scale_right_transform_e2e4(a, b, c.e3e4);
    scale_right_transform_e3e4(a, b, c.e2e4);
    scale_right_transform_s(a, b, c.e2e3);
    scale_left_transform_e1e3(b, c, a.e1e2);
    scale_left_transform_e1e4(b, c, a.e1e2e3e4);
    scale_left_transform_e1e2(b, c, a.e1e3);
    scale_left_transform_e1e2e3e4(b, c, a.e1e4);
    scale_left_transform_s(b, c, a.e2e3);
    scale_left_transform_e3e4(b, c, a.e2e4);
    scale_left_transform_e2e4(b, c, a.e3e4);
    scale_left_transform_e2e3(b, c, a.s);
    assert(l.e2e3 == -((a.e1e2 * b.e1e2) * c.e2e3) - (a.e1e2 * b.e1e2e3e4) * c.e2e4 - (a.e1e2 * b.e1e3) * c.s + (a.e1e2 * b.e1e4) * c.e3e4 + (a.e1e2 * b.e2e3) * c.e1e2 - (a.e1e2 * b.e2e4) * c.e1e2e3e4 - (a.e1e2 * b.e3e4) * c.e1e4 - (a.e1e2 * b.s) * c.e1e3 - (a.e1e2e3e4 * b.e1e2) * c.e2e4 + (a.e1e2e3e4 * b.e1e2e3e4) * c.e2e3 - (a.e1e2e3e4 * b.e1e3) * c.e3e4 - (a.e1e2e3e4 * b.e1e4) * c.s + (a.e1e2e3e4 * b.e2e3) * c.e1e2e3e4 + (a.e1e2e3e4 * b.e2e4) * c.e1e2 + (a.e1e2e3e4 * b.e3e4) * c.e1e3 - (a.e1e2e3e4 * b.s) * c.e1e4 + (a.e1e3 * b.e1e2) * c.s - (a.e1e3 * b.e1e2e3e4) * c.e3e4 - (a.e1e3 * b.e1e3) * c.e2e3 - (a.e1e3 * b.e1e4) * c.e2e4 + (a.e1e3 * b.e2e3) * c.e1e3 + (a.e1e3 * b.e2e4) * c.e1e4 - (a.e1e3 * b.e3e4) * c.e1e2e3e4 + (a.e1e3 * b.s) * c.e1e2 - (a.e1e4 * b.e1e2) * c.e3e4 - (a.e1e4 * b.e1e2e3e4) * c.s + (a.e1e4 * b.e1e3) * c.e2e4 - (a.e1e4 * b.e1e4) * c.e2e3 - (a.e1e4 * b.e2e3) * c.e1e4 + (a.e1e4 * b.e2e4) * c.e1e3 - (a.e1e4 * b.e3e4) * c.e1e2 - (a.e1e4 * b.s) * c.e1e2e3e4 - (a.e2e3 * b.e1e2) * c.e1e2 + (a.e2e3 * b.e1e2e3e4) * c.e1e2e3e4 - (a.e2e3 * b.e1e3) * c.e1e3 - (a.e2e3 * b.e1e4) * c.e1e4 - (a.e2e3 * b.e2e3) * c.e2e3 - (a.e2e3 * b.e2e4) * c.e2e4 - (a.e2e3 * b.e3e4) * c.e3e4 + (a.e2e3 * b.s) * c.s + (a.e2e4 * b.e1e2) * c.e1e2e3e4 + (a.e2e4 * b.e1e2e3e4) * c.e1e2 + (a.e2e4 * b.e1e3) * c.e1e4 - (a.e2e4 * b.e1e4) * c.e1e3 + (a.e2e4 * b.e2e3) * c.e2e4 - (a.e2e4 * b.e2e4) * c.e2e3 - (a.e2e4 * b.e3e4) * c.s - (a.e2e4 * b.s) * c.e3e4 - (a.e3e4 * b.e1e2) * c.e1e4 + (a.e3e4 * b.e1e2e3e4) * c.e1e3 + (a.e3e4 * b.e1e3) * c.e1e2e3e4 + (a.e3e4 * b.e1e4) * c.e1e2 + (a.e3e4 * b.e2e3) * c.e3e4 + (a.e3e4 * b.e2e4) * c.s - (a.e3e4 * b.e3e4) * c.e2e3 + (a.e3e4 * b.s) * c.e2e4 - (a.s * b.e1e2) * c.e1e3 - (a.s * b.e1e2e3e4) * c.e1e4 + (a.s * b.e1e3) * c.e1e2 - (a.s * b.e1e4) * c.e1e2e3e4 + (a.s * b.e2e3) * c.s - (a.s * b.e2e4) * c.e3e4 + (a.s * b.e3e4) * c.e2e4 + (a.s * b.s) * c.e2e3);
    assert(r.e2e3 == -((a.e1e2 * b.e1e2) * c.e2e3) - (a.e1e2 * b.e1e2e3e4) * c.e2e4 - (a.e1e2 * b.e1e3) * c.s + (a.e1e2 * b.e1e4) * c.e3e4 + (a.e1e2 * b.e2e3) * c.e1e2 - (a.e1e2 * b.e2e4) * c.e1e2e3e4 - (a.e1e2 * b.e3e4) * c.e1e4 - (a.e1e2 * b.s) * c.e1e3 - (a.e1e2e3e4 * b.e1e2) * c.e2e4 + (a.e1e2e3e4 * b.e1e2e3e4) * c.e2e3 - (a.e1e2e3e4 * b.e1e3) * c.e3e4 - (a.e1e2e3e4 * b.e1e4) * c.s + (a.e1e2e3e4 * b.e2e3) * c.e1e2e3e4 + (a.e1e2e3e4 * b.e2e4) * c.e1e2 + (a.e1e2e3e4 * b.e3e4) * c.e1e3 - (a.e1e2e3e4 * b.s) * c.e1e4 + (a.e1e3 * b.e1e2) * c.s - (a.e1e3 * b.e1e2e3e4) * c.e3e4 - (a.e1e3 * b.e1e3) * c.e2e3 - (a.e1e3 * b.e1e4) * c.e2e4 + (a.e1e3 * b.e2e3) * c.e1e3 + (a.e1e3 * b.e2e4) * c.e1e4 - (a.e1e3 * b.e3e4) * c.e1e2e3e4 + (a.e1e3 * b.s) * c.e1e2 - (a.e1e4 * b.e1e2) * c.e3e4 - (a.e1e4 * b.e1e2e3e4) * c.s + (a.e1e4 * b.e1e3) * c.e2e4 - (a.e1e4 * b.e1e4) * c.e2e3 - (a.e1e4 * b.e2e3) * c.e1e4 + (a.e1e4 * b.e2e4) * c.e1e3 - (a.e1e4 * b.e3e4) * c.e1e2 - (a.e1e4 * b.s) * c.e1e2e3e4 - (a.e2e3 * b.e1e2) * c.e1e2 + (a.e2e3 * b.e1e2e3e4) * c.e1e2e3e4 - (a.e2e3 * b.e1e3) * c.e1e3 - (a.e2e3 * b.e1e4) * c.e1e4 - (a.e2e3 * b.e2e3) * c.e2e3 - (a.e2e3 * b.e2e4) * c.e2e4 - (a.e2e3 * b.e3e4) * c.e3e4 + (a.e2e3 * b.s) * c.s + (a.e2e4 * b.e1e2) * c.e1e2e3e4 + (a.e2e4 * b.e1e2e3e4) * c.e1e2 + (a.e2e4 * b.e1e3) * c.e1e4 - (a.e2e4 * b.e1e4) * c.e1e3 + (a.e2e4 * b.e2e3) * c.e2e4 - (a.e2e4 * b.e2e4) * c.e2e3 - (a.e2e4 * b.e3e4) * c.s - (a.e2e4 * b.s) * c.e3e4 - (a.e3e4 * b.e1e2) * c.e1e4 + (a.e3e4 * b.e1e2e3e4) * c.e1e3 + (a.e3e4 * b.e1e3) * c.e1e2e3e4 + (a.e3e4 * b.e1e4) * c.e1e2 + (a.e3e4 * b.e2e3) * c.e3e4 + (a.e3e4 * b.e2e4) * c.s - (a.e3e4 * b.e3e4) * c.e2e3 + (a.e3e4 * b.s) * c.e2e4 - (a.s * b.e1e2) * c.e1e3 - (a.s * b.e1e2e3e4) * c.e1e4 + (a.s * b.e1e3) * c.e1e2 - (a.s * b.e1e4) * c.e1e2e3e4 + (a.s * b.e2e3) * c.s - (a.s * b.e2e4) * c.e3e4 + (a.s * b.e3e4) * c.e2e4 + (a.s * b.s) * c.e2e3);
    assert(l.e2e4 == -((a.e1e2 * b.s - a.e1e2e3e4 * b.e3e4 - a.e1e3 * b.e2e3 - a.e1e4 * b.e2e4 + a.e2e3 * b.e1e3 + a.e2e4 * b.e1e4 - a.e3e4 * b.e1e2e3e4 + a.s * b.e1e2) * c.e1e4) + (a.e1e2 * b.e3e4 + a.e1e2e3e4 * b.s - a.e1e3 * b.e2e4 + a.e1e4 * b.e2e3 + a.e2e3 * b.e1e4 - a.e2e4 * b.e1e3 + a.e3e4 * b.e1e2 + a.s * b.e1e2e3e4) * c.e1e3 + (a.e1e2 * b.e2e3 + a.e1e2e3e4 * b.e2e4 + a.e1e3 * b.s - a.e1e4 * b.e3e4 - a.e2e3 * b.e1e2 + a.e2e4 * b.e1e2e3e4 + a.e3e4 * b.e1e4 + a.s * b.e1e3) * c.e1e2e3e4 + (a.e1e2 * b.e2e4 - a.e1e2e3e4 * b.e2e3 + a.e1e3 * b.e3e4 + a.e1e4 * b.s - a.e2e3 * b.e1e2e3e4 - a.e2e4 * b.e1e2 - a.e3e4 * b.e1e3 + a.s * b.e1e4) * c.e1e2 + (-(a.e1e2 * b.e1e3) - a.e1e2e3e4 * b.e1e4 + a.e1e3 * b.e1e2 - a.e1e4 * b.e1e2e3e4 + a.e2e3 * b.s - a.e2e4 * b.e3e4 + a.e3e4 * b.e2e4 + a.s * b.e2e3) * c.e3e4 + (-(a.e1e2 * b.e1e4) + a.e1e2e3e4 * b.e1e3 + a.e1e3 * b.e1e2e3e4 + a.e1e4 * b.e1e2 + a.e2e3 * b.e3e4 + a.e2e4 * b.s - a.e3e4 * b.e2e3 + a.s * b.e2e4) * c.s - (-(a.e1e2 * b.e1e2e3e4) - a.e1e2e3e4 * b.e1e2 - a.e1e3 * b.e1e4 + a.e1e4 * b.e1e3 - a.e2e3 * b.e2e4 + a.e2e4 * b.e2e3 + a.e3e4 * b.s + a.s * b.e3e4) * c.e2e3 + (-(a.e1e2 * b.e1e2) + a.e1e2e3e4 * b.e1e2e3e4 - a.e1e3 * b.e1e3 - a.e1e4 * b.e1e4 - a.e2e3 * b.e2e3 - a.e2e4 * b.e2e4 - a.e3e4 * b.e3e4 + a.s * b.s) * c.e2e4);
    assert(r.e2e4 == -(a.e1e2 * (b.e1e2 * c.e2e4 - b.e1e2e3e4 * c.e2e3 + b.e1e3 * c.e3e4 + b.e1e4 * c.s - b.e2e3 * c.e1e2e3e4 - b.e2e4 * c.e1e2 - b.e3e4 * c.e1e3 + b.s * c.e1e4)) + a.e1e2e3e4 * (b.e1e2 * c.e2e3 + b.e1e2e3e4 * c.e2e4 + b.e1e3 * c.s - b.e1e4 * c.e3e4 - b.e2e3 * c.e1e2 + b.e2e4 * c.e1e2e3e4 + b.e3e4 * c.e1e4 + b.s * c.e1e3) + a.e1e3 * (b.e1e2 * c.e3e4 + b.e1e2e3e4 * c.s - b.e1e3 * c.e2e4 + b.e1e4 * c.e2e3 + b.e2e3 * c.e1e4 - b.e2e4 * c.e1e3 + b.e3e4 * c.e1e2 + b.s * c.e1e2e3e4) + a.e1e4 * (b.e1e2 * c.s - b.e1e2e3e4 * c.e3e4 - b.e1e3 * c.e2e3 - b.e1e4 * c.e2e4 + b.e2e3 * c.e1e3 + b.e2e4 * c.e1e4 - b.e3e4 * c.e1e2e3e4 + b.s * c.e1e2) + a.e2e3 * (-(b.e1e2 * c.e1e2e3e4) - b.e1e2e3e4 * c.e1e2 - b.e1e3 * c.e1e4 + b.e1e4 * c.e1e3 - b.e2e3 * c.e2e4 + b.e2e4 * c.e2e3 + b.e3e4 * c.s + b.s * c.e3e4) + a.e2e4 * (-(b.e1e2 * c.e1e2) + b.e1e2e3e4 * c.e1e2e3e4 - b.e1e3 * c.e1e3 - b.e1e4 * c.e1e4 - b.e2e3 * c.e2e3 - b.e2e4 * c.e2e4 - b.e3e4 * c.e3e4 + b.s * c.s) - a.e3e4 * (-(b.e1e2 * c.e1e3) - b.e1e2e3e4 * c.e1e4 + b.e1e3 * c.e1e2 - b.e1e4 * c.e1e2e3e4 + b.e2e3 * c.s - b.e2e4 * c.e3e4 + b.e3e4 * c.e2e4 + b.s * c.e2e3) + a.s * (-(b.e1e2 * c.e1e4) + b.e1e2e3e4 * c.e1e3 + b.e1e3 * c.e1e2e3e4 + b.e1e4 * c.e1e2 + b.e2e3 * c.e3e4 + b.e2e4 * c.s - b.e3e4 * c.e2e3 + b.s * c.e2e4));
    scale_right_transform_e1e2(a, b, c.e1e4);
    scale_right_transform_e1e2e3e4(a, b, c.e1e3);
    scale_right_transform_e1e3(a, b, c.e1e2e3e4);
    scale_right_transform_e1e4(a, b, c.e1e2);
    scale_right_transform_e2e3(a, b, c.e3e4);
    scale_right_transform_e2e4(a, b, c.s);
    scale_right_transform_e3e4(a, b, c.e2e3);
    scale_right_transform_s(a, b, c.e2e4);
    scale_left_transform_e1e4(b, c, a.e1e2);
    scale_left_transform_e1e3(b, c, a.e1e2e3e4);
    scale_left_transform_e1e2e3e4(b, c, a.e1e3);
    scale_left_transform_e1e2(b, c, a.e1e4);
    scale_left_transform_e3e4(b, c, a.e2e3);
    scale_left_transform_s(b, c, a.e2e4);
    scale_left_transform_e2e3(b, c, a.e3e4);
    scale_left_transform_e2e4(b, c, a.s);
    assert(l.e2e4 == -((a.e1e2 * b.e1e2) * c.e2e4) + (a.e1e2 * b.e1e2e3e4) * c.e2e3 - (a.e1e2 * b.e1e3) * c.e3e4 - (a.e1e2 * b.e1e4) * c.s + (a.e1e2 * b.e2e3) * c.e1e2e3e4 + (a.e1e2 * b.e2e4) * c.e1e2 + (a.e1e2 * b.e3e4) * c.e1e3 - (a.e1e2 * b.s) * c.e1e4 + (a.e1e2e3e4 * b.e1e2) * c.e2e3 + (a.e1e2e3e4 * b.e1e2e3e4) * c.e2e4 + (a.e1e2e3e4 * b.e1e3) * c.s - (a.e1e2e3e4 * b.e1e4) * c.e3e4 - (a.e1e2e3e4 * b.e2e3) * c.e1e2 + (a.e1e2e3e4 * b.e2e4) * c.e1e2e3e4 + (a.e1e2e3e4 * b.e3e4) * c.e1e4 + (a.e1e2e3e4 * b.s) * c.e1e3 + (a.e1e3 * b.e1e2) * c.e3e4 + (a.e1e3 * b.e1e2e3e4) * c.s - (a.e1e3 * b.e1e3) * c.e2e4 + (a.e1e3 * b.e1e4) * c.e2e3 + (a.e1e3 * b.e2e3) * c.e1e4 - (a.e1e3 * b.e2e4) * c.e1e3 + (a.e1e3 * b.e3e4) * c.e1e2 + (a.e1e3 * b.s) * c.e1e2e3e4 + (a.e1e4 * b.e1e2) * c.s - (a.e1e4 * b.e1e2e3e4) * c.e3e4 - (a.e1e4 * b.e1e3) * c.e2e3 - (a.e1e4 * b.e1e4) * c.e2e4 + (a.e1e4 * b.e2e3) * c.e1e3 + (a.e1e4 * b.e2e4) * c.e1e4 - (a.e1e4 * b.e3e4) * c.e1e2e3e4 + (a.e1e4 * b.s) * c.e1e2 - (a.e2e3 * b.e1e2) * c.e1e2e3e4 - (a.e2e3 * b.e1e2e3e4) * c.e1e2 - (a.e2e3 * b.e1e3) * c.e1e4 + (a.e2e3 * b.e1e4) * c.e1e3 - (a.e2e3 * b.e2e3) * c.e2e4 + (a.e2e3 * b.e2e4) * c.e2e3 + (a.e2e3 * b.e3e4) * c.s + (a.e2e3 * b.s) * c.e3e4 - (a.e2e4 * b.e1e2) * c.e1e2 + (a.e2e4 * b.e1e2e3e4) * c.e1e2e3e4 - (a.e2e4 * b.e1e3) * c.e1e3 - (a.e2e4 * b.e1e4) * c.e1e4 - (a.e2e4 * b.e2e3) * c.e2e3 - (a.e2e4 * b.e2e4) * c.e2e4 - (a.e2e4 * b.e3e4) * c.e3e4 + (a.e2e4 * b.s) * c.s + (a.e3e4 * b.e1e2) * c.e1e3 + (a.e3e4 * b.e1e2e3e4) * c.e1e4 - (a.e3e4 * b.e1e3) * c.e1e2 + (a.e3e4 * b.e1e4) * c.e1e2e3e4 - (a.e3e4 * b.e2e3) * c.s + (a.e3e4 * b.e2e4) * c.e3e4 - (a.e3e4 * b.e3e4) * c.e2e4 - (a.e3e4 * b.s) * c.e2e3 - (a.s * b.e1e2) * c.e1e4 + (a.s * b.e1e2e3e4) * c.e1e3 + (a.s * b.e1e3) * c.e1e2e3e4 + (a.s * b.e1e4) * c.e1e2 + (a.s * b.e2e3) * c.e3e4 + (a.s * b.e2e4) * c.s - (a.s * b.e3e4) * c.e2e3 + (a.s * b.s) * c.e2e4);
    assert(r.e2e4 == -((a.e1e2 * b.e1e2) * c.e2e4) + (a.e1e2 * b.e1e2e3e4) * c.e2e3 - (a.e1e2 * b.e1e3) * c.e3e4 - (a.e1e2 * b.e1e4) * c.s + (a.e1e2 * b.e2e3) * c.e1e2e3e4 + (a.e1e2 * b.e2e4) * c.e1e2 + (a.e1e2 * b.e3e4) * c.e1e3 - (a.e1e2 * b.s) * c.e1e4 + (a.e1e2e3e4 * b.e1e2) * c.e2e3 + (a.e1e2e3e4 * b.e1e2e3e4) * c.e2e4 + (a.e1e2e3e4 * b.e1e3) * c.s - (a.e1e2e3e4 * b.e1e4) * c.e3e4 - (a.e1e2e3e4 * b.e2e3) * c.e1e2 + (a.e1e2e3e4 * b.e2e4) * c.e1e2e3e4 + (a.e1e2e3e4 * b.e3e4) * c.e1e4 + (a.e1e2e3e4 * b.s) * c.e1e3 + (a.e1e3 * b.e1e2) * c.e3e4 + (a.e1e3 * b.e1e2e3e4) * c.s - (a.e1e3 * b.e1e3) * c.e2e4 + (a.e1e3 * b.e1e4) * c.e2e3 + (a.e1e3 * b.e2e3) * c.e1e4 - (a.e1e3 * b.e2e4) * c.e1e3 + (a.e1e3 * b.e3e4) * c.e1e2 + (a.e1e3 * b.s) * c.e1e2e3e4 + (a.e1e4 * b.e1e2) * c.s - (a.e1e4 * b.e1e2e3e4) * c.e3e4 - (a.e1e4 * b.e1e3) * c.e2e3 - (a.e1e4 * b.e1e4) * c.e2e4 + (a.e1e4 * b.e2e3) * c.e1e3 + (a.e1e4 * b.e2e4) * c.e1e4 - (a.e1e4 * b.e3e4) * c.e1e2e3e4 + (a.e1e4 * b.s) * c.e1e2 - (a.e2e3 * b.e1e2) * c.e1e2e3e4 - (a.e2e3 * b.e1e2e3e4) * c.e1e2 - (a.e2e3 * b.e1e3) * c.e1e4 + (a.e2e3 * b.e1e4) * c.e1e3 - (a.e2e3 * b.e2e3) * c.e2e4 + (a.e2e3 * b.e2e4) * c.e2e3 + (a.e2e3 * b.e3e4) * c.s + (a.e2e3 * b.s) * c.e3e4 - (a.e2e4 * b.e1e2) * c.e1e2 + (a.e2e4 * b.e1e2e3e4) * c.e1e2e3e4 - (a.e2e4 * b.e1e3) * c.e1e3 - (a.e2e4 * b.e1e4) * c.e1e4 - (a.e2e4 * b.e2e3) * c.e2e3 - (a.e2e4 * b.e2e4) * c.e2e4 - (a.e2e4 * b.e3e4) * c.e3e4 + (a.e2e4 * b.s) * c.s + (a.e3e4 * b.e1e2) * c.e1e3 + (a.e3e4 * b.e1e2e3e4) * c.e1e4 - (a.e3e4 * b.e1e3) * c.e1e2 + (a.e3e4 * b.e1e4) * c.e1e2e3e4 - (a.e3e4 * b.e2e3) * c.s + (a.e3e4 * b.e2e4) * c.e3e4 - (a.e3e4 * b.e3e4) * c.e2e4 - (a.e3e4 * b.s) * c.e2e3 - (a.s * b.e1e2) * c.e1e4 + (a.s * b.e1e2e3e4) * c.e1e3 + (a.s * b.e1e3) * c.e1e2e3e4 + (a.s * b.e1e4) * c.e1e2 + (a.s * b.e2e3) * c.e3e4 + (a.s * b.e2e4) * c.s - (a.s * b.e3e4) * c.e2e3 + (a.s * b.s) * c.e2e4);
    assert(l.e3e4 == -((a.e1e2 * b.s - a.e1e2e3e4 * b.e3e4 - a.e1e3 * b.e2e3 - a.e1e4 * b.e2e4 + a.e2e3 * b.e1e3 + a.e2e4 * b.e1e4 - a.e3e4 * b.e1e2e3e4 + a.s * b.e1e2) * c.e1e2e3e4) - (a.e1e2 * b.e3e4 + a.e1e2e3e4 * b.s - a.e1e3 * b.e2e4 + a.e1e4 * b.e2e3 + a.e2e3 * b.e1e4 - a.e2e4 * b.e1e3 + a.e3e4 * b.e1e2 + a.s * b.e1e2e3e4) * c.e1e2 - (a.e1e2 * b.e2e3 + a.e1e2e3e4 * b.e2e4 + a.e1e3 * b.s - a.e1e4 * b.e3e4 - a.e2e3 * b.e1e2 + a.e2e4 * b.e1e2e3e4 + a.e3e4 * b.e1e4 + a.s * b.e1e3) * c.e1e4 + (a.e1e2 * b.e2e4 - a.e1e2e3e4 * b.e2e3 + a.e1e3 * b.e3e4 + a.e1e4 * b.s - a.e2e3 * b.e1e2e3e4 - a.e2e4 * b.e1e2 - a.e3e4 * b.e1e3 + a.s * b.e1e4) * c.e1e3 - (-(a.e1e2 * b.e1e3) - a.e1e2e3e4 * b.e1e4 + a.e1e3 * b.e1e2 - a.e1e4 * b.e1e2e3e4 + a.e2e3 * b.s - a.e2e4 * b.e3e4 + a.e3e4 * b.e2e4 + a.s * b.e2e3) * c.e2e4 + (-(a.e1e2 * b.e1e4) + a.e1e2e3e4 * b.e1e3 + a.e1e3 * b.e1e2e3e4 + a.e1e4 * b.e1e2 + a.e2e3 * b.e3e4 + a.e2e4 * b.s - a.e3e4 * b.e2e3 + a.s * b.e2e4) * c.e2e3 + (-(a.e1e2 * b.e1e2e3e4) - a.e1e2e3e4 * b.e1e2 - a.e1e3 * b.e1e4 + a.e1e4 * b.e1e3 - a.e2e3 * b.e2e4 + a.e2e4 * b.e2e3 + a.e3e4 * b.s + a.s * b.e3e4) * c.s + (-(a.e1e2 * b.e1e2) + a.e1e2e3e4 * b.e1e2e3e4 - a.e1e3 * b.e1e3 - a.e1e4 * b.e1e4 - a.e2e3 * b.e2e3 - a.e2e4 * b.e2e4 - a.e3e4 * b.e3e4 + a.s * b.s) * c.e3e4);
    assert(r.e3e4 == -(a.e1e2 * (b.e1e2 * c.e3e4 + b.e1e2e3e4 * c.s - b.e1e3 * c.e2e4 + b.e1e4 * c.e2e3 + b.e2e3 * c.e1e4 - b.e2e4 * c.e1e3 + b.e3e4 * c.e1e2 + b.s * c.e1e2e3e4)) - a.e1e2e3e4 * (b.e1e2 * c.s - b.e1e2e3e4 * c.e3e4 - b.e1e3 * c.e2e3 - b.e1e4 * c.e2e4 + b.e2e3 * c.e1e3 + b.e2e4 * c.e1e4 - b.e3e4 * c.e1e2e3e4 + b.s * c.e1e2) - a.e1e3 * (b.e1e2 * c.e2e4 - b.e1e2e3e4 * c.e2e3 + b.e1e3 * c.e3e4 + b.e1e4 * c.s - b.e2e3 * c.e1e2e3e4 - b.e2e4 * c.e1e2 - b.e3e4 * c.e1e3 + b.s * c.e1e4) + a.e1e4 * (b.e1e2 * c.e2e3 + b.e1e2e3e4 * c.e2e4 + b.e1e3 * c.s - b.e1e4 * c.e3e4 - b.e2e3 * c.e1e2 + b.e2e4 * c.e1e2e3e4 + b.e3e4 * c.e1e4 + b.s * c.e1e3) - a.e2e3 * (-(b.e1e2 * c.e1e4) + b.e1e2e3e4 * c.e1e3 + b.e1e3 * c.e1e2e3e4 + b.e1e4 * c.e1e2 + b.e2e3 * c.e3e4 + b.e2e4 * c.s - b.e3e4 * c.e2e3 + b.s * c.e2e4) + a.e2e4 * (-(b.e1e2 * c.e1e3) - b.e1e2e3e4 * c.e1e4 + b.e1e3 * c.e1e2 - b.e1e4 * c.e1e2e3e4 + b.e2e3 * c.s - b.e2e4 * c.e3e4 + b.e3e4 * c.e2e4 + b.s * c.e2e3) + a.e3e4 * (-(b.e1e2 * c.e1e2) + b.e1e2e3e4 * c.e1e2e3e4 - b.e1e3 * c.e1e3 - b.e1e4 * c.e1e4 - b.e2e3 * c.e2e3 - b.e2e4 * c.e2e4 - b.e3e4 * c.e3e4 + b.s * c.s) + a.s * (-(b.e1e2 * c.e1e2e3e4) - b.e1e2e3e4 * c.e1e2 - b.e1e3 * c.e1e4 + b.e1e4 * c.e1e3 - b.e2e3 * c.e2e4 + b.e2e4 * c.e2e3 + b.e3e4 * c.s + b.s * c.e3e4));
    scale_right_transform_e1e2(a, b, c.e1e2e3e4);
    scale_right_transform_e1e2e3e4(a, b, c.e1e2);
    scale_right_transform_e1e3(a, b, c.e1e4);
    scale_right_transform_e1e4(a, b, c.e1e3);
    scale_right_transform_e2e3(a, b, c.e2e4);
    scale_right_transform_e2e4(a, b, c.e2e3);
    scale_right_transform_e3e4(a, b, c.s);
    scale_right_transform_s(a, b, c.e3e4);
    scale_left_transform_e1e2e3e4(b, c, a.e1e2);
    scale_left_transform_e1e2(b, c, a.e1e2e3e4);
    scale_left_transform_e1e4(b, c, a.e1e3);
    scale_left_transform_e1e3(b, c, a.e1e4);
    scale_left_transform_e2e4(b, c, a.e2e3);
    scale_left_transform_e2e3(b, c, a.e2e4);
    scale_left_transform_s(b, c, a.e3e4);
    scale_left_transform_e3e4(b, c, a.s);
    assert(l.e3e4 == -((a.e1e2 * b.e1e2) * c.e3e4) - (a.e1e2 * b.e1e2e3e4) * c.s + (a.e1e2 * b.e1e3) * c.e2e4 - (a.e1e2 * b.e1e4) * c.e2e3 - (a.e1e2 * b.e2e3) * c.e1e4 + (a.e1e2 * b.e2e4) * c.e1e3 - (a.e1e2 * b.e3e4) * c.e1e2 - (a.e1e2 * b.s) * c.e1e2e3e4 - (a.e1e2e3e4 * b.e1e2) * c.s + (a.e1e2e3e4 * b.e1e2e3e4) * c.e3e4 + (a.e1e2e3e4 * b.e1e3) * c.e2e3 + (a.e1e2e3e4 * b.e1e4) * c.e2e4 - (a.e1e2e3e4 * b.e2e3) * c.e1e3 - (a.e1e2e3e4 * b.e2e4) * c.e1e4 + (a.e1e2e3e4 * b.e3e4) * c.e1e2e3e4 - (a.e1e2e3e4 * b.s) * c.e1e2 - (a.e1e3 * b.e1e2) * c.e2e4 + (a.e1e3 * b.e1e2e3e4) * c.e2e3 - (a.e1e3 * b.e1e3) * c.e3e4 - (a.e1e3 * b.e1e4) * c.s + (a.e1e3 * b.e2e3) * c.e1e2e3e4 + (a.e1e3 * b.e2e4) * c.e1e2 + (a.e1e3 * b.e3e4) * c.e1e3 - (a.e1e3 * b.s) * c.e1e4 + (a.e1e4 * b.e1e2) * c.e2e3 + (a.e1e4 * b.e1e2e3e4) * c.e2e4 + (a.e1e4 * b.e1e3) * c.s - (a.e1e4 * b.e1e4) * c.e3e4 - (a.e1e4 * b.e2e3) * c.e1e2 + (a.e1e4 * b.e2e4) * c.e1e2e3e4 + (a.e1e4 * b.e3e4) * c.e1e4 + (a.e1e4 * b.s) * c.e1e3 + (a.e2e3 * b.e1e2) * c.e1e4 - (a.e2e3 * b.e1e2e3e4) * c.e1e3 - (a.e2e3 * b.e1e3) * c.e1e2e3e4 - (a.e2e3 * b.e1e4) * c.e1e2 - (a.e2e3 * b.e2e3) * c.e3e4 - (a.e2e3 * b.e2e4) * c.s + (a.e2e3 * b.e3e4) * c.e2e3 - (a.e2e3 * b.s) * c.e2e4 - (a.e2e4 * b.e1e2) * c.e1e3 - (a.e2e4 * b.e1e2e3e4) * c.e1e4 + (a.e2e4 * b.e1e3) * c.e1e2 - (a.e2e4 * b.e1e4) * c.e1e2e3e4 + (a.e2e4 * b.e2e3) * c.s - (a.e2e4 * b.e2e4) * c.e3e4 + (a.e2e4 * b.e3e4) * c.e2e4 + (a.e2e4 * b.s) * c.e2e3 - (a.e3e4 * b.e1e2) * c.e1e2 + (a.e3e4 * b.e1e2e3e4) * c.e1e2e3e4 - (a.e3e4 * b.e1e3) * c.e1e3 - (a.e3e4 * b.e1e4) * c.e1e4 - (a.e3e4 * b.e2e3) * c.e2e3 - (a.e3e4 * b.e2e4) * c.e2e4 - (a.e3e4 * b.e3e4) * c.e3e4 + (a.e3e4 * b.s) * c.s - (a.s * b.e1e2) * c.e1e2e3e4 - (a.s * b.e1e2e3e4) * c.e1e2 - (a.s * b.e1e3) * c.e1e4 + (a.s * b.e1e4) * c.e1e3 - (a.s * b.e2e3) * c.e2e4 + (a.s * b.e2e4) * c.e2e3 + (a.s * b.e3e4) * c.s + (a.s * b.s) * c.e3e4);
    assert(r.e3e4 == -((a.e1e2 * b.e1e2) * c.e3e4) - (a.e1e2 * b.e1e2e3e4) * c.s + (a.e1e2 * b.e1e3) * c.e2e4 - (a.e1e2 * b.e1e4) * c.e2e3 - (a.e1e2 * b.e2e3) * c.e1e4 + (a.e1e2 * b.e2e4) * c.e1e3 - (a.e1e2 * b.e3e4) * c.e1e2 - (a.e1e2 * b.s) * c.e1e2e3e4 - (a.e1e2e3e4 * b.e1e2) * c.s + (a.e1e2e3e4 * b.e1e2e3e4) * c.e3e4 + (a.e1e2e3e4 * b.e1e3) * c.e2e3 + (a.e1e2e3e4 * b.e1e4) * c.e2e4 - (a.e1e2e3e4 * b.e2e3) * c.e1e3 - (a.e1e2e3e4 * b.e2e4) * c.e1e4 + (a.e1e2e3e4 * b.e3e4) * c.e1e2e3e4 - (a.e1e2e3e4 * b.s) * c.e1e2 - (a.e1e3 * b.e1e2) * c.e2e4 + (a.e1e3 * b.e1e2e3e4) * c.e2e3 - (a.e1e3 * b.e1e3) * c.e3e4 - (a.e1e3 * b.e1e4) * c.s + (a.e1e3 * b.e2e3) * c.e1e2e3e4 + (a.e1e3 * b.e2e4) * c.e1e2 + (a.e1e3 * b.e3e4) * c.e1e3 - (a.e1e3 * b.s) * c.e1e4 + (a.e1e4 * b.e1e2) * c.e2e3 + (a.e1e4 * b.e1e2e3e4) * c.e2e4 + (a.e1e4 * b.e1e3) * c.s - (a.e1e4 * b.e1e4) * c.e3e4 - (a.e1e4 * b.e2e3) * c.e1e2 + (a.e1e4 * b.e2e4) * c.e1e2e3e4 + (a.e1e4 * b.e3e4) * c.e1e4 + (a.e1e4 * b.s) * c.e1e3 + (a.e2e3 * b.e1e2) * c.e1e4 - (a.e2e3 * b.e1e2e3e4) * c.e1e3 - (a.e2e3 * b.e1e3) * c.e1e2e3e4 - (a.e2e3 * b.e1e4) * c.e1e2 - (a.e2e3 * b.e2e3) * c.e3e4 - (a.e2e3 * b.e2e4) * c.s + (a.e2e3 * b.e3e4) * c.e2e3 - (a.e2e3 * b.s) * c.e2e4 - (a.e2e4 * b.e1e2) * c.e1e3 - (a.e2e4 * b.e1e2e3e4) * c.e1e4 + (a.e2e4 * b.e1e3) * c.e1e2 - (a.e2e4 * b.e1e4) * c.e1e2e3e4 + (a.e2e4 * b.e2e3) * c.s - (a.e2e4 * b.e2e4) * c.e3e4 + (a.e2e4 * b.e3e4) * c.e2e4 + (a.e2e4 * b.s) * c.e2e3 - (a.e3e4 * b.e1e2) * c.e1e2 + (a.e3e4 * b.e1e2e3e4) * c.e1e2e3e4 - (a.e3e4 * b.e1e3) * c.e1e3 - (a.e3e4 * b.e1e4) * c.e1e4 - (a.e3e4 * b.e2e3) * c.e2e3 - (a.e3e4 * b.e2e4) * c.e2e4 - (a.e3e4 * b.e3e4) * c.e3e4 + (a.e3e4 * b.s) * c.s - (a.s * b.e1e2) * c.e1e2e3e4 - (a.s * b.e1e2e3e4) * c.e1e2 - (a.s * b.e1e3) * c.e1e4 + (a.s * b.e1e4) * c.e1e3 - (a.s * b.e2e3) * c.e2e4 + (a.s * b.e2e4) * c.e2e3 + (a.s * b.e3e4) * c.s + (a.s * b.s) * c.e3e4);
    assert(l.e0e1e2e3 == (a.e0e1 * b.s - a.e0e1e2e3 * b.e2e3 - a.e0e1e2e4 * b.e2e4 - a.e0e1e3e4 * b.e3e4 - a.e0e2 * b.e1e2 + a.e0e2e3e4 * b.e1e2e3e4 - a.e0e3 * b.e1e3 - a.e0e4 * b.e1e4 + a.e1e2 * b.e0e2 - a.e1e2e3e4 * b.e0e2e3e4 + a.e1e3 * b.e0e3 + a.e1e4 * b.e0e4 - a.e2e3 * b.e0e1e2e3 - a.e2e4 * b.e0e1e2e4 - a.e3e4 * b.e0e1e3e4 + a.s * b.e0e1) * c.e2e3 + (a.e0e1 * b.e2e3 + a.e0e1e2e3 * b.s - a.e0e1e2e4 * b.e3e4 + a.e0e1e3e4 * b.e2e4 - a.e0e2 * b.e1e3 - a.e0e2e3e4 * b.e1e4 + a.e0e3 * b.e1e2 - a.e0e4 * b.e1e2e3e4 + a.e1e2 * b.e0e3 + a.e1e2e3e4 * b.e0e4 - a.e1e3 * b.e0e2 + a.e1e4 * b.e0e2e3e4 + a.e2e3 * b.e0e1 - a.e2e4 * b.e0e1e3e4 + a.e3e4 * b.e0e1e2e4 + a.s * b.e0e1e2e3) * c.s - (a.e0e1 * b.e2e4 + a.e0e1e2e3 * b.e3e4 + a.e0e1e2e4 * b.s - a.e0e1e3e4 * b.e2e3 - a.e0e2 * b.e1e4 + a.e0e2e3e4 * b.e1e3 + a.e0e3 * b.e1e2e3e4 + a.e0e4 * b.e1e2 + a.e1e2 * b.e0e4 - a.e1e2e3e4 * b.e0e3 - a.e1e3 * b.e0e2e3e4 - a.e1e4 * b.e0e2 + a.e2e3 * b.e0e1e3e4 + a.e2e4 * b.e0e1 - a.e3e4 * b.e0e1e2e3 + a.s * b.e0e1e2e4) * c.e3e4 + (a.e0e1 * b.e3e4 - a.e0e1e2e3 * b.e2e4 + a.e0e1e2e4 * b.e2e3 + a.e0e1e3e4 * b.s - a.e0e2 * b.e1e2e3e4 - a.e0e2e3e4 * b.e1e2 - a.e0e3 * b.e1e4 + a.e0e4 * b.e1e3 + a.e1e2 * b.e0e2e3e4 + a.e1e2e3e4 * b.e0e2 + a.e1e3 * b.e0e4 - a.e1e4 * b.e0e3 - a.e2e3 * b.e0e1e2e4 + a.e2e4 * b.e0e1e2e3 + a.e3e4 * b.e0e1 + a.s * b.e0e1e3e4) * c.e2e4 - (a.e0e1 * b.e1e2 + a.e0e1e2e3 * b.e1e3 + a.e0e1e2e4 * b.e1e4 - a.e0e1e3e4 * b.e1e2e3e4 + a.e0e2 * b.s - a.e0e2e3e4 * b.e3e4 - a.e0e3 * b.e2e3 - a.e0e4 * b.e2e4 - a.e1e2 * b.e0e1 + a.e1e2e3e4 * b.e0e1e3e4 + a.e1e3 * b.e0e1e2e3 + a.e1e4 * b.e0e1e2e4 + a.e2e3 * b.e0e3 + a.e2e4 * b.e0e4 - a.e3e4 * b.e0e2e3e4 + a.s * b.e0e2) * c.e1e3 - (a.e0e1 * b.e1e2e3e4 + a.e0e1e2e3 * b.e1e4 - a.e0e1e2e4 * b.e1e3 + a.e0e1e3e4 * b.e1e2 + a.e0e2 * b.e3e4 + a.e0e2e3e4 * b.s - a.e0e3 * b.e2e4 + a.e0e4 * b.e2e3 - a.e1e2 * b.e0e1e3e4 - a.e1e2e3e4 * b.e0e1 + a.e1e3 * b.e0e1e2e4 - a.e1e4 * b.e0e1e2e3 + a.e2e3 * b.e0e4 - a.e2e4 * b.e0e3 + a.e3e4 * b.e0e2 + a.s * b.e0e2e3e4) * c.e1e4 + (a.e0e1 * b.e1e3 - a.e0e1e2e3 * b.e1e2 + a.e0e1e2e4 * b.e1e2e3e4 + a.e0e1e3e4 * b.e1e4 + a.e0e2 * b.e2e3 + a.e0e2e3e4 * b.e2e4 + a.e0e3 * b.s - a.e0e4 * b.e3e4 - a.e1e2 * b.e0e1e2e3 - a.e1e2e3e4 * b.e0e1e2e4 - a.e1e3 * b.e0e1 + a.e1e4 * b.e0e1e3e4 - a.e2e3 * b.e0e2 + a.e2e4 * b.e0e2e3e4 + a.e3e4 * b.e0e4 + a.s * b.e0e3) * c.e1e2 - (a.e0e1 * b.e1e4 - a.e0e1e2e3 * b.e1e2e3e4 - a.e0e1e2e4 * b.e1e2 - a.e0e1e3e4 * b.e1e3 + a.e0e2 * b.e2e4 - a.e0e2e3e4 * b.e2e3 + a.e0e3 * b.e3e4 + a.e0e4 * b.s - a.e1e2 * b.e0e1e2e4 + a.e1e2e3e4 * b.e0e1e2e3 - a.e1e3 * b.e0e1e3e4 - a.e1e4 * b.e0e1 - a.e2e3 * b.e0e2e3e4 - a.e2e4 * b.e0e2 - a.e3e4 * b.e0e3 + a.s * b.e0e4) * c.e1e2e3e4 + (a.e1e2 * b.s - a.e1e2e3e4 * b.e3e4 - a.e1e3 * b.e2e3 - a.e1e4 * b.e2e4 + a.e2e3 * b.e1e3 + a.e2e4 * b.e1e4 - a.e3e4 * b.e1e2e3e4 + a.s * b.e1e2) * c.e0e3 + (a.e1e2 * b.e3e4 + a.e1e2e3e4 * b.s - a.e1e3 * b.e2e4 + a.e1e4 * b.e2e3 + a.e2e3 * b.e1e4 - a.e2e4 * b.e1e3 + a.e3e4 * b.e1e2 + a.s * b.e1e2e3e4) * c.e0e4 - (a.e1e2 * b.e2e3 + a.e1e2e3e4 * b.e2e4 + a.e1e3 * b.s - a.e1e4 * b.e3e4 - a.e2e3 * b.e1e2 + a.e2e4 * b.e1e2e3e4 + a.e3e4 * b.e1e4 + a.s * b.e1e3) * c.e0e2 + (a.e1e2 * b.e2e4 - a.e1e2e3e4 * b.e2e3 + a.e1e3 * b.e3e4 + a.e1e4 * b.s - a.e2e3 * b.e1e2e3e4 - a.e2e4 * b.e1e2 - a.e3e4 * b.e1e3 + a.s * b.e1e4) * c.e0e2e3e4 + (-(a.e1e2 * b.e1e3) - a.e1e2e3e4 * b.e1e4 + a.e1e3 * b.e1e2 - a.e1e4 * b.e1e2e3e4 + a.e2e3 * b.s - a.e2e4 * b.e3e4 + a.e3e4 * b.e2e4 + a.s * b.e2e3) * c.e0e1 - (-(a.e1e2 * b.e1e4) + a.e1e2e3e4 * b.e1e3 + a.e1e3 * b.e1e2e3e4 + a.e1e4 * b.e1e2 + a.e2e3 * b.e3e4 + a.e2e4 * b.s - a.e3e4 * b.e2e3 + a.s * b.e2e4) * c.e0e1e3e4 + (-(a.e1e2 * b.e1e2e3e4) - a.e1e2e3e4 * b.e1e2 - a.e1e3 * b.e1e4 + a.e1e4 * b.e1e3 - a.e2e3 * b.e2e4 + a.e2e4 * b.e2e3 + a.e3e4 * b.s + a.s * b.e3e4) * c.e0e1e2e4 + (-(a.e1e2 * b.e1e2) + a.e1e2e3e4 * b.e1e2e3e4 - a.e1e3 * b.e1e3 - a.e1e4 * b.e1e4 - a.e2e3 * b.e2e3 - a.e2e4 * b.e2e4 - a.e3e4 * b.e3e4 + a.s * b.s) * c.e0e1e2e3);
    assert(r.e0e1e2e3 == a.e0e1 * (-(b.e1e2 * c.e1e3) - b.e1e2e3e4 * c.e1e4 + b.e1e3 * c.e1e2 - b.e1e4 * c.e1e2e3e4 + b.e2e3 * c.s - b.e2e4 * c.e3e4 + b.e3e4 * c.e2e4 + b.s * c.e2e3) + a.e0e1e2e3 * (-(b.e1e2 * c.e1e2) + b.e1e2e3e4 * c.e1e2e3e4 - b.e1e3 * c.e1e3 - b.e1e4 * c.e1e4 - b.e2e3 * c.e2e3 - b.e2e4 * c.e2e4 - b.e3e4 * c.e3e4 + b.s * c.s) - a.e0e1e2e4 * (-(b.e1e2 * c.e1e2e3e4) - b.e1e2e3e4 * c.e1e2 - b.e1e3 * c.e1e4 + b.e1e4 * c.e1e3 - b.e2e3 * c.e2e4 + b.e2e4 * c.e2e3 + b.e3e4 * c.s + b.s * c.e3e4) + a.e0e1e3e4 * (-(b.e1e2 * c.e1e4) + b.e1e2e3e4 * c.e1e3 + b.e1e3 * c.e1e2e3e4 + b.e1e4 * c.e1e2 + b.e2e3 * c.e3e4 + b.e2e4 * c.s - b.e3e4 * c.e2e3 + b.s * c.e2e4) - a.e0e2 * (b.e1e2 * c.e2e3 + b.e1e2e3e4 * c.e2e4 + b.e1e3 * c.s - b.e1e4 * c.e3e4 - b.e2e3 * c.e1e2 + b.e2e4 * c.e1e2e3e4 + b.e3e4 * c.e1e4 + b.s * c.e1e3) - a.e0e2e3e4 * (b.e1e2 * c.e2e4 - b.e1e2e3e4 * c.e2e3 + b.e1e3 * c.e3e4 + b.e1e4 * c.s - b.e2e3 * c.e1e2e3e4 - b.e2e4 * c.e1e2 - b.e3e4 * c.e1e3 + b.s * c.e1e4) + a.e0e3 * (b.e1e2 * c.s - b.e1e2e3e4 * c.e3e4 - b.e1e3 * c.e2e3 - b.e1e4 * c.e2e4 + b.e2e3 * c.e1e3 + b.e2e4 * c.e1e4 - b.e3e4 * c.e1e2e3e4 + b.s * c.e1e2) - a.e0e4 * (b.e1e2 * c.e3e4 + b.e1e2e3e4 * c.s - b.e1e3 * c.e2e4 + b.e1e4 * c.e2e3 + b.e2e3 * c.e1e4 - b.e2e4 * c.e1e3 + b.e3e4 * c.e1e2 + b.s * c.e1e2e3e4) + a.e1e2 * (b.e0e1 * c.e1e3 - b.e0e1e2e3 * c.e1e2 + b.e0e1e2e4 * c.e1e2e3e4 + b.e0e1e3e4 * c.e1e4 + b.e0e2 * c.e2e3 + b.e0e2e3e4 * c.e2e4 + b.e0e3 * c.s - b.e0e4 * c.e3e4 - b.e1e2 * c.e0e1e2e3 - b.e1e2e3e4 * c.e0e1e2e4 - b.e1e3 * c.e0e1 + b.e1e4 * c.e0e1e3e4 - b.e2e3 * c.e0e2 + b.e2e4 * c.e0e2e3e4 + b.e3e4 * c.e0e4 + b.s * c.e0e3) + a.e1e2e3e4 * (b.e0e1 * c.e1e4 - b.e0e1e2e3 * c.e1e2e3e4 - b.e0e1e2e4 * c.e1e2 - b.e0e1e3e4 * c.e1e3 + b.e0e2 * c.e2e4 - b.e0e2e3e4 * c.e2e3 + b.e0e3 * c.e3e4 + b.e0e4 * c.s - b.e1e2 * c.e0e1e2e4 + b.e1e2e3e4 * c.e0e1e2e3 - b.e1e3 * c.e0e1e3e4 - b.e1e4 * c.e0e1 - b.e2e3 * c.e0e2e3e4 - b.e2e4 * c.e0e2 - b.e3e4 * c.e0e3 + b.s * c.e0e4) - a.e1e3 * (b.e0e1 * c.e1e2 + b.e0e1e2e3 * c.e1e3 + b.e0e1e2e4 * c.e1e4 - b.e0e1e3e4 * c.e1e2e3e4 + b.e0e2 * c.s - b.e0e2e3e4 * c.e3e4 - b.e0e3 * c.e2e3 - b.e0e4 * c.e2e4 - b.e1e2 * c.e0e1 + b.e1e2e3e4 * c.e0e1e3e4 + b.e1e3 * c.e0e1e2e3 + b.e1e4 * c.e0e1e2e4 + b.e2e3 * c.e0e3 + b.e2e4 * c.e0e4 - b.e3e4 * c.e0e2e3e4 + b.s * c.e0e2) + a.e1e4 * (b.e0e1 * c.e1e2e3e4 + b.e0e1e2e3 * c.e1e4 - b.e0e1e2e4 * c.e1e3 + b.e0e1e3e4 * c.e1e2 + b.e0e2 * c.e3e4 + b.e0e2e3e4 * c.s - b.e0e3 * c.e2e4 + b.e0e4 * c.e2e3 - b.e1e2 * c.e0e1e3e4 - b.e1e2e3e4 * c.e0e1 + b.e1e3 * c.e0e1e2e4 - b.e1e4 * c.e0e1e2e3 + b.e2e3 * c.e0e4 - b.e2e4 * c.e0e3 + b.e3e4 * c.e0e2 + b.s * c.e0e2e3e4) + a.e2e3 * (b.e0e1 * c.s - b.e0e1e2e3 * c.e2e3 - b.e0e1e2e4 * c.e2e4 - b.e0e1e3e4 * c.e3e4 - b.e0e2 * c.e1e2 + b.e0e2e3e4 * c.e1e2e3e4 - b.e0e3 * c.e1e3 - b.e0e4 * c.e1e4 + b.e1e2 * c.e0e2 - b.e1e2e3e4 * c.e0e2e3e4 + b.e1e3 * c.e0e3 + b.e1e4 * c.e0e4 - b.e2e3 * c.e0e1e2e3 - b.e2e4 * c.e0e1e2e4 - b.e3e4 * c.e0e1e3e4 + b.s * c.e0e1) - a.e2e4 * (b.e0e1 * c.e3e4 - b.e0e1e2e3 * c.e2e4 + b.e0e1e2e4 * c.e2e3 + b.e0e1e3e4 * c.s - b.e0e2 * c.e1e2e3e4 - b.e0e2e3e4 * c.e1e2 - b.e0e3 * c.e1e4 + b.e0e4 * c.e1e3 + b.e1e2 * c.e0e2e3e4 + b.e1e2e3e4 * c.e0e2 + b.e1e3 * c.e0e4 - b.e1e4 * c.e0e3 - b.e2e3 * c.e0e1e2e4 + b.e2e4 * c.e0e1e2e3 + b.e3e4 * c.e0e1 + b.s * c.e0e1e3e4) + a.e3e4 * (b.e0e1 * c.e2e4 + b.e0e1e2e3 * c.e3e4 + b.e0e1e2e4 * c.s - b.e0e1e3e4 * c.e2e3 - b.e0e2 * c.e1e4 + b.e0e2e3e4 * c.e1e3 + b.e0e3 * c.e1e2e3e4 + b.e0e4 * c.e1e2 + b.e1e2 * c.e0e4 - b.e1e2e3e4 * c.e0e3 - b.e1e3 * c.e0e2e3e4 - b.e1e4 * c.e0e2 + b.e2e3 * c.e0e1e3e4 + b.e2e4 * c.e0e1 - b.e3e4 * c.e0e1e2e3 + b.s * c.e0e1e2e4) + a.s * (b.e0e1 * c.e2e3 + b.e0e1e2e3 * c.s - b.e0e1e2e4 * c.e3e4 + b.e0e1e3e4 * c.e2e4 - b.e0e2 * c.e1e3 - b.e0e2e3e4 * c.e1e4 + b.e0e3 * c.e1e2 - b.e0e4 * c.e1e2e3e4 + b.e1e2 * c.e0e3 + b.e1e2e3e4 * c.e0e4 - b.e1e3 * c.e0e2 + b.e1e4 * c.e0e2e3e4 + b.e2e3 * c.e0e1 - b.e2e4 * c.e0e1e3e4 + b.e3e4 * c.e0e1e2e4 + b.s * c.e0e1e2e3));
    scale_right_transform_e0e1(a, b, c.e2e3);
    scale_right_transform_e0e1e2e3(a, b, c.s);
    scale_right_transform_e0e1e2e4(a, b, c.e3e4);
    scale_right_transform_e0e1e3e4(a, b, c.e2e4);
    scale_right_transform_e0e2(a, b, c.e1e3);
    scale_right_transform_e0e2e3e4(a, b, c.e1e4);
    scale_right_transform_e0e3(a, b, c.e1e2);
    scale_right_transform_e0e4(a, b, c.e1e2e3e4);
    scale_right_transform_e1e2(a, b, c.e0e3);
    scale_right_transform_e1e2e3e4(a, b, c.e0e4);
    scale_right_transform_e1e3(a, b, c.e0e2);
    scale_right_transform_e1e4(a, b, c.e0e2e3e4);
    scale_right_transform_e2e3(a, b, c.e0e1);
    scale_right_transform_e2e4(a, b, c.e0e1e3e4);
    scale_right_transform_e3e4(a, b, c.e0e1e2e4);
    scale_right_transform_s(a, b, c.e0e1e2e3);
    scale_left_transform_e2e3(b, c, a.e0e1);
    scale_left_transform_s(b, c, a.e0e1e2e3);
    scale_left_transform_e3e4(b, c, a.e0e1e2e4);
    scale_left_transform_e2e4(b, c, a.e0e1e3e4);
    scale_left_transform_e1e3(b, c, a.e0e2);
    scale_left_transform_e1e4(b, c, a.e0e2e3e4);
    scale_left_transform_e1e2(b, c, a.e0e3);
    scale_left_transform_e1e2e3e4(b, c, a.e0e4);
    scale_left_transform_e0e3(b, c, a.e1e2);
    scale_left_transform_e0e4(b, c, a.e1e2e3e4);
    scale_left_transform_e0e2(b, c, a.e1e3);
    scale_left_transform_e0e2e3e4(b, c, a.e1e4);
    scale_left_transform_e0e1(b, c, a.e2e3);
    scale_left_transform_e0e1e3e4(b, c, a.e2e4);
    scale_left_transform_e0e1e2e4(b, c, a.e3e4);
    scale_left_transform_e0e1e2e3(b, c, a.s);
    assert(l.e0e1e2e3 == -((a.e0e1 * b.e1e2) * c.e1e3) - (a.e0e1 * b.e1e2e3e4) * c.e1e4 + (a.e0e1 * b.e1e3) * c.e1e2 - (a.e0e1 * b.e1e4) * c.e1e2e3e4 + (a.e0e1 * b.e2e3) * c.s - (a.e0e1 * b.e2e4) * c.e3e4 + (a.e0e1 * b.e3e4) * c.e2e4 + (a.e0e1 * b.s) * c.e2e3 - (a.e0e1e2e3 * b.e1e2) * c.e1e2 + (a.e0e1e2e3 * b.e1e2e3e4) * c.e1e2e3e4 - (a.e0e1e2e3 * b.e1e3) * c.e1e3 - (a.e0e1e2e3 * b.e1e4) * c.e1e4 - (a.e0e1e2e3 * b.e2e3) * c.e2e3 - (a.e0e1e2e3 * b.e2e4) * c.e2e4 - (a.e0e1e2e3 * b.e3e4) * c.e3e4 + (a.e0e1e2e3 * b.s) * c.s + (a.e0e1e2e4 * b.e1e2) * c.e1e2e3e4 + (a.e0e1e2e4 * b.e1e2e3e4) * c.e1e2 + (a.e0e1e2e4 * b.e1e3) * c.e1e4 - (a.e0e1e2e4 * b.e1e4) * c.e1e3 + (a.e0e1e2e4 * b.e2e3) * c.e2e4 - (a.e0e1e2e4 * b.e2e4) * c.e2e3 - (a.e0e1e2e4 * b.e3e4) * c.s - (a.e0e1e2e4 * b.s) * c.e3e4 - (a.e0e1e3e4 * b.e1e2) * c.e1e4 + (a.e0e1e3e4 * b.e1e2e3e4) * c.e1e3 + (a.e0e1e3e4 * b.e1e3) * c.e1e2e3e4 + (a.e0e1e3e4 * b.e1e4) * c.e1e2 + (a.e0e1e3e4 * b.e2e3) * c.e3e4 + (a.e0e1e3e4 * b.e2e4) * c.s - (a.e0e1e3e4 * b.e3e4) * c.e2e3 + (a.e0e1e3e4 * b.s) * c.e2e4 - (a.e0e2 * b.e1e2) * c.e2e3 - (a.e0e2 * b.e1e2e3e4) * c.e2e4 - (a.e0e2 * b.e1e3) * c.s + (a.e0e2 * b.e1e4) * c.e3e4 + (a.e0e2 * b.e2e3) * c.e1e2 - (a.e0e2 * b.e2e4) * c.e1e2e3e4 - (a.e0e2 * b.e3e4) * c.e1e4 - (a.e0e2 * b.s) * c.e1e3 - (a.e0e2e3e4 * b.e1e2) * c.e2e4 + (a.e0e2e3e4 * b.e1e2e3e4) * c.e2e3 - (a.e0e2e3e4 * b.e1e3) * c.e3e4 - (a.e0e2e3e4 * b.e1e4) * c.s + (a.e0e2e3e4 * b.e2e3) * c.e1e2e3e4 + (a.e0e2e3e4 * b.e2e4) * c.e1e2 + (a.e0e2e3e4 * b.e3e4) * c.e1e3 - (a.e0e2e3e4 * b.s) * c.e1e4 + (a.e0e3 * b.e1e2) * c.s - (a.e0e3 * b.e1e2e3e4) * c.e3e4 - (a.e0e3 * b.e1e3) * c.e2e3 - (a.e0e3 * b.e1e4) * c.e2e4 + (a.e0e3 * b.e2e3) * c.e1e3 + (a.e0e3 * b.e2e4) * c.e1e4 - (a.e0e3 * b.e3e4) * c.e1e2e3e4 + (a.e0e3 * b.s) * c.e1e2 - (a.e0e4 * b.e1e2) * c.e3e4 - (a.e0e4 * b.e1e2e3e4) * c.s + (a.e0e4 * b.e1e3) * c.e2e4 - (a.e0e4 * b.e1e4) * c.e2e3 - (a.e0e4 * b.e2e3) * c.e1e4 + (a.e0e4 * b.e2e4) * c.e1e3 - (a.e0e4 * b.e3e4) * c.e1e2 - (a.e0e4 * b.s) * c.e1e2e3e4 + (a.e1e2 * b.e0e1) * c.e1e3 - (a.e1e2 * b.e0e1e2e3) * c.e1e2 + (a.e1e2 * b.e0e1e2e4) * c.e1e2e3e4 + (a.e1e2 * b.e0e1e3e4) * c.e1e4 + (a.e1e2 * b.e0e2) * c.e2e3 + (a.e1e2 * b.e0e2e3e4) * c.e2e4 + (a.e1e2 * b.e0e3) * c.s - (a.e1e2 * b.e0e4) * c.e3e4 - (a.e1e2 * b.e1e2) * c.e0e1e2e3 - (a.e1e2 * b.e1e2e3e4) * c.e0e1e2e4 - (a.e1e2 * b.e1e3) * c.e0e1 + (a.e1e2 * b.e1e4) * c.e0e1e3e4 - (a.e1e2 * b.e2e3) * c.e0e2 + (a.e1e2 * b.e2e4) * c.e0e2e3e4 + (a.e1e2 * b.e3e4) * c.e0e4 + (a.e1e2 * b.s) * c.e0e3 + (a.e1e2e3e4 * b.e0e1) * c.e1e4 - (a.e1e2e3e4 * b.e0e1e2e3) * c.e1e2e3e4 - (a.e1e2e3e4 * b.e0e1e2e4) * c.e1e2 - (a.e1e2e3e4 * b.e0e1e3e4) * c.e1e3 + (a.e1e2e3e4 * b.e0e2) * c.e2e4 - (a.e1e2e3e4 * b.e0e2e3e4) * c.e2e3 + (a.e1e2e3e4 * b.e0e3) * c.e3e4 + (a.e1e2e3e4 * b.e0e4) * c.s - (a.e1e2e3e4 * b.e1e2) * c.e0e1e2e4 + (a.e1e2e3e4 * b.e1e2e3e4) * c.e0e1e2e3 - (a.e1e2e3e4 * b.e1e3) * c.e0e1e3e4 - (a.e1e2e3e4 * b.e1e4) * c.e0e1 - (a.e1e2e3e4 * b.e2e3) * c.e0e2e3e4 - (a.e1e2e3e4 * b.e2e4) * c.e0e2 - (a.e1e2e3e4 * b.e3e4) * c.e0e3 + (a.e1e2e3e4 * b.s) * c.e0e4 - (a.e1e3 * b.e0e1) * c.e1e2 - (a.e1e3 * b.e0e1e2e3) * c.e1e3 - (a.e1e3 * b.e0e1e2e4) * c.e1e4 + (a.e1e3 * b.e0e1e3e4) * c.e1e2e3e4 - (a.e1e3 * b.e0e2) * c.s + (a.e1e3 * b.e0e2e3e4) * c.e3e4 + (a.e1e3 * b.e0e3) * c.e2e3 + (a.e1e3 * b.e0e4) * c.e2e4 + (a.e1e3 * b.e1e2) * c.e0e1 - (a.e1e3 * b.e1e2e3e4) * c.e0e1e3e4 - (a.e1e3 * b.e1e3) * c.e0e1e2e3 - (a.e1e3 * b.e1e4) * c.e0e1e2e4 - (a.e1e3 * b.e2e3) * c.e0e3 - (a.e1e3 * b.e2e4) * c.e0e4 + (a.e1e3 * b.e3e4) * c.e0e2e3e4 - (a.e1e3 * b.s) * c.e0e2 + (a.e1e4 * b.e0e1) * c.e1e2e3e4 + (a.e1e4 * b.e0e1e2e3) * c.e1e4 - (a.e1e4 * b.e0e1e2e4) * c.e1e3 + (a.e1e4 * b.e0e1e3e4) * c.e1e2 + (a.e1e4 * b.e0e2) * c.e3e4 + (a.e1e4 * b.e0e2e3e4) * c.s - (a.e1e4 * b.e0e3) * c.e2e4 + (a.e1e4 * b.e0e4) * c.e2e3 - (a.e1e4 * b.e1e2) * c.e0e1e3e4 - (a.e1e4 * b.e1e2e3e4) * c.e0e1 + (a.e1e4 * b.e1e3) * c.e0e1e2e4 - (a.e1e4 * b.e1e4) * c.e0e1e2e3 + (a.e1e4 * b.e2e3) * c.e0e4 - (a.e1e4 * b.e2e4) * c.e0e3 + (a.e1e4 * b.e3e4) * c.e0e2 + (a.e1e4 * b.s) * c.e0e2e3e4 + (a.e2e3 * b.e0e1) * c.s - (a.e2e3 * b.e0e1e2e3) * c.e2e3 - (a.e2e3 * b.e0e1e2e4) * c.e2e4 - (a.e2e3 * b.e0e1e3e4) * c.e3e4 - (a.e2e3 * b.e0e2) * c.e1e2 + (a.e2e3 * b.e0e2e3e4) * c.e1e2e3e4 - (a.e2e3 * b.e0e3) * c.e1e3 - (a.e2e3 * b.e0e4) * c.e1e4 + (a.e2e3 * b.e1e2) * c.e0e2 - (a.e2e3 * b.e1e2e3e4) * c.e0e2e3e4 + (a.e2e3 * b.e1e3) * c.e0e3 + (a.e2e3 * b.e1e4) * c.e0e4 - (a.e2e3 * b.e2e3) * c.e0e1e2e3 - (a.e2e3 * b.e2e4) * c.e0e1e2e4 - (a.e2e3 * b.e3e4) * c.e0e1e3e4 + (a.e2e3 * b.s) * c.e0e1 - (a.e2e4 * b.e0e1) * c.e3e4 + (a.e2e4 * b.e0e1e2e3) * c.e2e4 - (a.e2e4 * b.e0e1e2e4) * c.e2e3 - (a.e2e4 * b.e0e1e3e4) * c.s + (a.e2e4 * b.e0e2) * c.e1e2e3e4 + (a.e2e4 * b.e0e2e3e4) * c.e1e2 + (a.e2e4 * b.e0e3) * c.e1e4 - (a.e2e4 * b.e0e4) * c.e1e3 - (a.e2e4 * b.e1e2) * c.e0e2e3e4 - (a.e2e4 * b.e1e2e3e4) * c.e0e2 - (a.e2e4 * b.e1e3) * c.e0e4 + (a.e2e4 * b.e1e4) * c.e0e3 + (a.e2e4 * b.e2e3) * c.e0e1e2e4 - (a.e2e4 * b.e2e4) * c.e0e1e2e3 - (a.e2e4 * b.e3e4) * c.e0e1 - (a.e2e4 * b.s) * c.e0e1e3e4 + (a.e3e4 * b.e0e1) * c.e2e4 + (a.e3e4 * b.e0e1e2e3) * c.e3e4 + (a.e3e4 * b.e0e1e2e4) * c.s - (a.e3e4 * b.e0e1e3e4) * c.e2e3 - (a.e3e4 * b.e0e2) * c.e1e4 + (a.e3e4 * b.e0e2e3e4) * c.e1e3 + (a.e3e4 * b.e0e3) * c.e1e2e3e4 + (a.e3e4 * b.e0e4) * c.e1e2 + (a.e3e4 * b.e1e2) * c.e0e4 - (a.e3e4 * b.e1e2e3e4) * c.e0e3 - (a.e3e4 * b.e1e3) * c.e0e2e3e4 - (a.e3e4 * b.e1e4) * c.e0e2 + (a.e3e4 * b.e2e3) * c.e0e1e3e4 + (a.e3e4 * b.e2e4) * c.e0e1 - (a.e3e4 * b.e3e4) * c.e0e1e2e3 + (a.e3e4 * b.s) * c.e0e1e2e4 + (a.s * b.e0e1) * c.e2e3 + (a.s * b.e0e1e2e3) * c.s - (a.s * b.e0e1e2e4) * c.e3e4 + (a.s * b.e0e1e3e4) * c.e2e4 - (a.s * b.e0e2) * c.e1e3 - (a.s * b.e0e2e3e4) * c.e1e4 + (a.s * b.e0e3) * c.e1e2 - (a.s * b.e0e4) * c.e1e2e3e4 + (a.s * b.e1e2) * c.e0e3 + (a.s * b.e1e2e3e4) * c.e0e4 - (a.s * b.e1e3) * c.e0e2 + (a.s * b.e1e4) * c.e0e2e3e4 + (a.s * b.e2e3) * c.e0e1 - (a.s * b.e2e4) * c.e0e1e3e4 + (a.s * b.e3e4) * c.e0e1e2e4 + (a.s * b.s) * c.e0e1e2e3);
    assert(r.e0e1e2e3 == -((a.e0e1 * b.e1e2) * c.e1e3) - (a.e0e1 * b.e1e2e3e4) * c.e1e4 + (a.e0e1 * b.e1e3) * c.e1e2 - (a.e0e1 * b.e1e4) * c.e1e2e3e4 + (a.e0e1 * b.e2e3) * c.s - (a.e0e1 * b.e2e4) * c.e3e4 + (a.e0e1 * b.e3e4) * c.e2e4 + (a.e0e1 * b.s) * c.e2e3 - (a.e0e1e2e3 * b.e1e2) * c.e1e2 + (a.e0e1e2e3 * b.e1e2e3e4) * c.e1e2e3e4 - (a.e0e1e2e3 * b.e1e3) * c.e1e3 - (a.e0e1e2e3 * b.e1e4) * c.e1e4 - (a.e0e1e2e3 * b.e2e3) * c.e2e3 - (a.e0e1e2e3 * b.e2e4) * c.e2e4 - (a.e0e1e2e3 * b.e3e4) * c.e3e4 + (a.e0e1e2e3 * b.s) * c.s + (a.e0e1e2e4 * b.e1e2) * c.e1e2e3e4 + (a.e0e1e2e4 * b.e1e2e3e4) * c.e1e2 + (a.e0e1e2e4 * b.e1e3) * c.e1e4 - (a.e0e1e2e4 * b.e1e4) * c.e1e3 + (a.e0e1e2e4 * b.e2e3) * c.e2e4 - (a.e0e1e2e4 * b.e2e4) * c.e2e3 - (a.e0e1e2e4 * b.e3e4) * c.s - (a.e0e1e2e4 * b.s) * c.e3e4 - (a.e0e1e3e4 * b.e1e2) * c.e1e4 + (a.e0e1e3e4 * b.e1e2e3e4) * c.e1e3 + (a.e0e1e3e4 * b.e1e3) * c.e1e2e3e4 + (a.e0e1e3e4 * b.e1e4) * c.e1e2 + (a.e0e1e3e4 * b.e2e3) * c.e3e4 + (a.e0e1e3e4 * b.e2e4) * c.s - (a.e0e1e3e4 * b.e3e4) * c.e2e3 + (a.e0e1e3e4 * b.s) * c.e2e4 - (a.e0e2 * b.e1e2) * c.e2e3 - (a.e0e2 * b.e1e2e3e4) * c.e2e4 - (a.e0e2 * b.e1e3) * c.s + (a.e0e2 * b.e1e4) * c.e3e4 + (a.e0e2 * b.e2e3) * c.e1e2 - (a.e0e2 * b.e2e4) * c.e1e2e3e4 - (a.e0e2 * b.e3e4) * c.e1e4 - (a.e0e2 * b.s) * c.e1e3 - (a.e0e2e3e4 * b.e1e2) * c.e2e4 + (a.e0e2e3e4 * b.e1e2e3e4) * c.e2e3 - (a.e0e2e3e4 * b.e1e3) * c.e3e4 - (a.e0e2e3e4 * b.e1e4) * c.s + (a.e0e2e3e4 * b.e2e3) * c.e1e2e3e4 + (a.e0e2e3e4 * b.e2e4) * c.e1e2 + (a.e0e2e3e4 * b.e3e4) * c.e1e3 - (a.e0e2e3e4 * b.s) * c.e1e4 + (a.e0e3 * b.e1e2) * c.s - (a.e0e3 * b.e1e2e3e4) * c.e3e4 - (a.e0e3 * b.e1e3) * c.e2e3 - (a.e0e3 * b.e1e4) * c.e2e4 + (a.e0e3 * b.e2e3) * c.e1e3 + (a.e0e3 * b.e2e4) * c.e1e4 - (a.e0e3 * b.e3e4) * c.e1e2e3e4 + (a.e0e3 * b.s) * c.e1e2 - (a.e0e4 * b.e1e2) * c.e3e4 - (a.e0e4 * b.e1e2e3e4) * c.s + (a.e0e4 * b.e1e3) * c.e2e4 - (a.e0e4 * b.e1e4) * c.e2e3 - (a.e0e4 * b.e2e3) * c.e1e4 + (a.e0e4 * b.e2e4) * c.e1e3 - (a.e0e4 * b.e3e4) * c.e1e2 - (a.e0e4 * b.s) * c.e1e2e3e4 + (a.e1e2 * b.e0e1) * c.e1e3 - (a.e1e2 * b.e0e1e2e3) * c.e1e2 + (a.e1e2 * b.e0e1e2e4) * c.e1e2e3e4 + (a.e1e2 * b.e0e1e3e4) * c.e1e4 + (a.e1e2 * b.e0e2) * c.e2e3 + (a.e1e2 * b.e0e2e3e4) * c.e2e4 + (a.e1e2 * b.e0e3) * c.s - (a.e1e2 * b.e0e4) * c.e3e4 - (a.e1e2 * b.e1e2) * c.e0e1e2e3 - (a.e1e2 * b.e1e2e3e4) * c.e0e1e2e4 - (a.e1e2 * b.e1e3) * c.e0e1 + (a.e1e2 * b.e1e4) * c.e0e1e3e4 - (a.e1e2 * b.e2e3) * c.e0e2 + (a.e1e2 * b.e2e4) * c.e0e2e3e4 + (a.e1e2 * b.e3e4) * c.e0e4 + (a.e1e2 * b.s) * c.e0e3 + (a.e1e2e3e4 * b.e0e1) * c.e1e4 - (a.e1e2e3e4 * b.e0e1e2e3) * c.e1e2e3e4 - (a.e1e2e3e4 * b.e0e1e2e4) * c.e1e2 - (a.e1e2e3e4 * b.e0e1e3e4) * c.e1e3 + (a.e1e2e3e4 * b.e0e2) * c.e2e4 - (a.e1e2e3e4 * b.e0e2e3e4) * c.e2e3 + (a.e1e2e3e4 * b.e0e3) * c.e3e4 + (a.e1e2e3e4 * b.e0e4) * c.s - (a.e1e2e3e4 * b.e1e2) * c.e0e1e2e4 + (a.e1e2e3e4 * b.e1e2e3e4) * c.e0e1e2e3 - (a.e1e2e3e4 * b.e1e3) * c.e0e1e3e4 - (a.e1e2e3e4 * b.e1e4) * c.e0e1 - (a.e1e2e3e4 * b.e2e3) * c.e0e2e3e4 - (a.e1e2e3e4 * b.e2e4) * c.e0e2 - (a.e1e2e3e4 * b.e3e4) * c.e0e3 + (a.e1e2e3e4 * b.s) * c.e0e4 - (a.e1e3 * b.e0e1) * c.e1e2 - (a.e1e3 * b.e0e1e2e3) * c.e1e3 - (a.e1e3 * b.e0e1e2e4) * c.e1e4 + (a.e1e3 * b.e0e1e3e4) * c.e1e2e3e4 - (a.e1e3 * b.e0e2) * c.s + (a.e1e3 * b.e0e2e3e4) * c.e3e4 + (a.e1e3 * b.e0e3) * c.e2e3 + (a.e1e3 * b.e0e4) * c.e2e4 + (a.e1e3 * b.e1e2) * c.e0e1 - (a.e1e3 * b.e1e2e3e4) * c.e0e1e3e4 - (a.e1e3 * b.e1e3) * c.e0e1e2e3 - (a.e1e3 * b.e1e4) * c.e0e1e2e4 - (a.e1e3 * b.e2e3) * c.e0e3 - (a.e1e3 * b.e2e4) * c.e0e4 + (a.e1e3 * b.e3e4) * c.e0e2e3e4 - (a.e1e3 * b.s) * c.e0e2 + (a.e1e4 * b.e0e1) * c.e1e2e3e4 + (a.e1e4 * b.e0e1e2e3) * c.e1e4 - (a.e1e4 * b.e0e1e2e4) * c.e1e3 + (a.e1e4 * b.e0e1e3e4) * c.e1e2 + (a.e1e4 * b.e0e2) * c.e3e4 + (a.e1e4 * b.e0e2e3e4) * c.s - (a.e1e4 * b.e0e3) * c.e2e4 + (a.e1e4 * b.e0e4) * c.e2e3 - (a.e1e4 * b.e1e2) * c.e0e1e3e4 - (a.e1e4 * b.e1e2e3e4) * c.e0e1 + (a.e1e4 * b.e1e3) * c.e0e1e2e4 - (a.e1e4 * b.e1e4) * c.e0e1e2e3 + (a.e1e4 * b.e2e3) * c.e0e4 - (a.e1e4 * b.e2e4) * c.e0e3 + (a.e1e4 * b.e3e4) * c.e0e2 + (a.e1e4 * b.s) * c.e0e2e3e4 + (a.e2e3 * b.e0e1) * c.s - (a.e2e3 * b.e0e1e2e3) * c.e2e3 - (a.e2e3 * b.e0e1e2e4) * c.e2e4 - (a.e2e3 * b.e0e1e3e4) * c.e3e4 - (a.e2e3 * b.e0e2) * c.e1e2 + (a.e2e3 * b.e0e2e3e4) * c.e1e2e3e4 - (a.e2e3 * b.e0e3) * c.e1e3 - (a.e2e3 * b.e0e4) * c.e1e4 + (a.e2e3 * b.e1e2) * c.e0e2 - (a.e2e3 * b.e1e2e3e4) * c.e0e2e3e4 + (a.e2e3 * b.e1e3) * c.e0e3 + (a.e2e3 * b.e1e4) * c.e0e4 - (a.e2e3 * b.e2e3) * c.e0e1e2e3 - (a.e2e3 * b.e2e4) * c.e0e1e2e4 - (a.e2e3 * b.e3e4) * c.e0e1e3e4 + (a.e2e3 * b.s) * c.e0e1 - (a.e2e4 * b.e0e1) * c.e3e4 + (a.e2e4 * b.e0e1e2e3) * c.e2e4 - (a.e2e4 * b.e0e1e2e4) * c.e2e3 - (a.e2e4 * b.e0e1e3e4) * c.s + (a.e2e4 * b.e0e2) * c.e1e2e3e4 + (a.e2e4 * b.e0e2e3e4) * c.e1e2 + (a.e2e4 * b.e0e3) * c.e1e4 - (a.e2e4 * b.e0e4) * c.e1e3 - (a.e2e4 * b.e1e2) * c.e0e2e3e4 - (a.e2e4 * b.e1e2e3e4) * c.e0e2 - (a.e2e4 * b.e1e3) * c.e0e4 + (a.e2e4 * b.e1e4) * c.e0e3 + (a.e2e4 * b.e2e3) * c.e0e1e2e4 - (a.e2e4 * b.e2e4) * c.e0e1e2e3 - (a.e2e4 * b.e3e4) * c.e0e1 - (a.e2e4 * b.s) * c.e0e1e3e4 + (a.e3e4 * b.e0e1) * c.e2e4 + (a.e3e4 * b.e0e1e2e3) * c.e3e4 + (a.e3e4 * b.e0e1e2e4) * c.s - (a.e3e4 * b.e0e1e3e4) * c.e2e3 - (a.e3e4 * b.e0e2) * c.e1e4 + (a.e3e4 * b.e0e2e3e4) * c.e1e3 + (a.e3e4 * b.e0e3) * c.e1e2e3e4 + (a.e3e4 * b.e0e4) * c.e1e2 + (a.e3e4 * b.e1e2) * c.e0e4 - (a.e3e4 * b.e1e2e3e4) * c.e0e3 - (a.e3e4 * b.e1e3) * c.e0e2e3e4 - (a.e3e4 * b.e1e4) * c.e0e2 + (a.e3e4 * b.e2e3) * c.e0e1e3e4 + (a.e3e4 * b.e2e4) * c.e0e1 - (a.e3e4 * b.e3e4) * c.e0e1e2e3 + (a.e3e4 * b.s) * c.e0e1e2e4 + (a.s * b.e0e1) * c.e2e3 + (a.s * b.e0e1e2e3) * c.s - (a.s * b.e0e1e2e4) * c.e3e4 + (a.s * b.e0e1e3e4) * c.e2e4 - (a.s * b.e0e2) * c.e1e3 - (a.s * b.e0e2e3e4) * c.e1e4 + (a.s * b.e0e3) * c.e1e2 - (a.s * b.e0e4) * c.e1e2e3e4 + (a.s * b.e1e2) * c.e0e3 + (a.s * b.e1e2e3e4) * c.e0e4 - (a.s * b.e1e3) * c.e0e2 + (a.s * b.e1e4) * c.e0e2e3e4 + (a.s * b.e2e3) * c.e0e1 - (a.s * b.e2e4) * c.e0e1e3e4 + (a.s * b.e3e4) * c.e0e1e2e4 + (a.s * b.s) * c.e0e1e2e3);
    assert(l.e0e1e2e4 == (a.e0e1 * b.s - a.e0e1e2e3 * b.e2e3 - a.e0e1e2e4 * b.e2e4 - a.e0e1e3e4 * b.e3e4 - a.e0e2 * b.e1e2 + a.e0e2e3e4 * b.e1e2e3e4 - a.e0e3 * b.e1e3 - a.e0e4 * b.e1e4 + a.e1e2 * b.e0e2 - a.e1e2e3e4 * b.e0e2e3e4 + a.e1e3 * b.e0e3 + a.e1e4 * b.e0e4 - a.e2e3 * b.e0e1e2e3 - a.e2e4 * b.e0e1e2e4 - a.e3e4 * b.e0e1e3e4 + a.s * b.e0e1) * c.e2e4 + (a.e0e1 * b.e2e3 + a.e0e1e2e3 * b.s - a.e0e1e2e4 * b.e3e4 + a.e0e1e3e4 * b.e2e4 - a.e0e2 * b.e1e3 - a.e0e2e3e4 * b.e1e4 + a.e0e3 * b.e1e2 - a.e0e4 * b.e1e2e3e4 + a.e1e2 * b.e0e3 + a.e1e2e3e4 * b.e0e4 - a.e1e3 * b.e0e2 + a.e1e4 * b.e0e2e3e4 + a.e2e3 * b.e0e1 - a.e2e4 * b.e0e1e3e4 + a.e3e4 * b.e0e1e2e4 + a.s * b.e0e1e2e3) * c.e3e4 + (a.e0e1 * b.e2e4 + a.e0e1e2e3 * b.e3e4 + a.e0e1e2e4 * b.s - a.e0e1e3e4 * b.e2e3 - a.e0e2 * b.e1e4 + a.e0e2e3e4 * b.e1e3 + a.e0e3 * b.e1e2e3e4 + a.e0e4 * b.e1e2 + a.e1e2 * b.e0e4 - a.e1e2e3e4 * b.e0e3 - a.e1e3 * b.e0e2e3e4 - a.e1e4 * b.e0e2 + a.e2e3 * b.e0e1e3e4 + a.e2e4 * b.e0e1 - a.e3e4 * b.e0e1e2e3 + a.s * b.e0e1e2e4) * c.s - (a.e0e1 * b.e3e4 - a.e0e1e2e3 * b.e2e4 + a.e0e1e2e4 * b.e2e3 + a.e0e1e3e4 * b.s - a.e0e2 * b.e1e2e3e4 - a.e0e2e3e4 * b.e1e2 - a.e0e3 * b.e1e4 + a.e0e4 * b.e1e3 + a.e1e2 * b.e0e2e3e4 + a.e1e2e3e4 * b.e0e2 + a.e1e3 * b.e0e4 - a.e1e4 * b.e0e3 - a.e2e3 * b.e0e1e2e4 + a.e2e4 * b.e0e1e2e3 + a.e3e4 * b.e0e1 + a.s * b.e0e1e3e4) * c.e2e3 - (a.e0e1 * b.e1e2 + a.e0e1e2e3 * b.e1e3 + a.e0e1e2e4 * b.e1e4 - a.e0e1e3e4 * b.e1e2e3e4 + a.e0e2 * b.s - a.e0e2e3e4 * b.e3e4 - a.e0e3 * b.e2e3 - a.e0e4 * b.e2e4 - a.e1e2 * b.e0e1 + a.e1e2e3e4 * b.e0e1e3e4 + a.e1e3 * b.e0e1e2e3 + a.e1e4 * b.e0e1e2e4 + a.e2e3 * b.e0e3 + a.e2e4 * b.e0e4 - a.e3e4 * b.e0e2e3e4 + a.s * b.e0e2) * c.e1e4 + (a.e0e1 * b.e1e2e3e4 + a.e0e1e2e3 * b.e1e4 - a.e0e1e2e4 * b.e1e3 + a.e0e1e3e4 * b.e1e2 + a.e0e2 * b.e3e4 + a.e0e2e3e4 * b.s - a.e0e3 * b.e2e4 + a.e0e4 * b.e2e3 - a.e1e2 * b.e0e1e3e4 - a.e1e2e3e4 * b.e0e1 + a.e1e3 * b.e0e1e2e4 - a.e1e4 * b.e0e1e2e3 + a.e2e3 * b.e0e4 - a.e2e4 * b.e0e3 + a.e3e4 * b.e0e2 + a.s * b.e0e2e3e4) * c.e1e3 + (a.e0e1 * b.e1e3 - a.e0e1e2e3 * b.e1e2 + a.e0e1e2e4 * b.e1e2e3e4 + a.e0e1e3e4 * b.e1e4 + a.e0e2 * b.e2e3 + a.e0e2e3e4 * b.e2e4 + a.e0e3 * b.s - a.e0e4 * b.e3e4 - a.e1e2 * b.e0e1e2e3 - a.e1e2e3e4 * b.e0e1e2e4 - a.e1e3 * b.e0e1 + a.e1e4 * b.e0e1e3e4 - a.e2e3 * b.e0e2 + a.e2e4 * b.e0e2e3e4 + a.e3e4 * b.e0e4 + a.s * b.e0e3) * c.e1e2e3e4 + (a.e0e1 * b.e1e4 - a.e0e1e2e3 * b.e1e2e3e4 - a.e0e1e2e4 * b.e1e2 - a.e0e1e3e4 * b.e1e3 + a.e0e2 * b.e2e4 - a.e0e2e3e4 * b.e2e3 + a.e0e3 * b.e3e4 + a.e0e4 * b.s - a.e1e2 * b.e0e1e2e4 + a.e1e2e3e4 * b.e0e1e2e3 - a.e1e3 * b.e0e1e3e4 - a.e1e4 * b.e0e1 - a.e2e3 * b.e0e2e3e4 - a.e2e4 * b.e0e2 - a.e3e4 * b.e0e3 + a.s * b.e0e4) * c.e1e2 + (a.e1e2 * b.s - a.e1e2e3e4 * b.e3e4 - a.e1e3 * b.e2e3 - a.e1e4 * b.e2e4 + a.e2e3 * b.e1e3 + a.e2e4 * b.e1e4 - a.e3e4 * b.e1e2e3e4 + a.s * b.e1e2) * c.e0e4 - (a.e1e2 * b.e3e4 + a.e1e2e3e4 * b.s - a.e1e3 * b.e2e4 + a.e1e4 * b.e2e3 + a.e2e3 * b.e1e4 - a.e2e4 * b.e1e3 + a.e3e4 * b.e1e2 + a.s * b.e1e2e3e4) * c.e0e3 - (a.e1e2 * b.e2e3 + a.e1e2e3e4 * b.e2e4 + a.e1e3 * b.s - a.e1e4 * b.e3e4 - a.e2e3 * b.e1e2 + a.e2e4 * b.e1e2e3e4 + a.e3e4 * b.e1e4 + a.s * b.e1e3) * c.e0e2e3e4 - (a.e1e2 * b.e2e4 - a.e1e2e3e4 * b.e2e3 + a.e1e3 * b.e3e4 + a.e1e4 * b.s - a.e2e3 * b.e1e2e3e4 - a.e2e4 * b.e1e2 - a.e3e4 * b.e1e3 + a.s * b.e1e4) * c.e0e2 + (-(a.e1e2 * b.e1e3) - a.e1e2e3e4 * b.e1e4 + a.e1e3 * b.e1e2 - a.e1e4 * b.e1e2e3e4 + a.e2e3 * b.s - a.e2e4 * b.e3e4 + a.e3e4 * b.e2e4 + a.s * b.e2e3) * c.e0e1e3e4 + (-(a.e1e2 * b.e1e4) + a.e1e2e3e4 * b.e1e3 + a.e1e3 * b.e1e2e3e4 + a.e1e4 * b.e1e2 + a.e2e3 * b.e3e4 + a.e2e4 * b.s - a.e3e4 * b.e2e3 + a.s * b.e2e4) * c.e0e1 - (-(a.e1e2 * b.e1e2e3e4) - a.e1e2e3e4 * b.e1e2 - a.e1e3 * b.e1e4 + a.e1e4 * b.e1e3 - a.e2e3 * b.e2e4 + a.e2e4 * b.e2e3 + a.e3e4 * b.s + a.s * b.e3e4) * c.e0e1e2e3 + (-(a.e1e2 * b.e1e2) + a.e1e2e3e4 * b.e1e2e3e4 - a.e1e3 * b.e1e3 - a.e1e4 * b.e1e4 - a.e2e3 * b.e2e3 - a.e2e4 * b.e2e4 - a.e3e4 * b.e3e4 + a.s * b.s) * c.e0e1e2e4);
    assert(r.e0e1e2e4 == a.e0e1 * (-(b.e1e2 * c.e1e4) + b.e1e2e3e4 * c.e1e3 + b.e1e3 * c.e1e2e3e4 + b.e1e4 * c.e1e2 + b.e2e3 * c.e3e4 + b.e2e4 * c.s - b.e3e4 * c.e2e3 + b.s * c.e2e4) + a.e0e1e2e3 * (-(b.e1e2 * c.e1e2e3e4) - b.e1e2e3e4 * c.e1e2 - b.e1e3 * c.e1e4 + b.e1e4 * c.e1e3 - b.e2e3 * c.e2e4 + b.e2e4 * c.e2e3 + b.e3e4 * c.s + b.s * c.e3e4) + a.e0e1e2e4 * (-(b.e1e2 * c.e1e2) + b.e1e2e3e4 * c.e1e2e3e4 - b.e1e3 * c.e1e3 - b.e1e4 * c.e1e4 - b.e2e3 * c.e2e3 - b.e2e4 * c.e2e4 - b.e3e4 * c.e3e4 + b.s * c.s) - a.e0e1e3e4 * (-(b.e1e2 * c.e1e3) - b.e1e2e3e4 * c.e1e4 + b.e1e3 * c.e1e2 - b.e1e4 * c.e1e2e3e4 + b.e2e3 * c.s - b.e2e4 * c.e3e4 + b.e3e4 * c.e2e4 + b.s * c.e2e3) - a.e0e2 * (b.e1e2 * c.e2e4 - b.e1e2e3e4 * c.e2e3 + b.e1e3 * c.e3e4 + b.e1e4 * c.s - b.e2e3 * c.e1e2e3e4 - b.e2e4 * c.e1e2 - b.e3e4 * c.e1e3 + b.s * c.e1e4) + a.e0e2e3e4 * (b.e1e2 * c.e2e3 + b.e1e2e3e4 * c.e2e4 + b.e1e3 * c.s - b.e1e4 * c.e3e4 - b.e2e3 * c.e1e2 + b.e2e4 * c.e1e2e3e4 + b.e3e4 * c.e1e4 + b.s * c.e1e3) + a.e0e3 * (b.e1e2 * c.e3e4 + b.e1e2e3e4 * c.s - b.e1e3 * c.e2e4 + b.e1e4 * c.e2e3 + b.e2e3 * c.e1e4 - b.e2e4 * c.e1e3 + b.e3e4 * c.e1e2 + b.s * c.e1e2e3e4) + a.e0e4 * (b.e1e2 * c.s - b.e1e2e3e4 * c.e3e4 - b.e1e3 * c.e2e3 - b.e1e4 * c.e2e4 + b.e2e3 * c.e1e3 + b.e2e4 * c.e1e4 - b.e3e4 * c.e1e2e3e4 + b.s * c.e1e2) + a.e1e2 * (b.e0e1 * c.e1e4 - b.e0e1e2e3 * c.e1e2e3e4 - b.e0e1e2e4 * c.e1e2 - b.e0e1e3e4 * c.e1e3 + b.e0e2 * c.e2e4 - b.e0e2e3e4 * c.e2e3 + b.e0e3 * c.e3e4 + b.e0e4 * c.s - b.e1e2 * c.e0e1e2e4 + b.e1e2e3e4 * c.e0e1e2e3 - b.e1e3 * c.e0e1e3e4 - b.e1e4 * c.e0e1 - b.e2e3 * c.e0e2e3e4 - b.e2e4 * c.e0e2 - b.e3e4 * c.e0e3 + b.s * c.e0e4) - a.e1e2e3e4 * (b.e0e1 * c.e1e3 - b.e0e1e2e3 * c.e1e2 + b.e0e1e2e4 * c.e1e2e3e4 + b.e0e1e3e4 * c.e1e4 + b.e0e2 * c.e2e3 + b.e0e2e3e4 * c.e2e4 + b.e0e3 * c.s - b.e0e4 * c.e3e4 - b.e1e2 * c.e0e1e2e3 - b.e1e2e3e4 * c.e0e1e2e4 - b.e1e3 * c.e0e1 + b.e1e4 * c.e0e1e3e4 - b.e2e3 * c.e0e2 + b.e2e4 * c.e0e2e3e4 + b.e3e4 * c.e0e4 + b.s * c.e0e3) - a.e1e3 * (b.e0e1 * c.e1e2e3e4 + b.e0e1e2e3 * c.e1e4 - b.e0e1e2e4 * c.e1e3 + b.e0e1e3e4 * c.e1e2 + b.e0e2 * c.e3e4 + b.e0e2e3e4 * c.s - b.e0e3 * c.e2e4 + b.e0e4 * c.e2e3 - b.e1e2 * c.e0e1e3e4 - b.e1e2e3e4 * c.e0e1 + b.e1e3 * c.e0e1e2e4 - b.e1e4 * c.e0e1e2e3 + b.e2e3 * c.e0e4 - b.e2e4 * c.e0e3 + b.e3e4 * c.e0e2 + b.s * c.e0e2e3e4) - a.e1e4 * (b.e0e1 * c.e1e2 + b.e0e1e2e3 * c.e1e3 + b.e0e1e2e4 * c.e1e4 - b.e0e1e3e4 * c.e1e2e3e4 + b.e0e2 * c.s - b.e0e2e3e4 * c.e3e4 - b.e0e3 * c.e2e3 - b.e0e4 * c.e2e4 - b.e1e2 * c.e0e1 + b.e1e2e3e4 * c.e0e1e3e4 + b.e1e3 * c.e0e1e2e3 + b.e1e4 * c.e0e1e2e4 + b.e2e3 * c.e0e3 + b.e2e4 * c.e0e4 - b.e3e4 * c.e0e2e3e4 + b.s * c.e0e2) + a.e2e3 * (b.e0e1 * c.e3e4 - b.e0e1e2e3 * c.e2e4 + b.e0e1e2e4 * c.e2e3 + b.e0e1e3e4 * c.s - b.e0e2 * c.e1e2e3e4 - b.e0e2e3e4 * c.e1e2 - b.e0e3 * c.e1e4 + b.e0e4 * c.e1e3 + b.e1e2 * c.e0e2e3e4 + b.e1e2e3e4 * c.e0e2 + b.e1e3 * c.e0e4 - b.e1e4 * c.e0e3 - b.e2e3 * c.e0e1e2e4 + b.e2e4 * c.e0e1e2e3 + b.e3e4 * c.e0e1 + b.s * c.e0e1e3e4) + a.e2e4 * (b.e0e1 * c.s - b.e0e1e2e3 * c.e2e3 - b.e0e1e2e4 * c.e2e4 - b.e0e1e3e4 * c.e3e4 - b.e0e2 * c.e1e2 + b.e0e2e3e4 * c.e1e2e3e4 - b.e0e3 * c.e1e3 - b.e0e4 * c.e1e4 + b.e1e2 * c.e0e2 - b.e1e2e3e4 * c.e0e2e3e4 + b.e1e3 * c.e0e3 + b.e1e4 * c.e0e4 - b.e2e3 * c.e0e1e2e3 - b.e2e4 * c.e0e1e2e4 - b.e3e4 * c.e0e1e3e4 + b.s * c.e0e1) - a.e3e4 * (b.e0e1 * c.e2e3 + b.e0e1e2e3 * c.s - b.e0e1e2e4 * c.e3e4 + b.e0e1e3e4 * c.e2e4 - b.e0e2 * c.e1e3 - b.e0e2e3e4 * c.e1e4 + b.e0e3 * c.e1e2 - b.e0e4 * c.e1e2e3e4 + b.e1e2 * c.e0e3 + b.e1e2e3e4 * c.e0e4 - b.e1e3 * c.e0e2 + b.e1e4 * c.e0e2e3e4 + b.e2e3 * c.e0e1 - b.e2e4 * c.e0e1e3e4 + b.e3e4 * c.e0e1e2e4 + b.s * c.e0e1e2e3) + a.s * (b.e0e1 * c.e2e4 + b.e0e1e2e3 * c.e3e4 + b.e0e1e2e4 * c.s - b.e0e1e3e4 * c.e2e3 - b.e0e2 * c.e1e4 + b.e0e2e3e4 * c.e1e3 + b.e0e3 * c.e1e2e3e4 + b.e0e4 * c.e1e2 + b.e1e2 * c.e0e4 - b.e1e2e3e4 * c.e0e3 - b.e1e3 * c.e0e2e3e4 - b.e1e4 * c.e0e2 + b.e2e3 * c.e0e1e3e4 + b.e2e4 * c.e0e1 - b.e3e4 * c.e0e1e2e3 + b.s * c.e0e1e2e4));
    scale_right_transform_e0e1(a, b, c.e2e4);
    scale_right_transform_e0e1e2e3(a, b, c.e3e4);
    scale_right_transform_e0e1e2e4(a, b, c.s);
    scale_right_transform_e0e1e3e4(a, b, c.e2e3);
    scale_right_transform_e0e2(a, b, c.e1e4);
    scale_right_transform_e0e2e3e4(a, b, c.e1e3);
    scale_right_transform_e0e3(a, b, c.e1e2e3e4);
    scale_right_transform_e0e4(a, b, c.e1e2);
    scale_right_transform_e1e2(a, b, c.e0e4);
    scale_right_transform_e1e2e3e4(a, b, c.e0e3);
    scale_right_transform_e1e3(a, b, c.e0e2e3e4);
    scale_right_transform_e1e4(a, b, c.e0e2);
    scale_right_transform_e2e3(a, b, c.e0e1e3e4);
    scale_right_transform_e2e4(a, b, c.e0e1);
    scale_right_transform_e3e4(a, b, c.e0e1e2e3);
    scale_right_transform_s(a, b, c.e0e1e2e4);
    scale_left_transform_e2e4(b, c, a.e0e1);
    scale_left_transform_e3e4(b, c, a.e0e1e2e3);
    scale_left_transform_s(b, c, a.e0e1e2e4);
    scale_left_transform_e2e3(b, c, a.e0e1e3e4);
    scale_left_transform_e1e4(b, c, a.e0e2);
    scale_left_transform_e1e3(b, c, a.e0e2e3e4);
    scale_left_transform_e1e2e3e4(b, c, a.e0e3);
    scale_left_transform_e1e2(b, c, a.e0e4);
    scale_left_transform_e0e4(b, c, a.e1e2);
    scale_left_transform_e0e3(b, c, a.e1e2e3e4);
    scale_left_transform_e0e2e3e4(b, c, a.e1e3);
    scale_left_transform_e0e2(b, c, a.e1e4);
    scale_left_transform_e0e1e3e4(b, c, a.e2e3);
    scale_left_transform_e0e1(b, c, a.e2e4);
    scale_left_transform_e0e1e2e3(b, c, a.e3e4);
    scale_left_transform_e0e1e2e4(b, c, a.s);
    assert(l.e0e1e2e4 == -((a.e0e1 * b.e1e2) * c.e1e4) + (a.e0e1 * b.e1e2e3e4) * c.e1e3 + (a.e0e1 * b.e1e3) * c.e1e2e3e4 + (a.e0e1 * b.e1e4) * c.e1e2 + (a.e0e1 * b.e2e3) * c.e3e4 + (a.e0e1 * b.e2e4) * c.s - (a.e0e1 * b.e3e4) * c.e2e3 + (a.e0e1 * b.s) * c.e2e4 - (a.e0e1e2e3 * b.e1e2) * c.e1e2e3e4 - (a.e0e1e2e3 * b.e1e2e3e4) * c.e1e2 - (a.e0e1e2e3 * b.e1e3) * c.e1e4 + (a.e0e1e2e3 * b.e1e4) * c.e1e3 - (a.e0e1e2e3 * b.e2e3) * c.e2e4 + (a.e0e1e2e3 * b.e2e4) * c.e2e3 + (a.e0e1e2e3 * b.e3e4) * c.s + (a.e0e1e2e3 * b.s) * c.e3e4 - (a.e0e1e2e4 * b.e1e2) * c.e1e2 + (a.e0e1e2e4 * b.e1e2e3e4) * c.e1e2e3e4 - (a.e0e1e2e4 * b.e1e3) * c.e1e3 - (a.e0e1e2e4 * b.e1e4) * c.e1e4 - (a.e0e1e2e4 * b.e2e3) * c.e2e3 - (a.e0e1e2e4 * b.e2e4) * c.e2e4 - (a.e0e1e2e4 * b.e3e4) * c.e3e4 + (a.e0e1e2e4 * b.s) * c.s + (a.e0e1e3e4 * b.e1e2) * c.e1e3 + (a.e0e1e3e4 * b.e1e2e3e4) * c.e1e4 - (a.e0e1e3e4 * b.e1e3) * c.e1e2 + (a.e0e1e3e4 * b.e1e4) * c.e1e2e3e4 - (a.e0e1e3e4 * b.e2e3) * c.s + (a.e0e1e3e4 * b.e2e4) * c.e3e4 - (a.e0e1e3e4 * b.e3e4) * c.e2e4 - (a.e0e1e3e4 * b.s) * c.e2e3 - (a.e0e2 * b.e1e2) * c.e2e4 + (a.e0e2 * b.e1e2e3e4) * c.e2e3 - (a.e0e2 * b.e1e3) * c.e3e4 - (a.e0e2 * b.e1e4) * c.s + (a.e0e2 * b.e2e3) * c.e1e2e3e4 + (a.e0e2 * b.e2e4) * c.e1e2 + (a.e0e2 * b.e3e4) * c.e1e3 - (a.e0e2 * b.s) * c.e1e4 + (a.e0e2e3e4 * b.e1e2) * c.e2e3 + (a.e0e2e3e4 * b.e1e2e3e4) * c.e2e4 + (a.e0e2e3e4 * b.e1e3) * c.s - (a.e0e2e3e4 * b.e1e4) * c.e3e4 - (a.e0e2e3e4 * b.e2e3) * c.e1e2 + (a.e0e2e3e4 * b.e2e4) * c.e1e2e3e4 + (a.e0e2e3e4 * b.e3e4) * c.e1e4 + (a.e0e2e3e4 * b.s) * c.e1e3 + (a.e0e3 * b.e1e2) * c.e3e4 + (a.e0e3 * b.e1e2e3e4) * c.s - (a.e0e3 * b.e1e3) * c.e2e4 + (a.e0e3 * b.e1e4) * c.e2e3 + (a.e0e3 * b.e2e3) * c.e1e4 - (a.e0e3 * b.e2e4) * c.e1e3 + (a.e0e3 * b.e3e4) * c.e1e2 + (a.e0e3 * b.s) * c.e1e2e3e4 + (a.e0e4 * b.e1e2) * c.s - (a.e0e4 * b.e1e2e3e4) * c.e3e4 - (a.e0e4 * b.e1e3) * c.e2e3 - (a.e0e4 * b.e1e4) * c.e2e4 + (a.e0e4 * b.e2e3) * c.e1e3 + (a.e0e4 * b.e2e4) * c.e1e4 - (a.e0e4 * b.e3e4) * c.e1e2e3e4 + (a.e0e4 * b.s) * c.e1e2 + (a.e1e2 * b.e0e1) * c.e1e4 - (a.e1e2 * b.e0e1e2e3) * c.e1e2e3e4 - (a.e1e2 * b.e0e1e2e4) * c.e1e2 - (a.e1e2 * b.e0e1e3e4) * c.e1e3 + (a.e1e2 * b.e0e2) * c.e2e4 - (a.e1e2 * b.e0e2e3e4) * c.e2e3 + (a.e1e2 * b.e0e3) * c.e3e4 + (a.e1e2 * b.e0e4) * c.s - (a.e1e2 * b.e1e2) * c.e0e1e2e4 + (a.e1e2 * b.e1e2e3e4) * c.e0e1e2e3 - (a.e1e2 * b.e1e3) * c.e0e1e3e4 - (a.e1e2 * b.e1e4) * c.e0e1 - (a.e1e2 * b.e2e3) * c.e0e2e3e4 - (a.e1e2 * b.e2e4) * c.e0e2 - (a.e1e2 * b.e3e4) * c.e0e3 + (a.e1e2 * b.s) * c.e0e4 - (a.e1e2e3e4 * b.e0e1) * c.e1e3 + (a.e1e2e3e4 * b.e0e1e2e3) * c.e1e2 - (a.e1e2e3e4 * b.e0e1e2e4) * c.e1e2e3e4 - (a.e1e2e3e4 * b.e0e1e3e4) * c.e1e4 - (a.e1e2e3e4 * b.e0e2) * c.e2e3 - (a.e1e2e3e4 * b.e0e2e3e4) * c.e2e4 - (a.e1e2e3e4 * b.e0e3) * c.s + (a.e1e2e3e4 * b.e0e4) * c.e3e4 + (a.e1e2e3e4 * b.e1e2) * c.e0e1e2e3 + (a.e1e2e3e4 * b.e1e2e3e4) * c.e0e1e2e4 + (a.e1e2e3e4 * b.e1e3) * c.e0e1 - (a.e1e2e3e4 * b.e1e4) * c.e0e1e3e4 + (a.e1e2e3e4 * b.e2e3) * c.e0e2 - (a.e1e2e3e4 * b.e2e4) * c.e0e2e3e4 - (a.e1e2e3e4 * b.e3e4) * c.e0e4 - (a.e1e2e3e4 * b.s) * c.e0e3 - (a.e1e3 * b.e0e1) * c.e1e2e3e4 - (a.e1e3 * b.e0e1e2e3) * c.e1e4 + (a.e1e3 * b.e0e1e2e4) * c.e1e3 - (a.e1e3 * b.e0e1e3e4) * c.e1e2 - (a.e1e3 * b.e0e2) * c.e3e4 - (a.e1e3 * b.e0e2e3e4) * c.s + (a.e1e3 * b.e0e3) * c.e2e4 - (a.e1e3 * b.e0e4) * c.e2e3 + (a.e1e3 * b.e1e2) * c.e0e1e3e4 + (a.e1e3 * b.e1e2e3e4) * c.e0e1 - (a.e1e3 * b.e1e3) * c.e0e1e2e4 + (a.e1e3 * b.e1e4) * c.e0e1e2e3 - (a.e1e3 * b.e2e3) * c.e0e4 + (a.e1e3 * b.e2e4) * c.e0e3 - (a.e1e3 * b.e3e4) * c.e0e2 - (a.e1e3 * b.s) * c.e0e2e3e4 - (a.e1e4 * b.e0e1) * c.e1e2 - (a.e1e4 * b.e0e1e2e3) * c.e1e3 - (a.e1e4 * b.e0e1e2e4) * c.e1e4 + (a.e1e4 * b.e0e1e3e4) * c.e1e2e3e4 - (a.e1e4 * b.e0e2) * c.s + (a.e1e4 * b.e0e2e3e4) * c.e3e4 + (a.e1e4 * b.e0e3) * c.e2e3 + (a.e1e4 * b.e0e4) * c.e2e4 + (a.e1e4 * b.e1e2) * c.e0e1 - (a.e1e4 * b.e1e2e3e4) * c.e0e1e3e4 - (a.e1e4 * b.e1e3) * c.e0e1e2e3 - (a.e1e4 * b.e1e4) * c.e0e1e2e4 - (a.e1e4 * b.e2e3) * c.e0e3 - (a.e1e4 * b.e2e4) * c.e0e4 + (a.e1e4 * b.e3e4) * c.e0e2e3e4 - (a.e1e4 * b.s) * c.e0e2 + (a.e2e3 * b.e0e1) * c.e3e4 - (a.e2e3 * b.e0e1e2e3) * c.e2e4 + (a.e2e3 * b.e0e1e2e4) * c.e2e3 + (a.e2e3 * b.e0e1e3e4) * c.s - (a.e2e3 * b.e0e2) * c.e1e2e3e4 - (a.e2e3 * b.e0e2e3e4) * c.e1e2 - (a.e2e3 * b.e0e3) * c.e1e4 + (a.e2e3 * b.e0e4) * c.e1e3 + (a.e2e3 * b.e1e2) * c.e0e2e3e4 + (a.e2e3 * b.e1e2e3e4) * c.e0e2 + (a.e2e3 * b.e1e3) * c.e0e4 - (a.e2e3 * b.e1e4) * c.e0e3 - (a.e2e3 * b.e2e3) * c.e0e1e2e4 + (a.e2e3 * b.e2e4) * c.e0e1e2e3 + (a.e2e3 * b.e3e4) * c.e0e1 + (a.e2e3 * b.s) * c.e0e1e3e4 + (a.e2e4 * b.e0e1) * c.s - (a.e2e4 * b.e0e1e2e3) * c.e2e3 - (a.e2e4 * b.e0e1e2e4) * c.e2e4 - (a.e2e4 * b.e0e1e3e4) * c.e3e4 - (a.e2e4 * b.e0e2) * c.e1e2 + (a.e2e4 * b.e0e2e3e4) * c.e1e2e3e4 - (a.e2e4 * b.e0e3) * c.e1e3 - (a.e2e4 * b.e0e4) * c.e1e4 + (a.e2e4 * b.e1e2) * c.e0e2 - (a.e2e4 * b.e1e2e3e4) * c.e0e2e3e4 + (a.e2e4 * b.e1e3) * c.e0e3 + (a.e2e4 * b.e1e4) * c.e0e4 - (a.e2e4 * b.e2e3) * c.e0e1e2e3 - (a.e2e4 * b.e2e4) * c.e0e1e2e4 - (a.e2e4 * b.e3e4) * c.e0e1e3e4 + (a.e2e4 * b.s) * c.e0e1 - (a.e3e4 * b.e0e1) * c.e2e3 - (a.e3e4 * b.e0e1e2e3) * c.s + (a.e3e4 * b.e0e1e2e4) * c.e3e4 - (a.e3e4 * b.e0e1e3e4) * c.e2e4 + (a.e3e4 * b.e0e2) * c.e1e3 + (a.e3e4 * b.e0e2e3e4) * c.e1e4 - (a.e3e4 * b.e0e3) * c.e1e2 + (a.e3e4 * b.e0e4) * c.e1e2e3e4 - (a.e3e4 * b.e1e2) * c.e0e3 - (a.e3e4 * b.e1e2e3e4) * c.e0e4 + (a.e3e4 * b.e1e3) * c.e0e2 - (a.e3e4 * b.e1e4) * c.e0e2e3e4 - (a.e3e4 * b.e2e3) * c.e0e1 + (a.e3e4 * b.e2e4) * c.e0e1e3e4 - (a.e3e4 * b.e3e4) * c.e0e1e2e4 - (a.e3e4 * b.s) * c.e0e1e2e3 + (a.s * b.e0e1) * c.e2e4 + (a.s * b.e0e1e2e3) * c.e3e4 + (a.s * b.e0e1e2e4) * c.s - (a.s * b.e0e1e3e4) * c.e2e3 - (a.s * b.e0e2) * c.e1e4 + (a.s * b.e0e2e3e4) * c.e1e3 + (a.s * b.e0e3) * c.e1e2e3e4 + (a.s * b.e0e4) * c.e1e2 + (a.s * b.e1e2) * c.e0e4 - (a.s * b.e1e2e3e4) * c.e0e3 - (a.s * b.e1e3) * c.e0e2e3e4 - (a.s * b.e1e4) * c.e0e2 + (a.s * b.e2e3) * c.e0e1e3e4 + (a.s * b.e2e4) * c.e0e1 - (a.s * b.e3e4) * c.e0e1e2e3 + (a.s * b.s) * c.e0e1e2e4);
    assert(r.e0e1e2e4 == -((a.e0e1 * b.e1e2) * c.e1e4) + (a.e0e1 * b.e1e2e3e4) * c.e1e3 + (a.e0e1 * b.e1e3) * c.e1e2e3e4 + (a.e0e1 * b.e1e4) * c.e1e2 + (a.e0e1 * b.e2e3) * c.e3e4 + (a.e0e1 * b.e2e4) * c.s - (a.e0e1 * b.e3e4) * c.e2e3 + (a.e0e1 * b.s) * c.e2e4 - (a.e0e1e2e3 * b.e1e2) * c.e1e2e3e4 - (a.e0e1e2e3 * b.e1e2e3e4) * c.e1e2 - (a.e0e1e2e3 * b.e1e3) * c.e1e4 + (a.e0e1e2e3 * b.e1e4) * c.e1e3 - (a.e0e1e2e3 * b.e2e3) * c.e2e4 + (a.e0e1e2e3 * b.e2e4) * c.e2e3 + (a.e0e1e2e3 * b.e3e4) * c.s + (a.e0e1e2e3 * b.s) * c.e3e4 - (a.e0e1e2e4 * b.e1e2) * c.e1e2 + (a.e0e1e2e4 * b.e1e2e3e4) * c.e1e2e3e4 - (a.e0e1e2e4 * b.e1e3) * c.e1e3 - (a.e0e1e2e4 * b.e1e4) * c.e1e4 - (a.e0e1e2e4 * b.e2e3) * c.e2e3 - (a.e0e1e2e4 * b.e2e4) * c.e2e4 - (a.e0e1e2e4 * b.e3e4) * c.e3e4 + (a.e0e1e2e4 * b.s) * c.s + (a.e0e1e3e4 * b.e1e2) * c.e1e3 + (a.e0e1e3e4 * b.e1e2e3e4) * c.e1e4 - (a.e0e1e3e4 * b.e1e3) * c.e1e2 + (a.e0e1e3e4 * b.e1e4) * c.e1e2e3e4 - (a.e0e1e3e4 * b.e2e3) * c.s + (a.e0e1e3e4 * b.e2e4) * c.e3e4 - (a.e0e1e3e4 * b.e3e4) * c.e2e4 - (a.e0e1e3e4 * b.s) * c.e2e3 - (a.e0e2 * b.e1e2) * c.e2e4 + (a.e0e2 * b.e1e2e3e4) * c.e2e3 - (a.e0e2 * b.e1e3) * c.e3e4 - (a.e0e2 * b.e1e4) * c.s + (a.e0e2 * b.e2e3) * c.e1e2e3e4 + (a.e0e2 * b.e2e4) * c.e1e2 + (a.e0e2 * b.e3e4) * c.e1e3 - (a.e0e2 * b.s) * c.e1e4 + (a.e0e2e3e4 * b.e1e2) * c.e2e3 + (a.e0e2e3e4 * b.e1e2e3e4) * c.e2e4 + (a.e0e2e3e4 * b.e1e3) * c.s - (a.e0e2e3e4 * b.e1e4) * c.e3e4 - (a.e0e2e3e4 * b.e2e3) * c.e1e2 + (a.e0e2e3e4 * b.e2e4) * c.e1e2e3e4 + (a.e0e2e3e4 * b.e3e4) * c.e1e4 + (a.e0e2e3e4 * b.s) * c.e1e3 + (a.e0e3 * b.e1e2) * c.e3e4 + (a.e0e3 * b.e1e2e3e4) * c.s - (a.e0e3 * b.e1e3) * c.e2e4 + (a.e0e3 * b.e1e4) * c.e2e3 + (a.e0e3 * b.e2e3) * c.e1e4 - (a.e0e3 * b.e2e4) * c.e1e3 + (a.e0e3 * b.e3e4) * c.e1e2 + (a.e0e3 * b.s) * c.e1e2e3e4 + (a.e0e4 * b.e1e2) * c.s - (a.e0e4 * b.e1e2e3e4) * c.e3e4 - (a.e0e4 * b.e1e3) * c.e2e3 - (a.e0e4 * b.e1e4) * c.e2e4 + (a.e0e4 * b.e2e3) * c.e1e3 + (a.e0e4 * b.e2e4) * c.e1e4 - (a.e0e4 * b.e3e4) * c.e1e2e3e4 + (a.e0e4 * b.s) * c.e1e2 + (a.e1e2 * b.e0e1) * c.e1e4 - (a.e1e2 * b.e0e1e2e3) * c.e1e2e3e4 - (a.e1e2 * b.e0e1e2e4) * c.e1e2 - (a.e1e2 * b.e0e1e3e4) * c.e1e3 + (a.e1e2 * b.e0e2) * c.e2e4 - (a.e1e2 * b.e0e2e3e4) * c.e2e3 + (a.e1e2 * b.e0e3) * c.e3e4 + (a.e1e2 * b.e0e4) * c.s - (a.e1e2 * b.e1e2) * c.e0e1e2e4 + (a.e1e2 * b.e1e2e3e4) * c.e0e1e2e3 - (a.e1e2 * b.e1e3) * c.e0e1e3e4 - (a.e1e2 * b.e1e4) * c.e0e1 - (a.e1e2 * b.e2e3) * c.e0e2e3e4 - (a.e1e2 * b.e2e4) * c.e0e2 - (a.e1e2 * b.e3e4) * c.e0e3 + (a.e1e2 * b.s) * c.e0e4 - (a.e1e2e3e4 * b.e0e1) * c.e1e3 + (a.e1e2e3e4 * b.e0e1e2e3) * c.e1e2 - (a.e1e2e3e4 * b.e0e1e2e4) * c.e1e2e3e4 - (a.e1e2e3e4 * b.e0e1e3e4) * c.e1e4 - (a.e1e2e3e4 * b.e0e2) * c.e2e3 - (a.e1e2e3e4 * b.e0e2e3e4) * c.e2e4 - (a.e1e2e3e4 * b.e0e3) * c.s + (a.e1e2e3e4 * b.e0e4) * c.e3e4 + (a.e1e2e3e4 * b.e1e2) * c.e0e1e2e3 + (a.e1e2e3e4 * b.e1e2e3e4) * c.e0e1e2e4 + (a.e1e2e3e4 * b.e1e3) * c.e0e1 - (a.e1e2e3e4 * b.e1e4) * c.e0e1e3e4 + (a.e1e2e3e4 * b.e2e3) * c.e0e2 - (a.e1e2e3e4 * b.e2e4) * c.e0e2e3e4 - (a.e1e2e3e4 * b.e3e4) * c.e0e4 - (a.e1e2e3e4 * b.s) * c.e0e3 - (a.e1e3 * b.e0e1) * c.e1e2e3e4 - (a.e1e3 * b.e0e1e2e3) * c.e1e4 + (a.e1e3 * b.e0e1e2e4) * c.e1e3 - (a.e1e3 * b.e0e1e3e4) * c.e1e2 - (a.e1e3 * b.e0e2) * c.e3e4 - (a.e1e3 * b.e0e2e3e4) * c.s + (a.e1e3 * b.e0e3) * c.e2e4 - (a.e1e3 * b.e0e4) * c.e2e3 + (a.e1e3 * b.e1e2) * c.e0e1e3e4 + (a.e1e3 * b.e1e2e3e4) * c.e0e1 - (a.e1e3 * b.e1e3) * c.e0e1e2e4 + (a.e1e3 * b.e1e4) * c.e0e1e2e3 - (a.e1e3 * b.e2e3) * c.e0e4 + (a.e1e3 * b.e2e4) * c.e0e3 - (a.e1e3 * b.e3e4) * c.e0e2 - (a.e1e3 * b.s) * c.e0e2e3e4 - (a.e1e4 * b.e0e1) * c.e1e2 - (a.e1e4 * b.e0e1e2e3) * c.e1e3 - (a.e1e4 * b.e0e1e2e4) * c.e1e4 + (a.e1e4 * b.e0e1e3e4) * c.e1e2e3e4 - (a.e1e4 * b.e0e2) * c.s + (a.e1e4 * b.e0e2e3e4) * c.e3e4 + (a.e1e4 * b.e0e3) * c.e2e3 + (a.e1e4 * b.e0e4) * c.e2e4 + (a.e1e4 * b.e1e2) * c.e0e1 - (a.e1e4 * b.e1e2e3e4) * c.e0e1e3e4 - (a.e1e4 * b.e1e3) * c.e0e1e2e3 - (a.e1e4 * b.e1e4) * c.e0e1e2e4 - (a.e1e4 * b.e2e3) * c.e0e3 - (a.e1e4 * b.e2e4) * c.e0e4 + (a.e1e4 * b.e3e4) * c.e0e2e3e4 - (a.e1e4 * b.s) * c.e0e2 + (a.e2e3 * b.e0e1) * c.e3e4 - (a.e2e3 * b.e0e1e2e3) * c.e2e4 + (a.e2e3 * b.e0e1e2e4) * c.e2e3 + (a.e2e3 * b.e0e1e3e4) * c.s - (a.e2e3 * b.e0e2) * c.e1e2e3e4 - (a.e2e3 * b.e0e2e3e4) * c.e1e2 - (a.e2e3 * b.e0e3) * c.e1e4 + (a.e2e3 * b.e0e4) * c.e1e3 + (a.e2e3 * b.e1e2) * c.e0e2e3e4 + (a.e2e3 * b.e1e2e3e4) * c.e0e2 + (a.e2e3 * b.e1e3) * c.e0e4 - (a.e2e3 * b.e1e4) * c.e0e3 - (a.e2e3 * b.e2e3) * c.e0e1e2e4 + (a.e2e3 * b.e2e4) * c.e0e1e2e3 + (a.e2e3 * b.e3e4) * c.e0e1 + (a.e2e3 * b.s) * c.e0e1e3e4 + (a.e2e4 * b.e0e1) * c.s - (a.e2e4 * b.e0e1e2e3) * c.e2e3 - (a.e2e4 * b.e0e1e2e4) * c.e2e4 - (a.e2e4 * b.e0e1e3e4) * c.e3e4 - (a.e2e4 * b.e0e2) * c.e1e2 + (a.e2e4 * b.e0e2e3e4) * c.e1e2e3e4 - (a.e2e4 * b.e0e3) * c.e1e3 - (a.e2e4 * b.e0e4) * c.e1e4 + (a.e2e4 * b.e1e2) * c.e0e2 - (a.e2e4 * b.e1e2e3e4) * c.e0e2e3e4 + (a.e2e4 * b.e1e3) * c.e0e3 + (a.e2e4 * b.e1e4) * c.e0e4 - (a.e2e4 * b.e2e3) * c.e0e1e2e3 - (a.e2e4 * b.e2e4) * c.e0e1e2e4 - (a.e2e4 * b.e3e4) * c.e0e1e3e4 + (a.e2e4 * b.s) * c.e0e1 - (a.e3e4 * b.e0e1) * c.e2e3 - (a.e3e4 * b.e0e1e2e3) * c.s + (a.e3e4 * b.e0e1e2e4) * c.e3e4 - (a.e3e4 * b.e0e1e3e4) * c.e2e4 + (a.e3e4 * b.e0e2) * c.e1e3 + (a.e3e4 * b.e0e2e3e4) * c.e1e4 - (a.e3e4 * b.e0e3) * c.e1e2 + (a.e3e4 * b.e0e4) * c.e1e2e3e4 - (a.e3e4 * b.e1e2) * c.e0e3 - (a.e3e4 * b.e1e2e3e4) * c.e0e4 + (a.e3e4 * b.e1e3) * c.e0e2 - (a.e3e4 * b.e1e4) * c.e0e2e3e4 - (a.e3e4 * b.e2e3) * c.e0e1 + (a.e3e4 * b.e2e4) * c.e0e1e3e4 - (a.e3e4 * b.e3e4) * c.e0e1e2e4 - (a.e3e4 * b.s) * c.e0e1e2e3 + (a.s * b.e0e1) * c.e2e4 + (a.s * b.e0e1e2e3) * c.e3e4 + (a.s * b.e0e1e2e4) * c.s - (a.s * b.e0e1e3e4) * c.e2e3 - (a.s * b.e0e2) * c.e1e4 + (a.s * b.e0e2e3e4) * c.e1e3 + (a.s * b.e0e3) * c.e1e2e3e4 + (a.s * b.e0e4) * c.e1e2 + (a.s * b.e1e2) * c.e0e4 - (a.s * b.e1e2e3e4) * c.e0e3 - (a.s * b.e1e3) * c.e0e2e3e4 - (a.s * b.e1e4) * c.e0e2 + (a.s * b.e2e3) * c.e0e1e3e4 + (a.s * b.e2e4) * c.e0e1 - (a.s * b.e3e4) * c.e0e1e2e3 + (a.s * b.s) * c.e0e1e2e4);
    assert(l.e0e1e3e4 == (a.e0e1 * b.s - a.e0e1e2e3 * b.e2e3 - a.e0e1e2e4 * b.e2e4 - a.e0e1e3e4 * b.e3e4 - a.e0e2 * b.e1e2 + a.e0e2e3e4 * b.e1e2e3e4 - a.e0e3 * b.e1e3 - a.e0e4 * b.e1e4 + a.e1e2 * b.e0e2 - a.e1e2e3e4 * b.e0e2e3e4 + a.e1e3 * b.e0e3 + a.e1e4 * b.e0e4 - a.e2e3 * b.e0e1e2e3 - a.e2e4 * b.e0e1e2e4 - a.e3e4 * b.e0e1e3e4 + a.s * b.e0e1) * c.e3e4 - (a.e0e1 * b.e2e3 + a.e0e1e2e3 * b.s - a.e0e1e2e4 * b.e3e4 + a.e0e1e3e4 * b.e2e4 - a.e0e2 * b.e1e3 - a.e0e2e3e4 * b.e1e4 + a.e0e3 * b.e1e2 - a.e0e4 * b.e1e2e3e4 + a.e1e2 * b.e0e3 + a.e1e2e3e4 * b.e0e4 - a.e1e3 * b.e0e2 + a.e1e4 * b.e0e2e3e4 + a.e2e3 * b.e0e1 - a.e2e4 * b.e0e1e3e4 + a.e3e4 * b.e0e1e2e4 + a.s * b.e0e1e2e3) * c.e2e4 + (a.e0e1 * b.e2e4 + a.e0e1e2e3 * b.e3e4 + a.e0e1e2e4 * b.s - a.e0e1e3e4 * b.e2e3 - a.e0e2 * b.e1e4 + a.e0e2e3e4 * b.e1e3 + a.e0e3 * b.e1e2e3e4 + a.e0e4 * b.e1e2 + a.e1e2 * b.e0e4 - a.e1e2e3e4 * b.e0e3 - a.e1e3 * b.e0e2e3e4 - a.e1e4 * b.e0e2 + a.e2e3 * b.e0e1e3e4 + a.e2e4 * b.e0e1 - a.e3e4 * b.e0e1e2e3 + a.s * b.e0e1e2e4) * c.e2e3 + (a.e0e1 * b.e3e4 - a.e0e1e2e3 * b.e2e4 + a.e0e1e2e4 * b.e2e3 + a.e0e1e3e4 * b.s - a.e0e2 * b.e1e2e3e4 - a.e0e2e3e4 * b.e1e2 - a.e0e3 * b.e1e4 + a.e0e4 * b.e1e3 + a.e1e2 * b.e0e2e3e4 + a.e1e2e3e4 * b.e0e2 + a.e1e3 * b.e0e4 - a.e1e4 * b.e0e3 - a.e2e3 * b.e0e1e2e4 + a.e2e4 * b.e0e1e2e3 + a.e3e4 * b.e0e1 + a.s * b.e0e1e3e4) * c.s - (a.e0e1 * b.e1e2 + a.e0e1e2e3 * b.e1e3 + a.e0e1e2e4 * b.e1e4 - a.e0e1e3e4 * b.e1e2e3e4 + a.e0e2 * b.s - a.e0e2e3e4 * b.e3e4 - a.e0e3 * b.e2e3 - a.e0e4 * b.e2e4 - a.e1e2 * b.e0e1 + a.e1e2e3e4 * b.e0e1e3e4 + a.e1e3 * b.e0e1e2e3 + a.e1e4 * b.e0e1e2e4 + a.e2e3 * b.e0e3 + a.e2e4 * b.e0e4 - a.e3e4 * b.e0e2e3e4 + a.s * b.e0e2) * c.e1e2e3e4 - (a.e0e1 * b.e1e2e3e4 + a.e0e1e2e3 * b.e1e4 - a.e0e1e2e4 * b.e1e3 + a.e0e1e3e4 * b.e1e2 + a.e0e2 * b.e3e4 + a.e0e2e3e4 * b.s - a.e0e3 * b.e2e4 + a.e0e4 * b.e2e3 - a.e1e2 * b.e0e1e3e4 - a.e1e2e3e4 * b.e0e1 + a.e1e3 * b.e0e1e2e4 - a.e1e4 * b.e0e1e2e3 + a.e2e3 * b.e0e4 - a.e2e4 * b.e0e3 + a.e3e4 * b.e0e2 + a.s * b.e0e2e3e4) * c.e1e2 - (a.e0e1 * b.e1e3 - a.e0e1e2e3 * b.e1e2 + a.e0e1e2e4 * b.e1e2e3e4 + a.e0e1e3e4 * b.e1e4 + a.e0e2 * b.e2e3 + a.e0e2e3e4 * b.e2e4 + a.e0e3 * b.s - a.e0e4 * b.e3e4 - a.e1e2 * b.e0e1e2e3 - a.e1e2e3e4 * b.e0e1e2e4 - a.e1e3 * b.e0e1 + a.e1e4 * b.e0e1e3e4 - a.e2e3 * b.e0e2 + a.e2e4 * b.e0e2e3e4 + a.e3e4 * b.e0e4 + a.s * b.e0e3) * c.e1e4 + (a.e0e1 * b.e1e4 - a.e0e1e2e3 * b.e1e2e3e4 - a.e0e1e2e4 * b.e1e2 - a.e0e1e3e4 * b.e1e3 + a.e0e2 * b.e2e4 - a.e0e2e3e4 * b.e2e3 + a.e0e3 * b.e3e4 + a.e0e4 * b.s - a.e1e2 * b.e0e1e2e4 + a.e1e2e3e4 * b.e0e1e2e3 - a.e1e3 * b.e0e1e3e4 - a.e1e4 * b.e0e1 - a.e2e3 * b.e0e2e3e4 - a.e2e4 * b.e0e2 - a.e3e4 * b.e0e3 + a.s * b.e0e4) * c.e1e3 + (a.e1e2 * b.s - a.e1e2e3e4 * b.e3e4 - a.e1e3 * b.e2e3 - a.e1e4 * b.e2e4 + a.e2e3 * b.e1e3 + a.e2e4 * b.e1e4 - a.e3e4 * b.e1e2e3e4 + a.s * b.e1e2) * c.e0e2e3e4 + (a.e1e2 * b.e3e4 + a.e1e2e3e4 * b.s - a.e1e3 * b.e2e4 + a.e1e4 * b.e2e3 + a.e2e3 * b.e1e4 - a.e2e4 * b.e1e3 + a.e3e4 * b.e1e2 + a.s * b.e1e2e3e4) * c.e0e2 + (a.e1e2 * b.e2e3 + a.e1e2e3e4 * b.e2e4 + a.e1e3 * b.s - a.e1e4 * b.e3e4 - a.e2e3 * b.e1e2 + a.e2e4 * b.e1e2e3e4 + a.e3e4 * b.e1e4 + a.s * b.e1e3) * c.e0e4 - (a.e1e2 * b.e2e4 - a.e1e2e3e4 * b.e2e3 + a.e1e3 * b.e3e4 + a.e1e4 * b.s - a.e2e3 * b.e1e2e3e4 - a.e2e4 * b.e1e2 - a.e3e4 * b.e1e3 + a.s * b.e1e4) * c.e0e3 - (-(a.e1e2 * b.e1e3) - a.e1e2e3e4 * b.e1e4 + a.e1e3 * b.e1e2 - a.e1e4 * b.e1e2e3e4 + a.e2e3 * b.s - a.e2e4 * b.e3e4 + a.e3e4 * b.e2e4 + a.s * b.e2e3) * c.e0e1e2e4 + (-(a.e1e2 * b.e1e4) + a.e1e2e3e4 * b.e1e3 + a.e1e3 * b.e1e2e3e4 + a.e1e4 * b.e1e2 + a.e2e3 * b.e3e4 + a.e2e4 * b.s - a.e3e4 * b.e2e3 + a.s * b.e2e4) * c.e0e1e2e3 + (-(a.e1e2 * b.e1e2e3e4) - a.e1e2e3e4 * b.e1e2 - a.e1e3 * b.e1e4 + a.e1e4 * b.e1e3 - a.e2e3 * b.e2e4 + a.e2e4 * b.e2e3 + a.e3e4 * b.s + a.s * b.e3e4) * c.e0e1 + (-(a.e1e2 * b.e1e2) + a.e1e2e3e4 * b.e1e2e3e4 - a.e1e3 * b.e1e3 - a.e1e4 * b.e1e4 - a.e2e3 * b.e2e3 - a.e2e4 * b.e2e4 - a.e3e4 * b.e3e4 + a.s * b.s) * c.e0e1e3e4);
    assert(r.e0e1e3e4 == a.e0e1 * (-(b.e1e2 * c.e1e2e3e4) - b.e1e2e3e4 * c.e1e2 - b.e1e3 * c.e1e4 + b.e1e4 * c.e1e3 - b.e2e3 * c.e2e4 + b.e2e4 * c.e2e3 + b.e3e4 * c.s + b.s * c.e3e4) - a.e0e1e2e3 * (-(b.e1e2 * c.e1e4) + b.e1e2e3e4 * c.e1e3 + b.e1e3 * c.e1e2e3e4 + b.e1e4 * c.e1e2 + b.e2e3 * c.e3e4 + b.e2e4 * c.s - b.e3e4 * c.e2e3 + b.s * c.e2e4) + a.e0e1e2e4 * (-(b.e1e2 * c.e1e3) - b.e1e2e3e4 * c.e1e4 + b.e1e3 * c.e1e2 - b.e1e4 * c.e1e2e3e4 + b.e2e3 * c.s - b.e2e4 * c.e3e4 + b.e3e4 * c.e2e4 + b.s * c.e2e3) + a.e0e1e3e4 * (-(b.e1e2 * c.e1e2) + b.e1e2e3e4 * c.e1e2e3e4 - b.e1e3 * c.e1e3 - b.e1e4 * c.e1e4 - b.e2e3 * c.e2e3 - b.e2e4 * c.e2e4 - b.e3e4 * c.e3e4 + b.s * c.s) - a.e0e2 * (b.e1e2 * c.e3e4 + b.e1e2e3e4 * c.s - b.e1e3 * c.e2e4 + b.e1e4 * c.e2e3 + b.e2e3 * c.e1e4 - b.e2e4 * c.e1e3 + b.e3e4 * c.e1e2 + b.s * c.e1e2e3e4) - a.e0e2e3e4 * (b.e1e2 * c.s - b.e1e2e3e4 * c.e3e4 - b.e1e3 * c.e2e3 - b.e1e4 * c.e2e4 + b.e2e3 * c.e1e3 + b.e2e4 * c.e1e4 - b.e3e4 * c.e1e2e3e4 + b.s * c.e1e2) - a.e0e3 * (b.e1e2 * c.e2e4 - b.e1e2e3e4 * c.e2e3 + b.e1e3 * c.e3e4 + b.e1e4 * c.s - b.e2e3 * c.e1e2e3e4 - b.e2e4 * c.e1e2 - b.e3e4 * c.e1e3 + b.s * c.e1e4) + a.e0e4 * (b.e1e2 * c.e2e3 + b.e1e2e3e4 * c.e2e4 + b.e1e3 * c.s - b.e1e4 * c.e3e4 - b.e2e3 * c.e1e2 + b.e2e4 * c.e1e2e3e4 + b.e3e4 * c.e1e4 + b.s * c.e1e3) + a.e1e2 * (b.e0e1 * c.e1e2e3e4 + b.e0e1e2e3 * c.e1e4 - b.e0e1e2e4 * c.e1e3 + b.e0e1e3e4 * c.e1e2 + b.e0e2 * c.e3e4 + b.e0e2e3e4 * c.s - b.e0e3 * c.e2e4 + b.e0e4 * c.e2e3 - b.e1e2 * c.e0e1e3e4 - b.e1e2e3e4 * c.e0e1 + b.e1e3 * c.e0e1e2e4 - b.e1e4 * c.e0e1e2e3 + b.e2e3 * c.e0e4 - b.e2e4 * c.e0e3 + b.e3e4 * c.e0e2 + b.s * c.e0e2e3e4) + a.e1e2e3e4 * (b.e0e1 * c.e1e2 + b.e0e1e2e3 * c.e1e3 + b.e0e1e2e4 * c.e1e4 - b.e0e1e3e4 * c.e1e2e3e4 + b.e0e2 * c.s - b.e0e2e3e4 * c.e3e4 - b.e0e3 * c.e2e3 - b.e0e4 * c.e2e4 - b.e1e2 * c.e0e1 + b.e1e2e3e4 * c.e0e1e3e4 + b.e1e3 * c.e0e1e2e3 + b.e1e4 * c.e0e1e2e4 + b.e2e3 * c.e0e3 + b.e2e4 * c.e0e4 - b.e3e4 * c.e0e2e3e4 + b.s * c.e0e2) + a.e1e3 * (b.e0e1 * c.e1e4 - b.e0e1e2e3 * c.e1e2e3e4 - b.e0e1e2e4 * c.e1e2 - b.e0e1e3e4 * c.e1e3 + b.e0e2 * c.e2e4 - b.e0e2e3e4 * c.e2e3 + b.e0e3 * c.e3e4 + b.e0e4 * c.s - b.e1e2 * c.e0e1e2e4 + b.e1e2e3e4 * c.e0e1e2e3 - b.e1e3 * c.e0e1e3e4 - b.e1e4 * c.e0e1 - b.e2e3 * c.e0e2e3e4 - b.e2e4 * c.e0e2 - b.e3e4 * c.e0e3 + b.s * c.e0e4) - a.e1e4 * (b.e0e1 * c.e1e3 - b.e0e1e2e3 * c.e1e2 + b.e0e1e2e4 * c.e1e2e3e4 + b.e0e1e3e4 * c.e1e4 + b.e0e2 * c.e2e3 + b.e0e2e3e4 * c.e2e4 + b.e0e3 * c.s - b.e0e4 * c.e3e4 - b.e1e2 * c.e0e1e2e3 - b.e1e2e3e4 * c.e0e1e2e4 - b.e1e3 * c.e0e1 + b.e1e4 * c.e0e1e3e4 - b.e2e3 * c.e0e2 + b.e2e4 * c.e0e2e3e4 + b.e3e4 * c.e0e4 + b.s * c.e0e3) - a.e2e3 * (b.e0e1 * c.e2e4 + b.e0e1e2e3 * c.e3e4 + b.e0e1e2e4 * c.s - b.e0e1e3e4 * c.e2e3 - b.e0e2 * c.e1e4 + b.e0e2e3e4 * c.e1e3 + b.e0e3 * c.e1e2e3e4 + b.e0e4 * c.e1e2 + b.e1e2 * c.e0e4 - b.e1e2e3e4 * c.e0e3 - b.e1e3 * c.e0e2e3e4 - b.e1e4 * c.e0e2 + b.e2e3 * c.e0e1e3e4 + b.e2e4 * c.e0e1 - b.e3e4 * c.e0e1e2e3 + b.s * c.e0e1e2e4) + a.e2e4 * (b.e0e1 * c.e2e3 + b.e0e1e2e3 * c.s - b.e0e1e2e4 * c.e3e4 + b.e0e1e3e4 * c.e2e4 - b.e0e2 * c.e1e3 - b.e0e2e3e4 * c.e1e4 + b.e0e3 * c.e1e2 - b.e0e4 * c.e1e2e3e4 + b.e1e2 * c.e0e3 + b.e1e2e3e4 * c.e0e4 - b.e1e3 * c.e0e2 + b.e1e4 * c.e0e2e3e4 + b.e2e3 * c.e0e1 - b.e2e4 * c.e0e1e3e4 + b.e3e4 * c.e0e1e2e4 + b.s * c.e0e1e2e3) + a.e3e4 * (b.e0e1 * c.s - b.e0e1e2e3 * c.e2e3 - b.e0e1e2e4 * c.e2e4 - b.e0e1e3e4 * c.e3e4 - b.e0e2 * c.e1e2 + b.e0e2e3e4 * c.e1e2e3e4 - b.e0e3 * c.e1e3 - b.e0e4 * c.e1e4 + b.e1e2 * c.e0e2 - b.e1e2e3e4 * c.e0e2e3e4 + b.e1e3 * c.e0e3 + b.e1e4 * c.e0e4 - b.e2e3 * c.e0e1e2e3 - b.e2e4 * c.e0e1e2e4 - b.e3e4 * c.e0e1e3e4 + b.s * c.e0e1) + a.s * (b.e0e1 * c.e3e4 - b.e0e1e2e3 * c.e2e4 + b.e0e1e2e4 * c.e2e3 + b.e0e1e3e4 * c.s - b.e0e2 * c.e1e2e3e4 - b.e0e2e3e4 * c.e1e2 - b.e0e3 * c.e1e4 + b.e0e4 * c.e1e3 + b.e1e2 * c.e0e2e3e4 + b.e1e2e3e4 * c.e0e2 + b.e1e3 * c.e0e4 - b.e1e4 * c.e0e3 - b.e2e3 * c.e0e1e2e4 + b.e2e4 * c.e0e1e2e3 + b.e3e4 * c.e0e1 + b.s * c.e0e1e3e4));
    scale_right_transform_e0e1(a, b, c.e3e4);
    scale_right_transform_e0e1e2e3(a, b, c.e2e4);
    scale_right_transform_e0e1e2e4(a, b, c.e2e3);
    scale_right_transform_e0e1e3e4(a, b, c.s);
    scale_right_transform_e0e2(a, b, c.e1e2e3e4);
    scale_right_transform_e0e2e3e4(a, b, c.e1e2);
    scale_right_transform_e0e3(a, b, c.e1e4);
    scale_right_transform_e0e4(a, b, c.e1e3);
    scale_right_transform_e1e2(a, b, c.e0e2e3e4);
    scale_right_transform_e1e2e3e4(a, b, c.e0e2);
    scale_right_transform_e1e3(a, b, c.e0e4);
    scale_right_transform_e1e4(a, b, c.e0e3);
    scale_right_transform_e2e3(a, b, c.e0e1e2e4);
    scale_right_transform_e2e4(a, b, c.e0e1e2e3);
    scale_right_transform_e3e4(a, b, c.e0e1);
    scale_right_transform_s(a, b, c.e0e1e3e4);
    scale_left_transform_e3e4(b, c, a.e0e1);
    scale_left_transform_e2e4(b, c, a.e0e1e2e3);
    scale_left_transform_e2e3(b, c, a.e0e1e2e4);
    scale_left_transform_s(b, c, a.e0e1e3e4);
    scale_left_transform_e1e2e3e4(b, c, a.e0e2);
    scale_left_transform_e1e2(b, c, a.e0e2e3e4);
    scale_left_transform_e1e4(b, c, a.e0e3);
    scale_left_transform_e1e3(b, c, a.e0e4);
    scale_left_transform_e0e2e3e4(b, c, a.e1e2);
    scale_left_transform_e0e2(b, c, a.e1e2e3e4);
    scale_left_transform_e0e4(b, c, a.e1e3);
    scale_left_transform_e0e3(b, c, a.e1e4);
    scale_left_transform_e0e1e2e4(b, c, a.e2e3);
    scale_left_transform_e0e1e2e3(b, c, a.e2e4);
    scale_left_transform_e0e1(b, c, a.e3e4);
    scale_left_transform_e0e1e3e4(b, c, a.s);
    assert(l.e0e1e3e4 == -((a.e0e1 * b.e1e2) * c.e1e2e3e4) - (a.e0e1 * b.e1e2e3e4) * c.e1e2 - (a.e0e1 * b.e1e3) * c.e1e4 + (a.e0e1 * b.e1e4) * c.e1e3 - (a.e0e1 * b.e2e3) * c.e2e4 + (a.e0e1 * b.e2e4) * c.e2e3 + (a.e0e1 * b.e3e4) * c.s + (a.e0e1 * b.s) * c.e3e4 + (a.e0e1e2e3 * b.e1e2) * c.e1e4 - (a.e0e1e2e3 * b.e1e2e3e4) * c.e1e3 - (a.e0e1e2e3 * b.e1e3) * c.e1e2e3e4 - (a.e0e1e2e3 * b.e1e4) * c.e1e2 - (a.e0e1e2e3 * b.e2e3) * c.e3e4 - (a.e0e1e2e3 * b.e2e4) * c.s + (a.e0e1e2e3 * b.e3e4) * c.e2e3 - (a.e0e1e2e3 * b.s) * c.e2e4 - (a.e0e1e2e4 * b.e1e2) * c.e1e3 - (a.e0e1e2e4 * b.e1e2e3e4) * c.e1e4 + (a.e0e1e2e4 * b.e1e3) * c.e1e2 - (a.e0e1e2e4 * b.e1e4) * c.e1e2e3e4 + (a.e0e1e2e4 * b.e2e3) * c.s - (a.e0e1e2e4 * b.e2e4) * c.e3e4 + (a.e0e1e2e4 * b.e3e4) * c.e2e4 + (a.e0e1e2e4 * b.s) * c.e2e3 - (a.e0e1e3e4 * b.e1e2) * c.e1e2 + (a.e0e1e3e4 * b.e1e2e3e4) * c.e1e2e3e4 - (a.e0e1e3e4 * b.e1e3) * c.e1e3 - (a.e0e1e3e4 * b.e1e4) * c.e1e4 - (a.e0e1e3e4 * b.e2e3) * c.e2e3 - (a.e0e1e3e4 * b.e2e4) * c.e2e4 - (a.e0e1e3e4 * b.e3e4) * c.e3e4 + (a.e0e1e3e4 * b.s) * c.s - (a.e0e2 * b.e1e2) * c.e3e4 - (a.e0e2 * b.e1e2e3e4) * c.s + (a.e0e2 * b.e1e3) * c.e2e4 - (a.e0e2 * b.e1e4) * c.e2e3 - (a.e0e2 * b.e2e3) * c.e1e4 + (a.e0e2 * b.e2e4) * c.e1e3 - (a.e0e2 * b.e3e4) * c.e1e2 - (a.e0e2 * b.s) * c.e1e2e3e4 - (a.e0e2e3e4 * b.e1e2) * c.s + (a.e0e2e3e4 * b.e1e2e3e4) * c.e3e4 + (a.e0e2e3e4 * b.e1e3) * c.e2e3 + (a.e0e2e3e4 * b.e1e4) * c.e2e4 - (a.e0e2e3e4 * b.e2e3) * c.e1e3 - (a.e0e2e3e4 * b.e2e4) * c.e1e4 + (a.e0e2e3e4 * b.e3e4) * c.e1e2e3e4 - (a.e0e2e3e4 * b.s) * c.e1e2 - (a.e0e3 * b.e1e2) * c.e2e4 + (a.e0e3 * b.e1e2e3e4) * c.e2e3 - (a.e0e3 * b.e1e3) * c.e3e4 - (a.e0e3 * b.e1e4) * c.s + (a.e0e3 * b.e2e3) * c.e1e2e3e4 + (a.e0e3 * b.e2e4) * c.e1e2 + (a.e0e3 * b.e3e4) * c.e1e3 - (a.e0e3 * b.s) * c.e1e4 + (a.e0e4 * b.e1e2) * c.e2e3 + (a.e0e4 * b.e1e2e3e4) * c.e2e4 + (a.e0e4 * b.e1e3) * c.s - (a.e0e4 * b.e1e4) * c.e3e4 - (a.e0e4 * b.e2e3) * c.e1e2 + (a.e0e4 * b.e2e4) * c.e1e2e3e4 + (a.e0e4 * b.e3e4) * c.e1e4 + (a.e0e4 * b.s) * c.e1e3 + (a.e1e2 * b.e0e1) * c.e1e2e3e4 + (a.e1e2 * b.e0e1e2e3) * c.e1e4 - (a.e1e2 * b.e0e1e2e4) * c.e1e3 + (a.e1e2 * b.e0e1e3e4) * c.e1e2 + (a.e1e2 * b.e0e2) * c.e3e4 + (a.e1e2 * b.e0e2e3e4) * c.s - (a.e1e2 * b.e0e3) * c.e2e4 + (a.e1e2 * b.e0e4) * c.e2e3 - (a.e1e2 * b.e1e2) * c.e0e1e3e4 - (a.e1e2 * b.e1e2e3e4) * c.e0e1 + (a.e1e2 * b.e1e3) * c.e0e1e2e4 - (a.e1e2 * b.e1e4) * c.e0e1e2e3 + (a.e1e2 * b.e2e3) * c.e0e4 - (a.e1e2 * b.e2e4) * c.e0e3 + (a.e1e2 * b.e3e4) * c.e0e2 + (a.e1e2 * b.s) * c.e0e2e3e4 + (a.e1e2e3e4 * b.e0e1) * c.e1e2 + (a.e1e2e3e4 * b.e0e1e2e3) * c.e1e3 + (a.e1e2e3e4 * b.e0e1e2e4) * c.e1e4 - (a.e1e2e3e4 * b.e0e1e3e4) * c.e1e2e3e4 + (a.e1e2e3e4 * b.e0e2) * c.s - (a.e1e2e3e4 * b.e0e2e3e4) * c.e3e4 - (a.e1e2e3e4 * b.e0e3) * c.e2e3 - (a.e1e2e3e4 * b.e0e4) * c.e2e4 - (a.e1e2e3e4 * b.e1e2) * c.e0e1 + (a.e1e2e3e4 * b.e1e2e3e4) * c.e0e1e3e4 + (a.e1e2e3e4 * b.e1e3) * c.e0e1e2e3 + (a.e1e2e3e4 * b.e1e4) * c.e0e1e2e4 + (a.e1e2e3e4 * b.e2e3) * c.e0e3 + (a.e1e2e3e4 * b.e2e4) * c.e0e4 - (a.e1e2e3e4 * b.e3e4) * c.e0e2e3e4 + (a.e1e2e3e4 * b.s) * c.e0e2 + (a.e1e3 * b.e0e1) * c.e1e4 - (a.e1e3 * b.e0e1e2e3) * c.e1e2e3e4 - (a.e1e3 * b.e0e1e2e4) * c.e1e2 - (a.e1e3 * b.e0e1e3e4) * c.e1e3 + (a.e1e3 * b.e0e2) * c.e2e4 - (a.e1e3 * b.e0e2e3e4) * c.e2e3 + (a.e1e3 * b.e0e3) * c.e3e4 + (a.e1e3 * b.e0e4) * c.s - (a.e1e3 * b.e1e2) * c.e0e1e2e4 + (a.e1e3 * b.e1e2e3e4) * c.e0e1e2e3 - (a.e1e3 * b.e1e3) * c.e0e1e3e4 - (a.e1e3 * b.e1e4) * c.e0e1 - (a.e1e3 * b.e2e3) * c.e0e2e3e4 - (a.e1e3 * b.e2e4) * c.e0e2 - (a.e1e3 * b.e3e4) * c.e0e3 + (a.e1e3 * b.s) * c.e0e4 - (a.e1e4 * b.e0e1) * c.e1e3 + (a.e1e4 * b.e0e1e2e3) * c.e1e2 - (a.e1e4 * b.e0e1e2e4) * c.e1e2e3e4 - (a.e1e4 * b.e0e1e3e4) * c.e1e4 - (a.e1e4 * b.e0e2) * c.e2e3 - (a.e1e4 * b.e0e2e3e4) * c.e2e4 - (a.e1e4 * b.e0e3) * c.s + (a.e1e4 * b.e0e4) * c.e3e4 + (a.e1e4 * b.e1e2) * c.e0e1e2e3 + (a.e1e4 * b.e1e2e3e4) * c.e0e1e2e4 + (a.e1e4 * b.e1e3) * c.e0e1 - (a.e1e4 * b.e1e4) * c.e0e1e3e4 + (a.e1e4 * b.e2e3) * c.e0e2 - (a.e1e4 * b.e2e4) * c.e0e2e3e4 - (a.e1e4 * b.e3e4) * c.e0e4 - (a.e1e4 * b.s) * c.e0e3 - (a.e2e3 * b.e0e1) * c.e2e4 - (a.e2e3 * b.e0e1e2e3) * c.e3e4 - (a.e2e3 * b.e0e1e2e4) * c.s + (a.e2e3 * b.e0e1e3e4) * c.e2e3 + (a.e2e3 * b.e0e2) * c.e1e4 - (a.e2e3 * b.e0e2e3e4) * c.e1e3 - (a.e2e3 * b.e0e3) * c.e1e2e3e4 - (a.e2e3 * b.e0e4) * c.e1e2 - (a.e2e3 * b.e1e2) * c.e0e4 + (a.e2e3 * b.e1e2e3e4) * c.e0e3 + (a.e2e3 * b.e1e3) * c.e0e2e3e4 + (a.e2e3 * b.e1e4) * c.e0e2 - (a.e2e3 * b.e2e3) * c.e0e1e3e4 - (a.e2e3 * b.e2e4) * c.e0e1 + (a.e2e3 * b.e3e4) * c.e0e1e2e3 - (a.e2e3 * b.s) * c.e0e1e2e4 + (a.e2e4 * b.e0e1) * c.e2e3 + (a.e2e4 * b.e0e1e2e3) * c.s - (a.e2e4 * b.e0e1e2e4) * c.e3e4 + (a.e2e4 * b.e0e1e3e4) * c.e2e4 - (a.e2e4 * b.e0e2) * c.e1e3 - (a.e2e4 * b.e0e2e3e4) * c.e1e4 + (a.e2e4 * b.e0e3) * c.e1e2 - (a.e2e4 * b.e0e4) * c.e1e2e3e4 + (a.e2e4 * b.e1e2) * c.e0e3 + (a.e2e4 * b.e1e2e3e4) * c.e0e4 - (a.e2e4 * b.e1e3) * c.e0e2 + (a.e2e4 * b.e1e4) * c.e0e2e3e4 + (a.e2e4 * b.e2e3) * c.e0e1 - (a.e2e4 * b.e2e4) * c.e0e1e3e4 + (a.e2e4 * b.e3e4) * c.e0e1e2e4 + (a.e2e4 * b.s) * c.e0e1e2e3 + (a.e3e4 * b.e0e1) * c.s - (a.e3e4 * b.e0e1e2e3) * c.e2e3 - (a.e3e4 * b.e0e1e2e4) * c.e2e4 - (a.e3e4 * b.e0e1e3e4) * c.e3e4 - (a.e3e4 * b.e0e2) * c.e1e2 + (a.e3e4 * b.e0e2e3e4) * c.e1e2e3e4 - (a.e3e4 * b.e0e3) * c.e1e3 - (a.e3e4 * b.e0e4) * c.e1e4 + (a.e3e4 * b.e1e2) * c.e0e2 - (a.e3e4 * b.e1e2e3e4) * c.e0e2e3e4 + (a.e3e4 * b.e1e3) * c.e0e3 + (a.e3e4 * b.e1e4) * c.e0e4 - (a.e3e4 * b.e2e3) * c.e0e1e2e3 - (a.e3e4 * b.e2e4) * c.e0e1e2e4 - (a.e3e4 * b.e3e4) * c.e0e1e3e4 + (a.e3e4 * b.s) * c.e0e1 + (a.s * b.e0e1) * c.e3e4 - (a.s * b.e0e1e2e3) * c.e2e4 + (a.s * b.e0e1e2e4) * c.e2e3 + (a.s * b.e0e1e3e4) * c.s - (a.s * b.e0e2) * c.e1e2e3e4 - (a.s * b.e0e2e3e4) * c.e1e2 - (a.s * b.e0e3) * c.e1e4 + (a.s * b.e0e4) * c.e1e3 + (a.s * b.e1e2) * c.e0e2e3e4 + (a.s * b.e1e2e3e4) * c.e0e2 + (a.s * b.e1e3) * c.e0e4 - (a.s * b.e1e4) * c.e0e3 - (a.s * b.e2e3) * c.e0e1e2e4 + (a.s * b.e2e4) * c.e0e1e2e3 + (a.s * b.e3e4) * c.e0e1 + (a.s * b.s) * c.e0e1e3e4);
    assert(r.e0e1e3e4 == -((a.e0e1 * b.e1e2) * c.e1e2e3e4) - (a.e0e1 * b.e1e2e3e4) * c.e1e2 - (a.e0e1 * b.e1e3) * c.e1e4 + (a.e0e1 * b.e1e4) * c.e1e3 - (a.e0e1 * b.e2e3) * c.e2e4 + (a.e0e1 * b.e2e4) * c.e2e3 + (a.e0e1 * b.e3e4) * c.s + (a.e0e1 * b.s) * c.e3e4 + (a.e0e1e2e3 * b.e1e2) * c.e1e4 - (a.e0e1e2e3 * b.e1e2e3e4) * c.e1e3 - (a.e0e1e2e3 * b.e1e3) * c.e1e2e3e4 - (a.e0e1e2e3 * b.e1e4) * c.e1e2 - (a.e0e1e2e3 * b.e2e3) * c.e3e4 - (a.e0e1e2e3 * b.e2e4) * c.s + (a.e0e1e2e3 * b.e3e4) * c.e2e3 - (a.e0e1e2e3 * b.s) * c.e2e4 - (a.e0e1e2e4 * b.e1e2) * c.e1e3 - (a.e0e1e2e4 * b.e1e2e3e4) * c.e1e4 + (a.e0e1e2e4 * b.e1e3) * c.e1e2 - (a.e0e1e2e4 * b.e1e4) * c.e1e2e3e4 + (a.e0e1e2e4 * b.e2e3) * c.s - (a.e0e1e2e4 * b.e2e4) * c.e3e4 + (a.e0e1e2e4 * b.e3e4) * c.e2e4 + (a.e0e1e2e4 * b.s) * c.e2e3 - (a.e0e1e3e4 * b.e1e2) * c.e1e2 + (a.e0e1e3e4 * b.e1e2e3e4) * c.e1e2e3e4 - (a.e0e1e3e4 * b.e1e3) * c.e1e3 - (a.e0e1e3e4 * b.e1e4) * c.e1e4 - (a.e0e1e3e4 * b.e2e3) * c.e2e3 - (a.e0e1e3e4 * b.e2e4) * c.e2e4 - (a.e0e1e3e4 * b.e3e4) * c.e3e4 + (a.e0e1e3e4 * b.s) * c.s - (a.e0e2 * b.e1e2) * c.e3e4 - (a.e0e2 * b.e1e2e3e4) * c.s + (a.e0e2 * b.e1e3) * c.e2e4 - (a.e0e2 * b.e1e4) * c.e2e3 - (a.e0e2 * b.e2e3) * c.e1e4 + (a.e0e2 * b.e2e4) * c.e1e3 - (a.e0e2 * b.e3e4) * c.e1e2 - (a.e0e2 * b.s) * c.e1e2e3e4 - (a.e0e2e3e4 * b.e1e2) * c.s + (a.e0e2e3e4 * b.e1e2e3e4) * c.e3e4 + (a.e0e2e3e4 * b.e1e3) * c.e2e3 + (a.e0e2e3e4 * b.e1e4) * c.e2e4 - (a.e0e2e3e4 * b.e2e3) * c.e1e3 - (a.e0e2e3e4 * b.e2e4) * c.e1e4 + (a.e0e2e3e4 * b.e3e4) * c.e1e2e3e4 - (a.e0e2e3e4 * b.s) * c.e1e2 - (a.e0e3 * b.e1e2) * c.e2e4 + (a.e0e3 * b.e1e2e3e4) * c.e2e3 - (a.e0e3 * b.e1e3) * c.e3e4 - (a.e0e3 * b.e1e4) * c.s + (a.e0e3 * b.e2e3) * c.e1e2e3e4 + (a.e0e3 * b.e2e4) * c.e1e2 + (a.e0e3 * b.e3e4) * c.e1e3 - (a.e0e3 * b.s) * c.e1e4 + (a.e0e4 * b.e1e2) * c.e2e3 + (a.e0e4 * b.e1e2e3e4) * c.e2e4 + (a.e0e4 * b.e1e3) * c.s - (a.e0e4 * b.e1e4) * c.e3e4 - (a.e0e4 * b.e2e3) * c.e1e2 + (a.e0e4 * b.e2e4) * c.e1e2e3e4 + (a.e0e4 * b.e3e4) * c.e1e4 + (a.e0e4 * b.s) * c.e1e3 + (a.e1e2 * b.e0e1) * c.e1e2e3e4 + (a.e1e2 * b.e0e1e2e3) * c.e1e4 - (a.e1e2 * b.e0e1e2e4) * c.e1e3 + (a.e1e2 * b.e0e1e3e4) * c.e1e2 + (a.e1e2 * b.e0e2) * c.e3e4 + (a.e1e2 * b.e0e2e3e4) * c.s - (a.e1e2 * b.e0e3) * c.e2e4 + (a.e1e2 * b.e0e4) * c.e2e3 - (a.e1e2 * b.e1e2) * c.e0e1e3e4 - (a.e1e2 * b.e1e2e3e4) * c.e0e1 + (a.e1e2 * b.e1e3) * c.e0e1e2e4 - (a.e1e2 * b.e1e4) * c.e0e1e2e3 + (a.e1e2 * b.e2e3) * c.e0e4 - (a.e1e2 * b.e2e4) * c.e0e3 + (a.e1e2 * b.e3e4) * c.e0e2 + (a.e1e2 * b.s) * c.e0e2e3e4 + (a.e1e2e3e4 * b.e0e1) * c.e1e2 + (a.e1e2e3e4 * b.e0e1e2e3) * c.e1e3 + (a.e1e2e3e4 * b.e0e1e2e4) * c.e1e4 - (a.e1e2e3e4 * b.e0e1e3e4) * c.e1e2e3e4 + (a.e1e2e3e4 * b.e0e2) * c.s - (a.e1e2e3e4 * b.e0e2e3e4) * c.e3e4 - (a.e1e2e3e4 * b.e0e3) * c.e2e3 - (a.e1e2e3e4 * b.e0e4) * c.e2e4 - (a.e1e2e3e4 * b.e1e2) * c.e0e1 + (a.e1e2e3e4 * b.e1e2e3e4) * c.e0e1e3e4 + (a.e1e2e3e4 * b.e1e3) * c.e0e1e2e3 + (a.e1e2e3e4 * b.e1e4) * c.e0e1e2e4 + (a.e1e2e3e4 * b.e2e3) * c.e0e3 + (a.e1e2e3e4 * b.e2e4) * c.e0e4 - (a.e1e2e3e4 * b.e3e4) * c.e0e2e3e4 + (a.e1e2e3e4 * b.s) * c.e0e2 + (a.e1e3 * b.e0e1) * c.e1e4 - (a.e1e3 * b.e0e1e2e3) * c.e1e2e3e4 - (a.e1e3 * b.e0e1e2e4) * c.e1e2 - (a.e1e3 * b.e0e1e3e4) * c.e1e3 + (a.e1e3 * b.e0e2) * c.e2e4 - (a.e1e3 * b.e0e2e3e4) * c.e2e3 + (a.e1e3 * b.e0e3) * c.e3e4 + (a.e1e3 * b.e0e4) * c.s - (a.e1e3 * b.e1e2) * c.e0e1e2e4 + (a.e1e3 * b.e1e2e3e4) * c.e0e1e2e3 - (a.e1e3 * b.e1e3) * c.e0e1e3e4 - (a.e1e3 * b.e1e4) * c.e0e1 - (a.e1e3 * b.e2e3) * c.e0e2e3e4 - (a.e1e3 * b.e2e4) * c.e0e2 - (a.e1e3 * b.e3e4) * c.e0e3 + (a.e1e3 * b.s) * c.e0e4 - (a.e1e4 * b.e0e1) * c.e1e3 + (a.e1e4 * b.e0e1e2e3) * c.e1e2 - (a.e1e4 * b.e0e1e2e4) * c.e1e2e3e4 - (a.e1e4 * b.e0e1e3e4) * c.e1e4 - (a.e1e4 * b.e0e2) * c.e2e3 - (a.e1e4 * b.e0e2e3e4) * c.e2e4 - (a.e1e4 * b.e0e3) * c.s + (a.e1e4 * b.e0e4) * c.e3e4 + (a.e1e4 * b.e1e2) * c.e0e1e2e3 + (a.e1e4 * b.e1e2e3e4) * c.e0e1e2e4 + (a.e1e4 * b.e1e3) * c.e0e1 - (a.e1e4 * b.e1e4) * c.e0e1e3e4 + (a.e1e4 * b.e2e3) * c.e0e2 - (a.e1e4 * b.e2e4) * c.e0e2e3e4 - (a.e1e4 * b.e3e4) * c.e0e4 - (a.e1e4 * b.s) * c.e0e3 - (a.e2e3 * b.e0e1) * c.e2e4 - (a.e2e3 * b.e0e1e2e3) * c.e3e4 - (a.e2e3 * b.e0e1e2e4) * c.s + (a.e2e3 * b.e0e1e3e4) * c.e2e3 + (a.e2e3 * b.e0e2) * c.e1e4 - (a.e2e3 * b.e0e2e3e4) * c.e1e3 - (a.e2e3 * b.e0e3) * c.e1e2e3e4 - (a.e2e3 * b.e0e4) * c.e1e2 - (a.e2e3 * b.e1e2) * c.e0e4 + (a.e2e3 * b.e1e2e3e4) * c.e0e3 + (a.e2e3 * b.e1e3) * c.e0e2e3e4 + (a.e2e3 * b.e1e4) * c.e0e2 - (a.e2e3 * b.e2e3) * c.e0e1e3e4 - (a.e2e3 * b.e2e4) * c.e0e1 + (a.e2e3 * b.e3e4) * c.e0e1e2e3 - (a.e2e3 * b.s) * c.e0e1e2e4 + (a.e2e4 * b.e0e1) * c.e2e3 + (a.e2e4 * b.e0e1e2e3) * c.s - (a.e2e4 * b.e0e1e2e4) * c.e3e4 + (a.e2e4 * b.e0e1e3e4) * c.e2e4 - (a.e2e4 * b.e0e2) * c.e1e3 - (a.e2e4 * b.e0e2e3e4) * c.e1e4 + (a.e2e4 * b.e0e3) * c.e1e2 - (a.e2e4 * b.e0e4) * c.e1e2e3e4 + (a.e2e4 * b.e1e2) * c.e0e3 + (a.e2e4 * b.e1e2e3e4) * c.e0e4 - (a.e2e4 * b.e1e3) * c.e0e2 + (a.e2e4 * b.e1e4) * c.e0e2e3e4 + (a.e2e4 * b.e2e3) * c.e0e1 - (a.e2e4 * b.e2e4) * c.e0e1e3e4 + (a.e2e4 * b.e3e4) * c.e0e1e2e4 + (a.e2e4 * b.s) * c.e0e1e2e3 + (a.e3e4 * b.e0e1) * c.s - (a.e3e4 * b.e0e1e2e3) * c.e2e3 - (a.e3e4 * b.e0e1e2e4) * c.e2e4 - (a.e3e4 * b.e0e1e3e4) * c.e3e4 - (a.e3e4 * b.e0e2) * c.e1e2 + (a.e3e4 * b.e0e2e3e4) * c.e1e2e3e4 - (a.e3e4 * b.e0e3) * c.e1e3 - (a.e3e4 * b.e0e4) * c.e1e4 + (a.e3e4 * b.e1e2) * c.e0e2 - (a.e3e4 * b.e1e2e3e4) * c.e0e2e3e4 + (a.e3e4 * b.e1e3) * c.e0e3 + (a.e3e4 * b.e1e4) * c.e0e4 - (a.e3e4 * b.e2e3) * c.e0e1e2e3 - (a.e3e4 * b.e2e4) * c.e0e1e2e4 - (a.e3e4 * b.e3e4) * c.e0e1e3e4 + (a.e3e4 * b.s) * c.e0e1 + (a.s * b.e0e1) * c.e3e4 - (a.s * b.e0e1e2e3) * c.e2e4 + (a.s * b.e0e1e2e4) * c.e2e3 + (a.s * b.e0e1e3e4) * c.s - (a.s * b.e0e2) * c.e1e2e3e4 - (a.s * b.e0e2e3e4) * c.e1e2 - (a.s * b.e0e3) * c.e1e4 + (a.s * b.e0e4) * c.e1e3 + (a.s * b.e1e2) * c.e0e2e3e4 + (a.s * b.e1e2e3e4) * c.e0e2 + (a.s * b.e1e3) * c.e0e4 - (a.s * b.e1e4) * c.e0e3 - (a.s * b.e2e3) * c.e0e1e2e4 + (a.s * b.e2e4) * c.e0e1e2e3 + (a.s * b.e3e4) * c.e0e1 + (a.s * b.s) * c.e0e1e3e4);
    assert(l.e0e2e3e4 == (a.e0e1 * b.s - a.e0e1e2e3 * b.e2e3 - a.e0e1e2e4 * b.e2e4 - a.e0e1e3e4 * b.e3e4 - a.e0e2 * b.e1e2 + a.e0e2e3e4 * b.e1e2e3e4 - a.e0e3 * b.e1e3 - a.e0e4 * b.e1e4 + a.e1e2 * b.e0e2 - a.e1e2e3e4 * b.e0e2e3e4 + a.e1e3 * b.e0e3 + a.e1e4 * b.e0e4 - a.e2e3 * b.e0e1e2e3 - a.e2e4 * b.e0e1e2e4 - a.e3e4 * b.e0e1e3e4 + a.s * b.e0e1) * c.e1e2e3e4 + (a.e0e1 * b.e2e3 + a.e0e1e2e3 * b.s - a.e0e1e2e4 * b.e3e4 + a.e0e1e3e4 * b.e2e4 - a.e0e2 * b.e1e3 - a.e0e2e3e4 * b.e1e4 + a.e0e3 * b.e1e2 - a.e0e4 * b.e1e2e3e4 + a.e1e2 * b.e0e3 + a.e1e2e3e4 * b.e0e4 - a.e1e3 * b.e0e2 + a.e1e4 * b.e0e2e3e4 + a.e2e3 * b.e0e1 - a.e2e4 * b.e0e1e3e4 + a.e3e4 * b.e0e1e2e4 + a.s * b.e0e1e2e3) * c.e1e4 - (a.e0e1 * b.e2e4 + a.e0e1e2e3 * b.e3e4 + a.e0e1e2e4 * b.s - a.e0e1e3e4 * b.e2e3 - a.e0e2 * b.e1e4 + a.e0e2e3e4 * b.e1e3 + a.e0e3 * b.e1e2e3e4 + a.e0e4 * b.e1e2 + a.e1e2 * b.e0e4 - a.e1e2e3e4 * b.e0e3 - a.e1e3 * b.e0e2e3e4 - a.e1e4 * b.e0e2 + a.e2e3 * b.e0e1e3e4 + a.e2e4 * b.e0e1 - a.e3e4 * b.e0e1e2e3 + a.s * b.e0e1e2e4) * c.e1e3 + (a.e0e1 * b.e3e4 - a.e0e1e2e3 * b.e2e4 + a.e0e1e2e4 * b.e2e3 + a.e0e1e3e4 * b.s - a.e0e2 * b.e1e2e3e4 - a.e0e2e3e4 * b.e1e2 - a.e0e3 * b.e1e4 + a.e0e4 * b.e1e3 + a.e1e2 * b.e0e2e3e4 + a.e1e2e3e4 * b.e0e2 + a.e1e3 * b.e0e4 - a.e1e4 * b.e0e3 - a.e2e3 * b.e0e1e2e4 + a.e2e4 * b.e0e1e2e3 + a.e3e4 * b.e0e1 + a.s * b.e0e1e3e4) * c.e1e2 + (a.e0e1 * b.e1e2 + a.e0e1e2e3 * b.e1e3 + a.e0e1e2e4 * b.e1e4 - a.e0e1e3e4 * b.e1e2e3e4 + a.e0e2 * b.s - a.e0e2e3e4 * b.e3e4 - a.e0e3 * b.e2e3 - a.e0e4 * b.e2e4 - a.e1e2 * b.e0e1 + a.e1e2e3e4 * b.e0e1e3e4 + a.e1e3 * b.e0e1e2e3 + a.e1e4 * b.e0e1e2e4 + a.e2e3 * b.e0e3 + a.e2e4 * b.e0e4 - a.e3e4 * b.e0e2e3e4 + a.s * b.e0e2) * c.e3e4 + (a.e0e1 * b.e1e2e3e4 + a.e0e1e2e3 * b.e1e4 - a.e0e1e2e4 * b.e1e3 + a.e0e1e3e4 * b.e1e2 + a.e0e2 * b.e3e4 + a.e0e2e3e4 * b.s - a.e0e3 * b.e2e4 + a.e0e4 * b.e2e3 - a.e1e2 * b.e0e1e3e4 - a.e1e2e3e4 * b.e0e1 + a.e1e3 * b.e0e1e2e4 - a.e1e4 * b.e0e1e2e3 + a.e2e3 * b.e0e4 - a.e2e4 * b.e0e3 + a.e3e4 * b.e0e2 + a.s * b.e0e2e3e4) * c.s - (a.e0e1 * b.e1e3 - a.e0e1e2e3 * b.e1e2 + a.e0e1e2e4 * b.e1e2e3e4 + a.e0e1e3e4 * b.e1e4 + a.e0e2 * b.e2e3 + a.e0e2e3e4 * b.e2e4 + a.e0e3 * b.s - a.e0e4 * b.e3e4 - a.e1e2 * b.e0e1e2e3 - a.e1e2e3e4 * b.e0e1e2e4 - a.e1e3 * b.e0e1 + a.e1e4 * b.e0e1e3e4 - a.e2e3 * b.e0e2 + a.e2e4 * b.e0e2e3e4 + a.e3e4 * b.e0e4 + a.s * b.e0e3) * c.e2e4 + (a.e0e1 * b.e1e4 - a.e0e1e2e3 * b.e1e2e3e4 - a.e0e1e2e4 * b.e1e2 - a.e0e1e3e4 * b.e1e3 + a.e0e2 * b.e2e4 - a.e0e2e3e4 * b.e2e3 + a.e0e3 * b.e3e4 + a.e0e4 * b.s - a.e1e2 * b.e0e1e2e4 + a.e1e2e3e4 * b.e0e1e2e3 - a.e1e3 * b.e0e1e3e4 - a.e1e4 * b.e0e1 - a.e2e3 * b.e0e2e3e4 - a.e2e4 * b.e0e2 - a.e3e4 * b.e0e3 + a.s * b.e0e4) * c.e2e3 - (a.e1e2 * b.s - a.e1e2e3e4 * b.e3e4 - a.e1e3 * b.e2e3 - a.e1e4 * b.e2e4 + a.e2e3 * b.e1e3 + a.e2e4 * b.e1e4 - a.e3e4 * b.e1e2e3e4 + a.s * b.e1e2) * c.e0e1e3e4 - (a.e1e2 * b.e3e4 + a.e1e2e3e4 * b.s - a.e1e3 * b.e2e4 + a.e1e4 * b.e2e3 + a.e2e3 * b.e1e4 - a.e2e4 * b.e1e3 + a.e3e4 * b.e1e2 + a.s * b.e1e2e3e4) * c.e0e1 + (a.e1e2 * b.e2e3 + a.e1e2e3e4 * b.e2e4 + a.e1e3 * b.s - a.e1e4 * b.e3e4 - a.e2e3 * b.e1e2 + a.e2e4 * b.e1e2e3e4 + a.e3e4 * b.e1e4 + a.s * b.e1e3) * c.e0e1e2e4 - (a.e1e2 * b.e2e4 - a.e1e2e3e4 * b.e2e3 + a.e1e3 * b.e3e4 + a.e1e4 * b.s - a.e2e3 * b.e1e2e3e4 - a.e2e4 * b.e1e2 - a.e3e4 * b.e1e3 + a.s * b.e1e4) * c.e0e1e2e3 + (-(a.e1e2 * b.e1e3) - a.e1e2e3e4 * b.e1e4 + a.e1e3 * b.e1e2 - a.e1e4 * b.e1e2e3e4 + a.e2e3 * b.s - a.e2e4 * b.e3e4 + a.e3e4 * b.e2e4 + a.s * b.e2e3) * c.e0e4 - (-(a.e1e2 * b.e1e4) + a.e1e2e3e4 * b.e1e3 + a.e1e3 * b.e1e2e3e4 + a.e1e4 * b.e1e2 + a.e2e3 * b.e3e4 + a.e2e4 * b.s - a.e3e4 * b.e2e3 + a.s * b.e2e4) * c.e0e3 + (-(a.e1e2 * b.e1e2e3e4) - a.e1e2e3e4 * b.e1e2 - a.e1e3 * b.e1e4 + a.e1e4 * b.e1e3 - a.e2e3 * b.e2e4 + a.e2e4 * b.e2e3 + a.e3e4 * b.s + a.s * b.e3e4) * c.e0e2 + (-(a.e1e2 * b.e1e2) + a.e1e2e3e4 * b.e1e2e3e4 - a.e1e3 * b.e1e3 - a.e1e4 * b.e1e4 - a.e2e3 * b.e2e3 - a.e2e4 * b.e2e4 - a.e3e4 * b.e3e4 + a.s * b.s) * c.e0e2e3e4);
    assert(r.e0e2e3e4 == a.e0e1 * (b.e1e2 * c.e3e4 + b.e1e2e3e4 * c.s - b.e1e3 * c.e2e4 + b.e1e4 * c.e2e3 + b.e2e3 * c.e1e4 - b.e2e4 * c.e1e3 + b.e3e4 * c.e1e2 + b.s * c.e1e2e3e4) + a.e0e1e2e3 * (b.e1e2 * c.e2e4 - b.e1e2e3e4 * c.e2e3 + b.e1e3 * c.e3e4 + b.e1e4 * c.s - b.e2e3 * c.e1e2e3e4 - b.e2e4 * c.e1e2 - b.e3e4 * c.e1e3 + b.s * c.e1e4) - a.e0e1e2e4 * (b.e1e2 * c.e2e3 + b.e1e2e3e4 * c.e2e4 + b.e1e3 * c.s - b.e1e4 * c.e3e4 - b.e2e3 * c.e1e2 + b.e2e4 * c.e1e2e3e4 + b.e3e4 * c.e1e4 + b.s * c.e1e3) + a.e0e1e3e4 * (b.e1e2 * c.s - b.e1e2e3e4 * c.e3e4 - b.e1e3 * c.e2e3 - b.e1e4 * c.e2e4 + b.e2e3 * c.e1e3 + b.e2e4 * c.e1e4 - b.e3e4 * c.e1e2e3e4 + b.s * c.e1e2) + a.e0e2 * (-(b.e1e2 * c.e1e2e3e4) - b.e1e2e3e4 * c.e1e2 - b.e1e3 * c.e1e4 + b.e1e4 * c.e1e3 - b.e2e3 * c.e2e4 + b.e2e4 * c.e2e3 + b.e3e4 * c.s + b.s * c.e3e4) + a.e0e2e3e4 * (-(b.e1e2 * c.e1e2) + b.e1e2e3e4 * c.e1e2e3e4 - b.e1e3 * c.e1e3 - b.e1e4 * c.e1e4 - b.e2e3 * c.e2e3 - b.e2e4 * c.e2e4 - b.e3e4 * c.e3e4 + b.s * c.s) - a.e0e3 * (-(b.e1e2 * c.e1e4) + b.e1e2e3e4 * c.e1e3 + b.e1e3 * c.e1e2e3e4 + b.e1e4 * c.e1e2 + b.e2e3 * c.e3e4 + b.e2e4 * c.s - b.e3e4 * c.e2e3 + b.s * c.e2e4) + a.e0e4 * (-(b.e1e2 * c.e1e3) - b.e1e2e3e4 * c.e1e4 + b.e1e3 * c.e1e2 - b.e1e4 * c.e1e2e3e4 + b.e2e3 * c.s - b.e2e4 * c.e3e4 + b.e3e4 * c.e2e4 + b.s * c.e2e3) - a.e1e2 * (b.e0e1 * c.e3e4 - b.e0e1e2e3 * c.e2e4 + b.e0e1e2e4 * c.e2e3 + b.e0e1e3e4 * c.s - b.e0e2 * c.e1e2e3e4 - b.e0e2e3e4 * c.e1e2 - b.e0e3 * c.e1e4 + b.e0e4 * c.e1e3 + b.e1e2 * c.e0e2e3e4 + b.e1e2e3e4 * c.e0e2 + b.e1e3 * c.e0e4 - b.e1e4 * c.e0e3 - b.e2e3 * c.e0e1e2e4 + b.e2e4 * c.e0e1e2e3 + b.e3e4 * c.e0e1 + b.s * c.e0e1e3e4) - a.e1e2e3e4 * (b.e0e1 * c.s - b.e0e1e2e3 * c.e2e3 - b.e0e1e2e4 * c.e2e4 - b.e0e1e3e4 * c.e3e4 - b.e0e2 * c.e1e2 + b.e0e2e3e4 * c.e1e2e3e4 - b.e0e3 * c.e1e3 - b.e0e4 * c.e1e4 + b.e1e2 * c.e0e2 - b.e1e2e3e4 * c.e0e2e3e4 + b.e1e3 * c.e0e3 + b.e1e4 * c.e0e4 - b.e2e3 * c.e0e1e2e3 - b.e2e4 * c.e0e1e2e4 - b.e3e4 * c.e0e1e3e4 + b.s * c.e0e1) + a.e1e3 * (b.e0e1 * c.e2e4 + b.e0e1e2e3 * c.e3e4 + b.e0e1e2e4 * c.s - b.e0e1e3e4 * c.e2e3 - b.e0e2 * c.e1e4 + b.e0e2e3e4 * c.e1e3 + b.e0e3 * c.e1e2e3e4 + b.e0e4 * c.e1e2 + b.e1e2 * c.e0e4 - b.e1e2e3e4 * c.e0e3 - b.e1e3 * c.e0e2e3e4 - b.e1e4 * c.e0e2 + b.e2e3 * c.e0e1e3e4 + b.e2e4 * c.e0e1 - b.e3e4 * c.e0e1e2e3 + b.s * c.e0e1e2e4) - a.e1e4 * (b.e0e1 * c.e2e3 + b.e0e1e2e3 * c.s - b.e0e1e2e4 * c.e3e4 + b.e0e1e3e4 * c.e2e4 - b.e0e2 * c.e1e3 - b.e0e2e3e4 * c.e1e4 + b.e0e3 * c.e1e2 - b.e0e4 * c.e1e2e3e4 + b.e1e2 * c.e0e3 + b.e1e2e3e4 * c.e0e4 - b.e1e3 * c.e0e2 + b.e1e4 * c.e0e2e3e4 + b.e2e3 * c.e0e1 - b.e2e4 * c.e0e1e3e4 + b.e3e4 * c.e0e1e2e4 + b.s * c.e0e1e2e3) + a.e2e3 * (b.e0e1 * c.e1e4 - b.e0e1e2e3 * c.e1e2e3e4 - b.e0e1e2e4 * c.e1e2 - b.e0e1e3e4 * c.e1e3 + b.e0e2 * c.e2e4 - b.e0e2e3e4 * c.e2e3 + b.e0e3 * c.e3e4 + b.e0e4 * c.s - b.e1e2 * c.e0e1e2e4 + b.e1e2e3e4 * c.e0e1e2e3 - b.e1e3 * c.e0e1e3e4 - b.e1e4 * c.e0e1 - b.e2e3 * c.e0e2e3e4 - b.e2e4 * c.e0e2 - b.e3e4 * c.e0e3 + b.s * c.e0e4) - a.e2e4 * (b.e0e1 * c.e1e3 - b.e0e1e2e3 * c.e1e2 + b.e0e1e2e4 * c.e1e2e3e4 + b.e0e1e3e4 * c.e1e4 + b.e0e2 * c.e2e3 + b.e0e2e3e4 * c.e2e4 + b.e0e3 * c.s - b.e0e4 * c.e3e4 - b.e1e2 * c.e0e1e2e3 - b.e1e2e3e4 * c.e0e1e2e4 - b.e1e3 * c.e0e1 + b.e1e4 * c.e0e1e3e4 - b.e2e3 * c.e0e2 + b.e2e4 * c.e0e2e3e4 + b.e3e4 * c.e0e4 + b.s * c.e0e3) + a.e3e4 * (b.e0e1 * c.e1e2 + b.e0e1e2e3 * c.e1e3 + b.e0e1e2e4 * c.e1e4 - b.e0e1e3e4 * c.e1e2e3e4 + b.e0e2 * c.s - b.e0e2e3e4 * c.e3e4 - b.e0e3 * c.e2e3 - b.e0e4 * c.e2e4 - b.e1e2 * c.e0e1 + b.e1e2e3e4 * c.e0e1e3e4 + b.e1e3 * c.e0e1e2e3 + b.e1e4 * c.e0e1e2e4 + b.e2e3 * c.e0e3 + b.e2e4 * c.e0e4 - b.e3e4 * c.e0e2e3e4 + b.s * c.e0e2) + a.s * (b.e0e1 * c.e1e2e3e4 + b.e0e1e2e3 * c.e1e4 - b.e0e1e2e4 * c.e1e3 + b.e0e1e3e4 * c.e1e2 + b.e0e2 * c.e3e4 + b.e0e2e3e4 * c.s - b.e0e3 * c.e2e4 + b.e0e4 * c.e2e3 - b.e1e2 * c.e0e1e3e4 - b.e1e2e3e4 * c.e0e1 + b.e1e3 * c.e0e1e2e4 - b.e1e4 * c.e0e1e2e3 + b.e2e3 * c.e0e4 - b.e2e4 * c.e0e3 + b.e3e4 * c.e0e2 + b.s * c.e0e2e3e4));
    scale_right_transform_e0e1(a, b, c.e1e2e3e4);
    scale_right_transform_e0e1e2e3(a, b, c.e1e4);
    scale_right_transform_e0e1e2e4(a, b, c.e1e3);
    scale_right_transform_e0e1e3e4(a, b, c.e1e2);
    scale_right_transform_e0e2(a, b, c.e3e4);
    scale_right_transform_e0e2e3e4(a, b, c.s);
    scale_right_transform_e0e3(a, b, c.e2e4);
    scale_right_transform_e0e4(a, b, c.e2e3);
    scale_right_transform_e1e2(a, b, c.e0e1e3e4);
    scale_right_transform_e1e2e3e4(a, b, c.e0e1);
    scale_right_transform_e1e3(a, b, c.e0e1e2e4);
    scale_right_transform_e1e4(a, b, c.e0e1e2e3);
    scale_right_transform_e2e3(a, b, c.e0e4);
    scale_right_transform_e2e4(a, b, c.e0e3);
    scale_right_transform_e3e4(a, b, c.e0e2);
    scale_right_transform_s(a, b, c.e0e2e3e4);
    scale_left_transform_e1e2e3e4(b, c, a.e0e1);
    scale_left_transform_e1e4(b, c, a.e0e1e2e3);
    scale_left_transform_e1e3(b, c, a.e0e1e2e4);
    scale_left_transform_e1e2(b, c, a.e0e1e3e4);
    scale_left_transform_e3e4(b, c, a.e0e2);
    scale_left_transform_s(b, c, a.e0e2e3e4);
    scale_left_transform_e2e4(b, c, a.e0e3);
    scale_left_transform_e2e3(b, c, a.e0e4);
    scale_left_transform_e0e1e3e4(b, c, a.e1e2);
    scale_left_transform_e0e1(b, c, a.e1e2e3e4);
    scale_left_transform_e0e1e2e4(b, c, a.e1e3);
    scale_left_transform_e0e1e2e3(b, c, a.e1e4);
    scale_left_transform_e0e4(b, c, a.e2e3);
    scale_left_transform_e0e3(b, c, a.e2e4);
    scale_left_transform_e0e2(b, c, a.e3e4);
    scale_left_transform_e0e2e3e4(b, c, a.s);
    assert(l.e0e2e3e4 == (a.e0e1 * b.e1e2) * c.e3e4 + (a.e0e1 * b.e1e2e3e4) * c.s - (a.e0e1 * b.e1e3) * c.e2e4 + (a.e0e1 * b.e1e4) * c.e2e3 + (a.e0e1 * b.e2e3) * c.e1e4 - (a.e0e1 * b.e2e4) * c.e1e3 + (a.e0e1 * b.e3e4) * c.e1e2 + (a.e0e1 * b.s) * c.e1e2e3e4 + (a.e0e1e2e3 * b.e1e2) * c.e2e4 - (a.e0e1e2e3 * b.e1e2e3e4) * c.e2e3 + (a.e0e1e2e3 * b.e1e3) * c.e3e4 + (a.e0e1e2e3 * b.e1e4) * c.s - (a.e0e1e2e3 * b.e2e3) * c.e1e2e3e4 - (a.e0e1e2e3 * b.e2e4) * c.e1e2 - (a.e0e1e2e3 * b.e3e4) * c.e1e3 + (a.e0e1e2e3 * b.s) * c.e1e4 - (a.e0e1e2e4 * b.e1e2) * c.e2e3 - (a.e0e1e2e4 * b.e1e2e3e4) * c.e2e4 - (a.e0e1e2e4 * b.e1e3) * c.s + (a.e0e1e2e4 * b.e1e4) * c.e3e4 + (a.e0e1e2e4 * b.e2e3) * c.e1e2 - (a.e0e1e2e4 * b.e2e4) * c.e1e2e3e4 - (a.e0e1e2e4 * b.e3e4) * c.e1e4 - (a.e0e1e2e4 * b.s) * c.e1e3 + (a.e0e1e3e4 * b.e1e2) * c.s - (a.e0e1e3e4 * b.e1e2e3e4) * c.e3e4 - (a.e0e1e3e4 * b.e1e3) * c.e2e3 - (a.e0e1e3e4 * b.e1e4) * c.e2e4 + (a.e0e1e3e4 * b.e2e3) * c.e1e3 + (a.e0e1e3e4 * b.e2e4) * c.e1e4 - (a.e0e1e3e4 * b.e3e4) * c.e1e2e3e4 + (a.e0e1e3e4 * b.s) * c.e1e2 - (a.e0e2 * b.e1e2) * c.e1e2e3e4 - (a.e0e2 * b.e1e2e3e4) * c.e1e2 - (a.e0e2 * b.e1e3) * c.e1e4 + (a.e0e2 * b.e1e4) * c.e1e3 - (a.e0e2 * b.e2e3) * c.e2e4 + (a.e0e2 * b.e2e4) * c.e2e3 + (a.e0e2 * b.e3e4) * c.s + (a.e0e2 * b.s) * c.e3e4 - (a.e0e2e3e4 * b.e1e2) * c.e1e2 + (a.e0e2e3e4 * b.e1e2e3e4) * c.e1e2e3e4 - (a.e0e2e3e4 * b.e1e3) * c.e1e3 - (a.e0e2e3e4 * b.e1e4) * c.e1e4 - (a.e0e2e3e4 * b.e2e3) * c.e2e3 - (a.e0e2e3e4 * b.e2e4) * c.e2e4 - (a.e0e2e3e4 * b.e3e4) * c.e3e4 + (a.e0e2e3e4 * b.s) * c.s + (a.e0e3 * b.e1e2) * c.e1e4 - (a.e0e3 * b.e1e2e3e4) * c.e1e3 - (a.e0e3 * b.e1e3) * c.e1e2e3e4 - (a.e0e3 * b.e1e4) * c.e1e2 - (a.e0e3 * b.e2e3) * c.e3e4 - (a.e0e3 * b.e2e4) * c.s + (a.e0e3 * b.e3e4) * c.e2e3 - (a.e0e3 * b.s) * c.e2e4 - (a.e0e4 * b.e1e2) * c.e1e3 - (a.e0e4 * b.e1e2e3e4) * c.e1e4 + (a.e0e4 * b.e1e3) * c.e1e2 - (a.e0e4 * b.e1e4) * c.e1e2e3e4 + (a.e0e4 * b.e2e3) * c.s - (a.e0e4 * b.e2e4) * c.e3e4 + (a.e0e4 * b.e3e4) * c.e2e4 + (a.e0e4 * b.s) * c.e2e3 - (a.e1e2 * b.e0e1) * c.e3e4 + (a.e1e2 * b.e0e1e2e3) * c.e2e4 - (a.e1e2 * b.e0e1e2e4) * c.e2e3 - (a.e1e2 * b.e0e1e3e4) * c.s + (a.e1e2 * b.e0e2) * c.e1e2e3e4 + (a.e1e2 * b.e0e2e3e4) * c.e1e2 + (a.e1e2 * b.e0e3) * c.e1e4 - (a.e1e2 * b.e0e4) * c.e1e3 - (a.e1e2 * b.e1e2) * c.e0e2e3e4 - (a.e1e2 * b.e1e2e3e4) * c.e0e2 - (a.e1e2 * b.e1e3) * c.e0e4 + (a.e1e2 * b.e1e4) * c.e0e3 + (a.e1e2 * b.e2e3) * c.e0e1e2e4 - (a.e1e2 * b.e2e4) * c.e0e1e2e3 - (a.e1e2 * b.e3e4) * c.e0e1 - (a.e1e2 * b.s) * c.e0e1e3e4 - (a.e1e2e3e4 * b.e0e1) * c.s + (a.e1e2e3e4 * b.e0e1e2e3) * c.e2e3 + (a.e1e2e3e4 * b.e0e1e2e4) * c.e2e4 + (a.e1e2e3e4 * b.e0e1e3e4) * c.e3e4 + (a.e1e2e3e4 * b.e0e2) * c.e1e2 - (a.e1e2e3e4 * b.e0e2e3e4) * c.e1e2e3e4 + (a.e1e2e3e4 * b.e0e3) * c.e1e3 + (a.e1e2e3e4 * b.e0e4) * c.e1e4 - (a.e1e2e3e4 * b.e1e2) * c.e0e2 + (a.e1e2e3e4 * b.e1e2e3e4) * c.e0e2e3e4 - (a.e1e2e3e4 * b.e1e3) * c.e0e3 - (a.e1e2e3e4 * b.e1e4) * c.e0e4 + (a.e1e2e3e4 * b.e2e3) * c.e0e1e2e3 + (a.e1e2e3e4 * b.e2e4) * c.e0e1e2e4 + (a.e1e2e3e4 * b.e3e4) * c.e0e1e3e4 - (a.e1e2e3e4 * b.s) * c.e0e1 + (a.e1e3 * b.e0e1) * c.e2e4 + (a.e1e3 * b.e0e1e2e3) * c.e3e4 + (a.e1e3 * b.e0e1e2e4) * c.s - (a.e1e3 * b.e0e1e3e4) * c.e2e3 - (a.e1e3 * b.e0e2) * c.e1e4 + (a.e1e3 * b.e0e2e3e4) * c.e1e3 + (a.e1e3 * b.e0e3) * c.e1e2e3e4 + (a.e1e3 * b.e0e4) * c.e1e2 + (a.e1e3 * b.e1e2) * c.e0e4 - (a.e1e3 * b.e1e2e3e4) * c.e0e3 - (a.e1e3 * b.e1e3) * c.e0e2e3e4 - (a.e1e3 * b.e1e4) * c.e0e2 + (a.e1e3 * b.e2e3) * c.e0e1e3e4 + (a.e1e3 * b.e2e4) * c.e0e1 - (a.e1e3 * b.e3e4) * c.e0e1e2e3 + (a.e1e3 * b.s) * c.e0e1e2e4 - (a.e1e4 * b.e0e1) * c.e2e3 - (a.e1e4 * b.e0e1e2e3) * c.s + (a.e1e4 * b.e0e1e2e4) * c.e3e4 - (a.e1e4 * b.e0e1e3e4) * c.e2e4 + (a.e1e4 * b.e0e2) * c.e1e3 + (a.e1e4 * b.e0e2e3e4) * c.e1e4 - (a.e1e4 * b.e0e3) * c.e1e2 + (a.e1e4 * b.e0e4) * c.e1e2e3e4 - (a.e1e4 * b.e1e2) * c.e0e3 - (a.e1e4 * b.e1e2e3e4) * c.e0e4 + (a.e1e4 * b.e1e3) * c.e0e2 - (a.e1e4 * b.e1e4) * c.e0e2e3e4 - (a.e1e4 * b.e2e3) * c.e0e1 + (a.e1e4 * b.e2e4) * c.e0e1e3e4 - (a.e1e4 * b.e3e4) * c.e0e1e2e4 - (a.e1e4 * b.s) * c.e0e1e2e3 + (a.e2e3 * b.e0e1) * c.e1e4 - (a.e2e3 * b.e0e1e2e3) * c.e1e2e3e4 - (a.e2e3 * b.e0e1e2e4) * c.e1e2 - (a.e2e3 * b.e0e1e3e4) * c.e1e3 + (a.e2e3 * b.e0e2) * c.e2e4 - (a.e2e3 * b.e0e2e3e4) * c.e2e3 + (a.e2e3 * b.e0e3) * c.e3e4 + (a.e2e3 * b.e0e4) * c.s - (a.e2e3 * b.e1e2) * c.e0e1e2e4 + (a.e2e3 * b.e1e2e3e4) * c.e0e1e2e3 - (a.e2e3 * b.e1e3) * c.e0e1e3e4 - (a.e2e3 * b.e1e4) * c.e0e1 - (a.e2e3 * b.e2e3) * c.e0e2e3e4 - (a.e2e3 * b.e2e4) * c.e0e2 - (a.e2e3 * b.e3e4) * c.e0e3 + (a.e2e3 * b.s) * c.e0e4 - (a.e2e4 * b.e0e1) * c.e1e3 + (a.e2e4 * b.e0e1e2e3) * c.e1e2 - (a.e2e4 * b.e0e1e2e4) * c.e1e2e3e4 - (a.e2e4 * b.e0e1e3e4) * c.e1e4 - (a.e2e4 * b.e0e2) * c.e2e3 - (a.e2e4 * b.e0e2e3e4) * c.e2e4 - (a.e2e4 * b.e0e3) * c.s + (a.e2e4 * b.e0e4) * c.e3e4 + (a.e2e4 * b.e1e2) * c.e0e1e2e3 + (a.e2e4 * b.e1e2e3e4) * c.e0e1e2e4 + (a.e2e4 * b.e1e3) * c.e0e1 - (a.e2e4 * b.e1e4) * c.e0e1e3e4 + (a.e2e4 * b.e2e3) * c.e0e2 - (a.e2e4 * b.e2e4) * c.e0e2e3e4 - (a.e2e4 * b.e3e4) * c.e0e4 - (a.e2e4 * b.s) * c.e0e3 + (a.e3e4 * b.e0e1) * c.e1e2 + (a.e3e4 * b.e0e1e2e3) * c.e1e3 + (a.e3e4 * b.e0e1e2e4) * c.e1e4 - (a.e3e4 * b.e0e1e3e4) * c.e1e2e3e4 + (a.e3e4 * b.e0e2) * c.s - (a.e3e4 * b.e0e2e3e4) * c.e3e4 - (a.e3e4 * b.e0e3) * c.e2e3 - (a.e3e4 * b.e0e4) * c.e2e4 - (a.e3e4 * b.e1e2) * c.e0e1 + (a.e3e4 * b.e1e2e3e4) * c.e0e1e3e4 + (a.e3e4 * b.e1e3) * c.e0e1e2e3 + (a.e3e4 * b.e1e4) * c.e0e1e2e4 + (a.e3e4 * b.e2e3) * c.e0e3 + (a.e3e4 * b.e2e4) * c.e0e4 - (a.e3e4 * b.e3e4) * c.e0e2e3e4 + (a.e3e4 * b.s) * c.e0e2 + (a.s * b.e0e1) * c.e1e2e3e4 + (a.s * b.e0e1e2e3) * c.e1e4 - (a.s * b.e0e1e2e4) * c.e1e3 + (a.s * b.e0e1e3e4) * c.e1e2 + (a.s * b.e0e2) * c.e3e4 + (a.s * b.e0e2e3e4) * c.s - (a.s * b.e0e3) * c.e2e4 + (a.s * b.e0e4) * c.e2e3 - (a.s * b.e1e2) * c.e0e1e3e4 - (a.s * b.e1e2e3e4) * c.e0e1 + (a.s * b.e1e3) * c.e0e1e2e4 - (a.s * b.e1e4) * c.e0e1e2e3 + (a.s * b.e2e3) * c.e0e4 - (a.s * b.e2e4) * c.e0e3 + (a.s * b.e3e4) * c.e0e2 + (a.s * b.s) * c.e0e2e3e4);
    assert(r.e0e2e3e4 == (a.e0e1 * b.e1e2) * c.e3e4 + (a.e0e1 * b.e1e2e3e4) * c.s - (a.e0e1 * b.e1e3) * c.e2e4 + (a.e0e1 * b.e1e4) * c.e2e3 + (a.e0e1 * b.e2e3) * c.e1e4 - (a.e0e1 * b.e2e4) * c.e1e3 + (a.e0e1 * b.e3e4) * c.e1e2 + (a.e0e1 * b.s) * c.e1e2e3e4 + (a.e0e1e2e3 * b.e1e2) * c.e2e4 - (a.e0e1e2e3 * b.e1e2e3e4) * c.e2e3 + (a.e0e1e2e3 * b.e1e3) * c.e3e4 + (a.e0e1e2e3 * b.e1e4) * c.s - (a.e0e1e2e3 * b.e2e3) * c.e1e2e3e4 - (a.e0e1e2e3 * b.e2e4) * c.e1e2 - (a.e0e1e2e3 * b.e3e4) * c.e1e3 + (a.e0e1e2e3 * b.s) * c.e1e4 - (a.e0e1e2e4 * b.e1e2) * c.e2e3 - (a.e0e1e2e4 * b.e1e2e3e4) * c.e2e4 - (a.e0e1e2e4 * b.e1e3) * c.s + (a.e0e1e2e4 * b.e1e4) * c.e3e4 + (a.e0e1e2e4 * b.e2e3) * c.e1e2 - (a.e0e1e2e4 * b.e2e4) * c.e1e2e3e4 - (a.e0e1e2e4 * b.e3e4) * c.e1e4 - (a.e0e1e2e4 * b.s) * c.e1e3 + (a.e0e1e3e4 * b.e1e2) * c.s - (a.e0e1e3e4 * b.e1e2e3e4) * c.e3e4 - (a.e0e1e3e4 * b.e1e3) * c.e2e3 - (a.e0e1e3e4 * b.e1e4) * c.e2e4 + (a.e0e1e3e4 * b.e2e3) * c.e1e3 + (a.e0e1e3e4 * b.e2e4) * c.e1e4 - (a.e0e1e3e4 * b.e3e4) * c.e1e2e3e4 + (a.e0e1e3e4 * b.s) * c.e1e2 - (a.e0e2 * b.e1e2) * c.e1e2e3e4 - (a.e0e2 * b.e1e2e3e4) * c.e1e2 - (a.e0e2 * b.e1e3) * c.e1e4 + (a.e0e2 * b.e1e4) * c.e1e3 - (a.e0e2 * b.e2e3) * c.e2e4 + (a.e0e2 * b.e2e4) * c.e2e3 + (a.e0e2 * b.e3e4) * c.s + (a.e0e2 * b.s) * c.e3e4 - (a.e0e2e3e4 * b.e1e2) * c.e1e2 + (a.e0e2e3e4 * b.e1e2e3e4) * c.e1e2e3e4 - (a.e0e2e3e4 * b.e1e3) * c.e1e3 - (a.e0e2e3e4 * b.e1e4) * c.e1e4 - (a.e0e2e3e4 * b.e2e3) * c.e2e3 - (a.e0e2e3e4 * b.e2e4) * c.e2e4 - (a.e0e2e3e4 * b.e3e4) * c.e3e4 + (a.e0e2e3e4 * b.s) * c.s + (a.e0e3 * b.e1e2) * c.e1e4 - (a.e0e3 * b.e1e2e3e4) * c.e1e3 - (a.e0e3 * b.e1e3) * c.e1e2e3e4 - (a.e0e3 * b.e1e4) * c.e1e2 - (a.e0e3 * b.e2e3) * c.e3e4 - (a.e0e3 * b.e2e4) * c.s + (a.e0e3 * b.e3e4) * c.e2e3 - (a.e0e3 * b.s) * c.e2e4 - (a.e0e4 * b.e1e2) * c.e1e3 - (a.e0e4 * b.e1e2e3e4) * c.e1e4 + (a.e0e4 * b.e1e3) * c.e1e2 - (a.e0e4 * b.e1e4) * c.e1e2e3e4 + (a.e0e4 * b.e2e3) * c.s - (a.e0e4 * b.e2e4) * c.e3e4 + (a.e0e4 * b.e3e4) * c.e2e4 + (a.e0e4 * b.s) * c.e2e3 - (a.e1e2 * b.e0e1) * c.e3e4 + (a.e1e2 * b.e0e1e2e3) * c.e2e4 - (a.e1e2 * b.e0e1e2e4) * c.e2e3 - (a.e1e2 * b.e0e1e3e4) * c.s + (a.e1e2 * b.e0e2) * c.e1e2e3e4 + (a.e1e2 * b.e0e2e3e4) * c.e1e2 + (a.e1e2 * b.e0e3) * c.e1e4 - (a.e1e2 * b.e0e4) * c.e1e3 - (a.e1e2 * b.e1e2) * c.e0e2e3e4 - (a.e1e2 * b.e1e2e3e4) * c.e0e2 - (a.e1e2 * b.e1e3) * c.e0e4 + (a.e1e2 * b.e1e4) * c.e0e3 + (a.e1e2 * b.e2e3) * c.e0e1e2e4 - (a.e1e2 * b.e2e4) * c.e0e1e2e3 - (a.e1e2 * b.e3e4) * c.e0e1 - (a.e1e2 * b.s) * c.e0e1e3e4 - (a.e1e2e3e4 * b.e0e1) * c.s + (a.e1e2e3e4 * b.e0e1e2e3) * c.e2e3 + (a.e1e2e3e4 * b.e0e1e2e4) * c.e2e4 + (a.e1e2e3e4 * b.e0e1e3e4) * c.e3e4 + (a.e1e2e3e4 * b.e0e2) * c.e1e2 - (a.e1e2e3e4 * b.e0e2e3e4) * c.e1e2e3e4 + (a.e1e2e3e4 * b.e0e3) * c.e1e3 + (a.e1e2e3e4 * b.e0e4) * c.e1e4 - (a.e1e2e3e4 * b.e1e2) * c.e0e2 + (a.e1e2e3e4 * b.e1e2e3e4) * c.e0e2e3e4 - (a.e1e2e3e4 * b.e1e3) * c.e0e3 - (a.e1e2e3e4 * b.e1e4) * c.e0e4 + (a.e1e2e3e4 * b.e2e3) * c.e0e1e2e3 + (a.e1e2e3e4 * b.e2e4) * c.e0e1e2e4 + (a.e1e2e3e4 * b.e3e4) * c.e0e1e3e4 - (a.e1e2e3e4 * b.s) * c.e0e1 + (a.e1e3 * b.e0e1) * c.e2e4 + (a.e1e3 * b.e0e1e2e3) * c.e3e4 + (a.e1e3 * b.e0e1e2e4) * c.s - (a.e1e3 * b.e0e1e3e4) * c.e2e3 - (a.e1e3 * b.e0e2) * c.e1e4 + (a.e1e3 * b.e0e2e3e4) * c.e1e3 + (a.e1e3 * b.e0e3) * c.e1e2e3e4 + (a.e1e3 * b.e0e4) * c.e1e2 + (a.e1e3 * b.e1e2) * c.e0e4 - (a.e1e3 * b.e1e2e3e4) * c.e0e3 - (a.e1e3 * b.e1e3) * c.e0e2e3e4 - (a.e1e3 * b.e1e4) * c.e0e2 + (a.e1e3 * b.e2e3) * c.e0e1e3e4 + (a.e1e3 * b.e2e4) * c.e0e1 - (a.e1e3 * b.e3e4) * c.e0e1e2e3 + (a.e1e3 * b.s) * c.e0e1e2e4 - (a.e1e4 * b.e0e1) * c.e2e3 - (a.e1e4 * b.e0e1e2e3) * c.s + (a.e1e4 * b.e0e1e2e4) * c.e3e4 - (a.e1e4 * b.e0e1e3e4) * c.e2e4 + (a.e1e4 * b.e0e2) * c.e1e3 + (a.e1e4 * b.e0e2e3e4) * c.e1e4 - (a.e1e4 * b.e0e3) * c.e1e2 + (a.e1e4 * b.e0e4) * c.e1e2e3e4 - (a.e1e4 * b.e1e2) * c.e0e3 - (a.e1e4 * b.e1e2e3e4) * c.e0e4 + (a.e1e4 * b.e1e3) * c.e0e2 - (a.e1e4 * b.e1e4) * c.e0e2e3e4 - (a.e1e4 * b.e2e3) * c.e0e1 + (a.e1e4 * b.e2e4) * c.e0e1e3e4 - (a.e1e4 * b.e3e4) * c.e0e1e2e4 - (a.e1e4 * b.s) * c.e0e1e2e3 + (a.e2e3 * b.e0e1) * c.e1e4 - (a.e2e3 * b.e0e1e2e3) * c.e1e2e3e4 - (a.e2e3 * b.e0e1e2e4) * c.e1e2 - (a.e2e3 * b.e0e1e3e4) * c.e1e3 + (a.e2e3 * b.e0e2) * c.e2e4 - (a.e2e3 * b.e0e2e3e4) * c.e2e3 + (a.e2e3 * b.e0e3) * c.e3e4 + (a.e2e3 * b.e0e4) * c.s - (a.e2e3 * b.e1e2) * c.e0e1e2e4 + (a.e2e3 * b.e1e2e3e4) * c.e0e1e2e3 - (a.e2e3 * b.e1e3) * c.e0e1e3e4 - (a.e2e3 * b.e1e4) * c.e0e1 - (a.e2e3 * b.e2e3) * c.e0e2e3e4 - (a.e2e3 * b.e2e4) * c.e0e2 - (a.e2e3 * b.e3e4) * c.e0e3 + (a.e2e3 * b.s) * c.e0e4 - (a.e2e4 * b.e0e1) * c.e1e3 + (a.e2e4 * b.e0e1e2e3) * c.e1e2 - (a.e2e4 * b.e0e1e2e4) * c.e1e2e3e4 - (a.e2e4 * b.e0e1e3e4) * c.e1e4 - (a.e2e4 * b.e0e2) * c.e2e3 - (a.e2e4 * b.e0e2e3e4) * c.e2e4 - (a.e2e4 * b.e0e3) * c.s + (a.e2e4 * b.e0e4) * c.e3e4 + (a.e2e4 * b.e1e2) * c.e0e1e2e3 + (a.e2e4 * b.e1e2e3e4) * c.e0e1e2e4 + (a.e2e4 * b.e1e3) * c.e0e1 - (a.e2e4 * b.e1e4) * c.e0e1e3e4 + (a.e2e4 * b.e2e3) * c.e0e2 - (a.e2e4 * b.e2e4) * c.e0e2e3e4 - (a.e2e4 * b.e3e4) * c.e0e4 - (a.e2e4 * b.s) * c.e0e3 + (a.e3e4 * b.e0e1) * c.e1e2 + (a.e3e4 * b.e0e1e2e3) * c.e1e3 + (a.e3e4 * b.e0e1e2e4) * c.e1e4 - (a.e3e4 * b.e0e1e3e4) * c.e1e2e3e4 + (a.e3e4 * b.e0e2) * c.s - (a.e3e4 * b.e0e2e3e4) * c.e3e4 - (a.e3e4 * b.e0e3) * c.e2e3 - (a.e3e4 * b.e0e4) * c.e2e4 - (a.e3e4 * b.e1e2) * c.e0e1 + (a.e3e4 * b.e1e2e3e4) * c.e0e1e3e4 + (a.e3e4 * b.e1e3) * c.e0e1e2e3 + (a.e3e4 * b.e1e4) * c.e0e1e2e4 + (a.e3e4 * b.e2e3) * c.e0e3 + (a.e3e4 * b.e2e4) * c.e0e4 - (a.e3e4 * b.e3e4) * c.e0e2e3e4 + (a.e3e4 * b.s) * c.e0e2 + (a.s * b.e0e1) * c.e1e2e3e4 + (a.s * b.e0e1e2e3) * c.e1e4 - (a.s * b.e0e1e2e4) * c.e1e3 + (a.s * b.e0e1e3e4) * c.e1e2 + (a.s * b.e0e2) * c.e3e4 + (a.s * b.e0e2e3e4) * c.s - (a.s * b.e0e3) * c.e2e4 + (a.s * b.e0e4) * c.e2e3 - (a.s * b.e1e2) * c.e0e1e3e4 - (a.s * b.e1e2e3e4) * c.e0e1 + (a.s * b.e1e3) * c.e0e1e2e4 - (a.s * b.e1e4) * c.e0e1e2e3 + (a.s * b.e2e3) * c.e0e4 - (a.s * b.e2e4) * c.e0e3 + (a.s * b.e3e4) * c.e0e2 + (a.s * b.s) * c.e0e2e3e4);
    assert(l.e1e2e3e4 == (a.e1e2 * b.s - a.e1e2e3e4 * b.e3e4 - a.e1e3 * b.e2e3 - a.e1e4 * b.e2e4 + a.e2e3 * b.e1e3 + a.e2e4 * b.e1e4 - a.e3e4 * b.e1e2e3e4 + a.s * b.e1e2) * c.e3e4 + (a.e1e2 * b.e3e4 + a.e1e2e3e4 * b.s - a.e1e3 * b.e2e4 + a.e1e4 * b.e2e3 + a.e2e3 * b.e1e4 - a.e2e4 * b.e1e3 + a.e3e4 * b.e1e2 + a.s * b.e1e2e3e4) * c.s - (a.e1e2 * b.e2e3 + a.e1e2e3e4 * b.e2e4 + a.e1e3 * b.s - a.e1e4 * b.e3e4 - a.e2e3 * b.e1e2 + a.e2e4 * b.e1e2e3e4 + a.e3e4 * b.e1e4 + a.s * b.e1e3) * c.e2e4 + (a.e1e2 * b.e2e4 - a.e1e2e3e4 * b.e2e3 + a.e1e3 * b.e3e4 + a.e1e4 * b.s - a.e2e3 * b.e1e2e3e4 - a.e2e4 * b.e1e2 - a.e3e4 * b.e1e3 + a.s * b.e1e4) * c.e2e3 + (-(a.e1e2 * b.e1e3) - a.e1e2e3e4 * b.e1e4 + a.e1e3 * b.e1e2 - a.e1e4 * b.e1e2e3e4 + a.e2e3 * b.s - a.e2e4 * b.e3e4 + a.e3e4 * b.e2e4 + a.s * b.e2e3) * c.e1e4 - (-(a.e1e2 * b.e1e4) + a.e1e2e3e4 * b.e1e3 + a.e1e3 * b.e1e2e3e4 + a.e1e4 * b.e1e2 + a.e2e3 * b.e3e4 + a.e2e4 * b.s - a.e3e4 * b.e2e3 + a.s * b.e2e4) * c.e1e3 + (-(a.e1e2 * b.e1e2e3e4) - a.e1e2e3e4 * b.e1e2 - a.e1e3 * b.e1e4 + a.e1e4 * b.e1e3 - a.e2e3 * b.e2e4 + a.e2e4 * b.e2e3 + a.e3e4 * b.s + a.s * b.e3e4) * c.e1e2 + (-(a.e1e2 * b.e1e2) + a.e1e2e3e4 * b.e1e2e3e4 - a.e1e3 * b.e1e3 - a.e1e4 * b.e1e4 - a.e2e3 * b.e2e3 - a.e2e4 * b.e2e4 - a.e3e4 * b.e3e4 + a.s * b.s) * c.e1e2e3e4);
    assert(r.e1e2e3e4 == a.e1e2 * (-(b.e1e2 * c.e1e2e3e4) - b.e1e2e3e4 * c.e1e2 - b.e1e3 * c.e1e4 + b.e1e4 * c.e1e3 - b.e2e3 * c.e2e4 + b.e2e4 * c.e2e3 + b.e3e4 * c.s + b.s * c.e3e4) + a.e1e2e3e4 * (-(b.e1e2 * c.e1e2) + b.e1e2e3e4 * c.e1e2e3e4 - b.e1e3 * c.e1e3 - b.e1e4 * c.e1e4 - b.e2e3 * c.e2e3 - b.e2e4 * c.e2e4 - b.e3e4 * c.e3e4 + b.s * c.s) - a.e1e3 * (-(b.e1e2 * c.e1e4) + b.e1e2e3e4 * c.e1e3 + b.e1e3 * c.e1e2e3e4 + b.e1e4 * c.e1e2 + b.e2e3 * c.e3e4 + b.e2e4 * c.s - b.e3e4 * c.e2e3 + b.s * c.e2e4) + a.e1e4 * (-(b.e1e2 * c.e1e3) - b.e1e2e3e4 * c.e1e4 + b.e1e3 * c.e1e2 - b.e1e4 * c.e1e2e3e4 + b.e2e3 * c.s - b.e2e4 * c.e3e4 + b.e3e4 * c.e2e4 + b.s * c.e2e3) + a.e2e3 * (b.e1e2 * c.e2e4 - b.e1e2e3e4 * c.e2e3 + b.e1e3 * c.e3e4 + b.e1e4 * c.s - b.e2e3 * c.e1e2e3e4 - b.e2e4 * c.e1e2 - b.e3e4 * c.e1e3 + b.s * c.e1e4) - a.e2e4 * (b.e1e2 * c.e2e3 + b.e1e2e3e4 * c.e2e4 + b.e1e3 * c.s - b.e1e4 * c.e3e4 - b.e2e3 * c.e1e2 + b.e2e4 * c.e1e2e3e4 + b.e3e4 * c.e1e4 + b.s * c.e1e3) + a.e3e4 * (b.e1e2 * c.s - b.e1e2e3e4 * c.e3e4 - b.e1e3 * c.e2e3 - b.e1e4 * c.e2e4 + b.e2e3 * c.e1e3 + b.e2e4 * c.e1e4 - b.e3e4 * c.e1e2e3e4 + b.s * c.e1e2) + a.s * (b.e1e2 * c.e3e4 + b.e1e2e3e4 * c.s - b.e1e3 * c.e2e4 + b.e1e4 * c.e2e3 + b.e2e3 * c.e1e4 - b.e2e4 * c.e1e3 + b.e3e4 * c.e1e2 + b.s * c.e1e2e3e4));
    scale_right_transform_e1e2(a, b, c.e3e4);
    scale_right_transform_e1e2e3e4(a, b, c.s);
    scale_right_transform_e1e3(a, b, c.e2e4);
    scale_right_transform_e1e4(a, b, c.e2e3);
    scale_right_transform_e2e3(a, b, c.e1e4);
    scale_right_transform_e2e4(a, b, c.e1e3);
    scale_right_transform_e3e4(a, b, c.e1e2);
    scale_right_transform_s(a, b, c.e1e2e3e4);
    scale_left_transform_e3e4(b, c, a.e1e2);
    scale_left_transform_s(b, c, a.e1e2e3e4);
    scale_left_transform_e2e4(b, c, a.e1e3);
    scale_left_transform_e2e3(b, c, a.e1e4);
    scale_left_transform_e1e4(b, c, a.e2e3);
    scale_left_transform_e1e3(b, c, a.e2e4);
    scale_left_transform_e1e2(b, c, a.e3e4);
    scale_left_transform_e1e2e3e4(b, c, a.s);
    assert(l.e1e2e3e4 == -((a.e1e2 * b.e1e2) * c.e1e2e3e4) - (a.e1e2 * b.e1e2e3e4) * c.e1e2 - (a.e1e2 * b.e1e3) * c.e1e4 + (a.e1e2 * b.e1e4) * c.e1e3 - (a.e1e2 * b.e2e3) * c.e2e4 + (a.e1e2 * b.e2e4) * c.e2e3 + (a.e1e2 * b.e3e4) * c.s + (a.e1e2 * b.s) * c.e3e4 - (a.e1e2e3e4 * b.e1e2) * c.e1e2 + (a.e1e2e3e4 * b.e1e2e3e4) * c.e1e2e3e4 - (a.e1e2e3e4 * b.e1e3) * c.e1e3 - (a.e1e2e3e4 * b.e1e4) * c.e1e4 - (a.e1e2e3e4 * b.e2e3) * c.e2e3 - (a.e1e2e3e4 * b.e2e4) * c.e2e4 - (a.e1e2e3e4 * b.e3e4) * c.e3e4 + (a.e1e2e3e4 * b.s) * c.s + (a.e1e3 * b.e1e2) * c.e1e4 - (a.e1e3 * b.e1e2e3e4) * c.e1e3 - (a.e1e3 * b.e1e3) * c.e1e2e3e4 - (a.e1e3 * b.e1e4) * c.e1e2 - (a.e1e3 * b.e2e3) * c.e3e4 - (a.e1e3 * b.e2e4) * c.s + (a.e1e3 * b.e3e4) * c.e2e3 - (a.e1e3 * b.s) * c.e2e4 - (a.e1e4 * b.e1e2) * c.e1e3 - (a.e1e4 * b.e1e2e3e4) * c.e1e4 + (a.e1e4 * b.e1e3) * c.e1e2 - (a.e1e4 * b.e1e4) * c.e1e2e3e4 + (a.e1e4 * b.e2e3) * c.s - (a.e1e4 * b.e2e4) * c.e3e4 + (a.e1e4 * b.e3e4) * c.e2e4 + (a.e1e4 * b.s) * c.e2e3 + (a.e2e3 * b.e1e2) * c.e2e4 - (a.e2e3 * b.e1e2e3e4) * c.e2e3 + (a.e2e3 * b.e1e3) * c.e3e4 + (a.e2e3 * b.e1e4) * c.s - (a.e2e3 * b.e2e3) * c.e1e2e3e4 - (a.e2e3 * b.e2e4) * c.e1e2 - (a.e2e3 * b.e3e4) * c.e1e3 + (a.e2e3 * b.s) * c.e1e4 - (a.e2e4 * b.e1e2) * c.e2e3 - (a.e2e4 * b.e1e2e3e4) * c.e2e4 - (a.e2e4 * b.e1e3) * c.s + (a.e2e4 * b.e1e4) * c.e3e4 + (a.e2e4 * b.e2e3) * c.e1e2 - (a.e2e4 * b.e2e4) * c.e1e2e3e4 - (a.e2e4 * b.e3e4) * c.e1e4 - (a.e2e4 * b.s) * c.e1e3 + (a.e3e4 * b.e1e2) * c.s - (a.e3e4 * b.e1e2e3e4) * c.e3e4 - (a.e3e4 * b.e1e3) * c.e2e3 - (a.e3e4 * b.e1e4) * c.e2e4 + (a.e3e4 * b.e2e3) * c.e1e3 + (a.e3e4 * b.e2e4) * c.e1e4 - (a.e3e4 * b.e3e4) * c.e1e2e3e4 + (a.e3e4 * b.s) * c.e1e2 + (a.s * b.e1e2) * c.e3e4 + (a.s * b.e1e2e3e4) * c.s - (a.s * b.e1e3) * c.e2e4 + (a.s * b.e1e4) * c.e2e3 + (a.s * b.e2e3) * c.e1e4 - (a.s * b.e2e4) * c.e1e3 + (a.s * b.e3e4) * c.e1e2 + (a.s * b.s) * c.e1e2e3e4);
    assert(r.e1e2e3e4 == -((a.e1e2 * b.e1e2) * c.e1e2e3e4) - (a.e1e2 * b.e1e2e3e4) * c.e1e2 - (a.e1e2 * b.e1e3) * c.e1e4 + (a.e1e2 * b.e1e4) * c.e1e3 - (a.e1e2 * b.e2e3) * c.e2e4 + (a.e1e2 * b.e2e4) * c.e2e3 + (a.e1e2 * b.e3e4) * c.s + (a.e1e2 * b.s) * c.e3e4 - (a.e1e2e3e4 * b.e1e2) * c.e1e2 + (a.e1e2e3e4 * b.e1e2e3e4) * c.e1e2e3e4 - (a.e1e2e3e4 * b.e1e3) * c.e1e3 - (a.e1e2e3e4 * b.e1e4) * c.e1e4 - (a.e1e2e3e4 * b.e2e3) * c.e2e3 - (a.e1e2e3e4 * b.e2e4) * c.e2e4 - (a.e1e2e3e4 * b.e3e4) * c.e3e4 + (a.e1e2e3e4 * b.s) * c.s + (a.e1e3 * b.e1e2) * c.e1e4 - (a.e1e3 * b.e1e2e3e4) * c.e1e3 - (a.e1e3 * b.e1e3) * c.e1e2e3e4 - (a.e1e3 * b.e1e4) * c.e1e2 - (a.e1e3 * b.e2e3) * c.e3e4 - (a.e1e3 * b.e2e4) * c.s + (a.e1e3 * b.e3e4) * c.e2e3 - (a.e1e3 * b.s) * c.e2e4 - (a.e1e4 * b.e1e2) * c.e1e3 - (a.e1e4 * b.e1e2e3e4) * c.e1e4 + (a.e1e4 * b.e1e3) * c.e1e2 - (a.e1e4 * b.e1e4) * c.e1e2e3e4 + (a.e1e4 * b.e2e3) * c.s - (a.e1e4 * b.e2e4) * c.e3e4 + (a.e1e4 * b.e3e4) * c.e2e4 + (a.e1e4 * b.s) * c.e2e3 + (a.e2e3 * b.e1e2) * c.e2e4 - (a.e2e3 * b.e1e2e3e4) * c.e2e3 + (a.e2e3 * b.e1e3) * c.e3e4 + (a.e2e3 * b.e1e4) * c.s - (a.e2e3 * b.e2e3) * c.e1e2e3e4 - (a.e2e3 * b.e2e4) * c.e1e2 - (a.e2e3 * b.e3e4) * c.e1e3 + (a.e2e3 * b.s) * c.e1e4 - (a.e2e4 * b.e1e2) * c.e2e3 - (a.e2e4 * b.e1e2e3e4) * c.e2e4 - (a.e2e4 * b.e1e3) * c.s + (a.e2e4 * b.e1e4) * c.e3e4 + (a.e2e4 * b.e2e3) * c.e1e2 - (a.e2e4 * b.e2e4) * c.e1e2e3e4 - (a.e2e4 * b.e3e4) * c.e1e4 - (a.e2e4 * b.s) * c.e1e3 + (a.e3e4 * b.e1e2) * c.s - (a.e3e4 * b.e1e2e3e4) * c.e3e4 - (a.e3e4 * b.e1e3) * c.e2e3 - (a.e3e4 * b.e1e4) * c.e2e4 + (a.e3e4 * b.e2e3) * c.e1e3 + (a.e3e4 * b.e2e4) * c.e1e4 - (a.e3e4 * b.e3e4) * c.e1e2e3e4 + (a.e3e4 * b.s) * c.e1e2 + (a.s * b.e1e2) * c.e3e4 + (a.s * b.e1e2e3e4) * c.s - (a.s * b.e1e3) * c.e2e4 + (a.s * b.e1e4) * c.e2e3 + (a.s * b.e2e3) * c.e1e4 - (a.s * b.e2e4) * c.e1e3 + (a.s * b.e3e4) * c.e1e2 + (a.s * b.s) * c.e1e2e3e4);
}

/// Reversal is an antihomomorphism of composition.
#[verifier::rlimit(100)]
pub proof fn lemma_transform_reverse_antihomomorphism(a: TransformModel, b: TransformModel)
    ensures
        transform_reverse(transform_and_then(a, b)) == transform_and_then(transform_reverse(b), transform_reverse(a)),
{
    let l = transform_reverse(transform_and_then(a, b));
    let r = transform_and_then(transform_reverse(b), transform_reverse(a));
    lemma_mul_neg_both(b.e1e2, a.e1e2);
    lemma_mul_comm(b.e1e2e3e4, a.e1e2e3e4);
    lemma_mul_neg_both(b.e1e3, a.e1e3);
    lemma_mul_neg_both(b.e1e4, a.e1e4);
    lemma_mul_neg_both(b.e2e3, a.e2e3);
    lemma_mul_neg_both(b.e2e4, a.e2e4);
    lemma_mul_neg_both(b.e3e4, a.e3e4);
    lemma_mul_comm(b.s, a.s);
    lemma_mul_neg_left(b.e0e1, a.s);
    lemma_mul_neg_right(b.e0e1e2e3, a.e2e3);
    lemma_mul_neg_right(b.e0e1e2e4, a.e2e4);
    lemma_mul_neg_right(b.e0e1e3e4, a.e3e4);
    lemma_mul_neg_both(b.e0e2, a.e1e2);
    lemma_mul_comm(b.e0e2e3e4, a.e1e2e3e4);
    lemma_mul_neg_both(b.e0e3, a.e1e3);
    lemma_mul_neg_both(b.e0e4, a.e1e4);
    lemma_mul_neg_both(b.e1e2, a.e0e2);
    lemma_mul_comm(b.e1e2e3e4, a.e0e2e3e4);
    lemma_mul_neg_both(b.e1e3, a.e0e3);
    lemma_mul_neg_both(b.e1e4, a.e0e4);
    lemma_mul_neg_left(b.e2e3, a.e0e1e2e3);
    lemma_mul_neg_left(b.e2e4, a.e0e1e2e4);
    lemma_mul_neg_left(b.e3e4, a.e0e1e3e4);
    lemma_mul_neg_right(b.s, a.e0e1);
    lemma_mul_neg_both(b.e0e1, a.e1e2);
    lemma_mul_neg_right(b.e0e1e2e3, a.e1e3);
    lemma_mul_neg_right(b.e0e1e2e4, a.e1e4);
    lemma_mul_comm(b.e0e1e3e4, a.e1e2e3e4);
    lemma_mul_neg_left(b.e0e2, a.s);
    lemma_mul_neg_right(b.e0e2e3e4, a.e3e4);
    lemma_mul_neg_both(b.e0e3, a.e2e3);
    lemma_mul_neg_both(b.e0e4, a.e2e4);
    lemma_mul_neg_both(b.e1e2, a.e0e1);
    lemma_mul_comm(b.e1e2e3e4, a.e0e1e3e4);
    lemma_mul_neg_left(b.e1e3, a.e0e1e2e3);
    lemma_mul_neg_left(b.e1e4, a.e0e1e2e4);
    lemma_mul_neg_both(b.e2e3, a.e0e3);
    lemma_mul_neg_both(b.e2e4, a.e0e4);
    lemma_mul_neg_left(b.e3e4, a.e0e2e3e4);
    lemma_mul_neg_right(b.s, a.e0e2);
    lemma_mul_neg_both(b.e0e1, a.e1e3);
    lemma_mul_neg_right(b.e0e1e2e3, a.e1e2);
    lemma_mul_comm(b.e0e1e2e4, a.e1e2e3e4);
    lemma_mul_neg_right(b.e0e1e3e4, a.e1e4);
    lemma_mul_neg_both(b.e0e2, a.e2e3);
    lemma_mul_neg_right(b.e0e2e3e4, a.e2e4);
    lemma_mul_neg_left(b.e0e3, a.s);
    lemma_mul_neg_both(b.e0e4, a.e3e4);
    lemma_mul_neg_left(b.e1e2, a.e0e1e2e3);
    lemma_mul_comm(b.e1e2e3e4, a.e0e1e2e4);
    lemma_mul_neg_both(b.e1e3, a.e0e1);
    lemma_mul_neg_left(b.e1e4, a.e0e1e3e4);
    lemma_mul_neg_both(b.e2e3, a.e0e2);
    lemma_mul_neg_left(b.e2e4, a.e0e2e3e4);
    lemma_mul_neg_both(b.e3e4, a.e0e4);
    lemma_mul_neg_right(b.s, a.e0e3);
    lemma_mul_neg_both(b.e0e1, a.e1e4);
    lemma_mul_comm(b.e0e1e2e3, a.e1e2e3e4);
    lemma_mul_neg_right(b.e0e1e2e4, a.e1e2);
    lemma_mul_neg_right(b.e0e1e3e4, a.e1e3);
    lemma_mul_neg_both(b.e0e2, a.e2e4);
    lemma_mul_neg_right(b.e0e2e3e4, a.e2e3);
    lemma_mul_neg_both(b.e0e3, a.e3e4);
    lemma_mul_neg_left(b.e0e4, a.s);
    lemma_mul_neg_left(b.e1e2, a.e0e1e2e4);
    lemma_mul_comm(b.e1e2e3e4, a.e0e1e2e3);
    lemma_mul_neg_left(b.e1e3, a.e0e1e3e4);
    lemma_mul_neg_both(b.e1e4, a.e0e1);
    lemma_mul_neg_left(b.e2e3, a.e0e2e3e4);
    lemma_mul_neg_both(b.e2e4, a.e0e2);
    lemma_mul_neg_both(b.e3e4, a.e0e3);
    lemma_mul_neg_right(b.s, a.e0e4);
    lemma_mul_neg_left(b.e1e2, a.s);
    lemma_mul_neg_right(b.e1e2e3e4, a.e3e4);
    lemma_mul_neg_both(b.e1e3, a.e2e3);
    lemma_mul_neg_both(b.e1e4, a.e2e4);
    lemma_mul_neg_both(b.e2e3, a.e1e3);
    lemma_mul_neg_both(b.e2e4, a.e1e4);
    lemma_mul_neg_left(b.e3e4, a.e1e2e3e4);
    lemma_mul_neg_right(b.s, a.e1e2);
    lemma_mul_neg_both(b.e1e2, a.e2e3);
    lemma_mul_neg_right(b.e1e2e3e4, a.e2e4);
    lemma_mul_neg_left(b.e1e3, a.s);
    lemma_mul_neg_both(b.e1e4, a.e3e4);
    lemma_mul_neg_both(b.e2e3, a.e1e2);
    lemma_mul_neg_left(b.e2e4, a.e1e2e3e4);
    lemma_mul_neg_both(b.e3e4, a.e1e4);
    lemma_mul_neg_right(b.s, a.e1e3);
    lemma_mul_neg_both(b.e1e2, a.e2e4);
    lemma_mul_neg_right(b.e1e2e3e4, a.e2e3);
    lemma_mul_neg_both(b.e1e3, a.e3e4);
    lemma_mul_neg_left(b.e1e4, a.s);
    lemma_mul_neg_left(b.e2e3, a.e1e2e3e4);
    lemma_mul_neg_both(b.e2e4, a.e1e2);
    lemma_mul_neg_both(b.e3e4, a.e1e3);
    lemma_mul_neg_right(b.s, a.e1e4);
    lemma_mul_neg_both(b.e1e2, a.e1e3);
    lemma_mul_neg_right(b.e1e2e3e4, a.e1e4);
    lemma_mul_neg_both(b.e1e3, a.e1e2);
    lemma_mul_neg_left(b.e1e4, a.e1e2e3e4);
    lemma_mul_neg_left(b.e2e3, a.s);
    lemma_mul_neg_both(b.e2e4, a.e3e4);
    lemma_mul_neg_both(b.e3e4, a.e2e4);
    lemma_mul_neg_right(b.s, a.e2e3);
    lemma_mul_neg_both(b.e1e2, a.e1e4);
    lemma_mul_neg_right(b.e1e2e3e4, a.e1e3);
    lemma_mul_neg_left(b.e1e3, a.e1e2e3e4);
    lemma_mul_neg_both(b.e1e4, a.e1e2);
    lemma_mul_neg_both(b.e2e3, a.e3e4);
    lemma_mul_neg_left(b.e2e4, a.s);
    lemma_mul_neg_both(b.e3e4, a.e2e3);
    lemma_mul_neg_right(b.s, a.e2e4);
    lemma_mul_neg_left(b.e1e2, a.e1e2e3e4);
    lemma_mul_neg_right(b.e1e2e3e4, a.e1e2);
    lemma_mul_neg_both(b.e1e3, a.e1e4);
    lemma_mul_neg_both(b.e1e4, a.e1e3);
    lemma_mul_neg_both(b.e2e3, a.e2e4);
    lemma_mul_neg_both(b.e2e4, a.e2e3);
    lemma_mul_neg_left(b.e3e4, a.s);
    lemma_mul_neg_right(b.s, a.e3e4);
    lemma_mul_neg_both(b.e0e1, a.e2e3);
    lemma_mul_comm(b.e0e1e2e3, a.s);
    lemma_mul_neg_right(b.e0e1e2e4, a.e3e4);
    lemma_mul_neg_right(b.e0e1e3e4, a.e2e4);
    lemma_mul_neg_both(b.e0e2, a.e1e3);
    lemma_mul_neg_right(b.e0e2e3e4, a.e1e4);
    lemma_mul_neg_both(b.e0e3, a.e1e2);
    lemma_mul_neg_left(b.e0e4, a.e1e2e3e4);
    lemma_mul_neg_both(b.e1e2, a.e0e3);
    lemma_mul_neg_right(b.e1e2e3e4, a.e0e4);
    lemma_mul_neg_both(b.e1e3, a.e0e2);
    lemma_mul_neg_left(b.e1e4, a.e0e2e3e4);
    lemma_mul_neg_both(b.e2e3, a.e0e1);
    lemma_mul_neg_left(b.e2e4, a.e0e1e3e4);
    lemma_mul_neg_left(b.e3e4, a.e0e1e2e4);
    lemma_mul_comm(b.s, a.e0e1e2e3);
    lemma_mul_neg_both(b.e0e1, a.e2e4);
    lemma_mul_neg_right(b.e0e1e2e3, a.e3e4);
    lemma_mul_comm(b.e0e1e2e4, a.s);
    lemma_mul_neg_right(b.e0e1e3e4, a.e2e3);
    lemma_mul_neg_both(b.e0e2, a.e1e4);
    lemma_mul_neg_right(b.e0e2e3e4, a.e1e3);
    lemma_mul_neg_left(b.e0e3, a.e1e2e3e4);
    lemma_mul_neg_both(b.e0e4, a.e1e2);
    lemma_mul_neg_both(b.e1e2, a.e0e4);
    lemma_mul_neg_right(b.e1e2e3e4, a.e0e3);
    lemma_mul_neg_left(b.e1e3, a.e0e2e3e4);
    lemma_mul_neg_both(b.e1e4, a.e0e2);
    lemma_mul_neg_left(b.e2e3, a.e0e1e3e4);
    lemma_mul_neg_both(b.e2e4, a.e0e1);
    lemma_mul_neg_left(b.e3e4, a.e0e1e2e3);
    lemma_mul_comm(b.s, a.e0e1e2e4);
    lemma_mul_neg_both(b.e0e1, a.e3e4);
    lemma_mul_neg_right(b.e0e1e2e3, a.e2e4);
    lemma_mul_neg_right(b.e0e1e2e4, a.e2e3);
    lemma_mul_comm(b.e0e1e3e4, a.s);
    lemma_mul_neg_left(b.e0e2, a.e1e2e3e4);
    lemma_mul_neg_right(b.e0e2e3e4, a.e1e2);
    lemma_mul_neg_both(b.e0e3, a.e1e4);
    lemma_mul_neg_both(b.e0e4, a.e1e3);
    lemma_mul_neg_left(b.e1e2, a.e0e2e3e4);
    lemma_mul_neg_right(b.e1e2e3e4, a.e0e2);
    lemma_mul_neg_both(b.e1e3, a.e0e4);
    lemma_mul_neg_both(b.e1e4, a.e0e3);
    lemma_mul_neg_left(b.e2e3, a.e0e1e2e4);
    lemma_mul_neg_left(b.e2e4, a.e0e1e2e3);
    lemma_mul_neg_both(b.e3e4, a.e0e1);
    lemma_mul_comm(b.s, a.e0e1e3e4);
    lemma_mul_neg_left(b.e0e1, a.e1e2e3e4);
    lemma_mul_neg_right(b.e0e1e2e3, a.e1e4);
    lemma_mul_neg_right(b.e0e1e2e4, a.e1e3);
    lemma_mul_neg_right(b.e0e1e3e4, a.e1e2);
    lemma_mul_neg_both(b.e0e2, a.e3e4);
    lemma_mul_comm(b.e0e2e3e4, a.s);
    lemma_mul_neg_both(b.e0e3, a.e2e4);
    lemma_mul_neg_both(b.e0e4, a.e2e3);
    lemma_mul_neg_left(b.e1e2, a.e0e1e3e4);
    lemma_mul_neg_right(b.e1e2e3e4, a.e0e1);
    lemma_mul_neg_left(b.e1e3, a.e0e1e2e4);
    lemma_mul_neg_left(b.e1e4, a.e0e1e2e3);
    lemma_mul_neg_both(b.e2e3, a.e0e4);
    lemma_mul_neg_both(b.e2e4, a.e0e3);
    lemma_mul_neg_both(b.e3e4, a.e0e2);
    lemma_mul_comm(b.s, a.e0e2e3e4);
    lemma_mul_neg_both(b.e1e2, a.e3e4);
    lemma_mul_comm(b.e1e2e3e4, a.s);
    lemma_mul_neg_both(b.e1e3, a.e2e4);
    lemma_mul_neg_both(b.e1e4, a.e2e3);
    lemma_mul_neg_both(b.e2e3, a.e1e4);
    lemma_mul_neg_both(b.e2e4, a.e1e3);
    lemma_mul_neg_both(b.e3e4, a.e1e2);
    lemma_mul_comm(b.s, a.e1e2e3e4);
    assert(l.s == -(a.e1e2 * b.e1e2) + a.e1e2e3e4 * b.e1e2e3e4 - a.e1e3 * b.e1e3 - a.e1e4 * b.e1e4 - a.e2e3 * b.e2e3 - a.e2e4 * b.e2e4 - a.e3e4 * b.e3e4 + a.s * b.s);
    assert(r.s == -((-b.e1e2) * (-a.e1e2)) + b.e1e2e3e4 * a.e1e2e3e4 - (-b.e1e3) * (-a.e1e3) - (-b.e1e4) * (-a.e1e4) - (-b.e2e3) * (-a.e2e3) - (-b.e2e4) * (-a.e2e4) - (-b.e3e4) * (-a.e3e4) + b.s * a.s);
    assert(l.s == r.s);
    assert(l.e0e1 == -(a.e0e1 * b.s - a.e0e1e2e3 * b.e2e3 - a.e0e1e2e4 * b.e2e4 - a.e0e1e3e4 * b.e3e4 - a.e0e2 * b.e1e2 + a.e0e2e3e4 * b.e1e2e3e4 - a.e0e3 * b.e1e3 - a.e0e4 * b.e1e4 + a.e1e2 * b.e0e2 - a.e1e2e3e4 * b.e0e2e3e4 + a.e1e3 * b.e0e3 + a.e1e4 * b.e0e4 - a.e2e3 * b.e0e1e2e3 - a.e2e4 * b.e0e1e2e4 - a.e3e4 * b.e0e1e3e4 + a.s * b.e0e1));
    assert(r.e0e1 == (-b.e0e1) * a.s - b.e0e1e2e3 * (-a.e2e3) - b.e0e1e2e4 * (-a.e2e4) - b.e0e1e3e4 * (-a.e3e4) - (-b.e0e2) * (-a.e1e2) + b.e0e2e3e4 * a.e1e2e3e4 - (-b.e0e3) * (-a.e1e3) - (-b.e0e4) * (-a.e1e4) + (-b.e1e2) * (-a.e0e2) - b.e1e2e3e4 * a.e0e2e3e4 + (-b.e1e3) * (-a.e0e3) + (-b.e1e4) * (-a.e0e4) - (-b.e2e3) * a.e0e1e2e3 - (-b.e2e4) * a.e0e1e2e4 - (-b.e3e4) * a.e0e1e3e4 + b.s * (-a.e0e1));
    assert(l.e0e1 == r.e0e1);
    assert(l.e0e2 == -(a.e0e1 * b.e1e2 + a.e0e1e2e3 * b.e1e3 + a.e0e1e2e4 * b.e1e4 - a.e0e1e3e4 * b.e1e2e3e4 + a.e0e2 * b.s - a.e0e2e3e4 * b.e3e4 - a.e0e3 * b.e2e3 - a.e0e4 * b.e2e4 - a.e1e2 * b.e0e1 + a.e1e2e3e4 * b.e0e1e3e4 + a.e1e3 * b.e0e1e2e3 + a.e1e4 * b.e0e1e2e4 + a.e2e3 * b.e0e3 + a.e2e4 * b.e0e4 - a.e3e4 * b.e0e2e3e4 + a.s * b.e0e2));
    assert(r.e0e2 == (-b.e0e1) * (-a.e1e2) + b.e0e1e2e3 * (-a.e1e3) + b.e0e1e2e4 * (-a.e1e4) - b.e0e1e3e4 * a.e1e2e3e4 + (-b.e0e2) * a.s - b.e0e2e3e4 * (-a.e3e4) - (-b.e0e3) * (-a.e2e3) - (-b.e0e4) * (-a.e2e4) - (-b.e1e2) * (-a.e0e1) + b.e1e2e3e4 * a.e0e1e3e4 + (-b.e1e3) * a.e0e1e2e3 + (-b.e1e4) * a.e0e1e2e4 + (-b.e2e3) * (-a.e0e3) + (-b.e2e4) * (-a.e0e4) - (-b.e3e4) * a.e0e2e3e4 + b.s * (-a.e0e2));
    assert(l.e0e2 == r.e0e2);
    assert(l.e0e3 == -(a.e0e1 * b.e1e3 - a.e0e1e2e3 * b.e1e2 + a.e0e1e2e4 * b.e1e2e3e4 + a.e0e1e3e4 * b.e1e4 + a.e0e2 * b.e2e3 + a.e0e2e3e4 * b.e2e4 + a.e0e3 * b.s - a.e0e4 * b.e3e4 - a.e1e2 * b.e0e1e2e3 - a.e1e2e3e4 * b.e0e1e2e4 - a.e1e3 * b.e0e1 + a.e1e4 * b.e0e1e3e4 - a.e2e3 * b.e0e2 + a.e2e4 * b.e0e2e3e4 + a.e3e4 * b.e0e4 + a.s * b.e0e3));
    assert(r.e0e3 == (-b.e0e1) * (-a.e1e3) - b.e0e1e2e3 * (-a.e1e2) + b.e0e1e2e4 * a.e1e2e3e4 + b.e0e1e3e4 * (-a.e1e4) + (-b.e0e2) * (-a.e2e3) + b.e0e2e3e4 * (-a.e2e4) + (-b.e0e3) * a.s - (-b.e0e4) * (-a.e3e4) - (-b.e1e2) * a.e0e1e2e3 - b.e1e2e3e4 * a.e0e1e2e4 - (-b.e1e3) * (-a.e0e1) + (-b.e1e4) * a.e0e1e3e4 - (-b.e2e3) * (-a.e0e2) + (-b.e2e4) * a.e0e2e3e4 + (-b.e3e4) * (-a.e0e4) + b.s * (-a.e0e3));
    assert(l.e0e3 == r.e0e3);
    assert(l.e0e4 == -(a.e0e1 * b.e1e4 - a.e0e1e2e3 * b.e1e2e3e4 - a.e0e1e2e4 * b.e1e2 - a.e0e1e3e4 * b.e1e3 + a.e0e2 * b.e2e4 - a.e0e2e3e4 * b.e2e3 + a.e0e3 * b.e3e4 + a.e0e4 * b.s - a.e1e2 * b.e0e1e2e4 + a.e1e2e3e4 * b.e0e1e2e3 - a.e1e3 * b.e0e1e3e4 - a.e1e4 * b.e0e1 - a.e2e3 * b.e0e2e3e4 - a.e2e4 * b.e0e2 - a.e3e4 * b.e0e3 + a.s * b.e0e4));
    assert(r.e0e4 == (-b.e0e1) * (-a.e1e4) - b.e0e1e2e3 * a.e1e2e3e4 - b.e0e1e2e4 * (-a.e1e2) - b.e0e1e3e4 * (-a.e1e3) + (-b.e0e2) * (-a.e2e4) - b.e0e2e3e4 * (-a.e2e3) + (-b.e0e3) * (-a.e3e4) + (-b.e0e4) * a.s - (-b.e1e2) * a.e0e1e2e4 + b.e1e2e3e4 * a.e0e1e2e3 - (-b.e1e3) * a.e0e1e3e4 - (-b.e1e4) * (-a.e0e1) - (-b.e2e3) * a.e0e2e3e4 - (-b.e2e4) * (-a.e0e2) - (-b.e3e4) * (-a.e0e3) + b.s * (-a.e0e4));
    assert(l.e0e4 == r.e0e4);
    assert(l.e1e2 == -(a.e1e2 * b.s - a.e1e2e3e4 * b.e3e4 - a.e1e3 * b.e2e3 - a.e1e4 * b.e2e4 + a.e2e3 * b.e1e3 + a.e2e4 * b.e1e4 - a.e3e4 * b.e1e2e3e4 + a.s * b.e1e2));
    assert(r.e1e2 == (-b.e1e2) * a.s - b.e1e2e3e4 * (-a.e3e4) - (-b.e1e3) * (-a.e2e3) - (-b.e1e4) * (-a.e2e4) + (-b.e2e3) * (-a.e1e3) + (-b.e2e4) * (-a.e1e4) - (-b.e3e4) * a.e1e2e3e4 + b.s * (-a.e1e2));
    assert(l.e1e2 == r.e1e2);
    assert(l.e1e3 == -(a.e1e2 * b.e2e3 + a.e1e2e3e4 * b.e2e4 + a.e1e3 * b.s - a.e1e4 * b.e3e4 - a.e2e3 * b.e1e2 + a.e2e4 * b.e1e2e3e4 + a.e3e4 * b.e1e4 + a.s * b.e1e3));
    assert(r.e1e3 == (-b.e1e2) * (-a.e2e3) + b.e1e2e3e4 * (-a.e2e4) + (-b.e1e3) * a.s - (-b.e1e4) * (-a.e3e4) - (-b.e2e3) * (-a.e1e2) + (-b.e2e4) * a.e1e2e3e4 + (-b.e3e4) * (-a.e1e4) + b.s * (-a.e1e3));
    assert(l.e1e3 == r.e1e3);
    assert(l.e1e4 == -(a.e1e2 * b.e2e4 - a.e1e2e3e4 * b.e2e3 + a.e1e3 * b.e3e4 + a.e1e4 * b.s - a.e2e3 * b.e1e2e3e4 - a.e2e4 * b.e1e2 - a.e3e4 * b.e1e3 + a.s * b.e1e4));
    assert(r.e1e4 == (-b.e1e2) * (-a.e2e4) - b.e1e2e3e4 * (-a.e2e3) + (-b.e1e3) * (-a.e3e4) + (-b.e1e4) * a.s - (-b.e2e3) * a.e1e2e3e4 - (-b.e2e4) * (-a.e1e2) - (-b.e3e4) * (-a.e1e3) + b.s * (-a.e1e4));
    assert(l.e1e4 == r.e1e4);
    assert(l.e2e3 == -(-(a.e1e2 * b.e1e3) - a.e1e2e3e4 * b.e1e4 + a.e1e3 * b.e1e2 - a.e1e4 * b.e1e2e3e4 + a.e2e3 * b.s - a.e2e4 * b.e3e4 + a.e3e4 * b.e2e4 + a.s * b.e2e3));
    assert(r.e2e3 == -((-b.e1e2) * (-a.e1e3)) - b.e1e2e3e4 * (-a.e1e4) + (-b.e1e3) * (-a.e1e2) - (-b.e1e4) * a.e1e2e3e4 + (-b.e2e3) * a.s - (-b.e2e4) * (-a.e3e4) + (-b.e3e4) * (-a.e2e4) + b.s * (-a.e2e3));
    assert(l.e2e3 == r.e2e3);
    assert(l.e2e4 == -(-(a.e1e2 * b.e1e4) + a.e1e2e3e4 * b.e1e3 + a.e1e3 * b.e1e2e3e4 + a.e1e4 * b.e1e2 + a.e2e3 * b.e3e4 + a.e2e4 * b.s - a.e3e4 * b.e2e3 + a.s * b.e2e4));
    assert(r.e2e4 == -((-b.e1e2) * (-a.e1e4)) + b.e1e2e3e4 * (-a.e1e3) + (-b.e1e3) * a.e1e2e3e4 + (-b.e1e4) * (-a.e1e2) + (-b.e2e3) * (-a.e3e4) + (-b.e2e4) * a.s - (-b.e3e4) * (-a.e2e3) + b.s * (-a.e2e4));
    assert(l.e2e4 == r.e2e4);
    assert(l.e3e4 == -(-(a.e1e2 * b.e1e2e3e4) - a.e1e2e3e4 * b.e1e2 - a.e1e3 * b.e1e4 + a.e1e4 * b.e1e3 - a.e2e3 * b.e2e4 + a.e2e4 * b.e2e3 + a.e3e4 * b.s + a.s * b.e3e4));
    assert(r.e3e4 == -((-b.e1e2) * a.e1e2e3e4) - b.e1e2e3e4 * (-a.e1e2) - (-b.e1e3) * (-a.e1e4) + (-b.e1e4) * (-a.e1e3) - (-b.e2e3) * (-a.e2e4) + (-b.e2e4) * (-a.e2e3) + (-b.e3e4) * a.s + b.s * (-a.e3e4));
    assert(l.e3e4 == r.e3e4);
    assert(l.e0e1e2e3 == a.e0e1 * b.e2e3 + a.e0e1e2e3 * b.s - a.e0e1e2e4 * b.e3e4 + a.e0e1e3e4 * b.e2e4 - a.e0e2 * b.e1e3 - a.e0e2e3e4 * b.e1e4 + a.e0e3 * b.e1e2 - a.e0e4 * b.e1e2e3e4 + a.e1e2 * b.e0e3 + a.e1e2e3e4 * b.e0e4 - a.e1e3 * b.e0e2 + a.e1e4 * b.e0e2e3e4 + a.e2e3 * b.e0e1 - a.e2e4 * b.e0e1e3e4 + a.e3e4 * b.e0e1e2e4 + a.s * b.e0e1e2e3);
    assert(r.e0e1e2e3 == (-b.e0e1) * (-a.e2e3) + b.e0e1e2e3 * a.s - b.e0e1e2e4 * (-a.e3e4) + b.e0e1e3e4 * (-a.e2e4) - (-b.e0e2) * (-a.e1e3) - b.e0e2e3e4 * (-a.e1e4) + (-b.e0e3) * (-a.e1e2) - (-b.e0e4) * a.e1e2e3e4 + (-b.e1e2) * (-a.e0e3) + b.e1e2e3e4 * (-a.e0e4) - (-b.e1e3) * (-a.e0e2) + (-b.e1e4) * a.e0e2e3e4 + (-b.e2e3) * (-a.e0e1) - (-b.e2e4) * a.e0e1e3e4 + (-b.e3e4) * a.e0e1e2e4 + b.s * a.e0e1e2e3);
    assert(l.e0e1e2e3 == r.e0e1e2e3);
    assert(l.e0e1e2e4 == a.e0e1 * b.e2e4 + a.e0e1e2e3 * b.e3e4 + a.e0e1e2e4 * b.s - a.e0e1e3e4 * b.e2e3 - a.e0e2 * b.e1e4 + a.e0e2e3e4 * b.e1e3 + a.e0e3 * b.e1e2e3e4 + a.e0e4 * b.e1e2 + a.e1e2 * b.e0e4 - a.e1e2e3e4 * b.e0e3 - a.e1e3 * b.e0e2e3e4 - a.e1e4 * b.e0e2 + a.e2e3 * b.e0e1e3e4 + a.e2e4 * b.e0e1 - a.e3e4 * b.e0e1e2e3 + a.s * b.e0e1e2e4);
    assert(r.e0e1e2e4 == (-b.e0e1) * (-a.e2e4) + b.e0e1e2e3 * (-a.e3e4) + b.e0e1e2e4 * a.s - b.e0e1e3e4 * (-a.e2e3) - (-b.e0e2) * (-a.e1e4) + b.e0e2e3e4 * (-a.e1e3) + (-b.e0e3) * a.e1e2e3e4 + (-b.e0e4) * (-a.e1e2) + (-b.e1e2) * (-a.e0e4) - b.e1e2e3e4 * (-a.e0e3) - (-b.e1e3) * a.e0e2e3e4 - (-b.e1e4) * (-a.e0e2) + (-b.e2e3) * a.e0e1e3e4 + (-b.e2e4) * (-a.e0e1) - (-b.e3e4) * a.e0e1e2e3 + b.s * a.e0e1e2e4);
    assert(l.e0e1e2e4 == r.e0e1e2e4);
    assert(l.e0e1e3e4 == a.e0e1 * b.e3e4 - a.e0e1e2e3 * b.e2e4 + a.e0e1e2e4 * b.e2e3 + a.e0e1e3e4 * b.s - a.e0e2 * b.e1e2e3e4 - a.e0e2e3e4 * b.e1e2 - a.e0e3 * b.e1e4 + a.e0e4 * b.e1e3 + a.e1e2 * b.e0e2e3e4 + a.e1e2e3e4 * b.e0e2 + a.e1e3 * b.e0e4 - a.e1e4 * b.e0e3 - a.e2e3 * b.e0e1e2e4 + a.e2e4 * b.e0e1e2e3 + a.e3e4 * b.e0e1 + a.s * b.e0e1e3e4);
    assert(r.e0e1e3e4 == (-b.e0e1) * (-a.e3e4) - b.e0e1e2e3 * (-a.e2e4) + b.e0e1e2e4 * (-a.e2e3) + b.e0e1e3e4 * a.s - (-b.e0e2) * a.e1e2e3e4 - b.e0e2e3e4 * (-a.e1e2) - (-b.e0e3) * (-a.e1e4) + (-b.e0e4) * (-a.e1e3) + (-b.e1e2) * a.e0e2e3e4 + b.e1e2e3e4 * (-a.e0e2) + (-b.e1e3) * (-a.e0e4) - (-b.e1e4) * (-a.e0e3) - (-b.e2e3) * a.e0e1e2e4 + (-b.e2e4) * a.e0e1e2e3 + (-b.e3e4) * (-a.e0e1) + b.s * a.e0e1e3e4);
    assert(l.e0e1e3e4 == r.e0e1e3e4);
    assert(l.e0e2e3e4 == a.e0e1 * b.e1e2e3e4 + a.e0e1e2e3 * b.e1e4 - a.e0e1e2e4 * b.e1e3 + a.e0e1e3e4 * b.e1e2 + a.e0e2 * b.e3e4 + a.e0e2e3e4 * b.s - a.e0e3 * b.e2e4 + a.e0e4 * b.e2e3 - a.e1e2 * b.e0e1e3e4 - a.e1e2e3e4 * b.e0e1 + a.e1e3 * b.e0e1e2e4 - a.e1e4 * b.e0e1e2e3 + a.e2e3 * b.e0e4 - a.e2e4 * b.e0e3 + a.e3e4 * b.e0e2 + a.s * b.e0e2e3e4);
    assert(r.e0e2e3e4 == (-b.e0e1) * a.e1e2e3e4 + b.e0e1e2e3 * (-a.e1e4) - b.e0e1e2e4 * (-a.e1e3) + b.e0e1e3e4 * (-a.e1e2) + (-b.e0e2) * (-a.e3e4) + b.e0e2e3e4 * a.s - (-b.e0e3) * (-a.e2e4) + (-b.e0e4) * (-a.e2e3) - (-b.e1e2) * a.e0e1e3e4 - b.e1e2e3e4 * (-a.e0e1) + (-b.e1e3) * a.e0e1e2e4 - (-b.e1e4) * a.e0e1e2e3 + (-b.e2e3) * (-a.e0e4) - (-b.e2e4) * (-a.e0e3) + (-b.e3e4) * (-a.e0e2) + b.s * a.e0e2e3e4);
    assert(l.e0e2e3e4 == r.e0e2e3e4);
    assert(l.e1e2e3e4 == a.e1e2 * b.e3e4 + a.e1e2e3e4 * b.s - a.e1e3 * b.e2e4 + a.e1e4 * b.e2e3 + a.e2e3 * b.e1e4 - a.e2e4 * b.e1e3 + a.e3e4 * b.e1e2 + a.s * b.e1e2e3e4);
    assert(r.e1e2e3e4 == (-b.e1e2) * (-a.e3e4) + b.e1e2e3e4 * a.s - (-b.e1e3) * (-a.e2e4) + (-b.e1e4) * (-a.e2e3) + (-b.e2e3) * (-a.e1e4) - (-b.e2e4) * (-a.e1e3) + (-b.e3e4) * (-a.e1e2) + b.s * a.e1e2e3e4);
    assert(l.e1e2e3e4 == r.e1e2e3e4);
}

/// A single-plane rotation with a normalised half-angle pair composes
/// with its reverse to the identity.
pub proof fn lemma_noe2_rotate_xz_reverse_identity(cos_half: int, sin_half: int)
    requires
        cos_half * cos_half + sin_half * sin_half == 1,
    ensures
        noe2_and_then(noe2_reverse((NoE2RotorModel { s: cos_half, e1e3: sin_half, e1e4: 0, e3e4: 0 })), (NoE2RotorModel { s: cos_half, e1e3: sin_half, e1e4: 0, e3e4: 0 })) == noe2_identity(),
{
    broadcast use vstd::arithmetic::mul::group_mul_basics;
    lemma_mul_comm(cos_half, sin_half);
    lemma_mul_neg_left(cos_half, sin_half);
    lemma_mul_neg_left(sin_half, cos_half);
    lemma_mul_neg_left(sin_half, sin_half);
    lemma_mul_neg_left(cos_half, cos_half);
    lemma_mul_neg_right(cos_half, sin_half);
    lemma_mul_neg_right(sin_half, cos_half);
    lemma_mul_neg_both(cos_half, sin_half);
    lemma_mul_neg_both(sin_half, cos_half);
    lemma_mul_neg_both(sin_half, sin_half);
    lemma_mul_neg_both(cos_half, cos_half);
}

/// A single-plane rotation with a normalised half-angle pair composes
/// with its reverse to the identity.
pub proof fn lemma_noe2_rotate_xw_reverse_identity(cos_half: int, sin_half: int)
    requires
        cos_half * cos_half + sin_half * sin_half == 1,
    ensures
        noe2_and_then(noe2_reverse((NoE2RotorModel { s: cos_half, e1e3: 0, e1e4: sin_half, e3e4: 0 })), (NoE2RotorModel { s: cos_half, e1e3: 0, e1e4: sin_half, e3e4: 0 })) == noe2_identity(),
{
    broadcast use vstd::arithmetic::mul::group_mul_basics;
    lemma_mul_comm(cos_half, sin_half);
    lemma_mul_neg_left(cos_half, sin_half);
    lemma_mul_neg_left(sin_half, cos_half);
    lemma_mul_neg_left(sin_half, sin_half);
    lemma_mul_neg_left(cos_half, cos_half);
    lemma_mul_neg_right(cos_half, sin_half);
    lemma_mul_neg_right(sin_half, cos_half);
    lemma_mul_neg_both(cos_half, sin_half);
    lemma_mul_neg_both(sin_half, cos_half);
    lemma_mul_neg_both(sin_half, sin_half);
    lemma_mul_neg_both(cos_half, cos_half);
}

/// A single-plane rotation with a normalised half-angle pair composes
/// with its reverse to the identity.
pub proof fn lemma_noe2_rotate_zw_reverse_identity(cos_half: int, sin_half: int)
    requires
        cos_half * cos_half + sin_half * sin_half == 1,
    ensures
        noe2_and_then(noe2_reverse((NoE2RotorModel { s: cos_half, e1e3: 0, e1e4: 0, e3e4: sin_half })), (NoE2RotorModel { s: cos_half, e1e3: 0, e1e4: 0, e3e4: sin_half })) == noe2_identity(),
{
    broadcast use vstd::arithmetic::mul::group_mul_basics;
    lemma_mul_comm(cos_half, sin_half);
    lemma_mul_neg_left(cos_half, sin_half);
    lemma_mul_neg_left(sin_half, cos_half);
    lemma_mul_neg_left(sin_half, sin_half);
    lemma_mul_neg_left(cos_half, cos_half);
    lemma_mul_neg_right(cos_half, sin_half);
    lemma_mul_neg_right(sin_half, cos_half);
    lemma_mul_neg_both(cos_half, sin_half);
    lemma_mul_neg_both(sin_half, cos_half);
    lemma_mul_neg_both(sin_half, sin_half);
    lemma_mul_neg_both(cos_half, cos_half);
}

/// A single-plane rotation with a normalised half-angle pair composes
/// with its reverse to the identity.
pub proof fn lemma_rotate_xy_reverse_identity(cos_half: int, sin_half: int)
    requires
        cos_half * cos_half + sin_half * sin_half == 1,
    ensures
        rotor_and_then(rotor_reverse((RotorModel { s: cos_half, e1e2: sin_half, e1e3: 0, e1e4: 0, e2e3: 0, e2e4: 0, e3e4: 0, e1e2e3e4: 0 })), (RotorModel { s: cos_half, e1e2: sin_half, e1e3: 0, e1e4: 0, e2e3: 0, e2e4: 0, e3e4: 0, e1e2e3e4: 0 })) == rotor_identity(),
{
    broadcast use vstd::arithmetic::mul::group_mul_basics;
    lemma_mul_comm(cos_half, sin_half);
    lemma_mul_neg_left(cos_half, sin_half);
    lemma_mul_neg_left(sin_half, cos_half);
    lemma_mul_neg_left(sin_half, sin_half);
    lemma_mul_neg_left(cos_half, cos_half);
    lemma_mul_neg_right(cos_half, sin_half);
    lemma_mul_neg_right(sin_half, cos_half);
    lemma_mul_neg_both(cos_half, sin_half);
    lemma_mul_neg_both(sin_half, cos_half);
    lemma_mul_neg_both(sin_half, sin_half);
    lemma_mul_neg_both(cos_half, cos_half);
}

/// A single-plane rotation with a normalised half-angle pair composes
/// with its reverse to the identity.
pub proof fn lemma_rotate_xz_reverse_identity(cos_half: int, sin_half: int)
    requires
        cos_half * cos_half + sin_half * sin_half == 1,
    ensures
        rotor_and_then(rotor_reverse((RotorModel { s: cos_half, e1e2: 0, e1e3: sin_half, e1e4: 0, e2e3: 0, e2e4: 0, e3e4: 0, e1e2e3e4: 0 })), (RotorModel { s: cos_half, e1e2: 0, e1e3: sin_half, e1e4: 0, e2e3: 0, e2e4: 0, e3e4: 0, e1e2e3e4: 0 })) == rotor_identity(),
{
    broadcast use vstd::arithmetic::mul::group_mul_basics;
    lemma_mul_comm(cos_half, sin_half);
    lemma_mul_neg_left(cos_half, sin_half);
    lemma_mul_neg_left(sin_half, cos_half);
    lemma_mul_neg_left(sin_half, sin_half);
    lemma_mul_neg_left(cos_half, cos_half);
    lemma_mul_neg_right(cos_half, sin_half);
    lemma_mul_neg_right(sin_half, cos_half);
    lemma_mul_neg_both(cos_half, sin_half);
    lemma_mul_neg_both(sin_half, cos_half);
    lemma_mul_neg_both(sin_half, sin_half);
    lemma_mul_neg_both(cos_half, cos_half);
}

/// A single-plane rotation with a normalised half-angle pair composes
/// with its reverse to the identity.
pub proof fn lemma_rotate_xw_reverse_identity(cos_half: int, sin_half: int)
    requires
        cos_half * cos_half + sin_half * sin_half == 1,
    ensures
        rotor_and_then(rotor_reverse((RotorModel { s: cos_half, e1e2: 0, e1e3: 0, e1e4: sin_half, e2e3: 0, e2e4: 0, e3e4: 0, e1e2e3e4: 0 })), (RotorModel { s: cos_half, e1e2: 0, e1e3: 0, e1e4: sin_half, e2e3: 0, e2e4: 0, e3e4: 0, e1e2e3e4: 0 })) == rotor_identity(),
{
    broadcast use vstd::arithmetic::mul::group_mul_basics;
    lemma_mul_comm(cos_half, sin_half);
    lemma_mul_neg_left(cos_half, sin_half);
    lemma_mul_neg_left(sin_half, cos_half);
    lemma_mul_neg_left(sin_half, sin_half);
    lemma_mul_neg_left(cos_half, cos_half);
    lemma_mul_neg_right(cos_half, sin_half);
    lemma_mul_neg_right(sin_half, cos_half);
    lemma_mul_neg_both(cos_half, sin_half);
    lemma_mul_neg_both(sin_half, cos_half);
    lemma_mul_neg_both(sin_half, sin_half);
    lemma_mul_neg_both(cos_half, cos_half);
}

/// A single-plane rotation with a normalised half-angle pair composes
/// with its reverse to the identity.
pub proof fn lemma_rotate_yz_reverse_identity(cos_half: int, sin_half: int)
    requires
        cos_half * cos_half + sin_half * sin_half == 1,
    ensures
        rotor_and_then(rotor_reverse((RotorModel { s: cos_half, e1e2: 0, e1e3: 0, e1e4: 0, e2e3: sin_half, e2e4: 0, e3e4: 0, e1e2e3e4: 0 })), (RotorModel { s: cos_half, e1e2: 0, e1e3: 0, e1e4: 0, e2e3: sin_half, e2e4: 0, e3e4: 0, e1e2e3e4: 0 })) == rotor_identity(),
{
    broadcast use vstd::arithmetic::mul::group_mul_basics;
    lemma_mul_comm(cos_half, sin_half);
    lemma_mul_neg_left(cos_half, sin_half);
    lemma_mul_neg_left(sin_half, cos_half);
    lemma_mul_neg_left(sin_half, sin_half);
    lemma_mul_neg_left(cos_half, cos_half);
    lemma_mul_neg_right(cos_half, sin_half);
    lemma_mul_neg_right(sin_half, cos_half);
    lemma_mul_neg_both(cos_half, sin_half);
    lemma_mul_neg_both(sin_half, cos_half);
    lemma_mul_neg_both(sin_half, sin_half);
    lemma_mul_neg_both(cos_half, cos_half);
}

/// A single-plane rotation with a normalised half-angle pair composes
/// with its reverse to the identity.
pub proof fn lemma_rotate_yw_reverse_identity(cos_half: int, sin_half: int)
    requires
        cos_half * cos_half + sin_half * sin_half == 1,
    ensures
        rotor_and_then(rotor_reverse((RotorModel { s: cos_half, e1e2: 0, e1e3: 0, e1e4: 0, e2e3: 0, e2e4: sin_half, e3e4: 0, e1e2e3e4: 0 })), (RotorModel { s: cos_half, e1e2: 0, e1e3: 0, e1e4: 0, e2e3: 0, e2e4: sin_half, e3e4: 0, e1e2e3e4: 0 })) == rotor_identity(),
{
    broadcast use vstd::arithmetic::mul::group_mul_basics;
    lemma_mul_comm(cos_half, sin_half);
    lemma_mul_neg_left(cos_half, sin_half);
    lemma_mul_neg_left(sin_half, cos_half);
    lemma_mul_neg_left(sin_half, sin_half);
    lemma_mul_neg_left(cos_half, cos_half);
    lemma_mul_neg_right(cos_half, sin_half);
    lemma_mul_neg_right(sin_half, cos_half);
    lemma_mul_neg_both(cos_half, sin_half);
    lemma_mul_neg_both(sin_half, cos_half);
    lemma_mul_neg_both(sin_half, sin_half);
    lemma_mul_neg_both(cos_half, cos_half);
}

/// A single-plane rotation with a normalised half-angle pair composes
/// with its reverse to the identity.
pub proof fn lemma_rotate_zw_reverse_identity(cos_half: int, sin_half: int)
    requires
        cos_half * cos_half + sin_half * sin_half == 1,
    ensures
        rotor_and_then(rotor_reverse((RotorModel { s: cos_half, e1e2: 0, e1e3: 0, e1e4: 0, e2e3: 0, e2e4: 0, e3e4: sin_half, e1e2e3e4: 0 })), (RotorModel { s: cos_half, e1e2: 0, e1e3: 0, e1e4: 0, e2e3: 0, e2e4: 0, e3e4: sin_half, e1e2e3e4: 0 })) == rotor_identity(),
{
    broadcast use vstd::arithmetic::mul::group_mul_basics;
    lemma_mul_comm(cos_half, sin_half);
    lemma_mul_neg_left(cos_half, sin_half);
    lemma_mul_neg_left(sin_half, cos_half);
    lemma_mul_neg_left(sin_half, sin_half);
    lemma_mul_neg_left(cos_half, cos_half);
    lemma_mul_neg_right(cos_half, sin_half);
    lemma_mul_neg_right(sin_half, cos_half);
    lemma_mul_neg_both(cos_half, sin_half);
    lemma_mul_neg_both(sin_half, cos_half);
    lemma_mul_neg_both(sin_half, sin_half);
    lemma_mul_neg_both(cos_half, cos_half);
}

/// A single-plane rotation with a normalised half-angle pair composes
/// with its reverse to the identity.
pub proof fn lemma_transform_rotate_xy_reverse_identity(cos_half: int, sin_half: int)
    requires
        cos_half * cos_half + sin_half * sin_half == 1,
    ensures
        transform_and_then(transform_reverse((TransformModel { s: cos_half, e0e1: 0, e0e2: 0, e0e3: 0, e0e4: 0, e1e2: sin_half, e1e3: 0, e1e4: 0, e2e3: 0, e2e4: 0, e3e4: 0, e0e1e2e3: 0, e0e1e2e4: 0, e0e1e3e4: 0, e0e2e3e4: 0, e1e2e3e4: 0 })), (TransformModel { s: cos_half, e0e1: 0, e0e2: 0, e0e3: 0, e0e4: 0, e1e2: sin_half, e1e3: 0, e1e4: 0, e2e3: 0, e2e4: 0, e3e4: 0, e0e1e2e3: 0, e0e1e2e4: 0, e0e1e3e4: 0, e0e2e3e4: 0, e1e2e3e4: 0 })) == transform_identity(),
{
    broadcast use vstd::arithmetic::mul::group_mul_basics;
    lemma_mul_comm(cos_half, sin_half);
    lemma_mul_neg_left(cos_half, sin_half);
    lemma_mul_neg_left(sin_half, cos_half);
    lemma_mul_neg_left(sin_half, sin_half);
    lemma_mul_neg_left(cos_half, cos_half);
    lemma_mul_neg_right(cos_half, sin_half);
    lemma_mul_neg_right(sin_half, cos_half);
    lemma_mul_neg_both(cos_half, sin_half);
    lemma_mul_neg_both(sin_half, cos_half);
    lemma_mul_neg_both(sin_half, sin_half);
    lemma_mul_neg_both(cos_half, cos_half);
}

/// A single-plane rotation with a normalised half-angle pair composes
/// with its reverse to the identity.
pub proof fn lemma_transform_rotate_xz_reverse_identity(cos_half: int, sin_half: int)
    requires
        cos_half * cos_half + sin_half * sin_half == 1,
    ensures
        transform_and_then(transform_reverse((TransformModel { s: cos_half, e0e1: 0, e0e2: 0, e0e3: 0, e0e4: 0, e1e2: 0, e1e3: sin_half, e1e4: 0, e2e3: 0, e2e4: 0, e3e4: 0, e0e1e2e3: 0, e0e1e2e4: 0, e0e1e3e4: 0, e0e2e3e4: 0, e1e2e3e4: 0 })), (TransformModel { s: cos_half, e0e1: 0, e0e2: 0, e0e3: 0, e0e4: 0, e1e2: 0, e1e3: sin_half, e1e4: 0, e2e3: 0, e2e4: 0, e3e4: 0, e0e1e2e3: 0, e0e1e2e4: 0, e0e1e3e4: 0, e0e2e3e4: 0, e1e2e3e4: 0 })) == transform_identity(),
{
    broadcast use vstd::arithmetic::mul::group_mul_basics;
    lemma_mul_comm(cos_half, sin_half);
    lemma_mul_neg_left(cos_half, sin_half);
    lemma_mul_neg_left(sin_half, cos_half);
    lemma_mul_neg_left(sin_half, sin_half);
    lemma_mul_neg_left(cos_half, cos_half);
    lemma_mul_neg_right(cos_half, sin_half);
    lemma_mul_neg_right(sin_half, cos_half);
    lemma_mul_neg_both(cos_half, sin_half);
    lemma_mul_neg_both(sin_half, cos_half);
    lemma_mul_neg_both(sin_half, sin_half);
    lemma_mul_neg_both(cos_half, cos_half);
}

/// A single-plane rotation with a normalised half-angle pair composes
/// with its reverse to the identity.
pub proof fn lemma_transform_rotate_xw_reverse_identity(cos_half: int, sin_half: int)
    requires
        cos_half * cos_half + sin_half * sin_half == 1,
    ensures
        transform_and_then(transform_reverse((TransformModel { s: cos_half, e0e1: 0, e0e2: 0, e0e3: 0, e0e4: 0, e1e2: 0, e1e3: 0, e1e4: sin_half, e2e3: 0, e2e4: 0, e3e4: 0, e0e1e2e3: 0, e0e1e2e4: 0, e0e1e3e4: 0, e0e2e3e4: 0, e1e2e3e4: 0 })), (TransformModel { s: cos_half, e0e1: 0, e0e2: 0, e0e3: 0, e0e4: 0, e1e2: 0, e1e3: 0, e1e4: sin_half, e2e3: 0, e2e4: 0, e3e4: 0, e0e1e2e3: 0, e0e1e2e4: 0, e0e1e3e4: 0, e0e2e3e4: 0, e1e2e3e4: 0 })) == transform_identity(),
{
    broadcast use vstd::arithmetic::mul::group_mul_basics;
    lemma_mul_comm(cos_half, sin_half);
    lemma_mul_neg_left(cos_half, sin_half);
    lemma_mul_neg_left(sin_half, cos_half);
    lemma_mul_neg_left(sin_half, sin_half);
    lemma_mul_neg_left(cos_half, cos_half);
    lemma_mul_neg_right(cos_half, sin_half);
    lemma_mul_neg_right(sin_half, cos_half);
    lemma_mul_neg_both(cos_half, sin_half);
    lemma_mul_neg_both(sin_half, cos_half);
    lemma_mul_neg_both(sin_half, sin_half);
    lemma_mul_neg_both(cos_half, cos_half);
}

/// A single-plane rotation with a normalised half-angle pair composes
/// with its reverse to the identity.
pub proof fn lemma_transform_rotate_yz_reverse_identity(cos_half: int, sin_half: int)
    requires
        cos_half * cos_half + sin_half * sin_half == 1,
    ensures
        transform_and_then(transform_reverse((TransformModel { s: cos_half, e0e1: 0, e0e2: 0, e0e3: 0, e0e4: 0, e1e2: 0, e1e3: 0, e1e4: 0, e2e3: sin_half, e2e4: 0, e3e4: 0, e0e1e2e3: 0, e0e1e2e4: 0, e0e1e3e4: 0, e0e2e3e4: 0, e1e2e3e4: 0 })), (TransformModel { s: cos_half, e0e1: 0, e0e2: 0, e0e3: 0, e0e4: 0, e1e2: 0, e1e3: 0, e1e4: 0, e2e3: sin_half, e2e4: 0, e3e4: 0, e0e1e2e3: 0, e0e1e2e4: 0, e0e1e3e4: 0, e0e2e3e4: 0, e1e2e3e4: 0 })) == transform_identity(),
{
    broadcast use vstd::arithmetic::mul::group_mul_basics;
    lemma_mul_comm(cos_half, sin_half);
    lemma_mul_neg_left(cos_half, sin_half);
    lemma_mul_neg_left(sin_half, cos_half);
    lemma_mul_neg_left(sin_half, sin_half);
    lemma_mul_neg_left(cos_half, cos_half);
    lemma_mul_neg_right(cos_half, sin_half);
    lemma_mul_neg_right(sin_half, cos_half);
    lemma_mul_neg_both(cos_half, sin_half);
    lemma_mul_neg_both(sin_half, cos_half);
    lemma_mul_neg_both(sin_half, sin_half);
    lemma_mul_neg_both(cos_half, cos_half);
}

/// A single-plane rotation with a normalised half-angle pair composes
/// with its reverse to the identity.
pub proof fn lemma_transform_rotate_yw_reverse_identity(cos_half: int, sin_half: int)
    requires
        cos_half * cos_half + sin_half * sin_half == 1,
    ensures
        transform_and_then(transform_reverse((TransformModel { s: cos_half, e0e1: 0, e0e2: 0, e0e3: 0, e0e4: 0, e1e2: 0, e1e3: 0, e1e4: 0, e2e3: 0, e2e4: sin_half, e3e4: 0, e0e1e2e3: 0, e0e1e2e4: 0, e0e1e3e4: 0, e0e2e3e4: 0, e1e2e3e4: 0 })), (TransformModel { s: cos_half, e0e1: 0, e0e2: 0, e0e3: 0, e0e4: 0, e1e2: 0, e1e3: 0, e1e4: 0, e2e3: 0, e2e4: sin_half, e3e4: 0, e0e1e2e3: 0, e0e1e2e4: 0, e0e1e3e4: 0, e0e2e3e4: 0, e1e2e3e4: 0 })) == transform_identity(),
{
    broadcast use vstd::arithmetic::mul::group_mul_basics;
    lemma_mul_comm(cos_half, sin_half);
    lemma_mul_neg_left(cos_half, sin_half);
    lemma_mul_neg_left(sin_half, cos_half);
    lemma_mul_neg_left(sin_half, sin_half);
    lemma_mul_neg_left(cos_half, cos_half);
    lemma_mul_neg_right(cos_half, sin_half);
    lemma_mul_neg_right(sin_half, cos_half);
    lemma_mul_neg_both(cos_half, sin_half);
    lemma_mul_neg_both(sin_half, cos_half);
    lemma_mul_neg_both(sin_half, sin_half);
    lemma_mul_neg_both(cos_half, cos_half);
}

/// A single-plane rotation with a normalised half-angle pair composes
/// with its reverse to the identity.
pub proof fn lemma_transform_rotate_zw_reverse_identity(cos_half: int, sin_half: int)
    requires
        cos_half * cos_half + sin_half * sin_half == 1,
    ensures
        transform_and_then(transform_reverse((TransformModel { s: cos_half, e0e1: 0, e0e2: 0, e0e3: 0, e0e4: 0, e1e2: 0, e1e3: 0, e1e4: 0, e2e3: 0, e2e4: 0, e3e4: sin_half, e0e1e2e3: 0, e0e1e2e4: 0, e0e1e3e4: 0, e0e2e3e4: 0, e1e2e3e4: 0 })), (TransformModel { s: cos_half, e0e1: 0, e0e2: 0, e0e3: 0, e0e4: 0, e1e2: 0, e1e3: 0, e1e4: 0, e2e3: 0, e2e4: 0, e3e4: sin_half, e0e1e2e3: 0, e0e1e2e4: 0, e0e1e3e4: 0, e0e2e3e4: 0, e1e2e3e4: 0 })) == transform_identity(),
{
    broadcast use vstd::arithmetic::mul::group_mul_basics;
    lemma_mul_comm(cos_half, sin_half);
    lemma_mul_neg_left(cos_half, sin_half);
    lemma_mul_neg_left(sin_half, cos_half);
    lemma_mul_neg_left(sin_half, sin_half);
    lemma_mul_neg_left(cos_half, cos_half);
    lemma_mul_neg_right(cos_half, sin_half);
    lemma_mul_neg_right(sin_half, cos_half);
    lemma_mul_neg_both(cos_half, sin_half);
    lemma_mul_neg_both(sin_half, cos_half);
    lemma_mul_neg_both(sin_half, sin_half);
    lemma_mul_neg_both(cos_half, cos_half);
}

/// A pure translator composes with its reverse to the identity, exactly,
/// whatever the half-offsets: the null-vector generators square to zero.
pub proof fn lemma_translation_reverse_identity(h: Vec4Model)
    ensures
        transform_and_then(transform_reverse((TransformModel { s: 1, e0e1: h.x, e0e2: h.y, e0e3: h.z, e0e4: h.w, e1e2: 0, e1e3: 0, e1e4: 0, e2e3: 0, e2e4: 0, e3e4: 0, e0e1e2e3: 0, e0e1e2e4: 0, e0e1e3e4: 0, e0e2e3e4: 0, e1e2e3e4: 0 })), (TransformModel { s: 1, e0e1: h.x, e0e2: h.y, e0e3: h.z, e0e4: h.w, e1e2: 0, e1e3: 0, e1e4: 0, e2e3: 0, e2e4: 0, e3e4: 0, e0e1e2e3: 0, e0e1e2e4: 0, e0e1e3e4: 0, e0e2e3e4: 0, e1e2e3e4: 0 })) == transform_identity(),
{
    broadcast use vstd::arithmetic::mul::group_mul_basics;
    lemma_mul_comm(h.x, h.x);
    lemma_mul_neg_left(h.x, h.x);
    lemma_mul_comm(h.x, h.y);
    lemma_mul_neg_left(h.x, h.y);
    lemma_mul_comm(h.x, h.z);
    lemma_mul_neg_left(h.x, h.z);
    lemma_mul_comm(h.x, h.w);
    lemma_mul_neg_left(h.x, h.w);
    lemma_mul_comm(h.y, h.x);
    lemma_mul_neg_left(h.y, h.x);
    lemma_mul_comm(h.y, h.y);
    lemma_mul_neg_left(h.y, h.y);
    lemma_mul_comm(h.y, h.z);
    lemma_mul_neg_left(h.y, h.z);
    lemma_mul_comm(h.y, h.w);
    lemma_mul_neg_left(h.y, h.w);
    lemma_mul_comm(h.z, h.x);
    lemma_mul_neg_left(h.z, h.x);
    lemma_mul_comm(h.z, h.y);
    lemma_mul_neg_left(h.z, h.y);
    lemma_mul_comm(h.z, h.z);
    lemma_mul_neg_left(h.z, h.z);
    lemma_mul_comm(h.z, h.w);
    lemma_mul_neg_left(h.z, h.w);
    lemma_mul_comm(h.w, h.x);
    lemma_mul_neg_left(h.w, h.x);
    lemma_mul_comm(h.w, h.y);
    lemma_mul_neg_left(h.w, h.y);
    lemma_mul_comm(h.w, h.z);
    lemma_mul_neg_left(h.w, h.z);
    lemma_mul_comm(h.w, h.w);
    lemma_mul_neg_left(h.w, h.w);
}

/// A single-plane rotation carries the plane's first axis by the exact
/// double-angle form.
pub proof fn lemma_rotate_xy_direction(cos_half: int, sin_half: int)
    ensures
        rotate_direction((RotorModel { s: cos_half, e1e2: sin_half, e1e3: 0, e1e4: 0, e2e3: 0, e2e4: 0, e3e4: 0, e1e2e3e4: 0 }), (Vec4Model { x: 1, y: 0, z: 0, w: 0 })) == (Vec4Model { x: cos_half * cos_half - sin_half * sin_half, y: 2 * (cos_half * sin_half), z: 0, w: 0 }),
{
    broadcast use vstd::arithmetic::mul::group_mul_basics;
    lemma_mul_comm(cos_half, sin_half);
    lemma_mul_neg_left(cos_half, sin_half);
    lemma_mul_neg_left(sin_half, cos_half);
    lemma_mul_neg_left(sin_half, sin_half);
    lemma_mul_neg_left(cos_half, cos_half);
    lemma_mul_neg_right(cos_half, sin_half);
    lemma_mul_neg_right(sin_half, cos_half);
    lemma_mul_neg_both(cos_half, sin_half);
    lemma_mul_neg_both(sin_half, cos_half);
    lemma_mul_neg_both(sin_half, sin_half);
    lemma_mul_neg_both(cos_half, cos_half);
}

/// A single-plane rotation carries the plane's first axis by the exact
/// double-angle form.
pub proof fn lemma_rotate_xz_direction(cos_half: int, sin_half: int)
    ensures
        rotate_direction((RotorModel { s: cos_half, e1e2: 0, e1e3: sin_half, e1e4: 0, e2e3: 0, e2e4: 0, e3e4: 0, e1e2e3e4: 0 }), (Vec4Model { x: 1, y: 0, z: 0, w: 0 })) == (Vec4Model { x: cos_half * cos_half - sin_half * sin_half, y: 0, z: 2 * (cos_half * sin_half), w: 0 }),
{
    broadcast use vstd::arithmetic::mul::group_mul_basics;
    lemma_mul_comm(cos_half, sin_half);
    lemma_mul_neg_left(cos_half, sin_half);
    lemma_mul_neg_left(sin_half, cos_half);
    lemma_mul_neg_left(sin_half, sin_half);
    lemma_mul_neg_left(cos_half, cos_half);
    lemma_mul_neg_right(cos_half, sin_half);
    lemma_mul_neg_right(sin_half, cos_half);
    lemma_mul_neg_both(cos_half, sin_half);
    lemma_mul_neg_both(sin_half, cos_half);
    lemma_mul_neg_both(sin_half, sin_half);
    lemma_mul_neg_both(cos_half, cos_half);
}

/// A single-plane rotation carries the plane's first axis by the exact
/// double-angle form.
pub proof fn lemma_rotate_xw_direction(cos_half: int, sin_half: int)
    ensures
        rotate_direction((RotorModel { s: cos_half, e1e2: 0, e1e3: 0, e1e4: sin_half, e2e3: 0, e2e4: 0, e3e4: 0, e1e2e3e4: 0 }), (Vec4Model { x: 1, y: 0, z: 0, w: 0 })) == (Vec4Model { x: cos_half * cos_half - sin_half * sin_half, y: 0, z: 0, w: 2 * (cos_half * sin_half) }),
{
    broadcast use vstd::arithmetic::mul::group_mul_basics;
    lemma_mul_comm(cos_half, sin_half);
    lemma_mul_neg_left(cos_half, sin_half);
    lemma_mul_neg_left(sin_half, cos_half);
    lemma_mul_neg_left(sin_half, sin_half);
    lemma_mul_neg_left(cos_half, cos_half);
    lemma_mul_neg_right(cos_half, sin_half);
    lemma_mul_neg_right(sin_half, cos_half);
    lemma_mul_neg_both(cos_half, sin_half);
    lemma_mul_neg_both(sin_half, cos_half);
    lemma_mul_neg_both(sin_half, sin_half);
    lemma_mul_neg_both(cos_half, cos_half);
}

/// A single-plane rotation carries the plane's first axis by the exact
/// double-angle form.
pub proof fn lemma_rotate_yz_direction(cos_half: int, sin_half: int)
    ensures
        rotate_direction((RotorModel { s: cos_half, e1e2: 0, e1e3: 0, e1e4: 0, e2e3: sin_half, e2e4: 0, e3e4: 0, e1e2e3e4: 0 }), (Vec4Model { x: 0, y: 1, z: 0, w: 0 })) == (Vec4Model { x: 0, y: cos_half * cos_half - sin_half * sin_half, z: 2 * (cos_half * sin_half), w: 0 }),
{
    broadcast use vstd::arithmetic::mul::group_mul_basics;
    lemma_mul_comm(cos_half, sin_half);
    lemma_mul_neg_left(cos_half, sin_half);
    lemma_mul_neg_left(sin_half, cos_half);
    lemma_mul_neg_left(sin_half, sin_half);
    lemma_mul_neg_left(cos_half, cos_half);
    lemma_mul_neg_right(cos_half, sin_half);
    lemma_mul_neg_right(sin_half, cos_half);
    lemma_mul_neg_both(cos_half, sin_half);
    lemma_mul_neg_both(sin_half, cos_half);
    lemma_mul_neg_both(sin_half, sin_half);
    lemma_mul_neg_both(cos_half, cos_half);
}

/// A single-plane rotation carries the plane's first axis by the exact
/// double-angle form.
pub proof fn lemma_rotate_yw_direction(cos_half: int, sin_half: int)
    ensures
        rotate_direction((RotorModel { s: cos_half, e1e2: 0, e1e3: 0, e1e4: 0, e2e3: 0, e2e4: sin_half, e3e4: 0, e1e2e3e4: 0 }), (Vec4Model { x: 0, y: 1, z: 0, w: 0 })) == (Vec4Model { x: 0, y: cos_half * cos_half - sin_half * sin_half, z: 0, w: 2 * (cos_half * sin_half) }),
{
    broadcast use vstd::arithmetic::mul::group_mul_basics;
    lemma_mul_comm(cos_half, sin_half);
    lemma_mul_neg_left(cos_half, sin_half);
    lemma_mul_neg_left(sin_half, cos_half);
    lemma_mul_neg_left(sin_half, sin_half);
    lemma_mul_neg_left(cos_half, cos_half);
    lemma_mul_neg_right(cos_half, sin_half);
    lemma_mul_neg_right(sin_half, cos_half);
    lemma_mul_neg_both(cos_half, sin_half);
    lemma_mul_neg_both(sin_half, cos_half);
    lemma_mul_neg_both(sin_half, sin_half);
    lemma_mul_neg_both(cos_half, cos_half);
}

/// A single-plane rotation carries the plane's first axis by the exact
/// double-angle form.
pub proof fn lemma_rotate_zw_direction(cos_half: int, sin_half: int)
    ensures
        rotate_direction((RotorModel { s: cos_half, e1e2: 0, e1e3: 0, e1e4: 0, e2e3: 0, e2e4: 0, e3e4: sin_half, e1e2e3e4: 0 }), (Vec4Model { x: 0, y: 0, z: 1, w: 0 })) == (Vec4Model { x: 0, y: 0, z: cos_half * cos_half - sin_half * sin_half, w: 2 * (cos_half * sin_half) }),
{
    broadcast use vstd::arithmetic::mul::group_mul_basics;
    lemma_mul_comm(cos_half, sin_half);
    lemma_mul_neg_left(cos_half, sin_half);
    lemma_mul_neg_left(sin_half, cos_half);
    lemma_mul_neg_left(sin_half, sin_half);
    lemma_mul_neg_left(cos_half, cos_half);
    lemma_mul_neg_right(cos_half, sin_half);
    lemma_mul_neg_right(sin_half, cos_half);
    lemma_mul_neg_both(cos_half, sin_half);
    lemma_mul_neg_both(sin_half, cos_half);
    lemma_mul_neg_both(sin_half, sin_half);
    lemma_mul_neg_both(cos_half, cos_half);
}

/// The identity rotor carries every direction to itself.
pub proof fn lemma_identity_direction(v: Vec4Model)
    ensures
        rotate_direction(rotor_identity(), v) == v,
{
    broadcast use vstd::arithmetic::mul::group_mul_basics;
}

/// A pure translator of half-offsets `h` places the origin at the doubled
/// offsets.
pub proof fn lemma_translation_position(h: Vec4Model)
    ensures
        transform_position((TransformModel { s: 1, e0e1: h.x, e0e2: h.y, e0e3: h.z, e0e4: h.w, e1e2: 0, e1e3: 0, e1e4: 0, e2e3: 0, e2e4: 0, e3e4: 0, e0e1e2e3: 0, e0e1e2e4: 0, e0e1e3e4: 0, e0e2e3e4: 0, e1e2e3e4: 0 })) == vec_scale((Vec4Model { x: h.x, y: h.y, z: h.z, w: h.w }), 2),
{
    broadcast use vstd::arithmetic::mul::group_mul_basics;
}

/// A translator built from even offsets places the origin exactly at the
/// offsets, matching the executable constructor's half-generator storage.
pub proof fn lemma_translation_offsets_position(v: Vec4Model)
    requires
        v.x % 2 == 0,
        v.y % 2 == 0,
        v.z % 2 == 0,
        v.w % 2 == 0,
    ensures
        transform_position((TransformModel { s: 1, e0e1: v.x / 2, e0e2: v.y / 2,
            e0e3: v.z / 2, e0e4: v.w / 2, e1e2: 0, e1e3: 0, e1e4: 0, e2e3: 0, e2e4: 0,
            e3e4: 0, e0e1e2e3: 0, e0e1e2e4: 0, e0e1e3e4: 0, e0e2e3e4: 0,
            e1e2e3e4: 0 })) == v,
{
    broadcast use vstd::arithmetic::mul::group_mul_basics;
}

/// A pure translator leaves every direction unchanged: its rotation part
/// is the identity.
pub proof fn lemma_translation_direction(h: Vec4Model, d: Vec4Model)
    ensures
        transform_rotor_part((TransformModel { s: 1, e0e1: h.x, e0e2: h.y, e0e3: h.z, e0e4: h.w, e1e2: 0, e1e3: 0, e1e4: 0, e2e3: 0, e2e4: 0, e3e4: 0, e0e1e2e3: 0, e0e1e2e4: 0, e0e1e3e4: 0, e0e2e3e4: 0, e1e2e3e4: 0 })) == rotor_identity(),
        rotate_direction(transform_rotor_part((TransformModel { s: 1, e0e1: h.x, e0e2: h.y, e0e3: h.z, e0e4: h.w, e1e2: 0, e1e3: 0, e1e4: 0, e2e3: 0, e2e4: 0, e3e4: 0, e0e1e2e3: 0, e0e1e2e4: 0, e0e1e3e4: 0, e0e2e3e4: 0, e1e2e3e4: 0 })), d) == d,
{
    broadcast use vstd::arithmetic::mul::group_mul_basics;
}

} // verus!
