//! Fixed-arity numeric tuples: the I/O boundary of the rotor facade and the
//! coordinate type of the signed-distance field.
//!
//! The records are generic; the arithmetic is provided for `i64` elements and
//! is exact, with truncating division and a floor-square-root magnitude.

use vstd::prelude::*;

use crate::num::{abs_of, div_to_zero, div_trunc, isqrt, lemma_component_within_root,
    lemma_div_trunc_bound, lemma_square_le, sqrt_floor};
use crate::{MAG_LIMIT, UNIT};

verus! {

#[derive(Debug, Clone, Copy, PartialEq, Eq, Hash)]
pub struct Vector2<T> {
    pub x: T,
    pub y: T,
}

#[derive(Debug, Clone, Copy, PartialEq, Eq, Hash)]
pub struct Vector3<T> {
    pub x: T,
    pub y: T,
    pub z: T,
}

#[derive(Debug, Clone, Copy, PartialEq, Eq, Hash)]
pub struct Vector4<T> {
    pub x: T,
    pub y: T,
    pub z: T,
    pub w: T,
}

/// A length-2 tuple of mathematical integers: the value of a
/// [`Vector2<i64>`].
pub struct Vec2Model {
    pub x: int,
    pub y: int,
}

impl View for Vector2<i64> {
    type V = Vec2Model;

    open spec fn view(&self) -> Vec2Model {
        Vec2Model { x: self.x as int, y: self.y as int }
    }
}

/// A length-3 tuple of mathematical integers: the value of a
/// [`Vector3<i64>`].
pub struct Vec3Model {
    pub x: int,
    pub y: int,
    pub z: int,
}

impl View for Vector3<i64> {
    type V = Vec3Model;

    open spec fn view(&self) -> Vec3Model {
        Vec3Model { x: self.x as int, y: self.y as int, z: self.z as int }
    }
}

/// A length-4 tuple of mathematical integers: the value of a [`Vector4<i64>`]
/// and the coordinate type of the spec-level algebra.
pub struct Vec4Model {
    pub x: int,
    pub y: int,
    pub z: int,
    pub w: int,
}

impl View for Vector4<i64> {
    type V = Vec4Model;

    open spec fn view(&self) -> Vec4Model {
        Vec4Model { x: self.x as int, y: self.y as int, z: self.z as int, w: self.w as int }
    }
}

/// Every coordinate of `v` lies within `lim`.
pub open spec fn vec4_in_limit(v: Vec4Model, lim: int) -> bool {
    -lim <= v.x <= lim && -lim <= v.y <= lim && -lim <= v.z <= lim && -lim <= v.w <= lim
}

/// The Euclidean inner product of two coordinate tuples.
pub open spec fn vec_dot(u: Vec4Model, v: Vec4Model) -> int {
    u.x * v.x + u.y * v.y + u.z * v.z + u.w * v.w
}

/// Scale every coordinate by `k`.
pub open spec fn vec_scale(v: Vec4Model, k: int) -> Vec4Model {
    Vec4Model { x: k * v.x, y: k * v.y, z: k * v.z, w: k * v.w }
}

/// Rescaling to Euclidean length close to [`UNIT`]: the zero tuple is left
/// unchanged, every other tuple is scaled by `UNIT` and divided by the floor
/// root of its squared magnitude.
pub open spec fn vec2_normalised(v: Vec2Model) -> Vec2Model {
    if v == (Vec2Model { x: 0, y: 0 }) {
        v
    } else {
        let m = sqrt_floor(v.x * v.x + v.y * v.y);
        Vec2Model {
            x: div_trunc(v.x * UNIT, m),
            y: div_trunc(v.y * UNIT, m),
        }
    }
}

/// Rescaling to Euclidean length close to [`UNIT`]: the zero tuple is left
/// unchanged, every other tuple is scaled by `UNIT` and divided by the floor
/// root of its squared magnitude.
pub open spec fn vec3_normalised(v: Vec3Model) -> Vec3Model {
    if v == (Vec3Model { x: 0, y: 0, z: 0 }) {
        v
    } else {
        let m = sqrt_floor(v.x * v.x + v.y * v.y + v.z * v.z);
        Vec3Model {
            x: div_trunc(v.x * UNIT, m),
            y: div_trunc(v.y * UNIT, m),
            z: div_trunc(v.z * UNIT, m),
        }
    }
}

/// Rescaling to Euclidean length close to [`UNIT`]: the zero tuple is left
/// unchanged, every other tuple is scaled by `UNIT` and divided by the floor
/// root of its squared magnitude.
pub open spec fn vec4_normalised(v: Vec4Model) -> Vec4Model {
    if v == (Vec4Model { x: 0, y: 0, z: 0, w: 0 }) {
        v
    } else {
        let m = sqrt_floor(v.x * v.x + v.y * v.y + v.z * v.z + v.w * v.w);
        Vec4Model {
            x: div_trunc(v.x * UNIT, m),
            y: div_trunc(v.y * UNIT, m),
            z: div_trunc(v.z * UNIT, m),
            w: div_trunc(v.w * UNIT, m),
        }
    }
}

impl<T> Vector2<T> {
    /// Apply `f` to each element.
    pub fn map<U, F: Fn(T) -> U>(self, f: F) -> (r: Vector2<U>)
        requires
            call_requires(f, (self.x,)),
            call_requires(f, (self.y,)),
        ensures
            call_ensures(f, (self.x,), r.x),
            call_ensures(f, (self.y,), r.y),
    {
        Vector2 { x: f(self.x), y: f(self.y) }
    }
}

impl<T> Vector3<T> {
    /// Apply `f` to each element.
    pub fn map<U, F: Fn(T) -> U>(self, f: F) -> (r: Vector3<U>)
        requires
            call_requires(f, (self.x,)),
            call_requires(f, (self.y,)),
            call_requires(f, (self.z,)),
        ensures
            call_ensures(f, (self.x,), r.x),
            call_ensures(f, (self.y,), r.y),
            call_ensures(f, (self.z,), r.z),
    {
        Vector3 { x: f(self.x), y: f(self.y), z: f(self.z) }
    }
}

impl<T> Vector4<T> {
    /// Apply `f` to each element.
    pub fn map<U, F: Fn(T) -> U>(self, f: F) -> (r: Vector4<U>)
        requires
            call_requires(f, (self.x,)),
            call_requires(f, (self.y,)),
            call_requires(f, (self.z,)),
            call_requires(f, (self.w,)),
        ensures
            call_ensures(f, (self.x,), r.x),
            call_ensures(f, (self.y,), r.y),
            call_ensures(f, (self.z,), r.z),
            call_ensures(f, (self.w,), r.w),
    {
        Vector4 { x: f(self.x), y: f(self.y), z: f(self.z), w: f(self.w) }
    }
}

impl Vector2<i64> {
    /// Element-wise sum.
    pub fn add(self, rhs: Self) -> (r: Self)
        requires
            i64::MIN <= self.x + rhs.x <= i64::MAX,
            i64::MIN <= self.y + rhs.y <= i64::MAX,
        ensures
            r.x == self.x + rhs.x,
            r.y == self.y + rhs.y,
    {
        Self { x: self.x + rhs.x, y: self.y + rhs.y }
    }

    /// Element-wise sum, in place.
    pub fn add_assign(&mut self, rhs: Self)
        requires
            i64::MIN <= old(self).x + rhs.x <= i64::MAX,
            i64::MIN <= old(self).y + rhs.y <= i64::MAX,
        ensures
            final(self).x == old(self).x + rhs.x,
            final(self).y == old(self).y + rhs.y,
    {
        self.x = self.x + rhs.x;
        self.y = self.y + rhs.y;
    }

    /// Element-wise difference.
    pub fn sub(self, rhs: Self) -> (r: Self)
        requires
            i64::MIN <= self.x - rhs.x <= i64::MAX,
            i64::MIN <= self.y - rhs.y <= i64::MAX,
        ensures
            r.x == self.x - rhs.x,
            r.y == self.y - rhs.y,
    {
        Self { x: self.x - rhs.x, y: self.y - rhs.y }
    }

    /// Element-wise difference, in place.
    pub fn sub_assign(&mut self, rhs: Self)
        requires
            i64::MIN <= old(self).x - rhs.x <= i64::MAX,
            i64::MIN <= old(self).y - rhs.y <= i64::MAX,
        ensures
            final(self).x == old(self).x - rhs.x,
            final(self).y == old(self).y - rhs.y,
    {
        self.x = self.x - rhs.x;
        self.y = self.y - rhs.y;
    }

    /// Element-wise product.
    pub fn mul(self, rhs: Self) -> (r: Self)
        requires
            i64::MIN <= self.x * rhs.x <= i64::MAX,
            i64::MIN <= self.y * rhs.y <= i64::MAX,
        ensures
            r.x == self.x * rhs.x,
            r.y == self.y * rhs.y,
    {
        Self { x: self.x * rhs.x, y: self.y * rhs.y }
    }

    /// Element-wise product, in place.
    pub fn mul_assign(&mut self, rhs: Self)
        requires
            i64::MIN <= old(self).x * rhs.x <= i64::MAX,
            i64::MIN <= old(self).y * rhs.y <= i64::MAX,
        ensures
            final(self).x == old(self).x * rhs.x,
            final(self).y == old(self).y * rhs.y,
    {
        self.x = self.x * rhs.x;
        self.y = self.y * rhs.y;
    }

    /// Element-wise quotient, rounding toward zero.
    pub fn div(self, rhs: Self) -> (r: Self)
        requires
            rhs.x != 0 && rhs.y != 0,
            rhs.x != i64::MIN && rhs.y != i64::MIN,
            self.x != i64::MIN && self.y != i64::MIN,
        ensures
            r.x == div_trunc(self.x as int, rhs.x as int),
            r.y == div_trunc(self.y as int, rhs.y as int),
    {
        Self { x: div_to_zero(self.x, rhs.x), y: div_to_zero(self.y, rhs.y) }
    }

    /// Element-wise quotient, in place.
    pub fn div_assign(&mut self, rhs: Self)
        requires
            rhs.x != 0 && rhs.y != 0,
            rhs.x != i64::MIN && rhs.y != i64::MIN,
            old(self).x != i64::MIN && old(self).y != i64::MIN,
        ensures
            final(self).x == div_trunc(old(self).x as int, rhs.x as int),
            final(self).y == div_trunc(old(self).y as int, rhs.y as int),
    {
        self.x = div_to_zero(self.x, rhs.x);
        self.y = div_to_zero(self.y, rhs.y);
    }

    /// Element-wise sum with a scalar.
    pub fn add_scalar(self, rhs: i64) -> (r: Self)
        requires
            i64::MIN <= self.x + rhs <= i64::MAX,
            i64::MIN <= self.y + rhs <= i64::MAX,
        ensures
            r.x == self.x + rhs,
            r.y == self.y + rhs,
    {
        Self { x: self.x + rhs, y: self.y + rhs }
    }

    /// Element-wise difference with a scalar.
    pub fn sub_scalar(self, rhs: i64) -> (r: Self)
        requires
            i64::MIN <= self.x - rhs <= i64::MAX,
            i64::MIN <= self.y - rhs <= i64::MAX,
        ensures
            r.x == self.x - rhs,
            r.y == self.y - rhs,
    {
        Self { x: self.x - rhs, y: self.y - rhs }
    }

    /// Element-wise product with a scalar.
    pub fn mul_scalar(self, rhs: i64) -> (r: Self)
        requires
            i64::MIN <= self.x * rhs <= i64::MAX,
            i64::MIN <= self.y * rhs <= i64::MAX,
        ensures
            r.x == self.x * rhs,
            r.y == self.y * rhs,
    {
        Self { x: self.x * rhs, y: self.y * rhs }
    }

    /// Element-wise quotient by a scalar, rounding toward zero.
    pub fn div_scalar(self, rhs: i64) -> (r: Self)
        requires
            rhs != 0,
            rhs != i64::MIN,
            self.x != i64::MIN && self.y != i64::MIN,
        ensures
            r.x == div_trunc(self.x as int, rhs as int),
            r.y == div_trunc(self.y as int, rhs as int),
    {
        Self { x: div_to_zero(self.x, rhs), y: div_to_zero(self.y, rhs) }
    }

    /// Rescale to Euclidean length close to [`UNIT`]; the zero vector is
    /// returned unchanged.  Every element of the result is within `UNIT`.
    pub fn normalised(self) -> (r: Self)
        requires
            -MAG_LIMIT <= self.x <= MAG_LIMIT,
            -MAG_LIMIT <= self.y <= MAG_LIMIT,
        ensures
            r@ == vec2_normalised(self@),
            abs_of(r.x as int) <= UNIT,
            abs_of(r.y as int) <= UNIT,
    {
        if self.x == 0 && self.y == 0 {
            return self;
        }
        proof {
            lemma_square_le(self.x as int, MAG_LIMIT as int);
            lemma_square_le(self.y as int, MAG_LIMIT as int);
        }
        let s = self.x * self.x + self.y * self.y;
        let m = isqrt(s);
        proof {
            assert(s >= 1) by (nonlinear_arith)
                requires
                    s == self.x * self.x + self.y * self.y,
                    self.x != 0 || self.y != 0;
            assert(m >= 1) by (nonlinear_arith)
                requires m >= 0, s >= 1, s < (m + 1) * (m + 1);
            lemma_component_within_root(self.x as int, m as int, s as int);
            lemma_div_trunc_bound(self.x * UNIT, m as int, UNIT as int);
            lemma_component_within_root(self.y as int, m as int, s as int);
            lemma_div_trunc_bound(self.y * UNIT, m as int, UNIT as int);
        }
        Self { x: div_to_zero(self.x * UNIT, m), y: div_to_zero(self.y * UNIT, m) }
    }

    /// Floor of the Euclidean length.
    pub fn magnitude(self) -> (r: i64)
        requires
            -MAG_LIMIT <= self.x <= MAG_LIMIT,
            -MAG_LIMIT <= self.y <= MAG_LIMIT,
        ensures
            r == sqrt_floor(self.x * self.x + self.y * self.y),
            r * r <= self.x * self.x + self.y * self.y < (r + 1) * (r + 1),
            0 <= r <= 2 * MAG_LIMIT,
    {
        proof {
            lemma_square_within(self.x as int);
            lemma_square_within(self.y as int);
        }
        let s = self.x * self.x + self.y * self.y;
        let r = isqrt(s);
        proof {
            lemma_root_within(r as int, s as int);
        }
        r
    }
}

impl Vector3<i64> {
    /// Element-wise sum.
    pub fn add(self, rhs: Self) -> (r: Self)
        requires
            i64::MIN <= self.x + rhs.x <= i64::MAX,
            i64::MIN <= self.y + rhs.y <= i64::MAX,
            i64::MIN <= self.z + rhs.z <= i64::MAX,
        ensures
            r.x == self.x + rhs.x,
            r.y == self.y + rhs.y,
            r.z == self.z + rhs.z,
    {
        Self { x: self.x + rhs.x, y: self.y + rhs.y, z: self.z + rhs.z }
    }

    /// Element-wise sum, in place.
    pub fn add_assign(&mut self, rhs: Self)
        requires
            i64::MIN <= old(self).x + rhs.x <= i64::MAX,
            i64::MIN <= old(self).y + rhs.y <= i64::MAX,
            i64::MIN <= old(self).z + rhs.z <= i64::MAX,
        ensures
            final(self).x == old(self).x + rhs.x,
            final(self).y == old(self).y + rhs.y,
            final(self).z == old(self).z + rhs.z,
    {
        self.x = self.x + rhs.x;
        self.y = self.y + rhs.y;
        self.z = self.z + rhs.z;
    }

    /// Element-wise difference.
    pub fn sub(self, rhs: Self) -> (r: Self)
        requires
            i64::MIN <= self.x - rhs.x <= i64::MAX,
            i64::MIN <= self.y - rhs.y <= i64::MAX,
            i64::MIN <= self.z - rhs.z <= i64::MAX,
        ensures
            r.x == self.x - rhs.x,
            r.y == self.y - rhs.y,
            r.z == self.z - rhs.z,
    {
        Self { x: self.x - rhs.x, y: self.y - rhs.y, z: self.z - rhs.z }
    }

    /// Element-wise difference, in place.
    pub fn sub_assign(&mut self, rhs: Self)
        requires
            i64::MIN <= old(self).x - rhs.x <= i64::MAX,
            i64::MIN <= old(self).y - rhs.y <= i64::MAX,
            i64::MIN <= old(self).z - rhs.z <= i64::MAX,
        ensures
            final(self).x == old(self).x - rhs.x,
            final(self).y == old(self).y - rhs.y,
            final(self).z == old(self).z - rhs.z,
    {
        self.x = self.x - rhs.x;
        self.y = self.y - rhs.y;
        self.z = self.z - rhs.z;
    }

    /// Element-wise product.
    pub fn mul(self, rhs: Self) -> (r: Self)
        requires
            i64::MIN <= self.x * rhs.x <= i64::MAX,
            i64::MIN <= self.y * rhs.y <= i64::MAX,
            i64::MIN <= self.z * rhs.z <= i64::MAX,
        ensures
            r.x == self.x * rhs.x,
            r.y == self.y * rhs.y,
            r.z == self.z * rhs.z,
    {
        Self { x: self.x * rhs.x, y: self.y * rhs.y, z: self.z * rhs.z }
    }

    /// Element-wise product, in place.
    pub fn mul_assign(&mut self, rhs: Self)
        requires
            i64::MIN <= old(self).x * rhs.x <= i64::MAX,
            i64::MIN <= old(self).y * rhs.y <= i64::MAX,
            i64::MIN <= old(self).z * rhs.z <= i64::MAX,
        ensures
            final(self).x == old(self).x * rhs.x,
            final(self).y == old(self).y * rhs.y,
            final(self).z == old(self).z * rhs.z,
    {
        self.x = self.x * rhs.x;
        self.y = self.y * rhs.y;
        self.z = self.z * rhs.z;
    }

    /// Element-wise quotient, rounding toward zero.
    pub fn div(self, rhs: Self) -> (r: Self)
        requires
            rhs.x != 0 && rhs.y != 0 && rhs.z != 0,
            rhs.x != i64::MIN && rhs.y != i64::MIN && rhs.z != i64::MIN,
            self.x != i64::MIN && self.y != i64::MIN && self.z != i64::MIN,
        ensures
            r.x == div_trunc(self.x as int, rhs.x as int),
            r.y == div_trunc(self.y as int, rhs.y as int),
            r.z == div_trunc(self.z as int, rhs.z as int),
    {
        Self {
            x: div_to_zero(self.x, rhs.x),
            y: div_to_zero(self.y, rhs.y),
            z: div_to_zero(self.z, rhs.z),
        }
    }

    /// Element-wise quotient, in place.
    pub fn div_assign(&mut self, rhs: Self)
        requires
            rhs.x != 0 && rhs.y != 0 && rhs.z != 0,
            rhs.x != i64::MIN && rhs.y != i64::MIN && rhs.z != i64::MIN,
            old(self).x != i64::MIN && old(self).y != i64::MIN && old(self).z != i64::MIN,
        ensures
            final(self).x == div_trunc(old(self).x as int, rhs.x as int),
            final(self).y == div_trunc(old(self).y as int, rhs.y as int),
            final(self).z == div_trunc(old(self).z as int, rhs.z as int),
    {
        self.x = div_to_zero(self.x, rhs.x);
        self.y = div_to_zero(self.y, rhs.y);
        self.z = div_to_zero(self.z, rhs.z);
    }

    /// Element-wise sum with a scalar.
    pub fn add_scalar(self, rhs: i64) -> (r: Self)
        requires
            i64::MIN <= self.x + rhs <= i64::MAX,
            i64::MIN <= self.y + rhs <= i64::MAX,
            i64::MIN <= self.z + rhs <= i64::MAX,
        ensures
            r.x == self.x + rhs,
            r.y == self.y + rhs,
            r.z == self.z + rhs,
    {
        Self { x: self.x + rhs, y: self.y + rhs, z: self.z + rhs }
    }

    /// Element-wise difference with a scalar.
    pub fn sub_scalar(self, rhs: i64) -> (r: Self)
        requires
            i64::MIN <= self.x - rhs <= i64::MAX,
            i64::MIN <= self.y - rhs <= i64::MAX,
            i64::MIN <= self.z - rhs <= i64::MAX,
        ensures
            r.x == self.x - rhs,
            r.y == self.y - rhs,
            r.z == self.z - rhs,
    {
        Self { x: self.x - rhs, y: self.y - rhs, z: self.z - rhs }
    }

    /// Element-wise product with a scalar.
    pub fn mul_scalar(self, rhs: i64) -> (r: Self)
        requires
            i64::MIN <= self.x * rhs <= i64::MAX,
            i64::MIN <= self.y * rhs <= i64::MAX,
            i64::MIN <= self.z * rhs <= i64::MAX,
        ensures
            r.x == self.x * rhs,
            r.y == self.y * rhs,
            r.z == self.z * rhs,
    {
        Self { x: self.x * rhs, y: self.y * rhs, z: self.z * rhs }
    }

    /// Element-wise quotient by a scalar, rounding toward zero.
    pub fn div_scalar(self, rhs: i64) -> (r: Self)
        requires
            rhs != 0,
            rhs != i64::MIN,
            self.x != i64::MIN && self.y != i64::MIN && self.z != i64::MIN,
        ensures
            r.x == div_trunc(self.x as int, rhs as int),
            r.y == div_trunc(self.y as int, rhs as int),
            r.z == div_trunc(self.z as int, rhs as int),
    {
        Self { x: div_to_zero(self.x, rhs), y: div_to_zero(self.y, rhs), z: div_to_zero(self.z, rhs) }
    }

    /// Rescale to Euclidean length close to [`UNIT`]; the zero vector is
    /// returned unchanged.  Every element of the result is within `UNIT`.
    pub fn normalised(self) -> (r: Self)
        requires
            -MAG_LIMIT <= self.x <= MAG_LIMIT,
            -MAG_LIMIT <= self.y <= MAG_LIMIT,
            -MAG_LIMIT <= self.z <= MAG_LIMIT,
        ensures
            r@ == vec3_normalised(self@),
            abs_of(r.x as int) <= UNIT,
            abs_of(r.y as int) <= UNIT,
            abs_of(r.z as int) <= UNIT,
    {
        if self.x == 0 && self.y == 0 && self.z == 0 {
            return self;
        }
        proof {
            lemma_square_le(self.x as int, MAG_LIMIT as int);
            lemma_square_le(self.y as int, MAG_LIMIT as int);
            lemma_square_le(self.z as int, MAG_LIMIT as int);
        }
        let s = self.x * self.x + self.y * self.y + self.z * self.z;
        let m = isqrt(s);
        proof {
            assert(s >= 1) by (nonlinear_arith)
                requires
                    s == self.x * self.x + self.y * self.y + self.z * self.z,
                    self.x != 0 || self.y != 0 || self.z != 0;
            assert(m >= 1) by (nonlinear_arith)
                requires m >= 0, s >= 1, s < (m + 1) * (m + 1);
            lemma_component_within_root(self.x as int, m as int, s as int);
            lemma_div_trunc_bound(self.x * UNIT, m as int, UNIT as int);
            lemma_component_within_root(self.y as int, m as int, s as int);
            lemma_div_trunc_bound(self.y * UNIT, m as int, UNIT as int);
            lemma_component_within_root(self.z as int, m as int, s as int);
            lemma_div_trunc_bound(self.z * UNIT, m as int, UNIT as int);
        }
        Self { x: div_to_zero(self.x * UNIT, m), y: div_to_zero(self.y * UNIT, m), z: div_to_zero(self.z * UNIT, m) }
    }

    /// Floor of the Euclidean length.
    pub fn magnitude(self) -> (r: i64)
        requires
            -MAG_LIMIT <= self.x <= MAG_LIMIT,
            -MAG_LIMIT <= self.y <= MAG_LIMIT,
            -MAG_LIMIT <= self.z <= MAG_LIMIT,
        ensures
            r == sqrt_floor(self.x * self.x + self.y * self.y + self.z * self.z),
            r * r <= self.x * self.x + self.y * self.y + self.z * self.z < (r + 1) * (r + 1),
            0 <= r <= 2 * MAG_LIMIT,
    {
        proof {
            lemma_square_within(self.x as int);
            lemma_square_within(self.y as int);
            lemma_square_within(self.z as int);
        }
        let s = self.x * self.x + self.y * self.y + self.z * self.z;
        let r = isqrt(s);
        proof {
            lemma_root_within(r as int, s as int);
        }
        r
    }
}

impl Vector4<i64> {
    /// Element-wise sum.
    pub fn add(self, rhs: Self) -> (r: Self)
        requires
            i64::MIN <= self.x + rhs.x <= i64::MAX,
            i64::MIN <= self.y + rhs.y <= i64::MAX,
            i64::MIN <= self.z + rhs.z <= i64::MAX,
            i64::MIN <= self.w + rhs.w <= i64::MAX,
        ensures
            r.x == self.x + rhs.x,
            r.y == self.y + rhs.y,
            r.z == self.z + rhs.z,
            r.w == self.w + rhs.w,
    {
        Self { x: self.x + rhs.x, y: self.y + rhs.y, z: self.z + rhs.z, w: self.w + rhs.w }
    }

    /// Element-wise sum, in place.
    pub fn add_assign(&mut self, rhs: Self)
        requires
            i64::MIN <= old(self).x + rhs.x <= i64::MAX,
            i64::MIN <= old(self).y + rhs.y <= i64::MAX,
            i64::MIN <= old(self).z + rhs.z <= i64::MAX,
            i64::MIN <= old(self).w + rhs.w <= i64::MAX,
        ensures
            final(self).x == old(self).x + rhs.x,
            final(self).y == old(self).y + rhs.y,
            final(self).z == old(self).z + rhs.z,
            final(self).w == old(self).w + rhs.w,
    {
        self.x = self.x + rhs.x;
        self.y = self.y + rhs.y;
        self.z = self.z + rhs.z;
        self.w = self.w + rhs.w;
    }

    /// Element-wise difference.
    pub fn sub(self, rhs: Self) -> (r: Self)
        requires
            i64::MIN <= self.x - rhs.x <= i64::MAX,
            i64::MIN <= self.y - rhs.y <= i64::MAX,
            i64::MIN <= self.z - rhs.z <= i64::MAX,
            i64::MIN <= self.w - rhs.w <= i64::MAX,
        ensures
            r.x == self.x - rhs.x,
            r.y == self.y - rhs.y,
            r.z == self.z - rhs.z,
            r.w == self.w - rhs.w,
    {
        Self { x: self.x - rhs.x, y: self.y - rhs.y, z: self.z - rhs.z, w: self.w - rhs.w }
    }

    /// Element-wise difference, in place.
    pub fn sub_assign(&mut self, rhs: Self)
        requires
            i64::MIN <= old(self).x - rhs.x <= i64::MAX,
            i64::MIN <= old(self).y - rhs.y <= i64::MAX,
            i64::MIN <= old(self).z - rhs.z <= i64::MAX,
            i64::MIN <= old(self).w - rhs.w <= i64::MAX,
        ensures
            final(self).x == old(self).x - rhs.x,
            final(self).y == old(self).y - rhs.y,
            final(self).z == old(self).z - rhs.z,
            final(self).w == old(self).w - rhs.w,
    {
        self.x = self.x - rhs.x;
        self.y = self.y - rhs.y;
        self.z = self.z - rhs.z;
        self.w = self.w - rhs.w;
    }

    /// Element-wise product.
    pub fn mul(self, rhs: Self) -> (r: Self)
        requires
            i64::MIN <= self.x * rhs.x <= i64::MAX,
            i64::MIN <= self.y * rhs.y <= i64::MAX,
            i64::MIN <= self.z * rhs.z <= i64::MAX,
            i64::MIN <= self.w * rhs.w <= i64::MAX,
        ensures
            r.x == self.x * rhs.x,
            r.y == self.y * rhs.y,
            r.z == self.z * rhs.z,
            r.w == self.w * rhs.w,
    {
        Self { x: self.x * rhs.x, y: self.y * rhs.y, z: self.z * rhs.z, w: self.w * rhs.w }
    }

    /// Element-wise product, in place.
    pub fn mul_assign(&mut self, rhs: Self)
        requires
            i64::MIN <= old(self).x * rhs.x <= i64::MAX,
            i64::MIN <= old(self).y * rhs.y <= i64::MAX,
            i64::MIN <= old(self).z * rhs.z <= i64::MAX,
            i64::MIN <= old(self).w * rhs.w <= i64::MAX,
        ensures
            final(self).x == old(self).x * rhs.x,
            final(self).y == old(self).y * rhs.y,
            final(self).z == old(self).z * rhs.z,
            final(self).w == old(self).w * rhs.w,
    {
        self.x = self.x * rhs.x;
        self.y = self.y * rhs.y;
        self.z = self.z * rhs.z;
        self.w = self.w * rhs.w;
    }

    /// Element-wise quotient, rounding toward zero.
    pub fn div(self, rhs: Self) -> (r: Self)
        requires
            rhs.x != 0 && rhs.y != 0 && rhs.z != 0 && rhs.w != 0,
            rhs.x != i64::MIN && rhs.y != i64::MIN && rhs.z != i64::MIN && rhs.w != i64::MIN,
            self.x != i64::MIN && self.y != i64::MIN && self.z != i64::MIN && self.w != i64::MIN,
        ensures
            r.x == div_trunc(self.x as int, rhs.x as int),
            r.y == div_trunc(self.y as int, rhs.y as int),
            r.z == div_trunc(self.z as int, rhs.z as int),
            r.w == div_trunc(self.w as int, rhs.w as int),
    {
        Self {
            x: div_to_zero(self.x, rhs.x),
            y: div_to_zero(self.y, rhs.y),
            z: div_to_zero(self.z, rhs.z),
            w: div_to_zero(self.w, rhs.w),
        }
    }

    /// Element-wise quotient, in place.
    pub fn div_assign(&mut self, rhs: Self)
        requires
            rhs.x != 0 && rhs.y != 0 && rhs.z != 0 && rhs.w != 0,
            rhs.x != i64::MIN && rhs.y != i64::MIN && rhs.z != i64::MIN && rhs.w != i64::MIN,
            old(self).x != i64::MIN && old(self).y != i64::MIN && old(self).z != i64::MIN
                && old(self).w != i64::MIN,
        ensures
            final(self).x == div_trunc(old(self).x as int, rhs.x as int),
            final(self).y == div_trunc(old(self).y as int, rhs.y as int),
            final(self).z == div_trunc(old(self).z as int, rhs.z as int),
            final(self).w == div_trunc(old(self).w as int, rhs.w as int),
    {
        self.x = div_to_zero(self.x, rhs.x);
        self.y = div_to_zero(self.y, rhs.y);
        self.z = div_to_zero(self.z, rhs.z);
        self.w = div_to_zero(self.w, rhs.w);
    }

    /// Element-wise sum with a scalar.
    pub fn add_scalar(self, rhs: i64) -> (r: Self)
        requires
            i64::MIN <= self.x + rhs <= i64::MAX,
            i64::MIN <= self.y + rhs <= i64::MAX,
            i64::MIN <= self.z + rhs <= i64::MAX,
            i64::MIN <= self.w + rhs <= i64::MAX,
        ensures
            r.x == self.x + rhs,
            r.y == self.y + rhs,
            r.z == self.z + rhs,
            r.w == self.w + rhs,
    {
        Self { x: self.x + rhs, y: self.y + rhs, z: self.z + rhs, w: self.w + rhs }
    }

    /// Element-wise difference with a scalar.
    pub fn sub_scalar(self, rhs: i64) -> (r: Self)
        requires
            i64::MIN <= self.x - rhs <= i64::MAX,
            i64::MIN <= self.y - rhs <= i64::MAX,
            i64::MIN <= self.z - rhs <= i64::MAX,
            i64::MIN <= self.w - rhs <= i64::MAX,
        ensures
            r.x == self.x - rhs,
            r.y == self.y - rhs,
            r.z == self.z - rhs,
            r.w == self.w - rhs,
    {
        Self { x: self.x - rhs, y: self.y - rhs, z: self.z - rhs, w: self.w - rhs }
    }

    /// Element-wise quotient by a scalar, rounding toward zero.
    pub fn div_scalar(self, rhs: i64) -> (r: Self)
        requires
            rhs != 0,
            rhs != i64::MIN,
            self.x != i64::MIN && self.y != i64::MIN && self.z != i64::MIN && self.w != i64::MIN,
        ensures
            r.x == div_trunc(self.x as int, rhs as int),
            r.y == div_trunc(self.y as int, rhs as int),
            r.z == div_trunc(self.z as int, rhs as int),
            r.w == div_trunc(self.w as int, rhs as int),
    {
        Self { x: div_to_zero(self.x, rhs), y: div_to_zero(self.y, rhs), z: div_to_zero(self.z, rhs), w: div_to_zero(self.w, rhs) }
    }

    /// Scale every element by `k`.
    pub fn mul_scalar(self, k: i64) -> (r: Self)
        requires
            i64::MIN <= self.x * k <= i64::MAX,
            i64::MIN <= self.y * k <= i64::MAX,
            i64::MIN <= self.z * k <= i64::MAX,
            i64::MIN <= self.w * k <= i64::MAX,
        ensures
            r.x == self.x * k,
            r.y == self.y * k,
            r.z == self.z * k,
            r.w == self.w * k,
    {
        Self { x: self.x * k, y: self.y * k, z: self.z * k, w: self.w * k }
    }

    /// The sum of the squares of the elements.
    pub fn square_magnitude(self) -> (r: i64)
        requires
            -MAG_LIMIT <= self.x <= MAG_LIMIT,
            -MAG_LIMIT <= self.y <= MAG_LIMIT,
            -MAG_LIMIT <= self.z <= MAG_LIMIT,
            -MAG_LIMIT <= self.w <= MAG_LIMIT,
        ensures
            r == self.x * self.x + self.y * self.y + self.z * self.z + self.w * self.w,
            0 <= r,
    {
        proof {
            lemma_square_within(self.x as int);
            lemma_square_within(self.y as int);
            lemma_square_within(self.z as int);
            lemma_square_within(self.w as int);
        }
        self.x * self.x + self.y * self.y + self.z * self.z + self.w * self.w
    }

    /// The Euclidean inner product.
    pub fn dot(self, rhs: Self) -> (r: i64)
        requires
            -MAG_LIMIT <= self.x <= MAG_LIMIT,
            -MAG_LIMIT <= self.y <= MAG_LIMIT,
            -MAG_LIMIT <= self.z <= MAG_LIMIT,
            -MAG_LIMIT <= self.w <= MAG_LIMIT,
            -MAG_LIMIT <= rhs.x <= MAG_LIMIT,
            -MAG_LIMIT <= rhs.y <= MAG_LIMIT,
            -MAG_LIMIT <= rhs.z <= MAG_LIMIT,
            -MAG_LIMIT <= rhs.w <= MAG_LIMIT,
        ensures
            r == self.x * rhs.x + self.y * rhs.y + self.z * rhs.z + self.w * rhs.w,
    {
        proof {
            lemma_product_within(self.x as int, rhs.x as int);
            lemma_product_within(self.y as int, rhs.y as int);
            lemma_product_within(self.z as int, rhs.z as int);
            lemma_product_within(self.w as int, rhs.w as int);
        }
        self.x * rhs.x + self.y * rhs.y + self.z * rhs.z + self.w * rhs.w
    }

    /// Floor of the Euclidean length.
    pub fn magnitude(self) -> (r: i64)
        requires
            -MAG_LIMIT <= self.x <= MAG_LIMIT,
            -MAG_LIMIT <= self.y <= MAG_LIMIT,
            -MAG_LIMIT <= self.z <= MAG_LIMIT,
            -MAG_LIMIT <= self.w <= MAG_LIMIT,
        ensures
            r == sqrt_floor(
                self.x * self.x + self.y * self.y + self.z * self.z + self.w * self.w,
            ),
            r * r <= self.x * self.x + self.y * self.y + self.z * self.z + self.w * self.w
                < (r + 1) * (r + 1),
            0 <= r <= 2 * MAG_LIMIT,
    {
        proof {
            lemma_square_within(self.x as int);
            lemma_square_within(self.y as int);
            lemma_square_within(self.z as int);
            lemma_square_within(self.w as int);
        }
        let s = self.x * self.x + self.y * self.y + self.z * self.z + self.w * self.w;
        let r = isqrt(s);
        proof {
            lemma_root_within(r as int, s as int);
        }
        r
    }

    /// Rescale to Euclidean length close to [`UNIT`]; the zero vector is
    /// returned unchanged.  Every element of the result is within `UNIT`.
    pub fn normalised(self) -> (r: Self)
        requires
            -MAG_LIMIT <= self.x <= MAG_LIMIT,
            -MAG_LIMIT <= self.y <= MAG_LIMIT,
            -MAG_LIMIT <= self.z <= MAG_LIMIT,
            -MAG_LIMIT <= self.w <= MAG_LIMIT,
        ensures
            r@ == vec4_normalised(self@),
            abs_of(r.x as int) <= UNIT,
            abs_of(r.y as int) <= UNIT,
            abs_of(r.z as int) <= UNIT,
            abs_of(r.w as int) <= UNIT,
    {
        if self.x == 0 && self.y == 0 && self.z == 0 && self.w == 0 {
            return self;
        }
        proof {
            lemma_square_within(self.x as int);
            lemma_square_within(self.y as int);
            lemma_square_within(self.z as int);
            lemma_square_within(self.w as int);
        }
        let s = self.x * self.x + self.y * self.y + self.z * self.z + self.w * self.w;
        let m = isqrt(s);
        proof {
            assert(s >= 1) by (nonlinear_arith)
                requires
                    s == self.x * self.x + self.y * self.y + self.z * self.z + self.w * self.w,
                    self.x != 0 || self.y != 0 || self.z != 0 || self.w != 0;
            assert(m >= 1) by (nonlinear_arith)
                requires m >= 0, s >= 1, s < (m + 1) * (m + 1);
            lemma_component_within_root(self.x as int, m as int, s as int);
            lemma_component_within_root(self.y as int, m as int, s as int);
            lemma_component_within_root(self.z as int, m as int, s as int);
            lemma_component_within_root(self.w as int, m as int, s as int);
            lemma_div_trunc_bound(self.x * UNIT, m as int, UNIT as int);
            lemma_div_trunc_bound(self.y * UNIT, m as int, UNIT as int);
            lemma_div_trunc_bound(self.z * UNIT, m as int, UNIT as int);
            lemma_div_trunc_bound(self.w * UNIT, m as int, UNIT as int);
        }
        Self {
            x: div_to_zero(self.x * UNIT, m),
            y: div_to_zero(self.y * UNIT, m),
            z: div_to_zero(self.z * UNIT, m),
            w: div_to_zero(self.w * UNIT, m),
        }
    }
}

/// The square of a value within [`MAG_LIMIT`] is non-negative and fits `i64`.
proof fn lemma_square_within(x: int)
    requires
        -MAG_LIMIT <= x <= MAG_LIMIT,
    ensures
        0 <= x * x <= MAG_LIMIT * MAG_LIMIT,
{
    assert(0 <= x * x <= MAG_LIMIT * MAG_LIMIT) by (nonlinear_arith)
        requires -MAG_LIMIT <= x <= MAG_LIMIT;
}

/// A product of values within [`MAG_LIMIT`] fits `i64`.
proof fn lemma_product_within(x: int, y: int)
    requires
        -MAG_LIMIT <= x <= MAG_LIMIT,
        -MAG_LIMIT <= y <= MAG_LIMIT,
    ensures
        -(MAG_LIMIT * MAG_LIMIT) <= x * y <= MAG_LIMIT * MAG_LIMIT,
{
    assert(-(MAG_LIMIT * MAG_LIMIT) <= x * y <= MAG_LIMIT * MAG_LIMIT) by (nonlinear_arith)
        requires -MAG_LIMIT <= x <= MAG_LIMIT, -MAG_LIMIT <= y <= MAG_LIMIT;
}

/// A floor root of a sum of at most four squares of values within
/// [`MAG_LIMIT`] is within `2 * MAG_LIMIT`.
proof fn lemma_root_within(r: int, s: int)
    requires
        0 <= r,
        r * r <= s,
        s <= 4 * (MAG_LIMIT * MAG_LIMIT),
    ensures
        r <= 2 * MAG_LIMIT,
{
    assert(r <= 2 * MAG_LIMIT) by (nonlinear_arith)
        requires 0 <= r, r * r <= s, s <= 4 * (MAG_LIMIT * MAG_LIMIT);
}

} // verus!
