//! The signed-distance field of the wormhole scene, its numerical gradient,
//! and the projection step that snaps a sphere onto the zero set while
//! rotating its orientation toward the new surface normal.

use vstd::prelude::*;

use crate::num::{abs_of, div_to_zero, div_trunc, isqrt, lemma_div_trunc_bound, lemma_mul_within,
    lemma_squares_nonneg, sqrt_floor};
use crate::rotor::{rotate_direction, rotor_and_then, rotor_from_to, rotor_in_limit,
    rotor_normalised, Rotor, RotorModel};
use crate::vectors::{vec4_in_limit, vec4_normalised, Vec4Model, Vector2, Vector3, Vector4};
use crate::{SANDWICH_LIMIT, UNIT};

verus! {

/// A wormhole primitive: a 3D position, a throat size and a corner radius.
#[derive(Debug, Clone, Copy, PartialEq, Eq)]
pub struct Wormhole {
    pub position: Vector3<i64>,
    pub throat_size: i64,
    pub corner_radius: i64,
}

/// A sphere bound to the surface: a 4D position and an orientation rotor.
#[derive(Debug, Clone, Copy, PartialEq, Eq)]
pub struct Sphere {
    pub position: Vector4<i64>,
    pub rotation: Rotor,
}

/// Every scene quantity of `w` lies within `lim`.
pub open spec fn wormhole_in_limit(w: Wormhole, lim: int) -> bool {
    -lim <= w.position.x <= lim && -lim <= w.position.y <= lim && -lim <= w.position.z <= lim
        && 0 <= w.throat_size <= lim && 0 <= w.corner_radius <= lim
}

/// Every wormhole of the scene lies within `lim`.
pub open spec fn scene_in_limit(ws: Seq<Wormhole>, lim: int) -> bool {
    forall|i: int| 0 <= i < ws.len() ==> wormhole_in_limit(#[trigger] ws[i], lim)
}

/// The rounded-rectangle section: with `d = (u + smooth, |v| - ph + smooth)`,
/// the value is `|max(d, 0)| + min(max(d.x, d.y), 0) - smooth`.
pub open spec fn cut_plane_at(u: int, v: int, ph: int, smooth: int) -> int {
    let dx = u + smooth;
    let dy = abs_of(v) - ph + smooth;
    let mx = if dx > 0 { dx } else { 0 };
    let my = if dy > 0 { dy } else { 0 };
    let inner = if dx > dy { dx } else { dy };
    sqrt_floor(mx * mx + my * my) + (if inner < 0 { inner } else { 0 }) - smooth
}

/// The distance from `p`'s spatial part to the wormhole's position.
pub open spec fn wormhole_dist(w: Wormhole, p: Vector4<i64>) -> int {
    let dx = p.x - w.position.x;
    let dy = p.y - w.position.y;
    let dz = p.z - w.position.z;
    sqrt_floor(dx * dx + dy * dy + dz * dz)
}

/// The point is inside the influence region of the wormhole.
pub open spec fn near_wormhole(w: Wormhole, p: Vector4<i64>, ph: int) -> bool {
    wormhole_dist(w, p) < w.throat_size + w.corner_radius + ph
}

/// The cut-plane value a single wormhole contributes.
pub open spec fn wormhole_value(w: Wormhole, p: Vector4<i64>, ph: int) -> int {
    cut_plane_at(w.throat_size - wormhole_dist(w, p), p.w as int, ph, w.corner_radius as int)
}

/// Whether any wormhole of the prefix `ws[..n]` is near `p`.
pub open spec fn near_any(ws: Seq<Wormhole>, n: int, p: Vector4<i64>, ph: int) -> bool
    decreases n,
{
    if n <= 0 {
        false
    } else {
        near_any(ws, n - 1, p, ph) || near_wormhole(ws[n - 1], p, ph)
    }
}

/// The minimum wormhole contribution over the prefix `ws[..n]`, starting
/// from `from`.
pub open spec fn scan_min(ws: Seq<Wormhole>, n: int, p: Vector4<i64>, ph: int, from: int) -> int
    decreases n,
{
    if n <= 0 {
        from
    } else {
        let rest = scan_min(ws, n - 1, p, ph, from);
        if near_wormhole(ws[n - 1], p, ph) {
            let v = wormhole_value(ws[n - 1], p, ph);
            if v < rest {
                v
            } else {
                rest
            }
        } else {
            rest
        }
    }
}

/// The scalar field: the nearest wormhole section when the point is in a
/// wormhole's influence, otherwise the flat plane joined at `j`.
pub open spec fn sdf_at(ws: Seq<Wormhole>, p: Vector4<i64>, ph: int, j: int) -> int {
    if near_any(ws, ws.len() as int, p, ph) {
        scan_min(ws, ws.len() as int, p, ph, i64::MAX as int)
    } else {
        cut_plane_at(p.x - j - ph, p.w as int, ph, ph)
    }
}

/// The four-point central difference of the field at `p` with spacing `eps`
/// on each axis, before normalisation.
pub open spec fn sdf_gradient(ws: Seq<Wormhole>, p: Vector4<i64>, ph: int, j: int, eps: int)
    -> Vec4Model {
    Vec4Model {
        x: sdf_at(ws, Vector4 { x: (p.x + eps) as i64, y: p.y, z: p.z, w: p.w }, ph, j)
            - sdf_at(ws, Vector4 { x: (p.x - eps) as i64, y: p.y, z: p.z, w: p.w }, ph, j),
        y: sdf_at(ws, Vector4 { x: p.x, y: (p.y + eps) as i64, z: p.z, w: p.w }, ph, j)
            - sdf_at(ws, Vector4 { x: p.x, y: (p.y - eps) as i64, z: p.z, w: p.w }, ph, j),
        z: sdf_at(ws, Vector4 { x: p.x, y: p.y, z: (p.z + eps) as i64, w: p.w }, ph, j)
            - sdf_at(ws, Vector4 { x: p.x, y: p.y, z: (p.z - eps) as i64, w: p.w }, ph, j),
        w: sdf_at(ws, Vector4 { x: p.x, y: p.y, z: p.z, w: (p.w + eps) as i64 }, ph, j)
            - sdf_at(ws, Vector4 { x: p.x, y: p.y, z: p.z, w: (p.w - eps) as i64 }, ph, j),
    }
}

/// The position after one projection step: unchanged on the zero set,
/// otherwise moved against the unit normal by the field value, rounding
/// toward zero on the fixed-point grid.
pub open spec fn projected_position(ws: Seq<Wormhole>, ph: int, j: int, eps: int, s: Sphere)
    -> Vec4Model {
    let d = sdf_at(ws, s.position, ph, j);
    if d == 0 {
        s.position@
    } else {
        let n = vec4_normalised(sdf_gradient(ws, s.position, ph, j, eps));
        Vec4Model {
            x: s.position@.x - div_trunc(n.x * d, UNIT as int),
            y: s.position@.y - div_trunc(n.y * d, UNIT as int),
            z: s.position@.z - div_trunc(n.z * d, UNIT as int),
            w: s.position@.w - div_trunc(n.w * d, UNIT as int),
        }
    }
}

/// The orientation after one projection step: unchanged on the zero set or
/// under a vanished gradient, otherwise composed with the normalised minimal
/// rotor carrying the old up direction onto the new unit normal, and
/// renormalised.
pub open spec fn projected_rotation(ws: Seq<Wormhole>, ph: int, j: int, eps: int, s: Sphere)
    -> RotorModel {
    let d = sdf_at(ws, s.position, ph, j);
    let n = vec4_normalised(sdf_gradient(ws, s.position, ph, j, eps));
    if d == 0 || n == (Vec4Model { x: 0, y: 0, z: 0, w: 0 }) {
        s.rotation@
    } else {
        rotor_normalised(rotor_and_then(s.rotation@, rotor_normalised(rotor_from_to(
            vec4_normalised(rotate_direction(s.rotation@, (Vec4Model { x: 0, y: 0, z: 0, w: 1 }))),
            n,
        ))))
    }
}

/// The rounded-rectangle section, executable.
pub fn cut_plane(p: Vector2<i64>, plane_height: i64, smooth: i64) -> (r: i64)
    requires
        -4 * SANDWICH_LIMIT <= p.x <= 4 * SANDWICH_LIMIT,
        -4 * SANDWICH_LIMIT <= p.y <= 4 * SANDWICH_LIMIT,
        0 <= plane_height <= SANDWICH_LIMIT,
        0 <= smooth <= SANDWICH_LIMIT,
    ensures
        r == cut_plane_at(p.x as int, p.y as int, plane_height as int, smooth as int),
        abs_of(r as int) <= 16 * SANDWICH_LIMIT,
{
    let dx = p.x + smooth;
    let vy = if p.y < 0 { -p.y } else { p.y };
    let dy = vy - plane_height + smooth;
    let mx = if dx > 0 { dx } else { 0 };
    let my = if dy > 0 { dy } else { 0 };
    let inner = if dx > dy { dx } else { dy };
    let inner0 = if inner < 0 { inner } else { 0 };
    proof {
        assert(0 <= mx <= 0x140000);
        assert(0 <= my <= 0x140000);
        assert(0 <= mx * mx && 0 <= my * my && mx * mx + my * my < 0x40000000000)
            by (nonlinear_arith)
            requires 0 <= mx <= 0x140000, 0 <= my <= 0x140000;
    }
    let s = mx * mx + my * my;
    let root = isqrt(s);
    proof {
        assert(root < 0x200000) by (nonlinear_arith)
            requires 0 <= root, root * root <= s, s < 0x40000000000;
    }
    root + inner0 - smooth
}

/// The distance-field torus around the origin: distance of the spatial part
/// to a ring of radius `ring_radius`, paired with the `w` offset.
pub fn torus(p: Vector4<i64>, ring_radius: i64, radius: i64) -> (r: i64)
    requires
        vec4_in_limit(p@, SANDWICH_LIMIT as int),
        0 <= ring_radius <= SANDWICH_LIMIT,
        0 <= radius <= SANDWICH_LIMIT,
    ensures
        r == sqrt_floor({
            let q = sqrt_floor(p.x * p.x + p.y * p.y + p.z * p.z) - ring_radius;
            q * q + p.w * p.w
        }) - radius,
{
    proof {
        lemma_mul_within(0x40000, 0x40000);
        lemma_squares_nonneg();
    }
    let ring = Vector3 { x: p.x, y: p.y, z: p.z }.magnitude();
    proof {
        assert(ring <= 0x80000) by (nonlinear_arith)
            requires
                0 <= ring,
                ring * ring <= p.x * p.x + p.y * p.y + p.z * p.z,
                p.x * p.x + p.y * p.y + p.z * p.z <= 0x3000000000;
    }
    let q = Vector2 { x: ring - ring_radius, y: p.w };
    q.magnitude() - radius
}

/// The scalar field over the wormhole scene, executable.
pub fn wormholes_sdf(wormholes: &Vec<Wormhole>, p: Vector4<i64>, plane_height: i64,
    join_position: i64) -> (r: i64)
    requires
        scene_in_limit(wormholes@, SANDWICH_LIMIT as int),
        vec4_in_limit(p@, SANDWICH_LIMIT as int),
        0 <= plane_height <= SANDWICH_LIMIT,
        -SANDWICH_LIMIT <= join_position <= SANDWICH_LIMIT,
    ensures
        r == sdf_at(wormholes@, p, plane_height as int, join_position as int),
        abs_of(r as int) <= 16 * SANDWICH_LIMIT,
{
    proof {
        lemma_mul_within(0x80000, 0x80000);
        lemma_squares_nonneg();
    }
    let mut distance = i64::MAX;
    let mut in_wormhole = false;
    let mut i: usize = 0;
    while i < wormholes.len()
        invariant
            scene_in_limit(wormholes@, SANDWICH_LIMIT as int),
            vec4_in_limit(p@, SANDWICH_LIMIT as int),
            0 <= plane_height <= SANDWICH_LIMIT,
            0 <= i <= wormholes.len(),
            in_wormhole == near_any(wormholes@, i as int, p, plane_height as int),
            distance == scan_min(wormholes@, i as int, p, plane_height as int, i64::MAX as int),
            !in_wormhole ==> distance == i64::MAX,
            in_wormhole ==> abs_of(distance as int) <= 16 * SANDWICH_LIMIT,
        decreases wormholes.len() - i,
    {
        let w = wormholes[i];
        proof {
            lemma_mul_within(0x80000, 0x80000);
            lemma_squares_nonneg();
        }
        let dx = p.x - w.position.x;
        let dy = p.y - w.position.y;
        let dz = p.z - w.position.z;
        let sq = dx * dx + dy * dy + dz * dz;
        let dist = isqrt(sq);
        proof {
            assert(dist <= 0x100000) by (nonlinear_arith)
                requires 0 <= dist, dist * dist <= sq, sq <= 0xC000000000;
        }
        if dist < w.throat_size + w.corner_radius + plane_height {
            let v = cut_plane(
                Vector2 { x: w.throat_size - dist, y: p.w },
                plane_height,
                w.corner_radius,
            );
            if v < distance {
                distance = v;
            }
            in_wormhole = true;
        }
        i = i + 1;
    }
    if in_wormhole {
        return distance;
    }
    cut_plane(Vector2 { x: p.x - join_position - plane_height, y: p.w }, plane_height,
        plane_height)
}

/// The normalised four-point central difference of an arbitrary scalar
/// field `f` at `p` with spacing `eps`: the gradient routine knows nothing
/// of the wormhole structure.  Whatever values `f` may return at the eight
/// sample points, the result is the normalised tuple of their differences.
pub fn normal<F: Fn(Vector4<i64>) -> i64>(f: F, p: Vector4<i64>, eps: i64) -> (r: Vector4<i64>)
    requires
        0 < eps,
        i64::MIN + eps <= p.x <= i64::MAX - eps,
        i64::MIN + eps <= p.y <= i64::MAX - eps,
        i64::MIN + eps <= p.z <= i64::MAX - eps,
        i64::MIN + eps <= p.w <= i64::MAX - eps,
        call_requires(f, (Vector4 { x: (p.x + eps) as i64, y: p.y, z: p.z, w: p.w },)),
        call_requires(f, (Vector4 { x: (p.x - eps) as i64, y: p.y, z: p.z, w: p.w },)),
        call_requires(f, (Vector4 { x: p.x, y: (p.y + eps) as i64, z: p.z, w: p.w },)),
        call_requires(f, (Vector4 { x: p.x, y: (p.y - eps) as i64, z: p.z, w: p.w },)),
        call_requires(f, (Vector4 { x: p.x, y: p.y, z: (p.z + eps) as i64, w: p.w },)),
        call_requires(f, (Vector4 { x: p.x, y: p.y, z: (p.z - eps) as i64, w: p.w },)),
        call_requires(f, (Vector4 { x: p.x, y: p.y, z: p.z, w: (p.w + eps) as i64 },)),
        call_requires(f, (Vector4 { x: p.x, y: p.y, z: p.z, w: (p.w - eps) as i64 },)),
        forall|q: Vector4<i64>, v: i64| #[trigger] call_ensures(f, (q,), v)
            ==> -0x40_0000 <= v <= 0x40_0000,
    ensures
        exists|xp: i64, xm: i64, yp: i64, ym: i64, zp: i64, zm: i64, wp: i64, wm: i64|
            {
                &&& #[trigger] call_ensures(f,
                    (Vector4 { x: (p.x + eps) as i64, y: p.y, z: p.z, w: p.w },), xp)
                &&& #[trigger] call_ensures(f,
                    (Vector4 { x: (p.x - eps) as i64, y: p.y, z: p.z, w: p.w },), xm)
                &&& #[trigger] call_ensures(f,
                    (Vector4 { x: p.x, y: (p.y + eps) as i64, z: p.z, w: p.w },), yp)
                &&& #[trigger] call_ensures(f,
                    (Vector4 { x: p.x, y: (p.y - eps) as i64, z: p.z, w: p.w },), ym)
                &&& #[trigger] call_ensures(f,
                    (Vector4 { x: p.x, y: p.y, z: (p.z + eps) as i64, w: p.w },), zp)
                &&& #[trigger] call_ensures(f,
                    (Vector4 { x: p.x, y: p.y, z: (p.z - eps) as i64, w: p.w },), zm)
                &&& #[trigger] call_ensures(f,
                    (Vector4 { x: p.x, y: p.y, z: p.z, w: (p.w + eps) as i64 },), wp)
                &&& #[trigger] call_ensures(f,
                    (Vector4 { x: p.x, y: p.y, z: p.z, w: (p.w - eps) as i64 },), wm)
                &&& r@ == vec4_normalised(
                    Vec4Model { x: xp - xm, y: yp - ym, z: zp - zm, w: wp - wm },
                )
            },
        abs_of(r.x as int) <= UNIT,
        abs_of(r.y as int) <= UNIT,
        abs_of(r.z as int) <= UNIT,
        abs_of(r.w as int) <= UNIT,
{
    let xp = f(Vector4 { x: p.x + eps, y: p.y, z: p.z, w: p.w });
    let xm = f(Vector4 { x: p.x - eps, y: p.y, z: p.z, w: p.w });
    let yp = f(Vector4 { x: p.x, y: p.y + eps, z: p.z, w: p.w });
    let ym = f(Vector4 { x: p.x, y: p.y - eps, z: p.z, w: p.w });
    let zp = f(Vector4 { x: p.x, y: p.y, z: p.z + eps, w: p.w });
    let zm = f(Vector4 { x: p.x, y: p.y, z: p.z - eps, w: p.w });
    let wp = f(Vector4 { x: p.x, y: p.y, z: p.z, w: p.w + eps });
    let wm = f(Vector4 { x: p.x, y: p.y, z: p.z, w: p.w - eps });
    let g = Vector4 { x: xp - xm, y: yp - ym, z: zp - zm, w: wp - wm };
    g.normalised()
}

/// The normalised numerical gradient of the wormhole-scene field at `p`.
pub fn wormholes_normal(wormholes: &Vec<Wormhole>, p: Vector4<i64>, plane_height: i64,
    join_position: i64, eps: i64) -> (r: Vector4<i64>)
    requires
        scene_in_limit(wormholes@, SANDWICH_LIMIT as int),
        vec4_in_limit(p@, SANDWICH_LIMIT as int - eps),
        0 < eps <= SANDWICH_LIMIT,
        0 <= plane_height <= SANDWICH_LIMIT,
        -SANDWICH_LIMIT <= join_position <= SANDWICH_LIMIT,
    ensures
        r@ == vec4_normalised(
            sdf_gradient(wormholes@, p, plane_height as int, join_position as int, eps as int),
        ),
        abs_of(r.x as int) <= UNIT,
        abs_of(r.y as int) <= UNIT,
        abs_of(r.z as int) <= UNIT,
        abs_of(r.w as int) <= UNIT,
{
    let xp = wormholes_sdf(wormholes, Vector4 { x: p.x + eps, y: p.y, z: p.z, w: p.w },
        plane_height, join_position);
    let xm = wormholes_sdf(wormholes, Vector4 { x: p.x - eps, y: p.y, z: p.z, w: p.w },
        plane_height, join_position);
    let yp = wormholes_sdf(wormholes, Vector4 { x: p.x, y: p.y + eps, z: p.z, w: p.w },
        plane_height, join_position);
    let ym = wormholes_sdf(wormholes, Vector4 { x: p.x, y: p.y - eps, z: p.z, w: p.w },
        plane_height, join_position);
    let zp = wormholes_sdf(wormholes, Vector4 { x: p.x, y: p.y, z: p.z + eps, w: p.w },
        plane_height, join_position);
    let zm = wormholes_sdf(wormholes, Vector4 { x: p.x, y: p.y, z: p.z - eps, w: p.w },
        plane_height, join_position);
    let wp = wormholes_sdf(wormholes, Vector4 { x: p.x, y: p.y, z: p.z, w: p.w + eps },
        plane_height, join_position);
    let wm = wormholes_sdf(wormholes, Vector4 { x: p.x, y: p.y, z: p.z, w: p.w - eps },
        plane_height, join_position);
    let g = Vector4 { x: xp - xm, y: yp - ym, z: zp - zm, w: wp - wm };
    g.normalised()
}

/// One projection step for one sphere: move the sphere by the field value
/// along the unit normal, then rotate its orientation by the minimal rotor
/// carrying its old up direction onto the new normal.  A sphere already on
/// the surface is returned unchanged, and moves by at most the field value
/// on each axis.  That the field value shrinks across a step is a
/// numerical-analysis property of the field near its smooth zero set; the
/// contract states the exact step, and the tests check the decrease on
/// concrete scenes.
#[verifier::rlimit(100)]
pub fn project_sphere(wormholes: &Vec<Wormhole>, plane_height: i64, join_position: i64,
    eps: i64, sphere: Sphere) -> (r: Sphere)
    requires
        scene_in_limit(wormholes@, SANDWICH_LIMIT as int),
        vec4_in_limit(sphere.position@, SANDWICH_LIMIT as int - eps),
        rotor_in_limit(sphere.rotation@, UNIT as int),
        0 < eps <= SANDWICH_LIMIT,
        0 <= plane_height <= SANDWICH_LIMIT,
        -SANDWICH_LIMIT <= join_position <= SANDWICH_LIMIT,
    ensures
        r.position@ == projected_position(wormholes@, plane_height as int, join_position as int,
            eps as int, sphere),
        r.rotation@ == projected_rotation(wormholes@, plane_height as int, join_position as int,
            eps as int, sphere),
        sdf_at(wormholes@, sphere.position, plane_height as int, join_position as int) == 0
            ==> r == sphere,
        ({
            let d = sdf_at(wormholes@, sphere.position, plane_height as int, join_position as int);
            &&& abs_of(r.position@.x - sphere.position@.x) <= abs_of(d)
            &&& abs_of(r.position@.y - sphere.position@.y) <= abs_of(d)
            &&& abs_of(r.position@.z - sphere.position@.z) <= abs_of(d)
            &&& abs_of(r.position@.w - sphere.position@.w) <= abs_of(d)
        }),
{
    let distance = wormholes_sdf(wormholes, sphere.position, plane_height, join_position);
    if distance == 0 {
        return sphere;
    }
    let n = wormholes_normal(wormholes, sphere.position, plane_height, join_position, eps);
    proof {
        lemma_mul_within(0x1000, 0x400000);
        crate::num::lemma_mul_abs_bound(n@.x, distance as int, UNIT as int);
        crate::num::lemma_mul_abs_bound(n@.y, distance as int, UNIT as int);
        crate::num::lemma_mul_abs_bound(n@.z, distance as int, UNIT as int);
        crate::num::lemma_mul_abs_bound(n@.w, distance as int, UNIT as int);
        lemma_div_trunc_bound(n@.x * distance, UNIT as int, abs_of(distance as int));
        lemma_div_trunc_bound(n@.y * distance, UNIT as int, abs_of(distance as int));
        lemma_div_trunc_bound(n@.z * distance, UNIT as int, abs_of(distance as int));
        lemma_div_trunc_bound(n@.w * distance, UNIT as int, abs_of(distance as int));
    }
    let position = Vector4 {
        x: sphere.position.x - div_to_zero(n.x * distance, UNIT),
        y: sphere.position.y - div_to_zero(n.y * distance, UNIT),
        z: sphere.position.z - div_to_zero(n.z * distance, UNIT),
        w: sphere.position.w - div_to_zero(n.w * distance, UNIT),
    };
    if n.x == 0 && n.y == 0 && n.z == 0 && n.w == 0 {
        return Sphere { position, rotation: sphere.rotation };
    }
    proof {
        lemma_mul_within(0x1000, 0x1000);
    }
    let old_normal = sphere.rotation.w().normalised();
    let correction = Rotor::from_to_vector(old_normal, n).normalised();
    let rotation = sphere.rotation.and_then(correction).normalised();
    Sphere { position, rotation }
}

/// Project every sphere once, in order; each sphere is replaced by its own
/// projection and the spheres do not influence one another.
pub fn project_spheres(wormholes: &Vec<Wormhole>, plane_height: i64, join_position: i64,
    eps: i64, spheres: &mut Vec<Sphere>)
    requires
        scene_in_limit(wormholes@, SANDWICH_LIMIT as int),
        forall|k: int| 0 <= k < old(spheres)@.len() ==> vec4_in_limit(
            (#[trigger] old(spheres)@[k]).position@, SANDWICH_LIMIT as int - eps),
        forall|k: int| 0 <= k < old(spheres)@.len() ==> rotor_in_limit(
            (#[trigger] old(spheres)@[k]).rotation@, UNIT as int),
        0 < eps <= SANDWICH_LIMIT,
        0 <= plane_height <= SANDWICH_LIMIT,
        -SANDWICH_LIMIT <= join_position <= SANDWICH_LIMIT,
    ensures
        final(spheres)@.len() == old(spheres)@.len(),
        forall|k: int| 0 <= k < old(spheres)@.len()
            ==> (#[trigger] final(spheres)@[k]).position@ == projected_position(wormholes@,
                plane_height as int, join_position as int, eps as int, old(spheres)@[k])
                && final(spheres)@[k].rotation@ == projected_rotation(wormholes@,
                plane_height as int, join_position as int, eps as int, old(spheres)@[k]),
        forall|k: int| 0 <= k < old(spheres)@.len() ==> {
            let d = sdf_at(wormholes@, (#[trigger] old(spheres)@[k]).position,
                plane_height as int, join_position as int);
            d == 0 ==> final(spheres)@[k] == old(spheres)@[k]
        },
{
    let mut i: usize = 0;
    while i < spheres.len()
        invariant
            scene_in_limit(wormholes@, SANDWICH_LIMIT as int),
            forall|k: int| 0 <= k < old(spheres)@.len() ==> vec4_in_limit(
                (#[trigger] old(spheres)@[k]).position@, SANDWICH_LIMIT as int - eps),
            forall|k: int| 0 <= k < old(spheres)@.len() ==> rotor_in_limit(
                (#[trigger] old(spheres)@[k]).rotation@, UNIT as int),
            0 < eps <= SANDWICH_LIMIT,
            0 <= plane_height <= SANDWICH_LIMIT,
            -SANDWICH_LIMIT <= join_position <= SANDWICH_LIMIT,
            0 <= i <= spheres@.len(),
            spheres@.len() == old(spheres)@.len(),
            forall|k: int| i <= k < spheres@.len() ==> #[trigger] spheres@[k]
                == old(spheres)@[k],
            forall|k: int| 0 <= k < i
                ==> (#[trigger] spheres@[k]).position@ == projected_position(wormholes@,
                    plane_height as int, join_position as int, eps as int, old(spheres)@[k])
                    && spheres@[k].rotation@ == projected_rotation(wormholes@,
                    plane_height as int, join_position as int, eps as int, old(spheres)@[k]),
            forall|k: int| 0 <= k < i ==> {
                let d = sdf_at(wormholes@, (#[trigger] old(spheres)@[k]).position,
                    plane_height as int, join_position as int);
                d == 0 ==> spheres@[k] == old(spheres)@[k]
            },
        decreases spheres@.len() - i,
    {
        let projected = project_sphere(wormholes, plane_height, join_position, eps, spheres[i]);
        spheres.set(i, projected);
        i = i + 1;
    }
}

} // verus!
