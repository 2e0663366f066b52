use rotor4::rotor::Rotor;
use rotor4::sdf::{cut_plane, normal, project_sphere, project_spheres, torus,
    wormholes_normal, wormholes_sdf, Sphere, Wormhole};
use rotor4::vectors::{Vector2, Vector3, Vector4};
use rotor4::UNIT;

fn v4(x: i64, y: i64, z: i64, w: i64) -> Vector4<i64> {
    Vector4 { x, y, z, w }
}

#[test]
fn projection_to_flat_plane() {
    // zero wormholes, plane height one unit, join at zero; a sphere four
    // units up is two units away from the surface at w = h
    let wormholes: Vec<Wormhole> = vec![];
    let h = UNIT;
    let d = wormholes_sdf(&wormholes, v4(0, 0, 0, 3 * UNIT), h, 0);
    assert_eq!(d, 2 * UNIT);

    let mut spheres = vec![Sphere { position: v4(0, 0, 0, 3 * UNIT), rotation: Rotor::identity() }];
    project_spheres(&wormholes, h, 0, 4, &mut spheres);
    assert_eq!(spheres[0].position, v4(0, 0, 0, UNIT));
    // a second step leaves the sphere in place: the field is zero there
    let before = spheres[0];
    project_spheres(&wormholes, h, 0, 4, &mut spheres);
    assert_eq!(spheres[0].position, before.position);
}

#[test]
fn projection_normal_is_up_on_flat_plane() {
    let wormholes: Vec<Wormhole> = vec![];
    let n = wormholes_normal(&wormholes, v4(0, 0, 0, 3 * UNIT), UNIT, 0, 4);
    assert_eq!(n, v4(0, 0, 0, UNIT));
}

#[test]
fn generic_normal_matches_scene_normal() {
    // the field-agnostic gradient routine applied to the scene field gives
    // the same normal as the specialised one
    let wormholes: Vec<Wormhole> = vec![];
    let p = v4(0, 0, 0, 3 * UNIT);
    let n = normal(|q: rotor4::vectors::Vector4<i64>| wormholes_sdf(&wormholes, q, UNIT, 0), p, 4);
    assert_eq!(n, wormholes_normal(&wormholes, p, UNIT, 0, 4));
}

#[test]
fn projection_near_wormhole() {
    // one wormhole at the origin, throat three units, corner one unit
    let wormholes = vec![Wormhole {
        position: Vector3 { x: 0, y: 0, z: 0 },
        throat_size: 3 * UNIT,
        corner_radius: UNIT,
    }];
    let h = UNIT;
    let j = 8 * UNIT;
    let p = v4(7 * UNIT / 2, 0, 0, 3 * UNIT / 2);
    let d0 = wormholes_sdf(&wormholes, p, h, j);
    assert!(d0 > 0);

    // start from a non-identity orientation: the correction must realign it
    let half = (std::f64::consts::PI / 6.0).cos();
    let c = (half * UNIT as f64).round() as i64;
    let s = ((std::f64::consts::PI / 6.0).sin() * UNIT as f64).round() as i64;
    let start = Rotor::rotate_xz(c, s);
    let mut spheres = vec![Sphere { position: p, rotation: start }];
    project_spheres(&wormholes, h, j, 4, &mut spheres);
    let d1 = wormholes_sdf(&wormholes, spheres[0].position, h, j);
    assert!(d1.abs() < d0.abs());
    // the orientation's up basis follows the gradient
    let n = wormholes_normal(&wormholes, p, h, j, 4);
    let up = spheres[0].rotation.w().normalised();
    let dot = up.dot(n);
    assert!(dot > (UNIT * UNIT) / 2);
}

#[test]
fn gradient_matches_directional_difference() {
    // at a smooth flat-plane point the w difference equals the field change
    let wormholes: Vec<Wormhole> = vec![];
    let h = UNIT;
    let eps = 4;
    let p = v4(0, 0, 0, 3 * UNIT);
    let up = wormholes_sdf(&wormholes, v4(0, 0, 0, 3 * UNIT + eps), h, 0);
    let down = wormholes_sdf(&wormholes, v4(0, 0, 0, 3 * UNIT - eps), h, 0);
    assert_eq!(up - down, 2 * eps);
    let n = wormholes_normal(&wormholes, p, h, 0, eps);
    assert_eq!(n, v4(0, 0, 0, UNIT));
}

#[test]
fn batch_projection_matches_single_steps() {
    let wormholes = vec![Wormhole {
        position: Vector3 { x: 0, y: 0, z: 0 },
        throat_size: 3 * UNIT,
        corner_radius: UNIT,
    }];
    let h = UNIT;
    let j = 8 * UNIT;
    let first = Sphere { position: v4(7 * UNIT / 2, 0, 0, 3 * UNIT / 2), rotation: Rotor::identity() };
    let second = Sphere { position: v4(0, 0, 0, 6 * UNIT), rotation: Rotor::identity() };
    let mut spheres = vec![first, second];
    project_spheres(&wormholes, h, j, 4, &mut spheres);
    assert_eq!(spheres[0], project_sphere(&wormholes, h, j, 4, first));
    assert_eq!(spheres[1], project_sphere(&wormholes, h, j, 4, second));
}

#[test]
fn cut_plane_values() {
    // inside the rounded rectangle the value is negative, far above positive
    assert_eq!(cut_plane(Vector2 { x: -UNIT, y: 3 * UNIT }, UNIT, UNIT), 2 * UNIT);
    assert!(cut_plane(Vector2 { x: -2 * UNIT, y: 0 }, UNIT, UNIT) < 0);
}

#[test]
fn torus_distance() {
    // on the ring itself the distance is minus the tube radius
    assert_eq!(torus(v4(3 * UNIT, 0, 0, 0), 3 * UNIT, UNIT), -UNIT);
    // at the origin the distance is the ring radius minus the tube radius
    assert_eq!(torus(v4(0, 0, 0, 0), 3 * UNIT, UNIT), 2 * UNIT);
}
