use glam::{vec3, Vec3};
use meshgen::spherical_harmonics::{
    sh_mesh, sh_sphere_mesh, sphere_mesh, RadiusFn, ShBasis, ShConfigError,
};
use sphrs::{Coordinates, HarmonicsSet, RealSH};

fn len3(v: Vec3) -> f32 {
    (v.x * v.x + v.y * v.y + v.z * v.z).sqrt()
}

fn expected_counts(depth: u32) -> (usize, usize) {
    let p = 4usize.pow(depth);
    (6 + 8 * (p - 1), 6 + 8 * (4 * p - 1))
}

#[test]
fn sphere_depth0_scenario() {
    // Constant radius two: the six base directions scaled to the axes.
    let m = sphere_mesh(0, &RadiusFn::Uniform(Vec3::splat(2.0)));
    assert_eq!(m.vertices.len(), 6);
    let expected = [
        vec3(-2.0, 0.0, 0.0),
        vec3(0.0, -2.0, 0.0),
        vec3(2.0, 0.0, 0.0),
        vec3(0.0, 2.0, 0.0),
        vec3(0.0, 0.0, 2.0),
        vec3(0.0, 0.0, -2.0),
    ];
    for (i, want) in expected.iter().enumerate() {
        assert_eq!(m.vertices[i].pos, *want, "vertex {}", i);
    }
    // Six seed references first, then the eight octant triangles.
    let expected_indices: Vec<u32> = vec![
        0, 1, 2, 3, 4, 5,
        0, 1, 4, 1, 2, 4, 2, 3, 4, 3, 0, 4,
        1, 0, 5, 2, 1, 5, 3, 2, 5, 0, 3, 5,
    ];
    assert_eq!(m.indices, expected_indices);
}

#[test]
fn sphere_counts_growth() {
    for depth in 0..4u32 {
        let m = sphere_mesh(depth as usize, &RadiusFn::Unit);
        let (nv, ni) = expected_counts(depth);
        assert_eq!(m.vertices.len(), nv, "vertices at depth {}", depth);
        assert_eq!(m.indices.len(), ni, "indices at depth {}", depth);
        assert_eq!(m.indices.len() % 3, 0);
        for &i in m.indices.iter() {
            assert!((i as usize) < nv);
        }
    }
}

#[test]
fn sphere_unit_radius_positions() {
    for depth in 0..4usize {
        let m = sphere_mesh(depth, &RadiusFn::Unit);
        for v in m.vertices.iter() {
            assert!((len3(v.pos) - 1.0).abs() < 1e-5);
            assert!((len3(v.norm) - 1.0).abs() < 1e-5);
        }
    }
}

#[test]
fn sphere_midpoints_renormalized() {
    // The first three vertices appended at depth one are the midpoints of
    // the first base triangle (-X, -Y, +Z), re-projected onto the sphere.
    let m = sphere_mesh(1, &RadiusFn::Unit);
    let p0 = vec3(-1.0, 0.0, 0.0);
    let p1 = vec3(0.0, -1.0, 0.0);
    let p4 = vec3(0.0, 0.0, 1.0);
    assert_eq!(m.vertices[6].pos, (p0 + p1).normalize());
    assert_eq!(m.vertices[7].pos, (p1 + p4).normalize());
    assert_eq!(m.vertices[8].pos, (p4 + p0).normalize());
    // Midpoints serve as their own normals.
    assert_eq!(m.vertices[6].norm, m.vertices[6].pos);
}

#[test]
fn sphere_duplicate_midpoints_kept() {
    // Triangles (0,1,4) and (1,0,5) share the edge 0-1; each appends its own
    // coincident midpoint vertex, and no welding pass removes it.
    let m = sphere_mesh(1, &RadiusFn::Unit);
    let mid = (vec3(-1.0, 0.0, 0.0) + vec3(0.0, -1.0, 0.0)).normalize();
    let copies = m.vertices.iter().filter(|v| v.pos == mid).count();
    assert!(copies >= 2, "expected duplicate midpoints, found {}", copies);
}

#[test]
fn radius_modulation_matches_function() {
    // Scaled positions relate to the pre-scaling unit directions exactly by
    // the radius function's value there.
    let unit = sphere_mesh(2, &RadiusFn::Unit);
    let scaled = sphere_mesh(2, &RadiusFn::Uniform(Vec3::splat(1.5)));
    assert_eq!(unit.vertices.len(), scaled.vertices.len());
    for (u, s) in unit.vertices.iter().zip(scaled.vertices.iter()) {
        let ratio = len3(s.pos) / len3(u.pos);
        assert!((ratio - 1.5).abs() < 1e-5);
        // Normals stay the pre-displacement unit directions.
        assert_eq!(s.norm, u.norm);
    }
}

fn sh_radius_reference(degree: usize, coeffs: &[f32], p: Vec3) -> f32 {
    let sh = HarmonicsSet::new(degree, RealSH::Spherical);
    let pt = Coordinates::cartesian(p.x, p.y, p.z);
    let r: f32 = sh
        .eval_with_coefficients(&pt, coeffs)
        .into_iter()
        .sum();
    r.abs()
}

#[test]
fn sh_mesh_matches_reference_evaluation() {
    let unit = sphere_mesh(1, &RadiusFn::Unit);
    let m = sh_mesh(1);
    assert_eq!(unit.vertices.len(), m.vertices.len());
    for (u, s) in unit.vertices.iter().zip(m.vertices.iter()) {
        let r = sh_radius_reference(1, &[0.0, 0.0, 0.0, 1.0], u.pos);
        assert_eq!(s.pos, u.pos * r);
        assert_eq!(s.norm, u.norm);
    }
}

#[test]
fn sh_deterministic() {
    let a = sh_mesh(2);
    let b = sh_mesh(2);
    assert_eq!(a.vertices.len(), b.vertices.len());
    for (x, y) in a.vertices.iter().zip(b.vertices.iter()) {
        assert_eq!(x.pos, y.pos);
        assert_eq!(x.norm, y.norm);
    }
    assert_eq!(a.indices, b.indices);
}

#[test]
fn sh_degree0_symmetric_under_negation() {
    // With only the constant basis function active the radius is the same
    // at a direction and at its negation: the antipodal axis vertices end
    // up at equal distances.
    let basis = match ShBasis::new(0, vec![Vec3::splat(0.7)]) {
        Ok(b) => b,
        Err(_) => panic!("one coefficient fits degree zero"),
    };
    let m = sphere_mesh(0, &RadiusFn::Sh(basis));
    // Slots 0 and 2 hold -X and +X; 1 and 3 hold -Y and +Y; 4 and 5 the poles.
    for (i, j) in [(0usize, 2usize), (1, 3), (4, 5)] {
        let ri = len3(m.vertices[i].pos);
        let rj = len3(m.vertices[j].pos);
        assert!((ri - rj).abs() < 1e-6);
    }
    // And the radius is |0.7 * Y00|, positive.
    let want = sh_radius_reference(0, &[0.7], vec3(1.0, 0.0, 0.0));
    assert!((len3(m.vertices[0].pos) - want).abs() < 1e-6);
}

#[test]
fn sh_negative_sum_radius_is_absolute() {
    // A negative weight drives the raw weighted sum negative everywhere;
    // the radius is its absolute value.
    let basis = match ShBasis::new(0, vec![Vec3::splat(-2.0)]) {
        Ok(b) => b,
        Err(_) => panic!("one coefficient fits degree zero"),
    };
    let m = sphere_mesh(0, &RadiusFn::Sh(basis));
    let want = sh_radius_reference(0, &[-2.0], vec3(0.0, 0.0, 1.0));
    assert!(want > 0.0);
    for v in m.vertices.iter() {
        assert!((len3(v.pos) - want).abs() < 1e-6);
    }
}

#[test]
fn subdiv_rec_on_one_triangle() {
    let mut m = meshgen::mesh::Mesh::new();
    m.add_vtx(vec3(1.0, 0.0, 0.0), vec3(1.0, 0.0, 0.0));
    m.add_vtx(vec3(0.0, 1.0, 0.0), vec3(0.0, 1.0, 0.0));
    m.add_vtx(vec3(0.0, 0.0, 1.0), vec3(0.0, 0.0, 1.0));
    meshgen::spherical_harmonics::subdiv_rec(&mut m, 0, 1, 2, 1);
    // Three midpoints appended, then four leaf triangles referenced.
    assert_eq!(m.vertices.len(), 6);
    assert_eq!(m.indices.len(), 3 + 3 + 12);
    assert_eq!(m.vertices[3].pos, (vec3(1.0, 0.0, 0.0) + vec3(0.0, 1.0, 0.0)).normalize());
    let tail: Vec<u32> = m.indices[6..].to_vec();
    assert_eq!(tail, vec![0, 3, 5, 3, 1, 4, 4, 2, 5, 3, 4, 5]);
}

#[test]
fn sh_basis_rejects_wrong_coefficient_count() {
    assert!(ShBasis::new(1, vec![Vec3::splat(1.0); 3]).is_err());
    assert!(ShBasis::new(1, vec![Vec3::splat(1.0); 4]).is_ok());
    assert!(ShBasis::new(2, vec![Vec3::splat(1.0); 9]).is_ok());
    assert!(ShBasis::new(2, vec![Vec3::splat(1.0); 10]).is_err());
    assert!(ShBasis::new(0, vec![]).is_err());
}

#[test]
fn sh_degree_bound_enforced() {
    // The evaluator's normalization arithmetic takes u64 factorials of up to
    // twice the degree; degree eleven would overflow them, so it is rejected
    // up front even with a matching coefficient count.
    assert!(matches!(
        ShBasis::new(11, vec![Vec3::splat(1.0); 144]),
        Err(ShConfigError::Degree)
    ));
    assert!(matches!(
        ShBasis::new(1, vec![Vec3::splat(1.0); 3]),
        Err(ShConfigError::CoeffCount)
    ));
    assert!(sh_sphere_mesh(0, 11, vec![Vec3::splat(1.0); 144]).is_err());
    // The highest supported degree both constructs and evaluates.
    assert!(ShBasis::new(10, vec![Vec3::splat(1.0); 121]).is_ok());
    let m = match sh_sphere_mesh(0, 10, vec![Vec3::splat(0.5); 121]) {
        Ok(m) => m,
        Err(_) => panic!("121 coefficients fit degree ten"),
    };
    assert_eq!(m.vertices.len(), 6);
    for v in m.vertices.iter() {
        assert!(len3(v.pos).is_finite());
    }
}

#[test]
fn sh_sphere_mesh_checks_configuration_first() {
    assert!(sh_sphere_mesh(1, 1, vec![Vec3::splat(1.0); 5]).is_err());
    let m = match sh_sphere_mesh(1, 1, vec![
        Vec3::splat(0.0),
        Vec3::splat(0.0),
        Vec3::splat(0.0),
        Vec3::splat(1.0),
    ]) {
        Ok(m) => m,
        Err(_) => panic!("four coefficients fit degree one"),
    };
    // The same configuration as `sh_mesh`: identical output.
    let fixed = sh_mesh(1);
    assert_eq!(m.indices, fixed.indices);
    for (a, b) in m.vertices.iter().zip(fixed.vertices.iter()) {
        assert_eq!(a.pos, b.pos);
        assert_eq!(a.norm, b.norm);
    }
}
