use vstd::prelude::*;

use crate::geom::{
    vec3_of_ints, vec_sum, vec_prod, unit_of, vec_abs_of, vec3i, vec_add, vec_mul, vec_normalize,
    vec_abs,
};
use crate::mesh::{Mesh, Vertex};

verus! {

/// Number of leaf triangles one base triangle yields after `d` levels of
/// refinement: each level splits every triangle into four.
pub open spec fn pow4(d: nat) -> nat
    decreases d,
{
    if d == 0 {
        1
    } else {
        4 * pow4((d - 1) as nat)
    }
}

/// The mesh `(vertices, indices)` after one call of `subdiv_rec` on a mesh
/// holding `vs` and `inds`. At depth zero the call only references the three
/// corners, appending one leaf triangle. Otherwise it appends the three edge
/// midpoints, re-projected onto the unit sphere and serving as their own
/// normals (each append also references the new vertex once), and recurses on
/// the four sub-triangles in the fixed corner order that keeps the parent's
/// winding.
pub open spec fn subdiv_model(
    vs: Seq<Vertex>,
    inds: Seq<u32>,
    a: u32,
    b: u32,
    c: u32,
    depth: nat,
) -> (Seq<Vertex>, Seq<u32>)
    decreases depth,
{
    if depth == 0 {
        (vs, inds.push(a).push(b).push(c))
    } else {
        let ab = unit_of(vec_sum(vs[a as int].pos, vs[b as int].pos));
        let ab_i = vs.len() as u32;
        let vs1 = vs.push(Vertex { pos: ab, norm: ab });
        let bc = unit_of(vec_sum(vs1[b as int].pos, vs1[c as int].pos));
        let bc_i = vs1.len() as u32;
        let vs2 = vs1.push(Vertex { pos: bc, norm: bc });
        let ca = unit_of(vec_sum(vs2[c as int].pos, vs2[a as int].pos));
        let ca_i = vs2.len() as u32;
        let vs3 = vs2.push(Vertex { pos: ca, norm: ca });
        let in3 = inds.push(ab_i).push(bc_i).push(ca_i);
        let r1 = subdiv_model(vs3, in3, a, ab_i, ca_i, (depth - 1) as nat);
        let r2 = subdiv_model(r1.0, r1.1, ab_i, b, bc_i, (depth - 1) as nat);
        let r3 = subdiv_model(r2.0, r2.1, bc_i, c, ca_i, (depth - 1) as nat);
        subdiv_model(r3.0, r3.1, ab_i, bc_i, ca_i, (depth - 1) as nat)
    }
}

/// One subdivision call grows the vertex list by `pow4(depth) - 1` entries
/// and the index buffer by `4 * pow4(depth) - 1` entries.
pub proof fn lemma_subdiv_model_len(
    vs: Seq<Vertex>,
    inds: Seq<u32>,
    a: u32,
    b: u32,
    c: u32,
    depth: nat,
)
    ensures
        subdiv_model(vs, inds, a, b, c, depth).0.len() == vs.len() + pow4(depth) - 1,
        subdiv_model(vs, inds, a, b, c, depth).1.len() == inds.len() + 4 * pow4(depth) - 1,
    decreases depth,
{
    if depth != 0 {
        let ab = unit_of(vec_sum(vs[a as int].pos, vs[b as int].pos));
        let ab_i = vs.len() as u32;
        let vs1 = vs.push(Vertex { pos: ab, norm: ab });
        let bc = unit_of(vec_sum(vs1[b as int].pos, vs1[c as int].pos));
        let bc_i = vs1.len() as u32;
        let vs2 = vs1.push(Vertex { pos: bc, norm: bc });
        let ca = unit_of(vec_sum(vs2[c as int].pos, vs2[a as int].pos));
        let ca_i = vs2.len() as u32;
        let vs3 = vs2.push(Vertex { pos: ca, norm: ca });
        let in3 = inds.push(ab_i).push(bc_i).push(ca_i);
        let r1 = subdiv_model(vs3, in3, a, ab_i, ca_i, (depth - 1) as nat);
        let r2 = subdiv_model(r1.0, r1.1, ab_i, b, bc_i, (depth - 1) as nat);
        let r3 = subdiv_model(r2.0, r2.1, bc_i, c, ca_i, (depth - 1) as nat);
        lemma_subdiv_model_len(vs3, in3, a, ab_i, ca_i, (depth - 1) as nat);
        lemma_subdiv_model_len(r1.0, r1.1, ab_i, b, bc_i, (depth - 1) as nat);
        lemma_subdiv_model_len(r2.0, r2.1, bc_i, c, ca_i, (depth - 1) as nat);
        lemma_subdiv_model_len(r3.0, r3.1, ab_i, bc_i, ca_i, (depth - 1) as nat);
    }
}

/// Subdivision keeps the mesh invariant: if the three corner indices and
/// every existing index-buffer entry refer to existing vertex slots, so does
/// every entry afterwards.
pub proof fn lemma_subdiv_model_wf(
    vs: Seq<Vertex>,
    inds: Seq<u32>,
    a: u32,
    b: u32,
    c: u32,
    depth: nat,
)
    requires
        (a as int) < vs.len(),
        (b as int) < vs.len(),
        (c as int) < vs.len(),
        forall|i: int| 0 <= i < inds.len() ==> (inds[i] as int) < vs.len(),
    ensures
        subdiv_model(vs, inds, a, b, c, depth).0.len() >= vs.len(),
        forall|i: int|
            0 <= i < subdiv_model(vs, inds, a, b, c, depth).1.len() ==> (subdiv_model(
                vs,
                inds,
                a,
                b,
                c,
                depth,
            ).1[i] as int) < subdiv_model(vs, inds, a, b, c, depth).0.len(),
    decreases depth,
{
    lemma_subdiv_model_len(vs, inds, a, b, c, depth);
    if depth != 0 {
        let ab = unit_of(vec_sum(vs[a as int].pos, vs[b as int].pos));
        let ab_i = vs.len() as u32;
        let vs1 = vs.push(Vertex { pos: ab, norm: ab });
        let bc = unit_of(vec_sum(vs1[b as int].pos, vs1[c as int].pos));
        let bc_i = vs1.len() as u32;
        let vs2 = vs1.push(Vertex { pos: bc, norm: bc });
        let ca = unit_of(vec_sum(vs2[c as int].pos, vs2[a as int].pos));
        let ca_i = vs2.len() as u32;
        let vs3 = vs2.push(Vertex { pos: ca, norm: ca });
        let in3 = inds.push(ab_i).push(bc_i).push(ca_i);
        let r1 = subdiv_model(vs3, in3, a, ab_i, ca_i, (depth - 1) as nat);
        let r2 = subdiv_model(r1.0, r1.1, ab_i, b, bc_i, (depth - 1) as nat);
        let r3 = subdiv_model(r2.0, r2.1, bc_i, c, ca_i, (depth - 1) as nat);
        lemma_subdiv_model_wf(vs3, in3, a, ab_i, ca_i, (depth - 1) as nat);
        lemma_subdiv_model_len(vs3, in3, a, ab_i, ca_i, (depth - 1) as nat);
        lemma_subdiv_model_wf(r1.0, r1.1, ab_i, b, bc_i, (depth - 1) as nat);
        lemma_subdiv_model_len(r1.0, r1.1, ab_i, b, bc_i, (depth - 1) as nat);
        lemma_subdiv_model_wf(r2.0, r2.1, bc_i, c, ca_i, (depth - 1) as nat);
        lemma_subdiv_model_len(r2.0, r2.1, bc_i, c, ca_i, (depth - 1) as nat);
        lemma_subdiv_model_wf(r3.0, r3.1, ab_i, bc_i, ca_i, (depth - 1) as nat);
    }
}

/// Refinement never shrinks: there is at least one leaf triangle.
pub proof fn lemma_pow4_pos(d: nat)
    ensures
        pow4(d) >= 1,
    decreases d,
{
    if d != 0 {
        lemma_pow4_pos((d - 1) as nat);
    }
}

/// Recursively subdivides the triangle with corner indices `a_idx`, `b_idx`,
/// `c_idx` down to `depth` levels, exactly as `subdiv_model` describes.
/// Adjacent triangles sharing an edge each append their own midpoint vertex:
/// coincident duplicates are kept, never welded.
pub fn subdiv_rec(m: &mut Mesh, a_idx: u32, b_idx: u32, c_idx: u32, depth: usize)
    requires
        (a_idx as int) < old(m).vertices@.len(),
        (b_idx as int) < old(m).vertices@.len(),
        (c_idx as int) < old(m).vertices@.len(),
        old(m).vertices@.len() + pow4(depth as nat) - 1 <= u32::MAX,
    ensures
        final(m).vertices@ == subdiv_model(
            old(m).vertices@,
            old(m).indices@,
            a_idx,
            b_idx,
            c_idx,
            depth as nat,
        ).0,
        final(m).indices@ == subdiv_model(
            old(m).vertices@,
            old(m).indices@,
            a_idx,
            b_idx,
            c_idx,
            depth as nat,
        ).1,
    decreases depth,
{
    if depth == 0 {
        m.ref_vtx(a_idx);
        m.ref_vtx(b_idx);
        m.ref_vtx(c_idx);
        return ;
    }
    let ghost vs = m.vertices@;
    let ghost inds = m.indices@;
    proof {
        lemma_pow4_pos((depth - 1) as nat);
    }
    let pa = m.get(a_idx).pos;
    let pb = m.get(b_idx).pos;
    let pc = m.get(c_idx).pos;

    let ab = vec_normalize(vec_add(pa, pb));
    let ab_idx = m.add_vtx(ab, ab);

    let bc = vec_normalize(vec_add(pb, pc));
    let bc_idx = m.add_vtx(bc, bc);

    let ca = vec_normalize(vec_add(pc, pa));
    let ca_idx = m.add_vtx(ca, ca);

    proof {
        lemma_subdiv_model_len(m.vertices@, m.indices@, a_idx, ab_idx, ca_idx,
            (depth - 1) as nat);
    }
    subdiv_rec(m, a_idx, ab_idx, ca_idx, depth - 1);
    proof {
        lemma_subdiv_model_len(m.vertices@, m.indices@, ab_idx, b_idx, bc_idx,
            (depth - 1) as nat);
    }
    subdiv_rec(m, ab_idx, b_idx, bc_idx, depth - 1);
    proof {
        lemma_subdiv_model_len(m.vertices@, m.indices@, bc_idx, c_idx, ca_idx,
            (depth - 1) as nat);
    }
    subdiv_rec(m, bc_idx, c_idx, ca_idx, depth - 1);
    subdiv_rec(m, ab_idx, bc_idx, ca_idx, depth - 1);
}

/// Number of spherical-harmonics basis functions for degrees `0..=degree`:
/// `2*l + 1` functions per degree `l`, in total `(degree + 1)^2`.
pub open spec fn sh_count(degree: int) -> int {
    (degree + 1) * (degree + 1)
}

/// The highest spherical-harmonics degree the radius evaluator accepts. The
/// evaluator's normalization factor takes `u64` factorials of up to twice the
/// degree, and 21! already exceeds `u64::MAX`, so degrees past ten would
/// overflow that arithmetic; the radius function is meant for a fixed small
/// degree anyway.
pub const MAX_SH_DEGREE: u32 = 10;

/// The requested basis set cannot be built: wrong coefficient count, or a
/// degree beyond what the evaluator supports.
#[derive(Clone, Copy, Debug, PartialEq, Eq, Structural)]
pub enum ShConfigError {
    /// The coefficient count did not match the basis-function count implied
    /// by the requested degree.
    CoeffCount,
    /// The degree exceeds `MAX_SH_DEGREE`.
    Degree,
}

/// A real spherical-harmonics basis set of a fixed degree with one weight per
/// basis function. A scalar weight is carried as a splat vector: all three
/// lanes hold the coefficient, and only the first lane is read. Well-formed
/// (`wf`) when the degree is supported and the weight count matches the
/// basis-function count; `new` checks both fail-fast, before any mesh work.
pub struct ShBasis {
    pub degree: u32,
    pub coeffs: Vec<glam::Vec3>,
}

impl ShBasis {
    /// The invariant tying the weight count to the degree, and the degree to
    /// what the evaluator supports.
    pub open spec fn wf(self) -> bool {
        self.degree <= MAX_SH_DEGREE && self.coeffs@.len() == sh_count(self.degree as int)
    }

    /// Builds the basis set, rejecting a degree past `MAX_SH_DEGREE` and a
    /// coefficient sequence whose length does not equal `(degree + 1)^2` --
    /// never truncating or padding it.
    pub fn new(degree: u32, coeffs: Vec<glam::Vec3>) -> (r: Result<ShBasis, ShConfigError>)
        ensures
            r is Ok <==> degree <= MAX_SH_DEGREE && coeffs@.len() == sh_count(degree as int),
            r matches Ok(b) ==> b.degree == degree && b.coeffs@ == coeffs@ && b.wf(),
            r == Result::<ShBasis, ShConfigError>::Err(ShConfigError::Degree) <==> degree
                > MAX_SH_DEGREE,
            r == Result::<ShBasis, ShConfigError>::Err(ShConfigError::CoeffCount) <==> degree
                <= MAX_SH_DEGREE && coeffs@.len() != sh_count(degree as int),
    {
        if degree > MAX_SH_DEGREE {
            return Err(ShConfigError::Degree);
        }
        proof {
            assert((degree as u64 + 1) * (degree as u64 + 1) <= 121) by (nonlinear_arith)
                requires
                    degree as u64 <= 10,
            ;
        }
        let want: u64 = (degree as u64 + 1) * (degree as u64 + 1);
        if coeffs.len() as u64 == want {
            Ok(ShBasis { degree, coeffs })
        } else {
            Err(ShConfigError::CoeffCount)
        }
    }
}

/// The per-basis-function products `coefficient * Y_(l,m)(direction)`, in the
/// fixed `(l, m)` order, each product a splat vector of the scalar. A pure
/// function of the degree, the coefficient scalars and the direction alone.
pub uninterp spec fn sh_terms_of(degree: int, coeffs: Seq<glam::Vec3>, p: glam::Vec3) -> Seq<
    glam::Vec3,
>;

/// Relies on sphrs: `HarmonicsSet::new(degree, RealSH::Spherical)` holds the
/// real spherical-harmonics basis functions for degrees `0..=degree`, and
/// `eval_with_coefficients`, at `Coordinates::cartesian(p.x, p.y, p.z)`,
/// returns one `coefficient * basis value` product per basis function, in the
/// crate's fixed `(l, m)` order -- a deterministic function of the arguments.
/// It asserts that the coefficient count equals the set's function count, and
/// its normalization factor computes `u64` factorials of up to twice the
/// degree, which overflow past degree ten; `requires` demands the exact count
/// and leaves the overflowing degrees out. Scalars cross this boundary as
/// splat vectors: the wrapper reads each weight's first lane and splats each
/// product.
#[verifier::external_body]
fn sh_terms(degree: u32, coeffs: &Vec<glam::Vec3>, p: &glam::Vec3) -> (r: Vec<glam::Vec3>)
    requires
        degree <= MAX_SH_DEGREE,
        coeffs@.len() == sh_count(degree as int),
    ensures
        r@ == sh_terms_of(degree as int, coeffs@, *p),
        r@.len() == coeffs@.len(),
{
    let sh = sphrs::HarmonicsSet::new(degree as usize, sphrs::RealSH::Spherical);
    let flat: Vec<_> = coeffs.iter().map(|c| c.x).collect();
    let pt = sphrs::Coordinates::cartesian(p.x, p.y, p.z);
    let vals = sh.eval_with_coefficients(&pt, flat.as_slice());
    vals.into_iter().map(glam::Vec3::splat).collect()
}

/// Left fold of the weighted basis values, in basis order, starting from the
/// zero vector: the order in which the radius sum is accumulated.
pub open spec fn term_total(terms: Seq<glam::Vec3>) -> glam::Vec3
    decreases terms.len(),
{
    if terms.len() == 0 {
        vec3_of_ints(0, 0, 0)
    } else {
        vec_sum(term_total(terms.drop_last()), terms.last())
    }
}

/// The radius strategy applied to every vertex after subdivision: a pure
/// mapping from a pre-scaling unit direction to the splat scale factor that
/// multiplies the position.
pub enum RadiusFn {
    /// Constant radius one: positions keep their unit length.
    Unit,
    /// Constant scale: every position is multiplied componentwise by this
    /// vector; a splat vector is a constant radius.
    Uniform(glam::Vec3),
    /// Spherical harmonics: the absolute value of the weighted basis sum at
    /// the direction, as a splat vector.
    Sh(ShBasis),
}

impl RadiusFn {
    pub open spec fn wf(self) -> bool {
        match self {
            RadiusFn::Sh(b) => b.wf(),
            _ => true,
        }
    }
}

/// The scale factor a radius function yields at pre-scaling position `p`.
pub open spec fn radius_scale_of(rf: RadiusFn, p: glam::Vec3) -> glam::Vec3 {
    match rf {
        RadiusFn::Unit => vec3_of_ints(1, 1, 1),
        RadiusFn::Uniform(s) => s,
        RadiusFn::Sh(b) => vec_abs_of(term_total(sh_terms_of(b.degree as int, b.coeffs@, p))),
    }
}

/// Evaluates the radius function at direction `p`. The result is a function
/// of the radius configuration and `p` alone, so two evaluations at the same
/// direction agree. For the spherical-harmonics strategy this forms the
/// weighted sum of the basis values, in basis order, and takes its absolute
/// value, so the radius is non-negative even where the raw sum is negative.
pub fn radius_scale(radius_func: &RadiusFn, p: glam::Vec3) -> (r: glam::Vec3)
    requires
        radius_func.wf(),
    ensures
        r == radius_scale_of(*radius_func, p),
{
    match radius_func {
        RadiusFn::Unit => vec3i(1, 1, 1),
        RadiusFn::Uniform(s) => *s,
        RadiusFn::Sh(b) => {
            let terms = sh_terms(b.degree, &b.coeffs, &p);
            let mut total = vec3i(0, 0, 0);
            let mut i: usize = 0;
            while i < terms.len()
                invariant
                    i <= terms@.len(),
                    terms@ == sh_terms_of(b.degree as int, b.coeffs@, p),
                    total == term_total(terms@.take(i as int)),
                decreases terms@.len() - i,
            {
                proof {
                    assert(terms@.take(i as int + 1).drop_last() =~= terms@.take(i as int));
                    assert(terms@.take(i as int + 1).last() == terms@[i as int]);
                }
                total = vec_add(total, terms[i]);
                i += 1;
            }
            proof {
                assert(terms@.take(terms@.len() as int) =~= terms@);
            }
            vec_abs(total)
        },
    }
}

/// Refinement is monotone in the depth.
pub proof fn lemma_pow4_mono(d1: nat, d2: nat)
    requires
        d1 <= d2,
    ensures
        pow4(d1) <= pow4(d2),
    decreases d2,
{
    if d1 < d2 {
        lemma_pow4_mono(d1, (d2 - 1) as nat);
    }
}

/// The leaf-triangle count at the deepest supported refinement.
pub proof fn lemma_pow4_14()
    ensures
        pow4(14) == 268435456,
{
    assert(pow4(0) == 1);
    assert(pow4(1) == 4);
    assert(pow4(2) == 16);
    assert(pow4(3) == 64);
    assert(pow4(4) == 256);
    assert(pow4(5) == 1024);
    assert(pow4(6) == 4096);
    assert(pow4(7) == 16384);
    assert(pow4(8) == 65536);
    assert(pow4(9) == 262144);
    assert(pow4(10) == 1048576);
    assert(pow4(11) == 4194304);
    assert(pow4(12) == 16777216);
    assert(pow4(13) == 67108864);
    assert(pow4(14) == 268435456);
}

/// A power of four leaves remainder one modulo three; this is what makes
/// every index-buffer length below a multiple of three.
pub proof fn lemma_pow4_mod3(d: nat)
    ensures
        pow4(d) % 3 == 1,
    decreases d,
{
    if d != 0 {
        lemma_pow4_mod3((d - 1) as nat);
        let p = pow4((d - 1) as nat);
        assert((4 * p) % 3 == 1) by (nonlinear_arith)
            requires
                p % 3 == 1,
                p >= 0,
        ;
    }
}

/// Direction vertex `i` of the fixed base polyhedron (an octahedron): the
/// six axis directions, each its own normal, in the fixed seeding order
/// -X, -Y, +X, +Y, +Z, -Z.
pub open spec fn base_vertex(i: int) -> Vertex {
    let d = if i == 0 {
        vec3_of_ints(-1, 0, 0)
    } else if i == 1 {
        vec3_of_ints(0, -1, 0)
    } else if i == 2 {
        vec3_of_ints(1, 0, 0)
    } else if i == 3 {
        vec3_of_ints(0, 1, 0)
    } else if i == 4 {
        vec3_of_ints(0, 0, 1)
    } else {
        vec3_of_ints(0, 0, -1)
    };
    Vertex { pos: d, norm: d }
}

/// The base polyhedron's six direction vertices in seeding order.
pub open spec fn base_vertices() -> Seq<Vertex> {
    Seq::new(6, |i: int| base_vertex(i))
}

/// The mesh before radius modulation: the six seeded base directions (each
/// seeding appends its own index), then each of the eight octant triangles
/// subdivided to `depth` in order -- four around the +Z pole (index 4), four
/// around the -Z pole (index 5), each wound outward.
pub open spec fn unit_sphere_model(depth: nat) -> (Seq<Vertex>, Seq<u32>) {
    let s1 = subdiv_model(base_vertices(), seq![0u32, 1u32, 2u32, 3u32, 4u32, 5u32], 0, 1, 4, depth);
    let s2 = subdiv_model(s1.0, s1.1, 1, 2, 4, depth);
    let s3 = subdiv_model(s2.0, s2.1, 2, 3, 4, depth);
    let s4 = subdiv_model(s3.0, s3.1, 3, 0, 4, depth);
    let s5 = subdiv_model(s4.0, s4.1, 1, 0, 5, depth);
    let s6 = subdiv_model(s5.0, s5.1, 2, 1, 5, depth);
    let s7 = subdiv_model(s6.0, s6.1, 3, 2, 5, depth);
    subdiv_model(s7.0, s7.1, 0, 3, 5, depth)
}

/// The exact buffer sizes of the unit sphere mesh: 6 base vertices plus
/// `pow4(depth) - 1` midpoints per base triangle, and 6 seed indices plus
/// `4 * pow4(depth) - 1` entries per base triangle; the index total is a
/// multiple of three. Every index refers to an existing vertex slot.
pub proof fn lemma_unit_sphere_model_shape(depth: nat)
    ensures
        unit_sphere_model(depth).0.len() == 6 + 8 * (pow4(depth) - 1),
        unit_sphere_model(depth).1.len() == 6 + 8 * (4 * pow4(depth) - 1),
        unit_sphere_model(depth).1.len() % 3 == 0,
        forall|i: int|
            0 <= i < unit_sphere_model(depth).1.len() ==> (unit_sphere_model(depth).1[i] as int)
                < unit_sphere_model(depth).0.len(),
{
    lemma_pow4_pos(depth);
    let v0 = base_vertices();
    let i0 = seq![0u32, 1u32, 2u32, 3u32, 4u32, 5u32];
    assert(forall|i: int| 0 <= i < i0.len() ==> (i0[i] as int) < v0.len());
    let s1 = subdiv_model(v0, i0, 0, 1, 4, depth);
    let s2 = subdiv_model(s1.0, s1.1, 1, 2, 4, depth);
    let s3 = subdiv_model(s2.0, s2.1, 2, 3, 4, depth);
    let s4 = subdiv_model(s3.0, s3.1, 3, 0, 4, depth);
    let s5 = subdiv_model(s4.0, s4.1, 1, 0, 5, depth);
    let s6 = subdiv_model(s5.0, s5.1, 2, 1, 5, depth);
    let s7 = subdiv_model(s6.0, s6.1, 3, 2, 5, depth);
    lemma_subdiv_model_len(v0, i0, 0, 1, 4, depth);
    lemma_subdiv_model_wf(v0, i0, 0, 1, 4, depth);
    lemma_subdiv_model_len(s1.0, s1.1, 1, 2, 4, depth);
    lemma_subdiv_model_wf(s1.0, s1.1, 1, 2, 4, depth);
    lemma_subdiv_model_len(s2.0, s2.1, 2, 3, 4, depth);
    lemma_subdiv_model_wf(s2.0, s2.1, 2, 3, 4, depth);
    lemma_subdiv_model_len(s3.0, s3.1, 3, 0, 4, depth);
    lemma_subdiv_model_wf(s3.0, s3.1, 3, 0, 4, depth);
    lemma_subdiv_model_len(s4.0, s4.1, 1, 0, 5, depth);
    lemma_subdiv_model_wf(s4.0, s4.1, 1, 0, 5, depth);
    lemma_subdiv_model_len(s5.0, s5.1, 2, 1, 5, depth);
    lemma_subdiv_model_wf(s5.0, s5.1, 2, 1, 5, depth);
    lemma_subdiv_model_len(s6.0, s6.1, 3, 2, 5, depth);
    lemma_subdiv_model_wf(s6.0, s6.1, 3, 2, 5, depth);
    lemma_subdiv_model_len(s7.0, s7.1, 0, 3, 5, depth);
    lemma_subdiv_model_wf(s7.0, s7.1, 0, 3, 5, depth);
    lemma_pow4_mod3(depth);
    let p = pow4(depth);
    assert((6 + 8 * (4 * p - 1)) % 3 == 0) by (nonlinear_arith)
        requires
            p % 3 == 1,
            p >= 1,
    ;
}

/// Midpoint vertices appended across all eight base triangles through
/// refinement level `d`: three per triangle per level, with the triangle
/// count quadrupling each level.
pub open spec fn midpoint_sum(d: nat) -> int
    decreases d,
{
    if d == 0 {
        0
    } else {
        midpoint_sum((d - 1) as nat) + 8 * 3 * pow4((d - 1) as nat)
    }
}

/// The sphere's closed-form vertex count is the base six plus the per-level
/// midpoint sum: `6 + 8 * (pow4(d) - 1) == 6 + sum over levels k < d of
/// 8 * 3 * pow4(k)`.
pub proof fn lemma_vertex_count_sum_form(d: nat)
    ensures
        6 + 8 * (pow4(d) - 1) == 6 + midpoint_sum(d),
    decreases d,
{
    if d == 0 {
        assert(pow4(d) == 1);
        assert(midpoint_sum(d) == 0);
    } else {
        lemma_vertex_count_sum_form((d - 1) as nat);
        assert(pow4(d) == 4 * pow4((d - 1) as nat));
        assert(midpoint_sum(d) == midpoint_sum((d - 1) as nat) + 8 * 3 * pow4((d - 1) as nat));
        assert(6 + 8 * (pow4(d) - 1) == 6 + midpoint_sum(d)) by (nonlinear_arith)
            requires
                pow4(d) == 4 * pow4((d - 1) as nat),
                midpoint_sum(d) == midpoint_sum((d - 1) as nat) + 8 * 3 * pow4((d - 1) as nat),
                6 + 8 * (pow4((d - 1) as nat) - 1) == 6 + midpoint_sum((d - 1) as nat),
        ;
    }
}

/// Every vertex of the unit sphere mesh serves as its own normal: the base
/// directions are seeded that way, and each appended midpoint is appended
/// that way.
pub proof fn lemma_subdiv_model_pos_eq_norm(
    vs: Seq<Vertex>,
    inds: Seq<u32>,
    a: u32,
    b: u32,
    c: u32,
    depth: nat,
)
    requires
        forall|i: int| 0 <= i < vs.len() ==> (#[trigger] vs[i]).norm == vs[i].pos,
    ensures
        forall|i: int|
            0 <= i < subdiv_model(vs, inds, a, b, c, depth).0.len() ==> (#[trigger] subdiv_model(
                vs,
                inds,
                a,
                b,
                c,
                depth,
            ).0[i]).norm == subdiv_model(vs, inds, a, b, c, depth).0[i].pos,
    decreases depth,
{
    if depth == 0 {
        assert forall|i: int|
            0 <= i < subdiv_model(vs, inds, a, b, c, depth).0.len() implies (
        #[trigger] subdiv_model(vs, inds, a, b, c, depth).0[i]).norm == subdiv_model(
            vs,
            inds,
            a,
            b,
            c,
            depth,
        ).0[i].pos by {
            assert(vs[i].norm == vs[i].pos);
        }
    } else {
        let ab = unit_of(vec_sum(vs[a as int].pos, vs[b as int].pos));
        let ab_i = vs.len() as u32;
        let vs1 = vs.push(Vertex { pos: ab, norm: ab });
        let bc = unit_of(vec_sum(vs1[b as int].pos, vs1[c as int].pos));
        let bc_i = vs1.len() as u32;
        let vs2 = vs1.push(Vertex { pos: bc, norm: bc });
        let ca = unit_of(vec_sum(vs2[c as int].pos, vs2[a as int].pos));
        let ca_i = vs2.len() as u32;
        let vs3 = vs2.push(Vertex { pos: ca, norm: ca });
        let in3 = inds.push(ab_i).push(bc_i).push(ca_i);
        let r1 = subdiv_model(vs3, in3, a, ab_i, ca_i, (depth - 1) as nat);
        let r2 = subdiv_model(r1.0, r1.1, ab_i, b, bc_i, (depth - 1) as nat);
        let r3 = subdiv_model(r2.0, r2.1, bc_i, c, ca_i, (depth - 1) as nat);
        let r4 = subdiv_model(r3.0, r3.1, ab_i, bc_i, ca_i, (depth - 1) as nat);
        assert forall|i: int| 0 <= i < vs3.len() implies (#[trigger] vs3[i]).norm
            == vs3[i].pos by {
            if i < vs.len() {
                assert(vs[i].norm == vs[i].pos);
            }
        }
        lemma_subdiv_model_pos_eq_norm(vs3, in3, a, ab_i, ca_i, (depth - 1) as nat);
        lemma_subdiv_model_pos_eq_norm(r1.0, r1.1, ab_i, b, bc_i, (depth - 1) as nat);
        lemma_subdiv_model_pos_eq_norm(r2.0, r2.1, bc_i, c, ca_i, (depth - 1) as nat);
        lemma_subdiv_model_pos_eq_norm(r3.0, r3.1, ab_i, bc_i, ca_i, (depth - 1) as nat);
        assert forall|i: int|
            0 <= i < subdiv_model(vs, inds, a, b, c, depth).0.len() implies (
        #[trigger] subdiv_model(vs, inds, a, b, c, depth).0[i]).norm == subdiv_model(
            vs,
            inds,
            a,
            b,
            c,
            depth,
        ).0[i].pos by {
            assert(subdiv_model(vs, inds, a, b, c, depth).0 == r4.0);
            assert(r4.0[i].norm == r4.0[i].pos);
        }
    }
}

/// In the unit sphere mesh, every normal equals the vertex's pre-scaling
/// position. With `sphere_mesh`'s contract this pins each built normal to
/// the unit direction whose scaled image is the built position.
pub proof fn lemma_unit_sphere_pos_eq_norm(depth: nat)
    ensures
        forall|i: int|
            0 <= i < unit_sphere_model(depth).0.len() ==> (#[trigger] unit_sphere_model(
                depth,
            ).0[i]).norm == unit_sphere_model(depth).0[i].pos,
{
    let v0 = base_vertices();
    let i0 = seq![0u32, 1u32, 2u32, 3u32, 4u32, 5u32];
    assert(forall|i: int| 0 <= i < v0.len() ==> (#[trigger] v0[i]).norm == v0[i].pos);
    let s1 = subdiv_model(v0, i0, 0, 1, 4, depth);
    let s2 = subdiv_model(s1.0, s1.1, 1, 2, 4, depth);
    let s3 = subdiv_model(s2.0, s2.1, 2, 3, 4, depth);
    let s4 = subdiv_model(s3.0, s3.1, 3, 0, 4, depth);
    let s5 = subdiv_model(s4.0, s4.1, 1, 0, 5, depth);
    let s6 = subdiv_model(s5.0, s5.1, 2, 1, 5, depth);
    let s7 = subdiv_model(s6.0, s6.1, 3, 2, 5, depth);
    lemma_subdiv_model_pos_eq_norm(v0, i0, 0, 1, 4, depth);
    lemma_subdiv_model_pos_eq_norm(s1.0, s1.1, 1, 2, 4, depth);
    lemma_subdiv_model_pos_eq_norm(s2.0, s2.1, 2, 3, 4, depth);
    lemma_subdiv_model_pos_eq_norm(s3.0, s3.1, 3, 0, 4, depth);
    lemma_subdiv_model_pos_eq_norm(s4.0, s4.1, 1, 0, 5, depth);
    lemma_subdiv_model_pos_eq_norm(s5.0, s5.1, 2, 1, 5, depth);
    lemma_subdiv_model_pos_eq_norm(s6.0, s6.1, 3, 2, 5, depth);
    lemma_subdiv_model_pos_eq_norm(s7.0, s7.1, 0, 3, 5, depth);
    let s8 = subdiv_model(s7.0, s7.1, 0, 3, 5, depth);
    assert forall|i: int|
        0 <= i < unit_sphere_model(depth).0.len() implies (#[trigger] unit_sphere_model(
        depth,
    ).0[i]).norm == unit_sphere_model(depth).0[i].pos by {
        assert(unit_sphere_model(depth).0 == s8.0);
        assert(s8.0[i].norm == s8.0[i].pos);
    }
}

/// The deepest refinement whose vertex indices still fit in the `u32` index
/// buffer: at depth 14 the sphere holds 2147483646 vertices.
pub const MAX_SPHERE_DEPTH: usize = 14;

/// Builds the subdivided sphere: seeds the six base directions, subdivides
/// the eight base triangles to `depth`, then rescales every vertex position
/// in place by the radius function evaluated at its pre-scaling unit
/// direction. Normals are left as the pre-displacement unit directions on
/// purpose. The depth bound keeps every vertex index representable.
pub fn sphere_mesh(depth: usize, radius_func: &RadiusFn) -> (m: Mesh)
    requires
        depth <= MAX_SPHERE_DEPTH,
        radius_func.wf(),
    ensures
        m.vertices@.len() == unit_sphere_model(depth as nat).0.len(),
        m.indices@ == unit_sphere_model(depth as nat).1,
        forall|i: int|
            0 <= i < m.vertices@.len() ==> #[trigger] m.vertices@[i].norm == unit_sphere_model(
                depth as nat,
            ).0[i].norm,
        forall|i: int|
            0 <= i < m.vertices@.len() ==> #[trigger] m.vertices@[i].pos == vec_prod(
                unit_sphere_model(depth as nat).0[i].pos,
                radius_scale_of(*radius_func, unit_sphere_model(depth as nat).0[i].pos),
            ),
        m.vertices@.len() == 6 + 8 * (pow4(depth as nat) - 1),
        m.indices@.len() == 6 + 8 * (4 * pow4(depth as nat) - 1),
        m.indices@.len() % 3 == 0,
        m.wf(),
{
    proof {
        lemma_pow4_pos(depth as nat);
        lemma_pow4_mono(depth as nat, 14);
        lemma_pow4_14();
        lemma_unit_sphere_model_shape(depth as nat);
    }
    let mut m = Mesh::new();
    m.add_vtx(vec3i(-1, 0, 0), vec3i(-1, 0, 0));
    m.add_vtx(vec3i(0, -1, 0), vec3i(0, -1, 0));
    m.add_vtx(vec3i(1, 0, 0), vec3i(1, 0, 0));
    m.add_vtx(vec3i(0, 1, 0), vec3i(0, 1, 0));
    m.add_vtx(vec3i(0, 0, 1), vec3i(0, 0, 1));
    m.add_vtx(vec3i(0, 0, -1), vec3i(0, 0, -1));
    proof {
        assert(m.vertices@ =~= base_vertices());
        assert(m.indices@ =~= seq![0u32, 1u32, 2u32, 3u32, 4u32, 5u32]);
    }
    let ghost v0 = base_vertices();
    let ghost i0 = seq![0u32, 1u32, 2u32, 3u32, 4u32, 5u32];
    let ghost s1 = subdiv_model(v0, i0, 0, 1, 4, depth as nat);
    let ghost s2 = subdiv_model(s1.0, s1.1, 1, 2, 4, depth as nat);
    let ghost s3 = subdiv_model(s2.0, s2.1, 2, 3, 4, depth as nat);
    let ghost s4 = subdiv_model(s3.0, s3.1, 3, 0, 4, depth as nat);
    let ghost s5 = subdiv_model(s4.0, s4.1, 1, 0, 5, depth as nat);
    let ghost s6 = subdiv_model(s5.0, s5.1, 2, 1, 5, depth as nat);
    let ghost s7 = subdiv_model(s6.0, s6.1, 3, 2, 5, depth as nat);
    proof {
        lemma_subdiv_model_len(v0, i0, 0, 1, 4, depth as nat);
        lemma_subdiv_model_wf(v0, i0, 0, 1, 4, depth as nat);
        lemma_subdiv_model_len(s1.0, s1.1, 1, 2, 4, depth as nat);
        lemma_subdiv_model_wf(s1.0, s1.1, 1, 2, 4, depth as nat);
        lemma_subdiv_model_len(s2.0, s2.1, 2, 3, 4, depth as nat);
        lemma_subdiv_model_wf(s2.0, s2.1, 2, 3, 4, depth as nat);
        lemma_subdiv_model_len(s3.0, s3.1, 3, 0, 4, depth as nat);
        lemma_subdiv_model_wf(s3.0, s3.1, 3, 0, 4, depth as nat);
        lemma_subdiv_model_len(s4.0, s4.1, 1, 0, 5, depth as nat);
        lemma_subdiv_model_wf(s4.0, s4.1, 1, 0, 5, depth as nat);
        lemma_subdiv_model_len(s5.0, s5.1, 2, 1, 5, depth as nat);
        lemma_subdiv_model_wf(s5.0, s5.1, 2, 1, 5, depth as nat);
        lemma_subdiv_model_len(s6.0, s6.1, 3, 2, 5, depth as nat);
        lemma_subdiv_model_wf(s6.0, s6.1, 3, 2, 5, depth as nat);
        lemma_subdiv_model_len(s7.0, s7.1, 0, 3, 5, depth as nat);
        lemma_subdiv_model_wf(s7.0, s7.1, 0, 3, 5, depth as nat);
    }
    subdiv_rec(&mut m, 0, 1, 4, depth);
    subdiv_rec(&mut m, 1, 2, 4, depth);
    subdiv_rec(&mut m, 2, 3, 4, depth);
    subdiv_rec(&mut m, 3, 0, 4, depth);
    subdiv_rec(&mut m, 1, 0, 5, depth);
    subdiv_rec(&mut m, 2, 1, 5, depth);
    subdiv_rec(&mut m, 3, 2, 5, depth);
    subdiv_rec(&mut m, 0, 3, 5, depth);
    let ghost u = unit_sphere_model(depth as nat);
    assert(m.vertices@ == u.0);
    assert(m.indices@ == u.1);
    let n = m.vertices.len();
    let mut i: usize = 0;
    while i < n
        invariant
            i <= n,
            n == u.0.len(),
            radius_func.wf(),
            m.vertices@.len() == n,
            m.indices@ == u.1,
            forall|j: int| 0 <= j < i ==> m.vertices@[j].norm == u.0[j].norm,
            forall|j: int|
                0 <= j < i ==> m.vertices@[j].pos == vec_prod(
                    u.0[j].pos,
                    radius_scale_of(*radius_func, u.0[j].pos),
                ),
            forall|j: int| i <= j < n ==> m.vertices@[j] == u.0[j],
        decreases n - i,
    {
        let v = m.vertices[i];
        let s = radius_scale(radius_func, v.pos);
        m.vertices.set(i, Vertex { pos: vec_mul(v.pos, s), norm: v.norm });
        i += 1;
    }
    m
}

/// Convenience sphere builder with a caller-supplied spherical-harmonics
/// radius: rejects, before any mesh work, a degree past `MAX_SH_DEGREE` and
/// a coefficient sequence whose length does not match the basis-function
/// count for `degree`; otherwise builds the sphere whose radius at each
/// pre-scaling direction is the absolute weighted basis sum there.
pub fn sh_sphere_mesh(depth: usize, degree: u32, coeffs: Vec<glam::Vec3>) -> (r: Result<
    Mesh,
    ShConfigError,
>)
    requires
        depth <= MAX_SPHERE_DEPTH,
    ensures
        r is Ok <==> degree <= MAX_SH_DEGREE && coeffs@.len() == sh_count(degree as int),
        r matches Ok(m) ==> m.indices@ == unit_sphere_model(depth as nat).1,
        r matches Ok(m) ==> m.vertices@.len() == 6 + 8 * (pow4(depth as nat) - 1),
        r matches Ok(m) ==> forall|i: int|
            0 <= i < m.vertices@.len() ==> #[trigger] m.vertices@[i].norm == unit_sphere_model(
                depth as nat,
            ).0[i].norm,
        r matches Ok(m) ==> forall|i: int|
            0 <= i < m.vertices@.len() ==> #[trigger] m.vertices@[i].pos == vec_prod(
                unit_sphere_model(depth as nat).0[i].pos,
                vec_abs_of(
                    term_total(
                        sh_terms_of(
                            degree as int,
                            coeffs@,
                            unit_sphere_model(depth as nat).0[i].pos,
                        ),
                    ),
                ),
            ),
        r matches Ok(m) ==> m.wf(),
{
    match ShBasis::new(degree, coeffs) {
        Ok(b) => {
            let rf = RadiusFn::Sh(b);
            Ok(sphere_mesh(depth, &rf))
        },
        Err(e) => Err(e),
    }
}

/// The fixed degree-1 weights `sh_mesh` uses: zero on the first three basis
/// functions, one on the last.
pub open spec fn sh_mesh_coeffs() -> Seq<glam::Vec3> {
    seq![
        vec3_of_ints(0, 0, 0),
        vec3_of_ints(0, 0, 0),
        vec3_of_ints(0, 0, 0),
        vec3_of_ints(1, 1, 1),
    ]
}

/// The scale factor `sh_mesh`'s radius function yields at direction `p`.
pub open spec fn sh_mesh_scale(p: glam::Vec3) -> glam::Vec3 {
    vec_abs_of(term_total(sh_terms_of(1, sh_mesh_coeffs(), p)))
}

/// Builds the sphere whose radius is driven by a fixed degree-1 real
/// spherical-harmonics configuration: only the last of the four basis
/// functions carries weight, and the radius at a direction is the absolute
/// value of the weighted sum there.
pub fn sh_mesh(depth: usize) -> (m: Mesh)
    requires
        depth <= MAX_SPHERE_DEPTH,
    ensures
        m.vertices@.len() == unit_sphere_model(depth as nat).0.len(),
        m.indices@ == unit_sphere_model(depth as nat).1,
        forall|i: int|
            0 <= i < m.vertices@.len() ==> #[trigger] m.vertices@[i].norm == unit_sphere_model(
                depth as nat,
            ).0[i].norm,
        forall|i: int|
            0 <= i < m.vertices@.len() ==> #[trigger] m.vertices@[i].pos == vec_prod(
                unit_sphere_model(depth as nat).0[i].pos,
                sh_mesh_scale(unit_sphere_model(depth as nat).0[i].pos),
            ),
        m.vertices@.len() == 6 + 8 * (pow4(depth as nat) - 1),
        m.indices@.len() == 6 + 8 * (4 * pow4(depth as nat) - 1),
        m.indices@.len() % 3 == 0,
        m.wf(),
{
    let mut coeffs: Vec<glam::Vec3> = Vec::new();
    coeffs.push(vec3i(0, 0, 0));
    coeffs.push(vec3i(0, 0, 0));
    coeffs.push(vec3i(0, 0, 0));
    coeffs.push(vec3i(1, 1, 1));
    proof {
        assert(coeffs@ =~= sh_mesh_coeffs());
    }
    let basis = ShBasis { degree: 1, coeffs };
    let rf = RadiusFn::Sh(basis);
    let m = sphere_mesh(depth, &rf);
    proof {
        assert(forall|p: glam::Vec3| radius_scale_of(rf, p) == sh_mesh_scale(p));
    }
    m
}

} // verus!

