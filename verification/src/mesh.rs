use vstd::prelude::*;

use crate::geom::{vec3_of_ints, vec_prod, vec3i, vec_mul};

verus! {

/// One mesh vertex: a position and a normal, addressed by its storage index.
#[derive(Clone, Copy)]
pub struct Vertex {
    pub pos: glam::Vec3,
    pub norm: glam::Vec3,
}

/// A triangle mesh: vertex attributes in insertion order, plus a flat
/// triangle index buffer whose entries refer to vertex storage slots.
pub struct Mesh {
    pub vertices: Vec<Vertex>,
    pub indices: Vec<u32>,
}

impl Mesh {
    /// Every entry of the index buffer refers to an existing vertex slot.
    pub open spec fn wf(self) -> bool {
        forall|i: int|
            0 <= i < self.indices@.len() ==> (self.indices@[i] as int) < self.vertices@.len()
    }

    /// An empty mesh: no vertices, no indices.
    pub fn new() -> (m: Mesh)
        ensures
            m.vertices@.len() == 0,
            m.indices@.len() == 0,
            m.wf(),
    {
        Mesh { vertices: Vec::new(), indices: Vec::new() }
    }

    /// The vertex stored at index `idx`.
    pub fn get(&self, idx: u32) -> (v: &Vertex)
        requires
            (idx as int) < self.vertices@.len(),
        ensures
            *v == self.vertices@[idx as int],
    {
        &self.vertices[idx as usize]
    }

    /// Appends a vertex and immediately references it once in the index
    /// buffer, returning its storage index. A caller that wants an existing
    /// vertex referenced again uses `ref_vtx` instead.
    pub fn add_vtx(&mut self, pos: glam::Vec3, norm: glam::Vec3) -> (idx: u32)
        requires
            old(self).vertices@.len() <= u32::MAX,
        ensures
            idx as int == old(self).vertices@.len(),
            final(self).vertices@ == old(self).vertices@.push(Vertex { pos, norm }),
            final(self).indices@ == old(self).indices@.push(idx),
            old(self).wf() ==> final(self).wf(),
    {
        let next_idx: u32 = self.vertices.len() as u32;
        self.vertices.push(Vertex { pos, norm });
        self.indices.push(next_idx);
        next_idx
    }

    /// Appends an existing vertex's index to the index buffer without
    /// creating a new vertex.
    pub fn ref_vtx(&mut self, idx: u32)
        requires
            (idx as int) < old(self).vertices@.len(),
        ensures
            final(self).vertices@ == old(self).vertices@,
            final(self).indices@ == old(self).indices@.push(idx),
            old(self).wf() ==> final(self).wf(),
    {
        self.indices.push(idx);
    }
}

/// Corner signs of cube vertex slot `i` (face `i / 4`, corner `i % 4`). Each
/// face lists its four corners counter-clockwise seen from outside, so the
/// fixed triangulation below winds outward; the face order is +Z, -Z, +X,
/// -X, +Y, -Y.
pub open spec fn cube_corner_sign(i: int) -> (int, int, int) {
    if i == 0 { (-1, -1, 1) } else if i == 1 { (1, -1, 1) }
    else if i == 2 { (1, 1, 1) } else if i == 3 { (-1, 1, 1) }
    else if i == 4 { (1, -1, -1) } else if i == 5 { (-1, -1, -1) }
    else if i == 6 { (-1, 1, -1) } else if i == 7 { (1, 1, -1) }
    else if i == 8 { (1, -1, 1) } else if i == 9 { (1, -1, -1) }
    else if i == 10 { (1, 1, -1) } else if i == 11 { (1, 1, 1) }
    else if i == 12 { (-1, -1, -1) } else if i == 13 { (-1, -1, 1) }
    else if i == 14 { (-1, 1, 1) } else if i == 15 { (-1, 1, -1) }
    else if i == 16 { (-1, 1, 1) } else if i == 17 { (1, 1, 1) }
    else if i == 18 { (1, 1, -1) } else if i == 19 { (-1, 1, -1) }
    else if i == 20 { (-1, -1, -1) } else if i == 21 { (1, -1, -1) }
    else if i == 22 { (1, -1, 1) } else { (-1, -1, 1) }
}

/// The outward unit normal shared by the four vertices of face `f`, as a
/// sign triple; the face order matches `cube_corner_sign`.
pub open spec fn cube_normal_sign(f: int) -> (int, int, int) {
    if f == 0 { (0, 0, 1) } else if f == 1 { (0, 0, -1) }
    else if f == 2 { (1, 0, 0) } else if f == 3 { (-1, 0, 0) }
    else if f == 4 { (0, 1, 0) } else { (0, -1, 0) }
}

/// Cube vertex slot `i`: the corner of the `half_extents` box selected by the
/// sign table, flat-shaded with its face's axis-aligned unit normal.
pub open spec fn cube_vertex_at(half_extents: glam::Vec3, i: int) -> Vertex {
    Vertex {
        pos: vec_prod(
            half_extents,
            vec3_of_ints(cube_corner_sign(i).0, cube_corner_sign(i).1, cube_corner_sign(i).2),
        ),
        norm: vec3_of_ints(
            cube_normal_sign(i / 4).0,
            cube_normal_sign(i / 4).1,
            cube_normal_sign(i / 4).2,
        ),
    }
}

/// Index-buffer entry `i` of the cube: two triangles `(0,1,2)` and `(0,2,3)`
/// per face, offset by four vertices per face.
pub open spec fn cube_index_at(i: int) -> u32 {
    let k = i % 6;
    let off: int = if k == 0 { 0 } else if k == 1 { 1 } else if k == 2 { 2 }
        else if k == 3 { 0 } else if k == 4 { 2 } else { 3 };
    ((i / 6) * 4 + off) as u32
}

fn corner_sign_at(i: usize) -> (r: (i32, i32, i32))
    requires
        i < 24,
    ensures
        (r.0 as int, r.1 as int, r.2 as int) == cube_corner_sign(i as int),
{
    match i {
        0 => (-1, -1, 1), 1 => (1, -1, 1), 2 => (1, 1, 1), 3 => (-1, 1, 1),
        4 => (1, -1, -1), 5 => (-1, -1, -1), 6 => (-1, 1, -1), 7 => (1, 1, -1),
        8 => (1, -1, 1), 9 => (1, -1, -1), 10 => (1, 1, -1), 11 => (1, 1, 1),
        12 => (-1, -1, -1), 13 => (-1, -1, 1), 14 => (-1, 1, 1), 15 => (-1, 1, -1),
        16 => (-1, 1, 1), 17 => (1, 1, 1), 18 => (1, 1, -1), 19 => (-1, 1, -1),
        20 => (-1, -1, -1), 21 => (1, -1, -1), 22 => (1, -1, 1), _ => (-1, -1, 1),
    }
}

fn normal_sign_at(f: usize) -> (r: (i32, i32, i32))
    requires
        f < 6,
    ensures
        (r.0 as int, r.1 as int, r.2 as int) == cube_normal_sign(f as int),
{
    match f {
        0 => (0, 0, 1), 1 => (0, 0, -1), 2 => (1, 0, 0),
        3 => (-1, 0, 0), 4 => (0, 1, 0), _ => (0, -1, 0),
    }
}

/// Builds the flat-shaded box with the given half extents: 6 faces of 4
/// vertices each, every face's vertices sharing its outward axis-aligned
/// unit normal, and 36 indices forming 2 outward-wound triangles per face.
/// A non-uniform `half_extents` yields a rectangular box by design.
pub fn cube_mesh(half_extents: glam::Vec3) -> (m: Mesh)
    ensures
        m.vertices@.len() == 24,
        m.indices@.len() == 36,
        forall|i: int| 0 <= i < 24 ==> #[trigger] m.vertices@[i] == cube_vertex_at(half_extents, i),
        forall|i: int| 0 <= i < 36 ==> #[trigger] m.indices@[i] == cube_index_at(i),
        forall|i: int| 0 <= i < 36 ==> (#[trigger] m.indices@[i] as int) < 24,
        m.wf(),
{
    let mut vertices: Vec<Vertex> = Vec::new();
    let mut i: usize = 0;
    while i < 24
        invariant
            i <= 24,
            vertices@.len() == i,
            forall|j: int| 0 <= j < i ==> vertices@[j] == cube_vertex_at(half_extents, j),
        decreases 24 - i,
    {
        let s = corner_sign_at(i);
        let n = normal_sign_at(i / 4);
        vertices.push(
            Vertex {
                pos: vec_mul(half_extents, vec3i(s.0, s.1, s.2)),
                norm: vec3i(n.0, n.1, n.2),
            },
        );
        i += 1;
    }
    let mut indices: Vec<u32> = Vec::new();
    let mut face: u32 = 0;
    while face < 6
        invariant
            face <= 6,
            indices@.len() == 6 * face,
            forall|j: int| 0 <= j < indices@.len() ==> indices@[j] == cube_index_at(j),
            forall|j: int| 0 <= j < indices@.len() ==> (indices@[j] as int) < 24,
        decreases 6 - face,
    {
        let o = face * 4;
        indices.push(o);
        indices.push(o + 1);
        indices.push(o + 2);
        indices.push(o);
        indices.push(o + 2);
        indices.push(o + 3);
        face += 1;
    }
    Mesh { vertices, indices }
}

} // verus!
