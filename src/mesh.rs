use crate::tile::DtVectorBits;
use vstd::prelude::*;

verus! {

/// Flattening of indexed triangle meshes into one vertex per index slot, the
/// form the tile build pipeline takes. `V` is the vertex type.
pub struct ShapeToMesh {}

/// Vertex `n` of the flattened mesh: corner `n % 3` of triangle `n / 3`.
pub open spec fn flattened_vertex<V>(verts: Seq<V>, tris: Seq<[u32; 3]>, n: int) -> V {
    verts[tris[n / 3]@[n % 3] as int]
}

impl ShapeToMesh {
    /// One vertex per corner of every triangle, in triangle order, with
    /// indices `0, 1, 2, ...`.
    pub fn trimesh_output_to_mesh<V: Copy>(verts: &Vec<V>, tris: &Vec<[u32; 3]>) -> (r: (
        Vec<V>,
        Vec<i32>,
    ))
        requires
            3 * tris@.len() <= i32::MAX,
            forall|k: int, m: int|
                0 <= k < tris@.len() && 0 <= m < 3 ==> (#[trigger] tris@[k]@[m]) < verts@.len(),
        ensures
            r.0@.len() == 3 * tris@.len(),
            forall|n: int|
                0 <= n < r.0@.len() ==> #[trigger] r.0@[n] == flattened_vertex(verts@, tris@, n),
            r.1@ == Seq::new((3 * tris@.len()) as nat, |n: int| n as i32),
    {
        let mut vertices: Vec<V> = Vec::new();
        let mut indices: Vec<i32> = Vec::new();
        let mut index: i32 = 0;
        let mut k: usize = 0;
        while k < tris.len()
            invariant
                k <= tris@.len(),
                3 * tris@.len() <= i32::MAX,
                forall|k: int, m: int|
                    0 <= k < tris@.len() && 0 <= m < 3 ==> (#[trigger] tris@[k]@[m])
                        < verts@.len(),
                index == 3 * k,
                vertices@.len() == 3 * k,
                forall|n: int|
                    0 <= n < vertices@.len() ==> #[trigger] vertices@[n] == flattened_vertex(
                        verts@,
                        tris@,
                        n,
                    ),
                indices@ == Seq::new((3 * k) as nat, |n: int| n as i32),
            decreases tris@.len() - k,
        {
            let t = tris[k];
            assert(t@[0] < verts@.len() && t@[1] < verts@.len() && t@[2] < verts@.len());
            vertices.push(verts[t[0] as usize]);
            vertices.push(verts[t[1] as usize]);
            vertices.push(verts[t[2] as usize]);
            indices.push(index);
            indices.push(index + 1);
            indices.push(index + 2);
            index = index + 3;
            k = k + 1;
            assert(indices@ =~= Seq::new((3 * k) as nat, |n: int| n as i32));
        }
        (vertices, indices)
    }

    /// The corners of every triangle, in order, each triangle `(i, [a, b, c])`
    /// getting the indices `3i, 3i + 1, 3i + 2`.
    pub fn triangles_output_to_mesh<V: Copy>(triangles: Vec<(usize, [V; 3])>) -> (r: (
        Vec<V>,
        Vec<i32>,
    ))
        requires
            forall|k: int| 0 <= k < triangles@.len() ==> 3 * (#[trigger] triangles@[k]).0 + 2 <= i32::MAX,
        ensures
            r.0@.len() == 3 * triangles@.len(),
            r.1@.len() == 3 * triangles@.len(),
            forall|n: int|
                0 <= n < r.0@.len() ==> #[trigger] r.0@[n] == triangles@[n / 3].1@[n % 3],
            forall|n: int|
                0 <= n < r.1@.len() ==> #[trigger] r.1@[n] == 3 * triangles@[n / 3].0 + n % 3,
    {
        let mut vertices: Vec<V> = Vec::new();
        let mut indices: Vec<i32> = Vec::new();
        let mut k: usize = 0;
        while k < triangles.len()
            invariant
                k <= triangles@.len(),
                forall|k: int|
                    0 <= k < triangles@.len() ==> 3 * (#[trigger] triangles@[k]).0 + 2 <= i32::MAX,
                vertices@.len() == 3 * k,
                indices@.len() == 3 * k,
                forall|n: int|
                    0 <= n < vertices@.len() ==> #[trigger] vertices@[n] == triangles@[n / 3].1@[n
                        % 3],
                forall|n: int|
                    0 <= n < indices@.len() ==> #[trigger] indices@[n] == 3 * triangles@[n / 3].0
                        + n % 3,
            decreases triangles@.len() - k,
        {
            let (i, tri) = triangles[k];
            assert(3 * i + 2 <= i32::MAX);
            vertices.push(tri[0]);
            vertices.push(tri[1]);
            vertices.push(tri[2]);
            let base = (i * 3) as i32;
            indices.push(base);
            indices.push(base + 1);
            indices.push(base + 2);
            k = k + 1;
        }
        (vertices, indices)
    }
}

/// Vertex `v` is referenced by some index.
pub open spec fn referenced(indices: Seq<u32>, v: int) -> bool {
    exists|i: int| 0 <= i < indices.len() && indices[i] == v
}

/// Some index is remapped to `k`.
pub open spec fn remap_hits(indices: Seq<u32>, remap: Seq<u32>, k: int) -> bool {
    exists|i: int| 0 <= i < indices.len() && remap[indices[i] as int] == k
}

/// Some entry of `indices` is `k`.
pub open spec fn index_hits(indices: Seq<u32>, k: int) -> bool {
    exists|i: int| 0 <= i < indices.len() && indices[i] == k
}

/// Relies on meshopt::generate_vertex_remap with an index buffer: the remap
/// has one entry per vertex; vertices that no index references map to `!0`;
/// the others map below the returned count, with no gaps, and two of them
/// share an entry exactly when their bytes are equal (for `DtVectorBits`,
/// three `u32` fields and no padding, when they are equal).
#[verifier::external_body]
fn generate_vertex_remap(vertices: &Vec<DtVectorBits>, indices: &Vec<u32>) -> (r: (usize, Vec<u32>))
    requires
        indices@.len() % 3 == 0,
        vertices@.len() < u32::MAX,
        forall|i: int| 0 <= i < indices@.len() ==> (#[trigger] indices@[i]) < vertices@.len(),
    ensures
        r.0 <= vertices@.len(),
        r.1@.len() == vertices@.len(),
        forall|v: int|
            0 <= v < vertices@.len() ==> ((#[trigger] r.1@[v] == u32::MAX) <==> !referenced(
                indices@,
                v,
            )),
        forall|v: int| 0 <= v < vertices@.len() && referenced(indices@, v) ==> #[trigger] r.1@[v] < r.0,
        forall|a: int, b: int|
            0 <= a < vertices@.len() && 0 <= b < vertices@.len() && referenced(indices@, a)
                && referenced(indices@, b) ==> (#[trigger] r.1@[a] == #[trigger] r.1@[b]
                <==> vertices@[a] == vertices@[b]),
        forall|k: int| 0 <= k < r.0 ==> #[trigger] remap_hits(indices@, r.1@, k),
{
    meshopt::generate_vertex_remap(vertices.as_slice(), Some(indices.as_slice()))
}

/// Relies on meshopt::remap_index_buffer with an index buffer: entry `i` of
/// the result is `remap[indices[i]]`.
#[verifier::external_body]
fn remap_index_buffer(indices: &Vec<u32>, vertex_count: usize, remap: &Vec<u32>) -> (r: Vec<u32>)
    requires
        indices@.len() % 3 == 0,
        forall|i: int|
            0 <= i < indices@.len() ==> (#[trigger] indices@[i]) < remap@.len() && remap@[indices@[i] as int]
                != u32::MAX,
    ensures
        r@.len() == indices@.len(),
        forall|i: int| 0 <= i < indices@.len() ==> #[trigger] r@[i] == remap@[indices@[i] as int],
{
    meshopt::remap_index_buffer(Some(indices.as_slice()), vertex_count, remap.as_slice())
}

/// Relies on meshopt::remap_vertex_buffer: a buffer of `vertex_count`
/// vertices where each vertex `v` with `remap[v] != !0` is copied to entry
/// `remap[v]`.
#[verifier::external_body]
fn remap_vertex_buffer(vertices: &Vec<DtVectorBits>, vertex_count: usize, remap: &Vec<u32>) -> (r:
    Vec<DtVectorBits>)
    requires
        remap@.len() == vertices@.len(),
        vertex_count <= vertices@.len(),
        forall|v: int|
            0 <= v < remap@.len() ==> (#[trigger] remap@[v]) == u32::MAX || remap@[v] < vertex_count,
        forall|a: int, b: int|
            0 <= a < remap@.len() && 0 <= b < remap@.len() && (#[trigger] remap@[a]) != u32::MAX
                && remap@[a] == #[trigger] remap@[b] ==> vertices@[a] == vertices@[b],
    ensures
        r@.len() == vertex_count,
        forall|v: int|
            0 <= v < remap@.len() && (#[trigger] remap@[v]) != u32::MAX ==> r@[remap@[v] as int]
                == vertices@[v],
{
    meshopt::remap_vertex_buffer(vertices.as_slice(), vertex_count, remap.as_slice())
}

impl ShapeToMesh {
    /// Welds binary-equal vertices: the result holds each distinct
    /// referenced vertex once, and indices into it that describe the same
    /// triangles as before.
    pub fn weld_vertices(vertices: &Vec<DtVectorBits>, indices: &Vec<u32>) -> (r: (
        Vec<u32>,
        Vec<DtVectorBits>,
    ))
        requires
            indices@.len() % 3 == 0,
            vertices@.len() < u32::MAX,
            forall|i: int| 0 <= i < indices@.len() ==> (#[trigger] indices@[i]) < vertices@.len(),
        ensures
            r.0@.len() == indices@.len(),
            r.1@.len() <= vertices@.len(),
            forall|i: int|
                0 <= i < indices@.len() ==> (#[trigger] r.0@[i]) < r.1@.len() && r.1@[r.0@[i] as int]
                    == vertices@[indices@[i] as int],
            r.1@.no_duplicates(),
            forall|k: int| 0 <= k < r.1@.len() ==> #[trigger] index_hits(r.0@, k),
    {
        let (count, remap) = generate_vertex_remap(vertices, indices);
        proof {
            assert forall|i: int| 0 <= i < indices@.len() implies (#[trigger] indices@[i])
                < remap@.len() && remap@[indices@[i] as int] != u32::MAX by {
                assert(referenced(indices@, indices@[i] as int));
            }
            assert forall|a: int, b: int|
                0 <= a < remap@.len() && 0 <= b < remap@.len() && (#[trigger] remap@[a])
                    != u32::MAX && remap@[a] == #[trigger] remap@[b] implies vertices@[a]
                == vertices@[b] by {
                assert(referenced(indices@, a));
                assert(referenced(indices@, b));
            }
            assert forall|v: int| 0 <= v < remap@.len() implies (#[trigger] remap@[v]) == u32::MAX
                || remap@[v] < count by {
                if remap@[v] != u32::MAX {
                    assert(referenced(indices@, v));
                }
            }
        }
        let new_indices = remap_index_buffer(indices, count, &remap);
        let new_vertices = remap_vertex_buffer(vertices, count, &remap);
        proof {
            assert forall|i: int| 0 <= i < indices@.len() implies (#[trigger] new_indices@[i])
                < new_vertices@.len() && new_vertices@[new_indices@[i] as int]
                == vertices@[indices@[i] as int] by {
                let v = indices@[i] as int;
                assert(referenced(indices@, v));
                assert(remap@[v] != u32::MAX);
            }
            assert forall|k: int| 0 <= k < new_vertices@.len() implies #[trigger] index_hits(
                new_indices@,
                k,
            ) by {
                assert(remap_hits(indices@, remap@, k));
                let i = choose|i: int| 0 <= i < indices@.len() && remap@[indices@[i] as int] == k;
                assert(new_indices@[i] == k);
            }
            assert forall|k1: int, k2: int|
                0 <= k1 < new_vertices@.len() && 0 <= k2 < new_vertices@.len() && k1 != k2 implies new_vertices@[k1]
                != new_vertices@[k2] by {
                assert(remap_hits(indices@, remap@, k1));
                assert(remap_hits(indices@, remap@, k2));
                let i1 = choose|i: int| 0 <= i < indices@.len() && remap@[indices@[i] as int] == k1;
                let i2 = choose|i: int| 0 <= i < indices@.len() && remap@[indices@[i] as int] == k2;
                let v1 = indices@[i1] as int;
                let v2 = indices@[i2] as int;
                assert(referenced(indices@, v1));
                assert(referenced(indices@, v2));
                assert(remap@[v1] != u32::MAX);
                assert(remap@[v2] != u32::MAX);
                assert(new_vertices@[k1] == vertices@[v1]);
                assert(new_vertices@[k2] == vertices@[v2]);
            }
        }
        (new_indices, new_vertices)
    }
}

} // verus!
