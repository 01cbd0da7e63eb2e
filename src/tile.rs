use crate::grid::DtInt2;
use vstd::prelude::*;

verus! {

/// Byte size of the tile header; already a multiple of four, so the vertex
/// section starts right after it.
pub const TILE_HEADER_SIZE: usize = 100;

/// Byte size of one vertex record: three 32-bit floats.
pub const VERTEX_RECORD_SIZE: usize = 12;

/// Byte size of one polygon record.
pub const POLY_RECORD_SIZE: usize = 32;

/// Most vertices a polygon record can reference.
pub const MAX_POLY_VERTICES: usize = 6;

/// Unsigned 16-bit little-endian integer at byte `off`.
pub open spec fn u16_at(s: Seq<u8>, off: int) -> int {
    s[off] as int + 256 * (s[off + 1] as int)
}

/// Unsigned 32-bit little-endian integer at byte `off`.
pub open spec fn u32_at(s: Seq<u8>, off: int) -> int {
    u16_at(s, off) + 65536 * u16_at(s, off + 2)
}

/// Signed (two's complement) 32-bit little-endian integer at byte `off`.
pub open spec fn i32_at(s: Seq<u8>, off: int) -> int {
    let u = u32_at(s, off);
    if u < 0x8000_0000 {
        u
    } else {
        u - 0x1_0000_0000
    }
}

fn read_u16(data: &[u8], off: usize) -> (r: u16)
    requires
        off + 2 <= data@.len(),
    ensures
        r == u16_at(data@, off as int),
{
    data[off] as u16 + (data[off + 1] as u16) * 256
}

fn read_u32(data: &[u8], off: usize) -> (r: u32)
    requires
        off + 4 <= data@.len(),
    ensures
        r == u32_at(data@, off as int),
{
    let _n = data.len();
    let lo = read_u16(data, off) as u32;
    let hi = read_u16(data, off + 2) as u32;
    lo + hi * 65536
}

fn read_i32(data: &[u8], off: usize) -> (r: i32)
    requires
        off + 4 <= data@.len(),
    ensures
        r == i32_at(data@, off as int),
{
    let u = read_u32(data, off);
    if u < 0x8000_0000 {
        u as i32
    } else {
        ((u as i64) - 0x1_0000_0000i64) as i32
    }
}

/// A vertex as the tile stores it: the IEEE-754 bit patterns of its three
/// coordinates.
#[derive(Clone, Copy, Debug, Default, PartialEq, Eq, Structural)]
pub struct DtVectorBits {
    pub x: u32,
    pub y: u32,
    pub z: u32,
}

/// The tile header. The float fields (`bmin`, `bmax`, `bv_quant_factor`) hold
/// IEEE-754 bit patterns.
#[derive(Clone, Copy, Debug)]
pub struct DtTileHeader {
    pub magic: i32,
    pub version: i32,
    pub x: i32,
    pub y: i32,
    pub layer: i32,
    pub user_id: i32,
    pub polycount: i32,
    pub vertcount: i32,
    pub max_linked_count: i32,
    pub detail_mesh_count: i32,
    pub detail_vert_count: i32,
    pub detail_tri_count: i32,
    pub bv_node_count: i32,
    pub off_mesh_con_count: i32,
    pub off_mesh_base: i32,
    pub walkable_height: i32,
    pub walkable_radius: i32,
    pub walkable_climb: i32,
    pub bmin: [u32; 3],
    pub bmax: [u32; 3],
    pub bv_quant_factor: u32,
}

/// `h` is the header encoded at the start of `s`.
pub open spec fn header_matches(h: DtTileHeader, s: Seq<u8>) -> bool {
    &&& h.magic == i32_at(s, 0)
    &&& h.version == i32_at(s, 4)
    &&& h.x == i32_at(s, 8)
    &&& h.y == i32_at(s, 12)
    &&& h.layer == i32_at(s, 16)
    &&& h.user_id == i32_at(s, 20)
    &&& h.polycount == i32_at(s, 24)
    &&& h.vertcount == i32_at(s, 28)
    &&& h.max_linked_count == i32_at(s, 32)
    &&& h.detail_mesh_count == i32_at(s, 36)
    &&& h.detail_vert_count == i32_at(s, 40)
    &&& h.detail_tri_count == i32_at(s, 44)
    &&& h.bv_node_count == i32_at(s, 48)
    &&& h.off_mesh_con_count == i32_at(s, 52)
    &&& h.off_mesh_base == i32_at(s, 56)
    &&& h.walkable_height == i32_at(s, 60)
    &&& h.walkable_radius == i32_at(s, 64)
    &&& h.walkable_climb == i32_at(s, 68)
    &&& h.bmin@ == seq![u32_at(s, 72) as u32, u32_at(s, 76) as u32, u32_at(s, 80) as u32]
    &&& h.bmax@ == seq![u32_at(s, 84) as u32, u32_at(s, 88) as u32, u32_at(s, 92) as u32]
    &&& h.bv_quant_factor == u32_at(s, 96)
}

/// One polygon record of the tile.
#[derive(Clone, Copy, Debug)]
pub struct DtPoly {
    pub first_link: u32,
    pub vertices: [u16; 6],
    pub neighbors: [u16; 6],
    pub flags: u16,
    pub vertex_count: u8,
    pub area_and_type: u8,
}

/// `p` is the polygon record encoded at byte `off` of `s`.
pub open spec fn poly_matches(p: DtPoly, s: Seq<u8>, off: int) -> bool {
    &&& p.first_link == u32_at(s, off)
    &&& forall|m: int| 0 <= m < 6 ==> p.vertices@[m] == u16_at(s, off + 4 + 2 * m)
    &&& forall|m: int| 0 <= m < 6 ==> p.neighbors@[m] == u16_at(s, off + 16 + 2 * m)
    &&& p.flags == u16_at(s, off + 28)
    &&& p.vertex_count == s[off + 30]
    &&& p.area_and_type == s[off + 31]
}

/// Byte offset of vertex record `i`.
pub open spec fn vertex_offset(i: int) -> int {
    TILE_HEADER_SIZE + VERTEX_RECORD_SIZE * i
}

/// Byte offset of polygon record `j` in a tile of `vc` vertices.
pub open spec fn poly_offset(vc: int, j: int) -> int {
    TILE_HEADER_SIZE + VERTEX_RECORD_SIZE * vc + POLY_RECORD_SIZE * j
}

/// Vertex record `i` of the tile `s`.
pub open spec fn vertex_at(s: Seq<u8>, i: int) -> DtVectorBits {
    DtVectorBits {
        x: u32_at(s, vertex_offset(i)) as u32,
        y: u32_at(s, vertex_offset(i) + 4) as u32,
        z: u32_at(s, vertex_offset(i) + 8) as u32,
    }
}

/// Vertex count of polygon `j`.
pub open spec fn poly_vertex_count(s: Seq<u8>, vc: int, j: int) -> int {
    s[poly_offset(vc, j) + 30] as int
}

/// Vertex index `m` of polygon `j`.
pub open spec fn poly_vertex(s: Seq<u8>, vc: int, j: int, m: int) -> int {
    u16_at(s, poly_offset(vc, j) + 4 + 2 * m)
}

/// Triangles of the fan over polygon `j`: `k - 2` for `k >= 3` vertices.
pub open spec fn fan_triangle_count(s: Seq<u8>, vc: int, j: int) -> int {
    let k = poly_vertex_count(s, vc, j);
    if k >= 3 {
        k - 2
    } else {
        0
    }
}

/// The first `t` triangles of the fan from vertex 0 of polygon `j`, three
/// indices each: triangle `i` is `(v0, v(i + 1), v(i + 2))`.
pub open spec fn fan_prefix(s: Seq<u8>, vc: int, j: int, t: int) -> Seq<i32> {
    Seq::new(
        (3 * t) as nat,
        |n: int|
            if n % 3 == 0 {
                poly_vertex(s, vc, j, 0) as i32
            } else if n % 3 == 1 {
                poly_vertex(s, vc, j, n / 3 + 1) as i32
            } else {
                poly_vertex(s, vc, j, n / 3 + 2) as i32
            },
    )
}

/// Triangle indices of the first `pc` polygons, polygon by polygon.
pub open spec fn fan_indices(s: Seq<u8>, vc: int, pc: nat) -> Seq<i32>
    decreases pc,
{
    if pc == 0 {
        Seq::empty()
    } else {
        fan_indices(s, vc, (pc - 1) as nat) + fan_prefix(
            s,
            vc,
            pc - 1,
            fan_triangle_count(s, vc, pc - 1),
        )
    }
}

/// Vertex count of the tile `s`, from its header.
pub open spec fn tile_vertcount(s: Seq<u8>) -> int {
    i32_at(s, 28)
}

/// Polygon count of the tile `s`, from its header.
pub open spec fn tile_polycount(s: Seq<u8>) -> int {
    i32_at(s, 24)
}

/// The renderable geometry of the tile `s`: its vertices and the fan
/// triangulation of its polygons. `None` where there is nothing to decode: a
/// buffer shorter than the header, no vertices, a negative polygon count,
/// sections that run past the buffer, or a polygon of more than six vertices.
pub open spec fn tile_geometry(s: Seq<u8>) -> Option<(Seq<DtVectorBits>, Seq<i32>)> {
    if s.len() < TILE_HEADER_SIZE {
        None
    } else {
        let vc = tile_vertcount(s);
        let pc = tile_polycount(s);
        if vc <= 0 || pc < 0 || poly_offset(vc, pc) > s.len() {
            None
        } else if exists|j: int| 0 <= j < pc && poly_vertex_count(s, vc, j) > MAX_POLY_VERTICES {
            None
        } else {
            Some(
                (
                    Seq::new(vc as nat, |i: int| vertex_at(s, i)),
                    fan_indices(s, vc, pc as nat),
                ),
            )
        }
    }
}

/// Total triangles of the fans over the first `pc` polygons.
pub open spec fn fan_triangle_total(s: Seq<u8>, vc: int, pc: nat) -> int
    decreases pc,
{
    if pc == 0 {
        0
    } else {
        fan_triangle_total(s, vc, (pc - 1) as nat) + fan_triangle_count(s, vc, pc - 1)
    }
}

/// What decoding gives: at least one vertex, as many as the header
/// announces, and three indices for each triangle of the polygons' fans
/// (`k - 2` triangles for a polygon of `k >= 3` vertices).
pub proof fn lemma_decoded_counts(s: Seq<u8>)
    requires
        tile_geometry(s) is Some,
    ensures
        ({
            let (vertices, indices) = tile_geometry(s)->0;
            &&& vertices.len() > 0
            &&& vertices.len() == tile_vertcount(s)
            &&& indices.len() == 3 * fan_triangle_total(
                s,
                tile_vertcount(s),
                tile_polycount(s) as nat,
            )
        }),
{
    lemma_fan_indices_len(s, tile_vertcount(s), tile_polycount(s) as nat);
}

proof fn lemma_fan_indices_len(s: Seq<u8>, vc: int, pc: nat)
    ensures
        fan_indices(s, vc, pc).len() == 3 * fan_triangle_total(s, vc, pc),
    decreases pc,
{
    if pc > 0 {
        lemma_fan_indices_len(s, vc, (pc - 1) as nat);
    }
}

/// A built navigation-mesh tile: the engine's binary tile blob.
#[derive(Clone, Debug)]
pub struct NavmeshTile {
    pub data: Vec<u8>,
}

impl NavmeshTile {
    /// The coordinate of the tile, embedded in the header of its data.
    pub fn coord(&self) -> (r: DtInt2)
        requires
            self.data@.len() >= TILE_HEADER_SIZE,
        ensures
            r.x == i32_at(self.data@, 8),
            r.y == i32_at(self.data@, 12),
    {
        let header = Self::read_header(self.data.as_slice());
        DtInt2::new(header.x, header.y)
    }

    /// Decodes the fixed-size header at the start of a tile's data.
    pub fn read_header(navmesh_data: &[u8]) -> (r: DtTileHeader)
        requires
            navmesh_data@.len() >= TILE_HEADER_SIZE,
        ensures
            header_matches(r, navmesh_data@),
    {
        let d = navmesh_data;
        let bmin = [read_u32(d, 72), read_u32(d, 76), read_u32(d, 80)];
        let bmax = [read_u32(d, 84), read_u32(d, 88), read_u32(d, 92)];
        let r = DtTileHeader {
            magic: read_i32(d, 0),
            version: read_i32(d, 4),
            x: read_i32(d, 8),
            y: read_i32(d, 12),
            layer: read_i32(d, 16),
            user_id: read_i32(d, 20),
            polycount: read_i32(d, 24),
            vertcount: read_i32(d, 28),
            max_linked_count: read_i32(d, 32),
            detail_mesh_count: read_i32(d, 36),
            detail_vert_count: read_i32(d, 40),
            detail_tri_count: read_i32(d, 44),
            bv_node_count: read_i32(d, 48),
            off_mesh_con_count: read_i32(d, 52),
            off_mesh_base: read_i32(d, 56),
            walkable_height: read_i32(d, 60),
            walkable_radius: read_i32(d, 64),
            walkable_climb: read_i32(d, 68),
            bmin,
            bmax,
            bv_quant_factor: read_u32(d, 96),
        };
        assert(r.bmin@ =~= seq![u32_at(d@, 72) as u32, u32_at(d@, 76) as u32, u32_at(d@, 80) as u32]);
        assert(r.bmax@ =~= seq![u32_at(d@, 84) as u32, u32_at(d@, 88) as u32, u32_at(d@, 92) as u32]);
        r
    }

    /// The vertices of the tile and its polygons as triangles (indices into
    /// the vertices, three per triangle, each polygon fanned from its first
    /// vertex), for display. `None` where the tile holds no geometry or its
    /// data does not hold what its header announces.
    pub fn get_tile_vertices(&self) -> (r: Option<(Vec<DtVectorBits>, Vec<i32>)>)
        ensures
            match r {
                None => tile_geometry(self.data@) is None,
                Some(g) => tile_geometry(self.data@) == Some((g.0@, g.1@)),
            },
    {
        let data = self.data.as_slice();
        let n = data.len();
        if n < TILE_HEADER_SIZE {
            return None;
        }
        let header = Self::read_header(data);
        if header.vertcount <= 0 || header.polycount < 0 {
            return None;
        }
        let vc = header.vertcount as usize;
        let pc = header.polycount as usize;
        let needed: u64 = TILE_HEADER_SIZE as u64 + VERTEX_RECORD_SIZE as u64 * (vc as u64)
            + POLY_RECORD_SIZE as u64 * (pc as u64);
        if (n as u64) < needed {
            return None;
        }
        let ghost s = data@;
        let mut vertices: Vec<DtVectorBits> = Vec::new();
        let mut i: usize = 0;
        while i < vc
            invariant
                s == data@,
                s == self.data@,
                n == s.len(),
                vc > 0,
                vc == tile_vertcount(s),
                i <= vc,
                poly_offset(vc as int, pc as int) <= n,
                vertices@ == Seq::new(i as nat, |k: int| vertex_at(s, k)),
            decreases vc - i,
        {
            let off = TILE_HEADER_SIZE + VERTEX_RECORD_SIZE * i;
            let v = DtVectorBits {
                x: read_u32(data, off),
                y: read_u32(data, off + 4),
                z: read_u32(data, off + 8),
            };
            vertices.push(v);
            i = i + 1;
            assert(vertices@ =~= Seq::new(i as nat, |k: int| vertex_at(s, k)));
        }
        let mut indices: Vec<i32> = Vec::new();
        let mut j: usize = 0;
        while j < pc
            invariant
                s == data@,
                s == self.data@,
                n == s.len(),
                vc > 0,
                vc == tile_vertcount(s),
                pc == tile_polycount(s),
                j <= pc,
                poly_offset(vc as int, pc as int) <= n,
                indices@ == fan_indices(s, vc as int, j as nat),
                forall|q: int| 0 <= q < j ==> poly_vertex_count(s, vc as int, q) <= MAX_POLY_VERTICES,
            decreases pc - j,
        {
            let off = TILE_HEADER_SIZE + VERTEX_RECORD_SIZE * vc + POLY_RECORD_SIZE * j;
            let poly = Self::read_poly(data, off);
            let k = poly.vertex_count as usize;
            assert(k == poly_vertex_count(s, vc as int, j as int));
            if k > MAX_POLY_VERTICES {
                assert(0 <= j < pc && poly_vertex_count(s, vc as int, j as int) > MAX_POLY_VERTICES);
                return None;
            }
            let ghost before = indices@;
            if k >= 3 {
                let mut t: usize = 0;
                while t < k - 2
                    invariant
                        3 <= k <= MAX_POLY_VERTICES,
                        t <= k - 2,
                        poly_matches(poly, s, poly_offset(vc as int, j as int)),
                        indices@ == before + fan_prefix(s, vc as int, j as int, t as int),
                    decreases k - 2 - t,
                {
                    let ghost prev = indices@;
                    indices.push(poly.vertices[0] as i32);
                    indices.push(poly.vertices[t + 1] as i32);
                    indices.push(poly.vertices[t + 2] as i32);
                    assert(fan_prefix(s, vc as int, j as int, t + 1) =~= fan_prefix(
                        s,
                        vc as int,
                        j as int,
                        t as int,
                    ).push(poly.vertices[0] as i32).push(poly.vertices[t + 1] as i32).push(
                        poly.vertices[t + 2] as i32,
                    ));
                    t = t + 1;
                }
            }
            assert(fan_prefix(s, vc as int, j as int, fan_triangle_count(s, vc as int, j as int))
                =~= indices@.subrange(before.len() as int, indices@.len() as int));
            assert(indices@ =~= fan_indices(s, vc as int, (j + 1) as nat));
            j = j + 1;
        }
        Some((vertices, indices))
    }

    /// Decodes the polygon record at byte `off`.
    pub fn read_poly(navmesh_data: &[u8], off: usize) -> (r: DtPoly)
        requires
            off + POLY_RECORD_SIZE <= navmesh_data@.len(),
        ensures
            poly_matches(r, navmesh_data@, off as int),
    {
        let d = navmesh_data;
        let _n = d.len();
        let vertices = [
            read_u16(d, off + 4),
            read_u16(d, off + 6),
            read_u16(d, off + 8),
            read_u16(d, off + 10),
            read_u16(d, off + 12),
            read_u16(d, off + 14),
        ];
        let neighbors = [
            read_u16(d, off + 16),
            read_u16(d, off + 18),
            read_u16(d, off + 20),
            read_u16(d, off + 22),
            read_u16(d, off + 24),
            read_u16(d, off + 26),
        ];
        DtPoly {
            first_link: read_u32(d, off),
            vertices,
            neighbors,
            flags: read_u16(d, off + 28),
            vertex_count: d[off + 30],
            area_and_type: d[off + 31],
        }
    }
}

} // verus!
