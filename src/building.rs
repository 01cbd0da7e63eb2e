use crate::grid::DtInt2;
use crate::tile::NavmeshTile;
use vstd::prelude::*;

verus! {

/// Outcome of a tile build. Some outcomes are decided locally (input checks),
/// the others are the engine's result codes. `ZeroVertCount` is common and
/// benign: the input held no walkable geometry for this tile.
#[derive(Clone, Copy, Debug, PartialEq, Eq, Structural)]
pub enum BuildResultCode {
    Unknown,
    Success,
    AreaInput,
    VerticesInput,
    CreateBuilderFailed,
    RcRasterizeTriangles,
    RcAllocCompactHeightfield,
    RcBuildCompactHeightfield,
    RcErodeWalkableArea,
    RcBuildDistanceField,
    RcBuildRegions,
    RcAllocContourSet,
    RcBuildContours,
    RcAllocPolyMesh,
    RcBuildPolyMesh,
    ZeroVertCount,
    NullVerts,
    RcAllocPolyMeshDetail,
    RcBuildPolyMeshDetail,
    CreateDetourMesh10,
    CreateDetourMesh11,
    CreateDetourMesh12,
    CreateDetourMesh13,
    CreateDetourMesh14,
    CreateDetourMesh15,
    CreateDetourMesh16,
    CreateDetourMesh17,
}

/// The numeric code of each outcome; `Unknown` stands for every code that no
/// other outcome has.
pub open spec fn code_of(c: BuildResultCode) -> int {
    match c {
        BuildResultCode::Unknown => 10000,
        BuildResultCode::Success => 0,
        BuildResultCode::AreaInput => -1001,
        BuildResultCode::VerticesInput => -1000,
        BuildResultCode::CreateBuilderFailed => -100,
        BuildResultCode::RcRasterizeTriangles => 10,
        BuildResultCode::RcAllocCompactHeightfield => 20,
        BuildResultCode::RcBuildCompactHeightfield => 30,
        BuildResultCode::RcErodeWalkableArea => 40,
        BuildResultCode::RcBuildDistanceField => 50,
        BuildResultCode::RcBuildRegions => 60,
        BuildResultCode::RcAllocContourSet => 70,
        BuildResultCode::RcBuildContours => 80,
        BuildResultCode::RcAllocPolyMesh => 90,
        BuildResultCode::RcBuildPolyMesh => 100,
        BuildResultCode::ZeroVertCount => 110,
        BuildResultCode::NullVerts => 120,
        BuildResultCode::RcAllocPolyMeshDetail => 130,
        BuildResultCode::RcBuildPolyMeshDetail => 140,
        BuildResultCode::CreateDetourMesh10 => 1010,
        BuildResultCode::CreateDetourMesh11 => 1011,
        BuildResultCode::CreateDetourMesh12 => 1012,
        BuildResultCode::CreateDetourMesh13 => 1013,
        BuildResultCode::CreateDetourMesh14 => 1014,
        BuildResultCode::CreateDetourMesh15 => 1015,
        BuildResultCode::CreateDetourMesh16 => 1016,
        BuildResultCode::CreateDetourMesh17 => 1017,
    }
}

/// The outcome that a numeric code stands for: the one whose code it is, or
/// `Unknown` for a code that no other outcome has.
pub open spec fn outcome_of_code(code: int) -> BuildResultCode {
    if code == 0 {
        BuildResultCode::Success
    } else if code == -1001 {
        BuildResultCode::AreaInput
    } else if code == -1000 {
        BuildResultCode::VerticesInput
    } else if code == -100 {
        BuildResultCode::CreateBuilderFailed
    } else if code == 10 {
        BuildResultCode::RcRasterizeTriangles
    } else if code == 20 {
        BuildResultCode::RcAllocCompactHeightfield
    } else if code == 30 {
        BuildResultCode::RcBuildCompactHeightfield
    } else if code == 40 {
        BuildResultCode::RcErodeWalkableArea
    } else if code == 50 {
        BuildResultCode::RcBuildDistanceField
    } else if code == 60 {
        BuildResultCode::RcBuildRegions
    } else if code == 70 {
        BuildResultCode::RcAllocContourSet
    } else if code == 80 {
        BuildResultCode::RcBuildContours
    } else if code == 90 {
        BuildResultCode::RcAllocPolyMesh
    } else if code == 100 {
        BuildResultCode::RcBuildPolyMesh
    } else if code == 110 {
        BuildResultCode::ZeroVertCount
    } else if code == 120 {
        BuildResultCode::NullVerts
    } else if code == 130 {
        BuildResultCode::RcAllocPolyMeshDetail
    } else if code == 140 {
        BuildResultCode::RcBuildPolyMeshDetail
    } else if code == 1010 {
        BuildResultCode::CreateDetourMesh10
    } else if code == 1011 {
        BuildResultCode::CreateDetourMesh11
    } else if code == 1012 {
        BuildResultCode::CreateDetourMesh12
    } else if code == 1013 {
        BuildResultCode::CreateDetourMesh13
    } else if code == 1014 {
        BuildResultCode::CreateDetourMesh14
    } else if code == 1015 {
        BuildResultCode::CreateDetourMesh15
    } else if code == 1016 {
        BuildResultCode::CreateDetourMesh16
    } else if code == 1017 {
        BuildResultCode::CreateDetourMesh17
    } else {
        BuildResultCode::Unknown
    }
}

/// Every outcome but `Unknown` is recovered from its code.
pub proof fn lemma_code_round_trip(c: BuildResultCode)
    requires
        c != BuildResultCode::Unknown,
    ensures
        outcome_of_code(code_of(c)) == c,
{
}

impl BuildResultCode {
    /// The numeric code of this outcome.
    pub fn code(&self) -> (r: i32)
        ensures
            r == code_of(*self),
    {
        match self {
            BuildResultCode::Unknown => 10000,
            BuildResultCode::Success => 0,
            BuildResultCode::AreaInput => -1001,
            BuildResultCode::VerticesInput => -1000,
            BuildResultCode::CreateBuilderFailed => -100,
            BuildResultCode::RcRasterizeTriangles => 10,
            BuildResultCode::RcAllocCompactHeightfield => 20,
            BuildResultCode::RcBuildCompactHeightfield => 30,
            BuildResultCode::RcErodeWalkableArea => 40,
            BuildResultCode::RcBuildDistanceField => 50,
            BuildResultCode::RcBuildRegions => 60,
            BuildResultCode::RcAllocContourSet => 70,
            BuildResultCode::RcBuildContours => 80,
            BuildResultCode::RcAllocPolyMesh => 90,
            BuildResultCode::RcBuildPolyMesh => 100,
            BuildResultCode::ZeroVertCount => 110,
            BuildResultCode::NullVerts => 120,
            BuildResultCode::RcAllocPolyMeshDetail => 130,
            BuildResultCode::RcBuildPolyMeshDetail => 140,
            BuildResultCode::CreateDetourMesh10 => 1010,
            BuildResultCode::CreateDetourMesh11 => 1011,
            BuildResultCode::CreateDetourMesh12 => 1012,
            BuildResultCode::CreateDetourMesh13 => 1013,
            BuildResultCode::CreateDetourMesh14 => 1014,
            BuildResultCode::CreateDetourMesh15 => 1015,
            BuildResultCode::CreateDetourMesh16 => 1016,
            BuildResultCode::CreateDetourMesh17 => 1017,
        }
    }

    /// The outcome for a numeric code; an unrecognised code gives `Unknown`,
    /// never `Success`.
    pub fn from_code(item: i32) -> (r: BuildResultCode)
        ensures
            r == outcome_of_code(item as int),
            r == BuildResultCode::Success <==> item == 0,
    {
        let r = match item {
            0 => BuildResultCode::Success,
            -1001 => BuildResultCode::AreaInput,
            -1000 => BuildResultCode::VerticesInput,
            -100 => BuildResultCode::CreateBuilderFailed,
            10 => BuildResultCode::RcRasterizeTriangles,
            20 => BuildResultCode::RcAllocCompactHeightfield,
            30 => BuildResultCode::RcBuildCompactHeightfield,
            40 => BuildResultCode::RcErodeWalkableArea,
            50 => BuildResultCode::RcBuildDistanceField,
            60 => BuildResultCode::RcBuildRegions,
            70 => BuildResultCode::RcAllocContourSet,
            80 => BuildResultCode::RcBuildContours,
            90 => BuildResultCode::RcAllocPolyMesh,
            100 => BuildResultCode::RcBuildPolyMesh,
            110 => BuildResultCode::ZeroVertCount,
            120 => BuildResultCode::NullVerts,
            130 => BuildResultCode::RcAllocPolyMeshDetail,
            140 => BuildResultCode::RcBuildPolyMeshDetail,
            1010 => BuildResultCode::CreateDetourMesh10,
            1011 => BuildResultCode::CreateDetourMesh11,
            1012 => BuildResultCode::CreateDetourMesh12,
            1013 => BuildResultCode::CreateDetourMesh13,
            1014 => BuildResultCode::CreateDetourMesh14,
            1015 => BuildResultCode::CreateDetourMesh15,
            1016 => BuildResultCode::CreateDetourMesh16,
            1017 => BuildResultCode::CreateDetourMesh17,
            _ => BuildResultCode::Unknown,
        };
        r
    }
}

impl From<i32> for BuildResultCode {
    fn from(item: i32) -> (r: BuildResultCode) {
        BuildResultCode::from_code(item)
    }
}

impl vstd::std_specs::convert::FromSpecImpl<i32> for BuildResultCode {
    open spec fn obeys_from_spec() -> bool {
        true
    }

    open spec fn from_spec(v: i32) -> BuildResultCode {
        outcome_of_code(v as int)
    }
}

/// Result of building a navmesh tile.
#[derive(Clone, Debug)]
pub struct NavmeshBuildResult {
    pub success: bool,
    pub result_code: BuildResultCode,
    pub tiles_built: i32,
    pub vertice_count: i32,
    pub triangle_count: i32,
    pub tile: Option<NavmeshTile>,
}

/// The result for an outcome decided before any tile was produced.
pub open spec fn is_failed_result(r: NavmeshBuildResult, code: BuildResultCode) -> bool {
    &&& !r.success
    &&& r.result_code == code
    &&& r.tiles_built == 0
    &&& r.vertice_count == 0
    &&& r.triangle_count == 0
    &&& r.tile is None
}

impl NavmeshBuildResult {
    pub fn default() -> (r: Self)
        ensures
            is_failed_result(r, BuildResultCode::Unknown),
    {
        NavmeshBuildResult {
            success: false,
            result_code: BuildResultCode::Unknown,
            tiles_built: 0,
            vertice_count: 0,
            triangle_count: 0,
            tile: None,
        }
    }

    /// A failed result carrying `code`.
    pub fn failed(code: BuildResultCode) -> (r: Self)
        ensures
            is_failed_result(r, code),
    {
        let mut r = Self::default();
        r.result_code = code;
        r
    }

    /// The result of one engine run, from what the engine reported: its
    /// success flag, its numeric code, and the bytes it produced (copied out
    /// of the engine's transient buffer). A tile is kept only where the code
    /// is zero, the flag is set and there are bytes.
    pub fn from_engine_output(success: bool, error: i32, data: Vec<u8>) -> (r: Self)
        ensures
            r.success == success,
            r.result_code == outcome_of_code(error as int),
            r.tiles_built == 0,
            r.vertice_count == 0,
            r.triangle_count == 0,
            (error == 0 && success && data@.len() > 0) ==> (r.tile matches Some(t) && t.data@
                == data@),
            !(error == 0 && success && data@.len() > 0) ==> r.tile is None,
    {
        let mut r = Self::default();
        r.result_code = BuildResultCode::from(error);
        r.success = success;
        if error == 0 && success && data.len() > 0 {
            r.tile = Some(NavmeshTile { data });
        }
        r
    }
}

/// Input geometry for one tile: vertices, triangle indices (three per
/// triangle) and one area tag per triangle. `V` is the vertex type.
pub struct TileInputBuilder<V> {
    pub coord: DtInt2,
    pub vertices: Vec<V>,
    pub indices: Vec<i32>,
    pub areas: Vec<u8>,
}

/// `n` copies of `area`.
pub open spec fn area_tags(area: u8, n: int) -> Seq<u8> {
    Seq::new(n as nat, |_i: int| area)
}

/// `indices`, each shifted by `base`.
pub open spec fn shifted(indices: Seq<i32>, base: int) -> Seq<i32> {
    Seq::new(indices.len(), |i: int| (indices[i] + base) as i32)
}

/// `n` consecutive indices from `base`.
pub open spec fn sequential(base: int, n: int) -> Seq<i32> {
    Seq::new(n as nat, |i: int| (base + i) as i32)
}

impl<V: Copy> TileInputBuilder<V> {
    pub fn new(coord: DtInt2) -> (r: Self)
        ensures
            r.coord == coord,
            r.vertices@.len() == 0,
            r.indices@.len() == 0,
            r.areas@.len() == 0,
    {
        TileInputBuilder { coord, vertices: Vec::new(), indices: Vec::new(), areas: Vec::new() }
    }

    /// Appends a mesh: its vertices, its indices shifted by the number of
    /// vertices already held (so that they keep pointing at their own
    /// vertices), and `area` once per triangle (`indices.len() / 3`).
    pub fn append(&mut self, vertices: &[V], indices: &[i32], area: u8)
        requires
            old(self).vertices@.len() <= i32::MAX,
            forall|i: int|
                0 <= i < indices@.len() ==> i32::MIN <= #[trigger] indices@[i] + old(self).vertices@.len()
                    <= i32::MAX,
        ensures
            final(self).coord == old(self).coord,
            final(self).vertices@ == old(self).vertices@ + vertices@,
            final(self).indices@ == old(self).indices@ + shifted(
                indices@,
                old(self).vertices@.len() as int,
            ),
            final(self).areas@ == old(self).areas@ + area_tags(area, indices@.len() as int / 3),
    {
        let vbase: i32 = self.vertices.len() as i32;
        let ghost v0 = self.vertices@;
        let ghost i0 = self.indices@;
        let ghost a0 = self.areas@;
        let mut i: usize = 0;
        while i < vertices.len()
            invariant
                i <= vertices@.len(),
                self.coord == old(self).coord,
                self.indices@ == i0,
                self.areas@ == a0,
                self.vertices@ == v0 + vertices@.subrange(0, i as int),
            decreases vertices@.len() - i,
        {
            self.vertices.push(vertices[i]);
            i = i + 1;
            assert(self.vertices@ =~= v0 + vertices@.subrange(0, i as int));
        }
        assert(vertices@.subrange(0, vertices@.len() as int) =~= vertices@);
        let mut j: usize = 0;
        while j < indices.len()
            invariant
                j <= indices@.len(),
                vbase == v0.len(),
                self.coord == old(self).coord,
                self.vertices@ == v0 + vertices@,
                self.areas@ == a0,
                self.indices@ == i0 + shifted(indices@.subrange(0, j as int), vbase as int),
                forall|i: int|
                    0 <= i < indices@.len() ==> i32::MIN <= #[trigger] indices@[i] + v0.len() <= i32::MAX,
            decreases indices@.len() - j,
        {
            self.indices.push(indices[j] + vbase);
            j = j + 1;
            assert(self.indices@ =~= i0 + shifted(indices@.subrange(0, j as int), vbase as int));
        }
        assert(indices@.subrange(0, indices@.len() as int) =~= indices@);
        let triangle_count = indices.len() / 3;
        let mut t: usize = 0;
        while t < triangle_count
            invariant
                t <= triangle_count,
                triangle_count == indices@.len() / 3,
                self.coord == old(self).coord,
                self.vertices@ == v0 + vertices@,
                self.indices@ == i0 + shifted(indices@, vbase as int),
                self.areas@ == a0 + area_tags(area, t as int),
            decreases triangle_count - t,
        {
            self.areas.push(area);
            t = t + 1;
            assert(self.areas@ =~= a0 + area_tags(area, t as int));
        }
    }

    /// Appends one polygon given by its vertices alone: indices are
    /// generated in order, and `area` is appended once.
    pub fn append_triangle(&mut self, vertices: &[V], area: u8)
        requires
            old(self).vertices@.len() + vertices@.len() <= i32::MAX,
        ensures
            final(self).coord == old(self).coord,
            final(self).vertices@ == old(self).vertices@ + vertices@,
            final(self).indices@ == old(self).indices@ + sequential(
                old(self).vertices@.len() as int,
                vertices@.len() as int,
            ),
            final(self).areas@ == old(self).areas@.push(area),
    {
        let vbase = self.vertices.len();
        let ghost v0 = self.vertices@;
        let ghost i0 = self.indices@;
        let mut i: usize = 0;
        while i < vertices.len()
            invariant
                i <= vertices@.len(),
                vbase == v0.len(),
                v0.len() + vertices@.len() <= i32::MAX,
                self.coord == old(self).coord,
                self.areas@ == old(self).areas@,
                self.vertices@ == v0 + vertices@.subrange(0, i as int),
                self.indices@ == i0 + sequential(vbase as int, i as int),
            decreases vertices@.len() - i,
        {
            self.vertices.push(vertices[i]);
            self.indices.push((vbase + i) as i32);
            i = i + 1;
            assert(self.vertices@ =~= v0 + vertices@.subrange(0, i as int));
            assert(self.indices@ =~= i0 + sequential(vbase as int, i as int));
        }
        assert(vertices@.subrange(0, vertices@.len() as int) =~= vertices@);
        self.areas.push(area);
    }
}

/// The structural checks made on a tile input before the engine is called:
/// one area tag per triangle, then one vertex per index slot.
pub open spec fn input_check(vertex_count: int, index_count: int, area_count: int) -> Option<
    BuildResultCode,
> {
    if area_count != index_count / 3 {
        Some(BuildResultCode::AreaInput)
    } else if vertex_count != index_count {
        Some(BuildResultCode::VerticesInput)
    } else {
        None
    }
}

impl NavmeshBuildResult {
    /// The failure that a tile input meets before reaching the engine, if
    /// any: `AreaInput` where the area tags are not one per triangle, else
    /// `VerticesInput` where vertices and indices differ in number.
    pub fn validate_input<V: Copy>(input: &TileInputBuilder<V>) -> (r: Option<NavmeshBuildResult>)
        ensures
            match input_check(
                input.vertices@.len() as int,
                input.indices@.len() as int,
                input.areas@.len() as int,
            ) {
                None => r is None,
                Some(code) => r matches Some(res) && is_failed_result(res, code),
            },
    {
        if input.areas.len() != input.indices.len() / 3 {
            return Some(NavmeshBuildResult::failed(BuildResultCode::AreaInput));
        }
        if input.vertices.len() != input.indices.len() {
            return Some(NavmeshBuildResult::failed(BuildResultCode::VerticesInput));
        }
        None
    }
}

} // verus!
