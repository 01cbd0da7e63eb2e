use ai_nav::building::{BuildResultCode, NavmeshBuildResult, TileInputBuilder};
use ai_nav::grid::{DtArea, DtInt2};

#[test]
fn result_codes_map_both_ways() {
    let table = [
        (0, BuildResultCode::Success),
        (-1001, BuildResultCode::AreaInput),
        (-1000, BuildResultCode::VerticesInput),
        (-100, BuildResultCode::CreateBuilderFailed),
        (10, BuildResultCode::RcRasterizeTriangles),
        (60, BuildResultCode::RcBuildRegions),
        (110, BuildResultCode::ZeroVertCount),
        (120, BuildResultCode::NullVerts),
        (140, BuildResultCode::RcBuildPolyMeshDetail),
        (1010, BuildResultCode::CreateDetourMesh10),
        (1017, BuildResultCode::CreateDetourMesh17),
    ];
    for (code, outcome) in table {
        assert_eq!(BuildResultCode::from(code), outcome);
        assert_eq!(outcome.code(), code);
    }
    assert_eq!(BuildResultCode::Unknown.code(), 10000);
}

#[test]
fn unrecognised_codes_are_unknown_never_success() {
    for code in [1, -1, 5, 115, 1009, 1018, 10000, i32::MIN, i32::MAX] {
        assert_eq!(BuildResultCode::from_code(code), BuildResultCode::Unknown);
    }
}

#[test]
fn default_result() {
    let r = NavmeshBuildResult::default();
    assert!(!r.success);
    assert_eq!(r.result_code, BuildResultCode::Unknown);
    assert_eq!((r.tiles_built, r.vertice_count, r.triangle_count), (0, 0, 0));
    assert!(r.tile.is_none());
}

#[test]
fn engine_output_keeps_the_bytes_only_on_success() {
    let ok = NavmeshBuildResult::from_engine_output(true, 0, vec![1, 2, 3]);
    assert!(ok.success);
    assert_eq!(ok.result_code, BuildResultCode::Success);
    assert_eq!(ok.tile.unwrap().data, vec![1, 2, 3]);

    let empty = NavmeshBuildResult::from_engine_output(false, 110, Vec::new());
    assert!(!empty.success);
    assert_eq!(empty.result_code, BuildResultCode::ZeroVertCount);
    assert!(empty.tile.is_none());

    let flag_only = NavmeshBuildResult::from_engine_output(true, 0, Vec::new());
    assert!(flag_only.tile.is_none());
    let failed = NavmeshBuildResult::from_engine_output(false, 50, vec![9]);
    assert_eq!(failed.result_code, BuildResultCode::RcBuildDistanceField);
    assert!(failed.tile.is_none());
}

#[test]
fn append_offsets_indices_and_tags_triangles() {
    let mut input: TileInputBuilder<[i32; 3]> = TileInputBuilder::new(DtInt2::new(1, 2));
    input.append(&[[0, 0, 0], [1, 0, 0], [0, 0, 1]], &[0, 1, 2], DtArea::WALKABLE);
    input.append(&[[5, 0, 5], [6, 0, 5], [5, 0, 6], [6, 0, 6]], &[0, 1, 2, 1, 3, 2], 7);
    assert_eq!(input.coord, DtInt2::new(1, 2));
    assert_eq!(input.vertices.len(), 7);
    assert_eq!(input.indices, vec![0, 1, 2, 3, 4, 5, 4, 6, 5]);
    assert_eq!(input.areas, vec![DtArea::WALKABLE, 7, 7]);
}

#[test]
fn append_triangle_generates_sequential_indices() {
    let mut input: TileInputBuilder<[i32; 3]> = TileInputBuilder::new(DtInt2::zero());
    input.append_triangle(&[[0, 1, 0], [0, 1, 30], [30, 1, 30]], DtArea::WALKABLE);
    input.append_triangle(&[[0, 1, 0], [30, 1, 0], [30, 1, 30]], DtArea::WALKABLE);
    assert_eq!(input.indices, vec![0, 1, 2, 3, 4, 5]);
    assert_eq!(input.vertices[4], [30, 1, 0]);
    assert_eq!(input.areas, vec![DtArea::WALKABLE, DtArea::WALKABLE]);
}

#[test]
fn mismatched_area_count_is_an_area_input_failure() {
    let mut input: TileInputBuilder<[i32; 3]> = TileInputBuilder::new(DtInt2::zero());
    input.append_triangle(&[[0, 1, 0], [0, 1, 30], [30, 1, 30]], DtArea::WALKABLE);
    input.append_triangle(&[[0, 1, 0], [30, 1, 0], [30, 1, 30]], DtArea::WALKABLE);
    input.areas.pop();
    let r = NavmeshBuildResult::validate_input(&input).unwrap();
    assert_eq!(r.result_code, BuildResultCode::AreaInput);
    assert!(!r.success);
    assert!(r.tile.is_none());
}

#[test]
fn shared_vertices_are_a_vertices_input_failure() {
    let mut input: TileInputBuilder<[i32; 3]> = TileInputBuilder::new(DtInt2::zero());
    input.append(&[[0, 0, 0], [1, 0, 0], [0, 0, 1], [1, 0, 1]], &[0, 1, 2, 1, 3, 2], 63);
    let r = NavmeshBuildResult::validate_input(&input).unwrap();
    assert_eq!(r.result_code, BuildResultCode::VerticesInput);
}

#[test]
fn well_formed_input_passes_validation() {
    let mut input: TileInputBuilder<[i32; 3]> = TileInputBuilder::new(DtInt2::zero());
    input.append_triangle(&[[0, 1, 0], [0, 1, 30], [30, 1, 30]], DtArea::WALKABLE);
    assert!(NavmeshBuildResult::validate_input(&input).is_none());
}

#[test]
fn failed_result_carries_its_code() {
    let r = NavmeshBuildResult::failed(BuildResultCode::CreateBuilderFailed);
    assert!(!r.success);
    assert_eq!(r.result_code, BuildResultCode::CreateBuilderFailed);
    assert_eq!(r.result_code.code(), -100);
    assert!(r.tile.is_none());
}
