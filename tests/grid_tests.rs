use ai_nav::grid::{dt_align4, DtArea, DtInt2, NavmeshBuildUtils};

#[test]
fn align4_rounds_up_to_multiples_of_four() {
    assert_eq!(dt_align4(0), 0);
    assert_eq!(dt_align4(1), 4);
    assert_eq!(dt_align4(3), 4);
    assert_eq!(dt_align4(4), 4);
    assert_eq!(dt_align4(100), 100);
    assert_eq!(dt_align4(101), 104);
    assert_eq!(dt_align4(12 * 5), 60);
    assert_eq!(dt_align4(-1), 0);
    assert_eq!(dt_align4(-4), -4);
    assert_eq!(dt_align4(-5), -4);
    assert_eq!(dt_align4(i32::MAX - 3), i32::MAX - 3);
}

#[test]
fn int2_construction_and_equality() {
    let a = DtInt2::new(3, -7);
    assert_eq!(a.x, 3);
    assert_eq!(a.y, -7);
    assert_eq!(DtInt2::zero(), DtInt2::new(0, 0));
    assert_ne!(a, DtInt2::new(-7, 3));
    assert_eq!(DtArea::NULL, 0);
    assert_eq!(DtArea::WALKABLE, 63);
}

#[test]
fn tiles_in_range_enumerates_the_rectangle_once() {
    let tiles = NavmeshBuildUtils::tiles_in_range(DtInt2::new(-1, 2), DtInt2::new(2, 4));
    assert_eq!(tiles.len(), 6);
    for y in 2..4 {
        for x in -1..2 {
            assert_eq!(tiles.iter().filter(|c| **c == DtInt2::new(x, y)).count(), 1);
        }
    }
}

#[test]
fn tiles_in_range_empty_when_end_not_past_start() {
    assert!(NavmeshBuildUtils::tiles_in_range(DtInt2::new(2, 2), DtInt2::new(2, 5)).is_empty());
    assert!(NavmeshBuildUtils::tiles_in_range(DtInt2::new(0, 3), DtInt2::new(4, 1)).is_empty());
}

#[test]
fn single_tile_round_trip() {
    // Tile (5, -3) spans [5, 6] x [-3, -2] in tile edges: floor of the
    // minimum and ceiling of the maximum give back that tile alone.
    let c = DtInt2::new(5, -3);
    let tiles = NavmeshBuildUtils::tiles_in_range(c, DtInt2::new(c.x + 1, c.y + 1));
    assert_eq!(tiles, vec![c]);
}

#[test]
fn overlap_covers_a_box_on_tile_boundaries() {
    // Box [0, 2] x [0, 1] in tile edges: floor/ceil give tiles x in [0, 2),
    // z in [0, 1); the corner (2, 1) lies on the closed footprint of (1, 0).
    let tiles = NavmeshBuildUtils::tiles_in_range(DtInt2::new(0, 0), DtInt2::new(2, 1));
    assert_eq!(tiles.len(), 2);
    assert!(tiles.contains(&DtInt2::new(1, 0)));
    assert!(tiles.contains(&DtInt2::new(0, 0)));
}
