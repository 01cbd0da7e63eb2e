use ai_nav::grid::DtInt2;
use ai_nav::query::path_point_limit;
use ai_nav::navmesh::{NavQueryPool, Navmesh, TileUpdate};
use ai_nav::tile::{NavmeshTile, TILE_HEADER_SIZE};

fn tile_at(x: i32, y: i32) -> NavmeshTile {
    let mut data = vec![0u8; TILE_HEADER_SIZE];
    data[8..12].copy_from_slice(&x.to_le_bytes());
    data[12..16].copy_from_slice(&y.to_le_bytes());
    NavmeshTile { data }
}

#[test]
fn pool_starts_full_and_hands_out_oldest_first() {
    let mut pool = NavQueryPool::new(vec![10u32, 11, 12]);
    assert!(pool.is_full());
    assert_eq!(pool.capacity(), 3);
    assert_eq!(pool.pop(), Some(10));
    assert!(!pool.is_full());
    assert_eq!(pool.len(), 2);
    pool.push(10);
    assert!(pool.is_full());
    assert_eq!(pool.pop(), Some(11));
}

#[test]
fn pool_push_on_full_pool_drops_the_handle() {
    let mut pool = NavQueryPool::new(vec![1u32]);
    pool.push(2);
    assert_eq!(pool.len(), 1);
    assert_eq!(pool.pop(), Some(1));
    assert_eq!(pool.pop(), None);
    assert_eq!(pool.len(), 0);
}

#[test]
fn pool_creation_is_all_or_nothing() {
    let pool = NavQueryPool::from_created(vec![Some(1u32), Some(2), Some(3)]).unwrap();
    assert!(pool.is_full());
    assert_eq!(pool.capacity(), 3);
    assert!(NavQueryPool::from_created(vec![Some(1u32), None, Some(3)]).is_none());
    let empty: Option<NavQueryPool<u32>> = NavQueryPool::from_created(Vec::new());
    assert!(empty.unwrap().is_full());
}

#[test]
fn pool_clear_drains_every_handle() {
    let mut pool = NavQueryPool::new(vec![1u32, 2]);
    pool.clear();
    assert_eq!(pool.len(), 0);
    assert_eq!(pool.capacity(), 2);
    assert!(!pool.is_full());
}

#[test]
fn mutation_needs_every_handle_back() {
    let mut pool = NavQueryPool::new(vec![1u32, 2, 3]);
    let mut navmesh = Navmesh::new();
    let a = pool.pop().unwrap();
    let b = pool.pop().unwrap();
    assert_eq!(navmesh.add_or_replace_tile(&pool, &tile_at(0, 0)), TileUpdate::NotQuiescent);
    pool.push(a);
    assert_eq!(navmesh.add_or_replace_tile(&pool, &tile_at(0, 0)), TileUpdate::NotQuiescent);
    assert_eq!(navmesh.tile_count(), 0);
    pool.push(b);
    assert_eq!(
        navmesh.add_or_replace_tile(&pool, &tile_at(0, 0)),
        TileUpdate::Load { coord: DtInt2::new(0, 0), replaced: false }
    );
    let c = pool.pop().unwrap();
    assert!(!navmesh.remove_tile(&pool, &DtInt2::new(0, 0)));
    assert!(navmesh.has_tile(&DtInt2::new(0, 0)));
    pool.push(c);
    assert!(navmesh.remove_tile(&pool, &DtInt2::new(0, 0)));
    assert_eq!(navmesh.tile_count(), 0);
}

#[test]
fn replacing_a_tile_keeps_one_entry_per_coordinate() {
    let pool = NavQueryPool::new(vec![1u32]);
    let mut navmesh = Navmesh::new();
    assert_eq!(
        navmesh.add_or_replace_tile(&pool, &tile_at(2, -1)),
        TileUpdate::Load { coord: DtInt2::new(2, -1), replaced: false }
    );
    assert_eq!(
        navmesh.add_or_replace_tile(&pool, &tile_at(2, -1)),
        TileUpdate::Load { coord: DtInt2::new(2, -1), replaced: true }
    );
    navmesh.add_or_replace_tile(&pool, &tile_at(3, -1));
    assert_eq!(navmesh.tile_count(), 2);
    assert!(navmesh.remove_tile(&pool, &DtInt2::new(2, -1)));
    assert!(!navmesh.remove_tile(&pool, &DtInt2::new(2, -1)));
    assert!(navmesh.has_tile(&DtInt2::new(3, -1)));
    assert_eq!(navmesh.tile_count(), 1);
}

#[test]
fn short_tile_data_is_malformed() {
    let pool = NavQueryPool::new(vec![1u32]);
    let mut navmesh = Navmesh::new();
    let tile = NavmeshTile { data: vec![0; 20] };
    assert_eq!(navmesh.add_or_replace_tile(&pool, &tile), TileUpdate::Malformed);
    assert_eq!(navmesh.tile_count(), 0);
}

#[test]
fn removing_an_absent_tile_fails() {
    let pool = NavQueryPool::new(vec![1u32]);
    let mut navmesh = Navmesh::new();
    assert!(!navmesh.remove_tile(&pool, &DtInt2::new(4, 4)));
}

#[test]
fn ceil_pow2_values() {
    assert_eq!(Navmesh::ceil_pow2(0), 0);
    assert_eq!(Navmesh::ceil_pow2(-5), 0);
    assert_eq!(Navmesh::ceil_pow2(1), 1);
    assert_eq!(Navmesh::ceil_pow2(2), 2);
    assert_eq!(Navmesh::ceil_pow2(3), 4);
    assert_eq!(Navmesh::ceil_pow2(1000), 1024);
    assert_eq!(Navmesh::ceil_pow2(1024), 1024);
    assert_eq!(Navmesh::ceil_pow2(0x4000_0000), 0x4000_0000);
}

#[test]
fn tile_bits_for_a_map() {
    // A 2048-unit map of 64-cell tiles of 0.3 units is ceil(2048 / 19.2) = 107
    // tiles wide: 11449 tiles need 14 address bits.
    let tiles_per_edge = (2048.0f32 / (64.0 * 0.3)).ceil() as i32;
    assert_eq!(tiles_per_edge, 107);
    assert_eq!(Navmesh::max_tile_bits(tiles_per_edge), 14);
    assert_eq!(Navmesh::max_tile_bits(1), 0);
    assert_eq!(Navmesh::max_tile_bits(2), 2);
    // A ratio of 2.5 is 3 tiles per edge: 9 tiles, 4 bits.
    assert_eq!(Navmesh::max_tile_bits(3), 4);
    assert_eq!(Navmesh::max_tile_bits(0x8000), 30);
}

#[test]
fn path_points_are_capped_by_the_buffer() {
    assert_eq!(path_point_limit(512, 256), 256);
    assert_eq!(path_point_limit(100, 256), 100);
    assert_eq!(path_point_limit(256, 256), 256);
}
