use ai_nav::grid::DtInt2;
use ai_nav::tile::{DtVectorBits, NavmeshTile, TILE_HEADER_SIZE};

fn put_i32(buf: &mut Vec<u8>, v: i32) {
    buf.extend_from_slice(&v.to_le_bytes());
}

fn put_f32(buf: &mut Vec<u8>, v: f32) {
    buf.extend_from_slice(&v.to_bits().to_le_bytes());
}

/// A tile blob: header, vertices, then one polygon record per entry of
/// `polys` (its vertex indices).
fn tile_blob(x: i32, y: i32, verts: &[[f32; 3]], polys: &[Vec<u16>]) -> Vec<u8> {
    let mut b = Vec::new();
    put_i32(&mut b, 0x444e_4156); // magic
    put_i32(&mut b, 7); // version
    put_i32(&mut b, x);
    put_i32(&mut b, y);
    put_i32(&mut b, 0); // layer
    put_i32(&mut b, 0); // user id
    put_i32(&mut b, polys.len() as i32);
    put_i32(&mut b, verts.len() as i32);
    for _ in 0..10 {
        put_i32(&mut b, 0);
    }
    for v in [0.0f32, -1.0, 0.0, 30.0, 2.0, 30.0, 0.5] {
        put_f32(&mut b, v);
    }
    assert_eq!(b.len(), TILE_HEADER_SIZE);
    for v in verts {
        for c in v {
            put_f32(&mut b, *c);
        }
    }
    for p in polys {
        b.extend_from_slice(&0u32.to_le_bytes());
        for i in 0..6 {
            let v = if i < p.len() { p[i] } else { 0 };
            b.extend_from_slice(&v.to_le_bytes());
        }
        for _ in 0..6 {
            b.extend_from_slice(&0u16.to_le_bytes());
        }
        b.extend_from_slice(&1u16.to_le_bytes());
        b.push(p.len() as u8);
        b.push(63);
    }
    b
}

fn bits(v: [f32; 3]) -> DtVectorBits {
    DtVectorBits { x: v[0].to_bits(), y: v[1].to_bits(), z: v[2].to_bits() }
}

const SQUARE: [[f32; 3]; 4] = [[0.0, 1.0, 0.0], [0.0, 1.0, 30.0], [30.0, 1.0, 30.0], [30.0, 1.0, 0.0]];

#[test]
fn coord_comes_from_the_header() {
    let tile = NavmeshTile { data: tile_blob(3, -2, &SQUARE, &[vec![0, 1, 2, 3]]) };
    assert_eq!(tile.coord(), DtInt2::new(3, -2));
}

#[test]
fn header_fields_decode() {
    let data = tile_blob(1, 4, &SQUARE, &[vec![0, 1, 2, 3]]);
    let h = NavmeshTile::read_header(&data);
    assert_eq!(h.magic, 0x444e_4156);
    assert_eq!(h.version, 7);
    assert_eq!((h.x, h.y), (1, 4));
    assert_eq!(h.polycount, 1);
    assert_eq!(h.vertcount, 4);
    assert_eq!(f32::from_bits(h.bmin[1]), -1.0);
    assert_eq!(f32::from_bits(h.bmax[0]), 30.0);
    assert_eq!(f32::from_bits(h.bv_quant_factor), 0.5);
}

#[test]
fn square_tile_decodes_to_two_fan_triangles() {
    let tile = NavmeshTile { data: tile_blob(0, 0, &SQUARE, &[vec![0, 1, 2, 3]]) };
    let (verts, indices) = tile.get_tile_vertices().unwrap();
    assert_eq!(verts.len(), 4);
    assert!(verts.len() > 0);
    assert_eq!(verts[2], bits([30.0, 1.0, 30.0]));
    assert_eq!(indices, vec![0, 1, 2, 0, 2, 3]);
    assert_eq!(indices.len() / 3, 4 - 2);
}

#[test]
fn fan_triangulation_over_several_polygons() {
    let verts = [[0.0f32; 3]; 6];
    let polys = vec![vec![5, 4, 3, 2, 1], vec![0, 1, 2], vec![1, 2]];
    let tile = NavmeshTile { data: tile_blob(0, 0, &verts, &polys) };
    let (v, indices) = tile.get_tile_vertices().unwrap();
    assert_eq!(v.len(), 6);
    assert_eq!(indices, vec![5, 4, 3, 5, 3, 2, 5, 2, 1, 0, 1, 2]);
}

#[test]
fn decoding_leaves_the_tile_unchanged_and_repeats() {
    let tile = NavmeshTile { data: tile_blob(0, 0, &SQUARE, &[vec![0, 1, 2, 3]]) };
    let before = tile.data.clone();
    let first = tile.get_tile_vertices();
    let second = tile.get_tile_vertices();
    assert_eq!(first, second);
    assert_eq!(tile.data, before);
}

#[test]
fn no_data_cases() {
    assert!(NavmeshTile { data: Vec::new() }.get_tile_vertices().is_none());
    assert!(NavmeshTile { data: vec![0; 50] }.get_tile_vertices().is_none());
    let empty = NavmeshTile { data: tile_blob(0, 0, &[], &[]) };
    assert!(empty.get_tile_vertices().is_none());
    let mut truncated = tile_blob(0, 0, &SQUARE, &[vec![0, 1, 2, 3]]);
    truncated.truncate(truncated.len() - 1);
    assert!(NavmeshTile { data: truncated }.get_tile_vertices().is_none());
    let seven = vec![0, 1, 2, 3, 0, 1, 2];
    let too_many = NavmeshTile { data: tile_blob(0, 0, &SQUARE, &[seven]) };
    assert!(too_many.get_tile_vertices().is_none());
}
