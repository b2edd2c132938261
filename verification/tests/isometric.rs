use card_game::isometric_manipulation::{
    map_to_world, world_to_map, GridCell, IsoMapper, WorldPos,
};

fn cell(x: i64, y: i64) -> GridCell {
    GridCell { x, y }
}

#[test]
fn map_to_world_origin() {
    // i_hat = (16, 8), j_hat = (-16, 8), offset = (-16, 0) at tile 32x32.
    let w = map_to_world(cell(0, 0));
    assert_eq!((w.x, w.y), (-16, 0));
}

#[test]
fn map_to_world_axis_cells() {
    let w = map_to_world(cell(1, 0));
    assert_eq!((w.x, w.y), (0, 8));
    let w = map_to_world(cell(0, 1));
    assert_eq!((w.x, w.y), (-32, 8));
    let w = map_to_world(cell(2, 3));
    assert_eq!((w.x, w.y), (-32, 40));
}

#[test]
fn round_trip_over_world_bounds() {
    for x in -20..=20i64 {
        for y in -20..=20i64 {
            let c = cell(x, y);
            let w = map_to_world(c);
            let back = world_to_map(w);
            assert_eq!((back.x, back.y), (x, y));
        }
    }
}

#[test]
fn round_trip_far_cells() {
    for &(x, y) in &[(1000, -1000), (123456, 654321), (-99999, 7)] {
        let c = cell(x, y);
        let back = world_to_map(map_to_world(c));
        assert_eq!((back.x, back.y), (x, y));
    }
}

#[test]
fn world_to_map_truncates_toward_zero() {
    // The exact preimage of the origin cell spans half-open intervals;
    // points close to the origin map to cell (0, 0).
    let back = world_to_map(WorldPos { x: 0, y: 0 });
    assert_eq!((back.x, back.y), (0, 0));
    let back = world_to_map(WorldPos { x: -16, y: 0 });
    assert_eq!((back.x, back.y), (0, 0));
}

#[test]
fn mapper_rejects_degenerate_tile_sizes() {
    assert!(IsoMapper::new(0, 32).is_err());
    assert!(IsoMapper::new(32, 0).is_err());
    assert!(IsoMapper::new(31, 32).is_err());
    assert!(IsoMapper::new(32, 30).is_err());
    assert!(IsoMapper::new(32, 32).is_ok());
    assert!(IsoMapper::new(64, 16).is_ok());
}

#[test]
fn mapper_round_trip_other_tile_size() {
    let m = IsoMapper::new(64, 16).unwrap();
    for x in -5..=5i64 {
        for y in -5..=5i64 {
            let c = cell(x, y);
            let back = m.world_to_map(m.map_to_world(c));
            assert_eq!((back.x, back.y), (x, y));
        }
    }
}
