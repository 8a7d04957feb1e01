use keith::geom::{Box2i, Vec2i};
use keith::packed::PackedPrimitiveIndex;
use keith::primitive::GpuPrimitiveKind;
use keith::tiles::{PreparedPrimitive, Tiles};

fn v(x: i64, y: i64) -> Vec2i {
    Vec2i { x, y }
}

fn b(min_x: i64, min_y: i64, max_x: i64, max_y: i64) -> Box2i {
    Box2i { min: v(min_x, min_y), max: v(max_x, max_y) }
}

#[test]
fn tiles() {
    let mut tiles = Tiles::default();
    tiles.update_size(v(32, 64));
    assert_eq!(tiles.dimensions, v(4, 8));
    assert!(tiles.primitives.is_empty());
    assert!(tiles.offset_and_count.is_empty());
    assert_eq!(tiles.offset_and_count.capacity(), 32);

    let prim_index = PackedPrimitiveIndex::new(42, GpuPrimitiveKind::Line, true, false);
    tiles.assign_to_tiles(
        &vec![PreparedPrimitive {
            // 8 x 16, exactly aligned on the tile grid => 2 tiles exactly
            aabb: b(8, 16, 16, 32),
            prim_index,
        }],
        // Large screen size, no effect in this test
        v(256, 128),
    );

    assert_eq!(tiles.primitives.len(), 2);
    assert_eq!(tiles.primitives[0], prim_index);
    assert_eq!(tiles.primitives[1], prim_index);

    assert_eq!(tiles.offset_and_count.len(), 32);
    for (idx, oc) in tiles.offset_and_count.iter().enumerate() {
        if idx == 9 || idx == 13 {
            assert_eq!(oc.count, 1);
            assert_eq!(oc.offset, if idx == 9 { 0 } else { 1 });
        } else {
            assert_eq!(oc.count, 0);
        }
    }
}

#[test]
fn update_size_rounds_up() {
    let mut tiles = Tiles::default();
    tiles.update_size(v(33, 1));
    // 33 pixels need 5 tiles of 8 pixels, 1 pixel needs 1 tile
    assert_eq!(tiles.dimensions, v(5, 1));
    assert_eq!(tiles.tile_size, v(8, 8));
    tiles.update_size(v(0, 0));
    assert_eq!(tiles.dimensions, v(0, 0));
}

#[test]
fn table_has_one_entry_per_tile() {
    let mut tiles = Tiles::default();
    tiles.update_size(v(17, 9));
    // 3 x 2 tiles
    assert_eq!(tiles.dimensions, v(3, 2));
    tiles.assign_to_tiles(&vec![], v(17, 9));
    assert_eq!(tiles.offset_and_count.len(), 6);
    for oc in &tiles.offset_and_count {
        assert_eq!(oc.count, 0);
    }
}

#[test]
fn binning_keeps_paint_order() {
    let mut tiles = Tiles::default();
    tiles.update_size(v(16, 16));
    let first = PackedPrimitiveIndex::new(0, GpuPrimitiveKind::Rect, false, false);
    let second = PackedPrimitiveIndex::new(6, GpuPrimitiveKind::Rect, false, false);
    // both primitives cover only tile (0, 0)
    tiles.assign_to_tiles(
        &vec![
            PreparedPrimitive { aabb: b(0, 0, 8, 8), prim_index: first },
            PreparedPrimitive { aabb: b(0, 0, 8, 8), prim_index: second },
        ],
        v(16, 16),
    );
    assert_eq!(tiles.offset_and_count[0].offset, 0);
    assert_eq!(tiles.offset_and_count[0].count, 2);
    // the first-drawn primitive stays first in the tile's run
    assert_eq!(tiles.primitives[0], first);
    assert_eq!(tiles.primitives[1], second);
    for idx in 1..4 {
        assert_eq!(tiles.offset_and_count[idx].count, 0);
    }
}

#[test]
fn edge_exclusion_is_per_axis() {
    let mut tiles = Tiles::default();
    tiles.update_size(v(32, 32));
    let p = PackedPrimitiveIndex::new(0, GpuPrimitiveKind::Rect, false, false);
    // max.x on a grid line (16), max.y off the grid line (17): the box
    // is excluded from the column past x = 16 but reaches the row of 17
    tiles.assign_to_tiles(&vec![PreparedPrimitive { aabb: b(8, 8, 16, 17), prim_index: p }], v(
        32,
        32,
    ));
    let mut covered: Vec<usize> = vec![];
    for (idx, oc) in tiles.offset_and_count.iter().enumerate() {
        if oc.count > 0 {
            covered.push(idx);
        }
    }
    // tiles (1,1), (1,2) and, conservatively from the ceil rule, (1,3)
    assert_eq!(covered, vec![5, 9, 13]);
}

#[test]
fn clamped_to_viewport() {
    let mut tiles = Tiles::default();
    tiles.update_size(v(16, 8));
    let p = PackedPrimitiveIndex::new(0, GpuPrimitiveKind::Line, false, false);
    // the box reaches far past the viewport; it is clamped to it, and the
    // clamped maximum (16, 8) lies on the grid so the far tiles are excluded
    tiles.assign_to_tiles(
        &vec![PreparedPrimitive { aabb: b(-100, -100, 100, 100), prim_index: p }],
        v(16, 8),
    );
    assert_eq!(tiles.offset_and_count.len(), 2);
    assert_eq!(tiles.offset_and_count[0].count, 1);
    assert_eq!(tiles.offset_and_count[1].count, 1);
    assert_eq!(tiles.primitives.len(), 2);
}
