use keith::batch::{prepare_frame, PrimitiveBatch};
use keith::geom::{Box2i, Vec2i};
use keith::primitive::{LinePrimitive, Primitive, RectPrimitive, Slot, TextPrimitive};
use keith::scaling::ImageScaling;
use keith::text::{GlyphData, ResolvedText};
use keith::tiles::Tiles;

fn v(x: i64, y: i64) -> Vec2i {
    Vec2i { x, y }
}

fn rect_prim(min: Vec2i, max: Vec2i, image: Option<u64>) -> Primitive {
    Primitive::Rect(RectPrimitive {
        rect: Box2i { min, max },
        radius: 0,
        color: 1,
        image,
        image_size: if image.is_some() { v(8, 8) } else { v(0, 0) },
        image_scaling: ImageScaling::Uniform { num: 1, den: 1 },
        flip_x: false,
        flip_y: false,
        border_width: 0,
        border_color: 0,
    })
}

fn line_prim(start: Vec2i, end: Vec2i) -> Primitive {
    Primitive::Line(LinePrimitive {
        start,
        end,
        color: 2,
        thickness: 2,
        border_width: 0,
        border_color: 0,
    })
}

struct Frame {
    tiles: Tiles,
    buffer: Vec<Slot>,
    batches: Vec<PrimitiveBatch>,
}

fn run(prims: Vec<Primitive>, texts: Vec<ResolvedText>, screen: Vec2i, align: u32) -> Frame {
    let mut tiles = Tiles::default();
    tiles.update_size(screen);
    let mut buffer: Vec<Slot> = vec![];
    let mut batches: Vec<PrimitiveBatch> = vec![];
    prepare_frame(
        &prims,
        &texts,
        &mut tiles,
        &mut buffer,
        &mut batches,
        screen,
        v(0, 0),
        1,
        align,
    );
    Frame { tiles, buffer, batches }
}

#[test]
fn empty_frame_emits_nothing() {
    let f = run(vec![], vec![], v(32, 32), 1);
    assert!(f.buffer.is_empty());
    assert!(f.batches.is_empty());
    assert!(f.tiles.primitives.is_empty());
    assert!(f.tiles.offset_and_count.is_empty());
}

#[test]
fn unresolved_text_frame_emits_nothing() {
    let text = Primitive::Text(TextPrimitive {
        id: 4,
        rect: Box2i { min: v(0, 0), max: v(0, 0) },
    });
    let f = run(vec![text], vec![], v(32, 32), 1);
    assert!(f.buffer.is_empty());
    assert!(f.batches.is_empty());
    assert!(f.tiles.primitives.is_empty());
}

#[test]
fn untextured_never_breaks_batches() {
    // untextured line, textured rect, untextured line, same textured rect:
    // everything merges into one batch carrying the texture
    let prims = vec![
        line_prim(v(0, 0), v(8, 8)),
        rect_prim(v(0, 0), v(8, 8), Some(5)),
        line_prim(v(8, 8), v(16, 16)),
        rect_prim(v(8, 0), v(16, 8), Some(5)),
    ];
    let f = run(prims, vec![], v(16, 16), 1);
    assert_eq!(f.batches.len(), 1);
    assert_eq!(f.batches[0].image, Some(5));
    assert_eq!(f.batches[0].oc_offset, 0);
    // one window entry per tile of the 2 x 2 grid
    assert_eq!(f.batches[0].oc_count, 4);
    assert_eq!(f.tiles.offset_and_count.len(), 4);
}

#[test]
fn different_textures_always_break() {
    let prims = vec![
        rect_prim(v(0, 0), v(8, 8), Some(5)),
        rect_prim(v(8, 0), v(16, 8), Some(6)),
    ];
    let f = run(prims, vec![], v(16, 8), 1);
    assert_eq!(f.batches.len(), 2);
    assert_eq!(f.batches[0].image, Some(5));
    assert_eq!(f.batches[1].image, Some(6));
    // each batch gets its own full window of the 2 x 1 grid
    assert_eq!(f.batches[0].oc_offset, 0);
    assert_eq!(f.batches[0].oc_count, 2);
    assert_eq!(f.batches[1].oc_offset, 2);
    assert_eq!(f.batches[1].oc_count, 2);
    assert_eq!(f.tiles.offset_and_count.len(), 4);
    // first batch covers tile 0 only, second batch tile 1 only
    assert_eq!(f.tiles.offset_and_count[0].count, 1);
    assert_eq!(f.tiles.offset_and_count[1].count, 0);
    assert_eq!(f.tiles.offset_and_count[2].count, 0);
    assert_eq!(f.tiles.offset_and_count[3].count, 1);
}

#[test]
fn batch_windows_are_aligned() {
    let prims = vec![
        rect_prim(v(0, 0), v(8, 8), Some(5)),
        rect_prim(v(0, 0), v(8, 8), Some(6)),
    ];
    // 1 x 1 grid, alignment of 8 entries: the second window starts at 8
    let f = run(prims, vec![], v(8, 8), 8);
    assert_eq!(f.batches.len(), 2);
    assert_eq!(f.batches[0].oc_offset, 0);
    assert_eq!(f.batches[0].oc_count, 1);
    assert_eq!(f.batches[1].oc_offset, 8);
    assert_eq!(f.batches[1].oc_count, 1);
    // padding entries between the windows are zeroed
    assert_eq!(f.tiles.offset_and_count.len(), 9);
    for i in 1..8 {
        assert_eq!(f.tiles.offset_and_count[i].count, 0);
        assert_eq!(f.tiles.offset_and_count[i].offset, 0);
    }
}

#[test]
fn buffer_preserves_input_order() {
    // serialization appends strictly in primitive order: 6 rows for the
    // line, then 6 for the rectangle; packed indices carry those offsets
    let prims = vec![
        line_prim(v(0, 0), v(4, 4)),
        rect_prim(v(0, 0), v(4, 4), None),
    ];
    let f = run(prims, vec![], v(8, 8), 1);
    assert_eq!(f.buffer.len(), 12);
    assert_eq!(f.batches.len(), 1);
    // both primitives cover the single tile, in paint order
    assert_eq!(f.tiles.offset_and_count[0].count, 2);
    assert_eq!(f.tiles.primitives[0].index(), 0);
    assert_eq!(f.tiles.primitives[1].index(), 6);
    assert!(!f.tiles.primitives[0].is_textured());
    assert_eq!(f.tiles.primitives[0].kind(), keith::primitive::GpuPrimitiveKind::Line);
    assert_eq!(f.tiles.primitives[1].kind(), keith::primitive::GpuPrimitiveKind::Rect);
}

#[test]
fn glyphs_carry_their_own_row_offsets() {
    let glyph = |offset: Vec2i, atlas: u64| GlyphData {
        offset,
        size: v(8, 8),
        color: 0,
        uv_min: v(0, 0),
        uv_max: v(8, 8),
        atlas,
    };
    // one text of three glyphs in the same atlas
    let texts = vec![ResolvedText {
        glyphs: vec![glyph(v(0, 0), 3), glyph(v(8, 0), 3), glyph(v(16, 0), 3)],
    }];
    let text = Primitive::Text(TextPrimitive {
        id: 0,
        rect: Box2i { min: v(0, 0), max: v(0, 0) },
    });
    let f = run(vec![text], texts, v(32, 8), 1);
    // 10 rows per glyph, consecutive row ranges
    assert_eq!(f.buffer.len(), 30);
    assert_eq!(f.batches.len(), 1);
    assert_eq!(f.batches[0].image, Some(3));
    let mut indices: Vec<u32> = f.tiles.primitives.iter().map(|p| p.index()).collect();
    indices.sort();
    indices.dedup();
    assert_eq!(indices, vec![0, 10, 20]);
}

#[test]
fn glyphs_in_different_atlases_split_batches() {
    let glyph = |atlas: u64| GlyphData {
        offset: v(0, 0),
        size: v(8, 8),
        color: 0,
        uv_min: v(0, 0),
        uv_max: v(8, 8),
        atlas,
    };
    let texts = vec![ResolvedText { glyphs: vec![glyph(1), glyph(2)] }];
    let text = Primitive::Text(TextPrimitive {
        id: 0,
        rect: Box2i { min: v(0, 0), max: v(0, 0) },
    });
    let f = run(vec![text], texts, v(8, 8), 1);
    assert_eq!(f.batches.len(), 2);
    assert_eq!(f.batches[0].image, Some(1));
    assert_eq!(f.batches[1].image, Some(2));
}

#[test]
fn offscreen_primitive_occupies_no_tile() {
    // the primitive list is non-empty, but nothing overlaps the viewport
    let prims = vec![rect_prim(v(-64, -64), v(-32, -32), None)];
    let f = run(prims, vec![], v(16, 16), 1);
    assert_eq!(f.batches.len(), 1);
    assert_eq!(f.buffer.len(), 6);
    assert!(f.tiles.primitives.is_empty());
    for oc in &f.tiles.offset_and_count {
        assert_eq!(oc.count, 0);
    }
}

#[test]
fn mixed_frame_layout() {
    // a line, then a text of one glyph, then a textured rect: the glyph's
    // atlas and the rect's image differ, so the frame emits two batches,
    // while the untextured line joins the first one
    let glyph = GlyphData {
        offset: v(0, 0),
        size: v(8, 8),
        color: 4,
        uv_min: v(0, 0),
        uv_max: v(8, 8),
        atlas: 1,
    };
    let texts = vec![ResolvedText { glyphs: vec![glyph] }];
    let prims = vec![
        line_prim(v(0, 0), v(8, 8)),
        Primitive::Text(TextPrimitive { id: 0, rect: Box2i { min: v(0, 0), max: v(0, 0) } }),
        rect_prim(v(0, 0), v(8, 8), Some(2)),
    ];
    let f = run(prims, texts, v(16, 16), 1);

    // the buffer concatenates the encodings in input order:
    // 6 line rows, 10 glyph rows, 10 textured-rect rows
    assert_eq!(f.buffer.len(), 26);
    assert_eq!(f.buffer[4], Slot::Bits(2)); // line color
    assert_eq!(f.buffer[11], Slot::Bits(4)); // glyph color

    assert_eq!(f.batches.len(), 2);
    assert_eq!(f.batches[0].image, Some(1));
    assert_eq!(f.batches[1].image, Some(2));

    // the batches' windows cover the 2 x 2 grid back to back
    assert_eq!(f.batches[0].oc_offset, 0);
    assert_eq!(f.batches[0].oc_count, 4);
    assert_eq!(f.batches[1].oc_offset, 4);
    assert_eq!(f.batches[1].oc_count, 4);

    // row offsets in the packed indices follow the buffer layout
    let mut indices: Vec<u32> = f.tiles.primitives.iter().map(|p| p.index()).collect();
    indices.sort();
    indices.dedup();
    assert_eq!(indices, vec![0, 6, 16]);
}
