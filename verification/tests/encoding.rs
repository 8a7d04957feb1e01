use keith::geom::{Box2i, Vec2i};
use keith::packed::PackedPrimitiveIndex;
use keith::primitive::{
    GpuPrimitiveKind, LinePrimitive, Primitive, QuarterPiePrimitive, RectPrimitive, Slot,
    TextPrimitive,
};
use keith::scaling::ImageScaling;
use keith::text::{GlyphData, ResolvedText};

fn v(x: i64, y: i64) -> Vec2i {
    Vec2i { x, y }
}

fn whole(num: i64) -> Slot {
    Slot::Value { num, den: 1 }
}

fn half(num: i64) -> Slot {
    Slot::Value { num, den: 2 }
}

fn plain_rect(min: Vec2i, max: Vec2i, color: u32) -> RectPrimitive {
    RectPrimitive {
        rect: Box2i { min, max },
        radius: 0,
        color,
        image: None,
        image_size: v(0, 0),
        image_scaling: ImageScaling::Uniform { num: 1, den: 1 },
        flip_x: false,
        flip_y: false,
        border_width: 0,
        border_color: 0,
    }
}

#[test]
fn packed_round_trip() {
    for kind in [
        GpuPrimitiveKind::Rect,
        GpuPrimitiveKind::Glyph,
        GpuPrimitiveKind::Line,
        GpuPrimitiveKind::QuarterPie,
    ] {
        for textured in [false, true] {
            for bordered in [false, true] {
                for index in [0u32, 1, 42, 0x07FF_FFFF] {
                    let p = PackedPrimitiveIndex::new(index, kind, textured, bordered);
                    assert_eq!(p.index(), index);
                    assert_eq!(p.kind(), kind);
                    assert_eq!(p.is_textured(), textured);
                    assert_eq!(p.is_bordered(), bordered);
                }
            }
        }
    }
    // the exact bit pattern: index low, border at 27, kind at 28, texture at 31
    let p = PackedPrimitiveIndex::new(42, GpuPrimitiveKind::Line, true, false);
    assert_eq!(p.0, 42 | (2 << 28) | (1 << 31));
    // a row offset of 27 bits or more is masked into the low bits
    let masked = PackedPrimitiveIndex::new(0x0FFF_FFFF, GpuPrimitiveKind::Rect, false, false);
    assert_eq!(masked.index(), 0x07FF_FFFF);
}

#[test]
fn line_layout() {
    let texts: Vec<ResolvedText> = vec![];
    let line = LinePrimitive {
        start: v(1, 2),
        end: v(3, 4),
        color: 0xAABB_CCDD,
        thickness: 5,
        border_width: 0,
        border_color: 0,
    };
    let prim = Primitive::Line(line);
    let mut out = vec![whole(0); 6];
    prim.encode(&texts, &mut out, v(10, 20), 2);
    assert_eq!(
        out,
        vec![
            whole(22),
            whole(44),
            whole(26),
            whole(48),
            Slot::Bits(0xAABB_CCDD),
            whole(10),
        ]
    );

    // a border appends its scaled width and its color
    let mut bordered = line;
    bordered.border_width = 3;
    bordered.border_color = 0x1122_3344;
    let prim = Primitive::Line(bordered);
    assert_eq!(prim.info(&texts).row_count, 8);
    let mut out = vec![whole(0); 8];
    prim.encode(&texts, &mut out, v(10, 20), 2);
    assert_eq!(out[6], whole(6));
    assert_eq!(out[7], Slot::Bits(0x1122_3344));
}

#[test]
fn rect_layout() {
    let texts: Vec<ResolvedText> = vec![];
    let mut rect = plain_rect(v(0, 0), v(10, 20), 7);
    rect.radius = 3;
    let prim = Primitive::Rect(rect);
    assert_eq!(prim.info(&texts).row_count, 6);
    let mut out = vec![whole(0); 6];
    prim.encode(&texts, &mut out, v(0, 0), 1);
    // center and half size are exact halves
    assert_eq!(
        out,
        vec![half(10), half(20), half(10), half(20), whole(3), Slot::Bits(7)]
    );

    // texture rows come before border rows
    rect.image = Some(11);
    rect.image_size = v(64, 32);
    rect.border_width = 2;
    rect.border_color = 9;
    let prim = Primitive::Rect(rect);
    assert_eq!(prim.info(&texts).row_count, 12);
    let mut out = vec![whole(0); 12];
    prim.encode(&texts, &mut out, v(0, 0), 1);
    assert_eq!(out[6], Slot::Value { num: 1, den: 2 });
    assert_eq!(out[7], Slot::Value { num: 1, den: 2 });
    assert_eq!(out[8], Slot::Value { num: 1, den: 64 });
    assert_eq!(out[9], Slot::Value { num: 1, den: 32 });
    assert_eq!(out[10], whole(2));
    assert_eq!(out[11], Slot::Bits(9));
}

#[test]
fn quarter_pie_layout() {
    let texts: Vec<ResolvedText> = vec![];
    let pie = QuarterPiePrimitive {
        origin: v(5, 6),
        radii: v(7, 8),
        color: 3,
        flip_x: true,
        flip_y: false,
    };
    let prim = Primitive::QuarterPie(pie);
    assert_eq!(prim.info(&texts).row_count, 5);
    let mut out = vec![whole(0); 5];
    prim.encode(&texts, &mut out, v(1, 1), 2);
    // the flipped axis has a negated radius
    assert_eq!(
        out,
        vec![whole(12), whole(14), whole(-14), whole(16), Slot::Bits(3)]
    );
}

#[test]
fn glyph_layout() {
    let glyph = GlyphData {
        offset: v(100, 200),
        size: v(16, 32),
        color: 77,
        uv_min: v(64, 128),
        uv_max: v(80, 160),
        atlas: 7,
    };
    let texts = vec![ResolvedText { glyphs: vec![glyph] }];
    let text = TextPrimitive { id: 0, rect: Box2i { min: v(5, 6), max: v(5, 6) } };
    let prim = Primitive::Text(text);
    let info = prim.info(&texts);
    assert_eq!(info.row_count, 10);
    assert_eq!(info.sub_prim_count, 1);
    let mut out = vec![whole(0); 10];
    prim.encode(&texts, &mut out, v(0, 0), 1);
    assert_eq!(
        out,
        vec![
            half(2 * 105 + 16),
            half(2 * 206 + 32),
            half(16),
            half(32),
            whole(0),
            Slot::Bits(77),
            Slot::Value { num: 144, den: 2048 },
            Slot::Value { num: 288, den: 2048 },
            Slot::Value { num: 1, den: 1024 },
            Slot::Value { num: 1, den: 1024 },
        ]
    );
}

#[test]
fn unresolved_text_encodes_nothing() {
    let texts: Vec<ResolvedText> = vec![];
    let text = TextPrimitive { id: 3, rect: Box2i { min: v(0, 0), max: v(0, 0) } };
    let prim = Primitive::Text(text);
    let info = prim.info(&texts);
    assert_eq!(info.row_count, 0);
    assert_eq!(info.sub_prim_count, 0);
    let mut out: Vec<Slot> = vec![];
    prim.encode(&texts, &mut out, v(0, 0), 1);
    assert!(out.is_empty());
}

#[test]
fn row_counts() {
    let texts: Vec<ResolvedText> = vec![];
    let line = LinePrimitive {
        start: v(0, 0),
        end: v(1, 1),
        color: 0,
        thickness: 1,
        border_width: 0,
        border_color: 0,
    };
    assert_eq!(Primitive::Line(line).info(&texts).row_count, 6);
    let rect = plain_rect(v(0, 0), v(1, 1), 0);
    assert_eq!(Primitive::Rect(rect).info(&texts).row_count, 6);
    let mut textured = rect;
    textured.image = Some(1);
    textured.image_size = v(1, 1);
    assert_eq!(Primitive::Rect(textured).info(&texts).row_count, 10);
    let pie = QuarterPiePrimitive {
        origin: v(0, 0),
        radii: v(1, 1),
        color: 0,
        flip_x: false,
        flip_y: false,
    };
    assert_eq!(Primitive::QuarterPie(pie).info(&texts).row_count, 5);
}

#[test]
fn bounding_boxes() {
    let rect = plain_rect(v(1, 2), v(3, 4), 0);
    let aabb = Primitive::Rect(rect).aabb();
    assert_eq!(aabb.min, v(1, 2));
    assert_eq!(aabb.max, v(3, 4));

    // the line box is the endpoint box expanded by half the thickness,
    // rounded up
    let line = LinePrimitive {
        start: v(10, 0),
        end: v(0, 10),
        color: 0,
        thickness: 3,
        border_width: 0,
        border_color: 0,
    };
    let aabb = Primitive::Line(line).aabb();
    assert_eq!(aabb.min, v(-2, -2));
    assert_eq!(aabb.max, v(12, 12));

    let pie = QuarterPiePrimitive {
        origin: v(5, 5),
        radii: v(2, 3),
        color: 0,
        flip_x: false,
        flip_y: false,
    };
    let aabb = Primitive::QuarterPie(pie).aabb();
    assert_eq!(aabb.min, v(3, 2));
    assert_eq!(aabb.max, v(7, 8));
}

#[test]
fn text_bounding_box() {
    let glyphs = vec![
        GlyphData {
            offset: v(0, 0),
            size: v(8, 8),
            color: 0,
            uv_min: v(0, 0),
            uv_max: v(8, 8),
            atlas: 1,
        },
        GlyphData {
            offset: v(10, -2),
            size: v(8, 8),
            color: 0,
            uv_min: v(0, 0),
            uv_max: v(8, 8),
            atlas: 1,
        },
    ];
    let texts = vec![ResolvedText { glyphs }];
    let text = TextPrimitive { id: 0, rect: Box2i { min: v(100, 100), max: v(100, 100) } };
    let aabb = text.aabb(&texts);
    // the placement rectangle is extended by every glyph's box
    assert_eq!(aabb.min, v(100, 98));
    assert_eq!(aabb.max, v(118, 108));
}
