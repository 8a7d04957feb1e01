//! Drawing primitives and their GPU encoding.
//!
//! The drawing primitives are the lowest-level concepts mapping directly to
//! shader instructions: lines, rectangles (possibly textured and rounded),
//! text references and quarter pies. Each primitive reports its bounding
//! box, its texture and border flags, and the exact sequence of 4-byte
//! buffer slots it encodes to.
//!
//! Every encoded slot is either an exact rational number (to be
//! materialized as a 4-byte float at upload time) or a raw 32-bit pattern
//! (a packed linear RGBA color). Coordinates are converted from canvas
//! space to device pixels by translating then uniformly scaling, both
//! exact integer operations.

use vstd::prelude::*;

use crate::geom::{max_i64, min_i64, spec_max, spec_min, Box2i, Vec2i, COORD_LIMIT, SCALE_LIMIT};
use crate::scaling::ImageScaling;
use crate::text::{spec_texts_wf, GlyphData, ResolvedText, ATLAS_SIZE};

verus! {

/// Buffer rows of a line primitive without border.
pub const ROWS_LINE: u32 = 6;

/// Extra buffer rows of a bordered line primitive.
pub const ROWS_LINE_BORDER: u32 = 2;

/// Buffer rows of a rectangle primitive without texture or border.
pub const ROWS_RECT_BASE: u32 = 6;

/// Extra buffer rows of a textured rectangle; they follow the base rows.
pub const ROWS_RECT_TEX: u32 = 4;

/// Extra buffer rows of a bordered rectangle; they follow the texture rows,
/// or the base rows if there is no texture.
pub const ROWS_RECT_BORDER: u32 = 2;

/// Buffer rows of each single glyph of a text primitive; a glyph encodes
/// like a textured rectangle without border.
pub const ROWS_PER_GLYPH: u32 = 10;

/// Buffer rows of a quarter pie primitive.
pub const ROWS_QUARTER_PIE: u32 = 5;

/// Kind of primitive understood by the GPU shader.
///
/// Determines the shader path and the signed-distance function used to
/// render a primitive. The shader identifies the kind by its numeric tag
/// (see [`GpuPrimitiveKind::spec_value`]): rectangle 0, glyph 1, line 2,
/// quarter pie 3.
#[derive(Debug, Clone, Copy, PartialEq, Eq, Structural)]
pub enum GpuPrimitiveKind {
    /// Axis-aligned rectangle, possibly textured.
    Rect,
    /// Text glyph. Same as `Rect`, but samples the texture's alpha instead
    /// of its RGB, and is always textured.
    Glyph,
    /// Line segment.
    Line,
    /// Quarter pie.
    QuarterPie,
}

impl GpuPrimitiveKind {
    /// The numeric tag of this kind in the packed index and the shader.
    pub open spec fn spec_value(self) -> u32 {
        match self {
            GpuPrimitiveKind::Rect => 0,
            GpuPrimitiveKind::Glyph => 1,
            GpuPrimitiveKind::Line => 2,
            GpuPrimitiveKind::QuarterPie => 3,
        }
    }

    /// The kind whose numeric tag is `v` (tags above 3 do not occur).
    pub open spec fn spec_from_value(v: u32) -> GpuPrimitiveKind {
        if v == 0 {
            GpuPrimitiveKind::Rect
        } else if v == 1 {
            GpuPrimitiveKind::Glyph
        } else if v == 2 {
            GpuPrimitiveKind::Line
        } else {
            GpuPrimitiveKind::QuarterPie
        }
    }

    /// The numeric tag of this kind.
    pub fn value(self) -> (r: u32)
        ensures
            r == self.spec_value(),
    {
        match self {
            GpuPrimitiveKind::Rect => 0,
            GpuPrimitiveKind::Glyph => 1,
            GpuPrimitiveKind::Line => 2,
            GpuPrimitiveKind::QuarterPie => 3,
        }
    }

    /// The kind whose numeric tag is `v`.
    pub fn from_value(v: u32) -> (r: GpuPrimitiveKind)
        requires
            v < 4,
        ensures
            r == GpuPrimitiveKind::spec_from_value(v),
    {
        if v == 0 {
            GpuPrimitiveKind::Rect
        } else if v == 1 {
            GpuPrimitiveKind::Glyph
        } else if v == 2 {
            GpuPrimitiveKind::Line
        } else {
            GpuPrimitiveKind::QuarterPie
        }
    }
}

/// One 4-byte slot of the flat primitive buffer.
///
/// The GPU consumes the buffer as 4-byte floats; this crate states each
/// slot as an exact value instead. The upload layer materializes a
/// [`Slot::Value`] as the float nearest to `num / den` and a
/// [`Slot::Bits`] verbatim as the 32-bit pattern.
#[derive(Debug, Clone, Copy, PartialEq, Eq, Structural)]
pub enum Slot {
    /// The exact rational number `num / den`, with `den > 0`.
    Value { num: i64, den: i64 },
    /// A raw 32-bit pattern (a packed linear RGBA color).
    Bits(u32),
}

/// The whole number `v` as a buffer slot.
pub open spec fn whole(v: int) -> Slot {
    Slot::Value { num: v as i64, den: 1 }
}

/// The exact value `v / 2` as a buffer slot.
pub open spec fn half(v: int) -> Slot {
    Slot::Value { num: v as i64, den: 2 }
}

/// The exact value `n / d` as a buffer slot.
pub open spec fn frac(n: int, d: int) -> Slot {
    Slot::Value { num: n as i64, den: d as i64 }
}

/// Multiply a bounded value by a bounded scale factor, exactly.
pub(crate) fn scaled(a: i64, s: i64) -> (r: i64)
    requires
        -4 * COORD_LIMIT <= a <= 4 * COORD_LIMIT,
        0 <= s <= SCALE_LIMIT,
    ensures
        r == a * s,
        -4 * COORD_LIMIT * SCALE_LIMIT <= r <= 4 * COORD_LIMIT * SCALE_LIMIT,
{
    proof {
        assert(-4 * COORD_LIMIT * SCALE_LIMIT <= a * s <= 4 * COORD_LIMIT * SCALE_LIMIT)
            by (nonlinear_arith)
            requires
                -4 * COORD_LIMIT <= a <= 4 * COORD_LIMIT,
                0 <= s <= SCALE_LIMIT,
        ;
    }
    a * s
}

/// Row count and sub-primitive count of a primitive.
///
/// A non-text primitive has exactly one sub-primitive; a text primitive
/// has one sub-primitive per resolved glyph. `row_count` is the number of
/// buffer rows of each single sub-primitive.
#[derive(Debug, Clone, Copy, PartialEq, Eq, Structural)]
pub struct PrimitiveInfo {
    /// Buffer rows per sub-primitive.
    pub row_count: u32,
    /// Number of sub-primitives.
    pub sub_prim_count: u32,
}

/// A line between two points, with a color and thickness.
///
/// This is essentially an oriented rectangle: the shape extends equally by
/// `thickness / 2` on both sides of the mathematical line joining the
/// start and end points.
#[derive(Debug, Clone, Copy, PartialEq, Eq, Structural)]
pub struct LinePrimitive {
    /// The starting point of the line.
    pub start: Vec2i,
    /// The ending point of the line.
    pub end: Vec2i,
    /// The line color, as packed 32-bit linear RGBA.
    pub color: u32,
    /// The line thickness, in canvas units. Must be greater than zero.
    pub thickness: i64,
    /// Size of the border. The border always expands inside the line; zero
    /// or negative means no border.
    pub border_width: i64,
    /// Border color (ignored if `border_width <= 0`).
    pub border_color: u32,
}

impl LinePrimitive {
    /// Well-formed line: bounded endpoints, positive bounded thickness,
    /// bounded border width.
    pub open spec fn wf(self) -> bool {
        &&& self.start.in_range()
        &&& self.end.in_range()
        &&& 0 < self.thickness <= COORD_LIMIT
        &&& -COORD_LIMIT <= self.border_width <= COORD_LIMIT
    }

    /// Whether the line has a border.
    pub open spec fn spec_is_bordered(self) -> bool {
        self.border_width > 0
    }

    /// Is the primitive bordered?
    pub fn is_bordered(&self) -> (r: bool)
        ensures
            r == self.spec_is_bordered(),
    {
        self.border_width > 0
    }

    /// Conservative bounding box: the box of the two endpoints, expanded on
    /// every side by the thickness rounded up to whole half-pixels.
    pub open spec fn spec_aabb(self) -> Box2i {
        let e = (self.thickness + 1) / 2;
        Box2i {
            min: Vec2i {
                x: (spec_min(self.start.x as int, self.end.x as int) - e) as i64,
                y: (spec_min(self.start.y as int, self.end.y as int) - e) as i64,
            },
            max: Vec2i {
                x: (spec_max(self.start.x as int, self.end.x as int) + e) as i64,
                y: (spec_max(self.start.y as int, self.end.y as int) + e) as i64,
            },
        }
    }

    /// The conservative bounding box of the line, including its thickness.
    pub fn aabb(&self) -> (r: Box2i)
        requires
            self.wf(),
        ensures
            r == self.spec_aabb(),
    {
        let e = (self.thickness + 1) / 2;
        Box2i {
            min: Vec2i {
                x: min_i64(self.start.x, self.end.x) - e,
                y: min_i64(self.start.y, self.end.y) - e,
            },
            max: Vec2i {
                x: max_i64(self.start.x, self.end.x) + e,
                y: max_i64(self.start.y, self.end.y) + e,
            },
        }
    }

    /// Buffer rows of the line: 6, plus 2 when bordered.
    pub open spec fn spec_row_count(self) -> int {
        ROWS_LINE + if self.spec_is_bordered() {
            ROWS_LINE_BORDER as int
        } else {
            0
        }
    }

    /// The encoded slots of the line: both endpoints translated then
    /// scaled, the color, the scaled thickness, and, when bordered, the
    /// scaled border width and border color.
    pub open spec fn spec_slots(self, tr: Vec2i, s: i64) -> Seq<Slot> {
        seq![
            whole((self.start.x + tr.x) * s),
            whole((self.start.y + tr.y) * s),
            whole((self.end.x + tr.x) * s),
            whole((self.end.y + tr.y) * s),
            Slot::Bits(self.color),
            whole(self.thickness * s),
        ] + if self.spec_is_bordered() {
            seq![whole(self.border_width * s), Slot::Bits(self.border_color)]
        } else {
            Seq::empty()
        }
    }

    /// Append the encoded slots of the line to `buf`.
    fn append_slots(&self, buf: &mut Vec<Slot>, tr: Vec2i, s: i64)
        requires
            self.wf(),
            tr.in_range(),
            1 <= s <= SCALE_LIMIT,
        ensures
            final(buf)@ == old(buf)@ + self.spec_slots(tr, s),
    {
        let ghost start = buf@;
        buf.push(Slot::Value { num: scaled(self.start.x + tr.x, s), den: 1 });
        buf.push(Slot::Value { num: scaled(self.start.y + tr.y, s), den: 1 });
        buf.push(Slot::Value { num: scaled(self.end.x + tr.x, s), den: 1 });
        buf.push(Slot::Value { num: scaled(self.end.y + tr.y, s), den: 1 });
        buf.push(Slot::Bits(self.color));
        buf.push(Slot::Value { num: scaled(self.thickness, s), den: 1 });
        if self.is_bordered() {
            buf.push(Slot::Value { num: scaled(self.border_width, s), den: 1 });
            buf.push(Slot::Bits(self.border_color));
        }
        proof {
            assert(buf@ =~= start + self.spec_slots(tr, s));
        }
    }
}

/// An axis-aligned rectangle with a color, optional rounded corners, and
/// optional texture.
#[derive(Debug, Clone, Copy)]
pub struct RectPrimitive {
    /// Position and size of the rectangle in its canvas space. For rounded
    /// rectangles this is the enclosing box (radius and border included).
    pub rect: Box2i,
    /// Rounded corner radius, in canvas units. Zero disables rounding.
    pub radius: i64,
    /// Uniform rectangle color, as packed 32-bit linear RGBA.
    pub color: u32,
    /// Identity of the image used for texturing, or `None` if untextured.
    pub image: Option<u64>,
    /// Image size in device pixels, populated from the actual texture size
    /// and the scaling mode.
    pub image_size: Vec2i,
    /// Scaling for the image (if any).
    pub image_scaling: ImageScaling,
    /// Flip the image (if any) along the horizontal axis.
    pub flip_x: bool,
    /// Flip the image (if any) along the vertical axis.
    pub flip_y: bool,
    /// Size of the border. The border always expands inside the rectangle;
    /// zero or negative means no border.
    pub border_width: i64,
    /// Border color (ignored if `border_width <= 0`).
    pub border_color: u32,
}

impl RectPrimitive {
    /// Well-formed rectangle: bounded corners, radius and border, and a
    /// positive bounded image size when textured.
    pub open spec fn wf(self) -> bool {
        &&& self.rect.in_range()
        &&& -COORD_LIMIT <= self.radius <= COORD_LIMIT
        &&& -COORD_LIMIT <= self.border_width <= COORD_LIMIT
        &&& self.spec_is_textured() ==> (1 <= self.image_size.x <= COORD_LIMIT && 1
            <= self.image_size.y <= COORD_LIMIT)
    }

    /// Whether the rectangle is textured (has an image).
    pub open spec fn spec_is_textured(self) -> bool {
        self.image is Some
    }

    /// Is this primitive textured? True if [`RectPrimitive::image`] is
    /// `Some`.
    pub fn is_textured(&self) -> (r: bool)
        ensures
            r == self.spec_is_textured(),
    {
        self.image.is_some()
    }

    /// Whether the rectangle has a border.
    pub open spec fn spec_is_bordered(self) -> bool {
        self.border_width > 0
    }

    /// Is the primitive bordered?
    pub fn is_bordered(&self) -> (r: bool)
        ensures
            r == self.spec_is_bordered(),
    {
        self.border_width > 0
    }

    /// The bounding box of the rectangle is the rectangle itself.
    pub open spec fn spec_aabb(self) -> Box2i {
        self.rect
    }

    /// Get the bounding box of this rectangle.
    pub fn aabb(&self) -> (r: Box2i)
        ensures
            r == self.spec_aabb(),
    {
        self.rect
    }

    /// Buffer rows of the rectangle: 6 base rows, plus 4 when textured,
    /// plus 2 when bordered.
    pub open spec fn spec_row_count(self) -> int {
        ROWS_RECT_BASE + (if self.spec_is_textured() {
            ROWS_RECT_TEX as int
        } else {
            0
        }) + (if self.spec_is_bordered() {
            ROWS_RECT_BORDER as int
        } else {
            0
        })
    }

    /// Buffer rows of the rectangle.
    pub fn row_count(&self) -> (r: u32)
        ensures
            r == self.spec_row_count(),
    {
        let mut rows = ROWS_RECT_BASE;
        if self.is_textured() {
            rows += ROWS_RECT_TEX;
        }
        if self.is_bordered() {
            rows += ROWS_RECT_BORDER;
        }
        rows
    }

    /// The encoded slots of the rectangle: center and half size in device
    /// pixels (exact halves), scaled radius and color; when textured the
    /// texture rows (UV center one half on both axes, then the reciprocal
    /// image size per axis); when bordered the scaled border width and the
    /// border color. Texture rows come before border rows.
    pub open spec fn spec_slots(self, tr: Vec2i, s: i64) -> Seq<Slot> {
        seq![
            half((self.rect.min.x + self.rect.max.x) * s + 2 * tr.x * s),
            half((self.rect.min.y + self.rect.max.y) * s + 2 * tr.y * s),
            half((self.rect.max.x - self.rect.min.x) * s),
            half((self.rect.max.y - self.rect.min.y) * s),
            whole(self.radius * s),
            Slot::Bits(self.color),
        ] + (if self.spec_is_textured() {
            seq![
                frac(1, 2),
                frac(1, 2),
                frac(1, self.image_size.x as int),
                frac(1, self.image_size.y as int),
            ]
        } else {
            Seq::empty()
        }) + (if self.spec_is_bordered() {
            seq![whole(self.border_width * s), Slot::Bits(self.border_color)]
        } else {
            Seq::empty()
        })
    }

    /// Append the encoded slots of the rectangle to `buf`.
    fn append_slots(&self, buf: &mut Vec<Slot>, tr: Vec2i, s: i64)
        requires
            self.wf(),
            tr.in_range(),
            1 <= s <= SCALE_LIMIT,
        ensures
            final(buf)@ == old(buf)@ + self.spec_slots(tr, s),
    {
        let ghost start = buf@;
        let cx = scaled(self.rect.min.x + self.rect.max.x, s) + scaled(2 * tr.x, s);
        let cy = scaled(self.rect.min.y + self.rect.max.y, s) + scaled(2 * tr.y, s);
        buf.push(Slot::Value { num: cx, den: 2 });
        buf.push(Slot::Value { num: cy, den: 2 });
        buf.push(Slot::Value { num: scaled(self.rect.max.x - self.rect.min.x, s), den: 2 });
        buf.push(Slot::Value { num: scaled(self.rect.max.y - self.rect.min.y, s), den: 2 });
        buf.push(Slot::Value { num: scaled(self.radius, s), den: 1 });
        buf.push(Slot::Bits(self.color));
        if self.is_textured() {
            buf.push(Slot::Value { num: 1, den: 2 });
            buf.push(Slot::Value { num: 1, den: 2 });
            buf.push(Slot::Value { num: 1, den: self.image_size.x });
            buf.push(Slot::Value { num: 1, den: self.image_size.y });
        }
        if self.is_bordered() {
            buf.push(Slot::Value { num: scaled(self.border_width, s), den: 1 });
            buf.push(Slot::Bits(self.border_color));
        }
        proof {
            assert(buf@ =~= start + self.spec_slots(tr, s));
        }
    }
}

/// Process one image drawn onto a canvas.
impl RectPrimitive {
    /// Populate the image size of this rectangle from the actual texture
    /// size, applying the image scaling mode. The content size is the
    /// rectangle's extent scaled to device pixels.
    pub fn resolve_image_size(&mut self, texture_size: Vec2i, scale_factor: i64)
        requires
            old(self).rect.in_range(),
            texture_size.in_extent_range(),
            1 <= scale_factor <= SCALE_LIMIT,
            -COORD_LIMIT <= (old(self).rect.max.x - old(self).rect.min.x) * scale_factor
                <= COORD_LIMIT,
            -COORD_LIMIT <= (old(self).rect.max.y - old(self).rect.min.y) * scale_factor
                <= COORD_LIMIT,
            old(self).image_scaling matches ImageScaling::Uniform { num, den } ==> 0 <= num
                <= COORD_LIMIT && 1 <= den <= COORD_LIMIT,
        ensures
            ({
                let content = crate::scaling::spec_content_size(old(self).rect, scale_factor);
                let sized = crate::scaling::spec_scaled_image_size(
                    texture_size,
                    content,
                    old(self).image_scaling,
                );
                &&& final(self).image_size.x as int == sized.0
                &&& final(self).image_size.y as int == sized.1
                &&& *final(self) == (RectPrimitive {
                    image_size: final(self).image_size,
                    ..*old(self)
                })
            }),
    {
        let content = Vec2i {
            x: scaled(self.rect.max.x - self.rect.min.x, scale_factor),
            y: scaled(self.rect.max.y - self.rect.min.y, scale_factor),
        };
        self.image_size = crate::scaling::scaled_image_size(
            texture_size,
            content,
            self.image_scaling,
        );
    }
}

/// A reference to a text with a placement rectangle.
///
/// The glyphs are not stored in the primitive: the `id` field references a
/// text whose resolved glyph data is owned externally (see
/// [`ResolvedText`]). A text id with no resolved data contributes zero
/// sub-primitives and zero encoded rows.
#[derive(Debug, Clone, Copy, PartialEq, Eq, Structural)]
pub struct TextPrimitive {
    /// Unique id of the text inside its owner canvas.
    pub id: u32,
    /// Placement rectangle; the text origin is its lower corner.
    pub rect: Box2i,
}

impl TextPrimitive {
    /// Well-formed text reference: bounded placement rectangle.
    pub open spec fn wf(self) -> bool {
        self.rect.in_range()
    }

    /// The bounding box of the text after the first `n` glyphs: the
    /// placement rectangle extended by every glyph's box (text origin plus
    /// glyph offset, extended by the glyph size).
    pub open spec fn spec_aabb_prefix(self, glyphs: Seq<GlyphData>, n: int) -> Box2i
        decreases n,
    {
        if n <= 0 {
            self.rect
        } else {
            let prev = self.spec_aabb_prefix(glyphs, n - 1);
            let g = glyphs[n - 1];
            Box2i {
                min: Vec2i {
                    x: spec_min(prev.min.x as int, self.rect.min.x + g.offset.x) as i64,
                    y: spec_min(prev.min.y as int, self.rect.min.y + g.offset.y) as i64,
                },
                max: Vec2i {
                    x: spec_max(
                        prev.max.x as int,
                        self.rect.min.x + g.offset.x + g.size.x,
                    ) as i64,
                    y: spec_max(
                        prev.max.y as int,
                        self.rect.min.y + g.offset.y + g.size.y,
                    ) as i64,
                },
            }
        }
    }

    /// The bounding box of the text over all its resolved glyphs.
    pub open spec fn spec_aabb(self, texts: Seq<ResolvedText>) -> Box2i {
        self.spec_aabb_prefix(
            texts[self.id as int].glyphs@,
            texts[self.id as int].glyphs@.len() as int,
        )
    }

    /// Get the bounding box of this text: its placement rectangle extended
    /// by the box of every resolved glyph. The text id must have resolved
    /// data.
    pub fn aabb(&self, texts: &Vec<ResolvedText>) -> (r: Box2i)
        requires
            self.wf(),
            spec_texts_wf(texts@),
            (self.id as int) < texts@.len(),
        ensures
            r == self.spec_aabb(texts@),
    {
        let glyphs = &texts[self.id as usize].glyphs;
        let mut aabb = self.rect;
        let ghost bound = 3 * COORD_LIMIT;
        let mut i: usize = 0;
        while i < glyphs.len()
            invariant
                self.wf(),
                glyphs@ == texts@[self.id as int].glyphs@,
                spec_texts_wf(texts@),
                (self.id as int) < texts@.len(),
                0 <= i <= glyphs@.len(),
                aabb == self.spec_aabb_prefix(glyphs@, i as int),
                -bound <= aabb.min.x <= bound,
                -bound <= aabb.min.y <= bound,
                -bound <= aabb.max.x <= bound,
                -bound <= aabb.max.y <= bound,
                bound == 3 * COORD_LIMIT,
            decreases glyphs@.len() - i,
        {
            let g = glyphs[i];
            assert(g.wf());
            aabb = Box2i {
                min: Vec2i {
                    x: min_i64(aabb.min.x, self.rect.min.x + g.offset.x),
                    y: min_i64(aabb.min.y, self.rect.min.y + g.offset.y),
                },
                max: Vec2i {
                    x: max_i64(aabb.max.x, self.rect.min.x + g.offset.x + g.size.x),
                    y: max_i64(aabb.max.y, self.rect.min.y + g.offset.y + g.size.y),
                },
            };
            i = i + 1;
        }
        aabb
    }

    /// The encoded slots of one glyph placed at the text origin
    /// `rect_min`: center and half size in device pixels (exact halves,
    /// the glyph offset being already in device pixels), zero radius, the
    /// glyph color, the UV center and the UV scale as exact fractions of
    /// the atlas size.
    pub open spec fn spec_glyph_slots(rect_min: Vec2i, g: GlyphData, tr: Vec2i, s: i64) -> Seq<
        Slot,
    > {
        let x = g.offset.x + (rect_min.x + tr.x) * s;
        let y = g.offset.y + (rect_min.y + tr.y) * s;
        seq![
            half(2 * x + g.size.x),
            half(2 * y + g.size.y),
            half(g.size.x as int),
            half(g.size.y as int),
            whole(0),
            Slot::Bits(g.color),
            frac(g.uv_min.x + g.uv_max.x, 2 * ATLAS_SIZE),
            frac(g.uv_min.y + g.uv_max.y, 2 * ATLAS_SIZE),
            frac(1, ATLAS_SIZE as int),
            frac(1, ATLAS_SIZE as int),
        ]
    }

    /// The encoded slots of the first `n` glyphs, in order.
    pub open spec fn spec_slots_prefix(self, glyphs: Seq<GlyphData>, tr: Vec2i, s: i64, n: int) -> Seq<
        Slot,
    >
        decreases n,
    {
        if n <= 0 {
            Seq::empty()
        } else {
            self.spec_slots_prefix(glyphs, tr, s, n - 1) + TextPrimitive::spec_glyph_slots(
                self.rect.min,
                glyphs[n - 1],
                tr,
                s,
            )
        }
    }

    /// The encoded slots of the text: the slots of each resolved glyph in
    /// order, or nothing when the text id has no resolved data.
    pub open spec fn spec_slots(self, texts: Seq<ResolvedText>, tr: Vec2i, s: i64) -> Seq<Slot> {
        if (self.id as int) < texts.len() {
            self.spec_slots_prefix(
                texts[self.id as int].glyphs@,
                tr,
                s,
                texts[self.id as int].glyphs@.len() as int,
            )
        } else {
            Seq::empty()
        }
    }

    /// Append the encoded slots of one glyph to `buf`.
    fn append_glyph_slots(rect_min: Vec2i, g: GlyphData, buf: &mut Vec<Slot>, tr: Vec2i, s: i64)
        requires
            rect_min.in_range(),
            g.wf(),
            tr.in_range(),
            1 <= s <= SCALE_LIMIT,
        ensures
            final(buf)@ == old(buf)@ + TextPrimitive::spec_glyph_slots(rect_min, g, tr, s),
    {
        let ghost start = buf@;
        let x = g.offset.x + scaled(rect_min.x + tr.x, s);
        let y = g.offset.y + scaled(rect_min.y + tr.y, s);
        buf.push(Slot::Value { num: 2 * x + g.size.x, den: 2 });
        buf.push(Slot::Value { num: 2 * y + g.size.y, den: 2 });
        buf.push(Slot::Value { num: g.size.x, den: 2 });
        buf.push(Slot::Value { num: g.size.y, den: 2 });
        buf.push(Slot::Value { num: 0, den: 1 });
        buf.push(Slot::Bits(g.color));
        buf.push(Slot::Value { num: g.uv_min.x + g.uv_max.x, den: 2 * ATLAS_SIZE });
        buf.push(Slot::Value { num: g.uv_min.y + g.uv_max.y, den: 2 * ATLAS_SIZE });
        buf.push(Slot::Value { num: 1, den: ATLAS_SIZE });
        buf.push(Slot::Value { num: 1, den: ATLAS_SIZE });
        proof {
            assert(buf@ =~= start + TextPrimitive::spec_glyph_slots(rect_min, g, tr, s));
        }
    }

    /// Append the encoded slots of the text to `buf`: one run of glyph
    /// rows per resolved glyph, or nothing when the id has no data.
    fn append_slots(&self, texts: &Vec<ResolvedText>, buf: &mut Vec<Slot>, tr: Vec2i, s: i64)
        requires
            self.wf(),
            spec_texts_wf(texts@),
            tr.in_range(),
            1 <= s <= SCALE_LIMIT,
        ensures
            final(buf)@ == old(buf)@ + self.spec_slots(texts@, tr, s),
    {
        let ghost start = buf@;
        if (self.id as usize) < texts.len() {
            let glyphs = &texts[self.id as usize].glyphs;
            let mut i: usize = 0;
            while i < glyphs.len()
                invariant
                    self.wf(),
                    spec_texts_wf(texts@),
                    (self.id as int) < texts@.len(),
                    glyphs@ == texts@[self.id as int].glyphs@,
                    tr.in_range(),
                    1 <= s <= SCALE_LIMIT,
                    0 <= i <= glyphs@.len(),
                    buf@ == start + self.spec_slots_prefix(glyphs@, tr, s, i as int),
                decreases glyphs@.len() - i,
            {
                let g = glyphs[i];
                assert(g.wf());
                TextPrimitive::append_glyph_slots(self.rect.min, g, buf, tr, s);
                proof {
                    assert(buf@ =~= start + self.spec_slots_prefix(glyphs@, tr, s, i as int + 1));
                }
                i = i + 1;
            }
        }
    }
}

/// A quarter of an ellipse ("quarter pie"), drawn from its origin.
#[derive(Debug, Clone, Copy, PartialEq, Eq, Structural)]
pub struct QuarterPiePrimitive {
    /// Origin of the pie.
    pub origin: Vec2i,
    /// Radii of the (elliptical) pie; non-negative.
    pub radii: Vec2i,
    /// Uniform color, as packed 32-bit linear RGBA.
    pub color: u32,
    /// Flip the quarter pie along the horizontal axis.
    pub flip_x: bool,
    /// Flip the quarter pie along the vertical axis.
    pub flip_y: bool,
}

impl QuarterPiePrimitive {
    /// Well-formed quarter pie: bounded origin and non-negative bounded
    /// radii.
    pub open spec fn wf(self) -> bool {
        &&& self.origin.in_range()
        &&& self.radii.in_extent_range()
    }

    /// The bounding box of the full ellipse around the origin.
    pub open spec fn spec_aabb(self) -> Box2i {
        Box2i {
            min: Vec2i {
                x: (self.origin.x - self.radii.x) as i64,
                y: (self.origin.y - self.radii.y) as i64,
            },
            max: Vec2i {
                x: (self.origin.x + self.radii.x) as i64,
                y: (self.origin.y + self.radii.y) as i64,
            },
        }
    }

    /// Get the bounding box of this quarter pie (conservatively, the box
    /// of the full ellipse).
    pub fn aabb(&self) -> (r: Box2i)
        requires
            self.wf(),
        ensures
            r == self.spec_aabb(),
    {
        Box2i {
            min: Vec2i { x: self.origin.x - self.radii.x, y: self.origin.y - self.radii.y },
            max: Vec2i { x: self.origin.x + self.radii.x, y: self.origin.y + self.radii.y },
        }
    }

    /// The signed radius on the horizontal axis: negated when flipped.
    pub open spec fn spec_signed_rx(self) -> int {
        if self.flip_x {
            -(self.radii.x as int)
        } else {
            self.radii.x as int
        }
    }

    /// The signed radius on the vertical axis: negated when flipped.
    pub open spec fn spec_signed_ry(self) -> int {
        if self.flip_y {
            -(self.radii.y as int)
        } else {
            self.radii.y as int
        }
    }

    /// The encoded slots of the quarter pie: the origin translated then
    /// scaled, the signed scaled radii, and the color.
    pub open spec fn spec_slots(self, tr: Vec2i, s: i64) -> Seq<Slot> {
        seq![
            whole((self.origin.x + tr.x) * s),
            whole((self.origin.y + tr.y) * s),
            whole(self.spec_signed_rx() * s),
            whole(self.spec_signed_ry() * s),
            Slot::Bits(self.color),
        ]
    }

    /// Append the encoded slots of the quarter pie to `buf`.
    fn append_slots(&self, buf: &mut Vec<Slot>, tr: Vec2i, s: i64)
        requires
            self.wf(),
            tr.in_range(),
            1 <= s <= SCALE_LIMIT,
        ensures
            final(buf)@ == old(buf)@ + self.spec_slots(tr, s),
    {
        let ghost start = buf@;
        let rx = if self.flip_x {
            -self.radii.x
        } else {
            self.radii.x
        };
        let ry = if self.flip_y {
            -self.radii.y
        } else {
            self.radii.y
        };
        buf.push(Slot::Value { num: scaled(self.origin.x + tr.x, s), den: 1 });
        buf.push(Slot::Value { num: scaled(self.origin.y + tr.y, s), den: 1 });
        buf.push(Slot::Value { num: scaled(rx, s), den: 1 });
        buf.push(Slot::Value { num: scaled(ry, s), den: 1 });
        buf.push(Slot::Bits(self.color));
        proof {
            assert(buf@ =~= start + self.spec_slots(tr, s));
        }
    }
}

/// Drawing primitives.
///
/// The drawing primitives are the lowest-level concepts mapping directly
/// to shader instructions.
#[derive(Debug, Clone, Copy)]
pub enum Primitive {
    /// A line between two points, with a color and thickness.
    Line(LinePrimitive),
    /// An axis-aligned rectangle with a color, optional rounded corners,
    /// and optional texture.
    Rect(RectPrimitive),
    /// A reference to an externally-resolved text.
    Text(TextPrimitive),
    /// A quarter of an ellipse.
    QuarterPie(QuarterPiePrimitive),
}

impl Primitive {
    /// Well-formed primitive: the variant's own well-formedness.
    pub open spec fn wf(self) -> bool {
        match self {
            Primitive::Line(l) => l.wf(),
            Primitive::Rect(r) => r.wf(),
            Primitive::Text(t) => t.wf(),
            Primitive::QuarterPie(q) => q.wf(),
        }
    }

    /// The shader kind of the primitive.
    pub open spec fn spec_gpu_kind(self) -> GpuPrimitiveKind {
        match self {
            Primitive::Line(_) => GpuPrimitiveKind::Line,
            Primitive::Rect(_) => GpuPrimitiveKind::Rect,
            Primitive::Text(_) => GpuPrimitiveKind::Glyph,
            Primitive::QuarterPie(_) => GpuPrimitiveKind::QuarterPie,
        }
    }

    /// Get the [`GpuPrimitiveKind`] of a primitive.
    pub fn gpu_kind(&self) -> (r: GpuPrimitiveKind)
        ensures
            r == self.spec_gpu_kind(),
    {
        match self {
            Primitive::Line(_) => GpuPrimitiveKind::Line,
            Primitive::Rect(_) => GpuPrimitiveKind::Rect,
            Primitive::Text(_) => GpuPrimitiveKind::Glyph,
            Primitive::QuarterPie(_) => GpuPrimitiveKind::QuarterPie,
        }
    }

    /// The intrinsic bounding box of a non-text primitive (a text box
    /// depends on externally resolved glyph data).
    pub open spec fn spec_aabb(self) -> Box2i {
        match self {
            Primitive::Line(l) => l.spec_aabb(),
            Primitive::Rect(r) => r.spec_aabb(),
            Primitive::Text(_) => Box2i {
                min: Vec2i { x: 0, y: 0 },
                max: Vec2i { x: 0, y: 0 },
            },
            Primitive::QuarterPie(q) => q.spec_aabb(),
        }
    }

    /// Get the bounding box of a primitive.
    ///
    /// The box is conservative: it encloses the whole primitive but need
    /// not fit it tightly. The bounding box of a text cannot be computed
    /// intrinsically — it requires externally resolved glyph data, see
    /// [`TextPrimitive::aabb`] — so text is excluded here.
    pub fn aabb(&self) -> (r: Box2i)
        requires
            self.wf(),
            !(self is Text),
        ensures
            r == self.spec_aabb(),
    {
        match self {
            Primitive::Line(l) => l.aabb(),
            Primitive::Rect(r) => r.aabb(),
            Primitive::Text(_) => Box2i {
                min: Vec2i { x: 0, y: 0 },
                max: Vec2i { x: 0, y: 0 },
            },
            Primitive::QuarterPie(q) => q.aabb(),
        }
    }

    /// Whether the primitive is textured. Text is not textured in the
    /// sense of regular texture mapping (its glyphs sample the atlas).
    pub open spec fn spec_is_textured(self) -> bool {
        match self {
            Primitive::Rect(r) => r.spec_is_textured(),
            _ => false,
        }
    }

    /// Is the primitive textured?
    pub fn is_textured(&self) -> (r: bool)
        ensures
            r == self.spec_is_textured(),
    {
        match self {
            Primitive::Rect(r) => r.is_textured(),
            _ => false,
        }
    }

    /// Whether the primitive is bordered.
    pub open spec fn spec_is_bordered(self) -> bool {
        match self {
            Primitive::Line(l) => l.spec_is_bordered(),
            Primitive::Rect(r) => r.spec_is_bordered(),
            _ => false,
        }
    }

    /// Is the primitive bordered?
    pub fn is_bordered(&self) -> (r: bool)
        ensures
            r == self.spec_is_bordered(),
    {
        match self {
            Primitive::Line(l) => l.is_bordered(),
            Primitive::Rect(r) => r.is_bordered(),
            _ => false,
        }
    }

    /// Buffer rows per sub-primitive.
    pub open spec fn spec_row_count(self, texts: Seq<ResolvedText>) -> int {
        match self {
            Primitive::Line(l) => l.spec_row_count(),
            Primitive::Rect(r) => r.spec_row_count(),
            Primitive::Text(t) => if (t.id as int) < texts.len() {
                ROWS_PER_GLYPH as int
            } else {
                0
            },
            Primitive::QuarterPie(_) => ROWS_QUARTER_PIE as int,
        }
    }

    /// Number of sub-primitives: one for non-text primitives, one per
    /// resolved glyph for text (zero when the id has no resolved data).
    pub open spec fn spec_sub_count(self, texts: Seq<ResolvedText>) -> int {
        match self {
            Primitive::Text(t) => if (t.id as int) < texts.len() {
                texts[t.id as int].glyphs@.len() as int
            } else {
                0
            },
            _ => 1,
        }
    }

    /// Row count and sub-primitive count for drawing this primitive.
    pub fn info(&self, texts: &Vec<ResolvedText>) -> (r: PrimitiveInfo)
        requires
            spec_texts_wf(texts@),
        ensures
            r.row_count == self.spec_row_count(texts@),
            r.sub_prim_count == self.spec_sub_count(texts@),
    {
        match self {
            Primitive::Line(l) => PrimitiveInfo {
                row_count: if l.is_bordered() {
                    ROWS_LINE + ROWS_LINE_BORDER
                } else {
                    ROWS_LINE
                },
                sub_prim_count: 1,
            },
            Primitive::Rect(r) => PrimitiveInfo { row_count: r.row_count(), sub_prim_count: 1 },
            Primitive::Text(t) => {
                if (t.id as usize) < texts.len() {
                    let glyph_count = texts[t.id as usize].glyphs.len();
                    PrimitiveInfo {
                        row_count: ROWS_PER_GLYPH,
                        sub_prim_count: glyph_count as u32,
                    }
                } else {
                    PrimitiveInfo { row_count: 0, sub_prim_count: 0 }
                }
            },
            Primitive::QuarterPie(_) => PrimitiveInfo {
                row_count: ROWS_QUARTER_PIE,
                sub_prim_count: 1,
            },
        }
    }

    /// The full encoded slot sequence of the primitive: `row_count` slots
    /// per sub-primitive, in sub-primitive order.
    pub open spec fn spec_slots(self, texts: Seq<ResolvedText>, tr: Vec2i, s: i64) -> Seq<Slot> {
        match self {
            Primitive::Line(l) => l.spec_slots(tr, s),
            Primitive::Rect(r) => r.spec_slots(tr, s),
            Primitive::Text(t) => t.spec_slots(texts, tr, s),
            Primitive::QuarterPie(q) => q.spec_slots(tr, s),
        }
    }

    /// Serialize the primitive by appending its encoded slots to `buf`,
    /// converting canvas coordinates to device pixels by translating by
    /// `tr` then uniformly scaling by `s`.
    pub fn encode_append(
        &self,
        texts: &Vec<ResolvedText>,
        buf: &mut Vec<Slot>,
        tr: Vec2i,
        s: i64,
    )
        requires
            self.wf(),
            spec_texts_wf(texts@),
            tr.in_range(),
            1 <= s <= SCALE_LIMIT,
        ensures
            final(buf)@ == old(buf)@ + self.spec_slots(texts@, tr, s),
    {
        match self {
            Primitive::Line(l) => l.append_slots(buf, tr, s),
            Primitive::Rect(r) => r.append_slots(buf, tr, s),
            Primitive::Text(t) => t.append_slots(texts, buf, tr, s),
            Primitive::QuarterPie(q) => q.append_slots(buf, tr, s),
        }
    }

    /// Serialize the primitive into the provided buffer, whose length must
    /// be exactly the primitive's total row count (`row_count` times
    /// `sub_prim_count`); every slot of the buffer is written. Any other
    /// buffer length violates the contract.
    pub fn encode(&self, texts: &Vec<ResolvedText>, out: &mut Vec<Slot>, tr: Vec2i, s: i64)
        requires
            self.wf(),
            spec_texts_wf(texts@),
            tr.in_range(),
            1 <= s <= SCALE_LIMIT,
            old(out)@.len() == self.spec_row_count(texts@) * self.spec_sub_count(texts@),
        ensures
            final(out)@ == self.spec_slots(texts@, tr, s),
            final(out)@.len() == old(out)@.len(),
    {
        proof {
            lemma_row_count_exact(*self, texts@, tr, s);
        }
        out.clear();
        self.encode_append(texts, out, tr, s);
    }
}

/// The glyph-slot prefix grows by exactly [`ROWS_PER_GLYPH`] rows per
/// glyph.
proof fn lemma_text_slots_prefix_len(
    t: TextPrimitive,
    glyphs: Seq<GlyphData>,
    tr: Vec2i,
    s: i64,
    n: int,
)
    requires
        0 <= n,
    ensures
        t.spec_slots_prefix(glyphs, tr, s, n).len() == n * (ROWS_PER_GLYPH as int),
    decreases n,
{
    if n > 0 {
        lemma_text_slots_prefix_len(t, glyphs, tr, s, n - 1);
        assert((n - 1) * (ROWS_PER_GLYPH as int) + (ROWS_PER_GLYPH as int) == n * (
        ROWS_PER_GLYPH as int)) by (nonlinear_arith);
    }
}

impl From<LinePrimitive> for Primitive {
    /// Wrap a line as a primitive.
    fn from(line: LinePrimitive) -> (r: Self) {
        Primitive::Line(line)
    }
}

impl vstd::std_specs::convert::FromSpecImpl<LinePrimitive> for Primitive {
    open spec fn obeys_from_spec() -> bool {
        true
    }

    open spec fn from_spec(line: LinePrimitive) -> Primitive {
        Primitive::Line(line)
    }
}

impl From<RectPrimitive> for Primitive {
    /// Wrap a rectangle as a primitive.
    fn from(rect: RectPrimitive) -> (r: Self) {
        Primitive::Rect(rect)
    }
}

impl vstd::std_specs::convert::FromSpecImpl<RectPrimitive> for Primitive {
    open spec fn obeys_from_spec() -> bool {
        true
    }

    open spec fn from_spec(rect: RectPrimitive) -> Primitive {
        Primitive::Rect(rect)
    }
}

impl From<TextPrimitive> for Primitive {
    /// Wrap a text reference as a primitive.
    fn from(text: TextPrimitive) -> (r: Self) {
        Primitive::Text(text)
    }
}

impl vstd::std_specs::convert::FromSpecImpl<TextPrimitive> for Primitive {
    open spec fn obeys_from_spec() -> bool {
        true
    }

    open spec fn from_spec(text: TextPrimitive) -> Primitive {
        Primitive::Text(text)
    }
}

impl From<QuarterPiePrimitive> for Primitive {
    /// Wrap a quarter pie as a primitive.
    fn from(qpie: QuarterPiePrimitive) -> (r: Self) {
        Primitive::QuarterPie(qpie)
    }
}

impl vstd::std_specs::convert::FromSpecImpl<QuarterPiePrimitive> for Primitive {
    open spec fn obeys_from_spec() -> bool {
        true
    }

    open spec fn from_spec(qpie: QuarterPiePrimitive) -> Primitive {
        Primitive::QuarterPie(qpie)
    }
}

/// Row-count exactness: the encoded slot sequence of a primitive holds
/// exactly `row_count` slots per sub-primitive.
pub proof fn lemma_row_count_exact(p: Primitive, texts: Seq<ResolvedText>, tr: Vec2i, s: i64)
    ensures
        p.spec_slots(texts, tr, s).len() == p.spec_row_count(texts) * p.spec_sub_count(texts),
{
    match p {
        Primitive::Text(t) => {
            if (t.id as int) < texts.len() {
                let glyphs = texts[t.id as int].glyphs@;
                lemma_text_slots_prefix_len(t, glyphs, tr, s, glyphs.len() as int);
                assert((ROWS_PER_GLYPH as int) * (glyphs.len() as int) == (glyphs.len() as int) * (
                ROWS_PER_GLYPH as int)) by (nonlinear_arith);
            }
        },
        _ => {},
    }
}

} // verus!
