//! Resolved text data supplied by the external text shaper.
//!
//! This crate does not shape or rasterize text. A text primitive only
//! references a text id; the collaborator that owns text layout hands over,
//! per id, the list of positioned glyphs already resolved against the glyph
//! atlas. An id with no resolved data is an expected transient state: such a
//! text contributes zero sub-primitives and zero encoded rows.

use vstd::prelude::*;

use crate::geom::{Vec2i, COORD_LIMIT};

verus! {

/// Width and height, in pixels, of the square glyph atlas texture.
pub const ATLAS_SIZE: i64 = 1024;

/// Largest number of glyphs accepted for one resolved text.
pub const GLYPH_LIMIT: usize = 16777216;

/// One positioned glyph of a resolved text.
#[derive(Debug, Clone, Copy, PartialEq, Eq, Structural)]
pub struct GlyphData {
    /// Offset of the glyph from the text origin, in device pixels.
    pub offset: Vec2i,
    /// Size of the glyph, in device pixels.
    pub size: Vec2i,
    /// Glyph color, as packed 32-bit linear RGBA.
    pub color: u32,
    /// Lower corner, in atlas pixels, of the glyph's area in the atlas.
    pub uv_min: Vec2i,
    /// Upper corner, in atlas pixels, of the glyph's area in the atlas.
    pub uv_max: Vec2i,
    /// Identity of the atlas texture holding the glyph.
    pub atlas: u64,
}

impl GlyphData {
    /// Well-formed glyph: bounded offset, non-negative bounded size, and
    /// atlas coordinates inside the atlas.
    pub open spec fn wf(self) -> bool {
        &&& self.offset.in_range()
        &&& self.size.in_extent_range()
        &&& 0 <= self.uv_min.x <= ATLAS_SIZE
        &&& 0 <= self.uv_min.y <= ATLAS_SIZE
        &&& 0 <= self.uv_max.x <= ATLAS_SIZE
        &&& 0 <= self.uv_max.y <= ATLAS_SIZE
    }
}

/// All resolved glyphs of one text, in layout order.
#[derive(Debug)]
pub struct ResolvedText {
    /// The positioned glyphs of the text.
    pub glyphs: Vec<GlyphData>,
}

impl ResolvedText {
    /// Well-formed resolved text: a bounded number of well-formed glyphs.
    pub open spec fn wf(self) -> bool {
        &&& self.glyphs@.len() <= GLYPH_LIMIT
        &&& forall|i: int| 0 <= i < self.glyphs@.len() ==> self.glyphs@[i].wf()
    }
}

/// Every resolved text in the list is well-formed.
pub open spec fn spec_texts_wf(texts: Seq<ResolvedText>) -> bool {
    forall|i: int| 0 <= i < texts.len() ==> texts[i].wf()
}

} // verus!
