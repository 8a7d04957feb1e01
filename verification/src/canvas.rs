//! A canvas: the drawing surface storing the frame's draw commands.
//!
//! A canvas owns the ordered list of primitives drawn during the current
//! frame. The list is consumed once per frame by the batching engine (see
//! [`crate::batch::prepare_frame`]) and cleared to start the next frame —
//! commands are not reused from one frame to the other (immediate-mode
//! rendering).

use vstd::prelude::*;

use crate::geom::{max_i64, Box2i, Vec2i};
use crate::primitive::{Primitive, RectPrimitive};
use crate::scaling::ImageScaling;

verus! {

/// Drawing surface for 2D graphics.
///
/// Each surface is fully independent: it owns its own primitive list, and
/// the tile grid and buffers built from it share nothing across surfaces.
#[derive(Debug)]
pub struct Canvas {
    /// The canvas dimensions relative to its origin.
    pub rect: Box2i,
    /// Optional background color (packed linear RGBA) to clear the canvas
    /// with. When set, each [`Canvas::clear`] starts the frame with a
    /// full-canvas rectangle of that color; otherwise the canvas starts
    /// empty.
    pub background_color: Option<u32>,
    /// Collection of drawn primitives. Draw through [`Canvas::draw`];
    /// the frame pipeline reads the list through [`Canvas::buffer`].
    pub primitives: Vec<Primitive>,
}

impl Canvas {
    /// The canvas dimensions.
    pub open spec fn spec_rect(self) -> Box2i {
        self.rect
    }

    /// The primitives drawn since the last clear, in draw order.
    pub open spec fn spec_primitives(self) -> Seq<Primitive> {
        self.primitives@
    }

    /// The full-canvas background rectangle drawn by [`Canvas::clear`]
    /// when a background color is set.
    pub open spec fn spec_background_rect(self, color: u32) -> Primitive {
        Primitive::Rect(
            RectPrimitive {
                rect: self.spec_rect(),
                radius: 0,
                color,
                image: None,
                image_size: Vec2i { x: 0, y: 0 },
                image_scaling: ImageScaling::Uniform { num: 1, den: 1 },
                flip_x: false,
                flip_y: false,
                border_width: 0,
                border_color: 0,
            },
        )
    }

    /// Create a new canvas with the given dimensions, no background color
    /// and nothing drawn.
    pub fn new(rect: Box2i) -> (r: Canvas)
        ensures
            r.spec_rect() == rect,
            r.background_color is None,
            r.spec_primitives() == Seq::<Primitive>::empty(),
    {
        Canvas { rect, background_color: None, primitives: Vec::new() }
    }

    /// Change the dimensions of the canvas.
    pub fn set_rect(&mut self, rect: Box2i)
        ensures
            final(self).spec_rect() == rect,
            final(self).background_color == old(self).background_color,
            final(self).spec_primitives() == old(self).spec_primitives(),
    {
        self.rect = rect;
    }

    /// Get the dimensions of the canvas relative to its origin.
    pub fn rect(&self) -> (r: Box2i)
        ensures
            r == self.spec_rect(),
    {
        self.rect
    }

    /// Clear the canvas, discarding all primitives previously drawn on it.
    ///
    /// If the canvas has a [`background_color`], this leaves the canvas
    /// with a single full-canvas rectangle of that color; otherwise the
    /// canvas is left empty.
    ///
    /// [`background_color`]: Canvas::background_color
    pub fn clear(&mut self)
        ensures
            final(self).spec_rect() == old(self).spec_rect(),
            final(self).background_color == old(self).background_color,
            final(self).spec_primitives() == match old(self).background_color {
                Some(color) => seq![old(self).spec_background_rect(color)],
                None => Seq::<Primitive>::empty(),
            },
    {
        self.primitives.clear();
        if let Some(color) = self.background_color {
            let rect = self.rect;
            self.draw(
                Primitive::Rect(
                    RectPrimitive {
                        rect,
                        radius: 0,
                        color,
                        image: None,
                        image_size: Vec2i { x: 0, y: 0 },
                        image_scaling: ImageScaling::Uniform { num: 1, den: 1 },
                        flip_x: false,
                        flip_y: false,
                        border_width: 0,
                        border_color: 0,
                    },
                ),
            );
            proof {
                assert(self.spec_primitives() =~= seq![
                    old(self).spec_background_rect(color),
                ]);
            }
        }
    }

    /// Draw a new primitive onto the canvas, after everything drawn
    /// before. Returns the index of the primitive in the canvas, usable
    /// with [`Canvas::set_border`].
    pub fn draw(&mut self, prim: Primitive) -> (idx: usize)
        ensures
            final(self).spec_rect() == old(self).spec_rect(),
            final(self).background_color == old(self).background_color,
            final(self).spec_primitives() == old(self).spec_primitives().push(prim),
            idx == old(self).spec_primitives().len(),
    {
        let idx = self.primitives.len();
        self.primitives.push(prim);
        idx
    }

    /// Add a border to a previously drawn line or rectangle: sets its
    /// border color, and its border width to the given thickness clamped
    /// to zero from below. Other primitive kinds take no border.
    pub fn set_border(&mut self, index: usize, thickness: i64, color: u32)
        requires
            index < old(self).spec_primitives().len(),
            old(self).spec_primitives()[index as int] is Line || old(self).spec_primitives()[
                index as int
            ] is Rect,
        ensures
            final(self).spec_rect() == old(self).spec_rect(),
            final(self).background_color == old(self).background_color,
            final(self).spec_primitives().len() == old(self).spec_primitives().len(),
            forall|i: int|
                0 <= i < old(self).spec_primitives().len() && i != index ==> final(
                    self
                ).spec_primitives()[i] == old(self).spec_primitives()[i],
            ({
                let w: i64 = if thickness >= 0 {
                    thickness
                } else {
                    0
                };
                match old(self).spec_primitives()[index as int] {
                    Primitive::Line(l) => final(self).spec_primitives()[index as int]
                        == Primitive::Line(
                        crate::primitive::LinePrimitive {
                            border_width: w,
                            border_color: color,
                            ..l
                        },
                    ),
                    Primitive::Rect(r) => final(self).spec_primitives()[index as int]
                        == Primitive::Rect(
                        RectPrimitive { border_width: w, border_color: color, ..r },
                    ),
                    _ => true,
                }
            }),
    {
        let w = max_i64(thickness, 0);
        let prim = self.primitives[index];
        match prim {
            Primitive::Line(l) => {
                let mut nl = l;
                nl.border_width = w;
                nl.border_color = color;
                self.primitives.set(index, Primitive::Line(nl));
            },
            Primitive::Rect(r) => {
                let mut nr = r;
                nr.border_width = w;
                nr.border_color = color;
                self.primitives.set(index, Primitive::Rect(nr));
            },
            _ => {},
        }
    }

    /// Read-only access to the primitives drawn this frame, in draw
    /// order, for the frame pipeline.
    pub fn buffer(&self) -> (r: &Vec<Primitive>)
        ensures
            r@ == self.spec_primitives(),
    {
        &self.primitives
    }
}

} // verus!
