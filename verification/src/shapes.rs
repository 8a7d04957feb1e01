//! Shapes drawable on a [`Canvas`].
//!
//! A shape can be filled with a solid color, or stroked: stroking draws
//! only the edge of the shape, as a run of thin rectangles (and, for
//! rounded rectangles, quarter pies at the corners), centered on the
//! shape's boundary. Each operation states exactly which primitives it
//! appends to the canvas.

use vstd::prelude::*;

use crate::canvas::Canvas;
use crate::geom::{min_i64, spec_min, Box2i, Vec2i, COORD_LIMIT};
use crate::primitive::{Primitive, QuarterPiePrimitive, RectPrimitive};
use crate::scaling::ImageScaling;

verus! {

/// A plain rectangle primitive with the given box and color and no
/// rounding, texture or border.
pub open spec fn spec_solid_rect(rect: Box2i, radius: i64, color: u32) -> Primitive {
    Primitive::Rect(
        RectPrimitive {
            rect,
            radius,
            color,
            image: None,
            image_size: Vec2i { x: 0, y: 0 },
            image_scaling: ImageScaling::Uniform { num: 1, den: 1 },
            flip_x: false,
            flip_y: false,
            border_width: 0,
            border_color: 0,
        },
    )
}

/// Build a plain solid-color rectangle primitive.
fn solid_rect(rect: Box2i, radius: i64, color: u32) -> (r: Primitive)
    ensures
        r == spec_solid_rect(rect, radius, color),
{
    Primitive::Rect(
        RectPrimitive {
            rect,
            radius,
            color,
            image: None,
            image_size: Vec2i { x: 0, y: 0 },
            image_scaling: ImageScaling::Uniform { num: 1, den: 1 },
            flip_x: false,
            flip_y: false,
            border_width: 0,
            border_color: 0,
        },
    )
}

/// Abstraction of a shape to draw on a [`Canvas`].
pub trait Shape {
    /// Shape geometry the drawing operations accept.
    spec fn wf(&self) -> bool;

    /// The single primitive appended by [`Shape::fill`].
    spec fn spec_fill(&self, color: u32) -> Primitive;

    /// The primitives appended by [`Shape::stroke`], in draw order.
    spec fn spec_stroke(&self, color: u32, thickness: i64) -> Seq<Primitive>;

    /// Fill the shape with a solid color. Returns the index of the drawn
    /// primitive in the canvas.
    fn fill(&self, canvas: &mut Canvas, color: u32) -> (idx: usize)
        requires
            self.wf(),
        ensures
            final(canvas).spec_rect() == old(canvas).spec_rect(),
            final(canvas).background_color == old(canvas).background_color,
            final(canvas).spec_primitives() == old(canvas).spec_primitives().push(
                self.spec_fill(color),
            ),
            idx == old(canvas).spec_primitives().len(),
    ;

    /// Stroke the shape with the given color and thickness.
    ///
    /// The stroke is centered on the shape's edge and extends by half the
    /// thickness (rounded down) on both sides. This touches only the
    /// tiles along the edge, which is more efficient than filling a large
    /// shape with a transparent interior.
    fn stroke(&self, canvas: &mut Canvas, color: u32, thickness: i64)
        requires
            self.wf(),
            0 <= thickness <= COORD_LIMIT,
        ensures
            final(canvas).spec_rect() == old(canvas).spec_rect(),
            final(canvas).background_color == old(canvas).background_color,
            final(canvas).spec_primitives() == old(canvas).spec_primitives()
                + self.spec_stroke(color, thickness),
    ;
}

impl Shape for Box2i {
    /// Bounded corners.
    open spec fn wf(&self) -> bool {
        self.in_range()
    }

    /// The rectangle itself, unrounded.
    open spec fn spec_fill(&self, color: u32) -> Primitive {
        spec_solid_rect(*self, 0, color)
    }

    /// Four thin rectangles: top and bottom spanning the corners, then
    /// left and right between them, each extending by half the thickness
    /// on both sides of the edge.
    open spec fn spec_stroke(&self, color: u32, thickness: i64) -> Seq<Primitive> {
        let e = thickness / 2;
        seq![
            spec_solid_rect(
                Box2i {
                    min: Vec2i { x: (self.min.x - e) as i64, y: (self.max.y - e) as i64 },
                    max: Vec2i { x: (self.max.x + e) as i64, y: (self.max.y + e) as i64 },
                },
                0,
                color,
            ),
            spec_solid_rect(
                Box2i {
                    min: Vec2i { x: (self.min.x - e) as i64, y: (self.min.y - e) as i64 },
                    max: Vec2i { x: (self.max.x + e) as i64, y: (self.min.y + e) as i64 },
                },
                0,
                color,
            ),
            spec_solid_rect(
                Box2i {
                    min: Vec2i { x: (self.min.x - e) as i64, y: (self.min.y + e) as i64 },
                    max: Vec2i { x: (self.min.x + e) as i64, y: (self.max.y - e) as i64 },
                },
                0,
                color,
            ),
            spec_solid_rect(
                Box2i {
                    min: Vec2i { x: (self.max.x - e) as i64, y: (self.min.y + e) as i64 },
                    max: Vec2i { x: (self.max.x + e) as i64, y: (self.max.y - e) as i64 },
                },
                0,
                color,
            ),
        ]
    }

    fn fill(&self, canvas: &mut Canvas, color: u32) -> (idx: usize) {
        canvas.draw(solid_rect(*self, 0, color))
    }

    fn stroke(&self, canvas: &mut Canvas, color: u32, thickness: i64) {
        let e = thickness / 2;
        let ghost before = canvas.spec_primitives();

        // Top (including corners)
        canvas.draw(
            solid_rect(
                Box2i {
                    min: Vec2i { x: self.min.x - e, y: self.max.y - e },
                    max: Vec2i { x: self.max.x + e, y: self.max.y + e },
                },
                0,
                color,
            ),
        );

        // Bottom (including corners)
        canvas.draw(
            solid_rect(
                Box2i {
                    min: Vec2i { x: self.min.x - e, y: self.min.y - e },
                    max: Vec2i { x: self.max.x + e, y: self.min.y + e },
                },
                0,
                color,
            ),
        );

        // Left (excluding corners)
        canvas.draw(
            solid_rect(
                Box2i {
                    min: Vec2i { x: self.min.x - e, y: self.min.y + e },
                    max: Vec2i { x: self.min.x + e, y: self.max.y - e },
                },
                0,
                color,
            ),
        );

        // Right (excluding corners)
        canvas.draw(
            solid_rect(
                Box2i {
                    min: Vec2i { x: self.max.x - e, y: self.min.y + e },
                    max: Vec2i { x: self.max.x + e, y: self.max.y - e },
                },
                0,
                color,
            ),
        );

        proof {
            assert(canvas.spec_primitives() =~= before + self.spec_stroke(color, thickness));
        }
    }
}

/// Rounded rectangle shape.
#[derive(Debug, Clone, Copy, PartialEq, Eq, Structural)]
pub struct RoundedRect {
    /// The rectangle itself, inclusive of the rounded corners.
    pub rect: Box2i,
    /// The radius of the corners.
    pub radius: i64,
}

impl RoundedRect {
    /// Create a circle shape: a rounded "rectangle" (square, really)
    /// whose corner radius equals the square's half size.
    pub fn circle(center: Vec2i, radius: i64) -> (r: RoundedRect)
        requires
            center.in_range(),
            0 <= radius <= COORD_LIMIT,
        ensures
            r.rect.min.x == center.x - radius,
            r.rect.min.y == center.y - radius,
            r.rect.max.x == center.x + radius,
            r.rect.max.y == center.y + radius,
            r.radius == radius,
    {
        RoundedRect {
            rect: Box2i {
                min: Vec2i { x: center.x - radius, y: center.y - radius },
                max: Vec2i { x: center.x + radius, y: center.y + radius },
            },
            radius,
        }
    }

    /// Corner radii actually used when stroking: the nominal radius,
    /// limited per axis to the rectangle's half size.
    pub open spec fn spec_radii(&self) -> (int, int) {
        (
            spec_min(self.radius as int, (self.rect.max.x - self.rect.min.x) / 2),
            spec_min(self.radius as int, (self.rect.max.y - self.rect.min.y) / 2),
        )
    }
}

impl Shape for RoundedRect {
    /// Bounded, non-inverted corners and a bounded non-negative radius.
    open spec fn wf(&self) -> bool {
        &&& self.rect.in_range()
        &&& self.rect.min.x <= self.rect.max.x
        &&& self.rect.min.y <= self.rect.max.y
        &&& 0 <= self.radius <= COORD_LIMIT
    }

    /// The rectangle itself, with its corner radius.
    open spec fn spec_fill(&self, color: u32) -> Primitive {
        spec_solid_rect(self.rect, self.radius, color)
    }

    /// Four thin rectangles along the straight parts of the edges —
    /// top, bottom, left, right — followed by four quarter pies at the
    /// corners: top-left, top-right, bottom-left, bottom-right.
    open spec fn spec_stroke(&self, color: u32, thickness: i64) -> Seq<Primitive> {
        let e = thickness / 2;
        let rx = self.spec_radii().0;
        let ry = self.spec_radii().1;
        seq![
            spec_solid_rect(
                Box2i {
                    min: Vec2i { x: (self.rect.min.x + rx) as i64, y: (self.rect.max.y - e) as i64 },
                    max: Vec2i { x: (self.rect.max.x - rx) as i64, y: (self.rect.max.y + e) as i64 },
                },
                0,
                color,
            ),
            spec_solid_rect(
                Box2i {
                    min: Vec2i { x: (self.rect.min.x + rx) as i64, y: (self.rect.min.y - e) as i64 },
                    max: Vec2i { x: (self.rect.max.x - rx) as i64, y: (self.rect.min.y + e) as i64 },
                },
                0,
                color,
            ),
            spec_solid_rect(
                Box2i {
                    min: Vec2i { x: (self.rect.min.x - e) as i64, y: (self.rect.min.y + ry) as i64 },
                    max: Vec2i { x: (self.rect.min.x + e) as i64, y: (self.rect.max.y - ry) as i64 },
                },
                0,
                color,
            ),
            spec_solid_rect(
                Box2i {
                    min: Vec2i { x: (self.rect.max.x - e) as i64, y: (self.rect.min.y + ry) as i64 },
                    max: Vec2i { x: (self.rect.max.x + e) as i64, y: (self.rect.max.y - ry) as i64 },
                },
                0,
                color,
            ),
            Primitive::QuarterPie(
                QuarterPiePrimitive {
                    origin: Vec2i {
                        x: (self.rect.min.x + rx) as i64,
                        y: (self.rect.max.y - ry) as i64,
                    },
                    radii: Vec2i { x: rx as i64, y: ry as i64 },
                    color,
                    flip_x: true,
                    flip_y: false,
                },
            ),
            Primitive::QuarterPie(
                QuarterPiePrimitive {
                    origin: Vec2i {
                        x: (self.rect.max.x - rx) as i64,
                        y: (self.rect.max.y - ry) as i64,
                    },
                    radii: Vec2i { x: rx as i64, y: ry as i64 },
                    color,
                    flip_x: false,
                    flip_y: false,
                },
            ),
            Primitive::QuarterPie(
                QuarterPiePrimitive {
                    origin: Vec2i {
                        x: (self.rect.min.x + rx) as i64,
                        y: (self.rect.min.y + ry) as i64,
                    },
                    radii: Vec2i { x: rx as i64, y: ry as i64 },
                    color,
                    flip_x: true,
                    flip_y: true,
                },
            ),
            Primitive::QuarterPie(
                QuarterPiePrimitive {
                    origin: Vec2i {
                        x: (self.rect.max.x - rx) as i64,
                        y: (self.rect.min.y + ry) as i64,
                    },
                    radii: Vec2i { x: rx as i64, y: ry as i64 },
                    color,
                    flip_x: false,
                    flip_y: true,
                },
            ),
        ]
    }

    fn fill(&self, canvas: &mut Canvas, color: u32) -> (idx: usize) {
        canvas.draw(solid_rect(self.rect, self.radius, color))
    }

    fn stroke(&self, canvas: &mut Canvas, color: u32, thickness: i64) {
        let e = thickness / 2;
        let rx = min_i64(self.radius, (self.rect.max.x - self.rect.min.x) / 2);
        let ry = min_i64(self.radius, (self.rect.max.y - self.rect.min.y) / 2);
        let ghost before = canvas.spec_primitives();

        // Top
        canvas.draw(
            solid_rect(
                Box2i {
                    min: Vec2i { x: self.rect.min.x + rx, y: self.rect.max.y - e },
                    max: Vec2i { x: self.rect.max.x - rx, y: self.rect.max.y + e },
                },
                0,
                color,
            ),
        );

        // Bottom
        canvas.draw(
            solid_rect(
                Box2i {
                    min: Vec2i { x: self.rect.min.x + rx, y: self.rect.min.y - e },
                    max: Vec2i { x: self.rect.max.x - rx, y: self.rect.min.y + e },
                },
                0,
                color,
            ),
        );

        // Left
        canvas.draw(
            solid_rect(
                Box2i {
                    min: Vec2i { x: self.rect.min.x - e, y: self.rect.min.y + ry },
                    max: Vec2i { x: self.rect.min.x + e, y: self.rect.max.y - ry },
                },
                0,
                color,
            ),
        );

        // Right
        canvas.draw(
            solid_rect(
                Box2i {
                    min: Vec2i { x: self.rect.max.x - e, y: self.rect.min.y + ry },
                    max: Vec2i { x: self.rect.max.x + e, y: self.rect.max.y - ry },
                },
                0,
                color,
            ),
        );

        // Top-left corner
        canvas.draw(
            Primitive::QuarterPie(
                QuarterPiePrimitive {
                    origin: Vec2i { x: self.rect.min.x + rx, y: self.rect.max.y - ry },
                    radii: Vec2i { x: rx, y: ry },
                    color,
                    flip_x: true,
                    flip_y: false,
                },
            ),
        );

        // Top-right corner
        canvas.draw(
            Primitive::QuarterPie(
                QuarterPiePrimitive {
                    origin: Vec2i { x: self.rect.max.x - rx, y: self.rect.max.y - ry },
                    radii: Vec2i { x: rx, y: ry },
                    color,
                    flip_x: false,
                    flip_y: false,
                },
            ),
        );

        // Bottom-left corner
        canvas.draw(
            Primitive::QuarterPie(
                QuarterPiePrimitive {
                    origin: Vec2i { x: self.rect.min.x + rx, y: self.rect.min.y + ry },
                    radii: Vec2i { x: rx, y: ry },
                    color,
                    flip_x: true,
                    flip_y: true,
                },
            ),
        );

        // Bottom-right corner
        canvas.draw(
            Primitive::QuarterPie(
                QuarterPiePrimitive {
                    origin: Vec2i { x: self.rect.max.x - rx, y: self.rect.min.y + ry },
                    radii: Vec2i { x: rx, y: ry },
                    color,
                    flip_x: false,
                    flip_y: true,
                },
            ),
        );

        proof {
            assert(canvas.spec_primitives() =~= before + self.spec_stroke(color, thickness));
        }
    }
}

} // verus!
