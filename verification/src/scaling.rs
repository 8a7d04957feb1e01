//! Image scaling modes and exact aspect-fit arithmetic.
//!
//! An image drawn into a content rectangle can be scaled uniformly,
//! stretched, or fitted to the content on one or both axes while keeping
//! its aspect ratio. All the fitting arithmetic is exact: sizes are
//! integers and ratios are applied by multiplying before dividing.

use vstd::prelude::*;

use crate::geom::{max_i64, Box2i, Vec2i, COORD_LIMIT};

verus! {

/// Scaling applied to an image drawn into a content rectangle.
#[derive(Debug, Clone, Copy, PartialEq, Eq, Structural)]
pub enum ImageScaling {
    /// Scale the image uniformly by the exact ratio `num / den`.
    ///
    /// `num == den` draws the image at its native size; a larger `num`
    /// zooms in, a smaller one zooms out.
    Uniform { num: i64, den: i64 },
    /// Fit the image width to the content width.
    ///
    /// If `true`, stretch the height; otherwise keep the aspect ratio and
    /// crop it.
    FitWidth(bool),
    /// Fit the image height to the content height.
    ///
    /// If `true`, stretch the width; otherwise keep the aspect ratio and
    /// crop it.
    FitHeight(bool),
    /// Fit either the image width or the image height to the content size,
    /// such that the image covers the content.
    ///
    /// If `true`, stretch the other direction; otherwise crop it.
    Fit(bool),
    /// Stretch the image to exactly the content size.
    Stretch,
}

impl Default for ImageScaling {
    /// Uniform scaling at native size.
    fn default() -> (r: ImageScaling)
        ensures
            r == (ImageScaling::Uniform { num: 1, den: 1 }),
    {
        ImageScaling::Uniform { num: 1, den: 1 }
    }
}

/// Width of a fixed-aspect rectangle of size `size` given a content height:
/// `max(size.x, 0) * max(content_height, 0) / max(size.y, 1)`, rounding
/// down.
pub open spec fn spec_aspect_width(size: Vec2i, content_height: int) -> int {
    (spec_max0(size.x as int) * spec_max0(content_height)) / spec_max1(size.y as int)
}

/// Height of a fixed-aspect rectangle of size `size` given a content width:
/// `max(size.y, 0) * max(content_width, 0) / max(size.x, 1)`, rounding
/// down.
pub open spec fn spec_aspect_height(size: Vec2i, content_width: int) -> int {
    (spec_max0(size.y as int) * spec_max0(content_width)) / spec_max1(size.x as int)
}

/// `max(v, 0)`.
pub open spec fn spec_max0(v: int) -> int {
    if v >= 0 {
        v
    } else {
        0
    }
}

/// `max(v, 1)`.
pub open spec fn spec_max1(v: int) -> int {
    if v >= 1 {
        v
    } else {
        1
    }
}

/// Calculate the width of a fixed-aspect rectangle given a content height.
pub fn aspect_width(size: Vec2i, content_height: i64) -> (r: i64)
    requires
        size.in_range(),
        -COORD_LIMIT <= content_height <= COORD_LIMIT,
    ensures
        r == spec_aspect_width(size, content_height as int),
        0 <= r <= COORD_LIMIT * COORD_LIMIT,
{
    let w = max_i64(size.x, 0);
    let h = max_i64(content_height, 0);
    let d = max_i64(size.y, 1);
    proof {
        assert(w * h <= COORD_LIMIT * COORD_LIMIT && 0 <= w * h) by (nonlinear_arith)
            requires
                0 <= w <= COORD_LIMIT,
                0 <= h <= COORD_LIMIT,
        ;
        assert(0 <= (w as int) * (h as int) / (d as int) <= (w as int) * (h as int))
            by (nonlinear_arith)
            requires
                0 <= (w as int) * (h as int),
                1 <= d,
        ;
    }
    (w * h) / d
}

/// Calculate the height of a fixed-aspect rectangle given a content width.
pub fn aspect_height(size: Vec2i, content_width: i64) -> (r: i64)
    requires
        size.in_range(),
        -COORD_LIMIT <= content_width <= COORD_LIMIT,
    ensures
        r == spec_aspect_height(size, content_width as int),
        0 <= r <= COORD_LIMIT * COORD_LIMIT,
{
    let h = max_i64(size.y, 0);
    let w = max_i64(content_width, 0);
    let d = max_i64(size.x, 1);
    proof {
        assert(h * w <= COORD_LIMIT * COORD_LIMIT && 0 <= h * w) by (nonlinear_arith)
            requires
                0 <= h <= COORD_LIMIT,
                0 <= w <= COORD_LIMIT,
        ;
        assert(0 <= (h as int) * (w as int) / (d as int) <= (h as int) * (w as int))
            by (nonlinear_arith)
            requires
                0 <= (h as int) * (w as int),
                1 <= d,
        ;
    }
    (h * w) / d
}

/// The size whose width fits the content width and whose height either
/// stretches to the content height or keeps the image's aspect ratio.
pub open spec fn spec_fit_width(size: Vec2i, content_size: Vec2i, stretch_height: bool) -> (
    int,
    int,
) {
    (
        content_size.x as int,
        if stretch_height {
            content_size.y as int
        } else {
            spec_aspect_height(size, content_size.x as int)
        },
    )
}

/// The size whose height fits the content height and whose width either
/// stretches to the content width or keeps the image's aspect ratio.
pub open spec fn spec_fit_height(size: Vec2i, content_size: Vec2i, stretch_width: bool) -> (
    int,
    int,
) {
    (
        if stretch_width {
            content_size.x as int
        } else {
            spec_aspect_width(size, content_size.y as int)
        },
        content_size.y as int,
    )
}

/// Whether the image's aspect ratio is at least the content's:
/// `size.x / size.y >= content.x / content.y`, compared exactly by cross
/// multiplication.
pub open spec fn spec_aspect_at_least(size: Vec2i, content_size: Vec2i) -> bool {
    spec_max0(size.x as int) * spec_max1(content_size.y as int) >= spec_max0(
        content_size.x as int,
    ) * spec_max1(size.y as int)
}

/// The size that covers the content: the axis with the relatively larger
/// image extent is fitted, the other is stretched or kept at aspect.
pub open spec fn spec_fit_any(size: Vec2i, content_size: Vec2i, stretch_other: bool) -> (
    int,
    int,
) {
    if spec_aspect_at_least(size, content_size) {
        spec_fit_height(size, content_size, stretch_other)
    } else {
        spec_fit_width(size, content_size, stretch_other)
    }
}

/// Calculate the size of a rectangle such that its width fits in the given
/// content, and its height either stretches to that content or keeps its
/// aspect ratio (and therefore gets clipped).
pub fn fit_width(size: Vec2i, content_size: Vec2i, stretch_height: bool) -> (r: Vec2i)
    requires
        size.in_range(),
        content_size.in_range(),
    ensures
        r.x as int == spec_fit_width(size, content_size, stretch_height).0,
        r.y as int == spec_fit_width(size, content_size, stretch_height).1,
{
    let y = if stretch_height {
        content_size.y
    } else {
        aspect_height(size, content_size.x)
    };
    Vec2i { x: content_size.x, y }
}

/// Calculate the size of a rectangle such that its height fits in the given
/// content, and its width either stretches to that content or keeps its
/// aspect ratio (and therefore gets clipped).
pub fn fit_height(size: Vec2i, content_size: Vec2i, stretch_width: bool) -> (r: Vec2i)
    requires
        size.in_range(),
        content_size.in_range(),
    ensures
        r.x as int == spec_fit_height(size, content_size, stretch_width).0,
        r.y as int == spec_fit_height(size, content_size, stretch_width).1,
{
    let x = if stretch_width {
        content_size.x
    } else {
        aspect_width(size, content_size.y)
    };
    Vec2i { x, y: content_size.y }
}

/// Calculate the size of a rectangle such that both its width and height
/// fit in the given content, and the other direction either stretches to
/// that content or keeps its aspect ratio. The returned rectangle covers
/// the content, possibly clipping in one direction to do so.
pub fn fit_any(size: Vec2i, content_size: Vec2i, stretch_other: bool) -> (r: Vec2i)
    requires
        size.in_range(),
        content_size.in_range(),
    ensures
        r.x as int == spec_fit_any(size, content_size, stretch_other).0,
        r.y as int == spec_fit_any(size, content_size, stretch_other).1,
{
    let a = max_i64(size.x, 0);
    let b = max_i64(content_size.y, 1);
    let c = max_i64(content_size.x, 0);
    let d = max_i64(size.y, 1);
    proof {
        assert(a * b <= COORD_LIMIT * COORD_LIMIT && 0 <= a * b) by (nonlinear_arith)
            requires
                0 <= a <= COORD_LIMIT,
                0 <= b <= COORD_LIMIT,
        ;
        assert(c * d <= COORD_LIMIT * COORD_LIMIT && 0 <= c * d) by (nonlinear_arith)
            requires
                0 <= c <= COORD_LIMIT,
                0 <= d <= COORD_LIMIT,
        ;
    }
    if a * b >= c * d {
        fit_height(size, content_size, stretch_other)
    } else {
        fit_width(size, content_size, stretch_other)
    }
}


/// The content size of a rectangle in device pixels: its extent scaled by
/// the device scale factor.
pub open spec fn spec_content_size(rect: Box2i, s: i64) -> Vec2i {
    Vec2i {
        x: ((rect.max.x - rect.min.x) * s) as i64,
        y: ((rect.max.y - rect.min.y) * s) as i64,
    }
}

/// The image size selected by a scaling mode, given the actual texture
/// size and the content size in device pixels.
pub open spec fn spec_scaled_image_size(
    texture_size: Vec2i,
    content_size: Vec2i,
    scaling: ImageScaling,
) -> (int, int) {
    match scaling {
        ImageScaling::Uniform { num, den } => (
            (texture_size.x as int) * (num as int) / (den as int),
            (texture_size.y as int) * (num as int) / (den as int),
        ),
        ImageScaling::FitWidth(stretch_height) => spec_fit_width(
            texture_size,
            content_size,
            stretch_height,
        ),
        ImageScaling::FitHeight(stretch_width) => spec_fit_height(
            texture_size,
            content_size,
            stretch_width,
        ),
        ImageScaling::Fit(stretch_other) => spec_fit_any(texture_size, content_size, stretch_other),
        ImageScaling::Stretch => (content_size.x as int, content_size.y as int),
    }
}

/// Calculate the proper size of an image drawn into a content rectangle,
/// applying the image scaling mode: uniform ratios are applied exactly,
/// fit modes keep or stretch the aspect as requested, and stretch takes
/// the content size.
pub fn scaled_image_size(texture_size: Vec2i, content_size: Vec2i, scaling: ImageScaling) -> (r:
    Vec2i)
    requires
        texture_size.in_extent_range(),
        content_size.in_range(),
        scaling matches ImageScaling::Uniform { num, den } ==> 0 <= num <= COORD_LIMIT && 1 <= den
            <= COORD_LIMIT,
    ensures
        r.x as int == spec_scaled_image_size(texture_size, content_size, scaling).0,
        r.y as int == spec_scaled_image_size(texture_size, content_size, scaling).1,
{
    match scaling {
        ImageScaling::Uniform { num, den } => {
            proof {
                assert(0 <= texture_size.x * num <= COORD_LIMIT * COORD_LIMIT)
                    by (nonlinear_arith)
                    requires
                        0 <= texture_size.x <= COORD_LIMIT,
                        0 <= num <= COORD_LIMIT,
                ;
                assert(0 <= texture_size.y * num <= COORD_LIMIT * COORD_LIMIT)
                    by (nonlinear_arith)
                    requires
                        0 <= texture_size.y <= COORD_LIMIT,
                        0 <= num <= COORD_LIMIT,
                ;
                assert(0 <= (texture_size.x as int) * (num as int) / (den as int) <= (
                texture_size.x as int) * (num as int)) by (nonlinear_arith)
                    requires
                        0 <= (texture_size.x as int) * (num as int),
                        1 <= den,
                ;
                assert(0 <= (texture_size.y as int) * (num as int) / (den as int) <= (
                texture_size.y as int) * (num as int)) by (nonlinear_arith)
                    requires
                        0 <= (texture_size.y as int) * (num as int),
                        1 <= den,
                ;
            }
            Vec2i { x: (texture_size.x * num) / den, y: (texture_size.y * num) / den }
        },
        ImageScaling::FitWidth(stretch_height) => fit_width(
            texture_size,
            content_size,
            stretch_height,
        ),
        ImageScaling::FitHeight(stretch_width) => fit_height(
            texture_size,
            content_size,
            stretch_width,
        ),
        ImageScaling::Fit(stretch_other) => fit_any(texture_size, content_size, stretch_other),
        ImageScaling::Stretch => content_size,
    }
}

} // verus!
