use keith::geom::Vec2i;
use keith::primitive::RectPrimitive;
use keith::scaling::{
    aspect_height, aspect_width, fit_any, fit_height, fit_width, scaled_image_size, ImageScaling,
};

fn v(x: i64, y: i64) -> Vec2i {
    Vec2i { x, y }
}

const ZERO: Vec2i = Vec2i { x: 0, y: 0 };
const ONE: Vec2i = Vec2i { x: 1, y: 1 };

#[test]
fn aspect() {
    // Aspect ratios
    assert_eq!(aspect_width(ZERO, 0), 0);
    assert_eq!(aspect_height(ZERO, 0), 0);
    assert_eq!(aspect_width(ZERO, 1), 0);
    assert_eq!(aspect_height(ZERO, 1), 0);
    assert_eq!(aspect_width(ONE, 0), 0);
    assert_eq!(aspect_height(ONE, 0), 0);

    // Expand to fit
    assert_eq!(aspect_width(v(256, 64), 128), 512);
    assert_eq!(aspect_height(v(256, 64), 512), 128);

    // Shrink to fit
    assert_eq!(aspect_width(v(256, 128), 64), 128);
    assert_eq!(aspect_height(v(256, 64), 128), 32);
}

#[test]
fn fit() {
    // Fit to zero-sized content is always zero
    assert_eq!(fit_width(ZERO, ZERO, false), ZERO);
    assert_eq!(fit_height(ZERO, ZERO, false), ZERO);
    assert_eq!(fit_any(ZERO, ZERO, false), ZERO);
    assert_eq!(fit_width(ONE, ZERO, false), ZERO);
    assert_eq!(fit_height(ONE, ZERO, false), ZERO);
    assert_eq!(fit_any(ONE, ZERO, false), ZERO);
    assert_eq!(fit_width(ZERO, ZERO, true), ZERO);
    assert_eq!(fit_height(ZERO, ZERO, true), ZERO);
    assert_eq!(fit_any(ZERO, ZERO, true), ZERO);
    assert_eq!(fit_width(ONE, ZERO, true), ZERO);
    assert_eq!(fit_height(ONE, ZERO, true), ZERO);
    assert_eq!(fit_any(ONE, ZERO, true), ZERO);

    // Fit zero-sized (size is ignored in fit direction, only content matters)
    assert_eq!(fit_width(ZERO, ONE, false), v(1, 0));
    assert_eq!(fit_height(ZERO, ONE, false), v(0, 1));
    assert_eq!(fit_width(ZERO, ONE, true), ONE);
    assert_eq!(fit_height(ZERO, ONE, true), ONE);

    // Expand to fit
    assert_eq!(fit_width(v(256, 64), v(512, 32), false), v(512, 128));
    assert_eq!(fit_height(v(256, 64), v(128, 128), false), v(512, 128));
    assert_eq!(fit_width(v(256, 64), v(512, 32), true), v(512, 32));
    assert_eq!(fit_height(v(256, 64), v(128, 128), true), v(128, 128));

    // Shrink to fit
    assert_eq!(fit_width(v(256, 64), v(128, 128), false), v(128, 32));
    assert_eq!(fit_height(v(256, 64), v(512, 32), false), v(128, 32));
    assert_eq!(fit_width(v(256, 64), v(128, 128), true), v(128, 128));
    assert_eq!(fit_height(v(256, 64), v(512, 32), true), v(512, 32));
}

#[test]
fn scaling_modes() {
    let image = v(256, 64);

    // uniform scaling applies the exact ratio
    assert_eq!(
        scaled_image_size(image, v(100, 100), ImageScaling::Uniform { num: 1, den: 1 }),
        v(256, 64)
    );
    assert_eq!(
        scaled_image_size(image, v(100, 100), ImageScaling::Uniform { num: 3, den: 2 }),
        v(384, 96)
    );

    // stretch takes the content size
    assert_eq!(scaled_image_size(image, v(100, 50), ImageScaling::Stretch), v(100, 50));

    // fitting one axis keeps or stretches the other
    assert_eq!(
        scaled_image_size(image, v(512, 32), ImageScaling::FitWidth(false)),
        v(512, 128)
    );
    assert_eq!(
        scaled_image_size(image, v(128, 128), ImageScaling::FitWidth(false)),
        v(128, 32)
    );
    assert_eq!(
        scaled_image_size(image, v(128, 128), ImageScaling::FitWidth(true)),
        v(128, 128)
    );

    // covering fit picks the axis by comparing aspects
    assert_eq!(scaled_image_size(image, v(512, 32), ImageScaling::Fit(false)), v(512, 128));
    assert_eq!(scaled_image_size(image, v(128, 128), ImageScaling::Fit(false)), v(512, 128));
}

#[test]
fn resolve_rect_image_size() {
    let mut rect = RectPrimitive {
        rect: keith::geom::Box2i { min: v(0, 0), max: v(100, 50) },
        radius: 0,
        color: 0,
        image: Some(9),
        image_size: ZERO,
        image_scaling: ImageScaling::Stretch,
        flip_x: false,
        flip_y: false,
        border_width: 0,
        border_color: 0,
    };
    // content is the rectangle extent times the scale factor
    rect.resolve_image_size(v(256, 64), 2);
    assert_eq!(rect.image_size, v(200, 100));

    rect.image_scaling = ImageScaling::FitWidth(false);
    rect.resolve_image_size(v(256, 64), 2);
    assert_eq!(rect.image_size, v(200, 50));
}
