use keith::canvas::Canvas;
use keith::geom::{Box2i, Vec2i};
use keith::primitive::{LinePrimitive, Primitive, RectPrimitive};

fn v(x: i64, y: i64) -> Vec2i {
    Vec2i { x, y }
}

fn line(start: Vec2i, end: Vec2i) -> Primitive {
    Primitive::Line(LinePrimitive {
        start,
        end,
        color: 7,
        thickness: 1,
        border_width: 0,
        border_color: 0,
    })
}

#[test]
fn draw_and_clear() {
    let mut canvas = Canvas::new(Box2i { min: v(0, 0), max: v(64, 64) });
    assert!(canvas.buffer().is_empty());
    assert_eq!(canvas.rect(), Box2i { min: v(0, 0), max: v(64, 64) });

    let first = canvas.draw(line(v(0, 0), v(1, 1)));
    let second = canvas.draw(line(v(1, 1), v(2, 2)));
    assert_eq!(first, 0);
    assert_eq!(second, 1);
    assert_eq!(canvas.buffer().len(), 2);

    canvas.clear();
    assert!(canvas.buffer().is_empty());
}

#[test]
fn clear_paints_background() {
    let mut canvas = Canvas::new(Box2i { min: v(-8, -8), max: v(8, 8) });
    canvas.background_color = Some(0x0102_0304);
    canvas.draw(line(v(0, 0), v(1, 1)));
    canvas.clear();
    // the cleared canvas holds one full-canvas rectangle of the background
    assert_eq!(canvas.buffer().len(), 1);
    match &canvas.buffer()[0] {
        Primitive::Rect(r) => {
            assert_eq!(r.rect, Box2i { min: v(-8, -8), max: v(8, 8) });
            assert_eq!(r.color, 0x0102_0304);
            assert!(r.image.is_none());
            assert_eq!(r.border_width, 0);
        },
        other => panic!("expected a rectangle, found {:?}", other),
    }
}

#[test]
fn border_applies_to_lines_and_rects() {
    let mut canvas = Canvas::new(Box2i { min: v(0, 0), max: v(64, 64) });
    let idx = canvas.draw(line(v(0, 0), v(8, 8)));
    canvas.set_border(idx, 3, 42);
    match &canvas.buffer()[idx] {
        Primitive::Line(l) => {
            assert_eq!(l.border_width, 3);
            assert_eq!(l.border_color, 42);
        },
        other => panic!("expected a line, found {:?}", other),
    }

    // a negative thickness means no border
    canvas.set_border(idx, -5, 9);
    match &canvas.buffer()[idx] {
        Primitive::Line(l) => {
            assert_eq!(l.border_width, 0);
            assert_eq!(l.border_color, 9);
        },
        other => panic!("expected a line, found {:?}", other),
    }

    let rect = Primitive::Rect(RectPrimitive {
        rect: Box2i { min: v(0, 0), max: v(4, 4) },
        radius: 0,
        color: 0,
        image: None,
        image_size: v(0, 0),
        image_scaling: keith::scaling::ImageScaling::Uniform { num: 1, den: 1 },
        flip_x: false,
        flip_y: false,
        border_width: 0,
        border_color: 0,
    });
    let ridx = canvas.draw(rect);
    canvas.set_border(ridx, 2, 5);
    match &canvas.buffer()[ridx] {
        Primitive::Rect(r) => {
            assert_eq!(r.border_width, 2);
            assert_eq!(r.border_color, 5);
        },
        other => panic!("expected a rectangle, found {:?}", other),
    }
}

#[test]
fn set_rect_keeps_primitives() {
    let mut canvas = Canvas::new(Box2i { min: v(0, 0), max: v(8, 8) });
    canvas.draw(line(v(0, 0), v(1, 1)));
    canvas.set_rect(Box2i { min: v(0, 0), max: v(128, 128) });
    assert_eq!(canvas.rect(), Box2i { min: v(0, 0), max: v(128, 128) });
    assert_eq!(canvas.buffer().len(), 1);
}
