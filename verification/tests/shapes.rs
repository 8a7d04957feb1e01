use keith::canvas::Canvas;
use keith::geom::{Box2i, Vec2i};
use keith::primitive::Primitive;
use keith::shapes::{RoundedRect, Shape};

fn v(x: i64, y: i64) -> Vec2i {
    Vec2i { x, y }
}

fn b(min_x: i64, min_y: i64, max_x: i64, max_y: i64) -> Box2i {
    Box2i { min: v(min_x, min_y), max: v(max_x, max_y) }
}

#[test]
fn fill_rect() {
    let mut canvas = Canvas::new(b(0, 0, 64, 64));
    let shape = b(4, 4, 20, 12);
    let idx = shape.fill(&mut canvas, 7);
    assert_eq!(idx, 0);
    assert_eq!(canvas.buffer().len(), 1);
    match &canvas.buffer()[0] {
        Primitive::Rect(r) => {
            assert_eq!(r.rect, shape);
            assert_eq!(r.radius, 0);
            assert_eq!(r.color, 7);
            assert!(r.image.is_none());
        },
        other => panic!("expected a rectangle, found {:?}", other),
    }
}

#[test]
fn stroke_rect() {
    let mut canvas = Canvas::new(b(0, 0, 64, 64));
    let shape = b(10, 10, 30, 20);
    shape.stroke(&mut canvas, 5, 4);
    // four thin rectangles: top, bottom, left, right; half thickness 2
    assert_eq!(canvas.buffer().len(), 4);
    let expect = [
        b(8, 18, 32, 22),
        b(8, 8, 32, 12),
        b(8, 12, 12, 18),
        b(28, 12, 32, 18),
    ];
    for (prim, want) in canvas.buffer().iter().zip(expect.iter()) {
        match prim {
            Primitive::Rect(r) => {
                assert_eq!(&r.rect, want);
                assert_eq!(r.color, 5);
            },
            other => panic!("expected a rectangle, found {:?}", other),
        }
    }
}

#[test]
fn circle_shape() {
    let c = RoundedRect::circle(v(10, 20), 5);
    assert_eq!(c.rect, b(5, 15, 15, 25));
    assert_eq!(c.radius, 5);
}

#[test]
fn stroke_rounded_rect() {
    let mut canvas = Canvas::new(b(0, 0, 64, 64));
    let shape = RoundedRect { rect: b(0, 0, 40, 20), radius: 6 };
    shape.stroke(&mut canvas, 9, 2);
    // four edges then four corner pies
    assert_eq!(canvas.buffer().len(), 8);
    match &canvas.buffer()[0] {
        Primitive::Rect(r) => assert_eq!(r.rect, b(6, 19, 34, 21)),
        other => panic!("expected a rectangle, found {:?}", other),
    }
    match &canvas.buffer()[4] {
        Primitive::QuarterPie(q) => {
            // top-left corner, flipped horizontally
            assert_eq!(q.origin, v(6, 14));
            assert_eq!(q.radii, v(6, 6));
            assert!(q.flip_x);
            assert!(!q.flip_y);
        },
        other => panic!("expected a quarter pie, found {:?}", other),
    }
    match &canvas.buffer()[7] {
        Primitive::QuarterPie(q) => {
            // bottom-right corner, flipped vertically
            assert_eq!(q.origin, v(34, 6));
            assert!(!q.flip_x);
            assert!(q.flip_y);
        },
        other => panic!("expected a quarter pie, found {:?}", other),
    }
}

#[test]
fn circle_with_large_radius_clamps_to_half_size() {
    let mut canvas = Canvas::new(b(0, 0, 64, 64));
    // radius bigger than the half extent: the stroke radii are clamped
    let shape = RoundedRect { rect: b(0, 0, 8, 20), radius: 100 };
    shape.stroke(&mut canvas, 1, 0);
    match &canvas.buffer()[4] {
        Primitive::QuarterPie(q) => {
            assert_eq!(q.radii, v(4, 10));
        },
        other => panic!("expected a quarter pie, found {:?}", other),
    }
}
