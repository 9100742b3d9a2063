use overworld::geom::{Rect, Vec2i};

#[test]
fn rect_edges() {
    let r = Rect { x: 10, y: 20, w: 30, h: 40 };
    assert_eq!(r.left(), 10);
    assert_eq!(r.right(), 40);
    assert_eq!(r.top(), 20);
    assert_eq!(r.bottom(), 60);
    assert_eq!(r.point(), Vec2i { x: 10, y: 20 });
    assert_eq!(r.size(), Vec2i { x: 30, y: 40 });
}

#[test]
fn rect_default_is_tile() {
    let r = Rect::default();
    assert_eq!(r, Rect { x: 0, y: 0, w: 16, h: 16 });
}

#[test]
fn rect_center_rounds_toward_zero() {
    let r = Rect { x: 0, y: 0, w: 5, h: 4 };
    assert_eq!(r.center(), Vec2i { x: 2, y: 2 });
}

#[test]
fn rect_combine_covers_both() {
    let a = Rect { x: 0, y: 0, w: 10, h: 10 };
    let b = Rect { x: 5, y: -5, w: 20, h: 10 };
    let c = a.combine_with(b);
    assert_eq!(c, Rect { x: 0, y: -5, w: 25, h: 15 });
}

#[test]
fn rect_flip_h_mirrors() {
    let r = Rect { x: 2, y: 3, w: 4, h: 5 };
    assert_eq!(r.flip_h(false), r);
    assert_eq!(r.flip_h(true), Rect { x: -6, y: 3, w: 4, h: 5 });
}

#[test]
fn rect_offset_translates() {
    let r = Rect { x: 1, y: 2, w: 3, h: 4 };
    assert_eq!(r.offset(10, -2), Rect { x: 11, y: 0, w: 3, h: 4 });
}

#[test]
fn rect_overlaps_closed() {
    let a = Rect { x: 0, y: 0, w: 10, h: 10 };
    let b = Rect { x: 10, y: 0, w: 10, h: 10 };
    let c = Rect { x: 11, y: 0, w: 10, h: 10 };
    assert!(a.overlaps(&b));
    assert!(!a.overlaps(&c));
    assert!(a.overlaps(&a));
}

#[test]
fn rect_contains_closed() {
    let r = Rect { x: 0, y: 0, w: 10, h: 10 };
    assert!(r.contains(Vec2i { x: 0, y: 0 }));
    assert!(r.contains(Vec2i { x: 10, y: 10 }));
    assert!(!r.contains(Vec2i { x: 11, y: 5 }));
}

#[test]
fn rect_scale_multiplies() {
    let r = Rect { x: 1, y: -2, w: 3, h: 4 };
    assert_eq!(r.scale(3), Rect { x: 3, y: -6, w: 9, h: 12 });
}

#[test]
fn rect_align_is_identity_on_grid() {
    let r = Rect { x: 7, y: -3, w: 5, h: 9 };
    assert_eq!(r.align(), r);
}

#[test]
fn rect_normalize_folds_negative_spans() {
    let r = Rect { x: 10, y: 10, w: -4, h: -6 };
    assert_eq!(r.normalize(), Rect { x: 6, y: 4, w: 4, h: 6 });
    let p = Rect { x: 1, y: 2, w: 3, h: 4 };
    assert_eq!(p.normalize(), p);
}
