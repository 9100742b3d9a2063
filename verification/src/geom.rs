//! Axis-aligned rectangle math on the integer pixel grid: overlap,
//! containment, offset, combination and normalization. Pure functions with
//! no state; everything else in the crate builds on these.

use vstd::prelude::*;

verus! {

/// Largest magnitude a stored position coordinate may take.
pub const COORD_LIMIT: i64 = 0x10_0000_0000;

/// Largest magnitude a component rectangle field, follow distance, speed or
/// sprite offset may take. Much smaller than `COORD_LIMIT`, so that sums of a
/// position and a handful of rectangle fields stay far inside `i64`.
pub const RECT_LIMIT: i64 = 0x4000_0000;

/// Bound under which every rectangle handed to the geometry methods must
/// stay, so that the few additions they perform cannot overflow `i64`.
pub const GEOM_LIMIT: i64 = 0x2000_0000_0000;

/// Absolute value of a coordinate; the extreme value cannot arise from the
/// bounded coordinates handled in this crate.
pub fn abs_i64(v: i64) -> (r: i64)
    requires
        v != i64::MIN,
    ensures
        r == vstd::math::abs(v as int),
{
    if v < 0 {
        -v
    } else {
        v
    }
}

/// A 2D integer vector: a position, an offset or a size.
#[derive(Clone, Copy, PartialEq, Eq, Structural, Debug)]
pub struct Vec2i {
    pub x: i64,
    pub y: i64,
}

impl Vec2i {
    pub fn new(x: i64, y: i64) -> (v: Vec2i)
        ensures
            v == (Vec2i { x, y }),
    {
        Vec2i { x, y }
    }
}

/// An axis-aligned rectangle: top-left corner `(x, y)`, width `w`, height `h`.
#[derive(Clone, Copy, PartialEq, Eq, Structural, Debug)]
pub struct Rect {
    pub x: i64,
    pub y: i64,
    pub w: i64,
    pub h: i64,
}

/// All four fields of `r` have magnitude at most `b`.
pub open spec fn rect_bounded(r: Rect, b: int) -> bool {
    &&& -b <= r.x <= b
    &&& -b <= r.y <= b
    &&& -b <= r.w <= b
    &&& -b <= r.h <= b
}

/// Both coordinates of `v` have magnitude at most `b`.
pub open spec fn vec_bounded(v: Vec2i, b: int) -> bool {
    -b <= v.x <= b && -b <= v.y <= b
}

/// Closed overlap test: rectangles that merely touch count as overlapping.
/// A touching pair yields a zero-magnitude separation, so the collision
/// resolver still treats it as a no-op.
pub open spec fn rects_overlap(a: Rect, b: Rect) -> bool {
    &&& a.x <= b.x + b.w
    &&& a.x + a.w >= b.x
    &&& a.y <= b.y + b.h
    &&& a.y + a.h >= b.y
}

/// Closed containment test for a point.
pub open spec fn rect_contains(r: Rect, p: Vec2i) -> bool {
    &&& r.x <= p.x <= r.x + r.w
    &&& r.y <= p.y <= r.y + r.h
}

/// `r` with negative spans folded back so that `w` and `h` are non-negative.
pub open spec fn spec_normalize(r: Rect) -> Rect {
    let rx = if r.w < 0 {
        Rect { x: (r.x + r.w) as i64, y: r.y, w: (0 - r.w) as i64, h: r.h }
    } else {
        r
    };
    if rx.h < 0 {
        Rect { x: rx.x, y: (rx.y + rx.h) as i64, w: rx.w, h: (0 - rx.h) as i64 }
    } else {
        rx
    }
}

/// A rectangle field scaled by a bounded factor stays far inside `i64`.
proof fn lemma_scaled_field_fits(a: int, s: int)
    requires
        -GEOM_LIMIT <= a <= GEOM_LIMIT,
        -0x10000 <= s <= 0x10000,
    ensures
        i64::MIN <= a * s <= i64::MAX,
{
    assert(a * s <= 0x2000_0000_0000 * 0x10000 && -(0x2000_0000_0000 * 0x10000) <= a * s)
        by (nonlinear_arith)
        requires
            -0x2000_0000_0000 <= a <= 0x2000_0000_0000,
            -0x10000 <= s <= 0x10000,
    ;
}

impl Default for Rect {
    /// A 16 by 16 tile at the origin, the default sprite cell size.
    fn default() -> (r: Rect)
        ensures
            r == (Rect { x: 0i64, y: 0i64, w: 16i64, h: 16i64 }),
    {
        Rect { x: 0, y: 0, w: 16, h: 16 }
    }
}

impl Rect {
    pub fn left(&self) -> (r: i64)
        ensures
            r == self.x,
    {
        self.x
    }

    pub fn right(&self) -> (r: i64)
        requires
            rect_bounded(*self, GEOM_LIMIT as int),
        ensures
            r == self.x + self.w,
    {
        self.x + self.w
    }

    pub fn top(&self) -> (r: i64)
        ensures
            r == self.y,
    {
        self.y
    }

    pub fn bottom(&self) -> (r: i64)
        requires
            rect_bounded(*self, GEOM_LIMIT as int),
        ensures
            r == self.y + self.h,
    {
        self.y + self.h
    }

    /// Centre of the rectangle; halves round toward zero on the integer grid.
    pub fn center(&self) -> (c: Vec2i)
        requires
            rect_bounded(*self, GEOM_LIMIT as int),
            self.w >= 0,
            self.h >= 0,
        ensures
            c.x == self.x + self.w / 2,
            c.y == self.y + self.h / 2,
    {
        Vec2i { x: self.x + self.w / 2, y: self.y + self.h / 2 }
    }

    /// The top-left corner.
    pub fn point(&self) -> (p: Vec2i)
        ensures
            p == (Vec2i { x: self.x, y: self.y }),
    {
        Vec2i { x: self.x, y: self.y }
    }

    /// Width and height as a vector.
    pub fn size(&self) -> (s: Vec2i)
        ensures
            s == (Vec2i { x: self.w, y: self.h }),
    {
        Vec2i { x: self.w, y: self.h }
    }

    /// Smallest rectangle that covers both `self` and `other`.
    pub fn combine_with(self, other: Rect) -> (r: Rect)
        requires
            rect_bounded(self, GEOM_LIMIT as int),
            rect_bounded(other, GEOM_LIMIT as int),
        ensures
            r.x == if self.x <= other.x { self.x as int } else { other.x as int },
            r.y == if self.y <= other.y { self.y as int } else { other.y as int },
            r.x + r.w == if self.x + self.w >= other.x + other.w {
                self.x + self.w
            } else {
                other.x + other.w
            },
            r.y + r.h == if self.y + self.h >= other.y + other.h {
                self.y + self.h
            } else {
                other.y + other.h
            },
    {
        let x = if self.x <= other.x { self.x } else { other.x };
        let y = if self.y <= other.y { self.y } else { other.y };
        let self_right = self.x + self.w;
        let other_right = other.x + other.w;
        let right = if self_right >= other_right { self_right } else { other_right };
        let self_bottom = self.y + self.h;
        let other_bottom = other.y + other.h;
        let bottom = if self_bottom >= other_bottom { self_bottom } else { other_bottom };
        Rect { x, y, w: right - x, h: bottom - y }
    }

    /// Mirror across the vertical axis when `flipped` is set: the left edge
    /// moves to minus the right edge, the spans are unchanged.
    pub fn flip_h(&self, flipped: bool) -> (r: Rect)
        requires
            rect_bounded(*self, GEOM_LIMIT as int),
        ensures
            r.x == if flipped { -(self.x + self.w) as int } else { self.x as int },
            r.y == self.y,
            r.w == self.w,
            r.h == self.h,
    {
        Rect { x: if flipped { -(self.x + self.w) } else { self.x }, y: self.y, w: self.w, h: self.h }
    }

    /// Translate by `(x, y)`.
    pub fn offset(&self, x: i64, y: i64) -> (r: Rect)
        requires
            rect_bounded(*self, GEOM_LIMIT as int),
            -GEOM_LIMIT <= x <= GEOM_LIMIT,
            -GEOM_LIMIT <= y <= GEOM_LIMIT,
        ensures
            r.x == self.x + x,
            r.y == self.y + y,
            r.w == self.w,
            r.h == self.h,
    {
        Rect { x: self.x + x, y: self.y + y, w: self.w, h: self.h }
    }

    pub fn overlaps(&self, other: &Rect) -> (r: bool)
        requires
            rect_bounded(*self, GEOM_LIMIT as int),
            rect_bounded(*other, GEOM_LIMIT as int),
        ensures
            r == rects_overlap(*self, *other),
    {
        self.left() <= other.right() && self.right() >= other.left() && self.top()
            <= other.bottom() && self.bottom() >= other.top()
    }

    pub fn contains(&self, p: Vec2i) -> (r: bool)
        requires
            rect_bounded(*self, GEOM_LIMIT as int),
            vec_bounded(p, GEOM_LIMIT as int),
        ensures
            r == rect_contains(*self, p),
    {
        self.x <= p.x && p.x <= self.x + self.w && self.y <= p.y && p.y <= self.y + self.h
    }

    /// Multiply every field by `scale`.
    pub fn scale(&self, scale: i64) -> (r: Rect)
        requires
            rect_bounded(*self, GEOM_LIMIT as int),
            -0x10000 <= scale <= 0x10000,
        ensures
            r.x == self.x * scale,
            r.y == self.y * scale,
            r.w == self.w * scale,
            r.h == self.h * scale,
    {
        proof {
            lemma_scaled_field_fits(self.x as int, scale as int);
            lemma_scaled_field_fits(self.y as int, scale as int);
            lemma_scaled_field_fits(self.w as int, scale as int);
            lemma_scaled_field_fits(self.h as int, scale as int);
        }
        Rect { x: self.x * scale, y: self.y * scale, w: self.w * scale, h: self.h * scale }
    }

    /// Snap the edges to whole pixels. Integer rectangles already lie on the
    /// pixel grid, so this returns the rectangle unchanged.
    pub fn align(&self) -> (r: Rect)
        ensures
            r == *self,
    {
        *self
    }

    /// Fold negative spans back so that width and height are non-negative.
    pub fn normalize(&self) -> (r: Rect)
        requires
            rect_bounded(*self, GEOM_LIMIT as int),
        ensures
            r == spec_normalize(*self),
            r.w >= 0,
            r.h >= 0,
    {
        let mut rect = *self;
        if rect.w < 0 {
            rect.x = rect.x + rect.w;
            rect.w = -rect.w;
        }
        if rect.h < 0 {
            rect.y = rect.y + rect.h;
            rect.h = -rect.h;
        }
        rect
    }
}

} // verus!
