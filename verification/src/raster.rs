//! Integer pixel rectangles of the software rasterizer: intersection, point containment and the
//! square inscribed in a box (used to center round glyphs and icons).
use vstd::prelude::*;

use crate::time::div_toward_zero;

verus! {

/// A pixel rectangle: origin `(x, y)`, width `w` and height `h`. A negative or zero extent
/// contains no pixel.
#[derive(Clone, Copy, Debug, PartialEq, Eq, Structural)]
pub struct IRect {
    /// Left edge.
    pub x: i32,
    /// Top edge.
    pub y: i32,
    /// Width.
    pub w: i32,
    /// Height.
    pub h: i32,
}

/// Whether the right and bottom edges of `r` are representable as `i32`.
pub open spec fn edges_fit(r: IRect) -> bool {
    &&& i32::MIN <= r.x + r.w <= i32::MAX
    &&& i32::MIN <= r.y + r.h <= i32::MAX
}

/// Whether pixel `(px, py)` lies in `r` (left and top edges inclusive, right and bottom
/// exclusive).
pub open spec fn covers(r: IRect, px: int, py: int) -> bool {
    px >= r.x && py >= r.y && px < r.x + r.w && py < r.y + r.h
}

/// The larger of two integers.
pub open spec fn max_int(a: int, b: int) -> int {
    if a >= b {
        a
    } else {
        b
    }
}

/// The smaller of two integers.
pub open spec fn min_int(a: int, b: int) -> int {
    if a <= b {
        a
    } else {
        b
    }
}

/// The intersection of two rectangles; an empty intersection has zero extent.
pub open spec fn intersection(a: IRect, b: IRect) -> IRect {
    let x0 = max_int(a.x as int, b.x as int);
    let y0 = max_int(a.y as int, b.y as int);
    let x1 = min_int(a.x + a.w, b.x + b.w);
    let y1 = min_int(a.y + a.h, b.y + b.h);
    IRect {
        x: x0 as i32,
        y: y0 as i32,
        w: max_int(x1 - x0, 0) as i32,
        h: max_int(y1 - y0, 0) as i32,
    }
}

/// The square centered in `rect` whose side is the shorter extent (zero when an extent is
/// negative); a leftover odd pixel goes right or down.
pub open spec fn inscribed(rect: IRect) -> IRect {
    let side = max_int(min_int(rect.w as int, rect.h as int), 0);
    IRect {
        x: (rect.x + div_toward_zero(rect.w - side, 2)) as i32,
        y: (rect.y + div_toward_zero(rect.h - side, 2)) as i32,
        w: side as i32,
        h: side as i32,
    }
}

/// Whether pixel `(px, py)` lies in `r`. The right edge is computed only once the point lies
/// right of and below the origin, and the bottom edge only once it also lies left of the right
/// edge; each must then be representable.
pub fn irect_contains(r: &IRect, px: i32, py: i32) -> (inside: bool)
    requires
        px >= r.x && py >= r.y ==> i32::MIN <= r.x + r.w <= i32::MAX,
        px >= r.x && py >= r.y && px < r.x + r.w ==> i32::MIN <= r.y + r.h <= i32::MAX,
    ensures
        inside == covers(*r, px as int, py as int),
{
    px >= r.x && py >= r.y && px < r.x + r.w && py < r.y + r.h
}

/// The intersection of two rectangles.
pub fn intersect_irect(a: IRect, b: IRect) -> (r: IRect)
    requires
        edges_fit(a),
        edges_fit(b),
    ensures
        r == intersection(a, b),
        edges_fit(r),
{
    let x0: i32 = if a.x >= b.x { a.x } else { b.x };
    let y0: i32 = if a.y >= b.y { a.y } else { b.y };
    let x1: i32 = if a.x + a.w <= b.x + b.w { a.x + a.w } else { b.x + b.w };
    let y1: i32 = if a.y + a.h <= b.y + b.h { a.y + a.h } else { b.y + b.h };
    let w: i32 = if x1 >= x0 { x1 - x0 } else { 0 };
    let h: i32 = if y1 >= y0 { y1 - y0 } else { 0 };
    IRect { x: x0, y: y0, w, h }
}

/// Whether the origin of the square inscribed in `rect` is representable as `i32`.
pub open spec fn inscribed_origin_fits(rect: IRect) -> bool {
    let side = max_int(min_int(rect.w as int, rect.h as int), 0);
    &&& i32::MIN <= rect.x + div_toward_zero(rect.w - side, 2) <= i32::MAX
    &&& i32::MIN <= rect.y + div_toward_zero(rect.h - side, 2) <= i32::MAX
}

/// The square centered in `rect` whose side is its shorter extent.
pub fn inscribed_square(rect: IRect) -> (square: IRect)
    requires
        inscribed_origin_fits(rect),
    ensures
        square == inscribed(rect),
{
    let shorter: i32 = if rect.w <= rect.h { rect.w } else { rect.h };
    let side: i32 = if shorter >= 0 { shorter } else { 0 };
    IRect { x: rect.x + (rect.w - side) / 2, y: rect.y + (rect.h - side) / 2, w: side, h: side }
}

/// A pixel lies in the intersection exactly when it lies in both rectangles.
pub proof fn lemma_intersection_covers(a: IRect, b: IRect, px: int, py: int)
    requires
        edges_fit(a),
        edges_fit(b),
    ensures
        covers(intersection(a, b), px, py) == (covers(a, px, py) && covers(b, px, py)),
{
}

/// Intersection does not depend on the order of its operands.
pub proof fn lemma_intersection_commutes(a: IRect, b: IRect)
    requires
        edges_fit(a),
        edges_fit(b),
    ensures
        intersection(a, b) == intersection(b, a),
{
}

/// The inscribed square lies within its rectangle.
pub proof fn lemma_inscribed_within(rect: IRect, px: int, py: int)
    requires
        edges_fit(rect),
        covers(inscribed(rect), px, py),
    ensures
        covers(rect, px, py),
{
}

} // verus!
