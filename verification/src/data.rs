//! Axis-aligned rectangles on the integer grid of screen units.

use crate::num::{clamp_i32, clamp_u32, saturate_i32, saturate_u32};
use vstd::prelude::*;

verus! {

/// The four integers a native drawing call takes for a rectangle:
/// a signed position and an unsigned, non-zero size.
#[derive(Clone, Copy, Debug, PartialEq, Eq, Structural)]
pub struct SdlRect {
    pub x: i32,
    pub y: i32,
    pub w: u32,
    pub h: u32,
}

/// An axis-aligned rectangle: top-left corner `(x, y)`, width `w`, height `h`,
/// all in whole screen units. A value is never changed in place; every
/// operation that moves a rectangle hands back a new one.
#[derive(Clone, Copy, Debug, PartialEq, Eq, Structural)]
pub struct Rectangle {
    pub x: i64,
    pub y: i64,
    pub w: i64,
    pub h: i64,
}

/// Where `move_inside` puts a span of length `len` that starts at `pos`, on an
/// axis where the parent starts at `lo` and has length `span`: at the parent's
/// start if it begins before it, flush with the parent's end if it reaches
/// past it, and where it was otherwise.
pub open spec fn clamp_axis(pos: int, len: int, lo: int, span: int) -> int {
    if pos < lo {
        lo
    } else if pos + len > lo + span {
        lo + span - len
    } else {
        pos
    }
}

fn move_axis(pos: i64, len: i64, lo: i64, span: i64) -> (r: i64)
    requires
        len <= span,
    ensures
        r == clamp_axis(pos as int, len as int, lo as int, span as int),
{
    if pos < lo {
        lo
    } else if pos as i128 + len as i128 > lo as i128 + span as i128 {
        (lo as i128 + span as i128 - len as i128) as i64
    } else {
        pos
    }
}

impl Rectangle {
    /// The x coordinate of the right edge.
    pub open spec fn right(self) -> int {
        self.x + self.w
    }

    /// The y coordinate of the bottom edge.
    pub open spec fn bottom(self) -> int {
        self.y + self.h
    }

    /// Whether the point `(px, py)` lies within the closed bounds of `self`,
    /// edges included.
    pub open spec fn holds_point(self, px: int, py: int) -> bool {
        &&& self.x <= px <= self.right()
        &&& self.y <= py <= self.bottom()
    }

    /// Containment: both ends of `rect` on each axis lie within the closed
    /// span of `self` on that axis.
    pub open spec fn spec_contains(&self, rect: Rectangle) -> bool {
        &&& self.x <= rect.x <= self.right()
        &&& self.x <= rect.right() <= self.right()
        &&& self.y <= rect.y <= self.bottom()
        &&& self.y <= rect.bottom() <= self.bottom()
    }

    /// Overlap: the open spans of the two rectangles meet on both axes.
    /// Rectangles that only touch along an edge do not overlap.
    pub open spec fn spec_overlaps(&self, other: Rectangle) -> bool {
        &&& self.x < other.right()
        &&& self.right() > other.x
        &&& self.y < other.bottom()
        &&& self.bottom() > other.y
    }

    /// Whether `self` is no wider and no taller than `parent`.
    pub open spec fn fits_in(self, parent: Rectangle) -> bool {
        self.w <= parent.w && self.h <= parent.h
    }

    /// `self` moved by the least amount on each axis that brings it inside
    /// `parent`, its size kept; nothing if it is too large to fit.
    pub open spec fn spec_move_inside(self, parent: Rectangle) -> Option<Rectangle> {
        if self.fits_in(parent) {
            Some(
                Rectangle {
                    x: clamp_axis(self.x as int, self.w as int, parent.x as int, parent.w as int) as i64,
                    y: clamp_axis(self.y as int, self.h as int, parent.y as int, parent.h as int) as i64,
                    w: self.w,
                    h: self.h,
                },
            )
        } else {
            None
        }
    }

    /// The native form of `self`: nothing for an empty rectangle, else the
    /// position and size, each brought into the range of its native integer.
    pub open spec fn spec_to_sdl(&self) -> Option<SdlRect> {
        if self.w == 0 || self.h == 0 {
            None
        } else {
            Some(
                SdlRect {
                    x: clamp_i32(self.x as int),
                    y: clamp_i32(self.y as int),
                    w: clamp_u32(self.w as int),
                    h: clamp_u32(self.h as int),
                },
            )
        }
    }

    /// The rectangle as a native drawing call takes it. A rectangle of
    /// negative width or height has no native form and must not be passed.
    #[verifier::when_used_as_spec(spec_to_sdl)]
    pub fn to_sdl(&self) -> (r: Option<SdlRect>)
        requires
            self.w >= 0,
            self.h >= 0,
        ensures
            r == self.spec_to_sdl(),
            r is None <==> self.w == 0 || self.h == 0,
            r matches Some(n) ==> n.w >= 1 && n.h >= 1,
    {
        if self.w == 0 || self.h == 0 {
            None
        } else {
            Some(
                SdlRect {
                    x: saturate_i32(self.x),
                    y: saturate_i32(self.y),
                    w: saturate_u32(self.w),
                    h: saturate_u32(self.h),
                },
            )
        }
    }

    /// Confines `self` to `parent`: nothing if `self` is wider or taller than
    /// `parent`, else `self` with its position clamped on each axis and its
    /// size unchanged.
    #[verifier::when_used_as_spec(spec_move_inside)]
    pub fn move_inside(self, parent: Rectangle) -> (r: Option<Rectangle>)
        ensures
            r == self.spec_move_inside(parent),
            r is Some <==> self.w <= parent.w && self.h <= parent.h,
            r matches Some(m) ==> {
                &&& m.w == self.w
                &&& m.h == self.h
                &&& m.x == clamp_axis(self.x as int, self.w as int, parent.x as int, parent.w as int)
                &&& m.y == clamp_axis(self.y as int, self.h as int, parent.y as int, parent.h as int)
                &&& (self.w >= 0 && self.h >= 0 ==> parent.contains(m))
            },
    {
        if self.w > parent.w || self.h > parent.h {
            return None;
        }
        Some(
            Rectangle {
                w: self.w,
                h: self.h,
                x: move_axis(self.x, self.w, parent.x, parent.w),
                y: move_axis(self.y, self.h, parent.y, parent.h),
            },
        )
    }

    /// Whether every corner of `rect` lies within the closed bounds of `self`.
    #[verifier::when_used_as_spec(spec_contains)]
    pub fn contains(&self, rect: Rectangle) -> (b: bool)
        ensures
            b == self.spec_contains(rect),
    {
        let xmin: i128 = rect.x as i128;
        let xmax: i128 = rect.x as i128 + rect.w as i128;
        let ymin: i128 = rect.y as i128;
        let ymax: i128 = rect.y as i128 + rect.h as i128;
        let left: i128 = self.x as i128;
        let right: i128 = self.x as i128 + self.w as i128;
        let top: i128 = self.y as i128;
        let bottom: i128 = self.y as i128 + self.h as i128;

        xmin >= left && xmin <= right && xmax >= left && xmax <= right && ymin >= top && ymin
            <= bottom && ymax >= top && ymax <= bottom
    }

    /// Whether the interiors of `self` and `other` intersect.
    #[verifier::when_used_as_spec(spec_overlaps)]
    pub fn overlaps(&self, other: Rectangle) -> (b: bool)
        ensures
            b == self.spec_overlaps(other),
    {
        (self.x as i128) < other.x as i128 + other.w as i128 && self.x as i128 + self.w as i128
            > other.x as i128 && (self.y as i128) < other.y as i128 + other.h as i128 && self.y as i128
            + self.h as i128 > other.y as i128
    }

    /// A rectangle that contains another holds each of its four corners
    /// within its closed bounds, and conversely.
    pub proof fn lemma_contains_corners(a: Rectangle, b: Rectangle)
        ensures
            a.contains(b) <==> {
                &&& a.holds_point(b.x as int, b.y as int)
                &&& a.holds_point(b.right(), b.y as int)
                &&& a.holds_point(b.x as int, b.bottom())
                &&& a.holds_point(b.right(), b.bottom())
            },
    {
    }

    /// A rectangle that contains another holds every point of it.
    pub proof fn lemma_contains_points(a: Rectangle, b: Rectangle, px: int, py: int)
        requires
            a.contains(b),
            b.holds_point(px, py),
        ensures
            a.holds_point(px, py),
    {
    }

    /// Overlap does not depend on the order of the two rectangles.
    pub proof fn lemma_overlaps_symmetric(a: Rectangle, b: Rectangle)
        ensures
            a.overlaps(b) == b.overlaps(a),
    {
    }

    /// A rectangle is placed inside its parent exactly when it is no larger
    /// than the parent on either axis, and it keeps its size.
    pub proof fn lemma_move_inside_fits(r: Rectangle, parent: Rectangle)
        ensures
            r.w <= parent.w && r.h <= parent.h ==> r.move_inside(parent) is Some,
            r.w > parent.w || r.h > parent.h ==> r.move_inside(parent) is None,
            r.move_inside(parent) matches Some(placed) ==> placed.w == r.w && placed.h == r.h,
    {
    }

    /// A rectangle without negative width or height that is no larger than
    /// its parent lies within the parent once it is moved inside.
    pub proof fn lemma_move_inside_contained(r: Rectangle, parent: Rectangle)
        requires
            r.w <= parent.w,
            r.h <= parent.h,
            r.w >= 0,
            r.h >= 0,
        ensures
            r.move_inside(parent) matches Some(placed) && parent.contains(placed),
    {
    }

    /// When exactly a rectangle that is no larger than its parent lies within
    /// the parent once it is moved inside: on each axis it is not reversed, or
    /// it lay within the parent as it was.
    pub proof fn lemma_move_inside_contained_exactly(r: Rectangle, parent: Rectangle)
        requires
            r.w <= parent.w,
            r.h <= parent.h,
        ensures
            r.move_inside(parent) matches Some(placed) && (parent.contains(placed) <==> {
                &&& r.w >= 0 || parent.x - r.w <= r.x <= parent.right()
                &&& r.h >= 0 || parent.y - r.h <= r.y <= parent.bottom()
            }),
    {
    }

    /// Moving a rectangle that already lies within its parent leaves it where
    /// it is.
    pub proof fn lemma_move_inside_fixed(r: Rectangle, parent: Rectangle)
        requires
            parent.contains(r),
        ensures
            r.move_inside(parent) == Some(r),
    {
    }
}

} // verus!
