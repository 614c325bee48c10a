//! Rectangles and edge arithmetic for the box model.
//!
//! A rectangle is measured in a single pixel unit relative to a document-wide
//! origin, growing down and right. The one derived operation is expansion by
//! an edge-thickness set, which shifts the rectangle by `(-left, -top)` and
//! grows it by `(left + right, top + bottom)`.

use vstd::prelude::*;
use crate::style::{Edge, Pixels};

verus! {

/// Position and size of a rectangle, relative to the document origin.
#[derive(Clone, Copy, PartialEq, Eq, Structural, Debug)]
pub struct Rect {
    pub x: Pixels,
    pub y: Pixels,
    pub width: Pixels,
    pub height: Pixels,
}

/// Mathematical model of a rectangle, free of machine-width limits.
pub ghost struct RectModel {
    pub x: int,
    pub y: int,
    pub width: int,
    pub height: int,
}

/// Mathematical model of an edge-thickness set.
pub ghost struct EdgeModel {
    pub left: int,
    pub right: int,
    pub top: int,
    pub bottom: int,
}

impl View for Rect {
    type V = RectModel;

    open spec fn view(&self) -> RectModel {
        RectModel { x: self.x as int, y: self.y as int, width: self.width as int, height: self.height as int }
    }
}

impl View for Edge<Pixels> {
    type V = EdgeModel;

    open spec fn view(&self) -> EdgeModel {
        EdgeModel {
            left: self.left as int,
            right: self.right as int,
            top: self.top as int,
            bottom: self.bottom as int,
        }
    }
}

/// The rectangle `r` expanded on every side by the edge set `e`.
pub open spec fn expand(r: RectModel, e: EdgeModel) -> RectModel {
    RectModel {
        x: r.x - e.left,
        y: r.y - e.top,
        width: r.width + e.left + e.right,
        height: r.height + e.top + e.bottom,
    }
}

/// Every side of `e` is non-negative.
pub open spec fn edge_nonneg(e: EdgeModel) -> bool {
    e.left >= 0 && e.right >= 0 && e.top >= 0 && e.bottom >= 0
}

/// `inner` lies entirely within `outer`.
pub open spec fn rect_contains(outer: RectModel, inner: RectModel) -> bool {
    &&& outer.x <= inner.x
    &&& outer.y <= inner.y
    &&& inner.x + inner.width <= outer.x + outer.width
    &&& inner.y + inner.height <= outer.y + outer.height
}

/// All four results of expanding `r` by `e` stay within pixel range.
pub open spec fn expand_fits(r: RectModel, e: EdgeModel) -> bool {
    &&& i64::MIN <= r.x - e.left <= i64::MAX
    &&& i64::MIN <= r.y - e.top <= i64::MAX
    &&& i64::MIN <= r.width + e.left <= i64::MAX
    &&& i64::MIN <= r.width + e.left + e.right <= i64::MAX
    &&& i64::MIN <= r.height + e.top <= i64::MAX
    &&& i64::MIN <= r.height + e.top + e.bottom <= i64::MAX
}

impl Rect {
    /// A rectangle of zero size at the document origin.
    pub fn zero() -> (r: Rect)
        ensures
            r == (Rect { x: 0i64, y: 0i64, width: 0i64, height: 0i64 }),
    {
        Rect { x: 0, y: 0, width: 0, height: 0 }
    }

    /// The rectangle expanded on every side by the given edge set.
    pub fn expanded_by(self, edge: Edge<Pixels>) -> (r: Rect)
        requires
            expand_fits(self@, edge@),
        ensures
            r@ == expand(self@, edge@),
    {
        Rect {
            x: self.x - edge.left,
            y: self.y - edge.top,
            width: self.width + edge.left + edge.right,
            height: self.height + edge.top + edge.bottom,
        }
    }
}

} // verus!
