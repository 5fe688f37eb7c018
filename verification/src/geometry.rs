//! Pixel geometry: rectangles, padding and the layout values that the
//! external layout engine hands to the pipeline, with the content-rectangle
//! computation used when drawing a frame.

use vstd::prelude::*;

verus! {

/// An axis-aligned rectangle in pixel coordinates, edges inclusive of
/// `left`/`top` and exclusive of `right`/`bottom`.
#[derive(Clone, Copy, Debug, PartialEq, Eq, Structural)]
pub struct Rect {
    pub left: i32,
    pub top: i32,
    pub right: i32,
    pub bottom: i32,
}

/// Padding on the four sides of a layout node, in pixels.
#[derive(Clone, Copy, Debug, PartialEq, Eq, Structural)]
pub struct Padding {
    pub top: i32,
    pub right: i32,
    pub bottom: i32,
    pub left: i32,
}

/// The geometry the external layout engine produces for a node: an outer
/// size and the padding inset on each side. Fractional results from the
/// engine are rounded to whole pixels before they reach the pipeline.
#[derive(Clone, Copy, Debug, PartialEq, Eq, Structural)]
pub struct Layout {
    pub width: i32,
    pub height: i32,
    pub padding: Padding,
}

impl Rect {
    /// Width of the rectangle.
    pub open spec fn width(self) -> int {
        self.right - self.left
    }

    /// Height of the rectangle.
    pub open spec fn height(self) -> int {
        self.bottom - self.top
    }
}

impl Layout {
    /// A layout the pipeline can render: positive pixel dimensions, and
    /// padding that is non-negative and fits inside the size.
    pub open spec fn is_valid(self) -> bool {
        &&& self.width > 0
        &&& self.height > 0
        &&& self.padding.top >= 0
        &&& self.padding.right >= 0
        &&& self.padding.bottom >= 0
        &&& self.padding.left >= 0
        &&& self.padding.left + self.padding.right <= self.width
        &&& self.padding.top + self.padding.bottom <= self.height
    }
}

/// The rectangle left for content after insetting a layout's size by its
/// padding on every side.
pub open spec fn content_rect_of(l: Layout) -> Rect {
    Rect {
        left: l.padding.left,
        top: l.padding.top,
        right: (l.width - l.padding.right) as i32,
        bottom: (l.height - l.padding.bottom) as i32,
    }
}

/// Whether a layout is one the pipeline can render; see [`Layout::is_valid`].
pub fn layout_is_valid(l: &Layout) -> (b: bool)
    ensures
        b == l.is_valid(),
{
    l.width > 0 && l.height > 0 && l.padding.top >= 0 && l.padding.right >= 0
        && l.padding.bottom >= 0 && l.padding.left >= 0
        && l.padding.left <= l.width - l.padding.right
        && l.padding.top <= l.height - l.padding.bottom
}

/// Compute the content rectangle of a valid layout: the node's bounds inset
/// by its padding. The result never leaves the node's own bounds.
pub fn content_rect(l: &Layout) -> (r: Rect)
    requires
        l.is_valid(),
    ensures
        r == content_rect_of(*l),
        r.left == l.padding.left,
        r.top == l.padding.top,
        r.right == l.width - l.padding.right,
        r.bottom == l.height - l.padding.bottom,
        0 <= r.left <= r.right <= l.width,
        0 <= r.top <= r.bottom <= l.height,
{
    Rect {
        left: l.padding.left,
        top: l.padding.top,
        right: l.width - l.padding.right,
        bottom: l.height - l.padding.bottom,
    }
}

} // verus!
