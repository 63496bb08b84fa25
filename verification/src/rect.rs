//! The normalized axis-aligned selection rectangle and its membership test.

use vstd::prelude::*;

verus! {

/// An axis-aligned selection rectangle, normalized from the two corners of a
/// drag gesture.
///
/// It is stored by its bounds: `x_min..=x_max` on x and `y_min..y_max` on y
/// (the upper y bound is exclusive in the membership test, the other three
/// bounds are inclusive). Over integer corners the bounds carry exactly the
/// information of a center with half-extents `width / 2` and `height / 2`:
/// the lower x bound is `center - width / 2` and the upper one is
/// `center + width / 2`, with no halves falling between grid points.
#[derive(Clone, Copy, Debug)]
pub struct SelectionAabb {
    pub x_min: i64,
    pub y_min: i64,
    pub x_max: i64,
    pub y_max: i64,
}

/// The rectangle spanned by the two corners `a_click` and `b_click`:
/// each bound is the smaller or the larger of the matching coordinates.
pub open spec fn spec_new_aabb(a_click: (i64, i64), b_click: (i64, i64)) -> SelectionAabb {
    SelectionAabb {
        x_min: if a_click.0 <= b_click.0 { a_click.0 } else { b_click.0 },
        y_min: if a_click.1 <= b_click.1 { a_click.1 } else { b_click.1 },
        x_max: if a_click.0 <= b_click.0 { b_click.0 } else { a_click.0 },
        y_max: if a_click.1 <= b_click.1 { b_click.1 } else { a_click.1 },
    }
}

/// Membership: inclusive on both x bounds, inclusive below and exclusive
/// above on y.
pub open spec fn spec_in_aabb(pos: (i64, i64), aabb: SelectionAabb) -> bool {
    &&& aabb.x_min <= pos.0
    &&& pos.0 <= aabb.x_max
    &&& aabb.y_min <= pos.1
    &&& pos.1 < aabb.y_max
}

impl SelectionAabb {
    /// A rectangle is well-formed when its bounds are ordered.
    pub open spec fn wf(self) -> bool {
        self.x_min <= self.x_max && self.y_min <= self.y_max
    }

    pub open spec fn spec_width(self) -> int {
        self.x_max - self.x_min
    }

    pub open spec fn spec_height(self) -> int {
        self.y_max - self.y_min
    }

    /// Normalizes the two captured drag corners into a rectangle whose
    /// width and height are the absolute coordinate differences.
    pub fn new(a_click: (i64, i64), b_click: (i64, i64)) -> (r: SelectionAabb)
        ensures
            r == spec_new_aabb(a_click, b_click),
            r.wf(),
            r.spec_width() == vstd::math::abs(a_click.0 - b_click.0),
            r.spec_height() == vstd::math::abs(a_click.1 - b_click.1),
    {
        let x_min: i64 = if a_click.0 <= b_click.0 { a_click.0 } else { b_click.0 };
        let x_max: i64 = if a_click.0 <= b_click.0 { b_click.0 } else { a_click.0 };
        let y_min: i64 = if a_click.1 <= b_click.1 { a_click.1 } else { b_click.1 };
        let y_max: i64 = if a_click.1 <= b_click.1 { b_click.1 } else { a_click.1 };
        SelectionAabb { x_min, y_min, x_max, y_max }
    }

    /// The rectangle's width, `|x1 - x2|` of the corners it was built from.
    pub fn width(&self) -> (w: i64)
        requires
            self.wf(),
            self.x_max - self.x_min <= i64::MAX,
        ensures
            w == self.spec_width(),
    {
        self.x_max - self.x_min
    }

    /// The rectangle's height, `|y1 - y2|` of the corners it was built from.
    pub fn height(&self) -> (h: i64)
        requires
            self.wf(),
            self.y_max - self.y_min <= i64::MAX,
        ensures
            h == self.spec_height(),
    {
        self.y_max - self.y_min
    }

    /// The rectangle's center, the midpoint of the corners it was built
    /// from, rounded down to the grid when a span is odd.
    pub fn center(&self) -> (c: (i64, i64))
        requires
            self.wf(),
            self.x_max - self.x_min <= i64::MAX,
            self.y_max - self.y_min <= i64::MAX,
        ensures
            c.0 == self.x_min + self.spec_width() / 2,
            c.1 == self.y_min + self.spec_height() / 2,
    {
        let cx: i64 = self.x_min + (self.x_max - self.x_min) / 2;
        let cy: i64 = self.y_min + (self.y_max - self.y_min) / 2;
        (cx, cy)
    }
}

/// Tests whether a world position lies inside the rectangle: inclusive on
/// both x bounds, inclusive below and exclusive above on y.
pub fn in_aabb(pos: (i64, i64), aabb: &SelectionAabb) -> (r: bool)
    ensures
        r == spec_in_aabb(pos, *aabb),
{
    pos.0 >= aabb.x_min && pos.0 <= aabb.x_max && pos.1 >= aabb.y_min && pos.1 < aabb.y_max
}

/// Normalization symmetry: building a rectangle from `(a, b)` and from
/// `(b, a)` yields the same rectangle, hence the same center, width and
/// height.
pub proof fn lemma_new_aabb_symmetric(a_click: (i64, i64), b_click: (i64, i64))
    ensures
        spec_new_aabb(a_click, b_click) == spec_new_aabb(b_click, a_click),
{
}

/// A degenerate drag, where start and end coincide, yields a rectangle of
/// width and height zero whose membership test admits no point at all: the
/// half-open y range is empty.
pub proof fn lemma_degenerate_aabb(p: (i64, i64))
    ensures
        spec_new_aabb(p, p).spec_width() == 0,
        spec_new_aabb(p, p).spec_height() == 0,
        forall|q: (i64, i64)| !spec_in_aabb(q, spec_new_aabb(p, p)),
{
}

} // verus!
