//! Points, offsets, extents and rectangles measured in [`Px`].
use crate::px::{fits_i16, Px};
use core::ops::Add;
use vstd::prelude::*;

verus! {

/// A position on screen.
#[derive(Clone, Copy, Debug, Default, PartialEq, Eq, Structural)]
pub struct Point {
    pub x: Px,
    pub y: Px,
}

impl Point {
    pub fn new(x: Px, y: Px) -> (r: Self)
        ensures
            r.x == x,
            r.y == y,
    {
        Self { x, y }
    }
}

impl vstd::std_specs::ops::AddSpecImpl<Extent> for Point {
    open spec fn obeys_add_spec() -> bool {
        true
    }

    open spec fn add_req(self, rhs: Extent) -> bool {
        true
    }

    open spec fn add_spec(self, rhs: Extent) -> Rect {
        Rect { point: self, extent: rhs }
    }
}

/// A point placed at the corner of an extent describes the rectangle that
/// the extent covers from there.
impl Add<Extent> for Point {
    type Output = Rect;

    fn add(self, rhs: Extent) -> Rect {
        Rect { point: self, extent: rhs }
    }
}

/// A displacement on screen.
#[derive(Clone, Copy, Debug, Default, PartialEq, Eq, Structural)]
pub struct Offset {
    pub x: Px,
    pub y: Px,
}

/// A width and a height.
#[derive(Clone, Copy, Debug, Default, PartialEq, Eq, PartialOrd, Ord, Structural)]
pub struct Extent {
    pub width: Px,
    pub height: Px,
}

impl Extent {
    /// The largest extent: `Px(i16::MAX)` in both directions.
    pub fn max_value() -> (r: Self)
        ensures
            r.width.0 == i16::MAX,
            r.height.0 == i16::MAX,
    {
        Self::new(Px::max_value(), Px::max_value())
    }

    pub fn new(width: Px, height: Px) -> (r: Self)
        ensures
            r.width == width,
            r.height == height,
    {
        Self { width, height }
    }
}

/// An axis-aligned rectangle: its top-left `point` and its `extent`.
#[derive(Clone, Copy, Debug, PartialEq, Eq, Structural)]
pub struct Rect {
    pub point: Point,
    pub extent: Extent,
}

impl Rect {
    /// The vertex order of the two triangles that make up a rectangle, as
    /// indices into [`Rect::points`].
    pub const INDICES: [u16; 6] = [0, 1, 2, 0, 2, 3];

    /// The right edge `x + width`, as a mathematical integer.
    pub open spec fn right_int(self) -> int {
        self.point.x.0 + self.extent.width.0
    }

    /// The bottom edge `y + height`, as a mathematical integer.
    pub open spec fn bottom_int(self) -> int {
        self.point.y.0 + self.extent.height.0
    }

    /// Both far edges of the rectangle can be held by an `i16`.
    pub open spec fn edges_fit(self) -> bool {
        fits_i16(self.right_int()) && fits_i16(self.bottom_int())
    }

    /// Whether the point lies in the rectangle, edges included.
    pub open spec fn spec_contains(self, p: Point) -> bool {
        &&& self.point.x.0 <= p.x.0 <= self.right_int()
        &&& self.point.y.0 <= p.y.0 <= self.bottom_int()
    }

    /// Whether `rect` lies in the rectangle, edges included.
    pub open spec fn spec_contains_rect(self, rect: Rect) -> bool {
        &&& self.point.x.0 <= rect.point.x.0
        &&& self.right_int() >= rect.right_int()
        &&& self.point.y.0 <= rect.point.y.0
        &&& self.bottom_int() >= rect.bottom_int()
    }

    pub fn new(x: Px, y: Px, width: Px, height: Px) -> (r: Self)
        ensures
            r.point.x == x,
            r.point.y == y,
            r.extent.width == width,
            r.extent.height == height,
    {
        Self { point: Point { x, y }, extent: Extent { width, height } }
    }

    pub fn from_extent(x: Px, y: Px, extent: Extent) -> (r: Self)
        ensures
            r.point.x == x,
            r.point.y == y,
            r.extent == extent,
    {
        Self { point: Point { x, y }, extent }
    }

    pub fn x(&self) -> (r: Px)
        ensures
            r == self.point.x,
    {
        self.point.x
    }

    pub fn y(&self) -> (r: Px)
        ensures
            r == self.point.y,
    {
        self.point.y
    }

    pub fn width(&self) -> (r: Px)
        ensures
            r == self.extent.width,
    {
        self.extent.width
    }

    pub fn height(&self) -> (r: Px)
        ensures
            r == self.extent.height,
    {
        self.extent.height
    }

    pub fn left(&self) -> (r: Px)
        ensures
            r == self.point.x,
    {
        self.point.x
    }

    pub fn right(&self) -> (r: Px)
        requires
            fits_i16(self.right_int()),
        ensures
            r.0 == self.right_int(),
    {
        self.point.x + self.extent.width
    }

    pub fn top(&self) -> (r: Px)
        ensures
            r == self.point.y,
    {
        self.point.y
    }

    pub fn bottom(&self) -> (r: Px)
        requires
            fits_i16(self.bottom_int()),
        ensures
            r.0 == self.bottom_int(),
    {
        self.point.y + self.extent.height
    }

    /// The four corners, starting at `point` and going around through
    /// `(x, y + height)`, `(x + width, y + height)` and `(x + width, y)`.
    pub fn points(&self) -> (r: [Point; 4])
        requires
            self.edges_fit(),
        ensures
            r[0] == self.point,
            r[1].x == self.point.x && r[1].y.0 == self.bottom_int(),
            r[2].x.0 == self.right_int() && r[2].y.0 == self.bottom_int(),
            r[3].x.0 == self.right_int() && r[3].y == self.point.y,
    {
        [
            self.point,
            Point { x: self.x(), y: self.y() + self.height() },
            Point { x: self.x() + self.width(), y: self.y() + self.height() },
            Point { x: self.x() + self.width(), y: self.y() },
        ]
    }

    /// Whether `point` lies in the rectangle, edges included.
    pub fn contains_point(&self, point: Point) -> (r: bool)
        requires
            self.edges_fit(),
        ensures
            r == self.spec_contains(point),
    {
        (self.left().0 <= point.x.0) && (self.right().0 >= point.x.0) && (self.top().0 <= point.y.0)
            && (self.bottom().0 >= point.y.0)
    }

    /// Whether `rect` lies in this rectangle, edges included.
    pub fn contains_rect(&self, rect: Self) -> (r: bool)
        requires
            self.edges_fit(),
            rect.edges_fit(),
        ensures
            r == self.spec_contains_rect(rect),
    {
        (self.left().0 <= rect.left().0) && (self.right().0 >= rect.right().0) && (self.top().0
            <= rect.top().0) && (self.bottom().0 >= rect.bottom().0)
    }
}

/// A rectangle that contains another rectangle contains every point of it.
pub proof fn lemma_contains_rect_contains_points(outer: Rect, inner: Rect, p: Point)
    requires
        outer.spec_contains_rect(inner),
        inner.spec_contains(p),
    ensures
        outer.spec_contains(p),
{
}

} // verus!
