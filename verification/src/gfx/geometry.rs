//! Points, extents and rectangles over any integer coordinate type.
use vstd::prelude::*;

verus! {

/// A coordinate type: an integer type with checked addition and comparison.
pub trait Number: Copy + Sized {
    /// The value as a mathematical integer.
    spec fn as_int(self) -> int;

    /// The smallest value of the type.
    spec fn min_int() -> int;

    /// The largest value of the type.
    spec fn max_int() -> int;

    proof fn lemma_range(self)
        ensures
            Self::min_int() <= self.as_int() <= Self::max_int(),
    ;

    /// The largest value of the type.
    fn max_value() -> (r: Self)
        ensures
            r.as_int() == Self::max_int(),
    ;

    /// The sum, which must be representable.
    fn plus(self, other: Self) -> (r: Self)
        requires
            Self::min_int() <= self.as_int() + other.as_int() <= Self::max_int(),
        ensures
            r.as_int() == self.as_int() + other.as_int(),
    ;

    /// Whether `self <= other`.
    fn le(self, other: Self) -> (r: bool)
        ensures
            r == (self.as_int() <= other.as_int()),
    ;
}

impl Number for i16 {
    open spec fn as_int(self) -> int {
        self as int
    }

    open spec fn min_int() -> int {
        i16::MIN as int
    }

    open spec fn max_int() -> int {
        i16::MAX as int
    }

    proof fn lemma_range(self) {
    }

    fn max_value() -> (r: Self) {
        i16::MAX
    }

    fn plus(self, other: Self) -> (r: Self) {
        self + other
    }

    fn le(self, other: Self) -> (r: bool) {
        self <= other
    }
}

impl Number for i32 {
    open spec fn as_int(self) -> int {
        self as int
    }

    open spec fn min_int() -> int {
        i32::MIN as int
    }

    open spec fn max_int() -> int {
        i32::MAX as int
    }

    proof fn lemma_range(self) {
    }

    fn max_value() -> (r: Self) {
        i32::MAX
    }

    fn plus(self, other: Self) -> (r: Self) {
        self + other
    }

    fn le(self, other: Self) -> (r: bool) {
        self <= other
    }
}

impl Number for i64 {
    open spec fn as_int(self) -> int {
        self as int
    }

    open spec fn min_int() -> int {
        i64::MIN as int
    }

    open spec fn max_int() -> int {
        i64::MAX as int
    }

    proof fn lemma_range(self) {
    }

    fn max_value() -> (r: Self) {
        i64::MAX
    }

    fn plus(self, other: Self) -> (r: Self) {
        self + other
    }

    fn le(self, other: Self) -> (r: bool) {
        self <= other
    }
}

impl Number for u16 {
    open spec fn as_int(self) -> int {
        self as int
    }

    open spec fn min_int() -> int {
        0
    }

    open spec fn max_int() -> int {
        u16::MAX as int
    }

    proof fn lemma_range(self) {
    }

    fn max_value() -> (r: Self) {
        u16::MAX
    }

    fn plus(self, other: Self) -> (r: Self) {
        self + other
    }

    fn le(self, other: Self) -> (r: bool) {
        self <= other
    }
}

impl Number for u32 {
    open spec fn as_int(self) -> int {
        self as int
    }

    open spec fn min_int() -> int {
        0
    }

    open spec fn max_int() -> int {
        u32::MAX as int
    }

    proof fn lemma_range(self) {
    }

    fn max_value() -> (r: Self) {
        u32::MAX
    }

    fn plus(self, other: Self) -> (r: Self) {
        self + other
    }

    fn le(self, other: Self) -> (r: bool) {
        self <= other
    }
}

/// Whether an integer is a value of the coordinate type `T`.
pub open spec fn fits<T: Number>(v: int) -> bool {
    T::min_int() <= v <= T::max_int()
}

/// A position.
#[derive(Clone, Copy, Debug, Default, PartialEq, Eq)]
pub struct Point<T> where T: Number {
    pub x: T,
    pub y: T,
}

impl<T> Point<T> where T: Number {
    pub fn new(x: T, y: T) -> (r: Self)
        ensures
            r.x == x,
            r.y == y,
    {
        Self { x, y }
    }

    /// Whether the point lies in `rect`, edges included: the answer of
    /// [`Rect::contains_point`].
    pub fn is_in(&self, rect: Rect<T>) -> (r: bool)
        requires
            rect.edges_fit(),
        ensures
            r == rect.spec_contains(*self),
    {
        rect.contains_point(*self)
    }
}

/// A width and a height.
#[derive(Clone, Copy, Debug, Default, PartialEq, Eq)]
pub struct Extent<T> where T: Number {
    pub width: T,
    pub height: T,
}

impl<T> Extent<T> where T: Number {
    pub fn new(width: T, height: T) -> (r: Self)
        ensures
            r.width == width,
            r.height == height,
    {
        Self { width, height }
    }

    /// The largest extent: the largest value in both directions.
    pub fn max_value() -> (r: Self)
        ensures
            r.width.as_int() == T::max_int(),
            r.height.as_int() == T::max_int(),
    {
        Self { width: T::max_value(), height: T::max_value() }
    }
}

/// An axis-aligned rectangle given by its lower-left corner and its extent.
#[derive(Clone, Copy, Debug, PartialEq, Eq)]
pub struct Rect<T> where T: Number {
    pub lower_left_corner: Point<T>,
    pub extent: Extent<T>,
}

impl<T> Rect<T> where T: Number {
    /// The vertex order of the two triangles that make up a rectangle, as
    /// indices into [`Rect::points`].
    pub const INDICES: [u16; 6] = [0, 1, 2, 0, 2, 3];

    /// The right edge `x + width`.
    pub open spec fn right_int(self) -> int {
        self.lower_left_corner.x.as_int() + self.extent.width.as_int()
    }

    /// The top edge `y + height`.
    pub open spec fn top_int(self) -> int {
        self.lower_left_corner.y.as_int() + self.extent.height.as_int()
    }

    /// Both far edges are values of `T`.
    pub open spec fn edges_fit(self) -> bool {
        fits::<T>(self.right_int()) && fits::<T>(self.top_int())
    }

    /// Whether `p` lies in the rectangle, edges included.
    pub open spec fn spec_contains(self, p: Point<T>) -> bool {
        &&& self.lower_left_corner.x.as_int() <= p.x.as_int() <= self.right_int()
        &&& self.lower_left_corner.y.as_int() <= p.y.as_int() <= self.top_int()
    }

    pub fn new(x: T, y: T, width: T, height: T) -> (r: Self)
        ensures
            r.lower_left_corner.x == x,
            r.lower_left_corner.y == y,
            r.extent.width == width,
            r.extent.height == height,
    {
        Self { lower_left_corner: Point::new(x, y), extent: Extent::new(width, height) }
    }

    pub fn x(&self) -> (r: T)
        ensures
            r == self.lower_left_corner.x,
    {
        self.lower_left_corner.x
    }

    pub fn y(&self) -> (r: T)
        ensures
            r == self.lower_left_corner.y,
    {
        self.lower_left_corner.y
    }

    pub fn width(&self) -> (r: T)
        ensures
            r == self.extent.width,
    {
        self.extent.width
    }

    pub fn height(&self) -> (r: T)
        ensures
            r == self.extent.height,
    {
        self.extent.height
    }

    /// The four corners, starting at the lower-left one and going around
    /// through `(x, y + height)`, `(x + width, y + height)` and
    /// `(x + width, y)`.
    pub fn points(&self) -> (r: [Point<T>; 4])
        requires
            self.edges_fit(),
        ensures
            r[0] == self.lower_left_corner,
            r[1].x == self.lower_left_corner.x && r[1].y.as_int() == self.top_int(),
            r[2].x.as_int() == self.right_int() && r[2].y.as_int() == self.top_int(),
            r[3].x.as_int() == self.right_int() && r[3].y == self.lower_left_corner.y,
    {
        [
            self.lower_left_corner,
            Point {
                x: self.lower_left_corner.x,
                y: self.lower_left_corner.y.plus(self.extent.height),
            },
            Point {
                x: self.lower_left_corner.x.plus(self.extent.width),
                y: self.lower_left_corner.y.plus(self.extent.height),
            },
            Point {
                x: self.lower_left_corner.x.plus(self.extent.width),
                y: self.lower_left_corner.y,
            },
        ]
    }

    /// Whether `point` lies in the rectangle, edges included.
    pub fn contains_point(&self, point: Point<T>) -> (r: bool)
        requires
            self.edges_fit(),
        ensures
            r == self.spec_contains(point),
    {
        let left = self.lower_left_corner.x;
        let right = self.lower_left_corner.x.plus(self.extent.width);
        let top = self.lower_left_corner.y.plus(self.extent.height);
        let bottom = self.lower_left_corner.y;

        let in_x = left.le(point.x) && point.x.le(right);
        let in_y = bottom.le(point.y) && point.y.le(top);

        in_x && in_y
    }
}

/// Every corner of a rectangle with a non-negative extent lies in it.
pub proof fn lemma_corners_inside<T: Number>(rect: Rect<T>, corners: [Point<T>; 4])
    requires
        rect.edges_fit(),
        rect.extent.width.as_int() >= 0,
        rect.extent.height.as_int() >= 0,
        corners[0] == rect.lower_left_corner,
        corners[1].x == rect.lower_left_corner.x && corners[1].y.as_int() == rect.top_int(),
        corners[2].x.as_int() == rect.right_int() && corners[2].y.as_int() == rect.top_int(),
        corners[3].x.as_int() == rect.right_int() && corners[3].y == rect.lower_left_corner.y,
    ensures
        forall|i: int| 0 <= i < 4 ==> rect.spec_contains(#[trigger] corners[i]),
{
    assert forall|i: int| 0 <= i < 4 implies rect.spec_contains(#[trigger] corners[i]) by {
        if i == 0 {
        } else if i == 1 {
        } else if i == 2 {
        } else {
        }
    }
}

} // verus!
