//! The state of the layouts that place widgets: top-to-bottom stacks and
//! rows of equal-width columns.
use crate::gfx::color::Color;
use crate::px::{div_trunc, fits_i16, Px};
use crate::shapes::{Extent, Point, Rect};
use vstd::prelude::*;

verus! {

/// The state of a layout that places children one after the other.
pub trait LayoutState: Sized {
    /// Whether a child of `extent` can be finished within `i16` pixels.
    spec fn can_end_child(&self, extent: Extent) -> bool;

    /// The state once a child of `extent` is finished.
    spec fn after_child(&self, extent: Extent) -> Self;

    /// Finishes a child of `extent`.
    fn end_child(&mut self, extent: Extent)
        requires
            old(self).can_end_child(extent),
        ensures
            *final(self) == old(self).after_child(extent),
    ;
}

/// The color of an idle widget.
pub fn ui_color() -> (c: Color)
    ensures
        c == (Color { r: 100, g: 100, b: 100, a: 255 }),
{
    Color::rgb(100, 100, 100)
}

/// The color of a widget under the cursor.
pub fn hover_color() -> (c: Color)
    ensures
        c == (Color { r: 200, g: 200, b: 200, a: 255 }),
{
    Color::rgb(200, 200, 200)
}

/// The color of the widget being interacted with.
pub fn active_color() -> (c: Color)
    ensures
        c == (Color { r: 100, g: 100, b: 255, a: 255 }),
{
    Color::rgb(100, 100, 255)
}

/// The state of a top-to-bottom stack: children are placed at `x`, one below
/// the other, `margin` apart.
#[derive(Clone, Copy, Debug, PartialEq, Eq, Structural)]
pub struct TopToBottomState {
    pub x: Px,
    pub y: Px,
    pub margin: Px,
    pub advancing_y: Px,
    pub max: Extent,
}

impl TopToBottomState {
    /// A stack at `(x, y)` within `max_size`.
    pub fn begin(x: Px, y: Px, max_size: Extent, margin: Px) -> (r: Self)
        ensures
            r == (TopToBottomState { x, y, margin, advancing_y: y, max: max_size }),
    {
        TopToBottomState { x, y, margin, advancing_y: y, max: max_size }
    }

    /// The extents a child may take: from nothing up to the full width and
    /// the height left below `advancing_y`.
    pub fn widget_extent(&self) -> (r: (Extent, Extent))
        requires
            fits_i16(self.max.height.0 - self.advancing_y.0),
        ensures
            r.0 == (Extent { width: Px(0), height: Px(0) }),
            r.1.width == self.max.width,
            r.1.height.0 == self.max.height.0 - self.advancing_y.0,
    {
        let min_height = Px(0);
        let max_height = self.max.height - self.advancing_y;
        (Extent::new(Px(0), min_height), Extent::new(self.max.width, max_height))
    }

    /// Places a child of `extent` at `(x, advancing_y)` and moves
    /// `advancing_y` past it and the margin.
    pub fn position_extent(&mut self, extent: Extent) -> (r: Rect)
        requires
            old(self).end_child_ok(extent),
        ensures
            r.point == (Point { x: old(self).x, y: old(self).advancing_y }),
            r.extent == extent,
            final(self).advancing_y.0 == old(self).advancing_y.0 + extent.height.0 + old(self).margin.0,
            final(self).x == old(self).x,
            final(self).y == old(self).y,
            final(self).margin == old(self).margin,
            final(self).max == old(self).max,
    {
        let point = Point::new(self.x, self.advancing_y);
        self.advancing_y = self.advancing_y + (extent.height + self.margin);
        Rect { point, extent }
    }

    /// The state of a row of `num_columns` columns placed at the current
    /// position, as wide as the stack and as high as the room left.
    pub fn layout_columns(&self, num_columns: i16, margin: Px) -> (r: ColumnState)
        requires
            fits_i16(self.max.height.0 - self.advancing_y.0),
        ensures
            r == ColumnState::spec_begin(
                self.x,
                self.advancing_y,
                Extent { width: self.max.width, height: Px((self.max.height.0 - self.advancing_y.0) as i16) },
                margin,
                num_columns,
            ),
    {
        let max = Extent::new(self.max.width, self.max.height - self.advancing_y);
        ColumnState::begin(self.x, self.advancing_y, max, margin, num_columns)
    }
}

impl TopToBottomState {
    /// Whether finishing a child of `extent` stays within `i16` pixels.
    pub open spec fn end_child_ok(&self, extent: Extent) -> bool {
        fits_i16(extent.height.0 + self.margin.0) && fits_i16(
            self.advancing_y.0 + extent.height.0 + self.margin.0,
        )
    }

}

impl LayoutState for TopToBottomState {
    open spec fn can_end_child(&self, extent: Extent) -> bool {
        &&& self.end_child_ok(extent)
        &&& fits_i16(self.advancing_y.0 + 2 * (extent.height.0 + self.margin.0))
    }

    /// `advancing_y` moves past the child and the margin twice over.
    open spec fn after_child(&self, extent: Extent) -> Self {
        TopToBottomState {
            advancing_y: Px((self.advancing_y.0 + 2 * (extent.height.0 + self.margin.0)) as i16),
            ..*self
        }
    }

    fn end_child(&mut self, extent: Extent) {
        self.advancing_y = self.advancing_y + (extent.height + self.margin);
        self.advancing_y = self.advancing_y + (extent.height + self.margin);
    }
}

/// The state of a row of `num_columns` equal-width columns, `margin` apart,
/// filled from the left.
#[derive(Clone, Copy, Debug, PartialEq, Eq, Structural)]
pub struct ColumnState {
    pub x: Px,
    pub y: Px,
    pub margin: Px,
    pub advancing_x: Px,
    pub max_widget_height: Px,
    pub num_columns: i16,
    pub column: i16,
    pub max: Extent,
}

impl ColumnState {
    pub open spec fn spec_begin(x: Px, y: Px, max_size: Extent, margin: Px, num_columns: i16) -> Self {
        ColumnState {
            x,
            y,
            margin,
            advancing_x: x,
            max_widget_height: Px(0),
            num_columns,
            column: 0,
            max: max_size,
        }
    }

    /// A row of columns at `(x, y)` within `max_size`.
    pub fn begin(x: Px, y: Px, max_size: Extent, margin: Px, num_columns: i16) -> (r: Self)
        ensures
            r == Self::spec_begin(x, y, max_size, margin, num_columns),
    {
        ColumnState {
            x,
            y,
            margin,
            advancing_x: x,
            max_widget_height: Px(0),
            num_columns,
            column: 0,
            max: max_size,
        }
    }

    /// The total width of the margins between the columns.
    pub open spec fn margins_int(self) -> int {
        (self.num_columns - 1) * self.margin.0
    }

    /// The width of one column: the width left after the margins, shared out
    /// evenly (rounding toward zero).
    pub open spec fn block_width_int(self) -> int {
        div_trunc(self.max.width.0 - self.margins_int(), self.num_columns as int)
    }

    /// Whether [`ColumnState::block_width`] stays within `i16` arithmetic.
    pub open spec fn block_width_ok(self) -> bool {
        &&& fits_i16(self.num_columns - 1)
        &&& fits_i16(self.margins_int())
        &&& fits_i16(self.max.width.0 - self.margins_int())
        &&& self.num_columns != 0
        &&& !(self.max.width.0 - self.margins_int() == i16::MIN && self.num_columns == -1)
    }

    /// The left edge of the current column.
    pub open spec fn block_start_int(self) -> int {
        self.x.0 + (self.block_width_int() + self.margin.0) * self.column
    }

    /// Whether [`ColumnState::block_start`] stays within `i16` arithmetic.
    pub open spec fn block_start_ok(self) -> bool {
        &&& self.block_width_ok()
        &&& fits_i16(self.block_width_int() + self.margin.0)
        &&& fits_i16((self.block_width_int() + self.margin.0) * self.column)
        &&& fits_i16(self.block_start_int())
    }

    /// The width of one column.
    pub fn block_width(&self) -> (r: Px)
        requires
            self.block_width_ok(),
        ensures
            r.0 == self.block_width_int(),
    {
        proof {
            crate::px::lemma_div_trunc_fits(
                self.max.width.0 - self.margins_int(),
                self.num_columns as int,
            );
        }
        let margins = (self.num_columns - 1) * self.margin;
        (self.max.width - margins) / self.num_columns
    }

    /// The left edge of the current column.
    pub fn block_start(&self) -> (r: Px)
        requires
            self.block_start_ok(),
        ensures
            r.0 == self.block_start_int(),
    {
        self.x + (self.block_width() + self.margin) * self.column
    }

    /// The extents a child may take: from nothing up to a column's width and
    /// any height. Every column must not be taken yet.
    pub fn widget_extent(&self) -> (r: (Extent, Extent))
        requires
            self.column < self.num_columns,
            self.block_width_ok(),
        ensures
            r.0 == (Extent { width: Px(0), height: Px(0) }),
            r.1.width.0 == self.block_width_int(),
            r.1.height.0 == i16::MAX,
    {
        (Extent::new(Px(0), Px(0)), Extent::new(self.block_width(), Px::max_value()))
    }

    /// Whether placing a child of `extent` stays within `i16` arithmetic.
    pub open spec fn position_ok(self, extent: Extent) -> bool {
        &&& self.block_start_ok()
        &&& fits_i16(self.block_start_int() + div_trunc(self.block_width_int(), 2))
        &&& fits_i16(self.x.0 + self.block_start_int() + div_trunc(self.block_width_int(), 2))
        &&& fits_i16(
            self.x.0 + self.block_start_int() + div_trunc(self.block_width_int(), 2) - div_trunc(
                extent.width.0 as int,
                2,
            ),
        )
        &&& self.end_child_ok(extent)
    }

    /// Places a child of `extent` in the current column: centered on the
    /// column's center offset once more by `x`, at the top of the row. Then
    /// moves on to the next column.
    pub fn position_extent(&mut self, extent: Extent) -> (r: Rect)
        requires
            old(self).position_ok(extent),
        ensures
            r.point.x.0 == old(self).x.0 + old(self).block_start_int() + div_trunc(
                old(self).block_width_int(),
                2,
            ) - div_trunc(extent.width.0 as int, 2),
            r.point.y == old(self).y,
            r.extent == extent,
            final(self).column == old(self).column + 1,
            final(self).advancing_x.0 == old(self).advancing_x.0 + old(self).margin.0,
            final(self).max_widget_height.0 == if old(self).max_widget_height.0
                >= extent.height.0 {
                old(self).max_widget_height.0
            } else {
                extent.height.0
            },
            final(self).x == old(self).x && final(self).y == old(self).y && final(self).margin
                == old(self).margin && final(self).num_columns == old(self).num_columns
                && final(self).max == old(self).max,
    {
        let block_center = self.block_start() + (self.block_width() / 2);
        let point = Point { x: self.x + block_center - (extent.width / 2), y: self.y };
        self.column = self.column + 1;
        self.advancing_x = self.advancing_x + self.margin;
        self.max_widget_height = self.max_widget_height.max(extent.height);
        Rect { point, extent }
    }

    /// The state of a stack in the current column: at the column's left edge
    /// and the row's top, a column wide and unbounded in height.
    pub fn layout_rows(&self, margin: Px) -> (r: TopToBottomState)
        requires
            self.block_start_ok(),
        ensures
            r.x.0 == self.block_start_int(),
            r.y == self.y,
            r.margin == margin,
            r.advancing_y == self.y,
            r.max.width.0 == self.block_width_int(),
            r.max.height.0 == i16::MAX,
    {
        let y = self.y;
        let block_width = self.block_width();
        let block_start = self.block_start();
        TopToBottomState::begin(block_start, y, Extent::new(block_width, Px::max_value()), margin)
    }
}

impl ColumnState {
    /// Whether finishing a child of `extent` stays within `i16` pixels.
    pub open spec fn end_child_ok(&self, extent: Extent) -> bool {
        self.column < i16::MAX && fits_i16(self.advancing_x.0 + self.margin.0)
    }

}

impl LayoutState for ColumnState {
    open spec fn can_end_child(&self, extent: Extent) -> bool {
        self.end_child_ok(extent)
    }

    /// The next column, past one more margin, keeping the tallest height
    /// seen.
    open spec fn after_child(&self, extent: Extent) -> Self {
        ColumnState {
            column: (self.column + 1) as i16,
            advancing_x: Px((self.advancing_x.0 + self.margin.0) as i16),
            max_widget_height: if self.max_widget_height.0 >= extent.height.0 {
                self.max_widget_height
            } else {
                extent.height
            },
            ..*self
        }
    }

    fn end_child(&mut self, extent: Extent) {
        self.column = self.column + 1;
        self.advancing_x = self.advancing_x + self.margin;
        self.max_widget_height = self.max_widget_height.max(extent.height);
    }
}

/// Finishing a child moves a row of columns to the next column, one margin
/// further right, and keeps the tallest height seen: at least the child's
/// height and the height before, and one of the two.
pub proof fn lemma_column_keeps_tallest(s: ColumnState, extent: Extent)
    ensures
        s.after_child(extent).max_widget_height.0 >= extent.height.0,
        s.after_child(extent).max_widget_height.0 >= s.max_widget_height.0,
        s.after_child(extent).max_widget_height == extent.height || s.after_child(extent).max_widget_height
            == s.max_widget_height,
        s.end_child_ok(extent) ==> s.after_child(extent).column == s.column + 1
            && s.after_child(extent).advancing_x.0 == s.advancing_x.0 + s.margin.0,
        s.after_child(extent).x == s.x && s.after_child(extent).y == s.y && s.after_child(extent).margin == s.margin
            && s.after_child(extent).max == s.max && s.after_child(extent).num_columns == s.num_columns,
{
}

/// The layout state of a whole user interface: children stacked from the
/// top of an area of `max`.
#[derive(Clone, Copy, Debug, PartialEq, Eq, Structural)]
pub struct BuilderLayoutState {
    pub max: Extent,
    pub advancing_y: Px,
}

impl BuilderLayoutState {
    /// The state for a user interface of `ui_size`.
    pub fn new(ui_size: Extent) -> (r: Self)
        ensures
            r == (BuilderLayoutState { max: ui_size, advancing_y: Px(0) }),
    {
        BuilderLayoutState { max: ui_size, advancing_y: Px(0) }
    }

    /// The state of a top-to-bottom stack over the whole area.
    pub fn top_to_bottom(&self, margin: Px) -> (r: TopToBottomState)
        ensures
            r == (TopToBottomState { x: Px(0), y: Px(0), margin, advancing_y: Px(0), max: self.max }),
    {
        TopToBottomState::begin(Px(0), Px(0), self.max, margin)
    }
}

impl BuilderLayoutState {
    /// Whether finishing a child of `extent` stays within `i16` pixels.
    pub open spec fn end_child_ok(&self, extent: Extent) -> bool {
        fits_i16(self.advancing_y.0 + extent.height.0)
    }

    /// The extents a child may take: from nothing up to the full width and
    /// the height left below `advancing_y`, which must not lie past the
    /// bottom of the area.
    pub fn widget_extent(&self) -> (r: (Extent, Extent))
        requires
            self.advancing_y.0 <= self.max.height.0,
            fits_i16(self.max.height.0 - self.advancing_y.0),
        ensures
            r.0 == (Extent { width: Px(0), height: Px(0) }),
            r.1.width == self.max.width,
            r.1.height.0 == self.max.height.0 - self.advancing_y.0,
    {
        let min_height = Px(0);
        let max_height = self.max.height - self.advancing_y;
        (Extent::new(Px(0), min_height), Extent::new(self.max.width, max_height))
    }

    /// Places a child of `extent` at the left edge, at `advancing_y`, and
    /// moves `advancing_y` past it.
    pub fn position_extent(&mut self, extent: Extent) -> (r: Rect)
        requires
            old(self).end_child_ok(extent),
        ensures
            r.point == (Point { x: Px(0), y: old(self).advancing_y }),
            r.extent == extent,
            *final(self) == old(self).after_child(extent),
    {
        let point = Point::new(Px(0), self.advancing_y);
        self.advancing_y = self.advancing_y + extent.height;
        Rect { point, extent }
    }
}

impl LayoutState for BuilderLayoutState {
    open spec fn can_end_child(&self, extent: Extent) -> bool {
        self.end_child_ok(extent)
    }

    /// `advancing_y` moves past the child.
    open spec fn after_child(&self, extent: Extent) -> Self {
        BuilderLayoutState { advancing_y: Px((self.advancing_y.0 + extent.height.0) as i16), ..*self }
    }

    fn end_child(&mut self, extent: Extent) {
        self.advancing_y = self.advancing_y + extent.height;
    }
}

} // verus!
