//! Interactive widgets and their states.
use super::layout::{active_color, hover_color, ui_color};
use super::{ActiveItem, Context, DrawCommand};
use crate::gfx::color::Color;
use crate::px::{div_trunc, fits_i16, Px};
use crate::shapes::{Extent, Point, Rect};
use vstd::prelude::*;

verus! {

/// The interaction state of a widget.
#[derive(Clone, Copy, Debug, PartialEq, Eq, Structural)]
pub enum State {
    Idle,
    Hover,
    Active,
}

impl State {
    pub fn is_hover(self) -> (r: bool)
        ensures
            r == (self == State::Hover),
    {
        self == State::Hover
    }

    pub fn is_active(self) -> (r: bool)
        ensures
            r == (self == State::Active),
    {
        self == State::Active
    }
}

/// Extents ordered as `Extent`'s derived `Ord` orders them: by width, then
/// by height.
pub open spec fn extent_le(a: Extent, b: Extent) -> bool {
    a.width.0 < b.width.0 || (a.width.0 == b.width.0 && a.height.0 <= b.height.0)
}

fn extent_le_exec(a: Extent, b: Extent) -> (r: bool)
    ensures
        r == extent_le(a, b),
{
    a.width.0 < b.width.0 || (a.width.0 == b.width.0 && a.height.0 <= b.height.0)
}

/// The state a widget `id` takes for `rect` and the input in `ctx`, and
/// the context it leaves: active while it holds the mouse; under the cursor
/// it becomes the hovered widget, and takes the mouse when no widget holds it
/// and the left button is pressed; idle otherwise.
pub open spec fn interaction(id: u64, rect: Rect, ctx: Context) -> (State, Context) {
    if ctx.active_item == ActiveItem::Active(id) {
        (State::Active, ctx)
    } else if rect.spec_contains(ctx.cursor) {
        if ctx.active_item == ActiveItem::Available && ctx.is_lmb_pressed {
            (State::Active, Context { hover_item: id, active_item: ActiveItem::Active(id), ..ctx })
        } else {
            (State::Hover, Context { hover_item: id, ..ctx })
        }
    } else {
        (State::Idle, ctx)
    }
}

/// A widget takes the mouse only under the cursor: a widget that does not
/// hold the mouse and whose rectangle does not contain the cursor is idle
/// and changes nothing. A widget is active exactly when it holds the mouse,
/// or the cursor is on it while no widget holds the mouse and the left
/// button is down; a widget under the cursor becomes the hovered one. The
/// mouse changes hands only to this widget, and the cursor and button are
/// never changed.
pub proof fn lemma_interaction(id: u64, rect: Rect, ctx: Context)
    ensures
        ctx.active_item != ActiveItem::Active(id) && !rect.spec_contains(ctx.cursor) ==> interaction(
            id,
            rect,
            ctx,
        ) == (State::Idle, ctx),
        interaction(id, rect, ctx).0 == State::Active <==> (ctx.active_item == ActiveItem::Active(id) || (
        rect.spec_contains(ctx.cursor) && ctx.active_item == ActiveItem::Available && ctx.is_lmb_pressed)),
        interaction(id, rect, ctx).0 == State::Hover ==> rect.spec_contains(ctx.cursor),
        interaction(id, rect, ctx).1.active_item != ctx.active_item ==> interaction(id, rect, ctx).1.active_item
            == ActiveItem::Active(id) && ctx.active_item == ActiveItem::Available && rect.spec_contains(ctx.cursor),
        ctx.active_item != ActiveItem::Active(id) && rect.spec_contains(ctx.cursor) ==> interaction(id, rect, ctx).1.hover_item == id,
        interaction(id, rect, ctx).1.cursor == ctx.cursor,
        interaction(id, rect, ctx).1.is_lmb_pressed == ctx.is_lmb_pressed,
{
}

fn interact(id: u64, rect: Rect, context: &mut Context) -> (r: State)
    requires
        rect.edges_fit(),
    ensures
        (r, *final(context)) == interaction(id, rect, *old(context)),
{
    if context.active_item == ActiveItem::Active(id) {
        State::Active
    } else if rect.contains_point(context.cursor) {
        context.hover_item = id;
        if context.active_item == ActiveItem::Available && context.is_lmb_pressed {
            context.active_item = ActiveItem::Active(id);
            State::Active
        } else {
            State::Hover
        }
    } else {
        State::Idle
    }
}

/// A push button.
pub struct Button {
    pub id: u64,
    pub min_size: Extent,
    pub max_size: Extent,
}

impl Button {
    pub fn id(&self) -> (r: u64)
        ensures
            r == self.id,
    {
        self.id
    }

    /// The size the button takes in an area between `min` and `max`: as wide
    /// as allowed, and as low as allowed. The button's largest size must not
    /// be below `min`, and the result must not exceed `max` (both in the
    /// width-then-height order of extents).
    pub fn compute_size(&self, min: Extent, max: Extent) -> (r: Extent)
        requires
            extent_le(min, self.max_size),
            extent_le(
                Extent {
                    width: if max.width.0 <= self.max_size.width.0 {
                        max.width
                    } else {
                        self.max_size.width
                    },
                    height: if min.height.0 >= self.min_size.height.0 {
                        min.height
                    } else {
                        self.min_size.height
                    },
                },
                max,
            ),
        ensures
            r.width.0 == if max.width.0 <= self.max_size.width.0 {
                max.width.0
            } else {
                self.max_size.width.0
            },
            r.height.0 == if min.height.0 >= self.min_size.height.0 {
                min.height.0
            } else {
                self.min_size.height.0
            },
    {
        let min_size = Extent::new(
            max.width.min(self.max_size.width),
            min.height.max(self.min_size.height),
        );
        min_size
    }
}

impl Button {
    /// The state the button takes for `rect` and the input in `context`, as
    /// [`interaction`] says.
    pub fn compute_state(&self, rect: Rect, context: &mut Context) -> (r: State)
        requires
            rect.edges_fit(),
        ensures
            (r, *final(context)) == interaction(self.id, rect, *old(context)),
    {
        interact(self.id, rect, context)
    }

    /// The command that draws the button in `rect`, in the color of `state`.
    pub fn draw(&self, state: State, rect: Rect) -> (r: DrawCommand)
        ensures
            r == (DrawCommand::ColoredRect {
                rect,
                color: match state {
                    State::Idle => Color { r: 100, g: 100, b: 100, a: 255 },
                    State::Hover => Color { r: 200, g: 200, b: 200, a: 255 },
                    State::Active => Color { r: 100, g: 100, b: 255, a: 255 },
                },
            }),
    {
        let color = match state {
            State::Idle => ui_color(),
            State::Hover => hover_color(),
            State::Active => active_color(),
        };
        DrawCommand::ColoredRect { rect, color }
    }
}

/// The height of a slider's bar in a row `h` pixels high: a third of it,
/// rounded toward zero, and at least one pixel.
pub open spec fn bar_height(h: int) -> int {
    if div_trunc(h, 3) >= 1 {
        div_trunc(h, 3)
    } else {
        1
    }
}

/// The whole-pixel part of a smooth slider: its id, its largest height and
/// the width taken off the row for the knob's travel. The slider's value, a
/// fraction between 0 and 1, is kept by the caller.
pub struct Slider {
    pub id: u64,
    pub max_height: Px,
    pub slider_width: Px,
}

impl Slider {
    /// The width of the knob drawn by [`Slider::draw`].
    pub const KNOB_WIDTH: i16 = 5;

    pub fn id(&self) -> (r: u64)
        ensures
            r == self.id,
    {
        self.id
    }

    /// The size the slider takes between `min` and `max`: the full width,
    /// and its largest height unless `max` is lower. Its largest height must
    /// not be below `min`.
    pub fn compute_size(&self, min: Extent, max: Extent) -> (r: Extent)
        requires
            self.max_height.0 >= min.height.0,
        ensures
            r.width == max.width,
            r.height.0 == if self.max_height.0 <= max.height.0 {
                self.max_height.0
            } else {
                max.height.0
            },
    {
        Extent::new(max.width, self.max_height.min(max.height))
    }

    /// The state the slider takes for `rect` and the input in `context`, as
    /// [`interaction`] says. While it is active, the caller moves its value
    /// to where the cursor lies along [`Slider::active_area`].
    pub fn compute_state(&self, rect: Rect, context: &mut Context) -> (r: State)
        requires
            rect.edges_fit(),
        ensures
            (r, *final(context)) == interaction(self.id, rect, *old(context)),
    {
        interact(self.id, rect, context)
    }

    /// The width along which the knob travels in `rect`.
    pub fn active_area(&self, rect: Rect) -> (r: Px)
        requires
            fits_i16(rect.extent.width.0 - self.slider_width.0),
        ensures
            r.0 == rect.extent.width.0 - self.slider_width.0,
    {
        rect.width() - self.slider_width
    }

    /// The commands that draw the slider in `rect` in `state`: a bar across
    /// the middle of the row, then the knob `knob_offset` pixels from the
    /// left edge. The row must be higher than its bar.
    pub fn draw(&self, state: State, rect: Rect, knob_offset: Px) -> (r: (DrawCommand, DrawCommand))
        requires
            rect.extent.height.0 > bar_height(rect.extent.height.0 as int),
            fits_i16((rect.extent.height.0 - bar_height(rect.extent.height.0 as int)) / 2 + rect.point.y.0),
            fits_i16(rect.point.x.0 + knob_offset.0),
        ensures
            r.0 == (DrawCommand::ColoredRect {
                rect: Rect {
                    point: Point {
                        x: rect.point.x,
                        y: Px(((rect.extent.height.0 - bar_height(rect.extent.height.0 as int)) / 2 + rect.point.y.0) as i16),
                    },
                    extent: Extent { width: rect.extent.width, height: Px(bar_height(rect.extent.height.0 as int) as i16) },
                },
                color: Color { r: 100, g: 100, b: 100, a: 255 },
            }),
            r.1 == (DrawCommand::ColoredRect {
                rect: Rect {
                    point: Point { x: Px((rect.point.x.0 + knob_offset.0) as i16), y: rect.point.y },
                    extent: Extent { width: Px(5), height: rect.extent.height },
                },
                color: match state {
                    State::Idle => Color { r: 100, g: 100, b: 100, a: 255 },
                    State::Hover => Color { r: 200, g: 200, b: 200, a: 255 },
                    State::Active => Color { r: 100, g: 100, b: 255, a: 255 },
                },
            }),
    {
        let h = rect.height();
        let bar_h = (h / 3).max(Px(1));
        let bar_y = Px((h.0 - bar_h.0) / 2 + rect.y().0);
        let bar = DrawCommand::ColoredRect { rect: Rect::new(rect.x(), bar_y, rect.width(), bar_h), color: ui_color() };
        let slider_x = Px(rect.x().0 + knob_offset.0);
        let color = match state {
            State::Idle => ui_color(),
            State::Hover => hover_color(),
            State::Active => active_color(),
        };
        let knob = DrawCommand::ColoredRect {
            rect: Rect::new(slider_x, rect.y(), Px(Slider::KNOB_WIDTH), h),
            color,
        };
        (bar, knob)
    }
}

/// Whether a command draws within `bounds`.
pub fn check_draw_bounds(bounds: Rect, command: &DrawCommand) -> (r: bool)
    requires
        bounds.edges_fit(),
        (match command {
            DrawCommand::ColoredRect { rect, color: _ } => rect.edges_fit(),
        }),
    ensures
        r == (match command {
            DrawCommand::ColoredRect { rect, color: _ } => bounds.spec_contains_rect(*rect),
        }),
{
    match command {
        DrawCommand::ColoredRect { rect, color: _ } => bounds.contains_rect(*rect),
    }
}

/// Whether a size check of [`Button::compute_size`] passes.
pub fn fits_in(a: Extent, b: Extent) -> (r: bool)
    ensures
        r == extent_le(a, b),
{
    extent_le_exec(a, b)
}

} // verus!
