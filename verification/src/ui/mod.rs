//! The user interface: the widget tree, widgets, layout and input state.

pub mod builder;
pub mod draw;
pub mod event;
pub mod layout;
pub mod platform;
pub mod tree;
pub mod widget;
pub mod widgets;
pub mod window;

use crate::gfx::color::Color;
use crate::px::Px;
use crate::shapes::{Extent, Point, Rect};
use vstd::prelude::*;

verus! {

/// A drawing command of the immediate-mode user interface.
#[derive(Clone, Copy, Debug, PartialEq, Eq, Structural)]
pub enum DrawCommand {
    ColoredRect { rect: Rect, color: Color },
}

/// The widget that holds the mouse, if any.
#[derive(Clone, Copy, Debug, Default, PartialEq, Eq, Structural)]
pub enum ActiveItem {
    /// No widget holds the mouse.
    #[default]
    Available,
    /// The widget with this id holds the mouse.
    Active(u64),
}

/// The input state that the user interface keeps between rebuilds.
#[derive(Clone, Copy, Debug, Default, PartialEq, Eq, Structural)]
pub struct Context {
    pub cursor: Point,
    pub is_lmb_pressed: bool,
    /// The widget that holds the mouse.
    pub active_item: ActiveItem,
    /// The widget last under the cursor.
    pub hover_item: u64,
}

impl Context {
    /// A context with the cursor at the origin, no button pressed, and no
    /// widget holding or under the mouse.
    pub fn new() -> (r: Self)
        ensures
            r.cursor == (Point { x: Px(0), y: Px(0) }),
            !r.is_lmb_pressed,
            r.active_item == ActiveItem::Available,
            r.hover_item == 0,
    {
        Context {
            cursor: Point::new(Px(0), Px(0)),
            is_lmb_pressed: false,
            active_item: ActiveItem::Available,
            hover_item: 0,
        }
    }

    /// Starts a rebuild of a user interface of `ui_size`: the command buffer
    /// is emptied and one input is awaited.
    pub fn begin<'a, 'b>(&'a mut self, ui_size: Extent, command_buffer: &'b mut Vec<DrawCommand>) -> (r: InputHandler<'a, 'b>)
        ensures
            r.ui_size() == ui_size,
            *r.context() == *old(self),
            r.commands()@.len() == 0,
    {
        command_buffer.clear();
        InputHandler { context: self, ui_size, command_buffer }
    }
}

/// Type for enforcing 1 input event per rebuild.
pub struct InputHandler<'a, 'b> {
    context: &'a mut Context,
    ui_size: Extent,
    command_buffer: &'b mut Vec<DrawCommand>,
}

impl<'a, 'b> InputHandler<'a, 'b> {
    pub closed spec fn ui_size(&self) -> Extent {
        self.ui_size
    }

    pub closed spec fn context(&self) -> &Context {
        &*self.context
    }

    pub closed spec fn commands(&self) -> &Vec<DrawCommand> {
        &*self.command_buffer
    }

    /// Rebuilds without a new input.
    pub fn no_input(self) -> (r: Builder<'a, 'b>)
        ensures
            r.max() == self.ui_size(),
            *r.context() == *self.context(),
    {
        self.finalize()
    }

    /// Rebuilds after the cursor moved to `position`.
    pub fn move_cursor(self, position: Point) -> (r: Builder<'a, 'b>)
        ensures
            r.max() == self.ui_size(),
            *r.context() == (Context { cursor: position, ..*self.context() }),
    {
        self.context.cursor = position;
        self.finalize()
    }

    /// Rebuilds after the left mouse button was pressed or released.
    pub fn lmb_pressed(self, pressed: bool) -> (r: Builder<'a, 'b>)
        ensures
            r.max() == self.ui_size(),
            *r.context() == (Context { is_lmb_pressed: pressed, ..*self.context() }),
    {
        self.context.is_lmb_pressed = pressed;
        self.finalize()
    }

    fn finalize(self) -> (r: Builder<'a, 'b>)
        ensures
            r.max() == self.ui_size(),
            *r.context() == *self.context(),
    {
        Builder::new(self.ui_size, self.context, self.command_buffer)
    }
}

/// Builds the user interface of one rebuild into the command buffer.
pub struct Builder<'a, 'b> {
    context: &'a Context,
    command_buffer: &'b mut Vec<DrawCommand>,
    state: layout::BuilderLayoutState,
}

impl<'a, 'b> Builder<'a, 'b> {
    pub closed spec fn max(&self) -> Extent {
        self.state.max
    }

    pub closed spec fn context(&self) -> &Context {
        self.context
    }

    /// The commands recorded so far.
    pub closed spec fn commands(&self) -> Seq<DrawCommand> {
        self.command_buffer@
    }

    fn new(ui_size: Extent, context: &'a Context, command_buffer: &'b mut Vec<DrawCommand>) -> (r: Self)
        ensures
            r.max() == ui_size,
            *r.context() == *context,
            r.commands() == old(command_buffer)@,
    {
        Self { context, command_buffer, state: layout::BuilderLayoutState::new(ui_size) }
    }

    /// Records a drawing command.
    pub fn draw(&mut self, command: DrawCommand)
        ensures
            final(self).commands() == old(self).commands().push(command),
            final(self).max() == old(self).max(),
            *final(self).context() == *old(self).context(),
    {
        self.command_buffer.push(command);
    }

    /// Finishes the rebuild and hands back the command buffer.
    pub fn build(self) -> (r: &'b mut Vec<DrawCommand>)
        ensures
            r@ == self.commands(),
    {
        self.command_buffer
    }
}

} // verus!
