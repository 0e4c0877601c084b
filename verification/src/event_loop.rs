//! The decisions of a window's event loop: what each window event asks for,
//! and which inputs the user interface is rebuilt with on an update.
use crate::px::Px;
use crate::shapes::Extent;
use crate::sys::input::Event as InputEvent;
use crate::sys::window::Event;
use vstd::prelude::*;

verus! {

/// What the event loop does for a window event.
#[derive(Debug, Clone, Copy, PartialEq, Eq, Structural)]
pub enum SpawnAction {
    /// Set the window's smallest size to `min_size`, and bind the renderer
    /// to the window at `size`.
    Bind { min_size: Extent, size: Extent },
    /// Queue the input for the next update.
    Queue(InputEvent),
    /// Rebuild the user interface with the queued inputs and draw it at
    /// `size`.
    Draw { size: Extent },
    /// Leave the event loop.
    Stop,
    /// Nothing to do.
    Nothing,
}

/// The smallest size a window may be resized to.
pub open spec fn min_window_size() -> Extent {
    Extent { width: Px(100), height: Px(100) }
}

/// The window size after `event`, and what the loop does for it: a created
/// window gets its minimum size and the renderer; a close request stops the
/// loop; an input is queued; a resize is recorded; an update draws, unless
/// the window has no size.
pub open spec fn spec_on_window_event(size: Extent, event: Event) -> (Extent, SpawnAction) {
    match event {
        Event::Created { size: created } => (created, SpawnAction::Bind { min_size: min_window_size(), size: created }),
        Event::Destroyed {  } => (size, SpawnAction::Nothing),
        Event::CloseRequested {  } => (size, SpawnAction::Stop),
        Event::Resized { size: resized } => (resized, SpawnAction::Nothing),
        Event::Input(input) => (size, SpawnAction::Queue(input)),
        Event::Update {  } => if size == (Extent { width: Px(0), height: Px(0) }) {
            (size, SpawnAction::Nothing)
        } else {
            (size, SpawnAction::Draw { size })
        },
    }
}

/// Decides what the event loop of a window at `size` does with `event`, and
/// the window's size afterwards.
pub fn on_window_event(size: Extent, event: Event) -> (r: (Extent, SpawnAction))
    ensures
        r == spec_on_window_event(size, event),
{
    match event {
        Event::Created { size: created } => (
            created,
            SpawnAction::Bind { min_size: Extent::new(Px(100), Px(100)), size: created },
        ),
        Event::Destroyed {  } => (size, SpawnAction::Nothing),
        Event::CloseRequested {  } => (size, SpawnAction::Stop),
        Event::Resized { size: resized } => (resized, SpawnAction::Nothing),
        Event::Input(input) => (size, SpawnAction::Queue(input)),
        Event::Update {  } => if size.width.0 == 0 && size.height.0 == 0 {
            (size, SpawnAction::Nothing)
        } else {
            (size, SpawnAction::Draw { size })
        },
    }
}

/// The inputs an update rebuilds the user interface with: the queued ones,
/// or the empty input when none were queued, so that every update sees at
/// least one. The queue is emptied.
pub fn take_inputs(pending: &mut Vec<InputEvent>) -> (r: Vec<InputEvent>)
    ensures
        r@ == (if old(pending)@.len() == 0 {
            seq![InputEvent::Empty]
        } else {
            old(pending)@
        }),
        final(pending)@.len() == 0,
{
    if pending.len() == 0 {
        let mut r: Vec<InputEvent> = Vec::new();
        r.push(InputEvent::Empty);
        r
    } else {
        let r = pending.split_off(0);
        assert(old(pending)@.subrange(0, old(pending)@.len() as int) =~= old(pending)@);
        r
    }
}

/// What the event loop does next, with what it needs for it.
#[derive(Debug, Clone, PartialEq, Eq)]
pub enum LoopAction {
    /// Set the window's smallest size to `min_size`, and bind the renderer
    /// to the window at `size`.
    Bind { min_size: Extent, size: Extent },
    /// Rebuild the user interface from `inputs` and draw it at `size`.
    Draw { size: Extent, inputs: Vec<InputEvent> },
    /// Leave the event loop.
    Stop,
    /// Wait for the next event.
    Continue,
}

/// The state of a window's event loop: the window's size and the inputs
/// queued since the last update.
pub struct WindowLoop {
    size: Extent,
    pending: Vec<InputEvent>,
}

impl WindowLoop {
    /// The window's size as last reported.
    pub closed spec fn spec_size(&self) -> Extent {
        self.size
    }

    /// The inputs queued since the last draw, oldest first.
    pub closed spec fn spec_pending(&self) -> Seq<InputEvent> {
        self.pending@
    }

    /// A loop for a window that has no size yet and no queued input.
    pub fn new() -> (r: Self)
        ensures
            r.spec_size() == (Extent { width: Px(0), height: Px(0) }),
            r.spec_pending() == Seq::<InputEvent>::empty(),
    {
        WindowLoop { size: Extent::new(Px(0), Px(0)), pending: Vec::new() }
    }

    /// Takes a window event: records the size, queues inputs, and on an
    /// update of a window with a size hands out every input queued since
    /// the last draw (or the empty input when none came), so that each
    /// rebuild sees at least one input.
    pub fn on_event(&mut self, event: Event) -> (r: LoopAction)
        ensures
            final(self).spec_size() == spec_on_window_event(old(self).spec_size(), event).0,
            match spec_on_window_event(old(self).spec_size(), event).1 {
                SpawnAction::Bind { min_size, size } => r == LoopAction::Bind { min_size, size }
                    && final(self).spec_pending() == old(self).spec_pending(),
                SpawnAction::Queue(input) => r == LoopAction::Continue && final(self).spec_pending()
                    == old(self).spec_pending().push(input),
                SpawnAction::Draw { size } => {
                    &&& r matches LoopAction::Draw { size: s, inputs } && s == size && inputs@ == (
                    if old(self).spec_pending().len() == 0 {
                        seq![InputEvent::Empty]
                    } else {
                        old(self).spec_pending()
                    })
                    &&& final(self).spec_pending().len() == 0
                },
                SpawnAction::Stop => r == LoopAction::Stop && final(self).spec_pending() == old(
                    self,
                ).spec_pending(),
                SpawnAction::Nothing => r == LoopAction::Continue && final(self).spec_pending() == old(
                    self,
                ).spec_pending(),
            },
    {
        let (size, action) = on_window_event(self.size, event);
        self.size = size;
        match action {
            SpawnAction::Bind { min_size, size } => LoopAction::Bind { min_size, size },
            SpawnAction::Queue(input) => {
                self.pending.push(input);
                LoopAction::Continue
            },
            SpawnAction::Draw { size } => {
                let inputs = take_inputs(&mut self.pending);
                LoopAction::Draw { size, inputs }
            },
            SpawnAction::Stop => LoopAction::Stop,
            SpawnAction::Nothing => LoopAction::Continue,
        }
    }
}

} // verus!
