//! Core data structures of the maple UI toolkit: pixel arithmetic, shapes,
//! colors, generational handles, slot and object storages, the widget tree and
//! the layout and platform decision logic.

pub mod color;
pub mod data_store;
pub mod event_loop;
pub mod gfx;
pub mod handle;
pub mod os_window2;
pub mod item_storage;
pub mod px;
pub mod shapes;
pub mod sys;
pub mod traits;
pub mod registry;
pub mod ui;

use vstd::prelude::*;

verus! {

/// Where a window is in its life.
#[derive(Debug, Clone, Copy, PartialEq, Eq, Structural)]
pub enum WindowStatus {
    Unknown,
    Created,
    Destroyed,
}

} // verus!
