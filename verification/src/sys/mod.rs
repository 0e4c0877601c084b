//! The platform side of a window: sizes, input events, and the decisions a
//! window procedure takes on each message.

pub mod dpi;
pub mod input;
pub mod window;
