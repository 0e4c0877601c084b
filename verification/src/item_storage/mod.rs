//! An item store mapping 4-byte ids to typed object indices.

pub mod slot;
pub mod types;
