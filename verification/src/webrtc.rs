//! Rooms and the registry that hands them out.

pub mod registry;
pub mod room;
