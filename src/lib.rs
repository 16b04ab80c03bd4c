//! A small task tracker: an ordered store of prioritised tasks with dense,
//! positional identifiers, display orderings, and the text of its listing.

pub mod clock;
pub mod task;
pub mod laws;
pub mod views;
pub mod render;
pub mod command;
