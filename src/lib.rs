//! A small task tracker: an ordered list of text entries, addressed by
//! 1-based position, with the rules for loading it from stored text.

pub mod command;
pub mod list;
pub mod store;
pub mod task;
pub mod text;
