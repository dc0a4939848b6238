//! Storage mediums: named, user-owned backends that host a tree of nodes.

pub mod error;
pub mod fs;
pub mod medium;
pub mod types;

pub use medium::Medium;
pub use types::{Local, Type};
