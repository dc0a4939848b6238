//! Metadata engine of a remote file storage service: storage mediums, the
//! tree of filesystem nodes that lives on them, and the rules that keep names
//! unique among live entries.

pub mod actions;
pub mod error;
pub mod fs;
pub mod guarantees;
pub mod ids;
pub mod path;
pub mod routing;
pub mod schema;
pub mod storage;
pub mod store;
pub mod tags;
pub mod text;
pub mod time;
