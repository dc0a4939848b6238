//! What the service shows of its entities to the outside.

pub mod fs;
pub mod storage;
