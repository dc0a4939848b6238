//! What the service answers to the requests of a client.

pub mod auth;
pub mod error;
pub mod storage_id;
