//! Client side of the SyncLiteDB request/response protocol.

pub mod envelope;
pub mod json;
pub mod reply;
pub mod session;
