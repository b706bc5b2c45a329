//! The write path: table locks and optimistic concurrency control.

pub mod begin;
pub mod heartbeat;
pub mod intent;
pub mod lease;
pub mod lock;
pub mod lock_protocol;
pub mod occ;
pub mod timeline;
pub mod validation;
