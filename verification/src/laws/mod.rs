//! What the library does, law by law, in terms of plain values: texts, numbers of milliseconds, and
//! the fields of what goes in and comes out.

pub mod begin;
pub mod config;
pub mod heartbeat;
pub mod intent;
pub mod lock;
pub mod text;
pub mod time;
pub mod timeline;
pub mod validation;
