//! Verified write-path concurrency control for Hudi tables.

pub mod config;
pub mod error;
pub mod laws;
pub mod ordered_set;
pub mod registry;
pub mod text;
pub mod text_map;
pub mod time;
pub mod write;
