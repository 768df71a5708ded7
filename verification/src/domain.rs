//! Core tracker concepts and their in-memory lifecycle rules.
//!
//! Project identity, recorded tasks, active tracking, calendar ranges and the
//! aggregate's mutations live here, independent of any user interface or
//! storage format.

pub mod data;
pub mod laws;
pub mod ids;
pub mod project;
pub mod range;
pub mod task;
pub mod time;
