//! Tempo's tracker core: projects, recorded work sessions, the active and
//! interrupted timers, and the read-only projections built from them.

pub mod text;
pub mod application;
pub mod controller;
pub mod domain;
pub mod error;
pub mod language;
pub mod menu;
pub mod presentation;
pub mod report;
