//! Scheduling and persistence engine for a set of periodically firing desktop
//! modules, with a probabilistic clipboard tampering sub-scheduler.
//!
//! Times are whole seconds since the UNIX epoch, handed in by the caller.
pub mod schedule;
pub mod text;
mod random;
pub mod persist;
pub mod config;
pub mod tampering;
pub mod clipboard;
pub mod mouse;
pub mod syssound;
pub mod wallpaper;
