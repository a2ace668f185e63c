//! A checked model of a native windowing API binding: window-class
//! registration, window creation, the message loop, scoped painting and the
//! per-window user value, with every sentinel-encoded failure turned into an
//! explicit result.
//!
//! The operating system's windowing subsystem cannot itself be verified, so
//! this crate models it as an explicit [`system::System`] state: registered
//! classes, live windows, a table of owned user values, the thread's
//! last-error word and the message queue. Every wrapper operation is proved
//! against that state, and the window-procedure state machine is proved to
//! install the per-window user value exactly once and reclaim it exactly
//! once. A host harness that performs the raw foreign calls lives outside
//! the library and reuses the same decoding rules.

pub mod laws;
pub mod proc;
pub mod system;
pub mod types;
pub mod utils;
pub mod window;
pub mod wrapper;
