//! Window and GPU-surface lifecycle logic for a small game engine.
//!
//! The crate holds the decisions that sit between a platform window and a GPU
//! rendering backend: which surface format to use, when a surface is
//! reconfigured, how a failed frame is recovered from, and the state machine
//! that sequences window creation, context creation and event dispatch. The
//! platform calls themselves are performed by the embedding program, which
//! feeds their results back in as plain values.

pub mod application;
pub mod format;
pub mod lifecycle;
pub mod presentation;
pub mod surface;
