//! Frame lifecycle and geometry submission core of a small real-time renderer.
//!
//! The library holds the decisions: which geometry is queued, what each
//! command buffer draws, and how a frame moves through acquire, wait,
//! submit and present. The graphics device itself is driven by the caller,
//! which performs each requested action and reports its outcome back.

pub mod render_queue;
pub mod commands;
pub mod geometry;
pub mod frame;
pub mod renderer;
pub mod laws;
pub mod logger;
