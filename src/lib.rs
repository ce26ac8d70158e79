//! A windowed render-loop harness, stated as verified state machines.
//!
//! The library decides; the embedding program performs. It keeps the
//! presentable surface's configuration, chooses the surface format, lays out
//! the operations of one frame around a pluggable drawer, and turns window
//! events and frame outcomes into the next action of the event loop.

pub mod demos;
pub mod event_loop;
pub mod format;
pub mod frame;
pub mod size;
pub mod viewport;
