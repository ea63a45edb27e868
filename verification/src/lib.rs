//! Core of a bootable-installer-media wizard: an event-driven state machine
//! that sequences the wizard steps, the device-to-volume resolution logic,
//! a cancellable download session with cumulative progress accounting, and
//! the FIFO event bus that carries notifications to the orchestration thread.
//!
//! Rendering, window management and the actual OS / network calls are left to
//! the surrounding application; this crate holds the decisions and the data,
//! each with a verified contract.

pub mod bus;
pub mod device;
pub mod download;
pub mod engine;
pub mod platform;
pub mod resolver;
