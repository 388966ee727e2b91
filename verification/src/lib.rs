//! Keyboard-driven selection of clickable on-screen elements.
//!
//! The library covers the pure core of a hint-based navigation tool: deciding
//! which nodes of an accessibility tree deserve a hint (`detection`), deriving
//! a unique, deterministic, shortest-first label for every candidate
//! (`hints`), and resolving a growing keystroke buffer against those labels
//! (`session`). Every function here is verified; the platform glue (bus
//! connections, window compositing, process control) lives outside and talks
//! to this crate through plain values.

pub mod cli;
pub mod commands;
pub mod detection;
pub mod hints;
pub mod session;
