//! Window-management logic of a small reparenting X11 window manager.
//!
//! The library holds the decisions of the manager as plain values: which
//! windows get a frame, which X requests each event produces, how the
//! registry of managed clients changes, and in which order start-up runs.
//! The X connection itself (sending the requests, reading replies and
//! events) lives with the caller.

pub mod protocol;
pub mod client;
pub mod core_plugin;
pub mod manager;
