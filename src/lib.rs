//! Verified core of a timetable-document link collector.
//!
//! The library decides how a browser-driven traversal proceeds (when to read,
//! when to advance, when to wait, when to give up) and how the links that the
//! traversal returns are merged into one canonical, filtered list. Talking to
//! the browser is left to the caller, which performs the actions that the
//! state machines here ask for and reports back what happened.

pub mod text;
pub mod results;
pub mod poller;
pub mod traversal;
pub mod strategy;
pub mod format;
pub mod plan;
