//! Control-panel agent library for a local automation worker.
//!
//! The library holds every decision this agent makes: the JSON codec for the
//! locally persisted configuration and for the worker's HTTP bodies, the
//! dispatch rules that turn an HTTP outcome into a result or an error
//! message, and the tray/window lifecycle state machine. The surrounding
//! binary only moves bytes: it performs the HTTP calls and the file reads
//! and writes that these functions decide on.

pub mod chars;
pub mod jstr;
pub mod num;
pub mod parse;
pub mod config;
pub mod api;
pub mod dispatch;
pub mod tray;
