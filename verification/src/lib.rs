//! Core of a desktop key-macro tool: a global-input event model, a listener
//! that normalizes raw device events into a single ordered stream, a hotkey
//! dispatch decision, and a scheduler that turns a configured step list into
//! independently timed, jittered injection records.

pub mod config;
pub mod dispatch;
pub mod input;
pub mod listener;
pub mod scheduler;
