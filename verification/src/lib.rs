//! Clickei: a macro recorder and auto clicker.
//!
//! This crate holds the decisions of the program: what a captured input becomes on the
//! tape, when a hotkey fires, which input is replayed next, when the clicker clicks. It
//! does no input or output of its own. Every function here takes plain values and is
//! proved against its contract.

pub mod acrylic;
pub mod config;
pub mod double;
pub mod hooks;
pub mod hotkey;
pub mod keys;
pub mod macro_file;
pub mod model;
pub mod player;
pub mod recorder;
pub mod shell;
pub mod static_clicker;
pub mod text;
pub mod ui;
