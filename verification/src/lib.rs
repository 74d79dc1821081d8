//! Core of a terminal text viewer/editor: an ordered line buffer
//! ([`document::Document`] of [`row::Row`]s), scrollable windows onto it
//! ([`window::Window`], composited by [`window_manager::WindowManager`]),
//! and a cursor/navigation state machine ([`control::Control`]).
//!
//! All terminal I/O (raw mode, key reading, painting) lives outside this
//! library; it hands the library plain values and receives rendered rows
//! of text back.

pub mod control;
pub mod direction;
pub mod document;
pub mod position;
pub mod row;
pub mod size;
pub mod window;
pub mod window_manager;
