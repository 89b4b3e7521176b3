//! Core logic of a tiling X11 window manager: screen geometry, the per-workspace
//! window collections, keybinding and command parsing, and the wire format of
//! the messages sent to status-bar clients.
pub mod arith;
pub mod rect;
pub mod sorting;
pub mod window;
pub mod bar_message;
pub mod text;
pub mod keycodes;
pub mod key_names;
pub mod config;
pub mod keybindings;
pub mod msg_types;
pub mod ewmh;
pub mod workspace;
pub mod monitor;
