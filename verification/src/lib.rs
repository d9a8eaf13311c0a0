//! Verified core of SpinCtrl: configuration rules, the command wire format,
//! hardware-reading parsers, charge-control decisions and the editor state of
//! the terminal interface.
pub mod config;
pub mod control;
pub mod error;
pub mod hardware;
pub mod interface;
pub mod ipc;
pub mod text;
pub mod tui;
