//! Local shell sessions on a pseudo-terminal.

pub mod commands;
pub mod pty_manager;

pub use commands::create_session_map;
pub use pty_manager::{PtyConfig, PtyGeometry, ShellLaunch};
