//! Session management for local pseudo-terminal shells and remote
//! secure-shell sessions, including the keyboard-interactive exchange used for
//! multi-factor authentication.

pub mod config;
pub mod events;
pub mod models;
pub mod registry;
pub mod sftp;
pub mod ssh;
pub mod terminal;
pub mod text;
