//! File transfer sessions on top of an authenticated remote connection.

pub mod commands;
pub mod session;

pub use session::{FileEntry, SftpSessionWrapper};
