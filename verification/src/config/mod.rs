//! The saved list of connection profiles.

pub mod storage;

pub use storage::ConnectionStorage;
