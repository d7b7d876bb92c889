//! Connection profiles.

pub mod connection;

pub use connection::{
    Connection, ConnectionType, ConnectionView, SshAuth, SshAuthView, SshConfig, SshConfigView,
};
