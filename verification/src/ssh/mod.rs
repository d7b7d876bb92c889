//! Remote sessions over secure shell.

pub mod commands;
pub mod mfa;
pub mod session;

pub use commands::{
    cancel_ssh_mfa, create_mfa_response_map, create_ssh_terminal, submit_ssh_mfa_response,
    test_ssh_connection,
};
pub use mfa::MfaResponseMap;
pub use session::SshSession;
