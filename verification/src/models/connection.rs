//! Connection profiles: what the user saved about a local shell or a remote
//! host, and the credential used to reach it.

use vstd::prelude::*;

verus! {

/// The protocol a profile connects with.
#[derive(Debug, Clone, Copy, PartialEq, Eq, Structural)]
pub enum ConnectionType {
    Local,
    Ssh,
    Telnet,
    Serial,
}

/// The credential tried first when a remote session is opened.
#[derive(Debug)]
pub enum SshAuth {
    Password(String),
    PublicKey { private_key_path: String, passphrase: Option<String> },
}

/// Mathematical model of [`SshAuth`].
pub enum SshAuthView {
    Password(Seq<char>),
    PublicKey { private_key_path: Seq<char>, passphrase: Option<Seq<char>> },
}

/// The characters of an optional string.
pub open spec fn option_text(text: Option<String>) -> Option<Seq<char>> {
    match text {
        Some(s) => Some(s@),
        None => None,
    }
}

/// A copy of an optional string.
pub fn clone_option_text(text: &Option<String>) -> (copy: Option<String>)
    ensures
        option_text(copy) == option_text(*text),
{
    match text {
        Some(s) => Some(s.clone()),
        None => None,
    }
}

impl View for SshAuth {
    type V = SshAuthView;

    open spec fn view(&self) -> SshAuthView {
        match *self {
            SshAuth::Password(secret) => SshAuthView::Password(secret@),
            SshAuth::PublicKey { private_key_path, passphrase } => SshAuthView::PublicKey {
                private_key_path: private_key_path@,
                passphrase: option_text(passphrase),
            },
        }
    }
}

impl Clone for SshAuth {
    fn clone(&self) -> (copy: Self)
        ensures
            copy@ == self@,
    {
        match self {
            SshAuth::Password(secret) => SshAuth::Password(secret.clone()),
            SshAuth::PublicKey { private_key_path, passphrase } => SshAuth::PublicKey {
                private_key_path: private_key_path.clone(),
                passphrase: clone_option_text(passphrase),
            },
        }
    }
}

/// Where a remote host is and how to log in to it.
#[derive(Debug)]
pub struct SshConfig {
    pub host: String,
    pub port: u16,
    pub username: String,
    pub auth: SshAuth,
}

/// Mathematical model of [`SshConfig`].
pub struct SshConfigView {
    pub host: Seq<char>,
    pub port: u16,
    pub username: Seq<char>,
    pub auth: SshAuthView,
}

impl View for SshConfig {
    type V = SshConfigView;

    open spec fn view(&self) -> SshConfigView {
        SshConfigView {
            host: self.host@,
            port: self.port,
            username: self.username@,
            auth: self.auth@,
        }
    }
}

impl Clone for SshConfig {
    fn clone(&self) -> (copy: Self)
        ensures
            copy@ == self@,
    {
        SshConfig {
            host: self.host.clone(),
            port: self.port,
            username: self.username.clone(),
            auth: self.auth.clone(),
        }
    }
}

/// The views of an optional remote configuration.
pub open spec fn option_config(config: Option<SshConfig>) -> Option<SshConfigView> {
    match config {
        Some(c) => Some(c@),
        None => None,
    }
}

/// A saved connection profile.
#[derive(Debug)]
pub struct Connection {
    pub id: String,
    pub name: String,
    pub connection_type: ConnectionType,
    pub ssh_config: Option<SshConfig>,
}

/// Mathematical model of [`Connection`].
pub struct ConnectionView {
    pub id: Seq<char>,
    pub name: Seq<char>,
    pub connection_type: ConnectionType,
    pub ssh_config: Option<SshConfigView>,
}

impl View for Connection {
    type V = ConnectionView;

    open spec fn view(&self) -> ConnectionView {
        ConnectionView {
            id: self.id@,
            name: self.name@,
            connection_type: self.connection_type,
            ssh_config: option_config(self.ssh_config),
        }
    }
}

impl Clone for Connection {
    fn clone(&self) -> (copy: Self)
        ensures
            copy@ == self@,
    {
        let ssh_config = match &self.ssh_config {
            Some(c) => Some(c.clone()),
            None => None,
        };
        Connection {
            id: self.id.clone(),
            name: self.name.clone(),
            connection_type: self.connection_type,
            ssh_config,
        }
    }
}

/// Whether `c` is a lower-case hexadecimal digit.
pub open spec fn is_lower_hex(c: char) -> bool {
    ('0' <= c && c <= '9') || ('a' <= c && c <= 'f')
}

/// Whether `text` is the hyphenated lower-case form of a version 4 UUID:
/// 36 characters in groups of 8, 4, 4, 4 and 12 hexadecimal digits, the third
/// group starting with the version digit.
pub open spec fn is_hyphenated_v4(text: Seq<char>) -> bool {
    &&& text.len() == 36
    &&& text[14] == '4'
    &&& forall|i: int|
        0 <= i < 36 ==> if i == 8 || i == 13 || i == 18 || i == 23 {
            #[trigger] text[i] == '-'
        } else {
            is_lower_hex(text[i])
        }
}

/// A fresh random identifier, from `uuid::Uuid::new_v4` rendered with
/// `to_string`.
///
/// Which identifier comes back is up to the random generator; the contract
/// states only the shape that the crate gives every version 4 UUID it prints.
/// The crate panics if the operating system cannot supply random bytes.
#[verifier::external_body]
fn random_id() -> (id: String)
    ensures
        is_hyphenated_v4(id@),
{
    uuid::Uuid::new_v4().to_string()
}

impl Connection {
    /// A local shell profile under the given identifier.
    pub fn local(id: String, name: String) -> (profile: Self)
        ensures
            profile@ == (ConnectionView {
                id: id@,
                name: name@,
                connection_type: ConnectionType::Local,
                ssh_config: None,
            }),
    {
        Connection { id, name, connection_type: ConnectionType::Local, ssh_config: None }
    }

    /// A remote profile under the given identifier.
    pub fn ssh(id: String, name: String, ssh_config: SshConfig) -> (profile: Self)
        ensures
            profile@ == (ConnectionView {
                id: id@,
                name: name@,
                connection_type: ConnectionType::Ssh,
                ssh_config: Some(ssh_config@),
            }),
    {
        Connection { id, name, connection_type: ConnectionType::Ssh, ssh_config: Some(ssh_config) }
    }

    /// A local shell profile with a freshly drawn identifier.
    pub fn new_local(name: String) -> (profile: Self)
        ensures
            is_hyphenated_v4(profile@.id),
            profile@ == (ConnectionView {
                id: profile@.id,
                name: name@,
                connection_type: ConnectionType::Local,
                ssh_config: None,
            }),
    {
        Connection::local(random_id(), name)
    }

    /// A remote profile with a freshly drawn identifier.
    pub fn new_ssh(name: String, ssh_config: SshConfig) -> (profile: Self)
        ensures
            is_hyphenated_v4(profile@.id),
            profile@ == (ConnectionView {
                id: profile@.id,
                name: name@,
                connection_type: ConnectionType::Ssh,
                ssh_config: Some(ssh_config@),
            }),
    {
        Connection::ssh(random_id(), name, ssh_config)
    }
}

} // verus!
