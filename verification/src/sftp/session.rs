//! File transfer sessions: how one is set up, step by step, and how the
//! entries of a remote directory are reported.

use crate::models::connection::option_text;
use crate::models::{SshAuth, SshAuthView, SshConfig, SshConfigView};
use crate::ssh::session::{decode_secret_key, key_error_text, passphrase_of, secret_key_decodes};
use crate::text::{begins_with, join, lemma_begins_with};
use russh::keys::PrivateKey;
use vstd::prelude::*;

verus! {

/// The character of an octal digit.
pub open spec fn octal_digit(digit: nat) -> char
    recommends
        digit < 8,
{
    if digit == 0 {
        '0'
    } else if digit == 1 {
        '1'
    } else if digit == 2 {
        '2'
    } else if digit == 3 {
        '3'
    } else if digit == 4 {
        '4'
    } else if digit == 5 {
        '5'
    } else if digit == 6 {
        '6'
    } else {
        '7'
    }
}

/// A number written in base 8, most significant digit first, without
/// leading zeros; zero is written `0`.
pub open spec fn octal_text(value: nat) -> Seq<char>
    decreases value,
{
    if value < 8 {
        seq![octal_digit(value)]
    } else {
        octal_text(value / 8).push(octal_digit(value % 8))
    }
}

fn octal_digit_text(digit: u32) -> (text: &'static str)
    requires
        digit < 8,
    ensures
        text@ == seq![octal_digit(digit as nat)],
{
    proof {
        reveal_strlit("0");
        reveal_strlit("1");
        reveal_strlit("2");
        reveal_strlit("3");
        reveal_strlit("4");
        reveal_strlit("5");
        reveal_strlit("6");
        reveal_strlit("7");
    }
    let text = if digit == 0 {
        "0"
    } else if digit == 1 {
        "1"
    } else if digit == 2 {
        "2"
    } else if digit == 3 {
        "3"
    } else if digit == 4 {
        "4"
    } else if digit == 5 {
        "5"
    } else if digit == 6 {
        "6"
    } else {
        "7"
    };
    assert(text@ =~= seq![octal_digit(digit as nat)]);
    text
}

/// `value` written in base 8, as file permissions are shown.
pub fn octal(value: u32) -> (text: String)
    ensures
        text@ == octal_text(value as nat),
    decreases value,
{
    if value < 8 {
        octal_digit_text(value).to_owned()
    } else {
        let mut text = octal(value / 8);
        text.append(octal_digit_text(value % 8));
        text
    }
}

/// One entry of a remote directory, as reported to the caller.
#[derive(Debug)]
pub struct FileEntry {
    pub name: String,
    pub is_dir: bool,
    /// Size in bytes; 0 where the server gave none.
    pub size: u64,
    /// Permission bits in base 8, where the server gave them.
    pub permissions: Option<String>,
    /// Time of the last change in seconds since the epoch, where the server
    /// gave it.
    pub modified: Option<u64>,
}

/// Mathematical model of [`FileEntry`].
pub struct FileEntryView {
    pub name: Seq<char>,
    pub is_dir: bool,
    pub size: u64,
    pub permissions: Option<Seq<char>>,
    pub modified: Option<u64>,
}

impl View for FileEntry {
    type V = FileEntryView;

    open spec fn view(&self) -> FileEntryView {
        FileEntryView {
            name: self.name@,
            is_dir: self.is_dir,
            size: self.size,
            permissions: option_text(self.permissions),
            modified: self.modified,
        }
    }
}

impl Clone for FileEntry {
    fn clone(&self) -> (copy: Self)
        ensures
            copy@ == self@,
    {
        let permissions = match &self.permissions {
            Some(p) => Some(p.clone()),
            None => None,
        };
        FileEntry {
            name: self.name.clone(),
            is_dir: self.is_dir,
            size: self.size,
            permissions,
            modified: self.modified,
        }
    }
}

/// The entry reported for a file with the given name and attributes.
pub open spec fn entry_of(
    name: Seq<char>,
    is_dir: bool,
    size: Option<u64>,
    permissions: Option<u32>,
    mtime: Option<u32>,
) -> FileEntryView {
    FileEntryView {
        name,
        is_dir,
        size: match size {
            Some(bytes) => bytes,
            None => 0,
        },
        permissions: match permissions {
            Some(bits) => Some(octal_text(bits as nat)),
            None => None,
        },
        modified: match mtime {
            Some(seconds) => Some(seconds as u64),
            None => None,
        },
    }
}

/// One entry of a remote directory as the server listed it.
#[derive(Debug)]
pub struct RemoteEntry {
    pub name: String,
    pub is_dir: bool,
    pub size: Option<u64>,
    pub permissions: Option<u32>,
    pub mtime: Option<u32>,
}

/// The entry reported for each entry the server listed, in order.
pub open spec fn listing_of(listed: Seq<RemoteEntry>) -> Seq<FileEntryView> {
    Seq::new(
        listed.len(),
        |i: int|
            entry_of(
                listed[i].name@,
                listed[i].is_dir,
                listed[i].size,
                listed[i].permissions,
                listed[i].mtime,
            ),
    )
}

/// The models of a list of entries, in order.
pub open spec fn entry_views(entries: Seq<FileEntry>) -> Seq<FileEntryView> {
    Seq::new(entries.len(), |i: int| entries[i]@)
}

impl FileEntry {
    /// The entry reported for a file with the given name and attributes, as
    /// the server listed them.
    pub fn from_attributes(
        name: String,
        is_dir: bool,
        size: Option<u64>,
        permissions: Option<u32>,
        mtime: Option<u32>,
    ) -> (entry: Self)
        ensures
            entry@ == entry_of(name@, is_dir, size, permissions, mtime),
    {
        FileEntry {
            name,
            is_dir,
            size: match size {
                Some(bytes) => bytes,
                None => 0,
            },
            permissions: match permissions {
                Some(bits) => Some(octal(bits)),
                None => None,
            },
            modified: match mtime {
                Some(seconds) => Some(seconds as u64),
                None => None,
            },
        }
    }
}

/// Seconds of silence after which the connection of a file transfer session
/// is given up.
pub const INACTIVITY_TIMEOUT_SECS: u64 = 3600;

/// The subsystem requested on the channel of a file transfer session.
pub const SUBSYSTEM: &'static str = "sftp";

/// Why a file transfer session could not be set up.
#[derive(Debug)]
pub enum SftpError {
    /// The encrypted transport could not be established.
    Transport(String),
    /// The credential could not be prepared for use.
    Credential(String),
    /// The private key file does not hold a key that could be decoded.
    InvalidKey(russh::keys::Error),
    /// The attempt to authenticate broke off with an error.
    Authentication(String),
    /// The server turned the credential down.
    Rejected,
    /// No session channel could be opened.
    Channel(String),
    /// The server did not start the subsystem.
    Subsystem(String),
    /// The file transfer protocol could not be started on the channel.
    Protocol(String),
    /// Something was reported that the phase of the setup does not expect.
    Unexpected,
}

/// Mathematical model of [`SftpError`]. What is inside a key error is not
/// part of the model.
pub enum SftpErrorView {
    Transport(Seq<char>),
    Credential(Seq<char>),
    InvalidKey,
    Authentication(Seq<char>),
    Rejected,
    Channel(Seq<char>),
    Subsystem(Seq<char>),
    Protocol(Seq<char>),
    Unexpected,
}

impl View for SftpError {
    type V = SftpErrorView;

    open spec fn view(&self) -> SftpErrorView {
        match *self {
            SftpError::Transport(detail) => SftpErrorView::Transport(detail@),
            SftpError::Credential(detail) => SftpErrorView::Credential(detail@),
            SftpError::InvalidKey(_) => SftpErrorView::InvalidKey,
            SftpError::Authentication(detail) => SftpErrorView::Authentication(detail@),
            SftpError::Rejected => SftpErrorView::Rejected,
            SftpError::Channel(detail) => SftpErrorView::Channel(detail@),
            SftpError::Subsystem(detail) => SftpErrorView::Subsystem(detail@),
            SftpError::Protocol(detail) => SftpErrorView::Protocol(detail@),
            SftpError::Unexpected => SftpErrorView::Unexpected,
        }
    }
}

impl SftpErrorView {
    /// The words that name the phase in which the setup failed. Every text
    /// reported for the error starts with them.
    pub open spec fn phase(self) -> Seq<char> {
        match self {
            SftpErrorView::Transport(_) => "Connection failed: "@,
            SftpErrorView::Credential(_) => "Authentication error: "@,
            SftpErrorView::InvalidKey => "Authentication error: "@,
            SftpErrorView::Authentication(_) => "Authentication error: "@,
            SftpErrorView::Rejected => "SSH authentication failed"@,
            SftpErrorView::Channel(_) => "Failed to open channel: "@,
            SftpErrorView::Subsystem(_) => "Failed to request SFTP subsystem: "@,
            SftpErrorView::Protocol(_) => "Failed to create SFTP session: "@,
            SftpErrorView::Unexpected => "Unexpected event during session setup"@,
        }
    }

    /// What follows the words of the phase. For a key that could not be
    /// decoded it is the decoder's own text, which this model does not hold.
    pub open spec fn detail(self) -> Seq<char>
        recommends
            !(self is InvalidKey),
    {
        match self {
            SftpErrorView::Transport(detail) => detail,
            SftpErrorView::Credential(detail) => detail,
            SftpErrorView::InvalidKey => Seq::empty(),
            SftpErrorView::Authentication(detail) => detail,
            SftpErrorView::Rejected => Seq::empty(),
            SftpErrorView::Channel(detail) => detail,
            SftpErrorView::Subsystem(detail) => detail,
            SftpErrorView::Protocol(detail) => detail,
            SftpErrorView::Unexpected => Seq::empty(),
        }
    }

    /// The text that tells the caller what went wrong and in which phase.
    pub open spec fn message(self) -> Seq<char>
        recommends
            !(self is InvalidKey),
    {
        self.phase() + self.detail()
    }
}

impl SftpError {
    /// The text that tells the caller what went wrong and in which phase:
    /// the words of the phase, then the detail.
    pub fn message(&self) -> (text: String)
        ensures
            begins_with(text@, self@.phase()),
            !(self@ is InvalidKey) ==> text@ == self@.message(),
    {
        let text = match self {
            SftpError::Transport(detail) => join("Connection failed: ", detail.as_str()),
            SftpError::Credential(detail) => join("Authentication error: ", detail.as_str()),
            SftpError::InvalidKey(error) => {
                let detail = key_error_text(error);
                join("Authentication error: ", detail.as_str())
            },
            SftpError::Authentication(detail) => join("Authentication error: ", detail.as_str()),
            SftpError::Rejected => "SSH authentication failed".to_owned(),
            SftpError::Channel(detail) => join("Failed to open channel: ", detail.as_str()),
            SftpError::Subsystem(detail) => join(
                "Failed to request SFTP subsystem: ",
                detail.as_str(),
            ),
            SftpError::Protocol(detail) => join(
                "Failed to create SFTP session: ",
                detail.as_str(),
            ),
            SftpError::Unexpected => "Unexpected event during session setup".to_owned(),
        };
        proof {
            let words = self@.phase();
            let rest = text@.subrange(words.len() as int, text@.len() as int);
            assert(text@ =~= words + rest);
            lemma_begins_with(words, rest);
            if !(self@ is InvalidKey) {
                assert(text@ =~= self@.message());
            }
        }
        text
    }
}

/// Where the setup of a file transfer session stands.
#[derive(Debug, Clone, Copy, PartialEq, Eq, Structural)]
pub enum SftpPhase {
    /// The encrypted transport is being established.
    Connecting,
    /// The private key file is being read.
    ReadingKey,
    /// The credential is with the server.
    Authenticating,
    /// The session channel is being opened.
    OpeningChannel,
    /// The subsystem is being requested.
    RequestingSubsystem,
    /// The file transfer protocol is being started on the channel.
    StartingProtocol,
    /// The session is up.
    Established,
    /// The setup failed; no session exists.
    Failed,
}

impl SftpPhase {
    /// Whether the setup has ended, in success or in failure.
    pub open spec fn is_terminal(self) -> bool {
        self == SftpPhase::Established || self == SftpPhase::Failed
    }
}

/// What the last round trip of a setup brought.
#[derive(Debug)]
pub enum SftpEvent {
    /// The transport is up.
    Connected,
    /// The transport could not be established.
    ConnectFailed(String),
    /// The private key file was read; this is its text.
    KeyFileRead(String),
    /// The credential could not be prepared: the key file could not be read,
    /// or the server's signature algorithms could not be learned.
    CredentialFailed(String),
    /// The server accepted the credential.
    AuthAccepted,
    /// The server turned the credential down.
    AuthRejected,
    /// The authentication broke off with an error.
    AuthFailed(String),
    /// The session channel is open.
    ChannelOpened,
    /// The server started the subsystem.
    SubsystemStarted,
    /// The file transfer protocol is running on the channel.
    ProtocolStarted,
    /// The current step after authentication failed.
    StepFailed(String),
}

/// Mathematical model of [`SftpEvent`].
pub enum SftpEventView {
    Connected,
    ConnectFailed(Seq<char>),
    KeyFileRead(Seq<char>),
    CredentialFailed(Seq<char>),
    AuthAccepted,
    AuthRejected,
    AuthFailed(Seq<char>),
    ChannelOpened,
    SubsystemStarted,
    ProtocolStarted,
    StepFailed(Seq<char>),
}

impl View for SftpEvent {
    type V = SftpEventView;

    open spec fn view(&self) -> SftpEventView {
        match *self {
            SftpEvent::Connected => SftpEventView::Connected,
            SftpEvent::ConnectFailed(detail) => SftpEventView::ConnectFailed(detail@),
            SftpEvent::KeyFileRead(text) => SftpEventView::KeyFileRead(text@),
            SftpEvent::CredentialFailed(detail) => SftpEventView::CredentialFailed(detail@),
            SftpEvent::AuthAccepted => SftpEventView::AuthAccepted,
            SftpEvent::AuthRejected => SftpEventView::AuthRejected,
            SftpEvent::AuthFailed(detail) => SftpEventView::AuthFailed(detail@),
            SftpEvent::ChannelOpened => SftpEventView::ChannelOpened,
            SftpEvent::SubsystemStarted => SftpEventView::SubsystemStarted,
            SftpEvent::ProtocolStarted => SftpEventView::ProtocolStarted,
            SftpEvent::StepFailed(detail) => SftpEventView::StepFailed(detail@),
        }
    }
}

/// The round trip that a setup asks for next.
#[derive(Debug)]
pub enum SftpAction {
    /// Establish the encrypted transport, accepting the host key presented
    /// and hanging up after the given seconds of silence.
    Connect { host: String, port: u16, inactivity_timeout_secs: u64 },
    /// Read the private key file.
    ReadKeyFile { path: String },
    /// Authenticate with the password.
    AuthenticatePassword { username: String, password: String },
    /// Authenticate with the key, signing with the strongest hash algorithm
    /// the server supports.
    AuthenticatePublicKey { username: String, key: PrivateKey },
    /// Open a session channel.
    OpenChannel,
    /// Request the subsystem on the channel.
    RequestSubsystem { name: String },
    /// Start the file transfer protocol on the channel.
    StartProtocol,
    /// Register the session.
    Finish,
    /// Give up and report the error; nothing is registered.
    Fail(SftpError),
    /// Nothing: the setup has ended.
    Idle,
}

/// Mathematical model of [`SftpAction`]. The key is not part of the model.
pub enum SftpActionView {
    Connect { host: Seq<char>, port: u16, inactivity_timeout_secs: u64 },
    ReadKeyFile { path: Seq<char> },
    AuthenticatePassword { username: Seq<char>, password: Seq<char> },
    AuthenticatePublicKey { username: Seq<char> },
    OpenChannel,
    RequestSubsystem { name: Seq<char> },
    StartProtocol,
    Finish,
    Fail(SftpErrorView),
    Idle,
}

impl View for SftpAction {
    type V = SftpActionView;

    open spec fn view(&self) -> SftpActionView {
        match *self {
            SftpAction::Connect { host, port, inactivity_timeout_secs } => SftpActionView::Connect {
                host: host@,
                port,
                inactivity_timeout_secs,
            },
            SftpAction::ReadKeyFile { path } => SftpActionView::ReadKeyFile { path: path@ },
            SftpAction::AuthenticatePassword { username, password } =>
                SftpActionView::AuthenticatePassword { username: username@, password: password@ },
            SftpAction::AuthenticatePublicKey { username, key } =>
                SftpActionView::AuthenticatePublicKey { username: username@ },
            SftpAction::OpenChannel => SftpActionView::OpenChannel,
            SftpAction::RequestSubsystem { name } => SftpActionView::RequestSubsystem {
                name: name@,
            },
            SftpAction::StartProtocol => SftpActionView::StartProtocol,
            SftpAction::Finish => SftpActionView::Finish,
            SftpAction::Fail(error) => SftpActionView::Fail(error@),
            SftpAction::Idle => SftpActionView::Idle,
        }
    }
}

/// A file transfer session: the host it talks to, the identifier it is known
/// by, and how far its setup has come.
#[derive(Debug)]
pub struct SftpSessionWrapper {
    id: String,
    config: SshConfig,
    phase: SftpPhase,
}

/// Mathematical model of [`SftpSessionWrapper`].
pub struct SftpSessionView {
    pub id: Seq<char>,
    pub config: SshConfigView,
    pub phase: SftpPhase,
}

impl View for SftpSessionWrapper {
    type V = SftpSessionView;

    closed spec fn view(&self) -> SftpSessionView {
        SftpSessionView { id: self.id@, config: self.config@, phase: self.phase }
    }
}

/// A setup that fails with `error`.
pub open spec fn sftp_failed(error: SftpErrorView) -> (SftpPhase, SftpActionView) {
    (SftpPhase::Failed, SftpActionView::Fail(error))
}

/// The first round trip of a setup: establishing the transport.
pub open spec fn sftp_first_action(config: SshConfigView) -> SftpActionView {
    SftpActionView::Connect { host: config.host, port: config.port, inactivity_timeout_secs: 3600 }
}

/// Where a setup goes once the key file's text went through the decoder,
/// which accepted it or did not.
pub open spec fn sftp_after_key(session: SftpSessionView, accepted: bool) -> (
    SftpPhase,
    SftpActionView,
) {
    if session.phase == SftpPhase::ReadingKey {
        if accepted {
            (
                SftpPhase::Authenticating,
                SftpActionView::AuthenticatePublicKey { username: session.config.username },
            )
        } else {
            sftp_failed(SftpErrorView::InvalidKey)
        }
    } else if session.phase.is_terminal() {
        (session.phase, SftpActionView::Idle)
    } else {
        sftp_failed(SftpErrorView::Unexpected)
    }
}

/// The transition of a setup: the phase it enters and the round trip it asks
/// for, given the phase it is in and what the last round trip brought.
///
/// A credential that the server turns down ends the setup: there is no
/// interactive authentication here. A setup that has ended stays where it
/// is; before that, anything the phase does not expect fails the setup.
pub open spec fn sftp_transition(session: SftpSessionView, event: SftpEventView) -> (
    SftpPhase,
    SftpActionView,
) {
    let username = session.config.username;
    match session.phase {
        SftpPhase::Connecting => match event {
            SftpEventView::Connected => match session.config.auth {
                SshAuthView::Password(secret) => (
                    SftpPhase::Authenticating,
                    SftpActionView::AuthenticatePassword { username, password: secret },
                ),
                SshAuthView::PublicKey { private_key_path, .. } => (
                    SftpPhase::ReadingKey,
                    SftpActionView::ReadKeyFile { path: private_key_path },
                ),
            },
            SftpEventView::ConnectFailed(detail) => sftp_failed(SftpErrorView::Transport(detail)),
            _ => sftp_failed(SftpErrorView::Unexpected),
        },
        SftpPhase::ReadingKey => match event {
            SftpEventView::KeyFileRead(text) => sftp_after_key(
                session,
                secret_key_decodes(text, passphrase_of(session.config.auth)),
            ),
            SftpEventView::CredentialFailed(detail) => sftp_failed(
                SftpErrorView::Credential(detail),
            ),
            _ => sftp_failed(SftpErrorView::Unexpected),
        },
        SftpPhase::Authenticating => match event {
            SftpEventView::AuthAccepted => (SftpPhase::OpeningChannel, SftpActionView::OpenChannel),
            SftpEventView::AuthRejected => sftp_failed(SftpErrorView::Rejected),
            SftpEventView::AuthFailed(detail) => sftp_failed(SftpErrorView::Authentication(detail)),
            SftpEventView::CredentialFailed(detail) => sftp_failed(
                SftpErrorView::Credential(detail),
            ),
            _ => sftp_failed(SftpErrorView::Unexpected),
        },
        SftpPhase::OpeningChannel => match event {
            SftpEventView::ChannelOpened => (
                SftpPhase::RequestingSubsystem,
                SftpActionView::RequestSubsystem { name: "sftp"@ },
            ),
            SftpEventView::StepFailed(detail) => sftp_failed(SftpErrorView::Channel(detail)),
            _ => sftp_failed(SftpErrorView::Unexpected),
        },
        SftpPhase::RequestingSubsystem => match event {
            SftpEventView::SubsystemStarted => (
                SftpPhase::StartingProtocol,
                SftpActionView::StartProtocol,
            ),
            SftpEventView::StepFailed(detail) => sftp_failed(SftpErrorView::Subsystem(detail)),
            _ => sftp_failed(SftpErrorView::Unexpected),
        },
        SftpPhase::StartingProtocol => match event {
            SftpEventView::ProtocolStarted => (SftpPhase::Established, SftpActionView::Finish),
            SftpEventView::StepFailed(detail) => sftp_failed(SftpErrorView::Protocol(detail)),
            _ => sftp_failed(SftpErrorView::Unexpected),
        },
        SftpPhase::Established => (SftpPhase::Established, SftpActionView::Idle),
        SftpPhase::Failed => (SftpPhase::Failed, SftpActionView::Idle),
    }
}

impl SftpSessionWrapper {
    /// Begins the setup of a session to the host of `config`, known as
    /// `session_id`, and asks for its first round trip.
    pub fn new(config: SshConfig, session_id: String) -> (begun: (Self, SftpAction))
        ensures
            begun.0@ == (SftpSessionView {
                id: session_id@,
                config: config@,
                phase: SftpPhase::Connecting,
            }),
            begun.1@ == sftp_first_action(config@),
    {
        let action = SftpAction::Connect {
            host: config.host.clone(),
            port: config.port,
            inactivity_timeout_secs: INACTIVITY_TIMEOUT_SECS,
        };
        (SftpSessionWrapper { id: session_id, config, phase: SftpPhase::Connecting }, action)
    }

    /// The identifier the session is known by.
    pub fn id(&self) -> (id: &str)
        ensures
            id@ == self@.id,
    {
        self.id.as_str()
    }

    /// Where the setup stands.
    pub fn phase(&self) -> (phase: SftpPhase)
        ensures
            phase == self@.phase,
    {
        self.phase
    }

    fn fail(&mut self, error: SftpError) -> (action: SftpAction)
        ensures
            final(self)@ == (SftpSessionView { phase: SftpPhase::Failed, ..old(self)@ }),
            action == SftpAction::Fail(error),
    {
        self.phase = SftpPhase::Failed;
        SftpAction::Fail(error)
    }

    fn enter(&mut self, phase: SftpPhase, action: SftpAction) -> (same: SftpAction)
        ensures
            final(self)@ == (SftpSessionView { phase, ..old(self)@ }),
            same == action,
    {
        self.phase = phase;
        action
    }

    fn unexpected(&mut self) -> (action: SftpAction)
        ensures
            final(self)@ == (SftpSessionView {
                phase: if old(self)@.phase.is_terminal() {
                    old(self)@.phase
                } else {
                    SftpPhase::Failed
                },
                ..old(self)@
            }),
            action@ == if old(self)@.phase.is_terminal() {
                SftpActionView::Idle
            } else {
                SftpActionView::Fail(SftpErrorView::Unexpected)
            },
    {
        match self.phase {
            SftpPhase::Established => SftpAction::Idle,
            SftpPhase::Failed => SftpAction::Idle,
            _ => self.fail(SftpError::Unexpected),
        }
    }

    /// Continues the setup once the text of the key file went through the
    /// decoder: with a key, the key is offered to the server; without one,
    /// the setup fails.
    pub fn key_decoded(&mut self, decoded: Result<PrivateKey, russh::keys::Error>) -> (action:
        SftpAction)
        ensures
            final(self)@.id == old(self)@.id,
            final(self)@.config == old(self)@.config,
            (final(self)@.phase, action@) == sftp_after_key(old(self)@, decoded is Ok),
            old(self)@.phase == SftpPhase::ReadingKey ==> match decoded {
                Ok(key) => action matches SftpAction::AuthenticatePublicKey { key: offered, .. }
                    && offered == key,
                Err(error) => action matches SftpAction::Fail(SftpError::InvalidKey(reported))
                    && reported == error,
            },
    {
        match self.phase {
            SftpPhase::ReadingKey => match decoded {
                Ok(key) => {
                    let action = SftpAction::AuthenticatePublicKey {
                        username: self.config.username.clone(),
                        key,
                    };
                    self.enter(SftpPhase::Authenticating, action)
                },
                Err(error) => self.fail(SftpError::InvalidKey(error)),
            },
            _ => self.unexpected(),
        }
    }

    /// The entries reported for a directory, one for each entry the server
    /// listed and in the same order.
    pub fn list_dir(&self, listed: &Vec<RemoteEntry>) -> (entries: Vec<FileEntry>)
        ensures
            entry_views(entries@) == listing_of(listed@),
    {
        let mut entries: Vec<FileEntry> = Vec::new();
        let mut i: usize = 0;
        while i < listed.len()
            invariant
                i <= listed.len(),
                entries@.len() == i,
                forall|j: int| 0 <= j < i ==> (#[trigger] entries@[j])@ == listing_of(listed@)[j],
            decreases listed.len() - i,
        {
            let raw = &listed[i];
            entries.push(
                FileEntry::from_attributes(
                    raw.name.clone(),
                    raw.is_dir,
                    raw.size,
                    raw.permissions,
                    raw.mtime,
                ),
            );
            i += 1;
        }
        assert(entry_views(entries@) =~= listing_of(listed@));
        entries
    }

    /// Moves the setup on by what the last round trip brought, and asks for
    /// the next one.
    pub fn step(&mut self, event: SftpEvent) -> (action: SftpAction)
        ensures
            final(self)@.id == old(self)@.id,
            final(self)@.config == old(self)@.config,
            (final(self)@.phase, action@) == sftp_transition(old(self)@, event@),
    {
        match self.phase {
            SftpPhase::Connecting => match event {
                SftpEvent::Connected => {
                    let username = self.config.username.clone();
                    match &self.config.auth {
                        SshAuth::Password(secret) => {
                            let action = SftpAction::AuthenticatePassword {
                                username,
                                password: secret.clone(),
                            };
                            self.enter(SftpPhase::Authenticating, action)
                        },
                        SshAuth::PublicKey { private_key_path, .. } => {
                            let action = SftpAction::ReadKeyFile { path: private_key_path.clone() };
                            self.enter(SftpPhase::ReadingKey, action)
                        },
                    }
                },
                SftpEvent::ConnectFailed(detail) => self.fail(SftpError::Transport(detail)),
                _ => self.unexpected(),
            },
            SftpPhase::ReadingKey => match event {
                SftpEvent::KeyFileRead(text) => {
                    let decoded = match &self.config.auth {
                        SshAuth::Password(_) => decode_secret_key(text.as_str(), None),
                        SshAuth::PublicKey { passphrase, .. } => match passphrase {
                            Some(secret) => decode_secret_key(text.as_str(), Some(secret.as_str())),
                            None => decode_secret_key(text.as_str(), None),
                        },
                    };
                    self.key_decoded(decoded)
                },
                SftpEvent::CredentialFailed(detail) => self.fail(SftpError::Credential(detail)),
                _ => self.unexpected(),
            },
            SftpPhase::Authenticating => match event {
                SftpEvent::AuthAccepted => self.enter(
                    SftpPhase::OpeningChannel,
                    SftpAction::OpenChannel,
                ),
                SftpEvent::AuthRejected => self.fail(SftpError::Rejected),
                SftpEvent::AuthFailed(detail) => self.fail(SftpError::Authentication(detail)),
                SftpEvent::CredentialFailed(detail) => self.fail(SftpError::Credential(detail)),
                _ => self.unexpected(),
            },
            SftpPhase::OpeningChannel => match event {
                SftpEvent::ChannelOpened => {
                    let action = SftpAction::RequestSubsystem { name: SUBSYSTEM.to_owned() };
                    self.enter(SftpPhase::RequestingSubsystem, action)
                },
                SftpEvent::StepFailed(detail) => self.fail(SftpError::Channel(detail)),
                _ => self.unexpected(),
            },
            SftpPhase::RequestingSubsystem => match event {
                SftpEvent::SubsystemStarted => self.enter(
                    SftpPhase::StartingProtocol,
                    SftpAction::StartProtocol,
                ),
                SftpEvent::StepFailed(detail) => self.fail(SftpError::Subsystem(detail)),
                _ => self.unexpected(),
            },
            SftpPhase::StartingProtocol => match event {
                SftpEvent::ProtocolStarted => self.enter(SftpPhase::Established, SftpAction::Finish),
                SftpEvent::StepFailed(detail) => self.fail(SftpError::Protocol(detail)),
                _ => self.unexpected(),
            },
            SftpPhase::Established => self.unexpected(),
            SftpPhase::Failed => self.unexpected(),
        }
    }
}

} // verus!
