//! Remote sessions: how one is set up, step by step, and what its worker
//! does once it is established.
//!
//! Setting a session up alternates network round trips with decisions. The
//! round trips are the caller's part. The decisions are [`SshSession::step`]:
//! given what the last round trip brought, it moves the session to its next
//! phase and says which round trip comes next.

use crate::events::{ended, output_of, spec_output_event, Notification, NotificationView};
use crate::models::{SshAuth, SshAuthView, SshConfig, SshConfigView};
use crate::ssh::mfa::{
    prompt_views, text_views, MfaPrompt, MfaPromptPayload, MfaPromptPayloadView, MfaPromptView,
    MfaResponseMap, MFA_TIMEOUT_SECS,
};
use crate::text::{begins_with, join, lemma_begins_with, lemma_text_round_trip};
use russh::keys::PrivateKey;
use tokio::sync::oneshot::Receiver;
use vstd::prelude::*;
use vstd::slice::slice_to_vec;
use vstd::utf8::encode_utf8;

verus! {

/// A decoded private key of `russh`. It is carried from the decoder to the
/// authentication request; nothing of its inside is known here.
#[verifier::external_type_specification]
#[verifier::external_body]
pub struct ExPrivateKey(PrivateKey);

/// Why `russh` could not decode a private key. Nothing of its inside is known
/// here.
#[verifier::external_type_specification]
#[verifier::external_body]
pub struct ExKeyError(russh::keys::Error);

/// Whether `russh::keys::decode_secret_key` accepts `secret` as a private key
/// under the optional `password`.
pub uninterp spec fn secret_key_decodes(secret: Seq<char>, password: Option<Seq<char>>) -> bool;

/// The characters of an optional string slice.
pub open spec fn option_str_view(text: Option<&str>) -> Option<Seq<char>> {
    match text {
        Some(s) => Some(s@),
        None => None,
    }
}

/// Decodes the text of a private key file with
/// `russh::keys::decode_secret_key`, deciphering it with `password` where the
/// key is encrypted. The decoder works on its two arguments alone; whether it
/// accepts them is named, not spelled out.
#[verifier::external_body]
pub(crate) fn decode_secret_key(secret: &str, password: Option<&str>) -> (decoded: Result<
    PrivateKey,
    russh::keys::Error,
>)
    ensures
        decoded is Ok == secret_key_decodes(secret@, option_str_view(password)),
{
    russh::keys::decode_secret_key(secret, password)
}

/// The text `russh` prints for a key error. Nothing is claimed of it.
#[verifier::external_body]
pub(crate) fn key_error_text(error: &russh::keys::Error) -> (text: String) {
    error.to_string()
}

/// How the identity a server presents is judged when the transport is
/// established. A stricter policy can take the place of the one used here
/// without a change to the setup.
pub trait HostKeyPolicy {
    /// Whether a connection to a server that presents `server_public_key`
    /// goes ahead.
    fn verify(&self, server_public_key: &[u8]) -> (accepted: bool);
}

/// The policy of this library: every host key is accepted. This trades the
/// protection against an impersonated server for not having to keep a list
/// of known hosts.
#[derive(Debug, Clone, Copy)]
pub struct AcceptAnyHostKey;

impl HostKeyPolicy for AcceptAnyHostKey {
    fn verify(&self, server_public_key: &[u8]) -> (accepted: bool)
        ensures
            accepted,
    {
        true
    }
}

/// How many control commands may wait for a session's worker. A caller that
/// finds the queue full waits until the worker has taken one.
pub const CONTROL_QUEUE_CAPACITY: usize = 100;

/// Columns of the terminal requested for a new remote session.
pub const DEFAULT_COLS: u32 = 80;

/// Rows of the terminal requested for a new remote session.
pub const DEFAULT_ROWS: u32 = 24;

/// Seconds between two keep-alive messages on an idle connection.
pub const KEEPALIVE_INTERVAL_SECS: u64 = 30;

/// How many keep-alive messages may go unanswered before the connection is
/// given up.
pub const KEEPALIVE_MAX: usize = 6;

/// A key exchange method offered to the server.
#[derive(Debug, Clone, Copy, PartialEq, Eq, Structural)]
pub enum KexAlgorithm {
    Curve25519,
    DhG14Sha256,
    DhG16Sha512,
    DhG14Sha1,
    DhG1Sha1,
    ExtensionSupportAsClient,
}

/// How the encrypted transport of a session is configured.
#[derive(Debug)]
pub struct TransportSettings {
    /// Seconds of silence after which the client hangs up; `None` never.
    pub inactivity_timeout_secs: Option<u64>,
    /// Seconds between keep-alive messages; `None` sends none.
    pub keepalive_interval_secs: Option<u64>,
    /// Unanswered keep-alive messages tolerated.
    pub keepalive_max: usize,
    /// Key exchange methods, most preferred first.
    pub kex: Vec<KexAlgorithm>,
}

/// Mathematical model of [`TransportSettings`].
pub struct TransportSettingsView {
    pub inactivity_timeout_secs: Option<u64>,
    pub keepalive_interval_secs: Option<u64>,
    pub keepalive_max: usize,
    pub kex: Seq<KexAlgorithm>,
}

impl View for TransportSettings {
    type V = TransportSettingsView;

    open spec fn view(&self) -> TransportSettingsView {
        TransportSettingsView {
            inactivity_timeout_secs: self.inactivity_timeout_secs,
            keepalive_interval_secs: self.keepalive_interval_secs,
            keepalive_max: self.keepalive_max,
            kex: self.kex@,
        }
    }
}

/// The transport of a terminal session: no inactivity timeout, a keep-alive
/// every 30 seconds of which 6 may go unanswered, and a key exchange list that
/// reaches from the current method down to the legacy ones old servers need.
pub open spec fn terminal_transport() -> TransportSettingsView {
    TransportSettingsView {
        inactivity_timeout_secs: None,
        keepalive_interval_secs: Some(30),
        keepalive_max: 6,
        kex: seq![
            KexAlgorithm::Curve25519,
            KexAlgorithm::DhG14Sha256,
            KexAlgorithm::DhG16Sha512,
            KexAlgorithm::DhG14Sha1,
            KexAlgorithm::DhG1Sha1,
            KexAlgorithm::ExtensionSupportAsClient,
        ],
    }
}

impl TransportSettings {
    /// The transport of a terminal session.
    pub fn for_terminal() -> (settings: Self)
        ensures
            settings@ == terminal_transport(),
    {
        let mut kex: Vec<KexAlgorithm> = Vec::new();
        kex.push(KexAlgorithm::Curve25519);
        kex.push(KexAlgorithm::DhG14Sha256);
        kex.push(KexAlgorithm::DhG16Sha512);
        kex.push(KexAlgorithm::DhG14Sha1);
        kex.push(KexAlgorithm::DhG1Sha1);
        kex.push(KexAlgorithm::ExtensionSupportAsClient);
        assert(kex@ =~= terminal_transport().kex);
        TransportSettings {
            inactivity_timeout_secs: None,
            keepalive_interval_secs: Some(KEEPALIVE_INTERVAL_SECS),
            keepalive_max: KEEPALIVE_MAX,
            kex,
        }
    }
}

/// Why a remote session could not be set up.
#[derive(Debug)]
pub enum SshError {
    /// The encrypted transport could not be established.
    Transport(String),
    /// The credential could not be prepared for use.
    Credential(String),
    /// The private key file does not hold a key that could be decoded.
    InvalidKey(russh::keys::Error),
    /// The attempt to authenticate broke off with an error.
    Authentication(String),
    /// The server turned the interactive authentication down.
    MfaRejected,
    /// The challenge was withdrawn before it was answered.
    MfaCancelled,
    /// Nobody answered the challenge in time.
    MfaTimeout,
    /// The interactive authentication broke off with an error.
    Mfa(String),
    /// No session channel could be opened.
    Channel(String),
    /// The server granted no terminal.
    Pty(String),
    /// The server started no shell.
    Shell(String),
    /// Something was reported that the phase of the setup does not expect.
    Unexpected,
}

/// Mathematical model of [`SshError`]. What is inside a key error is not part
/// of the model.
pub enum SshErrorView {
    Transport(Seq<char>),
    Credential(Seq<char>),
    InvalidKey,
    Authentication(Seq<char>),
    MfaRejected,
    MfaCancelled,
    MfaTimeout,
    Mfa(Seq<char>),
    Channel(Seq<char>),
    Pty(Seq<char>),
    Shell(Seq<char>),
    Unexpected,
}

impl View for SshError {
    type V = SshErrorView;

    open spec fn view(&self) -> SshErrorView {
        match *self {
            SshError::Transport(detail) => SshErrorView::Transport(detail@),
            SshError::Credential(detail) => SshErrorView::Credential(detail@),
            SshError::InvalidKey(_) => SshErrorView::InvalidKey,
            SshError::Authentication(detail) => SshErrorView::Authentication(detail@),
            SshError::MfaRejected => SshErrorView::MfaRejected,
            SshError::MfaCancelled => SshErrorView::MfaCancelled,
            SshError::MfaTimeout => SshErrorView::MfaTimeout,
            SshError::Mfa(detail) => SshErrorView::Mfa(detail@),
            SshError::Channel(detail) => SshErrorView::Channel(detail@),
            SshError::Pty(detail) => SshErrorView::Pty(detail@),
            SshError::Shell(detail) => SshErrorView::Shell(detail@),
            SshError::Unexpected => SshErrorView::Unexpected,
        }
    }
}

impl SshErrorView {
    /// The words that name the phase in which the setup failed. Every text
    /// reported for the error starts with them.
    pub open spec fn phase(self) -> Seq<char> {
        match self {
            SshErrorView::Transport(_) => "Connection failed: "@,
            SshErrorView::Credential(_) => "Authentication error: "@,
            SshErrorView::InvalidKey => "Authentication error: "@,
            SshErrorView::Authentication(_) => "Authentication error: "@,
            SshErrorView::MfaRejected => "SSH MFA authentication failed"@,
            SshErrorView::MfaCancelled => "MFA authentication error: "@,
            SshErrorView::MfaTimeout => "MFA authentication error: "@,
            SshErrorView::Mfa(_) => "MFA authentication error: "@,
            SshErrorView::Channel(_) => "Failed to open channel: "@,
            SshErrorView::Pty(_) => "PTY request failed: "@,
            SshErrorView::Shell(_) => "Shell request failed: "@,
            SshErrorView::Unexpected => "Unexpected event during session setup"@,
        }
    }

    /// What follows the words of the phase. For a key that could not be
    /// decoded it is the decoder's own text, which this model does not hold.
    pub open spec fn detail(self) -> Seq<char>
        recommends
            !(self is InvalidKey),
    {
        match self {
            SshErrorView::Transport(detail) => detail,
            SshErrorView::Credential(detail) => detail,
            SshErrorView::InvalidKey => Seq::empty(),
            SshErrorView::Authentication(detail) => detail,
            SshErrorView::MfaRejected => Seq::empty(),
            SshErrorView::MfaCancelled => "MFA authentication cancelled by user"@,
            SshErrorView::MfaTimeout => "MFA authentication timeout"@,
            SshErrorView::Mfa(detail) => detail,
            SshErrorView::Channel(detail) => detail,
            SshErrorView::Pty(detail) => detail,
            SshErrorView::Shell(detail) => detail,
            SshErrorView::Unexpected => Seq::empty(),
        }
    }

    /// The text that tells the caller what went wrong and in which phase.
    pub open spec fn message(self) -> Seq<char>
        recommends
            !(self is InvalidKey),
    {
        self.phase() + self.detail()
    }
}

impl SshError {
    /// The text that tells the caller what went wrong and in which phase:
    /// the words of the phase, then the detail.
    pub fn message(&self) -> (text: String)
        ensures
            begins_with(text@, self@.phase()),
            !(self@ is InvalidKey) ==> text@ == self@.message(),
    {
        let text = match self {
            SshError::Transport(detail) => join("Connection failed: ", detail.as_str()),
            SshError::Credential(detail) => join("Authentication error: ", detail.as_str()),
            SshError::InvalidKey(error) => {
                let detail = key_error_text(error);
                join("Authentication error: ", detail.as_str())
            },
            SshError::Authentication(detail) => join("Authentication error: ", detail.as_str()),
            SshError::MfaRejected => "SSH MFA authentication failed".to_owned(),
            SshError::MfaCancelled => join(
                "MFA authentication error: ",
                "MFA authentication cancelled by user",
            ),
            SshError::MfaTimeout => join(
                "MFA authentication error: ",
                "MFA authentication timeout",
            ),
            SshError::Mfa(detail) => join("MFA authentication error: ", detail.as_str()),
            SshError::Channel(detail) => join("Failed to open channel: ", detail.as_str()),
            SshError::Pty(detail) => join("PTY request failed: ", detail.as_str()),
            SshError::Shell(detail) => join("Shell request failed: ", detail.as_str()),
            SshError::Unexpected => "Unexpected event during session setup".to_owned(),
        };
        proof {
            let words = self@.phase();
            let rest = text@.subrange(words.len() as int, text@.len() as int);
            assert(text@ =~= words + rest);
            lemma_begins_with(words, rest);
            if !(self@ is InvalidKey) {
                assert(text@ =~= self@.message());
            }
        }
        text
    }
}

/// Where the setup of a remote session stands.
#[derive(Debug, Clone, Copy, PartialEq, Eq, Structural)]
pub enum SetupPhase {
    /// The encrypted transport is being established.
    Connecting,
    /// Primary authentication: the private key file is being read.
    ReadingKey,
    /// Primary authentication: the credential is with the server.
    PrimaryAuth,
    /// Interactive authentication: the server's next word is awaited.
    InteractiveAuth,
    /// Interactive authentication: a challenge is with the responder.
    AwaitingResponse,
    /// Channel setup: the session channel is being opened.
    OpeningChannel,
    /// Channel setup: a terminal is being requested.
    RequestingPty,
    /// Channel setup: a shell is being requested.
    RequestingShell,
    /// The session is up; its worker owns transport and channel.
    Established,
    /// The setup failed; no session exists.
    Failed,
}

impl SetupPhase {
    /// Whether the setup has ended, in success or in failure.
    pub open spec fn is_terminal(self) -> bool {
        self == SetupPhase::Established || self == SetupPhase::Failed
    }
}

/// What the server says in one round of interactive authentication.
#[derive(Debug)]
pub enum InteractiveReply {
    Success,
    Failure,
    InfoRequest { name: String, instructions: String, prompts: Vec<MfaPrompt> },
}

/// Mathematical model of [`InteractiveReply`].
pub enum InteractiveReplyView {
    Success,
    Failure,
    InfoRequest { name: Seq<char>, instructions: Seq<char>, prompts: Seq<MfaPromptView> },
}

impl View for InteractiveReply {
    type V = InteractiveReplyView;

    open spec fn view(&self) -> InteractiveReplyView {
        match *self {
            InteractiveReply::Success => InteractiveReplyView::Success,
            InteractiveReply::Failure => InteractiveReplyView::Failure,
            InteractiveReply::InfoRequest { name, instructions, prompts } =>
                InteractiveReplyView::InfoRequest {
                name: name@,
                instructions: instructions@,
                prompts: prompt_views(prompts@),
            },
        }
    }
}

/// What the last round trip of a setup brought.
#[derive(Debug)]
pub enum SetupEvent {
    /// The transport is up.
    Connected,
    /// The transport could not be established.
    ConnectFailed(String),
    /// The private key file was read; this is its text.
    KeyFileRead(String),
    /// The credential could not be prepared: the key file could not be read,
    /// or the server's signature algorithms could not be learned.
    CredentialFailed(String),
    /// The server accepted the primary credential.
    AuthAccepted,
    /// The server turned the primary credential down, without an error.
    AuthRejected,
    /// The primary authentication broke off with an error.
    AuthFailed(String),
    /// The server's word in interactive authentication.
    Interactive(InteractiveReply),
    /// Interactive authentication broke off with an error, or the challenge
    /// could not be shown to the responder.
    InteractiveFailed(String),
    /// The responder answered the challenge.
    Answered(Vec<String>),
    /// The challenge was withdrawn before it was answered.
    Cancelled,
    /// Nobody answered the challenge in time.
    TimedOut,
    /// The session channel is open.
    ChannelOpened,
    /// The server granted the terminal.
    PtyGranted,
    /// The server started the shell.
    ShellStarted,
    /// The current step of the channel setup failed.
    ChannelFailed(String),
}

/// Mathematical model of [`SetupEvent`].
pub enum SetupEventView {
    Connected,
    ConnectFailed(Seq<char>),
    KeyFileRead(Seq<char>),
    CredentialFailed(Seq<char>),
    AuthAccepted,
    AuthRejected,
    AuthFailed(Seq<char>),
    Interactive(InteractiveReplyView),
    InteractiveFailed(Seq<char>),
    Answered(Seq<Seq<char>>),
    Cancelled,
    TimedOut,
    ChannelOpened,
    PtyGranted,
    ShellStarted,
    ChannelFailed(Seq<char>),
}

impl View for SetupEvent {
    type V = SetupEventView;

    open spec fn view(&self) -> SetupEventView {
        match *self {
            SetupEvent::Connected => SetupEventView::Connected,
            SetupEvent::ConnectFailed(detail) => SetupEventView::ConnectFailed(detail@),
            SetupEvent::KeyFileRead(text) => SetupEventView::KeyFileRead(text@),
            SetupEvent::CredentialFailed(detail) => SetupEventView::CredentialFailed(detail@),
            SetupEvent::AuthAccepted => SetupEventView::AuthAccepted,
            SetupEvent::AuthRejected => SetupEventView::AuthRejected,
            SetupEvent::AuthFailed(detail) => SetupEventView::AuthFailed(detail@),
            SetupEvent::Interactive(reply) => SetupEventView::Interactive(reply@),
            SetupEvent::InteractiveFailed(detail) => SetupEventView::InteractiveFailed(detail@),
            SetupEvent::Answered(responses) => SetupEventView::Answered(text_views(responses@)),
            SetupEvent::Cancelled => SetupEventView::Cancelled,
            SetupEvent::TimedOut => SetupEventView::TimedOut,
            SetupEvent::ChannelOpened => SetupEventView::ChannelOpened,
            SetupEvent::PtyGranted => SetupEventView::PtyGranted,
            SetupEvent::ShellStarted => SetupEventView::ShellStarted,
            SetupEvent::ChannelFailed(detail) => SetupEventView::ChannelFailed(detail@),
        }
    }
}

/// The round trip that a setup asks for next.
#[derive(Debug)]
pub enum SetupAction {
    /// Establish the encrypted transport, accepting the host key presented.
    Connect { host: String, port: u16, settings: TransportSettings },
    /// Read the private key file.
    ReadKeyFile { path: String },
    /// Authenticate with the password.
    AuthenticatePassword { username: String, password: String },
    /// Authenticate with the key, signing with the strongest hash algorithm
    /// the server supports.
    AuthenticatePublicKey { username: String, key: PrivateKey },
    /// Start interactive authentication.
    StartInteractive { username: String },
    /// Send the answers of this round to the server.
    Respond { responses: Vec<String> },
    /// Show the challenge to the responder, then wait on `answer` for at most
    /// `timeout_secs` seconds.
    Prompt { payload: MfaPromptPayload, answer: Receiver<Vec<String>>, timeout_secs: u64 },
    /// Open a session channel.
    OpenChannel,
    /// Request a terminal on the channel. `term` is what the server is told
    /// the terminal's type is; the setup puts the user name there.
    RequestPty { term: String, cols: u32, rows: u32, pixel_width: u32, pixel_height: u32 },
    /// Request an interactive shell on the channel.
    RequestShell,
    /// Hand transport and channel to the session's worker, behind a control
    /// queue of the given capacity, and register the session.
    Attach { control_capacity: usize },
    /// Give up and report the error; nothing is registered.
    Fail(SshError),
    /// Nothing: the setup has ended.
    Idle,
}

/// Mathematical model of [`SetupAction`]. The key and the end on which the
/// answer will arrive are not part of the model.
pub enum SetupActionView {
    Connect { host: Seq<char>, port: u16, settings: TransportSettingsView },
    ReadKeyFile { path: Seq<char> },
    AuthenticatePassword { username: Seq<char>, password: Seq<char> },
    AuthenticatePublicKey { username: Seq<char> },
    StartInteractive { username: Seq<char> },
    Respond { responses: Seq<Seq<char>> },
    Prompt { payload: MfaPromptPayloadView, timeout_secs: u64 },
    OpenChannel,
    RequestPty { term: Seq<char>, cols: u32, rows: u32, pixel_width: u32, pixel_height: u32 },
    RequestShell,
    Attach { control_capacity: usize },
    Fail(SshErrorView),
    Idle,
}

impl View for SetupAction {
    type V = SetupActionView;

    open spec fn view(&self) -> SetupActionView {
        match *self {
            SetupAction::Connect { host, port, settings } => SetupActionView::Connect {
                host: host@,
                port,
                settings: settings@,
            },
            SetupAction::ReadKeyFile { path } => SetupActionView::ReadKeyFile { path: path@ },
            SetupAction::AuthenticatePassword { username, password } =>
                SetupActionView::AuthenticatePassword { username: username@, password: password@ },
            SetupAction::AuthenticatePublicKey { username, key } =>
                SetupActionView::AuthenticatePublicKey { username: username@ },
            SetupAction::StartInteractive { username } => SetupActionView::StartInteractive {
                username: username@,
            },
            SetupAction::Respond { responses } => SetupActionView::Respond {
                responses: text_views(responses@),
            },
            SetupAction::Prompt { payload, answer, timeout_secs } => SetupActionView::Prompt {
                payload: payload@,
                timeout_secs,
            },
            SetupAction::OpenChannel => SetupActionView::OpenChannel,
            SetupAction::RequestPty { term, cols, rows, pixel_width, pixel_height } =>
                SetupActionView::RequestPty { term: term@, cols, rows, pixel_width, pixel_height },
            SetupAction::RequestShell => SetupActionView::RequestShell,
            SetupAction::Attach { control_capacity } => SetupActionView::Attach {
                control_capacity,
            },
            SetupAction::Fail(error) => SetupActionView::Fail(error@),
            SetupAction::Idle => SetupActionView::Idle,
        }
    }
}

/// A command for the worker of an established session. Commands are queued
/// and applied in the order in which they were queued.
#[derive(Debug)]
pub enum SshControl {
    Write(Vec<u8>),
    Resize { rows: u16, cols: u16 },
}

/// Mathematical model of [`SshControl`].
pub enum SshControlView {
    Write(Seq<u8>),
    Resize { rows: u16, cols: u16 },
}

impl View for SshControl {
    type V = SshControlView;

    open spec fn view(&self) -> SshControlView {
        match *self {
            SshControl::Write(data) => SshControlView::Write(data@),
            SshControl::Resize { rows, cols } => SshControlView::Resize { rows, cols },
        }
    }
}

/// What the worker asks of the session's channel.
#[derive(Debug)]
pub enum ChannelRequest {
    /// Send these bytes.
    Data(Vec<u8>),
    /// Announce a new window size.
    WindowChange { cols: u32, rows: u32, pixel_width: u32, pixel_height: u32 },
}

/// Mathematical model of [`ChannelRequest`].
pub enum ChannelRequestView {
    Data(Seq<u8>),
    WindowChange { cols: u32, rows: u32, pixel_width: u32, pixel_height: u32 },
}

impl View for ChannelRequest {
    type V = ChannelRequestView;

    open spec fn view(&self) -> ChannelRequestView {
        match *self {
            ChannelRequest::Data(data) => ChannelRequestView::Data(data@),
            ChannelRequest::WindowChange { cols, rows, pixel_width, pixel_height } =>
                ChannelRequestView::WindowChange { cols, rows, pixel_width, pixel_height },
        }
    }
}

/// The request that carries out a control command: the bytes of a write as
/// they are, and the cells of a resize with no pixel size.
pub open spec fn request_for(command: SshControlView) -> ChannelRequestView {
    match command {
        SshControlView::Write(data) => ChannelRequestView::Data(data),
        SshControlView::Resize { rows, cols } => ChannelRequestView::WindowChange {
            cols: cols as u32,
            rows: rows as u32,
            pixel_width: 0,
            pixel_height: 0,
        },
    }
}

/// The requests that carry out a run of control commands, one for each and
/// in the same order.
pub open spec fn requests_for(commands: Seq<SshControlView>) -> Seq<ChannelRequestView> {
    Seq::new(commands.len(), |i: int| request_for(commands[i]))
}

/// Whether the worker goes on once a request to the channel has ended as
/// `sent`. It always does: a write that failed shows at the next read, a
/// resize is best effort, and the session ends only when the channel says so.
pub fn worker_continues(sent: &Result<(), String>) -> (running: bool)
    ensures
        running,
{
    true
}

/// What the worker does with one control command.
pub fn worker_on_control(command: SshControl) -> (request: ChannelRequest)
    ensures
        request@ == request_for(command@),
{
    match command {
        SshControl::Write(data) => ChannelRequest::Data(data),
        SshControl::Resize { rows, cols } => ChannelRequest::WindowChange {
            cols: cols as u32,
            rows: rows as u32,
            pixel_width: 0,
            pixel_height: 0,
        },
    }
}

/// Commands are carried out in the order in which they were queued: the
/// requests of a run of commands followed by another are the requests of the
/// first followed by those of the second.
pub proof fn lemma_requests_keep_order(first: Seq<SshControlView>, second: Seq<SshControlView>)
    ensures
        requests_for(first + second) == requests_for(first) + requests_for(second),
{
    assert(requests_for(first + second) =~= requests_for(first) + requests_for(second));
}

/// Of two writes queued one after the other, the bytes of the earlier one are
/// sent to the channel first, and each write is sent once, as it is.
pub proof fn lemma_writes_are_sent_in_order(earlier: Seq<u8>, later: Seq<u8>)
    ensures
        requests_for(seq![SshControlView::Write(earlier), SshControlView::Write(later)]) == seq![
            ChannelRequestView::Data(earlier),
            ChannelRequestView::Data(later),
        ],
{
    assert(requests_for(seq![SshControlView::Write(earlier), SshControlView::Write(later)])
        =~= seq![ChannelRequestView::Data(earlier), ChannelRequestView::Data(later)]);
}

/// What the channel of an established session delivers.
#[derive(Debug)]
pub enum ChannelMessage {
    /// Output of the remote shell.
    Data(Vec<u8>),
    /// The remote side will send no more.
    Eof,
    /// The remote shell exited with this status.
    ExitStatus(u32),
    /// The channel is closed.
    Closed,
    /// Anything else.
    Other,
}

/// Mathematical model of [`ChannelMessage`].
pub enum ChannelMessageView {
    Data(Seq<u8>),
    Eof,
    ExitStatus(u32),
    Closed,
    Other,
}

impl View for ChannelMessage {
    type V = ChannelMessageView;

    open spec fn view(&self) -> ChannelMessageView {
        match *self {
            ChannelMessage::Data(data) => ChannelMessageView::Data(data@),
            ChannelMessage::Eof => ChannelMessageView::Eof,
            ChannelMessage::ExitStatus(status) => ChannelMessageView::ExitStatus(status),
            ChannelMessage::Closed => ChannelMessageView::Closed,
            ChannelMessage::Other => ChannelMessageView::Other,
        }
    }
}

/// What the worker of session `terminal_id` publishes for a message of the
/// channel: data as output; end of file, an exit status or a closed channel
/// as the end of the session; nothing for anything else.
pub open spec fn notice_for(terminal_id: Seq<char>, message: ChannelMessageView) -> Option<
    NotificationView,
> {
    match message {
        ChannelMessageView::Data(data) => Some(output_of(terminal_id, data)),
        ChannelMessageView::Eof => Some(ended(terminal_id)),
        ChannelMessageView::ExitStatus(_) => Some(ended(terminal_id)),
        ChannelMessageView::Closed => Some(ended(terminal_id)),
        ChannelMessageView::Other => None,
    }
}

/// The views of an optional notification.
pub open spec fn option_notice(notice: Option<Notification>) -> Option<NotificationView> {
    match notice {
        Some(n) => Some(n@),
        None => None,
    }
}

/// Text that the remote side sends as it was written is published as that
/// text, as output of that session.
pub proof fn lemma_sent_text_is_published(terminal_id: Seq<char>, text: Seq<char>)
    ensures
        notice_for(terminal_id, ChannelMessageView::Data(encode_utf8(text))) == Some(
            NotificationView::Output { event: spec_output_event(terminal_id), text },
        ),
{
    lemma_text_round_trip(text);
}

/// What the worker of session `terminal_id` does with one message of the
/// channel. It stops after publishing the end of the session, and on no
/// other path.
pub fn worker_on_message(terminal_id: &str, message: &ChannelMessage) -> (notice: Option<
    Notification,
>)
    ensures
        option_notice(notice) == notice_for(terminal_id@, message@),
{
    match message {
        ChannelMessage::Data(data) => Some(Notification::output(terminal_id, data.as_slice())),
        ChannelMessage::Eof => Some(Notification::ended(terminal_id)),
        ChannelMessage::ExitStatus(_) => Some(Notification::ended(terminal_id)),
        ChannelMessage::Closed => Some(Notification::ended(terminal_id)),
        ChannelMessage::Other => None,
    }
}

/// A remote session: the host it talks to, the identifier it is known by,
/// and how far its setup has come.
#[derive(Debug)]
pub struct SshSession {
    id: String,
    config: SshConfig,
    phase: SetupPhase,
}

/// Mathematical model of [`SshSession`].
pub struct SshSessionView {
    pub id: Seq<char>,
    pub config: SshConfigView,
    pub phase: SetupPhase,
}

impl View for SshSession {
    type V = SshSessionView;

    closed spec fn view(&self) -> SshSessionView {
        SshSessionView { id: self.id@, config: self.config@, phase: self.phase }
    }
}

/// A setup that fails with `error`.
pub open spec fn failed(error: SshErrorView) -> (SetupPhase, SetupActionView) {
    (SetupPhase::Failed, SetupActionView::Fail(error))
}

/// The passphrase that protects the private key of a credential.
pub open spec fn passphrase_of(auth: SshAuthView) -> Option<Seq<char>> {
    match auth {
        SshAuthView::Password(_) => None,
        SshAuthView::PublicKey { passphrase, .. } => passphrase,
    }
}

/// The first round trip of a setup: establishing the transport.
pub open spec fn first_action(config: SshConfigView) -> SetupActionView {
    SetupActionView::Connect {
        host: config.host,
        port: config.port,
        settings: terminal_transport(),
    }
}

/// Where a setup goes once the key file's text went through the decoder,
/// which accepted it or did not.
pub open spec fn after_key(session: SshSessionView, accepted: bool) -> (
    SetupPhase,
    SetupActionView,
) {
    if session.phase == SetupPhase::ReadingKey {
        if accepted {
            (
                SetupPhase::PrimaryAuth,
                SetupActionView::AuthenticatePublicKey { username: session.config.username },
            )
        } else {
            failed(SshErrorView::InvalidKey)
        }
    } else if session.phase.is_terminal() {
        (session.phase, SetupActionView::Idle)
    } else {
        failed(SshErrorView::Unexpected)
    }
}

/// Where a setup goes when the server has spoken in interactive
/// authentication. A request without prompts is answered at once with no
/// answers; one with prompts goes to the responder.
pub open spec fn after_reply(session: SshSessionView, reply: InteractiveReplyView) -> (
    SetupPhase,
    SetupActionView,
) {
    match reply {
        InteractiveReplyView::Success => (SetupPhase::OpeningChannel, SetupActionView::OpenChannel),
        InteractiveReplyView::Failure => failed(SshErrorView::MfaRejected),
        InteractiveReplyView::InfoRequest { name, instructions, prompts } => if prompts.len() == 0 {
            (
                SetupPhase::InteractiveAuth,
                SetupActionView::Respond { responses: Seq::<Seq<char>>::empty() },
            )
        } else {
            (
                SetupPhase::AwaitingResponse,
                SetupActionView::Prompt {
                    payload: MfaPromptPayloadView {
                        terminal_id: session.id,
                        name,
                        instructions,
                        prompts,
                    },
                    timeout_secs: 120,
                },
            )
        },
    }
}

/// The transition of a setup: the phase it enters and the round trip it asks
/// for, given the phase it is in and what the last round trip brought.
///
/// A setup that has ended stays where it is. Before that, anything the phase
/// does not expect fails the setup.
pub open spec fn transition(session: SshSessionView, event: SetupEventView) -> (
    SetupPhase,
    SetupActionView,
) {
    let username = session.config.username;
    match session.phase {
        SetupPhase::Connecting => match event {
            SetupEventView::Connected => match session.config.auth {
                SshAuthView::Password(secret) => (
                    SetupPhase::PrimaryAuth,
                    SetupActionView::AuthenticatePassword { username, password: secret },
                ),
                SshAuthView::PublicKey { private_key_path, .. } => (
                    SetupPhase::ReadingKey,
                    SetupActionView::ReadKeyFile { path: private_key_path },
                ),
            },
            SetupEventView::ConnectFailed(detail) => failed(SshErrorView::Transport(detail)),
            _ => failed(SshErrorView::Unexpected),
        },
        SetupPhase::ReadingKey => match event {
            SetupEventView::KeyFileRead(text) => after_key(
                session,
                secret_key_decodes(text, passphrase_of(session.config.auth)),
            ),
            SetupEventView::CredentialFailed(detail) => failed(SshErrorView::Credential(detail)),
            _ => failed(SshErrorView::Unexpected),
        },
        SetupPhase::PrimaryAuth => match event {
            SetupEventView::AuthAccepted => (
                SetupPhase::OpeningChannel,
                SetupActionView::OpenChannel,
            ),
            SetupEventView::AuthRejected => (
                SetupPhase::InteractiveAuth,
                SetupActionView::StartInteractive { username },
            ),
            SetupEventView::AuthFailed(detail) => failed(SshErrorView::Authentication(detail)),
            SetupEventView::CredentialFailed(detail) => failed(SshErrorView::Credential(detail)),
            _ => failed(SshErrorView::Unexpected),
        },
        SetupPhase::InteractiveAuth => match event {
            SetupEventView::Interactive(reply) => after_reply(session, reply),
            SetupEventView::InteractiveFailed(detail) => failed(SshErrorView::Mfa(detail)),
            _ => failed(SshErrorView::Unexpected),
        },
        SetupPhase::AwaitingResponse => match event {
            SetupEventView::Answered(responses) => (
                SetupPhase::InteractiveAuth,
                SetupActionView::Respond { responses },
            ),
            SetupEventView::Cancelled => failed(SshErrorView::MfaCancelled),
            SetupEventView::TimedOut => failed(SshErrorView::MfaTimeout),
            SetupEventView::InteractiveFailed(detail) => failed(SshErrorView::Mfa(detail)),
            _ => failed(SshErrorView::Unexpected),
        },
        SetupPhase::OpeningChannel => match event {
            SetupEventView::ChannelOpened => (
                SetupPhase::RequestingPty,
                SetupActionView::RequestPty {
                    term: username,
                    cols: 80,
                    rows: 24,
                    pixel_width: 0,
                    pixel_height: 0,
                },
            ),
            SetupEventView::ChannelFailed(detail) => failed(SshErrorView::Channel(detail)),
            _ => failed(SshErrorView::Unexpected),
        },
        SetupPhase::RequestingPty => match event {
            SetupEventView::PtyGranted => (
                SetupPhase::RequestingShell,
                SetupActionView::RequestShell,
            ),
            SetupEventView::ChannelFailed(detail) => failed(SshErrorView::Pty(detail)),
            _ => failed(SshErrorView::Unexpected),
        },
        SetupPhase::RequestingShell => match event {
            SetupEventView::ShellStarted => (
                SetupPhase::Established,
                SetupActionView::Attach { control_capacity: 100 },
            ),
            SetupEventView::ChannelFailed(detail) => failed(SshErrorView::Shell(detail)),
            _ => failed(SshErrorView::Unexpected),
        },
        SetupPhase::Established => (SetupPhase::Established, SetupActionView::Idle),
        SetupPhase::Failed => (SetupPhase::Failed, SetupActionView::Idle),
    }
}

/// Whether this step hands a challenge to the responder, which installs a
/// pending challenge under the session's identifier.
pub open spec fn opens_challenge(session: SshSessionView, event: SetupEventView) -> bool {
    &&& session.phase == SetupPhase::InteractiveAuth
    &&& event matches SetupEventView::Interactive(
        InteractiveReplyView::InfoRequest { prompts, .. },
    )
    &&& prompts.len() > 0
}

/// Whether this step gives a challenge up because nobody answered in time,
/// which removes the pending challenge.
pub open spec fn expires_challenge(session: SshSessionView, event: SetupEventView) -> bool {
    session.phase == SetupPhase::AwaitingResponse && event is TimedOut
}

/// When the server turns the primary credential down and then ends
/// interactive authentication without having asked anything, by refusing or
/// by an error, the setup fails: the step after the rejection only starts
/// interactive authentication, and neither step shows a challenge or leaves
/// one pending.
pub proof fn lemma_rejection_without_challenge_fails(
    session: SshSessionView,
    server_ends: SetupEventView,
)
    requires
        session.phase == SetupPhase::PrimaryAuth,
        server_ends == SetupEventView::Interactive(InteractiveReplyView::Failure)
            || server_ends is InteractiveFailed,
    ensures
        ({
            let (asking, first) = transition(session, SetupEventView::AuthRejected);
            let asked = SshSessionView { phase: asking, ..session };
            let (last_phase, last) = transition(asked, server_ends);
            &&& first == (SetupActionView::StartInteractive { username: session.config.username })
            &&& !opens_challenge(session, SetupEventView::AuthRejected)
            &&& last_phase == SetupPhase::Failed
            &&& last is Fail
            &&& server_ends is Interactive ==> last == SetupActionView::Fail(
                SshErrorView::MfaRejected,
            )
            &&& !opens_challenge(asked, server_ends)
        }),
{
}

/// When nobody answers a challenge in time, the setup fails with a timeout
/// and the challenge is no longer pending, so that an answer submitted later
/// finds none.
pub proof fn lemma_timeout_fails_and_forgets<S>(session: SshSessionView, pending: Map<Seq<char>, S>)
    requires
        session.phase == SetupPhase::AwaitingResponse,
    ensures
        transition(session, SetupEventView::TimedOut) == failed(SshErrorView::MfaTimeout),
        expires_challenge(session, SetupEventView::TimedOut),
        !pending.remove(session.id).contains_key(session.id),
{
}

/// A key that cannot be read or decoded ends the setup with an error of the
/// authentication phase: no authentication is asked for, no challenge is
/// shown, and the pending challenges stay as they are.
pub proof fn lemma_unusable_key_fails(session: SshSessionView, event: SetupEventView)
    requires
        session.phase == SetupPhase::ReadingKey,
        event is CredentialFailed || (event matches SetupEventView::KeyFileRead(text)
            && !secret_key_decodes(text, passphrase_of(session.config.auth))),
    ensures
        transition(session, event).0 == SetupPhase::Failed,
        transition(session, event).1 matches SetupActionView::Fail(error) && error.phase()
            == "Authentication error: "@,
        !opens_challenge(session, event),
        !expires_challenge(session, event),
{
}

/// A setup reports an error only as it fails, and attaches a worker only as
/// it becomes established: no session is left half set up.
pub proof fn lemma_setup_ends_whole(session: SshSessionView, event: SetupEventView)
    ensures
        transition(session, event).1 is Fail ==> transition(session, event).0
            == SetupPhase::Failed,
        transition(session, event).1 is Attach ==> transition(session, event).0
            == SetupPhase::Established,
        transition(session, event).0 == SetupPhase::Established && session.phase
            != SetupPhase::Established ==> transition(session, event).1 is Attach,
{
}

/// A setup that has ended stays in its phase and asks for nothing more.
pub proof fn lemma_ended_setup_stays(session: SshSessionView, event: SetupEventView)
    requires
        session.phase.is_terminal(),
    ensures
        transition(session, event) == (session.phase, SetupActionView::Idle),
        !opens_challenge(session, event),
        !expires_challenge(session, event),
{
}

impl SshSession {
    /// Begins the setup of a session to the host of `config`, known as
    /// `terminal_id`, and asks for its first round trip.
    pub fn new(config: SshConfig, terminal_id: String) -> (begun: (Self, SetupAction))
        ensures
            begun.0@ == (SshSessionView {
                id: terminal_id@,
                config: config@,
                phase: SetupPhase::Connecting,
            }),
            begun.1@ == first_action(config@),
    {
        let action = SetupAction::Connect {
            host: config.host.clone(),
            port: config.port,
            settings: TransportSettings::for_terminal(),
        };
        (SshSession { id: terminal_id, config, phase: SetupPhase::Connecting }, action)
    }

    /// The identifier the session is known by.
    pub fn id(&self) -> (id: &str)
        ensures
            id@ == self@.id,
    {
        self.id.as_str()
    }

    /// Where the setup stands.
    pub fn phase(&self) -> (phase: SetupPhase)
        ensures
            phase == self@.phase,
    {
        self.phase
    }

    /// Whether the session is up.
    pub fn is_established(&self) -> (up: bool)
        ensures
            up == (self@.phase == SetupPhase::Established),
    {
        match self.phase {
            SetupPhase::Established => true,
            _ => false,
        }
    }

    fn fail(&mut self, error: SshError) -> (action: SetupAction)
        ensures
            final(self)@ == (SshSessionView { phase: SetupPhase::Failed, ..old(self)@ }),
            action == SetupAction::Fail(error),
    {
        self.phase = SetupPhase::Failed;
        SetupAction::Fail(error)
    }

    fn enter(&mut self, phase: SetupPhase, action: SetupAction) -> (same: SetupAction)
        ensures
            final(self)@ == (SshSessionView { phase, ..old(self)@ }),
            same == action,
    {
        self.phase = phase;
        action
    }

    fn unexpected(&mut self) -> (action: SetupAction)
        ensures
            final(self)@ == (SshSessionView {
                phase: if old(self)@.phase.is_terminal() {
                    old(self)@.phase
                } else {
                    SetupPhase::Failed
                },
                ..old(self)@
            }),
            action@ == if old(self)@.phase.is_terminal() {
                SetupActionView::Idle
            } else {
                SetupActionView::Fail(SshErrorView::Unexpected)
            },
    {
        match self.phase {
            SetupPhase::Established => SetupAction::Idle,
            SetupPhase::Failed => SetupAction::Idle,
            _ => self.fail(SshError::Unexpected),
        }
    }

    /// Continues the setup once the text of the key file went through the
    /// decoder: with a key, the key is offered to the server; without one,
    /// the setup fails.
    pub fn key_decoded(&mut self, decoded: Result<PrivateKey, russh::keys::Error>) -> (action:
        SetupAction)
        ensures
            final(self)@.id == old(self)@.id,
            final(self)@.config == old(self)@.config,
            (final(self)@.phase, action@) == after_key(old(self)@, decoded is Ok),
            old(self)@.phase == SetupPhase::ReadingKey ==> match decoded {
                Ok(key) => action matches SetupAction::AuthenticatePublicKey { key: offered, .. }
                    && offered == key,
                Err(error) => action matches SetupAction::Fail(SshError::InvalidKey(reported))
                    && reported == error,
            },
    {
        match self.phase {
            SetupPhase::ReadingKey => match decoded {
                Ok(key) => {
                    let action = SetupAction::AuthenticatePublicKey {
                        username: self.config.username.clone(),
                        key,
                    };
                    self.enter(SetupPhase::PrimaryAuth, action)
                },
                Err(error) => self.fail(SshError::InvalidKey(error)),
            },
            _ => self.unexpected(),
        }
    }

    /// Continues interactive authentication once the server has spoken.
    fn server_replied(&mut self, reply: InteractiveReply, mfa_channels: &mut MfaResponseMap) -> (action:
        SetupAction)
        requires
            old(self)@.phase == SetupPhase::InteractiveAuth,
        ensures
            final(self)@.id == old(self)@.id,
            final(self)@.config == old(self)@.config,
            (final(self)@.phase, action@) == after_reply(old(self)@, reply@),
            if reply@ matches InteractiveReplyView::InfoRequest { prompts, .. } && prompts.len()
                > 0 {
                &&& final(mfa_channels)@.contains_key(old(self)@.id)
                &&& final(mfa_channels)@.remove(old(self)@.id) == old(mfa_channels)@.remove(
                    old(self)@.id,
                )
            } else {
                final(mfa_channels)@ == old(mfa_channels)@
            },
    {
        match reply {
            InteractiveReply::Success => self.enter(
                SetupPhase::OpeningChannel,
                SetupAction::OpenChannel,
            ),
            InteractiveReply::Failure => self.fail(SshError::MfaRejected),
            InteractiveReply::InfoRequest { name, instructions, prompts } => {
                if prompts.len() == 0 {
                    let responses: Vec<String> = Vec::new();
                    assert(text_views(responses@) =~= Seq::<Seq<char>>::empty());
                    self.enter(SetupPhase::InteractiveAuth, SetupAction::Respond { responses })
                } else {
                    let answer = mfa_channels.open_challenge(self.id.as_str());
                    let payload = MfaPromptPayload {
                        terminal_id: self.id.clone(),
                        name,
                        instructions,
                        prompts,
                    };
                    self.enter(
                        SetupPhase::AwaitingResponse,
                        SetupAction::Prompt { payload, answer, timeout_secs: MFA_TIMEOUT_SECS },
                    )
                }
            },
        }
    }

    /// The control command that writes `data` to the session. The caller
    /// queues it for the session's worker and returns once it is queued.
    pub fn write(&self, data: &[u8]) -> (command: SshControl)
        ensures
            command@ == SshControlView::Write(data@),
    {
        SshControl::Write(slice_to_vec(data))
    }

    /// The control command that resizes the session's terminal.
    pub fn resize(&self, rows: u16, cols: u16) -> (command: SshControl)
        ensures
            command@ == (SshControlView::Resize { rows, cols }),
    {
        SshControl::Resize { rows, cols }
    }

    /// Moves the setup on by what the last round trip brought, and asks for
    /// the next one.
    ///
    /// `mfa_channels` holds the challenges that wait for an answer. The step
    /// touches it in two cases only: handing a challenge to the responder
    /// installs one under the session's identifier, and a challenge that
    /// timed out is removed.
    pub fn step(&mut self, event: SetupEvent, mfa_channels: &mut MfaResponseMap) -> (action:
        SetupAction)
        ensures
            final(self)@.id == old(self)@.id,
            final(self)@.config == old(self)@.config,
            (final(self)@.phase, action@) == transition(old(self)@, event@),
            opens_challenge(old(self)@, event@) ==> {
                &&& final(mfa_channels)@.contains_key(old(self)@.id)
                &&& final(mfa_channels)@.remove(old(self)@.id) == old(mfa_channels)@.remove(
                    old(self)@.id,
                )
            },
            expires_challenge(old(self)@, event@) ==> final(mfa_channels)@ == old(
                mfa_channels,
            )@.remove(old(self)@.id),
            !opens_challenge(old(self)@, event@) && !expires_challenge(old(self)@, event@)
                ==> final(mfa_channels)@ == old(mfa_channels)@,
    {
        match self.phase {
            SetupPhase::Connecting => match event {
                SetupEvent::Connected => {
                    let username = self.config.username.clone();
                    match &self.config.auth {
                        SshAuth::Password(secret) => {
                            let action = SetupAction::AuthenticatePassword {
                                username,
                                password: secret.clone(),
                            };
                            self.enter(SetupPhase::PrimaryAuth, action)
                        },
                        SshAuth::PublicKey { private_key_path, .. } => {
                            let action = SetupAction::ReadKeyFile { path: private_key_path.clone() };
                            self.enter(SetupPhase::ReadingKey, action)
                        },
                    }
                },
                SetupEvent::ConnectFailed(detail) => self.fail(SshError::Transport(detail)),
                _ => self.unexpected(),
            },
            SetupPhase::ReadingKey => match event {
                SetupEvent::KeyFileRead(text) => {
                    let decoded = match &self.config.auth {
                        SshAuth::Password(_) => decode_secret_key(text.as_str(), None),
                        SshAuth::PublicKey { passphrase, .. } => match passphrase {
                            Some(secret) => decode_secret_key(text.as_str(), Some(secret.as_str())),
                            None => decode_secret_key(text.as_str(), None),
                        },
                    };
                    self.key_decoded(decoded)
                },
                SetupEvent::CredentialFailed(detail) => self.fail(SshError::Credential(detail)),
                _ => self.unexpected(),
            },
            SetupPhase::PrimaryAuth => match event {
                SetupEvent::AuthAccepted => self.enter(
                    SetupPhase::OpeningChannel,
                    SetupAction::OpenChannel,
                ),
                SetupEvent::AuthRejected => {
                    let action = SetupAction::StartInteractive {
                        username: self.config.username.clone(),
                    };
                    self.enter(SetupPhase::InteractiveAuth, action)
                },
                SetupEvent::AuthFailed(detail) => self.fail(SshError::Authentication(detail)),
                SetupEvent::CredentialFailed(detail) => self.fail(SshError::Credential(detail)),
                _ => self.unexpected(),
            },
            SetupPhase::InteractiveAuth => match event {
                SetupEvent::Interactive(reply) => self.server_replied(reply, mfa_channels),
                SetupEvent::InteractiveFailed(detail) => self.fail(SshError::Mfa(detail)),
                _ => self.unexpected(),
            },
            SetupPhase::AwaitingResponse => match event {
                SetupEvent::Answered(responses) => self.enter(
                    SetupPhase::InteractiveAuth,
                    SetupAction::Respond { responses },
                ),
                SetupEvent::Cancelled => self.fail(SshError::MfaCancelled),
                SetupEvent::TimedOut => {
                    let _ = mfa_channels.discard(self.id.as_str());
                    self.fail(SshError::MfaTimeout)
                },
                SetupEvent::InteractiveFailed(detail) => self.fail(SshError::Mfa(detail)),
                _ => self.unexpected(),
            },
            SetupPhase::OpeningChannel => match event {
                SetupEvent::ChannelOpened => {
                    let action = SetupAction::RequestPty {
                        term: self.config.username.clone(),
                        cols: DEFAULT_COLS,
                        rows: DEFAULT_ROWS,
                        pixel_width: 0,
                        pixel_height: 0,
                    };
                    self.enter(SetupPhase::RequestingPty, action)
                },
                SetupEvent::ChannelFailed(detail) => self.fail(SshError::Channel(detail)),
                _ => self.unexpected(),
            },
            SetupPhase::RequestingPty => match event {
                SetupEvent::PtyGranted => self.enter(
                    SetupPhase::RequestingShell,
                    SetupAction::RequestShell,
                ),
                SetupEvent::ChannelFailed(detail) => self.fail(SshError::Pty(detail)),
                _ => self.unexpected(),
            },
            SetupPhase::RequestingShell => match event {
                SetupEvent::ShellStarted => self.enter(
                    SetupPhase::Established,
                    SetupAction::Attach { control_capacity: CONTROL_QUEUE_CAPACITY },
                ),
                SetupEvent::ChannelFailed(detail) => self.fail(SshError::Shell(detail)),
                _ => self.unexpected(),
            },
            SetupPhase::Established => self.unexpected(),
            SetupPhase::Failed => self.unexpected(),
        }
    }
}

} // verus!
