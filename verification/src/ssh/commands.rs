//! The commands on remote sessions: create, write, resize, close, and the two
//! that answer or withdraw a pending challenge.
//!
//! Each command decides on the registry it is given and hands back what is
//! left to do. The caller holds the lock on the registry only for the call.

use crate::models::Connection;
use crate::registry::SessionRegistry;
use crate::ssh::mfa::{MfaError, MfaResponseMap};
use crate::ssh::session::{
    first_action, SetupAction, SetupPhase, SshControl, SshControlView, SshError, SshSession,
    SshSessionView,
};
use crate::text::{begins_with, join, lemma_begins_with_after};
use tokio::sync::oneshot::Sender;
use vstd::prelude::*;
use vstd::slice::slice_to_vec;
use vstd::utf8::encode_utf8;

verus! {

/// A map of pending challenges in which none waits.
pub fn create_mfa_response_map() -> (pending: MfaResponseMap)
    ensures
        pending@ == Map::<Seq<char>, Sender<Vec<String>>>::empty(),
{
    MfaResponseMap::new()
}

/// What is reported for a profile that names no remote host.
pub open spec fn config_required() -> Seq<char> {
    "SSH config is required for SSH connection"@
}

/// What creating a remote session comes to, before any round trip.
pub enum CreateSsh {
    /// A session is registered under the identifier: nothing is opened, and
    /// the command succeeds.
    AlreadyExists,
    /// The setup has begun and asks for its first round trip.
    Begin(SshSession, SetupAction),
}

/// Decides what creating a remote session for `config` comes to: nothing
/// where its identifier is registered, an error where the profile names no
/// remote host, and otherwise the start of a setup.
pub fn create_ssh_terminal<H>(config: Connection, sessions: &SessionRegistry<H>) -> (decision:
    Result<CreateSsh, String>)
    ensures
        if sessions@.contains_key(config@.id) {
            decision matches Ok(CreateSsh::AlreadyExists)
        } else {
            match config@.ssh_config {
                Some(remote) => {
                    &&& decision matches Ok(CreateSsh::Begin(session, action))
                    &&& session@ == (SshSessionView {
                        id: config@.id,
                        config: remote,
                        phase: SetupPhase::Connecting,
                    })
                    &&& action@ == first_action(remote)
                },
                None => {
                    &&& decision matches Err(text)
                    &&& text@ == config_required()
                },
            }
        },
{
    if sessions.contains(config.id.as_str()) {
        return Ok(CreateSsh::AlreadyExists);
    }
    match config.ssh_config {
        Some(remote) => {
            let (session, action) = SshSession::new(remote, config.id);
            Ok(CreateSsh::Begin(session, action))
        },
        None => Err("SSH config is required for SSH connection".to_owned()),
    }
}

/// What the caller of "create" is told when the setup failed: that the
/// session could not be created, then the phase and the detail.
pub fn creation_failure(error: &SshError) -> (text: String)
    ensures
        begins_with(text@, "Failed to create SSH session: "@ + error@.phase()),
        !(error@ is InvalidKey) ==> text@ == "Failed to create SSH session: "@
            + error@.message(),
{
    let detail = error.message();
    proof {
        lemma_begins_with_after("Failed to create SSH session: "@, detail@, error@.phase());
    }
    join("Failed to create SSH session: ", detail.as_str())
}

/// The outcome of the connection test, which is not offered.
pub fn test_ssh_connection() -> (outcome: Result<String, String>)
    ensures
        ({
            &&& outcome matches Err(text)
            &&& text@ == "Connection test not implemented yet. Use create_ssh_terminal to test."@
        }),
{
    Err("Connection test not implemented yet. Use create_ssh_terminal to test.".to_owned())
}

/// What is reported for a write to a session that is not registered.
pub open spec fn session_not_found(id: Seq<char>) -> Seq<char> {
    "Session "@ + id + " not found"@
}

/// Looks the session up and builds the command that writes `data` to it. The
/// caller queues the command on the handle. An identifier that is not
/// registered is an error.
pub fn write_to_ssh_terminal<'a, H>(id: &str, data: &str, sessions: &'a SessionRegistry<H>) -> (queued:
    Result<(&'a H, SshControl), String>)
    ensures
        match queued {
            Ok((handle, command)) => {
                &&& sessions@.contains_key(id@)
                &&& *handle == sessions@[id@]
                &&& command@ == SshControlView::Write(encode_utf8(data@))
            },
            Err(text) => !sessions@.contains_key(id@) && text@ == session_not_found(id@),
        },
{
    match sessions.lookup(id) {
        Some(handle) => Ok((handle, SshControl::Write(slice_to_vec(data.as_bytes())))),
        None => {
            let head = join("Session ", id);
            Err(join(head.as_str(), " not found"))
        },
    }
}

/// What the caller of "write" is told when the command could not be queued.
pub fn write_failure(detail: &str) -> (text: String)
    ensures
        text@ == "Write failed: "@ + detail@,
{
    join("Write failed: ", detail)
}

/// Looks the session up and builds the command that resizes its terminal.
/// An identifier that is not registered is passed over in silence.
pub fn resize_ssh_terminal<'a, H>(
    id: &str,
    rows: u16,
    cols: u16,
    sessions: &'a SessionRegistry<H>,
) -> (queued: Option<(&'a H, SshControl)>)
    ensures
        match queued {
            Some((handle, command)) => {
                &&& sessions@.contains_key(id@)
                &&& *handle == sessions@[id@]
                &&& command@ == (SshControlView::Resize { rows, cols })
            },
            None => !sessions@.contains_key(id@),
        },
{
    match sessions.lookup(id) {
        Some(handle) => Some((handle, SshControl::Resize { rows, cols })),
        None => None,
    }
}

/// What the caller of "resize" is told when the command could not be queued.
pub fn resize_failure(detail: &str) -> (text: String)
    ensures
        text@ == "Resize failed: "@ + detail@,
{
    join("Resize failed: ", detail)
}

/// Unregisters the session at once and hands its handle to the caller, who
/// drops it; the worker winds down on its own.
pub fn close_ssh_terminal<H>(id: &str, sessions: &mut SessionRegistry<H>) -> (closed: Option<H>)
    ensures
        final(sessions)@ == old(sessions)@.remove(id@),
        closed == if old(sessions)@.contains_key(id@) {
            Some(old(sessions)@[id@])
        } else {
            None
        },
{
    sessions.remove(id)
}

/// The text of an outcome of "submit".
pub open spec fn submit_text(outcome: Result<(), MfaError>, terminal_id: Seq<char>) -> Result<
    (),
    Seq<char>,
> {
    match outcome {
        Ok(_) => Ok(()),
        Err(error) => Err(error.spec_message(terminal_id)),
    }
}

/// The characters of an error text, if there is one.
pub open spec fn error_view(outcome: Result<(), String>) -> Result<(), Seq<char>> {
    match outcome {
        Ok(_) => Ok(()),
        Err(text) => Err(text@),
    }
}

/// Hands the responder's answers to the challenge that waits under
/// `terminal_id`. The challenge is no longer pending afterwards; where none
/// was, nothing changes and the error says so.
pub fn submit_ssh_mfa_response(
    terminal_id: &str,
    responses: Vec<String>,
    mfa_channels: &mut MfaResponseMap,
) -> (outcome: Result<(), String>)
    ensures
        final(mfa_channels)@ == old(mfa_channels)@.remove(terminal_id@),
        !old(mfa_channels)@.contains_key(terminal_id@) ==> final(mfa_channels)@ == old(
            mfa_channels,
        )@ && error_view(outcome) == Err::<(), Seq<char>>(
            MfaError::NoPendingChallenge.spec_message(terminal_id@),
        ),
        old(mfa_channels)@.contains_key(terminal_id@) ==> outcome is Ok || error_view(outcome)
            == Err::<(), Seq<char>>(MfaError::ChannelClosed.spec_message(terminal_id@)),
{
    match mfa_channels.submit_response(terminal_id, responses) {
        Ok(_) => Ok(()),
        Err(error) => Err(error.message(terminal_id)),
    }
}

/// Withdraws the challenge that waits under `terminal_id`, if any. The side
/// that waits for the answer sees a cancellation.
pub fn cancel_ssh_mfa(terminal_id: &str, mfa_channels: &mut MfaResponseMap)
    ensures
        final(mfa_channels)@ == old(mfa_channels)@.remove(terminal_id@),
{
    let _ = mfa_channels.discard(terminal_id);
}

} // verus!
