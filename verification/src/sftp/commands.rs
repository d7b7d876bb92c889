//! The commands on file transfer sessions: connect, the operations on remote
//! files, and disconnect.
//!
//! Each command decides on the registry it is given and hands back what is
//! left to do. The caller holds the lock on the registry only for the call.

use crate::models::Connection;
use crate::registry::SessionRegistry;
use crate::sftp::session::{
    sftp_first_action, SftpAction, SftpError, SftpPhase, SftpSessionView, SftpSessionWrapper,
};
use crate::text::{begins_with, join, lemma_begins_with_after};
use vstd::prelude::*;

verus! {

/// A registry of file transfer sessions without sessions.
pub fn create_sftp_session_map<H>() -> (sessions: SessionRegistry<H>)
    ensures
        sessions@ == Map::<Seq<char>, H>::empty(),
{
    SessionRegistry::new()
}

/// What connecting a file transfer session comes to, before any round trip.
pub enum ConnectSftp {
    /// A session is registered under the identifier: nothing is opened, and
    /// the command succeeds.
    AlreadyExists,
    /// The setup has begun and asks for its first round trip.
    Begin(SftpSessionWrapper, SftpAction),
}

/// Decides what connecting a file transfer session for `config` comes to:
/// nothing where its identifier is registered, an error where the profile
/// names no remote host, and otherwise the start of a setup.
pub fn sftp_connect<H>(config: Connection, sessions: &SessionRegistry<H>) -> (decision: Result<
    ConnectSftp,
    String,
>)
    ensures
        if sessions@.contains_key(config@.id) {
            decision matches Ok(ConnectSftp::AlreadyExists)
        } else {
            match config@.ssh_config {
                Some(remote) => {
                    &&& decision matches Ok(ConnectSftp::Begin(session, action))
                    &&& session@ == (SftpSessionView {
                        id: config@.id,
                        config: remote,
                        phase: SftpPhase::Connecting,
                    })
                    &&& action@ == sftp_first_action(remote)
                },
                None => {
                    &&& decision matches Err(text)
                    &&& text@ == "SSH config is required for SFTP connection"@
                },
            }
        },
{
    if sessions.contains(config.id.as_str()) {
        return Ok(ConnectSftp::AlreadyExists);
    }
    match config.ssh_config {
        Some(remote) => {
            let (session, action) = SftpSessionWrapper::new(remote, config.id);
            Ok(ConnectSftp::Begin(session, action))
        },
        None => Err("SSH config is required for SFTP connection".to_owned()),
    }
}

/// What the caller of "connect" is told when the setup failed: that the
/// session could not be created, then the phase and the detail.
pub fn connection_failure(error: &SftpError) -> (text: String)
    ensures
        begins_with(text@, "Failed to create SFTP session: "@ + error@.phase()),
        !(error@ is InvalidKey) ==> text@ == "Failed to create SFTP session: "@
            + error@.message(),
{
    let detail = error.message();
    proof {
        lemma_begins_with_after("Failed to create SFTP session: "@, detail@, error@.phase());
    }
    join("Failed to create SFTP session: ", detail.as_str())
}

/// What is reported for an operation on a session that is not registered.
pub open spec fn sftp_session_not_found(id: Seq<char>) -> Seq<char> {
    "SFTP session "@ + id + " not found"@
}

/// The session an operation works on. An identifier that is not registered
/// is an error.
pub fn sftp_session<'a, H>(id: &str, sessions: &'a SessionRegistry<H>) -> (found: Result<
    &'a H,
    String,
>)
    ensures
        match found {
            Ok(handle) => sessions@.contains_key(id@) && *handle == sessions@[id@],
            Err(text) => !sessions@.contains_key(id@) && text@ == sftp_session_not_found(id@),
        },
{
    match sessions.lookup(id) {
        Some(handle) => Ok(handle),
        None => {
            let head = join("SFTP session ", id);
            Err(join(head.as_str(), " not found"))
        },
    }
}

/// One step of an operation on remote files: what can fail on its own.
#[derive(Debug, Clone, Copy, PartialEq, Eq, Structural)]
pub enum SftpStep {
    /// Reading the entries of a remote directory.
    ListDir,
    /// Reading a remote file for a download.
    ReadRemote,
    /// Writing the downloaded bytes to the local file.
    WriteLocal,
    /// Reading the local file for an upload.
    ReadLocal,
    /// Creating or truncating the remote file for an upload.
    CreateRemote,
    /// Writing the uploaded bytes to the remote file.
    WriteRemote,
    /// Removing a remote directory.
    RemoveDir,
    /// Removing a remote file.
    RemoveFile,
    /// Creating a remote directory.
    CreateDir,
}

impl SftpStep {
    /// What goes before the detail when the step fails: the command's word,
    /// then the session's.
    pub open spec fn prefix(self) -> Seq<char> {
        match self {
            SftpStep::ListDir => "Failed to list directory: Failed to read directory: "@,
            SftpStep::ReadRemote => "Failed to read remote file: Failed to read file: "@,
            SftpStep::WriteLocal => "Failed to write local file: "@,
            SftpStep::ReadLocal => "Failed to read local file: "@,
            SftpStep::CreateRemote => "Failed to write remote file: Failed to create file: "@,
            SftpStep::WriteRemote => "Failed to write remote file: Failed to write data: "@,
            SftpStep::RemoveDir => "Failed to remove directory: Failed to remove directory: "@,
            SftpStep::RemoveFile => "Failed to remove file: Failed to remove file: "@,
            SftpStep::CreateDir => "Failed to create directory: Failed to create directory: "@,
        }
    }

    /// What the caller is told when the step failed with `detail`.
    pub fn failure(self, detail: &str) -> (text: String)
        ensures
            text@ == self.prefix() + detail@,
    {
        match self {
            SftpStep::ListDir => join(
                "Failed to list directory: Failed to read directory: ",
                detail,
            ),
            SftpStep::ReadRemote => join(
                "Failed to read remote file: Failed to read file: ",
                detail,
            ),
            SftpStep::WriteLocal => join("Failed to write local file: ", detail),
            SftpStep::ReadLocal => join("Failed to read local file: ", detail),
            SftpStep::CreateRemote => join(
                "Failed to write remote file: Failed to create file: ",
                detail,
            ),
            SftpStep::WriteRemote => join(
                "Failed to write remote file: Failed to write data: ",
                detail,
            ),
            SftpStep::RemoveDir => join(
                "Failed to remove directory: Failed to remove directory: ",
                detail,
            ),
            SftpStep::RemoveFile => join("Failed to remove file: Failed to remove file: ", detail),
            SftpStep::CreateDir => join(
                "Failed to create directory: Failed to create directory: ",
                detail,
            ),
        }
    }
}

/// Looks the session up and says which removal to ask of it: that of a
/// directory or that of a file.
pub fn sftp_remove<'a, H>(id: &str, is_dir: bool, sessions: &'a SessionRegistry<H>) -> (found:
    Result<(&'a H, SftpStep), String>)
    ensures
        match found {
            Ok((handle, step)) => {
                &&& sessions@.contains_key(id@)
                &&& *handle == sessions@[id@]
                &&& step == if is_dir {
                    SftpStep::RemoveDir
                } else {
                    SftpStep::RemoveFile
                }
            },
            Err(text) => !sessions@.contains_key(id@) && text@ == sftp_session_not_found(id@),
        },
{
    match sftp_session(id, sessions) {
        Ok(handle) => Ok(
            (
                handle,
                if is_dir {
                    SftpStep::RemoveDir
                } else {
                    SftpStep::RemoveFile
                },
            ),
        ),
        Err(text) => Err(text),
    }
}

/// Unregisters the session at once and hands its handle to the caller, who
/// drops it.
pub fn sftp_disconnect<H>(id: &str, sessions: &mut SessionRegistry<H>) -> (closed: Option<H>)
    ensures
        final(sessions)@ == old(sessions)@.remove(id@),
        closed == if old(sessions)@.contains_key(id@) {
            Some(old(sessions)@[id@])
        } else {
            None
        },
{
    sessions.remove(id)
}

} // verus!
