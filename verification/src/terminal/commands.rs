//! The commands on local sessions: create, write, resize and close.
//!
//! Each command decides on the registry it is given and hands back what is
//! left to do on the pseudo-terminal. The caller holds the lock on the
//! registry only for the call.

use crate::registry::SessionRegistry;
use crate::terminal::pty_manager::{
    env_views, launch_of, PtyConfig, PtyGeometry, ShellLaunch, ShellLaunchView,
};
use crate::text::join;
use vstd::prelude::*;
use vstd::utf8::encode_utf8;

verus! {

/// The model of an optional launch.
pub open spec fn option_launch(plan: Option<ShellLaunch>) -> Option<ShellLaunchView> {
    match plan {
        Some(p) => Some(p@),
        None => None,
    }
}

/// Decides what creating a local session for `config` comes to: nothing
/// where its identifier is registered, and otherwise the launch of its shell.
/// Either way the command succeeds; a second shell is never started for an
/// identifier that has one.
pub fn create_terminal<H>(
    config: &PtyConfig,
    environment: &Vec<(String, String)>,
    sessions: &SessionRegistry<H>,
) -> (plan: Option<ShellLaunch>)
    ensures
        option_launch(plan) == if sessions@.contains_key(config@.id) {
            None
        } else {
            Some(launch_of(config@, env_views(environment@)))
        },
{
    if sessions.contains(config.id.as_str()) {
        None
    } else {
        Some(config.launch(environment))
    }
}

/// What the caller of "create" is told when the shell could not be started.
pub fn creation_failure(detail: &str) -> (text: String)
    ensures
        text@ == "Failed to create terminal: "@ + detail@,
{
    join("Failed to create terminal: ", detail)
}

/// Looks the session up and hands back its handle with the bytes to write to
/// it. An identifier that is not registered is passed over in silence.
pub fn write_to_terminal<'a, 'b, H>(
    id: &str,
    data: &'b str,
    sessions: &'a SessionRegistry<H>,
) -> (found: Option<(&'a H, &'b [u8])>)
    ensures
        match found {
            Some((handle, bytes)) => {
                &&& sessions@.contains_key(id@)
                &&& *handle == sessions@[id@]
                &&& bytes@ == encode_utf8(data@)
            },
            None => !sessions@.contains_key(id@),
        },
{
    match sessions.lookup(id) {
        Some(handle) => Some((handle, data.as_bytes())),
        None => None,
    }
}

/// What the caller of "write" is told when the write failed.
pub fn write_failure(detail: &str) -> (text: String)
    ensures
        text@ == "Write failed: "@ + detail@,
{
    join("Write failed: ", detail)
}

/// Looks the session up and hands back its handle with the size to give its
/// pseudo-terminal. An identifier that is not registered is passed over in
/// silence.
pub fn resize_terminal<'a, H>(id: &str, rows: u16, cols: u16, sessions: &'a SessionRegistry<H>) -> (found:
    Option<(&'a H, PtyGeometry)>)
    ensures
        match found {
            Some((handle, size)) => {
                &&& sessions@.contains_key(id@)
                &&& *handle == sessions@[id@]
                &&& size == (PtyGeometry { rows, cols, pixel_width: 0, pixel_height: 0 })
            },
            None => !sessions@.contains_key(id@),
        },
{
    match sessions.lookup(id) {
        Some(handle) => Some((handle, PtyGeometry::cells(rows, cols))),
        None => None,
    }
}

/// What the caller of "resize" is told when the resize failed.
pub fn resize_failure(detail: &str) -> (text: String)
    ensures
        text@ == "Resize failed: "@ + detail@,
{
    join("Resize failed: ", detail)
}

/// Unregisters the session at once and hands its handle to the caller;
/// dropping the handle ends the shell.
pub fn close_terminal<H>(id: &str, sessions: &mut SessionRegistry<H>) -> (closed: Option<H>)
    ensures
        final(sessions)@ == old(sessions)@.remove(id@),
        closed == if old(sessions)@.contains_key(id@) {
            Some(old(sessions)@[id@])
        } else {
            None
        },
{
    sessions.remove(id)
}

/// A registry of local sessions without sessions.
pub fn create_session_map<H>() -> (sessions: SessionRegistry<H>)
    ensures
        sessions@ == Map::<Seq<char>, H>::empty(),
{
    SessionRegistry::new()
}

} // verus!
