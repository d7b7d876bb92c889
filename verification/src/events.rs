//! The notifications a session sends to its consumer: output, in the order
//! in which it was read, and one final notice when the session has ended.

use crate::text::{decode, decoded_text, join};
use vstd::prelude::*;

verus! {

/// The name under which output of session `terminal_id` is published.
pub open spec fn spec_output_event(terminal_id: Seq<char>) -> Seq<char> {
    "terminal-output-"@ + terminal_id
}

/// The name under which the end of session `terminal_id` is published.
pub open spec fn spec_exit_event(terminal_id: Seq<char>) -> Seq<char> {
    "terminal-exit-"@ + terminal_id
}

/// The name under which output of session `terminal_id` is published.
pub fn output_event(terminal_id: &str) -> (name: String)
    ensures
        name@ == spec_output_event(terminal_id@),
{
    join("terminal-output-", terminal_id)
}

/// The name under which the end of session `terminal_id` is published.
pub fn exit_event(terminal_id: &str) -> (name: String)
    ensures
        name@ == spec_exit_event(terminal_id@),
{
    join("terminal-exit-", terminal_id)
}

/// What a session's worker publishes after one read.
#[derive(Debug)]
pub enum Notification {
    /// A chunk of output, decoded as text.
    Output { event: String, text: String },
    /// The session is over; the worker stops after publishing this.
    Ended { event: String },
}

/// Mathematical model of [`Notification`].
pub enum NotificationView {
    Output { event: Seq<char>, text: Seq<char> },
    Ended { event: Seq<char> },
}

impl View for Notification {
    type V = NotificationView;

    open spec fn view(&self) -> NotificationView {
        match *self {
            Notification::Output { event, text } => NotificationView::Output {
                event: event@,
                text: text@,
            },
            Notification::Ended { event } => NotificationView::Ended { event: event@ },
        }
    }
}

/// The notice that publishes `bytes` as output of session `terminal_id`.
pub open spec fn output_of(terminal_id: Seq<char>, bytes: Seq<u8>) -> NotificationView {
    NotificationView::Output { event: spec_output_event(terminal_id), text: decoded_text(bytes) }
}

/// The notice that session `terminal_id` has ended.
pub open spec fn ended(terminal_id: Seq<char>) -> NotificationView {
    NotificationView::Ended { event: spec_exit_event(terminal_id) }
}

impl Notification {
    /// Publishes `bytes` as output of session `terminal_id`. Bytes that are
    /// not valid UTF-8 are replaced, never refused.
    pub fn output(terminal_id: &str, bytes: &[u8]) -> (notice: Self)
        ensures
            notice@ == output_of(terminal_id@, bytes@),
    {
        Notification::Output { event: output_event(terminal_id), text: decode(bytes) }
    }

    /// Announces that session `terminal_id` has ended.
    pub fn ended(terminal_id: &str) -> (notice: Self)
        ensures
            notice@ == ended(terminal_id@),
    {
        Notification::Ended { event: exit_event(terminal_id) }
    }

    /// Whether the worker stops after this notice.
    pub fn is_final(&self) -> (last: bool)
        ensures
            last == (self@ is Ended),
    {
        match self {
            Notification::Output { .. } => false,
            Notification::Ended { .. } => true,
        }
    }
}

} // verus!
