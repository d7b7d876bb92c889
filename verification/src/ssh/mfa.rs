//! Multi-factor authentication: the prompts a server sends during
//! keyboard-interactive authentication, and the challenges that wait for the
//! user's answer.

use crate::registry::SessionRegistry;
use crate::text::join;
use tokio::sync::oneshot::{Receiver, Sender};
use vstd::prelude::*;

verus! {

/// The sending end of `tokio::sync::oneshot`: resolves one waiting receiver,
/// once. Nothing of its inside is known here.
#[verifier::external_type_specification]
#[verifier::external_body]
#[verifier::reject_recursive_types(T)]
pub struct ExOneshotSender<T>(Sender<T>);

/// The receiving end of `tokio::sync::oneshot`. Nothing of its inside is known
/// here.
#[verifier::external_type_specification]
#[verifier::external_body]
#[verifier::reject_recursive_types(T)]
pub struct ExOneshotReceiver<T>(Receiver<T>);

/// What the receiving end of `tokio::sync::oneshot` yields when its sender
/// was dropped unresolved. Declared because the receiver's type mentions it.
#[verifier::external_type_specification]
#[verifier::external_body]
pub struct ExOneshotRecvError(tokio::sync::oneshot::error::RecvError);

/// A fresh single-use slot, from `tokio::sync::oneshot::channel`. Nothing is
/// claimed of the two ends.
#[verifier::external_body]
fn new_slot() -> (ends: (Sender<Vec<String>>, Receiver<Vec<String>>)) {
    tokio::sync::oneshot::channel()
}

/// Resolves a slot through `tokio::sync::oneshot::Sender::send`. Whether the
/// answers arrive depends on the receiver still being there; where they do
/// not, tokio hands the value it was given back.
#[verifier::external_body]
fn resolve_slot(slot: Sender<Vec<String>>, responses: Vec<String>) -> (outcome: Result<
    (),
    Vec<String>,
>)
    ensures
        outcome matches Err(back) ==> back == responses,
{
    slot.send(responses)
}

/// One prompt of a challenge. `echo` is false where the answer is sensitive
/// and must not be displayed as it is typed.
#[derive(Debug)]
pub struct MfaPrompt {
    pub prompt: String,
    pub echo: bool,
}

/// Mathematical model of [`MfaPrompt`].
pub struct MfaPromptView {
    pub prompt: Seq<char>,
    pub echo: bool,
}

impl View for MfaPrompt {
    type V = MfaPromptView;

    open spec fn view(&self) -> MfaPromptView {
        MfaPromptView { prompt: self.prompt@, echo: self.echo }
    }
}

impl Clone for MfaPrompt {
    fn clone(&self) -> (copy: Self)
        ensures
            copy@ == self@,
    {
        MfaPrompt { prompt: self.prompt.clone(), echo: self.echo }
    }
}

/// The models of a list of prompts, in order.
pub open spec fn prompt_views(prompts: Seq<MfaPrompt>) -> Seq<MfaPromptView> {
    Seq::new(prompts.len(), |i: int| prompts[i]@)
}

/// The characters of each string of a list, in order.
pub open spec fn text_views(texts: Seq<String>) -> Seq<Seq<char>> {
    Seq::new(texts.len(), |i: int| texts[i]@)
}

/// What the responder is shown when a challenge arrives.
#[derive(Debug)]
pub struct MfaPromptPayload {
    pub terminal_id: String,
    pub name: String,
    pub instructions: String,
    pub prompts: Vec<MfaPrompt>,
}

/// Mathematical model of [`MfaPromptPayload`].
pub struct MfaPromptPayloadView {
    pub terminal_id: Seq<char>,
    pub name: Seq<char>,
    pub instructions: Seq<char>,
    pub prompts: Seq<MfaPromptView>,
}

impl View for MfaPromptPayload {
    type V = MfaPromptPayloadView;

    open spec fn view(&self) -> MfaPromptPayloadView {
        MfaPromptPayloadView {
            terminal_id: self.terminal_id@,
            name: self.name@,
            instructions: self.instructions@,
            prompts: prompt_views(self.prompts@),
        }
    }
}

/// The responder's answers to one challenge, in the order of its prompts.
#[derive(Debug)]
pub struct MfaResponse {
    pub terminal_id: String,
    pub responses: Vec<String>,
}

/// Mathematical model of [`MfaResponse`].
pub struct MfaResponseView {
    pub terminal_id: Seq<char>,
    pub responses: Seq<Seq<char>>,
}

impl View for MfaResponse {
    type V = MfaResponseView;

    open spec fn view(&self) -> MfaResponseView {
        MfaResponseView {
            terminal_id: self.terminal_id@,
            responses: text_views(self.responses@),
        }
    }
}

/// The name of the notification that carries a challenge to the responder.
pub const MFA_PROMPT_EVENT: &'static str = "ssh-mfa-prompt";

/// How long a challenge waits for its answer, in seconds.
pub const MFA_TIMEOUT_SECS: u64 = 120;

/// Why an answer could not be handed to a challenge.
#[derive(Debug, Clone, Copy, PartialEq, Eq, Structural)]
pub enum MfaError {
    /// No challenge is waiting under the terminal identifier.
    NoPendingChallenge,
    /// The challenge was waiting, but the side that asked had given up.
    ChannelClosed,
}

impl MfaError {
    /// The text reported to the caller.
    pub open spec fn spec_message(self, terminal_id: Seq<char>) -> Seq<char> {
        match self {
            MfaError::NoPendingChallenge => "No pending MFA request for terminal: "@ + terminal_id,
            MfaError::ChannelClosed => "Failed to send MFA response: channel closed"@,
        }
    }

    /// The text reported to the caller.
    pub fn message(&self, terminal_id: &str) -> (text: String)
        ensures
            text@ == self.spec_message(terminal_id@),
    {
        match self {
            MfaError::NoPendingChallenge => join(
                "No pending MFA request for terminal: ",
                terminal_id,
            ),
            MfaError::ChannelClosed => "Failed to send MFA response: channel closed".to_owned(),
        }
    }
}

/// What submitting answers returns once the slot has been resolved: the
/// answers were taken, or the waiting side had already gone.
pub fn delivery_outcome(sent: Result<(), Vec<String>>) -> (outcome: Result<(), MfaError>)
    ensures
        outcome == match sent {
            Ok(_) => Ok::<(), MfaError>(()),
            Err(_) => Err(MfaError::ChannelClosed),
        },
{
    match sent {
        Ok(_) => Ok(()),
        Err(_) => Err(MfaError::ChannelClosed),
    }
}

/// The challenges that wait for an answer, at most one per terminal
/// identifier.
pub struct MfaResponseMap {
    slots: SessionRegistry<Sender<Vec<String>>>,
}

impl View for MfaResponseMap {
    type V = Map<Seq<char>, Sender<Vec<String>>>;

    closed spec fn view(&self) -> Map<Seq<char>, Sender<Vec<String>>> {
        self.slots@
    }
}

impl MfaResponseMap {
    /// No challenge waits.
    pub fn new() -> (pending: Self)
        ensures
            pending@ == Map::<Seq<char>, Sender<Vec<String>>>::empty(),
    {
        MfaResponseMap { slots: SessionRegistry::new() }
    }

    /// Whether a challenge waits under `terminal_id`.
    pub fn is_pending(&self, terminal_id: &str) -> (pending: bool)
        ensures
            pending == self@.contains_key(terminal_id@),
    {
        self.slots.contains(terminal_id)
    }

    /// Installs a fresh slot under `terminal_id` and returns the end on which
    /// its answer will arrive. A slot left over under the same identifier is
    /// dropped, so that the side waiting on it sees a cancellation; no other
    /// challenge is touched.
    pub fn open_challenge(&mut self, terminal_id: &str) -> (receiver: Receiver<Vec<String>>)
        ensures
            final(self)@.contains_key(terminal_id@),
            final(self)@.remove(terminal_id@) == old(self)@.remove(terminal_id@),
    {
        let (sender, receiver) = new_slot();
        let _ = self.slots.replace(terminal_id.to_owned(), sender);
        assert(self@.remove(terminal_id@) =~= old(self)@.remove(terminal_id@));
        receiver
    }

    /// Resolves the challenge that waits under `terminal_id` with `responses`
    /// and forgets it. Fails with `NoPendingChallenge`, changing nothing,
    /// exactly when none waits there; a challenge whose waiting side has gone
    /// is forgotten too and reported as `ChannelClosed`.
    pub fn submit_response(&mut self, terminal_id: &str, responses: Vec<String>) -> (outcome:
        Result<(), MfaError>)
        ensures
            final(self)@ == old(self)@.remove(terminal_id@),
            !old(self)@.contains_key(terminal_id@) ==> final(self)@ == old(self)@,
            outcome == Err::<(), MfaError>(MfaError::NoPendingChallenge) <==> !old(
                self,
            )@.contains_key(terminal_id@),
            outcome is Ok || outcome == Err::<(), MfaError>(MfaError::NoPendingChallenge)
                || outcome == Err::<(), MfaError>(MfaError::ChannelClosed),
    {
        match self.slots.remove(terminal_id) {
            Some(slot) => delivery_outcome(resolve_slot(slot, responses)),
            None => {
                assert(self@ =~= old(self)@);
                Err(MfaError::NoPendingChallenge)
            },
        }
    }

    /// Forgets the challenge that waits under `terminal_id`, if any, and says
    /// whether there was one. Its slot is dropped unresolved, which the
    /// waiting side sees as a cancellation.
    pub fn discard(&mut self, terminal_id: &str) -> (was_pending: bool)
        ensures
            final(self)@ == old(self)@.remove(terminal_id@),
            was_pending == old(self)@.contains_key(terminal_id@),
    {
        self.slots.remove(terminal_id).is_some()
    }
}

/// Submitting answers under `terminal_id` leaves every other pending
/// challenge as it was, and where nothing waits under `terminal_id` it leaves
/// all of them as they were.
pub proof fn lemma_submit_resolves_only_its_challenge(
    pending: Map<Seq<char>, Sender<Vec<String>>>,
    terminal_id: Seq<char>,
)
    ensures
        !pending.remove(terminal_id).contains_key(terminal_id),
        forall|other: Seq<char>|
            other != terminal_id ==> pending.remove(terminal_id).contains_key(other)
                == pending.contains_key(other),
        forall|other: Seq<char>|
            other != terminal_id && pending.contains_key(other) ==> pending.remove(
                terminal_id,
            )[other] == pending[other],
        !pending.contains_key(terminal_id) ==> pending.remove(terminal_id) == pending,
{
    if !pending.contains_key(terminal_id) {
        assert(pending.remove(terminal_id) =~= pending);
    }
}

} // verus!
