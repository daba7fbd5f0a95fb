//! What passes between a session and the shell that runs it: the messages
//! to show, the outside work to do next, and what that work came to.

use crate::error::VaultError;
use crate::vault::{SealedVault, VaultView};
use vstd::prelude::*;
use vstd::string::*;

verus! {

/// How a message is meant, so that a shell can style it.
#[derive(Clone, Copy, Debug, PartialEq, Eq, Structural)]
pub enum MessageKind {
    Plain,
    Success,
    Error,
}

/// One line for the user.
#[derive(Debug)]
pub struct Message {
    pub kind: MessageKind,
    pub text: String,
}

/// What a message holds.
pub struct MessageView {
    pub kind: MessageKind,
    pub text: Seq<char>,
}

impl View for Message {
    type V = MessageView;

    open spec fn view(&self) -> MessageView {
        MessageView { kind: self.kind, text: self.text@ }
    }
}

/// The views of a sequence of messages, in order.
pub open spec fn message_views(messages: Seq<Message>) -> Seq<MessageView> {
    messages.map_values(|m: Message| m@)
}

/// A plain message.
pub open spec fn plain(text: Seq<char>) -> MessageView {
    MessageView { kind: MessageKind::Plain, text }
}

/// A message of success.
pub open spec fn success(text: Seq<char>) -> MessageView {
    MessageView { kind: MessageKind::Success, text }
}

/// The message for a failure with the given details.
pub open spec fn failure(details: Seq<char>) -> MessageView {
    MessageView { kind: MessageKind::Error, text: "Error: "@ + details }
}

/// The message for a failure of the given kind.
pub open spec fn failure_of(error: VaultError) -> MessageView {
    failure(error.message_text())
}

impl Message {
    /// A plain message with the given text.
    pub fn plain(text: String) -> (message: Message)
        ensures
            message@ == plain(text@),
    {
        Message { kind: MessageKind::Plain, text }
    }

    /// A plain message that holds `label` followed by `text`.
    pub fn labelled(label: &str, text: &String) -> (message: Message)
        ensures
            message@ == plain(label@ + text@),
    {
        let mut line = String::from_str(label);
        line.append(text.as_str());
        Message { kind: MessageKind::Plain, text: line }
    }

    /// A message of success with the given text.
    pub fn success(text: &str) -> (message: Message)
        ensures
            message@ == success(text@),
    {
        Message { kind: MessageKind::Success, text: String::from_str(text) }
    }

    /// The message for a failure with the given details.
    pub fn failure(details: &String) -> (message: Message)
        ensures
            message@ == failure(details@),
    {
        let mut line = String::from_str("Error: ");
        line.append(details.as_str());
        Message { kind: MessageKind::Error, text: line }
    }

    /// The message for a failure of the given kind.
    pub fn failure_of(error: VaultError) -> (message: Message)
        ensures
            message@ == failure_of(error),
    {
        let details = error.message();
        Message::failure(&details)
    }
}

/// The outside work that the shell does next.
pub enum Effect {
    /// Show `prompt` and read one line; answer with `Event::Line`, or with
    /// `Event::EndOfInput` where no line is left.
    ReadLine { prompt: String },
    /// Ask for a secret named by `label` without echoing it; answer with
    /// `Event::Secret`.
    ReadSecret { label: String },
    /// Read what storage holds at `path`; answer with `Event::Loaded`, or
    /// with `Event::Failed` where it cannot be read.
    Load { path: String },
    /// Write `sealed` to storage at `path`, whole or not at all; answer with
    /// `Event::Stored`, or with `Event::Failed` where it cannot be written.
    Store { path: String, sealed: SealedVault },
    /// Nothing more: the session is over.
    Stop,
}

/// What an effect holds.
pub enum EffectView {
    ReadLine { prompt: Seq<char> },
    ReadSecret { label: Seq<char> },
    Load { path: Seq<char> },
    Store { path: Seq<char>, sealed: VaultView },
    Stop,
}

impl View for Effect {
    type V = EffectView;

    open spec fn view(&self) -> EffectView {
        match *self {
            Effect::ReadLine { prompt } => EffectView::ReadLine { prompt: prompt@ },
            Effect::ReadSecret { label } => EffectView::ReadSecret { label: label@ },
            Effect::Load { path } => EffectView::Load { path: path@ },
            Effect::Store { path, sealed } => EffectView::Store { path: path@, sealed: sealed@ },
            Effect::Stop => EffectView::Stop,
        }
    }
}

/// What the outside work came to.
pub enum Event {
    /// A line was read; it comes without its line ending.
    Line(String),
    /// No line is left to read.
    EndOfInput,
    /// The secret that was asked for.
    Secret(String),
    /// What storage holds: nothing yet, or a sealed vault.
    Loaded(Option<SealedVault>),
    /// The vault was written.
    Stored,
    /// Storage could not be read or written; the text says why.
    Failed(String),
}

/// The messages to show, then the outside work to do.
pub struct Reaction {
    pub messages: Vec<Message>,
    pub effect: Effect,
}

/// What a reaction holds.
pub struct ReactionView {
    pub messages: Seq<MessageView>,
    pub effect: EffectView,
}

impl View for Reaction {
    type V = ReactionView;

    open spec fn view(&self) -> ReactionView {
        ReactionView { messages: message_views(self.messages@), effect: self.effect@ }
    }
}

} // verus!
