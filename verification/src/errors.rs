//! Errors that can occur while interacting with an actor.

use vstd::prelude::*;

verus! {

/// Errors that can occur while sending a message.
#[derive(Debug, Clone, Copy, PartialEq, Eq, Structural)]
pub enum SendError {
    /// The actor behind the address no longer accepts messages, or it went
    /// away before it produced a response.
    ReceiverDisconnected,
    /// A response was offered for a message that was sent as a notification.
    NoResponseExpected,
}

/// Errors that can end a receive loop.
#[derive(Debug, Clone, Copy, PartialEq, Eq, Structural)]
pub enum ReceiveError {
    /// Every sending handle of a channel is gone.
    AllSendersDisconnected,
}

impl SendError {
    /// The text shown for this error.
    pub open spec fn text(self) -> Seq<char> {
        match self {
            SendError::ReceiverDisconnected => "Actor does not accepting messages"@,
            SendError::NoResponseExpected => "Message does not expect a response"@,
        }
    }

    /// Human-readable description of the error.
    pub fn message(&self) -> (text: String)
        ensures
            text@ == self.text(),
    {
        match self {
            SendError::ReceiverDisconnected => "Actor does not accepting messages".to_owned(),
            SendError::NoResponseExpected => "Message does not expect a response".to_owned(),
        }
    }
}

impl ReceiveError {
    /// The text shown for this error.
    pub open spec fn text(self) -> Seq<char> {
        "All senders are disconnected"@
    }

    /// Human-readable description of the error.
    pub fn message(&self) -> (text: String)
        ensures
            text@ == self.text(),
    {
        "All senders are disconnected".to_owned()
    }
}

} // verus!
