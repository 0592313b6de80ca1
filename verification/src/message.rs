//! A message together with the way, if any, to answer it.

use futures::channel::oneshot::{channel, Receiver, Sender};
use vstd::prelude::*;

use crate::errors::SendError;
use crate::response::acknowledged;

verus! {

/// A message that is either a request, which carries the sending half of a
/// one-shot channel for its response, or a notification, which carries none.
#[verifier::reject_recursive_types(Output)]
pub struct Message<Input, Output> {
    message: Input,
    respond_channel: Option<Sender<Output>>,
}

impl<Input, Output> Message<Input, Output> {
    /// The payload carried by this message.
    pub closed spec fn payload(&self) -> Input {
        self.message
    }

    /// Whether a response is expected for this message.
    pub closed spec fn expects_response(&self) -> bool {
        self.respond_channel is Some
    }

    /// Wraps `message` as a request. The second component is the receiving
    /// half on which the response will arrive.
    pub fn request(message: Input) -> (pair: (Self, Receiver<Output>))
        ensures
            pair.0.payload() == message,
            pair.0.expects_response(),
    {
        let (respond_channel, receiver_channel) = channel();
        let message = Self { message, respond_channel: Some(respond_channel) };
        (message, receiver_channel)
    }

    /// Wraps `message` as a notification.
    pub fn notification(message: Input) -> (wrapped: Self)
        ensures
            wrapped.payload() == message,
            !wrapped.expects_response(),
    {
        Self { message, respond_channel: None }
    }

    /// Returns `true` if this message is a request.
    pub fn is_request(&self) -> (expected: bool)
        ensures
            expected == self.expects_response(),
    {
        self.respond_channel.is_some()
    }

    /// Answers the message with `output`.
    ///
    /// A notification cannot be answered. For a request the outcome depends on
    /// whether the sender still waits: if it does not, the response is
    /// dropped and the sender is reported as disconnected.
    pub fn respond(self, output: Output) -> (outcome: Result<(), SendError>)
        ensures
            !self.expects_response() ==> outcome == Err::<(), SendError>(
                SendError::NoResponseExpected,
            ),
            self.expects_response() ==> outcome == Ok::<(), SendError>(()) || outcome == Err::<
                (),
                SendError,
            >(SendError::ReceiverDisconnected),
    {
        match self.respond_channel {
            Some(channel) => acknowledged(channel.send(output)),
            None => Err(SendError::NoResponseExpected),
        }
    }
}

} // verus!
