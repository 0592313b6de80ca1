//! A message that expects a response.

use futures::channel::oneshot::{channel, Receiver, Sender};
use vstd::prelude::*;

use crate::errors::SendError;
use crate::response::acknowledged;

verus! {

/// A message which expects a response, together with the sending half of the
/// one-shot channel on which that response travels.
#[verifier::reject_recursive_types(Output)]
pub struct Request<Input, Output> {
    message: Input,
    respond_channel: Sender<Output>,
}

impl<Input, Output> Request<Input, Output> {
    /// The payload carried by this request.
    pub closed spec fn payload(&self) -> Input {
        self.message
    }

    /// The sending half that answers this request.
    pub closed spec fn channel(&self) -> Sender<Output> {
        self.respond_channel
    }

    /// Wraps `message` as a request. The second component is the receiving
    /// half on which the response will arrive.
    pub fn new(message: Input) -> (pair: (Self, Receiver<Output>))
        ensures
            pair.0.payload() == message,
    {
        let (respond_channel, receiver_channel) = channel();
        let message = Self { message, respond_channel };
        (message, receiver_channel)
    }

    /// Returns a reference to the message held in the request.
    pub fn message(&self) -> (held: &Input)
        ensures
            *held == self.payload(),
    {
        &self.message
    }

    /// Sends a response to the initiator of the request. Fails with
    /// `ReceiverDisconnected`, and with nothing else, if the initiator no
    /// longer waits for it.
    pub fn respond(self, output: Output) -> (outcome: Result<(), SendError>)
        ensures
            outcome == Ok::<(), SendError>(()) || outcome == Err::<(), SendError>(
                SendError::ReceiverDisconnected,
            ),
    {
        acknowledged(self.respond_channel.send(output))
    }

    /// Takes the request apart into its message and its sending half.
    pub fn into_inner(self) -> (parts: (Input, Sender<Output>))
        ensures
            parts.0 == self.payload(),
            parts.1 == self.channel(),
    {
        (self.message, self.respond_channel)
    }
}

} // verus!
