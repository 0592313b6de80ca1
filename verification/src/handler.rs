//! What an actor does with the messages it receives.
//!
//! - [`Notifiable`]: the actor processes a notification, a message that
//!   expects no response.
//! - [`Handler`]: the actor processes a message and produces a response.
//! - [`Coroutine`]: like `Handler`, but on a copy of the actor and outside
//!   the actor's loop, so that several messages can be processed side by
//!   side. The work is handed to a scheduler that the sender names.
//!
//! Messages that reach an actor through its mailbox are handled one at a time
//! and in the order of their arrival.

use vstd::prelude::*;

use crate::actor::Actor;
use crate::context::Context;

verus! {

/// Lets an actor process notifications of type `IN`.
pub trait Notifiable<IN>: Actor {
    /// What `notify` may turn the actor into. By default nothing is promised.
    open spec fn notices(before: Self, input: IN, after: Self) -> bool {
        true
    }

    /// Processes a notification.
    fn notify(&mut self, input: IN, context: &Context<Self>)
        ensures
            Self::notices(*old(self), input, *final(self)),
    ;
}

/// Lets an actor process messages of type `IN` and answer each with a
/// `Result`.
pub trait Handler<IN>: Actor {
    /// Result of the message processing.
    type Result;

    /// What `handle` may turn the actor into and what it may answer. By
    /// default nothing is promised.
    open spec fn handles(before: Self, input: IN, after: Self, result: Self::Result) -> bool {
        true
    }

    /// Processes a message.
    fn handle(&mut self, input: IN, context: &Context<Self>) -> (result: Self::Result)
        ensures
            Self::handles(*old(self), input, *final(self), result),
    ;
}

/// Alternative to [`Handler`] that allows messages to be processed side by
/// side: each is handed to a copy of the actor.
pub trait Coroutine<IN>: Actor + Clone {
    /// Result of the message processing.
    type Result;

    /// What `calculate` may answer. By default nothing is promised.
    open spec fn calculates(actor: Self, input: IN, result: Self::Result) -> bool {
        true
    }

    /// Processes a message.
    fn calculate(self, input: IN) -> (result: Self::Result)
        ensures
            Self::calculates(self, input, result),
    ;
}

} // verus!
