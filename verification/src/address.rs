//! An address of an actor.
//!
//! An [`Address`] is the sending side of an actor's mailbox. It can be cloned
//! freely; every clone leads to the same actor. Nothing here waits: an
//! operation that finds the mailbox full hands the envelope back, so that the
//! caller can offer it again once there is room.

use async_channel::Sender;
use futures::channel::oneshot::{channel, Receiver, Sender as OneshotSender};
use vstd::prelude::*;

use crate::actor::Actor;
use crate::channel::{another, try_send, Rejected};
use crate::context::Signal;
use crate::envelope::{CoroutineEnvelope, InputHandle, MessageEnvelope, NotificationEnvelope};
use crate::errors::SendError;
use crate::handler::{Coroutine, Handler, Notifiable};

verus! {

/// What became of something that was offered to a bounded channel.
pub enum Delivery<T> {
    /// It is in the channel.
    Accepted,
    /// The channel is full. This is no failure: nothing was dropped, the
    /// sender has to wait for room and offer the same thing again.
    Suspended(T),
    /// The channel is closed: the actor is gone.
    Disconnected,
}

impl<T> Delivery<T> {
    /// What is known about the success of the operation so far: nothing while
    /// it is suspended.
    pub open spec fn settled(self) -> Option<Result<(), SendError>> {
        match self {
            Delivery::Accepted => Some(Ok(())),
            Delivery::Suspended(_) => None,
            Delivery::Disconnected => Some(Err(SendError::ReceiverDisconnected)),
        }
    }

    /// The delivery that an attempt to send amounts to: a full channel
    /// suspends the sender, who gets back what was offered, and only a closed
    /// channel is a failure.
    pub open spec fn after(attempt: Result<(), Rejected<T>>) -> Self {
        match attempt {
            Ok(_) => Delivery::Accepted,
            Err(Rejected::Full(offered)) => Delivery::Suspended(offered),
            Err(Rejected::Closed(_)) => Delivery::Disconnected,
        }
    }

    /// Tells what an attempt to send amounts to.
    pub fn of(attempt: Result<(), Rejected<T>>) -> (delivery: Self)
        ensures
            delivery == Self::after(attempt),
    {
        match attempt {
            Ok(()) => Delivery::Accepted,
            Err(Rejected::Full(offered)) => Delivery::Suspended(offered),
            Err(Rejected::Closed(_)) => Delivery::Disconnected,
        }
    }

    /// Offers `item` to the channel behind `sender` without waiting.
    pub fn through(sender: &Sender<T>, item: T) -> (delivery: Self)
        ensures
            delivery matches Delivery::Suspended(returned) ==> returned == item,
    {
        Delivery::of(try_send(sender, item))
    }

    /// The outcome of the operation, once it is known: `None` while the
    /// sender is suspended.
    pub fn outcome(&self) -> (outcome: Option<Result<(), SendError>>)
        ensures
            outcome == self.settled(),
    {
        match self {
            Delivery::Accepted => Some(Ok(())),
            Delivery::Suspended(_) => None,
            Delivery::Disconnected => Some(Err(SendError::ReceiverDisconnected)),
        }
    }
}

/// A full channel holds the sender back and nothing else: the delivery is
/// suspended, which is neither success nor failure, and what was offered is
/// still there to be offered again.
pub proof fn full_channel_suspends<T>(offered: T)
    ensures
        Delivery::after(Err(Rejected::Full(offered))) == Delivery::Suspended(offered),
        Delivery::after(Err(Rejected::Full(offered))).settled() is None,
{
}

/// Sending into a closed channel fails with `ReceiverDisconnected`, and a
/// send fails in no other case.
pub proof fn only_closed_channel_fails<T>(attempt: Result<(), Rejected<T>>)
    ensures
        attempt matches Err(Rejected::Closed(_)) <==> Delivery::after(attempt).settled()
            == Some(Err::<(), SendError>(SendError::ReceiverDisconnected)),
        Delivery::after(attempt).settled() matches Some(Err(_)) ==> attempt matches Err(
            Rejected::Closed(_),
        ),
        attempt is Ok <==> Delivery::after(attempt).settled() == Some(Ok::<(), SendError>(())),
{
}

/// The sending half of a mailbox. It is kept out of sight because the
/// envelopes that travel through it refer to the context, which in turn holds
/// an address.
#[verifier::external_body]
#[verifier::reject_recursive_types(A)]
pub struct Outbox<A: Actor> {
    sender: Sender<InputHandle<A>>,
}

impl<A: Actor> Outbox<A> {
    /// Stores the sending half of an `async_channel` channel. Trusted;
    /// nothing is claimed about the result.
    #[verifier::external_body]
    fn new(sender: Sender<InputHandle<A>>) -> (outbox: Self) {
        Outbox { sender }
    }

    /// The sending half that was stored. Trusted; nothing is claimed
    /// about the result.
    #[verifier::external_body]
    fn sender(&self) -> (sender: &Sender<InputHandle<A>>) {
        &self.sender
    }
}

/// The object used to communicate with an actor: it sends messages with
/// [`Address::send`] and notifications with [`Address::notify`].
#[verifier::reject_recursive_types(A)]
pub struct Address<A: Actor> {
    sender: Outbox<A>,
    signal_sender: Sender<Signal>,
}

impl<A: Actor> Clone for Address<A> {
    /// Another address of the same actor.
    fn clone(&self) -> (copy: Self) {
        Self {
            sender: Outbox::new(another(self.sender.sender())),
            signal_sender: another(&self.signal_sender),
        }
    }
}

impl<A: Actor> Address<A> {
    /// The sending half of the signal channel that this address holds.
    pub closed spec fn signal_half(&self) -> Sender<Signal> {
        self.signal_sender
    }

    /// An address that sends envelopes through `sender` and signals through
    /// `signal_sender`.
    pub(crate) fn new(sender: Sender<InputHandle<A>>, signal_sender: Sender<Signal>) -> (address:
        Self)
        ensures
            address.signal_half() == signal_sender,
    {
        Self { sender: Outbox::new(sender), signal_sender }
    }

    /// The sending half of the mailbox, for those who want to wait on it.
    pub fn mailbox(&self) -> &Sender<InputHandle<A>> {
        self.sender.sender()
    }

    /// The sending half of the signal channel, for those who want to wait on
    /// it.
    pub fn signals(&self) -> (half: &Sender<Signal>)
        ensures
            *half == self.signal_half(),
    {
        &self.signal_sender
    }

    /// Offers an envelope to the mailbox. A full mailbox hands the very same
    /// envelope back.
    pub fn offer(&self, envelope: InputHandle<A>) -> (delivery: Delivery<InputHandle<A>>)
        ensures
            delivery matches Delivery::Suspended(returned) ==> returned == envelope,
    {
        Delivery::through(self.sender.sender(), envelope)
    }

    /// Sends a message to the actor. The second component is the receiving
    /// half on which the response arrives once the actor has handled the
    /// message; it yields nothing if the actor goes away before that.
    ///
    /// What is offered to the mailbox is a request envelope that holds
    /// `message`: that is what comes back if the mailbox is full.
    pub fn send<IN>(&self, message: IN) -> (sent: (Delivery<InputHandle<A>>, Receiver<A::Result>))
        where
            A: Handler<IN>,
            IN: Send + 'static,
            A::Result: Send + 'static,
        ensures
            sent.0 matches Delivery::Suspended(returned) ==> exists|
                response: OneshotSender<A::Result>,
            |
                returned == InputHandle::<A>::of(
                    MessageEnvelope::<A, IN>::of(message, response),
                ),
    {
        let (sender, receiver) = channel();
        let envelope: MessageEnvelope<A, IN> = MessageEnvelope::new(message, sender);
        let message = InputHandle::new(envelope);
        (self.offer(message), receiver)
    }

    /// Sends a notification to the actor, for which no response is expected.
    ///
    /// What is offered to the mailbox is a notification envelope that holds
    /// `message`: that is what comes back if the mailbox is full.
    pub fn notify<IN>(&self, message: IN) -> (delivery: Delivery<InputHandle<A>>)
        where
            A: Notifiable<IN>,
            IN: Send + 'static,
        ensures
            delivery matches Delivery::Suspended(returned) ==> returned == InputHandle::<A>::of(
                NotificationEnvelope::<A, IN>::of(message),
            ),
    {
        let envelope: NotificationEnvelope<A, IN> = NotificationEnvelope::new(message);
        let message = InputHandle::new(envelope);
        self.offer(message)
    }

    /// Sends a message that a copy of the actor processes, independently of
    /// the actor's loop: when the envelope is delivered, `schedule` is handed
    /// the copy, the message and the sending half for the response. The
    /// second component is the receiving half on which the response arrives.
    ///
    /// What is offered to the mailbox is a coroutine envelope that holds
    /// `message` and `schedule`: that is what comes back if the mailbox is
    /// full.
    pub fn calculate<IN, F>(&self, message: IN, schedule: F) -> (sent: (
        Delivery<InputHandle<A>>,
        Receiver<A::Result>,
    ))
        where
            A: Coroutine<IN>,
            IN: Send + 'static,
            A::Result: Send + 'static,
            F: FnOnce(A, IN, OneshotSender<A::Result>) + Send + 'static,
        requires
            forall|copy: A, response: OneshotSender<A::Result>|
                schedule.requires((copy, message, response)),
        ensures
            sent.0 matches Delivery::Suspended(returned) ==> exists|
                response: OneshotSender<A::Result>,
            |
                returned == InputHandle::<A>::of(
                    CoroutineEnvelope::<A, IN, F>::of(message, response, schedule),
                ),
    {
        let (sender, receiver) = channel();
        let envelope: CoroutineEnvelope<A, IN, F> = CoroutineEnvelope::new(
            message,
            sender,
            schedule,
        );
        let message = InputHandle::new(envelope);
        (self.offer(message), receiver)
    }

    /// Whether an address reaches its actor, given what the mailbox says of
    /// itself: it does as long as the mailbox is not closed.
    pub fn reaches(closed: bool) -> (connected: bool)
        ensures
            connected == !closed,
    {
        !closed
    }

    /// Whether the wait for the actor to stop is over, given whether the
    /// address is still connected: it is once the address is not.
    pub fn gone(connected: bool) -> (stopped: bool)
        ensures
            stopped == !connected,
    {
        !connected
    }

    /// Returns `true` if the address is still connected to the actor: what
    /// [`Address::reaches`] makes of the mailbox's answer at this moment.
    pub fn connected(&self) -> bool {
        Self::reaches(self.sender.sender().is_closed())
    }

    /// Asks the actor to stop. The request travels through a channel of its
    /// own, so that a full mailbox cannot hold it back. It does not stop the
    /// actor at once, and it does nothing if the actor is gone already.
    pub fn stop(&self) -> (delivery: Delivery<Signal>)
        ensures
            delivery matches Delivery::Suspended(signal) ==> signal == Signal::Stop,
    {
        Delivery::through(&self.signal_sender, Signal::Stop)
    }

    /// One round of the wait for the actor to be fully stopped: returns `true`
    /// once the actor is gone, and `false` while the caller has to go on
    /// waiting, as [`Address::gone`] says of the connection at this moment.
    /// This does not ask the actor to stop; [`Address::stop`] does.
    pub fn wait_for_stop(&self) -> (stopped: bool) {
        Self::gone(self.connected())
    }

    /// Sends the items of `stream` to the actor as notifications, in their
    /// order, until one of them is not accepted.
    ///
    /// Returns what became of the last item that was offered, together with
    /// the items that were not offered any more. If every item was accepted,
    /// none is left. If the mailbox was full, the envelope that comes back is
    /// the one of the item before those that are left.
    pub fn into_stream_forwarder<IN>(self, stream: Vec<IN>) -> (forwarded: (
        Delivery<InputHandle<A>>,
        Vec<IN>,
    ))
        where
            A: Notifiable<IN>,
            IN: Send + 'static,
        ensures
            forwarded.1@.len() <= stream@.len(),
            forwarded.1@ == stream@.subrange(
                stream@.len() - forwarded.1@.len(),
                stream@.len() as int,
            ),
            forwarded.0 is Accepted ==> forwarded.1@.len() == 0,
            !(forwarded.0 is Accepted) ==> forwarded.1@.len() < stream@.len(),
            forwarded.0 matches Delivery::Suspended(returned) ==> returned == InputHandle::<A>::of(
                NotificationEnvelope::<A, IN>::of(
                    stream@[stream@.len() - forwarded.1@.len() - 1],
                ),
            ),
    {
        let mut delivery: Delivery<InputHandle<A>> = Delivery::Accepted;
        let mut rest: Vec<IN> = Vec::new();
        for message in iter: stream
            invariant
                iter.seq() == stream@,
                delivery is Accepted ==> rest@.len() == 0,
                !(delivery is Accepted) ==> rest@.len() < iter.index(),
                rest@.len() <= iter.index(),
                rest@ == stream@.subrange(iter.index() - rest@.len(), iter.index() as int),
                delivery matches Delivery::Suspended(returned) ==> returned
                    == InputHandle::<A>::of(
                    NotificationEnvelope::<A, IN>::of(stream@[iter.index() - rest@.len() - 1]),
                ),
        {
            match delivery {
                Delivery::Accepted => {
                    delivery = self.notify(message);
                },
                _ => {
                    rest.push(message);
                },
            }
        }
        (delivery, rest)
    }
}

} // verus!
