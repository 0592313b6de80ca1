//! An envelope holds one message together with the way to report the result
//! back to its sender, if the sender asked for one.
//!
//! A mailbox carries envelopes for messages of many types. What they have in
//! common is [`EnvelopeProxy`]: each can be delivered to the actor. Delivery
//! uses the envelope up, so no envelope is delivered twice. An
//! [`InputHandle`] is an envelope whose message type is no longer visible, the
//! form in which it travels through the mailbox.

use core::marker::PhantomData;
use futures::channel::oneshot::Sender;
use vstd::prelude::*;

use crate::actor::Actor;
use crate::context::Context;
use crate::handler::{Coroutine, Handler, Notifiable};

verus! {

/// Something that can be delivered to an actor of type `A`, once.
pub trait EnvelopeProxy<A: Actor>: Send + 'static {
    /// What the delivery of this envelope may turn the actor into.
    spec fn delivers(&self, before: A, after: A) -> bool;

    /// Delivers the message to the actor and uses the envelope up.
    fn handle(self: Box<Self>, actor: &mut A, context: &Context<A>)
        ensures
            self.delivers(*old(actor), *final(actor)),
    ;
}

/// An envelope as it travels through a mailbox: its message type is no longer
/// visible, and with it what exactly the delivery does.
#[verifier::reject_recursive_types(A)]
pub struct InputHandle<A: Actor> {
    envelope: Box<dyn EnvelopeProxy<A>>,
}

impl<A: Actor> InputHandle<A> {
    /// What the delivery of this envelope may turn the actor into.
    pub closed spec fn delivers(&self, before: A, after: A) -> bool {
        self.envelope.delivers(before, after)
    }

    /// The handle that `envelope` becomes once its type is forgotten.
    pub closed spec fn of<E: EnvelopeProxy<A>>(envelope: E) -> Self {
        InputHandle { envelope: Box::new(envelope) }
    }

    /// Makes `envelope` ready for a mailbox.
    pub fn new<E: EnvelopeProxy<A>>(envelope: E) -> (handle: Self)
        ensures
            handle == Self::of(envelope),
    {
        InputHandle { envelope: Box::new(envelope) }
    }

    /// Delivers the envelope to the actor and uses it up.
    pub fn deliver(self, actor: &mut A, context: &Context<A>)
        ensures
            self.delivers(*old(actor), *final(actor)),
    {
        self.envelope.handle(actor, context);
    }
}

/// The envelope of a request: the message and the sending half on which its
/// response travels back.
#[verifier::reject_recursive_types(A)]
pub struct MessageEnvelope<A: Handler<IN>, IN> {
    message: IN,
    response: Sender<A::Result>,
    _marker: PhantomData<A>,
}

impl<A: Handler<IN>, IN> MessageEnvelope<A, IN> {
    /// The message in the envelope.
    pub closed spec fn content(&self) -> IN {
        self.message
    }

    /// The sending half for the response.
    pub closed spec fn reply_to(&self) -> Sender<A::Result> {
        self.response
    }

    /// The envelope that holds `message` and answers to `response`.
    pub closed spec fn of(message: IN, response: Sender<A::Result>) -> Self {
        Self { message, response, _marker: PhantomData }
    }

    /// The envelope made of `message` and `response` holds them.
    pub proof fn of_holds(message: IN, response: Sender<A::Result>)
        ensures
            Self::of(message, response).content() == message,
            Self::of(message, response).reply_to() == response,
    {
    }

    /// Puts `message` into an envelope whose response goes to `response`.
    pub fn new(message: IN, response: Sender<A::Result>) -> (envelope: Self)
        ensures
            envelope == Self::of(message, response),
            envelope.content() == message,
            envelope.reply_to() == response,
    {
        Self { message, response, _marker: PhantomData }
    }

    /// Opens the envelope and lets the actor handle the message. Returns the
    /// actor's answer together with the sending half it is meant for.
    pub fn answer(self, actor: &mut A, context: &Context<A>) -> (reply: (
        Sender<A::Result>,
        A::Result,
    ))
        ensures
            reply.0 == self.reply_to(),
            A::handles(*old(actor), self.content(), *final(actor), reply.1),
    {
        let result = actor.handle(self.message, context);
        (self.response, result)
    }
}

impl<A: Handler<IN>, IN: Send + 'static> EnvelopeProxy<A> for MessageEnvelope<A, IN> where
    A::Result: Send + 'static,
 {
    open spec fn delivers(&self, before: A, after: A) -> bool {
        exists|result: A::Result| A::handles(before, self.content(), after, result)
    }

    /// Lets the actor handle the message and sends its answer back. A sender
    /// that no longer waits for the answer is no error: the answer is dropped.
    fn handle(self: Box<Self>, actor: &mut A, context: &Context<A>) {
        let envelope = *self;
        let (response, result) = envelope.answer(actor, context);
        let _ = response.send(result);
    }
}

/// An actor that answers every message with the message itself hands back
/// exactly what it was sent: whatever its envelope gives as the answer is the
/// message that was put into it.
pub proof fn echo_answers_with_the_message<A: Handler<IN, Result = IN>, IN>(
    envelope: MessageEnvelope<A, IN>,
    before: A,
    after: A,
    answer: IN,
)
    requires
        forall|actor: A, message: IN, then: A, result: IN| #[trigger]
            A::handles(actor, message, then, result) ==> result == message,
        A::handles(before, envelope.content(), after, answer),
    ensures
        answer == envelope.content(),
{
}

/// The envelope of a notification: the message alone.
#[verifier::reject_recursive_types(A)]
pub struct NotificationEnvelope<A: Notifiable<IN>, IN> {
    message: IN,
    _marker: PhantomData<A>,
}

impl<A: Notifiable<IN>, IN> NotificationEnvelope<A, IN> {
    /// The message in the envelope.
    pub closed spec fn content(&self) -> IN {
        self.message
    }

    /// The envelope that holds `message`.
    pub closed spec fn of(message: IN) -> Self {
        Self { message, _marker: PhantomData }
    }

    /// The envelope made of `message` holds it.
    pub proof fn of_holds(message: IN)
        ensures
            Self::of(message).content() == message,
    {
    }

    /// Puts `message` into an envelope.
    pub fn new(message: IN) -> (envelope: Self)
        ensures
            envelope == Self::of(message),
            envelope.content() == message,
    {
        Self { message, _marker: PhantomData }
    }
}

impl<A: Notifiable<IN>, IN: Send + 'static> EnvelopeProxy<A> for NotificationEnvelope<A, IN> {
    open spec fn delivers(&self, before: A, after: A) -> bool {
        A::notices(before, self.content(), after)
    }

    /// Lets the actor process the notification.
    fn handle(self: Box<Self>, actor: &mut A, context: &Context<A>) {
        let envelope = *self;
        actor.notify(envelope.message, context);
    }
}

/// Does the work of one coroutine message: lets `copy`, a copy of the actor,
/// process `message`, and sends the answer through `response`. This is the
/// unit of work that a scheduler is handed. A sender that no longer waits for
/// the answer is no error; the answer then comes back.
pub fn work<A: Coroutine<IN>, IN>(copy: A, message: IN, response: Sender<A::Result>) -> (handed_over:
    Result<(), A::Result>)
    ensures
        handed_over matches Err(answer) ==> A::calculates(copy, message, answer),
{
    let answer = copy.calculate(message);
    response.send(answer)
}

/// The envelope of a message that is processed on a copy of the actor,
/// independently of the actor's loop.
///
/// The envelope holds the capability to schedule that work: a function that
/// takes the copy, the message and the sending half for the response, and
/// sees to it that [`work`] is done with them.
#[verifier::reject_recursive_types(A)]
#[verifier::reject_recursive_types(F)]
pub struct CoroutineEnvelope<A: Coroutine<IN>, IN, F: FnOnce(A, IN, Sender<A::Result>)> {
    message: IN,
    response: Sender<A::Result>,
    schedule: F,
    _marker: PhantomData<A>,
}

impl<A: Coroutine<IN>, IN, F: FnOnce(A, IN, Sender<A::Result>)> CoroutineEnvelope<A, IN, F> {
    /// The message in the envelope.
    pub closed spec fn content(&self) -> IN {
        self.message
    }

    /// The sending half for the response.
    pub closed spec fn reply_to(&self) -> Sender<A::Result> {
        self.response
    }

    /// The capability to schedule the work.
    pub closed spec fn scheduler(&self) -> F {
        self.schedule
    }

    /// The envelope that holds `message`, answers to `response` and hands
    /// its work to `schedule`.
    pub closed spec fn of(message: IN, response: Sender<A::Result>, schedule: F) -> Self {
        Self { message, response, schedule, _marker: PhantomData }
    }

    #[verifier::type_invariant]
    pub(crate) open spec fn ready(&self) -> bool {
        forall|copy: A| self.scheduler().requires((copy, self.content(), self.reply_to()))
    }

    /// The envelope made of `message`, `response` and `schedule` holds them.
    pub proof fn of_holds(message: IN, response: Sender<A::Result>, schedule: F)
        ensures
            Self::of(message, response, schedule).content() == message,
            Self::of(message, response, schedule).reply_to() == response,
            Self::of(message, response, schedule).scheduler() == schedule,
    {
    }

    /// Puts `message` into an envelope whose response goes to `response` and
    /// whose work goes to `schedule`. The scheduler has to take the work
    /// whatever copy of the actor it is handed.
    pub fn new(message: IN, response: Sender<A::Result>, schedule: F) -> (envelope: Self)
        requires
            forall|copy: A| schedule.requires((copy, message, response)),
        ensures
            envelope == Self::of(message, response, schedule),
            envelope.content() == message,
            envelope.reply_to() == response,
            envelope.scheduler() == schedule,
    {
        Self { message, response, schedule, _marker: PhantomData }
    }
}

impl<
    A: Coroutine<IN>,
    IN: Send + 'static,
    F: FnOnce(A, IN, Sender<A::Result>) + Send + 'static,
> EnvelopeProxy<A> for CoroutineEnvelope<A, IN, F> where A::Result: Send + 'static {
    open spec fn delivers(&self, before: A, after: A) -> bool {
        &&& after == before
        &&& exists|copy: A| #[trigger]
            cloned(before, copy) && self.scheduler().ensures(
                (copy, self.content(), self.reply_to()),
                (),
            )
    }

    /// Makes a copy of the actor and hands it to the scheduler, together
    /// with the message and the sending half for the response. The actor
    /// itself is left as it was.
    fn handle(self: Box<Self>, actor: &mut A, context: &Context<A>) {
        let envelope = *self;
        proof {
            use_type_invariant(&envelope);
        }
        let copy = actor.clone();
        let ghost before = envelope;
        let CoroutineEnvelope { message, response, schedule, _marker } = envelope;
        schedule(copy, message, response);
        assert(cloned(*actor, copy) && before.scheduler().ensures(
            (copy, before.content(), before.reply_to()),
            (),
        ));
    }
}

/// Forgetting the type of a notification envelope changes nothing about what
/// its delivery does: the handle lets the actor take notice of the message.
pub proof fn notification_is_delivered<A: Notifiable<IN>, IN: Send + 'static>(
    message: IN,
    before: A,
    after: A,
)
    ensures
        InputHandle::<A>::of(NotificationEnvelope::<A, IN>::of(message)).delivers(before, after)
            == A::notices(before, message, after),
{
}

/// Forgetting the type of a request envelope changes nothing about what its
/// delivery does: the handle lets the actor handle the message, with some
/// answer.
pub proof fn request_is_delivered<A: Handler<IN>, IN: Send + 'static>(
    message: IN,
    response: Sender<A::Result>,
    before: A,
    after: A,
) where A::Result: Send + 'static
    ensures
        InputHandle::<A>::of(MessageEnvelope::<A, IN>::of(message, response)).delivers(
            before,
            after,
        ) <==> exists|result: A::Result| A::handles(before, message, after, result),
{
    let envelope = MessageEnvelope::<A, IN>::of(message, response);
    if envelope.delivers(before, after) {
        let result = choose|result: A::Result|
            A::handles(before, envelope.content(), after, result);
        assert(A::handles(before, message, after, result));
    }
    if exists|result: A::Result| A::handles(before, message, after, result) {
        let result = choose|result: A::Result| A::handles(before, message, after, result);
        assert(A::handles(before, envelope.content(), after, result));
    }
}

/// Forgetting the type of a coroutine envelope changes nothing about what
/// its delivery does: the handle leaves the actor as it is and hands a copy
/// of it to the scheduler, with the message and the sending half.
pub proof fn coroutine_is_scheduled<
    A: Coroutine<IN>,
    IN: Send + 'static,
    F: FnOnce(A, IN, Sender<A::Result>) + Send + 'static,
>(message: IN, response: Sender<A::Result>, schedule: F, before: A, after: A) where
    A::Result: Send + 'static,

    ensures
        InputHandle::<A>::of(
            CoroutineEnvelope::<A, IN, F>::of(message, response, schedule),
        ).delivers(before, after) <==> after == before && exists|copy: A| #[trigger]
            cloned(before, copy) && schedule.ensures((copy, message, response), ()),
{
    let envelope = CoroutineEnvelope::<A, IN, F>::of(message, response, schedule);
    if envelope.delivers(before, after) {
        let copy = choose|copy: A| #[trigger]
            cloned(before, copy) && envelope.scheduler().ensures(
                (copy, envelope.content(), envelope.reply_to()),
                (),
            );
        assert(cloned(before, copy) && schedule.ensures((copy, message, response), ()));
    }
    if after == before && exists|copy: A| #[trigger]
        cloned(before, copy) && schedule.ensures((copy, message, response), ()) {
        let copy = choose|copy: A| #[trigger]
            cloned(before, copy) && schedule.ensures((copy, message, response), ());
        assert(cloned(before, copy) && envelope.scheduler().ensures(
            (copy, envelope.content(), envelope.reply_to()),
            (),
        ));
    }
}

} // verus!
