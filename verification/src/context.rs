//! The environment in which an actor is executed.
//!
//! A [`Context`] owns the receiving side of an actor's mailbox and drives the
//! actor through its lifecycle. It never waits: [`Context::poll`] looks once
//! for something to do, and [`Context::step`] does what one arrival asks for.
//! Whoever runs the actor calls them in a loop and decides how to wait in
//! between.

use async_channel::{bounded, Receiver};
use vstd::prelude::*;

use crate::actor::{Actor, ActorAction};
use crate::address::Address;
use crate::channel::{try_recv, Vacant};
use crate::envelope::{notification_is_delivered, InputHandle, NotificationEnvelope};
use crate::handler::Notifiable;
use crate::lifecycle::{Lifecycle, Moment, Phase, Record};

verus! {

/// Default capacity of a mailbox.
pub const DEFAULT_CAPACITY: usize = 128;

/// A request that reaches an actor beside its messages.
#[derive(Debug, Clone, Copy, PartialEq, Eq, Structural)]
pub enum Signal {
    /// The actor is asked to stop.
    Stop,
}

/// One of the two channels that feed the loop of a running actor.
#[derive(Debug, Clone, Copy, PartialEq, Eq, Structural)]
pub enum Source {
    /// The channel that carries signals.
    Signals,
    /// The mailbox, which carries envelopes.
    Mailbox,
}

impl Source {
    /// The channel a poll looks at first: neither is preferred, the flag
    /// that changes with every poll decides.
    pub open spec fn leading(signals_first: bool) -> Source {
        if signals_first {
            Source::Signals
        } else {
            Source::Mailbox
        }
    }

    /// The channel a poll looks at if the first had nothing.
    pub open spec fn other(self) -> Source {
        match self {
            Source::Signals => Source::Mailbox,
            Source::Mailbox => Source::Signals,
        }
    }

    /// Tells which channel a poll looks at first.
    pub fn first(signals_first: bool) -> (source: Source)
        ensures
            source == Self::leading(signals_first),
    {
        if signals_first {
            Source::Signals
        } else {
            Source::Mailbox
        }
    }

    /// Tells which channel a poll looks at second.
    pub fn second(self) -> (source: Source)
        ensures
            source == self.other(),
    {
        match self {
            Source::Signals => Source::Mailbox,
            Source::Mailbox => Source::Signals,
        }
    }
}

/// One thing that can arrive at the loop of a running actor.
#[verifier::reject_recursive_types(A)]
pub enum Event<A: Actor> {
    /// An envelope came out of the mailbox.
    Message(InputHandle<A>),
    /// A signal came out of the signal channel.
    Signal(Signal),
    /// The mailbox reported that no sender remains.
    Closed,
}

/// Whether `record` accounts for the first of `arrivals`, as many as it has
/// counted: every message among them was handled, and nothing else was.
pub open spec fn follows<A: Actor>(record: Record, arrivals: Seq<Event<A>>) -> bool {
    &&& record.arrivals <= arrivals.len()
    &&& forall|i: int|
        0 <= i < record.arrivals ==> ((#[trigger] arrivals[i]) is Message <==> record.journal[i
            + 1] is Handled)
}

/// The place of the first arrival from `from` on that is not a message: up
/// to there a loop has nothing to decide. If only messages are left, this is
/// the length of `arrivals`.
pub open spec fn pause<A: Actor>(arrivals: Seq<Event<A>>, from: int) -> int
    decreases arrivals.len() - from,
{
    if from < 0 || from >= arrivals.len() || !(arrivals[from] is Message) {
        from
    } else {
        pause(arrivals, from + 1)
    }
}

/// Whether `event` is a message whose delivery may turn the actor from
/// `before` into `after`.
pub open spec fn lands<A: Actor>(event: Event<A>, before: A, after: A) -> bool {
    match event {
        Event::Message(envelope) => envelope.delivers(before, after),
        _ => false,
    }
}

/// Whether `states` are the states of an actor to which the first `count` of
/// `arrivals`, all of them messages, were delivered one after the other: each
/// to the state that the one before had left.
pub open spec fn traces<A: Actor>(arrivals: Seq<Event<A>>, count: int, states: Seq<A>) -> bool {
    &&& states.len() == count + 1
    &&& forall|i: int|
        0 <= i < count ==> lands(arrivals[i], #[trigger] states[i], states[i + 1])
}

/// Whether `event`, of which the journal says `moment`, may have turned the
/// actor from `before` into `after`: a message by its delivery, a request to
/// stop by the `stopping` hook that gave the answer the journal shows.
pub open spec fn moves<A: Actor>(event: Event<A>, moment: Moment, before: A, after: A) -> bool {
    match event {
        Event::Message(envelope) => moment is Handled && envelope.delivers(before, after),
        _ => {
            ||| moment == Moment::Refused && A::decides(before, after, ActorAction::KeepRunning)
            ||| moment == Moment::Agreed && A::decides(before, after, ActorAction::Stop)
        },
    }
}

/// Whether `states` are the states of an actor that went through the first
/// `count` of `arrivals` one after the other, with the outcomes that
/// `journal` shows: each arrival met the state that the one before had left.
pub open spec fn course<A: Actor>(
    arrivals: Seq<Event<A>>,
    journal: Seq<Moment>,
    count: int,
    states: Seq<A>,
) -> bool {
    &&& states.len() == count + 1
    &&& forall|i: int|
        0 <= i < count ==> moves(arrivals[i], journal[i + 1], #[trigger] states[i], states[i + 1])
}

/// A refusal to stop is binding: an actor whose `stopping` hook never agrees
/// is still running after every request to stop, whatever asked for it.
pub proof fn refusal_is_binding<A: Actor>(event: Event<A>, moment: Moment, before: A, after: A)
    requires
        forall|actor: A, then: A, action: ActorAction| #[trigger]
            A::decides(actor, then, action) ==> action == ActorAction::KeepRunning,
        !(event is Message),
        moves(event, moment, before, after),
    ensures
        moment == Moment::Refused,
{
}

/// Notifications are noticed in the order of their arrival: if the arrivals
/// are the envelopes of the notifications `messages`, in this order, then an
/// actor to which they were delivered took notice of each in turn, each time
/// as the one before had left it.
pub proof fn notifications_are_noticed_in_order<A: Notifiable<IN>, IN: Send + 'static>(
    arrivals: Seq<Event<A>>,
    messages: Seq<IN>,
    states: Seq<A>,
)
    requires
        arrivals.len() == messages.len(),
        forall|i: int|
            0 <= i < messages.len() ==> #[trigger] arrivals[i] == Event::Message(
                InputHandle::<A>::of(NotificationEnvelope::<A, IN>::of(messages[i])),
            ),
        traces(arrivals, messages.len() as int, states),
    ensures
        forall|i: int|
            0 <= i < messages.len() ==> A::notices(#[trigger] states[i], messages[i], states[i + 1]),
{
    assert forall|i: int| 0 <= i < messages.len() implies A::notices(
        #[trigger] states[i],
        messages[i],
        states[i + 1],
    ) by {
        assert(lands(arrivals[i], states[i], states[i + 1]));
        notification_is_delivered::<A, IN>(messages[i], states[i], states[i + 1]);
    }
}

impl<A: Actor> Event<A> {
    /// What a look into the mailbox amounts to: an envelope is an arrival,
    /// and so is the report that nothing will ever arrive again; an empty
    /// mailbox is none.
    pub fn from_mailbox(taken: Result<InputHandle<A>, Vacant>) -> (event: Option<Self>)
        ensures
            taken matches Ok(envelope) ==> event == Some(Event::Message(envelope)),
            taken == Err::<InputHandle<A>, Vacant>(Vacant::Empty) ==> event.is_none(),
            taken == Err::<InputHandle<A>, Vacant>(Vacant::Closed) ==> event == Some(
                Event::<A>::Closed,
            ),
    {
        match taken {
            Ok(envelope) => Some(Event::Message(envelope)),
            Err(Vacant::Empty) => None,
            Err(Vacant::Closed) => Some(Event::Closed),
        }
    }

    /// What a look into the signal channel amounts to: a signal is an
    /// arrival; a signal channel without signals is none, whether it is still
    /// open or not.
    pub fn from_signals(taken: Result<Signal, Vacant>) -> (event: Option<Self>)
        ensures
            taken matches Ok(signal) ==> event == Some(Event::<A>::Signal(signal)),
            taken is Err ==> event.is_none(),
    {
        match taken {
            Ok(signal) => Some(Event::Signal(signal)),
            Err(_) => None,
        }
    }
}

/// The receiving half of a mailbox. It is kept out of sight because the
/// envelopes that travel through it refer to the context that holds it.
#[verifier::external_body]
#[verifier::reject_recursive_types(A)]
pub struct Inbox<A: Actor> {
    receiver: Receiver<InputHandle<A>>,
}

impl<A: Actor> Inbox<A> {
    /// Stores the receiving half of an `async_channel` channel. Trusted;
    /// nothing is claimed about the result.
    #[verifier::external_body]
    fn new(receiver: Receiver<InputHandle<A>>) -> (inbox: Self) {
        Inbox { receiver }
    }

    /// The receiving half that was stored. Trusted; nothing is claimed
    /// about the result.
    #[verifier::external_body]
    fn receiver(&self) -> (receiver: &Receiver<InputHandle<A>>) {
        &self.receiver
    }
}

/// Whether `outcome` is what a run of `actor` on `arrivals` can give, in a
/// context whose mailbox holds `limit` envelopes.
///
/// Either the actor agreed to stop: then the lifecycle is stopped and
/// accounts for the arrivals up to that stop. Or the arrivals were used up
/// first: then the context comes back running, with every arrival accounted
/// for. Either way the actor went through the arrivals one at a time, each
/// meeting the actor as the one before left it, the first as `started` left
/// it; after an agreed stop, `stopped` had the last word.
pub open spec fn runs_to<A: Actor>(
    actor: A,
    limit: usize,
    arrivals: Seq<Event<A>>,
    outcome: Result<(Lifecycle, A), (Context<A>, A)>,
) -> bool {
    match outcome {
        Ok(ended) => {
            &&& ended.0@.wf()
            &&& ended.0@.phase == Phase::Stopped
            &&& follows(ended.0@, arrivals)
            &&& exists|states: Seq<A>| #[trigger]
                course(arrivals, ended.0@.journal, ended.0@.arrivals as int, states)
                    && A::starts(actor, states[0]) && A::ends(states.last(), ended.1)
        },
        Err(open) => {
            &&& open.0.record().wf()
            &&& open.0.record().phase == Phase::Running
            &&& open.0.record().arrivals == arrivals.len()
            &&& open.0.limit() == limit
            &&& follows(open.0.record(), arrivals)
            &&& exists|states: Seq<A>| #[trigger]
                course(arrivals, open.0.record().journal, arrivals.len() as int, states)
                    && A::starts(actor, states[0]) && states.last() == open.1
        },
    }
}

/// The environment in which an actor is executed: it passes incoming messages
/// to the actor, provides the actor's address and manages its lifetime.
#[verifier::reject_recursive_types(ACTOR)]
pub struct Context<ACTOR: Actor> {
    receiver: Inbox<ACTOR>,
    signal_receiver: Receiver<Signal>,
    address: Address<ACTOR>,
    capacity: usize,
    signals_first: bool,
    lifecycle: Lifecycle,
}

impl<ACTOR: Actor> Default for Context<ACTOR> {
    /// A new context with the default capacity.
    fn default() -> (context: Self)
        ensures
            context.limit() == DEFAULT_CAPACITY,
            context.record() == Record::fresh(),
    {
        Self::new()
    }
}

impl<ACTOR: Actor> Context<ACTOR> {
    /// The capacity of the mailbox.
    pub closed spec fn limit(&self) -> usize {
        self.capacity
    }

    /// The phase of the actor and the journal of what happened to it.
    pub closed spec fn record(&self) -> Record {
        self.lifecycle@
    }

    /// The receiving half of the signal channel that this context holds.
    pub closed spec fn signal_half(&self) -> Receiver<Signal> {
        self.signal_receiver
    }

    /// Whether the next poll looks at the signal channel before the mailbox.
    pub closed spec fn prefers_signals(&self) -> bool {
        self.signals_first
    }

    /// Creates a new context with the default capacity of 128 envelopes.
    pub fn new() -> (context: Self)
        ensures
            context.limit() == DEFAULT_CAPACITY,
            context.record() == Record::fresh(),
    {
        Self::with_capacity(DEFAULT_CAPACITY)
    }

    /// Creates a new context whose mailbox holds at most `capacity`
    /// envelopes.
    pub fn with_capacity(capacity: usize) -> (context: Self)
        requires
            capacity > 0,
        ensures
            context.limit() == capacity,
            context.record() == Record::fresh(),
    {
        let (sender, receiver) = bounded(capacity);
        let (signal_sender, signal_receiver) = bounded(capacity);
        let address = Address::new(sender, signal_sender);
        Self {
            receiver: Inbox::new(receiver),
            signal_receiver,
            address,
            capacity,
            signals_first: false,
            lifecycle: Lifecycle::new(),
        }
    }

    /// Returns an address of the actor.
    pub fn address(&self) -> Address<ACTOR> {
        self.address.clone()
    }

    /// The receiving half of the mailbox, for those who want to wait on it.
    pub fn mailbox(&self) -> &Receiver<InputHandle<ACTOR>> {
        self.receiver.receiver()
    }

    /// The receiving half of the signal channel, for those who want to wait
    /// on it.
    pub fn signals(&self) -> (half: &Receiver<Signal>)
        ensures
            *half == self.signal_half(),
    {
        &self.signal_receiver
    }

    /// The capacity of the mailbox.
    pub fn capacity(&self) -> (capacity: usize)
        ensures
            capacity == self.limit(),
    {
        self.capacity
    }

    /// The phase the actor is in.
    pub fn phase(&self) -> (phase: Phase)
        ensures
            phase == self.record().phase,
    {
        self.lifecycle.phase()
    }

    /// Starts the actor: calls its `started` hook, before any message is
    /// passed to it.
    pub fn start(&mut self, actor: &mut ACTOR)
        requires
            old(self).record().phase == Phase::Created,
        ensures
            final(self).record() == old(self).record().started(),
            final(self).record().wf(),
            final(self).limit() == old(self).limit(),
            final(self).prefers_signals() == old(self).prefers_signals(),
            ACTOR::starts(*old(actor), *final(actor)),
    {
        actor.started();
        self.lifecycle.start();
    }

    /// Does what one arrival asks for. An envelope is delivered to the actor.
    /// A stop signal, and the report that no sender remains, make the actor's
    /// `stopping` hook decide whether the actor stops. Returns `true` if the
    /// actor is still running afterwards.
    pub fn step(&mut self, actor: &mut ACTOR, event: Event<ACTOR>) -> (running: bool)
        requires
            old(self).record().phase == Phase::Running,
        ensures
            final(self).record().wf(),
            final(self).limit() == old(self).limit(),
            final(self).prefers_signals() == old(self).prefers_signals(),
            running == (final(self).record().phase == Phase::Running),
            event matches Event::Message(envelope) ==> running
                && final(self).record() == old(self).record().handled()
                && envelope.delivers(*old(actor), *final(actor)),
            !(event is Message) ==> final(self).record() == old(self).record().decided(
                if running {
                    ActorAction::KeepRunning
                } else {
                    ActorAction::Stop
                },
            ),
            !(event is Message) ==> ACTOR::decides(
                *old(actor),
                *final(actor),
                if running {
                    ActorAction::KeepRunning
                } else {
                    ActorAction::Stop
                },
            ),
    {
        match event {
            Event::Message(envelope) => {
                envelope.deliver(actor, &*self);
                self.lifecycle.handled();
                true
            },
            Event::Signal(Signal::Stop) | Event::Closed => {
                let action = actor.stopping();
                self.lifecycle.decided(action)
            },
        }
    }

    /// Records a stop that the actor is not asked about.
    pub(crate) fn halt(&mut self)
        requires
            old(self).record().phase == Phase::Running,
        ensures
            final(self).record() == old(self).record().halted(),
            final(self).record().wf(),
            final(self).limit() == old(self).limit(),
    {
        self.lifecycle.halted();
    }

    /// Ends the actor's life: gives it the final notification, closes the
    /// mailbox by dropping its receiving side, and returns the lifecycle as
    /// it ended.
    pub fn finish(self, actor: &mut ACTOR) -> (lifecycle: Lifecycle)
        requires
            self.record().phase == Phase::Stopping,
        ensures
            lifecycle@ == self.record().finished(),
            lifecycle@.wf(),
            ACTOR::ends(*old(actor), *final(actor)),
    {
        let mut lifecycle = self.lifecycle;
        actor.stopped();
        lifecycle.finish();
        lifecycle
    }

    /// Looks once into one of the two channels, without waiting. What comes
    /// out of the signal channel is a signal; what comes out of the mailbox
    /// is an envelope, or the report that no sender remains.
    pub fn look(&self, source: Source) -> (event: Option<Event<ACTOR>>)
        ensures
            event matches Some(arrival) ==> (arrival is Signal <==> source == Source::Signals),
    {
        match source {
            Source::Signals => Event::from_signals(try_recv(&self.signal_receiver)),
            Source::Mailbox => {
                let taken = try_recv(self.receiver.receiver());
                assert(taken matches Err(vacant) ==> vacant == Vacant::Empty || vacant
                    == Vacant::Closed);
                Event::from_mailbox(taken)
            },
        }
    }

    /// Looks once for something to do, without waiting, and does it.
    ///
    /// Neither channel is preferred: polls look at the signal channel first
    /// and at the mailbox first in turn, and at the other one only if the
    /// first had nothing. Returns `None` if nothing had arrived, and
    /// otherwise whether the actor is still running.
    pub fn poll(&mut self, actor: &mut ACTOR) -> (progress: Option<bool>)
        requires
            old(self).record().phase == Phase::Running,
        ensures
            final(self).record().wf(),
            final(self).limit() == old(self).limit(),
            final(self).prefers_signals() == !old(self).prefers_signals(),
            progress is None ==> final(self).record() == old(self).record() && *final(actor)
                == *old(actor),
            progress matches Some(running) ==> running == (final(self).record().phase
                == Phase::Running) && (final(self).record() == old(self).record().handled()
                || final(self).record() == old(self).record().decided(
                if running {
                    ActorAction::KeepRunning
                } else {
                    ActorAction::Stop
                },
            )),
    {
        let first = Source::first(self.signals_first);
        self.signals_first = !self.signals_first;
        let event = match self.look(first) {
            Some(event) => Some(event),
            None => self.look(first.second()),
        };
        match event {
            Some(event) => Some(self.step(actor, event)),
            None => {
                proof {
                    use_type_invariant(&self.lifecycle);
                }
                None
            },
        }
    }

    /// Runs the actor on what arrives, in the order of arrival: starts it,
    /// does what each arrival asks for until the actor agrees to stop, and
    /// then gives it the final notification. Arrivals behind the agreed stop
    /// are dropped.
    ///
    /// Returns the lifecycle as it ended, with the actor. If the arrivals are
    /// used up while the actor is still running, the context comes back in
    /// its place, ready for more.
    ///
    /// The actor goes through the arrivals one at a time: each meets the
    /// actor as the one before left it, the first as `started` left it.
    pub fn run(self, actor: ACTOR, arrivals: Vec<Event<ACTOR>>) -> (outcome: Result<
        (Lifecycle, ACTOR),
        (Self, ACTOR),
    >)
        requires
            self.record().phase == Phase::Created,
        ensures
            runs_to(actor, self.limit(), arrivals@, outcome),
    {
        let ghost first = actor;
        let mut context = self;
        let mut actor = actor;
        context.start(&mut actor);
        let mut running = true;
        let ghost mut states: Seq<ACTOR> = seq![actor];
        for event in iter: arrivals
            invariant
                context.record().wf(),
                context.limit() == self.limit(),
                follows(context.record(), arrivals@),
                iter.seq() == arrivals@,
                running ==> context.record().phase == Phase::Running
                    && context.record().arrivals == iter.index(),
                !running ==> context.record().phase == Phase::Stopping,
                ACTOR::starts(first, states[0]),
                states.last() == actor,
                course(
                    arrivals@,
                    context.record().journal,
                    context.record().arrivals as int,
                    states,
                ),
        {
            if running {
                let ghost journal = context.record().journal;
                let ghost before = states;
                running = context.step(&mut actor, event);
                proof {
                    states = states.push(actor);
                    assert forall|i: int| 0 <= i < before.len() - 1 implies moves(
                        arrivals@[i],
                        context.record().journal[i + 1],
                        #[trigger] states[i],
                        states[i + 1],
                    ) by {
                        assert(context.record().journal[i + 1] == journal[i + 1]);
                        assert(states[i] == before[i]);
                        assert(states[i + 1] == before[i + 1]);
                    }
                }
            }
        }
        if running {
            Err((context, actor))
        } else {
            let ghost journal = context.record().journal;
            let ghost before = actor;
            let lifecycle = context.finish(&mut actor);
            proof {
                assert forall|i: int| 0 <= i < lifecycle@.arrivals implies moves(
                    arrivals@[i],
                    lifecycle@.journal[i + 1],
                    #[trigger] states[i],
                    states[i + 1],
                ) by {
                    assert(lifecycle@.journal[i + 1] == journal[i + 1]);
                }
                assert(course(arrivals@, lifecycle@.journal, lifecycle@.arrivals as int, states));
            }
            Ok((lifecycle, actor))
        }
    }

    /// Hands the context and the actor to `launch`, which is expected to
    /// schedule the actor's loop so that it runs independently, and returns
    /// the address of the actor.
    pub fn spawn<F: FnOnce(Self, ACTOR)>(self, actor: ACTOR, launch: F) -> (address: Address<
        ACTOR,
    >)
        requires
            launch.requires((self, actor)),
        ensures
            launch.ensures((self, actor), ()),
    {
        let address = self.address();
        launch(self, actor);
        address
    }
}

} // verus!
