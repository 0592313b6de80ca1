//! A runner owns an actor and runs it to the end.

use vstd::prelude::*;

use crate::actor::Actor;
use crate::address::Address;
use crate::context::{pause, traces, Context, Event};
use crate::errors::ReceiveError;
use crate::lifecycle::{Lifecycle, Record};

verus! {

/// The record after `count` more messages arrived and were handled.
pub open spec fn handled_times(record: Record, count: nat) -> Record
    decreases count,
{
    if count == 0 {
        record
    } else {
        handled_times(record, (count - 1) as nat).handled()
    }
}

/// An actor together with its context. A runner does not ask the actor
/// whether it wants to stop: the first stop signal ends the run, and so does
/// the end of the arrivals. Of the hooks it calls `started` and `stopped`.
#[verifier::reject_recursive_types(ACTOR)]
pub struct ActorRunner<ACTOR: Actor> {
    actor: ACTOR,
    context: Context<ACTOR>,
}

impl<ACTOR: Actor> ActorRunner<ACTOR> {
    /// The actor that is run.
    pub closed spec fn actor(&self) -> ACTOR {
        self.actor
    }

    /// The context in which the actor is run.
    pub closed spec fn context(&self) -> Context<ACTOR> {
        self.context
    }

    /// A runner for `actor` whose mailbox has the default capacity.
    pub fn new(actor: ACTOR) -> (runner: Self)
        ensures
            runner.actor() == actor,
            runner.context().limit() == crate::context::DEFAULT_CAPACITY,
            runner.context().record() == Record::fresh(),
    {
        Self::with_capacity(actor, crate::context::DEFAULT_CAPACITY)
    }

    /// A runner for `actor` whose mailbox holds at most `capacity` envelopes.
    pub fn with_capacity(actor: ACTOR, capacity: usize) -> (runner: Self)
        requires
            capacity > 0,
        ensures
            runner.actor() == actor,
            runner.context().limit() == capacity,
            runner.context().record() == Record::fresh(),
    {
        Self { actor, context: Context::with_capacity(capacity) }
    }

    /// Returns an address of the actor.
    pub fn address(&self) -> Address<ACTOR> {
        self.context.address()
    }

    /// Runs the actor: starts it, lets it handle the messages that arrive
    /// until something else arrives or nothing is left, and gives it the
    /// final notification. The actor is not asked whether it wants to stop.
    /// Returns the lifecycle as it ended, with the actor. This run never
    /// fails.
    pub fn run(self, arrivals: Vec<Event<ACTOR>>) -> (outcome: Result<
        (Lifecycle, ACTOR),
        ReceiveError,
    >)
        requires
            self.context().record() == Record::fresh(),
        ensures
            outcome matches Ok(ended) && ended.0@ == handled_times(
                Record::fresh().started(),
                pause(arrivals@, 0) as nat,
            ).halted().finished() && exists|states: Seq<ACTOR>| #[trigger]
                traces(arrivals@, pause(arrivals@, 0), states) && ACTOR::starts(
                    self.actor(),
                    states[0],
                ) && ACTOR::ends(states.last(), ended.1),
    {
        let mut context = self.context;
        let mut actor = self.actor;
        context.start(&mut actor);
        let mut running = true;
        let ghost mut states: Seq<ACTOR> = seq![actor];
        for event in iter: arrivals
            invariant
                iter.seq() == arrivals@,
                context.record().wf(),
                ACTOR::starts(self.actor(), states[0]),
                states.last() == actor,
                running ==> pause(arrivals@, 0) == pause(arrivals@, iter.index() as int)
                    && context.record() == handled_times(
                    Record::fresh().started(),
                    iter.index() as nat,
                ) && traces(arrivals@, iter.index() as int, states),
                !running ==> context.record() == handled_times(
                    Record::fresh().started(),
                    pause(arrivals@, 0) as nat,
                ).halted() && traces(arrivals@, pause(arrivals@, 0), states),
        {
            if running {
                match event {
                    Event::Message(envelope) => {
                        let _ = context.step(&mut actor, Event::Message(envelope));
                        proof {
                            states = states.push(actor);
                        }
                    },
                    _ => {
                        context.halt();
                        running = false;
                    },
                }
            }
        }
        if running {
            context.halt();
        }
        Ok((context.finish(&mut actor), actor))
    }
}

} // verus!
