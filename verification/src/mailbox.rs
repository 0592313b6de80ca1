//! A mailbox is the receiving side of the communication with an actor; the
//! sending side is an [`Address`].

use vstd::prelude::*;

use crate::actor::Actor;
use crate::address::Address;
use crate::context::{pause, traces, Context, Event, DEFAULT_CAPACITY};
use crate::errors::ReceiveError;

verus! {

/// An actor together with the receiving side of its mailbox. The actor has
/// no say in when the loop ends, and it is not told: none of its hooks is
/// called.
#[verifier::reject_recursive_types(ACTOR)]
pub struct Mailbox<ACTOR: Actor> {
    actor: ACTOR,
    context: Context<ACTOR>,
    handled: Ghost<nat>,
}

impl<ACTOR: Actor> Mailbox<ACTOR> {
    /// The capacity of the mailbox.
    pub closed spec fn limit(&self) -> usize {
        self.context.limit()
    }

    /// The actor behind the mailbox.
    pub closed spec fn occupant(&self) -> ACTOR {
        self.actor
    }

    /// How many messages the actor has handled so far.
    pub closed spec fn handled(&self) -> nat {
        self.handled@
    }

    /// Creates a new mailbox for `actor` with the default capacity.
    pub fn new(actor: ACTOR) -> (mailbox: Self)
        ensures
            mailbox.occupant() == actor,
            mailbox.limit() == DEFAULT_CAPACITY,
            mailbox.handled() == 0,
    {
        Self::with_capacity(actor, DEFAULT_CAPACITY)
    }

    /// Creates a new mailbox for `actor` that holds at most `capacity`
    /// envelopes.
    pub fn with_capacity(actor: ACTOR, capacity: usize) -> (mailbox: Self)
        requires
            capacity > 0,
        ensures
            mailbox.occupant() == actor,
            mailbox.limit() == capacity,
            mailbox.handled() == 0,
    {
        Self { actor, context: Context::with_capacity(capacity), handled: Ghost(0) }
    }

    /// Creates an address to communicate with this mailbox.
    pub fn address(&self) -> Address<ACTOR> {
        self.context.address()
    }

    /// The actor behind the mailbox.
    pub fn actor(&self) -> (actor: &ACTOR)
        ensures
            *actor == self.occupant(),
    {
        &self.actor
    }

    /// Lets the actor handle the messages that arrive, in their order, until
    /// something else arrives or nothing is left. A stop signal ends the loop,
    /// and so does the report that no sender remains; when the arrivals run
    /// out, nothing can arrive any more, which is a stop as well. None of
    /// these is an error: the loop always ends well.
    pub fn run(&mut self, arrivals: Vec<Event<ACTOR>>) -> (outcome: Result<(), ReceiveError>)
        ensures
            outcome == Ok::<(), ReceiveError>(()),
            final(self).handled() == old(self).handled() + pause(arrivals@, 0),
            final(self).limit() == old(self).limit(),
            exists|states: Seq<ACTOR>| #[trigger]
                traces(arrivals@, pause(arrivals@, 0), states) && states[0] == old(
                    self,
                ).occupant() && states.last() == final(self).occupant(),
    {
        let mut running = true;
        let ghost mut states: Seq<ACTOR> = seq![self.actor];
        for event in iter: arrivals
            invariant
                iter.seq() == arrivals@,
                self.limit() == old(self).limit(),
                states[0] == old(self).occupant(),
                states.last() == self.occupant(),
                running ==> pause(arrivals@, 0) == pause(arrivals@, iter.index() as int)
                    && self.handled() == old(self).handled() + iter.index() && traces(
                    arrivals@,
                    iter.index() as int,
                    states,
                ),
                !running ==> self.handled() == old(self).handled() + pause(arrivals@, 0)
                    && traces(arrivals@, pause(arrivals@, 0), states),
        {
            if running {
                match event {
                    Event::Message(envelope) => {
                        envelope.deliver(&mut self.actor, &self.context);
                        proof {
                            self.handled@ = self.handled@ + 1;
                            states = states.push(self.actor);
                        }
                    },
                    _ => {
                        running = false;
                    },
                }
            }
        }
        Ok(())
    }
}

} // verus!
