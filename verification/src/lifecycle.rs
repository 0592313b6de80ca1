//! The lifecycle of a running actor: which phase it is in, and what has
//! happened to it so far.
//!
//! A [`Lifecycle`] is what a context keeps at run time. Its view, a
//! [`Record`], also holds the journal of everything that happened, which
//! exists only for reasoning. The laws at the end of this module are stated
//! over records.

use vstd::prelude::*;

use crate::actor::ActorAction;

verus! {

/// The phases an actor's execution context goes through, in this order. Only
/// a refused stop request leaves the phase as it is.
#[derive(Debug, Clone, Copy, PartialEq, Eq, Structural)]
pub enum Phase {
    /// The channels exist; the actor has seen nothing yet.
    Created,
    /// The actor was started and receives messages.
    Running,
    /// The actor agreed to stop. No message reaches it any more; the final
    /// notification is still due.
    Stopping,
    /// The final notification was given.
    Stopped,
}

/// One thing that happened to an actor.
pub enum Moment {
    /// The `started` hook ran.
    Started,
    /// A message was handled: the one that arrived as number `arrival`,
    /// counting every arrival from zero.
    Handled { arrival: nat },
    /// The `stopping` hook ran and the actor chose to keep running.
    Refused,
    /// The `stopping` hook ran and the actor agreed to stop.
    Agreed,
    /// The loop was stopped without the actor being asked.
    Halted,
    /// The `stopped` hook ran.
    Stopped,
}

/// Whether `moment` is one after which no message reaches the actor any more:
/// the actor agreed to stop, or the loop was stopped without asking it.
pub open spec fn ends_the_loop(moment: Moment) -> bool {
    moment == Moment::Agreed || moment == Moment::Halted
}

/// The phase of an actor, the number of events that have reached its loop, and
/// the journal of what happened to it, oldest first.
pub ghost struct Record {
    pub phase: Phase,
    pub arrivals: nat,
    pub journal: Seq<Moment>,
}

impl Record {
    /// The record of an actor that nothing has happened to.
    pub open spec fn fresh() -> Record {
        Record { phase: Phase::Created, arrivals: 0, journal: Seq::empty() }
    }

    /// The record after the `started` hook ran.
    pub open spec fn started(self) -> Record {
        Record { phase: Phase::Running, arrivals: 0, journal: seq![Moment::Started] }
    }

    /// The record after one more event arrived, a message, and was handled.
    pub open spec fn handled(self) -> Record {
        Record {
            phase: self.phase,
            arrivals: self.arrivals + 1,
            journal: self.journal.push(Moment::Handled { arrival: self.arrivals }),
        }
    }

    /// The record after one more event arrived, a request to stop, and the
    /// `stopping` hook answered it with `action`.
    pub open spec fn decided(self, action: ActorAction) -> Record {
        match action {
            ActorAction::KeepRunning => Record {
                phase: self.phase,
                arrivals: self.arrivals + 1,
                journal: self.journal.push(Moment::Refused),
            },
            ActorAction::Stop => Record {
                phase: Phase::Stopping,
                arrivals: self.arrivals + 1,
                journal: self.journal.push(Moment::Agreed),
            },
        }
    }

    /// The record after one more event arrived and stopped the loop, the
    /// actor not being asked.
    pub open spec fn halted(self) -> Record {
        Record {
            phase: Phase::Stopping,
            arrivals: self.arrivals + 1,
            journal: self.journal.push(Moment::Halted),
        }
    }

    /// The record after the `stopped` hook ran.
    pub open spec fn finished(self) -> Record {
        Record {
            phase: Phase::Stopped,
            arrivals: self.arrivals,
            journal: self.journal.push(Moment::Stopped),
        }
    }

    /// Whether the journal is one that an actor in this phase can have behind
    /// it: `Started` first, then one entry for each arrival, in the order of
    /// arrival, and at the end what the phase says.
    pub open spec fn wf(self) -> bool {
        let handled_or_refused = if self.phase == Phase::Running {
            self.arrivals
        } else {
            (self.arrivals - 1) as nat
        };
        &&& match self.phase {
            Phase::Created => self.journal.len() == 0 && self.arrivals == 0,
            Phase::Running => self.journal.len() == self.arrivals + 1,
            Phase::Stopping => self.arrivals >= 1 && self.journal.len() == self.arrivals + 1
                && ends_the_loop(self.journal[self.arrivals as int]),
            Phase::Stopped => self.arrivals >= 1 && self.journal.len() == self.arrivals + 2
                && ends_the_loop(self.journal[self.arrivals as int])
                && self.journal[self.arrivals as int + 1] == Moment::Stopped,
        }
        &&& self.phase != Phase::Created ==> self.journal[0] == Moment::Started
        &&& self.phase != Phase::Created ==> forall|i: int|
            1 <= i <= handled_or_refused ==> (#[trigger] self.journal[i]) == (Moment::Handled {
                arrival: (i - 1) as nat,
            }) || self.journal[i] == Moment::Refused
    }
}

/// The phase of an actor, as its context keeps it.
pub struct Lifecycle {
    phase: Phase,
    arrivals: Ghost<nat>,
    journal: Ghost<Seq<Moment>>,
}

impl View for Lifecycle {
    type V = Record;

    closed spec fn view(&self) -> Record {
        Record { phase: self.phase, arrivals: self.arrivals@, journal: self.journal@ }
    }
}

impl Lifecycle {
    #[verifier::type_invariant]
    pub(crate) open spec fn orderly(&self) -> bool {
        self@.wf()
    }

    /// A lifecycle in which nothing has happened yet.
    pub fn new() -> (fresh: Self)
        ensures
            fresh@ == Record::fresh(),
    {
        Lifecycle { phase: Phase::Created, arrivals: Ghost(0), journal: Ghost(Seq::empty()) }
    }

    /// The current phase.
    pub fn phase(&self) -> (phase: Phase)
        ensures
            phase == self@.phase,
            self@.wf(),
    {
        proof {
            use_type_invariant(self);
        }
        self.phase
    }

    /// Returns `true` while messages are being received.
    pub fn is_running(&self) -> (running: bool)
        ensures
            running == (self@.phase == Phase::Running),
    {
        self.phase == Phase::Running
    }

    /// Records that the `started` hook ran.
    pub fn start(&mut self)
        requires
            old(self)@.phase == Phase::Created,
        ensures
            final(self)@ == old(self)@.started(),
            final(self)@.wf(),
    {
        let ghost after = self@.started();
        *self = Lifecycle {
            phase: Phase::Running,
            arrivals: Ghost(after.arrivals),
            journal: Ghost(after.journal),
        };
    }

    /// Records that the next event arrived and was a message, which the actor
    /// handled.
    pub fn handled(&mut self)
        requires
            old(self)@.phase == Phase::Running,
        ensures
            final(self)@ == old(self)@.handled(),
            final(self)@.wf(),
    {
        proof {
            use_type_invariant(&*self);
        }
        let ghost before = self@;
        *self = Lifecycle {
            phase: Phase::Running,
            arrivals: Ghost(before.handled().arrivals),
            journal: Ghost(before.handled().journal),
        };
    }

    /// Records that the next event arrived and asked the actor to stop, and
    /// what the `stopping` hook answered. Returns `true` if the actor keeps
    /// running.
    pub fn decided(&mut self, action: ActorAction) -> (running: bool)
        requires
            old(self)@.phase == Phase::Running,
        ensures
            final(self)@ == old(self)@.decided(action),
            final(self)@.wf(),
            running == (action == ActorAction::KeepRunning),
    {
        proof {
            use_type_invariant(&*self);
        }
        let ghost before = self@;
        let running = match action {
            ActorAction::KeepRunning => true,
            ActorAction::Stop => false,
        };
        *self = Lifecycle {
            phase: if running {
                Phase::Running
            } else {
                Phase::Stopping
            },
            arrivals: Ghost(before.decided(action).arrivals),
            journal: Ghost(before.decided(action).journal),
        };
        running
    }

    /// Records that the next event arrived and stopped the loop without the
    /// actor being asked.
    pub fn halted(&mut self)
        requires
            old(self)@.phase == Phase::Running,
        ensures
            final(self)@ == old(self)@.halted(),
            final(self)@.wf(),
    {
        proof {
            use_type_invariant(&*self);
        }
        let ghost before = self@;
        *self = Lifecycle {
            phase: Phase::Stopping,
            arrivals: Ghost(before.halted().arrivals),
            journal: Ghost(before.halted().journal),
        };
    }

    /// Records that the `stopped` hook ran.
    pub fn finish(&mut self)
        requires
            old(self)@.phase == Phase::Stopping,
        ensures
            final(self)@ == old(self)@.finished(),
            final(self)@.wf(),
    {
        proof {
            use_type_invariant(&*self);
        }
        let ghost before = self@;
        *self = Lifecycle {
            phase: Phase::Stopped,
            arrivals: Ghost(before.finished().arrivals),
            journal: Ghost(before.finished().journal),
        };
    }
}

/// Every step of a lifecycle keeps its record well formed: the fresh record
/// is, and each transition that the phase allows leads from a well-formed
/// record to a well-formed one.
pub proof fn transitions_keep_order(record: Record, action: ActorAction)
    requires
        record.wf(),
    ensures
        Record::fresh().wf(),
        record.phase == Phase::Created ==> record.started().wf(),
        record.phase == Phase::Running ==> record.handled().wf(),
        record.phase == Phase::Running ==> record.decided(action).wf(),
        record.phase == Phase::Running ==> record.halted().wf(),
        record.phase == Phase::Stopping ==> record.finished().wf(),
{
}

/// `started` completes before the first message is handled: whenever the
/// journal shows a handled message, its first entry is `Started`, and that is
/// the only place at which `Started` occurs.
pub proof fn started_comes_first(record: Record, i: int)
    requires
        record.wf(),
        0 <= i < record.journal.len(),
    ensures
        record.journal[i] is Handled ==> i > 0 && record.journal[0] == Moment::Started,
        record.journal[i] == Moment::Started <==> i == 0,
{
}

/// Messages are handled one at a time in the order of their arrival: of two
/// handled messages in the journal, the one that stands first arrived first.
pub proof fn handled_in_order_of_arrival(record: Record, i: int, j: int)
    requires
        record.wf(),
        0 <= i < j < record.journal.len(),
        record.journal[i] is Handled,
        record.journal[j] is Handled,
    ensures
        record.journal[i]->arrival < record.journal[j]->arrival,
{
}

/// Every message that arrives while the actor is running is handled: the
/// journal entry of arrival number `n` is either that message, handled, or
/// the answer to a stop request, or the stop of the loop.
pub proof fn every_arrival_is_accounted_for(record: Record, n: nat)
    requires
        record.wf(),
        n < record.arrivals,
    ensures
        record.journal[n as int + 1] == (Moment::Handled { arrival: n })
            || record.journal[n as int + 1] == Moment::Refused || ends_the_loop(
            record.journal[n as int + 1],
        ),
        ends_the_loop(record.journal[n as int + 1]) ==> n + 1 == record.arrivals,
{
}

/// The loop ends after the last handled message and before `stopped`: once
/// the actor agreed to stop, or the loop was stopped without asking it, every
/// handled message stands before that in the journal, and `Stopped`, if it
/// occurs, stands directly behind it.
pub proof fn stop_follows_last_message(record: Record, i: int, j: int)
    requires
        record.wf(),
        0 <= i < record.journal.len(),
        0 <= j < record.journal.len(),
        ends_the_loop(record.journal[i]),
    ensures
        record.phase == Phase::Stopping || record.phase == Phase::Stopped,
        i == record.arrivals,
        record.journal[j] is Handled ==> j < i,
        record.journal[j] == Moment::Stopped ==> j == i + 1,
{
}

/// `stopped` runs exactly once, as the last thing that happens: the journal
/// of a stopped actor ends in `Stopped`, and `Stopped` occurs nowhere else in
/// any journal.
pub proof fn stopped_runs_once(record: Record, i: int)
    requires
        record.wf(),
        0 <= i < record.journal.len(),
    ensures
        record.phase == Phase::Stopped ==> record.journal.last() == Moment::Stopped,
        record.journal[i] == Moment::Stopped ==> record.phase == Phase::Stopped && i
            == record.journal.len() - 1,
{
}

/// An actor that refuses to stop goes on as before: after a stop request that
/// it answered with `KeepRunning` it is still running, and the next message
/// is handled like any other.
pub proof fn refused_stop_changes_nothing(record: Record)
    requires
        record.wf(),
        record.phase == Phase::Running,
    ensures
        record.decided(ActorAction::KeepRunning).wf(),
        record.decided(ActorAction::KeepRunning).phase == Phase::Running,
        record.decided(ActorAction::KeepRunning).handled().wf(),
        record.decided(ActorAction::KeepRunning).handled().phase == Phase::Running,
        record.decided(ActorAction::KeepRunning).handled().journal.last() == (Moment::Handled {
            arrival: record.arrivals + 1,
        }),
{
}

/// Once an actor agreed to stop, no message reaches it any more: the only
/// thing that can still happen is the final notification.
pub proof fn agreed_stop_is_final(record: Record)
    requires
        record.wf(),
        record.phase == Phase::Running,
    ensures
        record.decided(ActorAction::Stop).phase == Phase::Stopping,
        record.decided(ActorAction::Stop).finished().wf(),
        record.decided(ActorAction::Stop).finished().phase == Phase::Stopped,
        record.decided(ActorAction::Stop).finished().journal.last() == Moment::Stopped,
{
}

/// A loop that is stopped without asking the actor makes no call on it: the
/// journal gains `Halted`, and neither `Agreed` nor `Refused`, which stand
/// for an answer of the `stopping` hook. What remains is the final
/// notification.
pub proof fn halted_loop_asks_nobody(record: Record)
    requires
        record.wf(),
        record.phase == Phase::Running,
    ensures
        record.halted().wf(),
        record.halted().phase == Phase::Stopping,
        record.halted().journal == record.journal.push(Moment::Halted),
        record.halted().finished().wf(),
        record.halted().finished().journal.last() == Moment::Stopped,
{
}

} // verus!
