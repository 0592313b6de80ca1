//! An actor is an entity capable of receiving and processing messages.
//!
//! Each actor runs in an associated [`Context`](crate::context::Context),
//! which delivers its messages and manages its lifetime. A minimal actor needs
//! none of the methods below; they give control over what happens when the
//! actor starts and stops.

use vstd::prelude::*;

verus! {

/// What an actor answers when it is asked to stop.
#[derive(Debug, Clone, Copy, PartialEq, Eq, Structural)]
pub enum ActorAction {
    /// The actor stops: no further message reaches it.
    Stop,
    /// The actor refuses to stop for now and goes on receiving messages.
    KeepRunning,
}

/// An entity capable of receiving and processing messages.
///
/// Each of the three hooks comes with a relation that says what the hook may
/// do to the actor. By default the relations promise nothing; an actor says in
/// them as much as its callers are to know. An actor that has nothing to do in
/// any hook is a [`Quiet`] one.
pub trait Actor: Send + Sized + 'static {
    /// What `started` may turn the actor into.
    open spec fn starts(before: Self, after: Self) -> bool {
        true
    }

    /// What `stopping` may turn the actor into, and what it may answer then.
    open spec fn decides(before: Self, after: Self, action: ActorAction) -> bool {
        true
    }

    /// What `stopped` may turn the actor into.
    open spec fn ends(before: Self, after: Self) -> bool {
        true
    }

    /// Called once the context was launched, before any message is passed to
    /// the actor.
    fn started(&mut self)
        ensures
            Self::starts(*old(self), *final(self)),
    ;

    /// Called when a stop was requested or every address of the actor is
    /// gone. The answer decides whether the actor stops; after `Stop` no
    /// message is passed to it any more.
    fn stopping(&mut self) -> (action: ActorAction)
        ensures
            Self::decides(*old(self), *final(self), action),
    ;

    /// The final notification: after it the actor is only dropped.
    fn stopped(&mut self)
        ensures
            Self::ends(*old(self), *final(self)),
    ;
}

/// An actor that takes no notice of its lifecycle: its hooks do nothing, and
/// it stops as soon as it is asked to. Such an actor needs no more than an
/// empty `impl` of this trait.
pub trait Quiet: Send + Sized + 'static {

}

impl<T: Quiet> Actor for T {
    open spec fn starts(before: Self, after: Self) -> bool {
        after == before
    }

    open spec fn decides(before: Self, after: Self, action: ActorAction) -> bool {
        after == before && action == ActorAction::Stop
    }

    open spec fn ends(before: Self, after: Self) -> bool {
        after == before
    }

    fn started(&mut self) {
    }

    fn stopping(&mut self) -> (action: ActorAction) {
        ActorAction::Stop
    }

    fn stopped(&mut self) {
    }
}

} // verus!
