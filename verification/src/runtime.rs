//! Ways to launch an actor.
//!
//! Nothing in this crate schedules anything. Whoever launches an actor passes
//! the capability to do so: a function that takes the context and the actor
//! and sees to it that the actor's loop runs.

use vstd::prelude::*;

use crate::actor::Actor;
use crate::address::Address;
use crate::context::{runs_to, Context, Event, DEFAULT_CAPACITY};
use crate::lifecycle::{Lifecycle, Record};

verus! {

/// Hands `context` and `actor` to `launch`, which is expected to schedule the
/// actor's loop so that it runs independently, and returns the address of the
/// actor.
pub fn spawn<A: Actor, F: FnOnce(Context<A>, A)>(context: Context<A>, actor: A, launch: F) -> (address:
    Address<A>)
    requires
        launch.requires((context, actor)),
    ensures
        launch.ensures((context, actor), ()),
{
    context.spawn(actor, launch)
}

/// More convenient ways to run and to launch an actor.
pub trait RuntimeActorExt: Actor {
    /// Creates a context with the default capacity and runs the actor in it
    /// on `arrivals`, as [`Context::run`] does.
    fn run(self, arrivals: Vec<Event<Self>>) -> (outcome: Result<
        (Lifecycle, Self),
        (Context<Self>, Self),
    >)
        ensures
            runs_to(self, DEFAULT_CAPACITY, arrivals@, outcome),
    {
        Context::new().run(self, arrivals)
    }

    /// Like [`RuntimeActorExt::run`], for an actor that needs its context to
    /// come into being, for example to know its own address: `create` makes
    /// the actor from the fresh context, and that actor is run in that
    /// context.
    fn create_and_run<F: FnOnce(&Context<Self>) -> Self>(
        create: F,
        arrivals: Vec<Event<Self>>,
    ) -> (outcome: Result<(Lifecycle, Self), (Context<Self>, Self)>)
        requires
            forall|context: Context<Self>| create.requires((&context,)),
        ensures
            exists|context: Context<Self>, actor: Self|
                context.limit() == DEFAULT_CAPACITY && context.record() == Record::fresh()
                    && #[trigger] create.ensures((&context,), actor) && runs_to(
                    actor,
                    DEFAULT_CAPACITY,
                    arrivals@,
                    outcome,
                ),
    {
        let context = Context::new();
        let this = create(&context);
        context.run(this, arrivals)
    }

    /// Creates a context with the default capacity and launches the actor in
    /// it: `launch` is called with the fresh context and the actor. Returns
    /// the address of the actor.
    fn spawn<F: FnOnce(Context<Self>, Self)>(self, launch: F) -> (address: Address<Self>)
        requires
            forall|context: Context<Self>| launch.requires((context, self)),
        ensures
            exists|context: Context<Self>|
                context.limit() == DEFAULT_CAPACITY && context.record() == Record::fresh()
                    && #[trigger] launch.ensures((context, self), ()),
    {
        let context = Context::new();
        context.spawn(self, launch)
    }

    /// Like [`RuntimeActorExt::spawn`], for an actor that needs its context
    /// to come into being: `create` makes the actor from the fresh context,
    /// and `launch` is called with that context and that actor.
    fn create_and_spawn<C: FnOnce(&Context<Self>) -> Self, F: FnOnce(Context<Self>, Self)>(
        create: C,
        launch: F,
    ) -> (address: Address<Self>)
        requires
            forall|context: Context<Self>| create.requires((&context,)),
            forall|context: Context<Self>, actor: Self| launch.requires((context, actor)),
        ensures
            exists|context: Context<Self>, actor: Self|
                context.limit() == DEFAULT_CAPACITY && context.record() == Record::fresh()
                    && create.ensures((&context,), actor) && #[trigger] launch.ensures(
                    (context, actor),
                    (),
                ),
    {
        let context = Context::new();
        let this = create(&context);
        context.spawn(this, launch)
    }
}

impl<T: Actor> RuntimeActorExt for T {

}

} // verus!
