//! Actors that can be kept in a registry.

use vstd::prelude::*;

use crate::actor::Actor;
use crate::address::Address;
use crate::context::{Context, DEFAULT_CAPACITY};
use crate::lifecycle::Record;

verus! {

/// An actor of which one instance serves the whole process. It is found
/// under its name, which no other service may share.
pub trait Service: Actor + Default {
    /// The name under which the service is registered.
    const NAME: &'static str;

    /// Creates the service in its default state, as `default` gives it, and
    /// hands it, with a fresh context of the default capacity, to `launch`,
    /// which is expected to schedule its loop. Returns the address of the new
    /// instance.
    fn start_service<F: FnOnce(Context<Self>, Self)>(launch: F) -> (address: Address<Self>)
        requires
            forall|context: Context<Self>, service: Self| launch.requires((context, service)),
        ensures
            exists|context: Context<Self>, service: Self|
                context.limit() == DEFAULT_CAPACITY && context.record() == Record::fresh()
                    && Self::default.ensures((), service) && #[trigger] launch.ensures(
                    (context, service),
                    (),
                ),
    {
        let context = Context::new();
        context.spawn(Self::default(), launch)
    }
}

} // verus!
