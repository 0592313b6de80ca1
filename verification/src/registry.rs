//! A registry gives out the addresses of services: actors of which one
//! instance serves everybody, and which are found under a name.
//!
//! When the address of a service is requested, the registry checks whether
//! the service is already running. If so, its address is returned. Otherwise
//! the service is launched first.

use core::any::Any;
use vstd::prelude::*;

use crate::address::Address;
use crate::context::{Context, DEFAULT_CAPACITY};
use crate::lifecycle::Record;
use crate::service::Service;

verus! {

/// How a service stands in the registry when its address is requested.
#[derive(Debug, Clone, Copy, PartialEq, Eq, Structural)]
pub enum Standing {
    /// Nothing is registered under the name.
    Absent,
    /// An address is registered under the name, but it belongs to an actor
    /// of another type.
    Foreign,
    /// The service is registered, but its actor has stopped.
    Stopped,
    /// The service is registered and its actor is running.
    Running,
}

/// What the registry does about a request.
#[derive(Debug, Clone, Copy, PartialEq, Eq, Structural)]
pub enum Plan {
    /// Hand out the registered address.
    Reuse,
    /// Launch a new instance and register its address.
    Launch,
    /// Refuse: two services share a name.
    Refuse,
}

/// Two services of different types were registered under one name. Names are
/// expected to be unique; there is nothing a caller can do about this at run
/// time.
#[derive(Debug, Clone, Copy, PartialEq, Eq, Structural)]
pub struct NameCollision;

impl Standing {
    /// What is to be done about a request for a service that stands like
    /// this.
    pub open spec fn calls_for(self) -> Plan {
        match self {
            Standing::Running => Plan::Reuse,
            Standing::Absent | Standing::Stopped => Plan::Launch,
            Standing::Foreign => Plan::Refuse,
        }
    }

    /// How a service stands of which `found` says whether anything is
    /// registered under its name, `typed` whether that is an address of the
    /// service's own type, and `connected` whether that address still reaches
    /// its actor.
    pub fn of(found: bool, typed: bool, connected: bool) -> (standing: Self)
        ensures
            !found ==> standing == Standing::Absent,
            found && !typed ==> standing == Standing::Foreign,
            found && typed && !connected ==> standing == Standing::Stopped,
            found && typed && connected ==> standing == Standing::Running,
    {
        if !found {
            Standing::Absent
        } else if !typed {
            Standing::Foreign
        } else if !connected {
            Standing::Stopped
        } else {
            Standing::Running
        }
    }

    /// Decides what to do about a request.
    pub fn plan(self) -> (plan: Plan)
        ensures
            plan == self.calls_for(),
    {
        match self {
            Standing::Running => Plan::Reuse,
            Standing::Absent | Standing::Stopped => Plan::Launch,
            Standing::Foreign => Plan::Refuse,
        }
    }
}

/// Asking twice gives the same service: a service that is registered and
/// running is never launched again, its address is handed out. Only a service
/// that is not registered, or has stopped, is launched.
pub proof fn running_service_is_reused(standing: Standing)
    ensures
        standing.calls_for() == Plan::Reuse <==> standing == Standing::Running,
        standing.calls_for() == Plan::Launch <==> standing == Standing::Absent || standing
            == Standing::Stopped,
        standing.calls_for() == Plan::Refuse <==> standing == Standing::Foreign,
{
}

/// A registered address. Its type is no longer visible: addresses of
/// services of all types are kept side by side. What is in the box is left
/// open.
#[verifier::external_body]
pub struct Stored {
    address: Box<dyn Any + Send>,
}

impl Stored {
    /// `Box::new` puts the address on the heap, where its type is forgotten.
    /// Nothing is claimed about the result.
    #[verifier::external_body]
    fn new<S: Service>(address: Address<S>) -> (stored: Self) {
        Stored { address: Box::new(address) }
    }

    /// `Any::downcast_ref` gives the address back if it is one of a service
    /// of type `S`, and nothing otherwise. Trusted; which of the two
    /// happens is left open.
    #[verifier::external_body]
    fn get<S: Service>(&self) -> (address: Option<&Address<S>>) {
        self.address.downcast_ref::<Address<S>>()
    }
}

/// One line of the registry.
pub struct Entry {
    name: String,
    address: Stored,
}

/// The manager of services: it knows the address of each service that was
/// ever requested from it, under the service's name.
pub struct Registry {
    services: Vec<Entry>,
}

impl Default for Registry {
    /// A registry in which nothing is registered.
    fn default() -> (registry: Self)
        ensures
            registry.names() == Seq::<Seq<char>>::empty(),
    {
        Self::new()
    }
}

impl Registry {
    /// The names under which something is registered, in the order of
    /// registration.
    pub closed spec fn names(&self) -> Seq<Seq<char>> {
        Seq::new(self.services@.len(), |i: int| self.services@[i].name@)
    }

    /// Whether something is registered under `name`.
    pub open spec fn knows(&self, name: Seq<char>) -> bool {
        self.names().contains(name)
    }

    #[verifier::type_invariant]
    pub(crate) open spec fn unique(&self) -> bool {
        self.names().no_duplicates()
    }

    /// A registry in which nothing is registered.
    pub fn new() -> (registry: Self)
        ensures
            registry.names() == Seq::<Seq<char>>::empty(),
    {
        let registry = Registry { services: Vec::new() };
        assert(registry.names() =~= Seq::<Seq<char>>::empty());
        registry
    }

    /// The number of registered services.
    pub fn len(&self) -> (len: usize)
        ensures
            len == self.names().len(),
            self.names().no_duplicates(),
    {
        proof {
            use_type_invariant(self);
        }
        self.services.len()
    }

    /// Looks `name` up: the place at which it is registered, if it is.
    pub fn position(&self, name: &String) -> (place: Option<usize>)
        ensures
            place matches Some(i) ==> i < self.names().len() && self.names()[i as int] == name@,
            place is None ==> !self.knows(name@),
    {
        let mut i: usize = 0;
        while i < self.services.len()
            invariant
                i <= self.services.len(),
                forall|j: int| 0 <= j < i ==> self.names()[j] != name@,
            decreases self.services.len() - i,
        {
            if self.services[i].name == *name {
                return Some(i);
            }
            i += 1;
        }
        None
    }

    /// Finds out how the service `S` stands: the place at which its name is
    /// registered, if it is; the standing, which [`Standing::of`] makes of
    /// what was found there; and the registered address, if its actor is
    /// running.
    pub fn standing<S: Service>(&self) -> (report: (Option<usize>, Standing, Option<Address<S>>))
        ensures
            report.0 matches Some(i) ==> i < self.names().len() && self.names()[i as int]
                == S::NAME@,
            report.0 is None ==> !self.knows(S::NAME@),
            report.0 is None <==> report.1 == Standing::Absent,
            report.1 == Standing::Running <==> report.2 is Some,
    {
        let name = S::NAME.to_owned();
        let place = self.position(&name);
        let stored = match place {
            Some(i) => self.services[i].address.get::<S>(),
            None => None,
        };
        let running = match stored {
            Some(address) => if address.connected() {
                Some(address.clone())
            } else {
                None
            },
            None => None,
        };
        let standing = Standing::of(place.is_some(), stored.is_some(), running.is_some());
        (place, standing, running)
    }

    /// Returns the address of the service `S`.
    ///
    /// If the service is registered and its actor is running, that actor's
    /// address is returned. If nothing is registered under the name of `S`,
    /// or what is registered has stopped, a new instance is launched with
    /// `launch` and registered.
    ///
    /// A name that belongs to a service of another type cannot be served.
    /// That is a mistake in the program, not a condition to recover from:
    /// the request is refused, the registry stays as it is, and the caller is
    /// expected to give up. Nothing else is refused.
    ///
    /// How the service stands is found out by [`Registry::standing`]; what
    /// is done about it is what [`Registry::settle`] does.
    pub fn service<S: Service, F: FnOnce(Context<S>, S)>(&mut self, launch: F) -> (found: Result<
        Address<S>,
        NameCollision,
    >)
        requires
            forall|context: Context<S>, service: S| launch.requires((context, service)),
        ensures
            final(self).names().no_duplicates(),
            final(self).knows(S::NAME@),
            old(self).knows(S::NAME@) ==> final(self).names() == old(self).names(),
            !old(self).knows(S::NAME@) ==> found is Ok
                && final(self).names() == old(self).names().push(S::NAME@),
            found is Err ==> *final(self) == *old(self),
            !old(self).knows(S::NAME@) ==> exists|context: Context<S>, service: S|
                context.limit() == DEFAULT_CAPACITY && context.record() == Record::fresh()
                    && S::default.ensures((), service) && #[trigger] launch.ensures(
                    (context, service),
                    (),
                ),
    {
        proof {
            use_type_invariant(&*self);
        }
        let (place, standing, running) = self.standing::<S>();
        assert(place matches Some(i) ==> self.knows(S::NAME@));
        match standing {
            Standing::Foreign => Err(NameCollision),
            _ => Ok(self.settle(place, standing, running, launch)),
        }
    }

    /// Does what a request for the service `S` calls for, the service
    /// standing as `standing` says: `place` is where its name is registered,
    /// if it is, and `running` the registered address, if its actor is
    /// running.
    ///
    /// A running service is not launched again: its address is handed out
    /// and the registry stays as it is. A service that is absent or has
    /// stopped is launched with `launch`, and the address of the new instance
    /// is registered under the name, in place of the old one if there was
    /// one. A name that belongs to a service of another type has no place
    /// here: whoever finds one gives up.
    pub fn settle<S: Service, F: FnOnce(Context<S>, S)>(
        &mut self,
        place: Option<usize>,
        standing: Standing,
        running: Option<Address<S>>,
        launch: F,
    ) -> (address: Address<S>)
        requires
            standing != Standing::Foreign,
            place matches Some(i) ==> i < old(self).names().len() && old(self).names()[i as int]
                == S::NAME@,
            place is None ==> !old(self).knows(S::NAME@),
            place is None <==> standing == Standing::Absent,
            standing == Standing::Running <==> running is Some,
            forall|context: Context<S>, service: S| launch.requires((context, service)),
        ensures
            final(self).names().no_duplicates(),
            final(self).knows(S::NAME@),
            old(self).knows(S::NAME@) ==> final(self).names() == old(self).names(),
            !old(self).knows(S::NAME@) ==> final(self).names() == old(self).names().push(
                S::NAME@,
            ),
            standing == Standing::Running ==> *final(self) == *old(self) && running == Some(
                address,
            ),
            standing != Standing::Running ==> exists|context: Context<S>, service: S|
                context.limit() == DEFAULT_CAPACITY && context.record() == Record::fresh()
                    && S::default.ensures((), service) && #[trigger] launch.ensures(
                    (context, service),
                    (),
                ),
    {
        proof {
            use_type_invariant(&*self);
        }
        assert(place matches Some(i) ==> self.knows(S::NAME@));
        match standing.plan() {
            Plan::Reuse => running.unwrap(),
            Plan::Launch | Plan::Refuse => {
                assert(standing.calls_for() == Plan::Launch);
                let address = S::start_service(launch);
                let entry = Entry { name: S::NAME.to_owned(), address: Stored::new(address.clone()) };
                match place {
                    Some(i) => {
                        let ghost before = self.names();
                        let mut services = Vec::new();
                        core::mem::swap(&mut services, &mut self.services);
                        services.set(i, entry);
                        assert(Seq::new(services@.len(), |j: int| services@[j].name@) =~= before);
                        *self = Registry { services };
                        assert(self.names()[i as int] == S::NAME@);
                    },
                    None => {
                        let ghost before = self.names();
                        let mut services = Vec::new();
                        core::mem::swap(&mut services, &mut self.services);
                        services.push(entry);
                        assert(Seq::new(services@.len(), |j: int| services@[j].name@)
                            =~= before.push(S::NAME@));
                        *self = Registry { services };
                        assert(self.names()[before.len() as int] == S::NAME@);
                    },
                }
                address
            },
        }
    }
}

} // verus!
