//! The main types required to work with this crate, in one place.

pub use crate::actor::{Actor, ActorAction, Quiet};
pub use crate::address::{Address, Delivery};
pub use crate::context::{Context, Event, Signal};
pub use crate::errors::SendError;
pub use crate::handler::{Coroutine, Handler, Notifiable};
pub use crate::registry::Registry;
pub use crate::runtime::RuntimeActorExt;
pub use crate::service::Service;
