//! A runtime-agnostic actor messaging core.
//!
//! Actors are isolated units of state that are manipulated only through
//! messages. This crate holds the parts of the protocol that do not depend on
//! a scheduler: the single-use envelopes, the lifecycle of a running actor, the
//! outcome of every step of a send, and the registry of named services.
//!
//! Nothing in this crate waits or schedules. An [`Address`](address::Address)
//! offers envelopes to the mailbox and reports a full one instead of waiting
//! for room; a [`Context`](context::Context) looks for the next arrival and
//! reports an empty mailbox instead of waiting for one. How to wait in between
//! is left to whoever runs the actor.
//!
//! ## Main entities
//!
//! - [`Actor`](actor::Actor): definition of an actor.
//! - [`Context`](context::Context): execution context for an actor.
//! - [`Address`](address::Address): address of an actor, used to communicate
//!   with it.
//! - Handler traits: [`Handler`](handler::Handler),
//!   [`Notifiable`](handler::Notifiable) and [`Coroutine`](handler::Coroutine).
//! - [`Registry`](registry::Registry): collection of independent, unique and
//!   named actors, each a [`Service`](service::Service).

pub mod actor;
pub mod address;
pub mod channel;
pub mod context;
pub mod envelope;
pub mod errors;
pub mod handler;
pub mod lifecycle;
pub mod mailbox;
pub mod message;
pub mod prelude;
pub mod registry;
pub mod request;
pub mod response;
pub mod runner;
pub mod runtime;
pub mod service;
