//! The bounded channels that connect addresses to a running actor.
//!
//! The channels are those of `async_channel`. Their state is shared between
//! all the handles of a channel and changes under the feet of whoever looks at
//! it, so the items below promise nothing about what an operation finds, only
//! that a value which could not be sent comes back unchanged.

use async_channel::{Receiver, Sender, TryRecvError, TrySendError};
use vstd::prelude::*;

verus! {

/// The sending half of an `async_channel` channel. Opaque: nothing is known of
/// a value of this type.
#[verifier::external_type_specification]
#[verifier::external_body]
#[verifier::reject_recursive_types(T)]
pub struct ExSender<T>(Sender<T>);

/// The receiving half of an `async_channel` channel. Opaque as well.
#[verifier::external_type_specification]
#[verifier::external_body]
#[verifier::reject_recursive_types(T)]
pub struct ExReceiver<T>(Receiver<T>);

/// Why a value could not be put into a channel right now. Either way the value
/// is handed back.
pub enum Rejected<T> {
    /// The channel holds as many values as its capacity allows.
    Full(T),
    /// The channel is closed.
    Closed(T),
}

/// Why no value could be taken from a channel right now.
#[derive(Debug, Clone, Copy, PartialEq, Eq, Structural)]
pub enum Vacant {
    /// The channel is empty but still open.
    Empty,
    /// The channel is empty and closed: nothing will ever arrive.
    Closed,
}

/// `async_channel::bounded` creates a channel that holds at most `cap` values.
/// It panics on a capacity of zero, which is therefore excluded.
pub assume_specification<T>[ async_channel::bounded::<T> ](cap: usize) -> (halves: (
    Sender<T>,
    Receiver<T>,
))
    requires
        cap > 0,
;

/// `async_channel::Sender::is_closed` reports whether the channel is closed at
/// the moment of the call.
pub assume_specification<T>[ Sender::<T>::is_closed ](sender: &Sender<T>) -> (closed: bool);

/// `async_channel::Sender::try_send` puts a value into the channel without
/// waiting. What it finds is not known in advance; a value that was not
/// accepted is the one that comes back.
#[verifier::external_body]
pub(crate) fn try_send<T>(sender: &Sender<T>, value: T) -> (outcome: Result<(), Rejected<T>>)
    ensures
        outcome matches Err(Rejected::Full(returned)) ==> returned == value,
        outcome matches Err(Rejected::Closed(returned)) ==> returned == value,
{
    match sender.try_send(value) {
        Ok(()) => Ok(()),
        Err(TrySendError::Full(returned)) => Err(Rejected::Full(returned)),
        Err(TrySendError::Closed(returned)) => Err(Rejected::Closed(returned)),
    }
}

/// `async_channel::Receiver::try_recv` takes the next value out of the channel
/// without waiting, if there is one.
#[verifier::external_body]
pub(crate) fn try_recv<T>(receiver: &Receiver<T>) -> (outcome: Result<T, Vacant>) {
    match receiver.try_recv() {
        Ok(value) => Ok(value),
        Err(TryRecvError::Empty) => Err(Vacant::Empty),
        Err(TryRecvError::Closed) => Err(Vacant::Closed),
    }
}

/// `Clone::clone` of `async_channel::Sender` makes one more sending handle of
/// the same channel. (It aborts the process once more than half of `usize::MAX`
/// handles exist, which no program reaches by cloning.)
#[verifier::external_body]
pub(crate) fn another<T>(sender: &Sender<T>) -> (handle: Sender<T>) {
    sender.clone()
}

} // verus!
