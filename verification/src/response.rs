//! The one-shot channel over which a response travels back to the sender of a
//! request.
//!
//! The channel itself is `futures::channel::oneshot`. Nothing in this module is
//! proved about it: the items below only say what the verified code may rely
//! on.

use futures::channel::oneshot::{Canceled, Receiver, Sender};
use vstd::prelude::*;

use crate::errors::SendError;

verus! {

/// The sending half of `futures::channel::oneshot`. Opaque: nothing is known
/// of a value of this type.
#[verifier::external_type_specification]
#[verifier::external_body]
#[verifier::reject_recursive_types(T)]
pub struct ExSender<T>(Sender<T>);

/// The receiving half of `futures::channel::oneshot`. Opaque as well.
#[verifier::external_type_specification]
#[verifier::external_body]
#[verifier::reject_recursive_types(T)]
pub struct ExReceiver<T>(Receiver<T>);

/// `futures::channel::oneshot::Canceled`, which a receiving half yields when
/// its sending half was dropped without a value. Opaque as well.
#[verifier::external_type_specification]
#[verifier::external_body]
pub struct ExCanceled(Canceled);

/// `futures::channel::oneshot::channel` creates both halves of a fresh
/// channel. Nothing is claimed about them.
pub assume_specification<T>[ futures::channel::oneshot::channel::<T> ]() -> (halves: (
    Sender<T>,
    Receiver<T>,
));

/// `futures::channel::oneshot::Sender::send` hands the value to the receiving
/// half. Whether that succeeds depends on the other half, which may have been
/// dropped at any time, so the only claim is that a failed call gives the very
/// same value back.
pub assume_specification<T>[ Sender::<T>::send ](sender: Sender<T>, value: T) -> (handed_over:
    Result<(), T>)
    ensures
        handed_over matches Err(returned) ==> returned == value,
;

/// What the sender of a response learns from an attempt to hand it over: a
/// value that came back means that nobody is waiting for it any more.
pub fn acknowledged<T>(handed_over: Result<(), T>) -> (outcome: Result<(), SendError>)
    ensures
        handed_over is Ok ==> outcome == Ok::<(), SendError>(()),
        handed_over is Err ==> outcome == Err::<(), SendError>(SendError::ReceiverDisconnected),
{
    match handed_over {
        Ok(()) => Ok(()),
        Err(_) => Err(SendError::ReceiverDisconnected),
    }
}

/// What the sender of a request learns once the wait for the response is over:
/// the response itself, or that the actor went away without producing one.
pub fn received<T>(response: Option<T>) -> (outcome: Result<T, SendError>)
    ensures
        response matches Some(value) ==> outcome == Ok::<T, SendError>(value),
        response is None ==> outcome == Err::<T, SendError>(SendError::ReceiverDisconnected),
{
    match response {
        Some(value) => Ok(value),
        None => Err(SendError::ReceiverDisconnected),
    }
}

} // verus!
