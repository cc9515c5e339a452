//! The actor's inbound queue: a bounded tokio channel of messages.

use vstd::prelude::*;
use tokio::sync::mpsc::error::SendError;
use tokio::sync::mpsc::{Receiver, Sender};
use crate::error::BoosterError;

verus! {

/// `tokio::sync::mpsc::Sender`, the sending end of a bounded channel. Opaque.
#[verifier::external_type_specification]
#[verifier::external_body]
#[verifier::reject_recursive_types(T)]
pub struct ExSender<T>(Sender<T>);

/// `tokio::sync::mpsc::Receiver`, the receiving end of a bounded channel. Opaque.
#[verifier::external_type_specification]
#[verifier::external_body]
#[verifier::reject_recursive_types(T)]
pub struct ExReceiver<T>(Receiver<T>);

/// `tokio::sync::mpsc::error::SendError`, which a send returns once the
/// receiving end is gone. Opaque.
#[verifier::external_type_specification]
#[verifier::external_body]
#[verifier::reject_recursive_types(T)]
pub struct ExSendError<T>(SendError<T>);

/// `Clone` of `tokio::sync::mpsc::Sender`. A sender is nothing but a shared
/// reference to its channel, and the clone holds the same one: as a value it
/// is the sender it was cloned from, another sending end of the same channel.
pub assume_specification<T>[ <Sender<T> as Clone>::clone ](sender: &Sender<T>) -> (other: Sender<T>)
    ensures
        other == *sender,
;

/// How many messages may wait in the queue before senders are held back.
pub const QUEUE_CAPACITY: usize = 8;

/// The largest buffer asked of a channel here; tokio accepts more, but no
/// less than this on any target.
pub const MAX_BUFFER: usize = 0x1fff_ffff;

/// `tokio::sync::mpsc::channel`. It panics on a buffer of zero and on one
/// above its semaphore's limit of permits, so both are left out. The two ends
/// that come back are opaque here, and nothing is claimed of them.
#[verifier::external_body]
pub(crate) fn bounded_channel<T>(buffer: usize) -> (ends: (Sender<T>, Receiver<T>))
    requires
        0 < buffer <= MAX_BUFFER,
{
    tokio::sync::mpsc::channel(buffer)
}

/// What an enqueue came to, given what the channel's send returned: the
/// message is on the queue, or the queue is closed because the actor has
/// stopped.
pub fn enqueued<T>(sent: Result<(), SendError<T>>) -> (res: Result<(), BoosterError>)
    ensures
        sent is Ok ==> res == Ok::<(), BoosterError>(()),
        sent is Err ==> res == Err::<(), BoosterError>(BoosterError::QueueClosed),
{
    match sent {
        Ok(_) => Ok(()),
        Err(_) => Err(BoosterError::QueueClosed),
    }
}

} // verus!
