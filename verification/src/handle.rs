//! The handle: the only way in which code outside reaches the actor.

use vstd::prelude::*;
use tokio::sync::mpsc::Sender;
use crate::booster::{Booster, BoosterState, Phase, DEFAULT_AMOUNT};
use crate::mailbox::{bounded_channel, QUEUE_CAPACITY};
use crate::message::BoosterMessage;

verus! {

/// A capability that routes messages to one actor. It holds the sending end
/// of the actor's queue and nothing else; clones route to the same actor.
#[derive(Debug)]
#[verifier::reject_recursive_types(C)]
pub struct BoosterHandle<C> {
    sender: Sender<BoosterMessage<C>>,
}

impl<C> Clone for BoosterHandle<C> {
    /// Another handle on the same actor: it holds the same sending end, so
    /// what is enqueued through it goes on the same queue. No queue and no
    /// actor is made.
    fn clone(&self) -> (other: Self)
        ensures
            other.outbox() == self.outbox(),
    {
        BoosterHandle { sender: self.sender.clone() }
    }
}

impl<C> BoosterHandle<C> {
    /// Opens a queue bounded by `QUEUE_CAPACITY` and gives its two sides: the
    /// handle, and a fresh actor on the receiving end, which is running, has
    /// no admin bound and adjusts by the default amount. Nothing has been
    /// handled yet; the actor is the caller's to drive.
    pub fn new() -> (pair: (Self, Booster<C>))
        ensures
            pair.1@ == (BoosterState::<C> { admin: None, amount: DEFAULT_AMOUNT, phase: Phase::Running }),
    {
        let (sender, receiver) = bounded_channel(QUEUE_CAPACITY);
        (BoosterHandle { sender }, Booster::new(receiver))
    }

    /// The sending end that this handle holds.
    pub closed spec fn outbox(&self) -> Sender<BoosterMessage<C>> {
        self.sender
    }

    /// The sending end of the actor's queue, for the caller to enqueue on:
    /// the one that this handle holds, not a clone of it.
    pub fn sender(&self) -> (sender: &Sender<BoosterMessage<C>>)
        ensures
            *sender == self.outbox(),
    {
        &self.sender
    }
}

} // verus!
