use vstd::prelude::*;

verus! {

/// What can go wrong around the actor.
#[derive(Clone, Copy, Debug, PartialEq, Eq, Structural)]
pub enum BoosterError {
    /// A message was offered to the queue after the actor had stopped.
    QueueClosed,
    /// Grades were to be forwarded while no admin was bound.
    MissingCollaborator,
}

} // verus!
