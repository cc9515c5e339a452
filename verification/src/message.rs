use vstd::prelude::*;

verus! {

/// A request to the actor. `C` is the capability through which the admin is
/// reached; the actor stores it and never looks inside.
#[derive(Debug)]
pub enum BoosterMessage<C> {
    /// Adjust every grade by the actor's amount and forward the result.
    BoostGrades { grades: Vec<u64> },
    /// Bind the admin, replacing whichever was bound before.
    SetAdmin { admin_handle: C },
}

/// What the driver owes the outside world once a message has been handled.
#[derive(Debug, PartialEq, Eq)]
pub enum Effect {
    /// Nothing: the message only changed the actor's state.
    Idle,
    /// Submit `grades` to the admin bound at this moment, and wait for it.
    Forward { grades: Vec<u64> },
}

/// What one turn of the run loop came to.
#[derive(Debug, PartialEq, Eq)]
pub enum Step {
    /// A message was taken and handled to completion.
    Handled { outcome: Result<Effect, crate::error::BoosterError> },
    /// The loop is over: the queue is closed and drained, or was already.
    Halt,
}

} // verus!
