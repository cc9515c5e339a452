use vstd::prelude::*;
use crate::error::BoosterError;
use crate::message::{BoosterMessage, Effect, Step};
use tokio::sync::mpsc::Receiver;

verus! {

/// The amount a fresh actor adjusts by: the binary64 bit pattern of one hundred.
pub const DEFAULT_AMOUNT: u64 = 0x4059_0000_0000_0000u64;

/// Where the run loop stands. `Stopped` is terminal.
#[derive(Clone, Copy, Debug, PartialEq, Eq, Structural)]
pub enum Phase {
    Running,
    Stopped,
}

/// The actor's state as contracts see it.
pub ghost struct BoosterState<C> {
    pub admin: Option<C>,
    pub amount: u64,
    pub phase: Phase,
}

/// The actor core. Its state is reachable only through the handler and the
/// run-loop step, so it is only ever changed one message at a time.
#[verifier::reject_recursive_types(C)]
pub struct Booster<C> {
    admin: Option<C>,
    receiver: Receiver<BoosterMessage<C>>,
    amount: u64,
    phase: Phase,
}

impl<C> View for Booster<C> {
    type V = BoosterState<C>;

    closed spec fn view(&self) -> BoosterState<C> {
        BoosterState { admin: self.admin, amount: self.amount, phase: self.phase }
    }
}

/// `out` is `grades` with `adjust` applied to each grade and `amount`,
/// position by position.
pub open spec fn boosted_by<F: Fn(u64, u64) -> u64>(
    adjust: F,
    grades: Seq<u64>,
    amount: u64,
    out: Seq<u64>,
) -> bool {
    &&& out.len() == grades.len()
    &&& forall|i: int|
        0 <= i < grades.len() ==> call_ensures(adjust, (grades[i], amount), #[trigger] out[i])
}

/// `adjust` may be called on every grade of `grades` together with `amount`.
pub open spec fn can_boost<F: Fn(u64, u64) -> u64>(adjust: F, grades: Seq<u64>, amount: u64) -> bool {
    forall|i: int| 0 <= i < grades.len() ==> call_requires(adjust, (#[trigger] grades[i], amount))
}

/// The state after a message has been handled.
pub open spec fn after_message<C>(s: BoosterState<C>, msg: BoosterMessage<C>) -> BoosterState<C> {
    match msg {
        BoosterMessage::BoostGrades { .. } => s,
        BoosterMessage::SetAdmin { admin_handle } => BoosterState {
            admin: Some(admin_handle),
            ..s
        },
    }
}

/// The state after one turn of the run loop, where `polled` is what the queue
/// gave: a message, or `None` once it is closed and drained.
pub open spec fn after_event<C>(s: BoosterState<C>, polled: Option<BoosterMessage<C>>) -> BoosterState<C> {
    if s.phase == Phase::Stopped {
        s
    } else {
        match polled {
            Some(msg) => after_message(s, msg),
            None => BoosterState { phase: Phase::Stopped, ..s },
        }
    }
}

/// Whether a turn of the run loop hands its message to the handler.
pub open spec fn delivers<C>(s: BoosterState<C>, polled: Option<BoosterMessage<C>>) -> bool {
    s.phase == Phase::Running && polled is Some
}

/// What handling `msg` in state `s` returns, given the arithmetic `adjust`.
pub open spec fn handled_as<C, F: Fn(u64, u64) -> u64>(
    s: BoosterState<C>,
    msg: BoosterMessage<C>,
    adjust: F,
    res: Result<Effect, BoosterError>,
) -> bool {
    match msg {
        BoosterMessage::SetAdmin { .. } => res == Ok::<Effect, BoosterError>(Effect::Idle),
        BoosterMessage::BoostGrades { grades } => match s.admin {
            None => res == Err::<Effect, BoosterError>(BoosterError::MissingCollaborator),
            Some(_) => match res {
                Ok(Effect::Forward { grades: out }) => boosted_by(adjust, grades@, s.amount, out@),
                _ => false,
            },
        },
    }
}

/// Applies `adjust` to each grade and `amount`, keeping order and length.
pub fn boost_grades<F: Fn(u64, u64) -> u64>(grades: &Vec<u64>, amount: u64, adjust: F) -> (out: Vec<u64>)
    requires
        can_boost(adjust, grades@, amount),
    ensures
        boosted_by(adjust, grades@, amount, out@),
{
    let mut out: Vec<u64> = Vec::new();
    let mut i: usize = 0;
    while i < grades.len()
        invariant
            i <= grades@.len(),
            can_boost(adjust, grades@, amount),
            boosted_by(adjust, grades@.take(i as int), amount, out@),
        decreases grades@.len() - i,
    {
        let raised: u64 = adjust(grades[i], amount);
        proof {
            let ghost before = out@;
            assert forall|k: int| 0 <= k < i + 1 implies call_ensures(
                adjust,
                (grades@.take(i + 1)[k], amount),
                #[trigger] before.push(raised)[k],
            ) by {
                if k < i {
                    assert(grades@.take(i + 1)[k] == grades@.take(i as int)[k]);
                    assert(before.push(raised)[k] == before[k]);
                }
            }
        }
        out.push(raised);
        i = i + 1;
    }
    proof {
        assert(grades@.take(i as int) =~= grades@);
    }
    out
}

impl<C> Booster<C> {
    /// A running actor on the receiving end of its queue, with no admin
    /// bound and the default amount.
    pub fn new(receiver: Receiver<BoosterMessage<C>>) -> (actor: Self)
        ensures
            actor@ == (BoosterState::<C> { admin: None, amount: DEFAULT_AMOUNT, phase: Phase::Running }),
            actor.inbox() == receiver,
    {
        Booster { admin: None, receiver, amount: DEFAULT_AMOUNT, phase: Phase::Running }
    }

    /// The receiving end of the queue that this actor was made on and takes
    /// its messages from.
    pub closed spec fn inbox(&self) -> Receiver<BoosterMessage<C>> {
        self.receiver
    }

    /// The receiving end of the actor's queue, for the driver to wait on.
    /// The borrow is of the actor's own receiving end: it starts as that end
    /// is now, and what the driver leaves behind it is the actor's receiving
    /// end afterwards. Whatever is taken from it, the actor's state stays as
    /// it is.
    pub fn receiver_mut(&mut self) -> (receiver: &mut Receiver<BoosterMessage<C>>)
        ensures
            *receiver == old(self).inbox(),
            final(self).inbox() == *final(receiver),
            final(self)@ == old(self)@,
    {
        &mut self.receiver
    }

    /// The amount every grade is adjusted by.
    pub fn amount(&self) -> (amount: u64)
        ensures
            amount == self@.amount,
    {
        self.amount
    }

    /// The admin bound at this moment, if any.
    pub fn admin(&self) -> (admin: Option<&C>)
        ensures
            admin is Some == self@.admin is Some,
            admin is Some ==> *admin->0 == self@.admin->0,
    {
        self.admin.as_ref()
    }

    /// Whether the run loop is still taking messages.
    pub fn is_running(&self) -> (running: bool)
        ensures
            running == (self@.phase == Phase::Running),
    {
        self.phase == Phase::Running
    }

    /// Handles one message to completion.
    ///
    /// `SetAdmin` binds the admin, whatever was bound before, and asks for
    /// nothing more. `BoostGrades` leaves the state alone: with an admin bound
    /// it asks for exactly one forwarding of the adjusted grades, and without
    /// one it fails with `MissingCollaborator` and the message is dropped.
    pub fn handle_message<F: Fn(u64, u64) -> u64>(&mut self, msg: BoosterMessage<C>, adjust: F) -> (res: Result<
        Effect,
        BoosterError,
    >)
        requires
            msg matches BoosterMessage::BoostGrades { grades } ==> can_boost(
                adjust,
                grades@,
                old(self)@.amount,
            ),
        ensures
            final(self)@ == after_message(old(self)@, msg),
            final(self).inbox() == old(self).inbox(),
            handled_as(old(self)@, msg, adjust, res),
    {
        match msg {
            BoosterMessage::BoostGrades { grades } => {
                if self.admin.is_none() {
                    Err(BoosterError::MissingCollaborator)
                } else {
                    Ok(Effect::Forward { grades: boost_grades(&grades, self.amount, adjust) })
                }
            },
            BoosterMessage::SetAdmin { admin_handle } => {
                self.admin = Some(admin_handle);
                Ok(Effect::Idle)
            },
        }
    }

    /// One turn of the run loop on what the queue gave.
    ///
    /// While running, a message is handled and the loop goes on, and `None`
    /// (the queue closed and drained) stops it. Once stopped, nothing is
    /// handled and nothing changes.
    pub fn step<F: Fn(u64, u64) -> u64>(&mut self, polled: Option<BoosterMessage<C>>, adjust: F) -> (turn: Step)
        requires
            old(self)@.phase == Phase::Running ==> (polled matches Some(
                BoosterMessage::BoostGrades { grades },
            ) ==> can_boost(adjust, grades@, old(self)@.amount)),
        ensures
            final(self)@ == after_event(old(self)@, polled),
            final(self).inbox() == old(self).inbox(),
            delivers(old(self)@, polled) ==> (turn matches Step::Handled { outcome } && handled_as(
                old(self)@,
                polled->0,
                adjust,
                outcome,
            )),
            !delivers(old(self)@, polled) ==> turn == Step::Halt,
    {
        if self.phase == Phase::Stopped {
            return Step::Halt;
        }
        match polled {
            Some(msg) => Step::Handled { outcome: self.handle_message(msg, adjust) },
            None => {
                self.phase = Phase::Stopped;
                Step::Halt
            },
        }
    }
}

} // verus!
