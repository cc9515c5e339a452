//! What holds of the run loop over whole sequences of queue events.

use vstd::prelude::*;
use crate::booster::{after_event, after_message, boosted_by, delivers, handled_as, BoosterState, Phase};
use crate::error::BoosterError;
use crate::message::{BoosterMessage, Effect};

verus! {

/// The state after the run loop has taken `events` in order, each being
/// what the queue gave on one turn.
pub open spec fn replay<C>(s: BoosterState<C>, events: Seq<Option<BoosterMessage<C>>>) -> BoosterState<C>
    decreases events.len(),
{
    if events.len() == 0 {
        s
    } else {
        after_event(replay(s, events.drop_last()), events.last())
    }
}

/// The messages that reach the handler while the run loop takes `events`,
/// in the order in which it is invoked on them.
pub open spec fn deliveries<C>(s: BoosterState<C>, events: Seq<Option<BoosterMessage<C>>>) -> Seq<
    BoosterMessage<C>,
>
    decreases events.len(),
{
    if events.len() == 0 {
        Seq::empty()
    } else if delivers(replay(s, events.drop_last()), events.last()) {
        deliveries(s, events.drop_last()).push(events.last()->0)
    } else {
        deliveries(s, events.drop_last())
    }
}

/// Every event of `events` is a message.
pub open spec fn all_messages<C>(events: Seq<Option<BoosterMessage<C>>>) -> bool {
    forall|i: int| 0 <= i < events.len() ==> (#[trigger] events[i]) is Some
}

/// Every event of `events` is a request to boost grades.
pub open spec fn all_grades<C>(events: Seq<Option<BoosterMessage<C>>>) -> bool {
    forall|i: int|
        0 <= i < events.len() ==> (#[trigger] events[i]) matches Some(BoosterMessage::BoostGrades { .. })
}

/// A running loop that is given only messages stays running.
pub proof fn lemma_messages_keep_running<C>(s: BoosterState<C>, events: Seq<Option<BoosterMessage<C>>>)
    requires
        s.phase == Phase::Running,
        all_messages(events),
    ensures
        replay(s, events).phase == Phase::Running,
        replay(s, events).amount == s.amount,
    decreases events.len(),
{
    if events.len() > 0 {
        lemma_messages_keep_running(s, events.drop_last());
    }
}

/// First in, first out: a running loop hands every message it is given to
/// the handler, each exactly once and in the order in which the queue gave
/// them.
pub proof fn lemma_handled_in_order<C>(s: BoosterState<C>, events: Seq<Option<BoosterMessage<C>>>)
    requires
        s.phase == Phase::Running,
        all_messages(events),
    ensures
        deliveries(s, events).len() == events.len(),
        forall|i: int| 0 <= i < events.len() ==> (#[trigger] deliveries(s, events)[i]) == events[i]->0,
    decreases events.len(),
{
    if events.len() > 0 {
        lemma_handled_in_order(s, events.drop_last());
        lemma_messages_keep_running(s, events.drop_last());
    }
}

/// Taking two runs of events one after the other is taking their
/// concatenation: the loop keeps nothing between turns but its state.
pub proof fn lemma_replay_concat<C>(
    s: BoosterState<C>,
    first: Seq<Option<BoosterMessage<C>>>,
    second: Seq<Option<BoosterMessage<C>>>,
)
    ensures
        replay(s, first + second) == replay(replay(s, first), second),
        deliveries(s, first + second) == deliveries(s, first) + deliveries(replay(s, first), second),
    decreases second.len(),
{
    if second.len() == 0 {
        assert(first + second =~= first);
        assert(deliveries(s, first) + Seq::<BoosterMessage<C>>::empty() =~= deliveries(s, first));
    } else {
        lemma_replay_concat(s, first, second.drop_last());
        assert((first + second).drop_last() =~= first + second.drop_last());
        assert((first + second).last() == second.last());
        let mid = replay(s, first);
        if delivers(replay(mid, second.drop_last()), second.last()) {
            assert((deliveries(s, first) + deliveries(mid, second.drop_last())).push(second.last()->0)
                =~= deliveries(s, first) + deliveries(mid, second.drop_last()).push(second.last()->0));
        }
    }
}

/// Last write wins: once `SetAdmin` has been handled, that admin is the one
/// bound, whichever was bound before, and it stays bound, with the amount
/// unchanged, through every request to boost grades that follows.
pub proof fn lemma_last_admin_wins<C>(
    s: BoosterState<C>,
    admin_handle: C,
    later: Seq<Option<BoosterMessage<C>>>,
)
    requires
        all_grades(later),
    ensures
        after_message(s, BoosterMessage::SetAdmin { admin_handle }).admin == Some(admin_handle),
        replay(after_message(s, BoosterMessage::SetAdmin { admin_handle }), later).admin == Some(
            admin_handle,
        ),
        replay(after_message(s, BoosterMessage::SetAdmin { admin_handle }), later).amount == s.amount,
    decreases later.len(),
{
    if later.len() > 0 {
        lemma_last_admin_wins(s, admin_handle, later.drop_last());
    }
}

/// A binding takes effect for all that follows: after `SetAdmin`, and
/// however many requests to boost grades, the next such request is never
/// dropped. Whatever the handler returns for it is one forwarding of the
/// grades, each adjusted by the amount, in their order.
pub proof fn lemma_bound_admin_gets_grades<C, F: Fn(u64, u64) -> u64>(
    s: BoosterState<C>,
    admin_handle: C,
    later: Seq<Option<BoosterMessage<C>>>,
    grades: Vec<u64>,
    adjust: F,
    res: Result<Effect, BoosterError>,
)
    requires
        all_grades(later),
        handled_as(
            replay(after_message(s, BoosterMessage::SetAdmin { admin_handle }), later),
            BoosterMessage::BoostGrades { grades },
            adjust,
            res,
        ),
    ensures
        res matches Ok(Effect::Forward { grades: out }) && boosted_by(adjust, grades@, s.amount, out@),
{
    lemma_last_admin_wins(s, admin_handle, later);
}

/// A closed and drained queue ends the loop: once some turn has found it,
/// the loop is stopped, whatever came before and whatever comes after.
pub proof fn lemma_closed_queue_stops<C>(
    s: BoosterState<C>,
    events: Seq<Option<BoosterMessage<C>>>,
    turn: int,
)
    requires
        0 <= turn < events.len(),
        events[turn] is None,
    ensures
        replay(s, events).phase == Phase::Stopped,
    decreases events.len(),
{
    if turn < events.len() - 1 {
        lemma_closed_queue_stops(s, events.drop_last(), turn);
    }
}

/// Nothing leaves `Stopped`: a stopped loop keeps its state through every
/// event and hands nothing to the handler.
pub proof fn lemma_stopped_is_terminal<C>(s: BoosterState<C>, events: Seq<Option<BoosterMessage<C>>>)
    requires
        s.phase == Phase::Stopped,
    ensures
        replay(s, events) == s,
        deliveries(s, events).len() == 0,
    decreases events.len(),
{
    if events.len() > 0 {
        lemma_stopped_is_terminal(s, events.drop_last());
    }
}

} // verus!
