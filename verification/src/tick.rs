//! The history half of a simulation tick: record the gestures that were
//! completed, then serve at most one pending undo or redo request.

use vstd::prelude::*;
use crate::history::{
    pushed_all, redone, requested, undone, DeltaError, EntityRef, History, HistoryAction,
    HistoryItem, HistoryState, TransformOp,
};

verus! {

/// What a tick did about the pending request.
#[derive(Clone, Copy, Debug, PartialEq, Eq, Structural)]
pub enum TickOutcome {
    /// No request was pending.
    Quiet,
    /// A request was pending, but its stack was empty: nothing to do.
    Exhausted,
    /// A gesture moved between the stacks and `op` is to be applied to the
    /// live object `entity`.
    Applied { entity: EntityRef, op: TransformOp },
    /// A gesture moved between the stacks, but its object is gone: nothing
    /// is to be applied.
    Detached { item: HistoryItem },
    /// A gesture moved between the stacks, but it cannot be taken back:
    /// nothing is to be applied and the failure is reported.
    Rejected { item: HistoryItem, error: DeltaError },
}

/// Whether a gesture was made on an object that is alive.
pub open spec fn on_live(live: Seq<EntityRef>) -> spec_fn(HistoryItem) -> bool {
    |item: HistoryItem| live.contains(item.spec_entity())
}

/// The history after the gestures of one tick are recorded: those made on
/// live objects are pushed in the order they came, the others are dropped.
pub open spec fn captured(h: HistoryState, events: Seq<HistoryItem>, live: Seq<EntityRef>)
    -> HistoryState {
    pushed_all(h, events.filter(on_live(live)))
}

/// The history after the pending request is served: the request is gone and
/// at most one gesture has moved.
pub open spec fn served(h: HistoryState) -> HistoryState {
    match h.action {
        HistoryAction::Idle => h,
        HistoryAction::Undo => undone(requested(h, HistoryAction::Idle)),
        HistoryAction::Redo => redone(requested(h, HistoryAction::Idle)),
    }
}

/// What is to be done for a gesture that has just moved between the stacks.
pub open spec fn replay(item: HistoryItem, undo: bool, live: Seq<EntityRef>) -> TickOutcome {
    if !live.contains(item.spec_entity()) {
        TickOutcome::Detached { item }
    } else if undo {
        match item.spec_delta().spec_inverse() {
            Ok(op) => TickOutcome::Applied { entity: item.spec_entity(), op },
            Err(error) => TickOutcome::Rejected { item, error },
        }
    } else {
        TickOutcome::Applied { entity: item.spec_entity(), op: item.spec_delta().spec_forward() }
    }
}

/// What serving the pending request of `h` comes to.
pub open spec fn outcome_of(h: HistoryState, live: Seq<EntityRef>) -> TickOutcome {
    match h.action {
        HistoryAction::Idle => TickOutcome::Quiet,
        HistoryAction::Undo => if h.past.len() == 0 {
            TickOutcome::Exhausted
        } else {
            replay(h.past.last(), true, live)
        },
        HistoryAction::Redo => if h.future.len() == 0 {
            TickOutcome::Exhausted
        } else {
            replay(h.future.last(), false, live)
        },
    }
}

/// Whether `entity` is among the live objects.
pub fn is_live(live: &Vec<EntityRef>, entity: EntityRef) -> (found: bool)
    ensures
        found == live@.contains(entity),
{
    let mut i: usize = 0;
    while i < live.len()
        invariant
            i <= live.len(),
            forall|k: int| 0 <= k < i ==> live@[k] != entity,
        decreases live.len() - i,
    {
        if live[i] == entity {
            return true;
        }
        i += 1;
    }
    false
}

/// Records the gestures completed during one tick. Each gesture made on a
/// live object clears `future` and goes on top of `past`; a gesture on an
/// object that is gone leaves the history alone.
pub fn capture(history: &mut History, events: &Vec<HistoryItem>, live: &Vec<EntityRef>)
    ensures
        final(history)@ == captured(old(history)@, events@, live@),
{
    let ghost start = history@;
    let ghost keep = on_live(live@);
    proof {
        reveal(Seq::filter);
        assert(events@.take(0).filter(keep) =~= Seq::<HistoryItem>::empty());
    }
    let mut i: usize = 0;
    while i < events.len()
        invariant
            i <= events.len(),
            keep == on_live(live@),
            history@ == pushed_all(start, events@.take(i as int).filter(keep)),
        decreases events.len() - i,
    {
        let event = events[i];
        proof {
            reveal(Seq::filter);
            let next = events@.take(i + 1);
            assert(next.drop_last() =~= events@.take(i as int));
            assert(next.last() == event);
        }
        if is_live(live, event.entity()) {
            proof {
                let kept = events@.take(i as int).filter(keep);
                assert(kept.push(event).drop_last() =~= kept);
            }
            history.push(event);
        }
        i += 1;
    }
    proof {
        assert(events@.take(events.len() as int) =~= events@);
    }
}

/// Serves the pending request, if there is one. The request is reset before
/// anything moves, so it can never be served twice.
pub fn serve(history: &mut History, live: &Vec<EntityRef>) -> (outcome: TickOutcome)
    ensures
        final(history)@ == served(old(history)@),
        outcome == outcome_of(old(history)@, live@),
{
    let action = history.take_request();
    match action {
        HistoryAction::Idle => TickOutcome::Quiet,
        HistoryAction::Undo => match history.undo() {
            Some(item) => replay_moved(item, true, live),
            None => TickOutcome::Exhausted,
        },
        HistoryAction::Redo => match history.redo() {
            Some(item) => replay_moved(item, false, live),
            None => TickOutcome::Exhausted,
        },
    }
}

/// Decides what is to be done for a gesture that has just moved.
pub fn replay_moved(item: HistoryItem, undo: bool, live: &Vec<EntityRef>) -> (outcome: TickOutcome)
    ensures
        outcome == replay(item, undo, live@),
{
    if !is_live(live, item.entity()) {
        TickOutcome::Detached { item }
    } else if undo {
        match item.delta().inverse() {
            Ok(op) => TickOutcome::Applied { entity: item.entity(), op },
            Err(error) => TickOutcome::Rejected { item, error },
        }
    } else {
        TickOutcome::Applied { entity: item.entity(), op: item.delta().forward() }
    }
}

/// The history after one whole tick: the gestures are recorded, then the
/// pending request is served.
pub open spec fn ticked(h: HistoryState, events: Seq<HistoryItem>, live: Seq<EntityRef>)
    -> HistoryState {
    served(captured(h, events, live))
}

/// A tick in which no gesture was completed records nothing.
pub proof fn lemma_capture_nothing(h: HistoryState, live: Seq<EntityRef>)
    ensures
        captured(h, Seq::<HistoryItem>::empty(), live) == h,
{
    reveal(Seq::filter);
    assert(Seq::<HistoryItem>::empty().filter(on_live(live)) =~= Seq::<HistoryItem>::empty());
}

/// Whatever a tick does, no request is pending after it: a request is served
/// in the tick that follows it, and exactly once.
pub proof fn lemma_tick_consumes_request(
    h: HistoryState,
    events: Seq<HistoryItem>,
    live: Seq<EntityRef>,
)
    ensures
        ticked(h, events, live).action == HistoryAction::Idle,
{
    let kept = events.filter(on_live(live));
    if kept.len() > 0 {
        crate::history::lemma_pushes_clear_future(h, kept);
    }
}

/// With one gesture in `past`, two undo requests, each followed by a tick
/// in which no gesture is completed, come to one undo and one tick that
/// does nothing: `past` ends empty and `future` has gained the one gesture.
pub proof fn lemma_second_undo_is_noop(h: HistoryState, live: Seq<EntityRef>)
    requires
        h.past.len() == 1,
    ensures
        ({
            let none = Seq::<HistoryItem>::empty();
            let first = ticked(requested(h, HistoryAction::Undo), none, live);
            let second = ticked(requested(first, HistoryAction::Undo), none, live);
            &&& first.past == none
            &&& first.future == h.future.push(h.past[0])
            &&& outcome_of(requested(h, HistoryAction::Undo), live) == replay(
                h.past[0],
                true,
                live,
            )
            &&& second == first
            &&& outcome_of(requested(first, HistoryAction::Undo), live) == TickOutcome::Exhausted
        }),
{
    let none = Seq::<HistoryItem>::empty();
    lemma_capture_nothing(requested(h, HistoryAction::Undo), live);
    let first = ticked(requested(h, HistoryAction::Undo), none, live);
    assert(first.past =~= none);
    lemma_capture_nothing(requested(first, HistoryAction::Undo), live);
}

/// Of an undo request and a redo request sent one after the other before
/// any tick, the tick serves the redo alone: the undo is never seen.
pub proof fn lemma_only_last_request_served(
    h: HistoryState,
    first: HistoryAction,
    second: HistoryAction,
    live: Seq<EntityRef>,
)
    ensures
        served(requested(requested(h, first), second)) == served(requested(h, second)),
        outcome_of(requested(requested(h, first), second), live) == outcome_of(
            requested(h, second),
            live,
        ),
{
}

/// An undo request served by one tick and a redo request served by the next,
/// with no gesture completed in between, leave both stacks exactly as they
/// were; the first tick takes the most recent gesture back and the second
/// replays that same gesture.
pub proof fn lemma_undo_redo_round_trip(h: HistoryState, live: Seq<EntityRef>)
    requires
        h.past.len() > 0,
    ensures
        ({
            let none = Seq::<HistoryItem>::empty();
            let undone = ticked(requested(h, HistoryAction::Undo), none, live);
            let redone = ticked(requested(undone, HistoryAction::Redo), none, live);
            &&& redone.past == h.past
            &&& redone.future == h.future
            &&& outcome_of(requested(h, HistoryAction::Undo), live) == replay(
                h.past.last(),
                true,
                live,
            )
            &&& outcome_of(requested(undone, HistoryAction::Redo), live) == replay(
                h.past.last(),
                false,
                live,
            )
        }),
{
    let none = Seq::<HistoryItem>::empty();
    lemma_capture_nothing(requested(h, HistoryAction::Undo), live);
    let undone = ticked(requested(h, HistoryAction::Undo), none, live);
    lemma_capture_nothing(requested(undone, HistoryAction::Redo), live);
    let redone = ticked(requested(undone, HistoryAction::Redo), none, live);
    assert(redone.past =~= h.past);
    assert(redone.future =~= h.future);
}

/// A tick that records at least one gesture leaves nothing to redo before
/// the pending request is looked at, so a redo request in that same tick
/// finds nothing.
pub proof fn lemma_capture_clears_future(
    h: HistoryState,
    events: Seq<HistoryItem>,
    live: Seq<EntityRef>,
)
    requires
        events.filter(on_live(live)).len() > 0,
    ensures
        captured(h, events, live).future == Seq::<HistoryItem>::empty(),
        captured(h, events, live).past == h.past + events.filter(on_live(live)),
{
    crate::history::lemma_pushes_clear_future(h, events.filter(on_live(live)));
}

} // verus!
