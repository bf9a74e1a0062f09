//! The two procedures that the simulation loop runs on every tick: the one
//! that takes in what the host has sent, and the one that keeps the history.

use vstd::prelude::*;
use crate::gizmo::{
    modes_of, orientation_of, reconcile, CustomGizmoOptions, GizmoSettings,
    PreviousCustomGizmoOptions,
};
use crate::history::{EntityRef, History, HistoryItem};
use crate::mailbox::BinaryDataQueue;
use crate::tick::{capture, captured, outcome_of, serve, served, TickOutcome};

verus! {

/// What the simulation loop shares with the host besides the flags: the
/// mailboxes and the history.
pub struct RunnerWrapper {
    pub binaryData: BinaryDataQueue,
    pub history: History,
}

/// What one tick took in from the host.
pub struct SyncOutcome {
    /// The settings to hand to the gizmo; `None` when the flags have not
    /// changed, and then the gizmo is left alone.
    pub gizmo: Option<GizmoSettings>,
    /// The model that was waiting, to be decoded and spawned.
    pub model: Option<Vec<u8>>,
    /// The image that was waiting, to be decoded and registered.
    pub image: Option<Vec<u8>>,
}

/// The bytes of a payload that was taken, as a mathematical value.
pub open spec fn taken(payload: Option<Vec<u8>>) -> Option<Seq<u8>> {
    match payload {
        Some(bytes) => Some(bytes@),
        None => None,
    }
}

/// Takes in what the host has sent since the last tick. The flags are
/// reconciled first; then each mailbox is emptied, and what was waiting in
/// it is handed out to be decoded once the shared state is released again.
/// A payload is handed out once: decoding it is never retried.
pub fn syncData(
    last: &mut PreviousCustomGizmoOptions,
    sync: &CustomGizmoOptions,
    runner: &mut RunnerWrapper,
) -> (outcome: SyncOutcome)
    ensures
        final(last).gizmoFlags == sync.gizmoFlags,
        outcome.gizmo is None <==> old(last).gizmoFlags == sync.gizmoFlags,
        outcome.gizmo matches Some(settings) ==> settings.orientation == orientation_of(
            sync.gizmoFlags,
        ) && settings.modes@ == modes_of(sync.gizmoFlags),
        taken(outcome.model) == old(runner).binaryData.model@,
        taken(outcome.image) == old(runner).binaryData.image@,
        final(runner).binaryData.model@ == None::<Seq<u8>>,
        final(runner).binaryData.image@ == None::<Seq<u8>>,
        final(runner).history == old(runner).history,
{
    let gizmo = reconcile(last, sync);
    let model = runner.binaryData.model.take_if_present();
    let image = runner.binaryData.image.take_if_present();
    SyncOutcome { gizmo, model, image }
}

/// Keeps the history for one tick. The gestures that were completed on live
/// objects are recorded first, all of them; then the pending request, if
/// there is one, is served: it is reset, one gesture moves between the
/// stacks, and the outcome says what is to be applied to which object.
pub fn update(gizmoEvents: &Vec<HistoryItem>, live: &Vec<EntityRef>, runner: &mut RunnerWrapper) -> (outcome:
    TickOutcome)
    ensures
        final(runner).history@ == served(captured(old(runner).history@, gizmoEvents@, live@)),
        outcome == outcome_of(captured(old(runner).history@, gizmoEvents@, live@), live@),
        final(runner).binaryData == old(runner).binaryData,
{
    capture(&mut runner.history, gizmoEvents, live);
    serve(&mut runner.history, live)
}

} // verus!
