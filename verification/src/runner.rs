//! The host-facing side of the editor: the entry points through which the
//! host sets the gizmo flags, uploads payloads and asks for undo and redo,
//! and the two entry points through which the simulation loop takes its
//! tick.
//!
//! A runner is plain data. Whoever shares it between the host and the
//! simulation loop guards it; every entry point here is one short critical
//! section that neither decodes nor waits.

use vstd::prelude::*;
use vstd::slice::slice_to_vec;
use vstd::string::StringSliceAdditionalSpecFns;
use crate::gizmo::{
    modes_of, orientation_of, rotationIsVisibleBit, scaleIsVisibleBit, translationIsVisibleBit,
    CustomGizmoOptions, PreviousCustomGizmoOptions,
};
use crate::history::{fresh, requested, EntityRef, History, HistoryAction, HistoryItem, HistoryState};
use crate::mailbox::BinaryDataQueue;
use crate::payload::{parse_property_change, parsed_change, range_is, PropertyChange};
use crate::systems::{syncData, taken, update, RunnerWrapper, SyncOutcome};
use crate::tick::{captured, outcome_of, served, TickOutcome};

verus! {

/// The flags of a new runner: all three handle families shown, local
/// orientation.
pub const initialGizmoFlags: u8 = 0b0000_1110;

/// The runner as a mathematical value.
pub struct RunnerState {
    /// The flags that the host asked for last.
    pub flags: u8,
    /// The model that waits to be taken in.
    pub model: Option<Seq<u8>>,
    /// The image that waits to be taken in.
    pub image: Option<Seq<u8>>,
    /// The undo/redo history.
    pub history: HistoryState,
}

/// The state of a new runner.
pub open spec fn initial() -> RunnerState {
    RunnerState { flags: initialGizmoFlags, model: None, image: None, history: fresh() }
}

/// The state after the host has asked for `flags`.
pub open spec fn with_flags(s: RunnerState, flags: u8) -> RunnerState {
    RunnerState { flags, ..s }
}

/// The state after the host has uploaded a model: it waits in place of any
/// model that waited before.
pub open spec fn with_model(s: RunnerState, bytes: Seq<u8>) -> RunnerState {
    RunnerState { model: Some(bytes), ..s }
}

/// The state after the host has uploaded an image: it waits in place of any
/// image that waited before.
pub open spec fn with_image(s: RunnerState, bytes: Seq<u8>) -> RunnerState {
    RunnerState { image: Some(bytes), ..s }
}

/// The state after the host has asked for an undo or a redo.
pub open spec fn with_request(s: RunnerState, action: HistoryAction) -> RunnerState {
    RunnerState { history: requested(s.history, action), ..s }
}

/// The state after a tick has taken the uploads in: nothing waits.
pub open spec fn drained(s: RunnerState) -> RunnerState {
    RunnerState { model: None, image: None, ..s }
}

/// The editor's shared state, with the entry points of the host and of the
/// simulation loop.
pub struct Runner {
    gizmoFlags: CustomGizmoOptions,
    shared: RunnerWrapper,
}

impl View for Runner {
    type V = RunnerState;

    closed spec fn view(&self) -> RunnerState {
        RunnerState {
            flags: self.gizmoFlags.gizmoFlags,
            model: self.shared.binaryData.model@,
            image: self.shared.binaryData.image@,
            history: self.shared.history@,
        }
    }
}

/// What the runner answers to an event of the host.
#[derive(Clone, Debug, PartialEq, Eq)]
pub enum EventReply {
    /// An undo or redo request was noted for the next tick.
    Requested(HistoryAction),
    /// Both stacks as they stand, for diagnosis.
    Dump { past: Vec<HistoryItem>, future: Vec<HistoryItem> },
    /// A well-formed property change, to be handed to the property editor.
    Forward(PropertyChange),
}

/// Why an event of the host was refused.
#[derive(Clone, Copy, Debug, PartialEq, Eq, Structural)]
pub enum EventError {
    /// The kind is none of `undo`, `redo`, `read` and `setProperty`.
    UnknownKind,
    /// The payload of a `setProperty` event is malformed.
    MalformedPayload,
}

/// What the host can ask for with an event.
#[derive(Clone, Copy, Debug, PartialEq, Eq, Structural)]
pub enum EventKind {
    Undo,
    Redo,
    Read,
    SetProperty,
}

/// The bytes of `undo`.
pub open spec fn undo_word() -> Seq<u8> {
    seq![0x75u8, 0x6e, 0x64, 0x6f]
}

/// The bytes of `redo`.
pub open spec fn redo_word() -> Seq<u8> {
    seq![0x72u8, 0x65, 0x64, 0x6f]
}

/// The bytes of `read`.
pub open spec fn read_word() -> Seq<u8> {
    seq![0x72u8, 0x65, 0x61, 0x64]
}

/// The bytes of `setProperty`.
pub open spec fn set_property_word() -> Seq<u8> {
    seq![0x73u8, 0x65, 0x74, 0x50, 0x72, 0x6f, 0x70, 0x65, 0x72, 0x74, 0x79]
}

/// The kind that a text names: exactly `undo`, `redo`, `read` or
/// `setProperty`, in this spelling, and nothing around it.
pub open spec fn kind_of(text: Seq<u8>) -> Option<EventKind> {
    if text == undo_word() {
        Some(EventKind::Undo)
    } else if text == redo_word() {
        Some(EventKind::Redo)
    } else if text == read_word() {
        Some(EventKind::Read)
    } else if text == set_property_word() {
        Some(EventKind::SetProperty)
    } else {
        None
    }
}

/// Reads the kind of an event.
pub fn parse_kind(kind: &str) -> (parsed: Option<EventKind>)
    ensures
        parsed == kind_of(kind.spec_bytes()),
{
    let text = kind.as_bytes();
    let undo: Vec<u8> = vec![0x75u8, 0x6e, 0x64, 0x6f];
    let redo: Vec<u8> = vec![0x72u8, 0x65, 0x64, 0x6f];
    let read: Vec<u8> = vec![0x72u8, 0x65, 0x61, 0x64];
    let set_property: Vec<u8> = vec![
        0x73u8, 0x65, 0x74, 0x50, 0x72, 0x6f, 0x70, 0x65, 0x72, 0x74, 0x79,
    ];
    assert(undo@ =~= undo_word());
    assert(redo@ =~= redo_word());
    assert(read@ =~= read_word());
    assert(set_property@ =~= set_property_word());
    assert(text@.subrange(0, text@.len() as int) =~= text@);
    if range_is(text, 0, text.len(), &undo) {
        Some(EventKind::Undo)
    } else if range_is(text, 0, text.len(), &redo) {
        Some(EventKind::Redo)
    } else if range_is(text, 0, text.len(), &read) {
        Some(EventKind::Read)
    } else if range_is(text, 0, text.len(), &set_property) {
        Some(EventKind::SetProperty)
    } else {
        None
    }
}

/// A copy of a stack of gestures.
fn copy_items(items: &Vec<HistoryItem>) -> (copy: Vec<HistoryItem>)
    ensures
        copy@ == items@,
{
    let mut copy: Vec<HistoryItem> = Vec::new();
    let mut i: usize = 0;
    while i < items.len()
        invariant
            i <= items.len(),
            copy@ == items@.take(i as int),
        decreases items.len() - i,
    {
        copy.push(items[i]);
        i += 1;
        assert(copy@ =~= items@.take(i as int));
    }
    assert(items@.take(items.len() as int) =~= items@);
    copy
}

impl Runner {
    /// A runner with the initial flags, empty mailboxes and an empty
    /// history.
    pub fn new() -> (runner: Runner)
        ensures
            runner@ == initial(),
    {
        assert(scaleIsVisibleBit | translationIsVisibleBit | rotationIsVisibleBit
            == initialGizmoFlags) by (bit_vector);
        Runner {
            gizmoFlags: CustomGizmoOptions {
                gizmoFlags: scaleIsVisibleBit | translationIsVisibleBit | rotationIsVisibleBit,
            },
            shared: RunnerWrapper { binaryData: BinaryDataQueue::new(), history: History::new() },
        }
    }

    /// What the simulation loop starts from: the flags as they stand count
    /// as applied, so the first tick derives nothing unless the host changes
    /// them first.
    pub fn startGame(&self) -> (last: PreviousCustomGizmoOptions)
        ensures
            last.gizmoFlags == self@.flags,
    {
        PreviousCustomGizmoOptions { gizmoFlags: self.gizmoFlags.gizmoFlags }
    }

    /// Stores the flags that the host asks for. Always succeeds.
    pub fn setGizmoOptions(&mut self, flags: u8)
        ensures
            final(self)@ == with_flags(old(self)@, flags),
    {
        self.gizmoFlags.gizmoFlags = flags;
    }

    /// Deposits a model. A model that was still waiting is replaced.
    pub fn loadModel(&mut self, bytes: &[u8])
        ensures
            final(self)@ == with_model(old(self)@, bytes@),
    {
        self.shared.binaryData.model.deposit(slice_to_vec(bytes));
    }

    /// Deposits an image. An image that was still waiting is replaced.
    pub fn loadImage(&mut self, bytes: &[u8])
        ensures
            final(self)@ == with_image(old(self)@, bytes@),
    {
        self.shared.binaryData.image.deposit(slice_to_vec(bytes));
    }

    /// Takes an event of the host. `undo` and `redo` set the request that
    /// the next tick serves, replacing one that was not served yet; `read`
    /// hands out both stacks; `setProperty` checks its payload and hands the
    /// change on. Nothing but the pending request is ever changed.
    pub fn sendEvent(&mut self, kind: &str, payload: &str) -> (reply: Result<
        EventReply,
        EventError,
    >)
        ensures
            match kind_of(kind.spec_bytes()) {
                Some(EventKind::Undo) => {
                    &&& reply == Ok::<EventReply, EventError>(
                        EventReply::Requested(HistoryAction::Undo),
                    )
                    &&& final(self)@ == with_request(old(self)@, HistoryAction::Undo)
                },
                Some(EventKind::Redo) => {
                    &&& reply == Ok::<EventReply, EventError>(
                        EventReply::Requested(HistoryAction::Redo),
                    )
                    &&& final(self)@ == with_request(old(self)@, HistoryAction::Redo)
                },
                Some(EventKind::Read) => {
                    &&& reply matches Ok(EventReply::Dump { past, future })
                    &&& past@ == old(self)@.history.past
                    &&& future@ == old(self)@.history.future
                    &&& final(self)@ == old(self)@
                },
                Some(EventKind::SetProperty) => {
                    &&& final(self)@ == old(self)@
                    &&& match parsed_change(payload.spec_bytes()) {
                        Some(change) => reply matches Ok(EventReply::Forward(forwarded))
                            && forwarded@ == change,
                        None => reply == Err::<EventReply, EventError>(
                            EventError::MalformedPayload,
                        ),
                    }
                },
                None => {
                    &&& reply == Err::<EventReply, EventError>(EventError::UnknownKind)
                    &&& final(self)@ == old(self)@
                },
            },
    {
        match parse_kind(kind) {
            Some(EventKind::Undo) => {
                self.shared.history.request(HistoryAction::Undo);
                Ok(EventReply::Requested(HistoryAction::Undo))
            },
            Some(EventKind::Redo) => {
                self.shared.history.request(HistoryAction::Redo);
                Ok(EventReply::Requested(HistoryAction::Redo))
            },
            Some(EventKind::Read) => Ok(
                EventReply::Dump {
                    past: copy_items(&self.shared.history.past),
                    future: copy_items(&self.shared.history.future),
                },
            ),
            Some(EventKind::SetProperty) => match parse_property_change(payload.as_bytes()) {
                Ok(change) => Ok(EventReply::Forward(change)),
                Err(_) => Err(EventError::MalformedPayload),
            },
            None => Err(EventError::UnknownKind),
        }
    }

    /// The first half of a tick: takes in the flags and the uploads.
    pub fn syncTick(&mut self, last: &mut PreviousCustomGizmoOptions) -> (outcome: SyncOutcome)
        ensures
            final(last).gizmoFlags == old(self)@.flags,
            outcome.gizmo is None <==> old(last).gizmoFlags == old(self)@.flags,
            outcome.gizmo matches Some(settings) ==> settings.orientation == orientation_of(
                old(self)@.flags,
            ) && settings.modes@ == modes_of(old(self)@.flags),
            taken(outcome.model) == old(self)@.model,
            taken(outcome.image) == old(self)@.image,
            final(self)@ == drained(old(self)@),
    {
        syncData(last, &self.gizmoFlags, &mut self.shared)
    }

    /// The second half of a tick: records the completed gestures and serves
    /// the pending request.
    pub fn historyTick(&mut self, gizmoEvents: &Vec<HistoryItem>, live: &Vec<EntityRef>) -> (outcome:
        TickOutcome)
        ensures
            outcome == outcome_of(captured(old(self)@.history, gizmoEvents@, live@), live@),
            final(self)@ == (RunnerState {
                history: served(captured(old(self)@.history, gizmoEvents@, live@)),
                ..old(self)@
            }),
    {
        update(gizmoEvents, live, &mut self.shared)
    }
}

/// Of two models uploaded one after the other with no tick in between,
/// only the second is left for the tick to take in; the same holds of
/// images, and of the flags.
pub proof fn lemma_later_upload_replaces_earlier(s: RunnerState, first: Seq<u8>, second: Seq<u8>)
    ensures
        with_model(with_model(s, first), second) == with_model(s, second),
        with_image(with_image(s, first), second) == with_image(s, second),
        with_model(s, second).model == Some(second),
        with_image(s, second).image == Some(second),
{
}

/// The two mailboxes do not disturb each other, whichever is filled first,
/// and filling them touches neither the flags nor the history.
pub proof fn lemma_uploads_are_independent(s: RunnerState, model: Seq<u8>, image: Seq<u8>)
    ensures
        with_image(with_model(s, model), image) == with_model(with_image(s, image), model),
        with_image(with_model(s, model), image).flags == s.flags,
        with_image(with_model(s, model), image).history == s.history,
{
}

/// A tick takes an upload in once: after it nothing waits, and a second
/// tick with no upload in between finds nothing.
pub proof fn lemma_upload_taken_once(s: RunnerState)
    ensures
        drained(s).model == None::<Seq<u8>>,
        drained(s).image == None::<Seq<u8>>,
        drained(drained(s)) == drained(s),
{
}

/// Of two requests sent one after the other with no tick in between, only
/// the second is left for the tick to serve.
pub proof fn lemma_later_request_replaces_earlier(
    s: RunnerState,
    first: HistoryAction,
    second: HistoryAction,
)
    ensures
        with_request(with_request(s, first), second) == with_request(s, second),
        with_request(s, second).history.action == second,
{
}

} // verus!
