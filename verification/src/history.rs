//! The undo/redo engine: two stacks of reversible transform operations and
//! one pending request.
//!
//! The engine keeps the books and decides what has to happen to which object.
//! It never touches a transform itself: every decision comes out as a
//! [`TransformOp`] that the caller applies to the live object.

use vstd::prelude::*;

verus! {

/// A stable identifier of a transformable object. The object it names may no
/// longer exist.
#[derive(Clone, Copy, Debug, PartialEq, Eq, Structural)]
pub struct EntityRef {
    pub id: u64,
}

/// A single-precision number, carried as its IEEE 754 bit pattern.
#[derive(Clone, Copy, Debug, PartialEq, Eq, Structural)]
pub struct Scalar {
    pub bits: u32,
}

impl Scalar {
    /// Positive or negative zero.
    pub open spec fn spec_is_zero(self) -> bool {
        self.bits & 0x7fff_ffff == 0
    }

    /// Positive or negative zero.
    #[verifier::when_used_as_spec(spec_is_zero)]
    pub fn is_zero(self) -> (zero: bool)
        ensures
            zero == self.spec_is_zero(),
    {
        self.bits & 0x7fff_ffff == 0
    }

    /// The same magnitude with the opposite sign.
    pub open spec fn spec_negated(self) -> Scalar {
        Scalar { bits: self.bits ^ 0x8000_0000 }
    }

    /// The same magnitude with the opposite sign.
    #[verifier::when_used_as_spec(spec_negated)]
    pub fn negated(self) -> (negated: Scalar)
        ensures
            negated == self.spec_negated(),
    {
        Scalar { bits: self.bits ^ 0x8000_0000 }
    }
}

/// Three single-precision components.
#[derive(Clone, Copy, Debug, PartialEq, Eq, Structural)]
pub struct Vector3 {
    pub x: Scalar,
    pub y: Scalar,
    pub z: Scalar,
}

impl Vector3 {
    /// Whether any of the components is zero.
    pub open spec fn spec_has_zero(self) -> bool {
        self.x.is_zero() || self.y.is_zero() || self.z.is_zero()
    }

    /// Whether any of the components is zero.
    #[verifier::when_used_as_spec(spec_has_zero)]
    pub fn has_zero(self) -> (zero: bool)
        ensures
            zero == self.spec_has_zero(),
    {
        self.x.is_zero() || self.y.is_zero() || self.z.is_zero()
    }
}

/// The cumulative effect of one completed gesture.
#[derive(Clone, Copy, Debug, PartialEq, Eq, Structural)]
#[allow(inconsistent_fields)]
pub enum OperationDelta {
    /// The object was moved by `total`.
    Translation { total: Vector3 },
    /// The object was turned by the angle `total` about `axis`.
    Rotation { axis: Vector3, total: Scalar },
    /// The object's scale was multiplied component-wise by `total`.
    Scale { total: Vector3 },
}

/// One change to make to a live object's transform.
#[derive(Clone, Copy, Debug, PartialEq, Eq, Structural)]
pub enum TransformOp {
    /// Add `by` to the position.
    Translate { by: Vector3 },
    /// Subtract `by` from the position.
    TranslateBack { by: Vector3 },
    /// Multiply the orientation, on the right, by a turn of `angle` about `axis`.
    Rotate { axis: Vector3, angle: Scalar },
    /// Multiply the scale component-wise by `by`.
    Scale { by: Vector3 },
    /// Divide the scale component-wise by `by`; no component of `by` is zero.
    ScaleBack { by: Vector3 },
}

/// Why a delta cannot be undone.
#[derive(Clone, Copy, Debug, PartialEq, Eq, Structural)]
pub enum DeltaError {
    /// A scale with a zero component has no inverse.
    ZeroScale,
}

impl OperationDelta {
    /// The change that replays this delta.
    pub open spec fn spec_forward(self) -> TransformOp {
        match self {
            OperationDelta::Translation { total } => TransformOp::Translate { by: total },
            OperationDelta::Rotation { axis, total } => TransformOp::Rotate { axis, angle: total },
            OperationDelta::Scale { total } => TransformOp::Scale { by: total },
        }
    }

    /// The change that takes this delta back, where it has one.
    pub open spec fn spec_inverse(self) -> Result<TransformOp, DeltaError> {
        match self {
            OperationDelta::Translation { total } => Ok(TransformOp::TranslateBack { by: total }),
            OperationDelta::Rotation { axis, total } => Ok(
                TransformOp::Rotate { axis, angle: total.negated() },
            ),
            OperationDelta::Scale { total } => if total.has_zero() {
                Err(DeltaError::ZeroScale)
            } else {
                Ok(TransformOp::ScaleBack { by: total })
            },
        }
    }

    /// The change that replays this delta.
    #[verifier::when_used_as_spec(spec_forward)]
    pub fn forward(self) -> (op: TransformOp)
        ensures
            op == self.spec_forward(),
    {
        match self {
            OperationDelta::Translation { total } => TransformOp::Translate { by: total },
            OperationDelta::Rotation { axis, total } => TransformOp::Rotate { axis, angle: total },
            OperationDelta::Scale { total } => TransformOp::Scale { by: total },
        }
    }

    /// The change that takes this delta back. A scale with a zero component
    /// has none and is refused.
    #[verifier::when_used_as_spec(spec_inverse)]
    pub fn inverse(self) -> (op: Result<TransformOp, DeltaError>)
        ensures
            op == self.spec_inverse(),
    {
        match self {
            OperationDelta::Translation { total } => Ok(TransformOp::TranslateBack { by: total }),
            OperationDelta::Rotation { axis, total } => Ok(
                TransformOp::Rotate { axis, angle: total.negated() },
            ),
            OperationDelta::Scale { total } => if total.has_zero() {
                Err(DeltaError::ZeroScale)
            } else {
                Ok(TransformOp::ScaleBack { by: total })
            },
        }
    }
}

/// One entry of the history: a completed gesture on one object.
#[derive(Clone, Copy, Debug, PartialEq, Eq, Structural)]
pub enum HistoryItem {
    Transform(EntityRef, OperationDelta),
}

impl HistoryItem {
    /// The object the gesture was made on.
    pub open spec fn spec_entity(self) -> EntityRef {
        match self {
            HistoryItem::Transform(entity, _) => entity,
        }
    }

    /// What the gesture did.
    pub open spec fn spec_delta(self) -> OperationDelta {
        match self {
            HistoryItem::Transform(_, delta) => delta,
        }
    }

    /// The object the gesture was made on.
    #[verifier::when_used_as_spec(spec_entity)]
    pub fn entity(self) -> (entity: EntityRef)
        ensures
            entity == self.spec_entity(),
    {
        match self {
            HistoryItem::Transform(entity, _) => entity,
        }
    }

    /// What the gesture did.
    #[verifier::when_used_as_spec(spec_delta)]
    pub fn delta(self) -> (delta: OperationDelta)
        ensures
            delta == self.spec_delta(),
    {
        match self {
            HistoryItem::Transform(_, delta) => delta,
        }
    }
}

/// The request that the next tick will serve.
#[derive(Clone, Copy, Debug, PartialEq, Eq, Structural)]
pub enum HistoryAction {
    Undo,
    Redo,
    /// Nothing is requested.
    Idle,
}

/// The history as a mathematical value.
pub struct HistoryState {
    /// Completed gestures, most recent last.
    pub past: Seq<HistoryItem>,
    /// Undone gestures, next to redo last.
    pub future: Seq<HistoryItem>,
    /// The single outstanding request.
    pub action: HistoryAction,
}

/// The history with nothing recorded and nothing requested.
pub open spec fn fresh() -> HistoryState {
    HistoryState { past: Seq::empty(), future: Seq::empty(), action: HistoryAction::Idle }
}

/// Recording a new gesture: it goes on top of `past`, and everything that
/// could have been redone is forgotten.
pub open spec fn pushed(h: HistoryState, item: HistoryItem) -> HistoryState {
    HistoryState { past: h.past.push(item), future: Seq::empty(), action: h.action }
}

/// Recording the gestures of `items` one after the other, first to last.
pub open spec fn pushed_all(h: HistoryState, items: Seq<HistoryItem>) -> HistoryState
    decreases items.len(),
{
    if items.len() == 0 {
        h
    } else {
        pushed(pushed_all(h, items.drop_last()), items.last())
    }
}

/// A new request replaces the outstanding one.
pub open spec fn requested(h: HistoryState, action: HistoryAction) -> HistoryState {
    HistoryState { past: h.past, future: h.future, action }
}

/// Moving the most recent gesture from `past` to `future`; nothing moves
/// when `past` is empty.
pub open spec fn undone(h: HistoryState) -> HistoryState {
    if h.past.len() == 0 {
        h
    } else {
        HistoryState {
            past: h.past.drop_last(),
            future: h.future.push(h.past.last()),
            action: h.action,
        }
    }
}

/// Moving the next gesture to redo from `future` to `past`; nothing moves
/// when `future` is empty.
pub open spec fn redone(h: HistoryState) -> HistoryState {
    if h.future.len() == 0 {
        h
    } else {
        HistoryState {
            past: h.past.push(h.future.last()),
            future: h.future.drop_last(),
            action: h.action,
        }
    }
}

/// The gesture on top of a stack, if the stack has one.
pub open spec fn top(stack: Seq<HistoryItem>) -> Option<HistoryItem> {
    if stack.len() == 0 {
        None
    } else {
        Some(stack.last())
    }
}

/// The undo/redo store.
#[derive(Clone, Debug, PartialEq, Eq)]
pub struct History {
    /// Completed gestures; the highest index is the most recent.
    pub past: Vec<HistoryItem>,
    /// Undone gestures; the highest index is the first to be redone.
    pub future: Vec<HistoryItem>,
    /// The request that the next tick will serve.
    pub action: HistoryAction,
}

impl View for History {
    type V = HistoryState;

    open spec fn view(&self) -> HistoryState {
        HistoryState { past: self.past@, future: self.future@, action: self.action }
    }
}

impl History {
    /// An empty history with no request pending.
    pub fn new() -> (history: Self)
        ensures
            history@ == fresh(),
    {
        History { past: Vec::new(), future: Vec::new(), action: HistoryAction::Idle }
    }

    /// Records a completed gesture. Whatever could have been redone is
    /// dropped first: a new edit invalidates the redo history.
    pub fn push(&mut self, item: HistoryItem)
        ensures
            final(self)@ == pushed(old(self)@, item),
            final(self)@.future.len() == 0,
    {
        self.future.clear();
        self.past.push(item);
    }

    /// Sets the pending request, replacing one that was not served yet.
    pub fn request(&mut self, action: HistoryAction)
        ensures
            final(self)@ == requested(old(self)@, action),
    {
        self.action = action;
    }

    /// Hands out the pending request and leaves none pending.
    pub fn take_request(&mut self) -> (action: HistoryAction)
        ensures
            action == old(self)@.action,
            final(self)@ == requested(old(self)@, HistoryAction::Idle),
    {
        let action = self.action;
        self.action = HistoryAction::Idle;
        action
    }

    /// Moves the most recent gesture from `past` to `future` and returns it.
    /// With nothing to undo it returns `None` and changes nothing.
    pub fn undo(&mut self) -> (moved: Option<HistoryItem>)
        ensures
            final(self)@ == undone(old(self)@),
            moved == top(old(self)@.past),
    {
        match self.past.pop() {
            Some(item) => {
                self.future.push(item);
                Some(item)
            },
            None => None,
        }
    }

    /// Moves the next gesture to redo from `future` to `past` and returns
    /// it. With nothing to redo it returns `None` and changes nothing.
    pub fn redo(&mut self) -> (moved: Option<HistoryItem>)
        ensures
            final(self)@ == redone(old(self)@),
            moved == top(old(self)@.future),
    {
        match self.future.pop() {
            Some(item) => {
                self.past.push(item);
                Some(item)
            },
            None => None,
        }
    }
}

/// Immediately after a gesture is recorded nothing is left to redo, whatever
/// the history held before.
pub proof fn lemma_push_clears_future(h: HistoryState, item: HistoryItem)
    ensures
        pushed(h, item).future == Seq::<HistoryItem>::empty(),
        pushed(h, item).past == h.past.push(item),
{
}

/// After any non-empty run of recorded gestures nothing is left to redo, and
/// `past` has grown by exactly those gestures, in order.
pub proof fn lemma_pushes_clear_future(h: HistoryState, items: Seq<HistoryItem>)
    requires
        items.len() > 0,
    ensures
        pushed_all(h, items).future == Seq::<HistoryItem>::empty(),
        pushed_all(h, items).past == h.past + items,
        pushed_all(h, items).action == h.action,
    decreases items.len(),
{
    let init = items.drop_last();
    if init.len() > 0 {
        lemma_pushes_clear_future(h, init);
        assert(pushed_all(h, items).past =~= h.past + items);
    } else {
        assert(pushed_all(h, init) == h);
        assert(pushed_all(h, items).past =~= h.past + items);
    }
}

/// Undo followed at once by redo puts both stacks back exactly as they were,
/// and redo replays the very gesture that undo took back.
pub proof fn lemma_undo_then_redo_restores(h: HistoryState)
    requires
        h.past.len() > 0,
    ensures
        redone(undone(h)) == h,
        top(undone(h).future) == top(h.past),
{
    let u = undone(h);
    assert(u.future.last() == h.past.last());
    assert(redone(u).past =~= h.past);
    assert(redone(u).future =~= h.future);
}

/// Redo followed at once by undo puts both stacks back exactly as they were.
pub proof fn lemma_redo_then_undo_restores(h: HistoryState)
    requires
        h.future.len() > 0,
    ensures
        undone(redone(h)) == h,
        top(redone(h).past) == top(h.future),
{
    let r = redone(h);
    assert(r.past.last() == h.future.last());
    assert(undone(r).past =~= h.past);
    assert(undone(r).future =~= h.future);
}

/// Of two requests sent one after the other with no tick in between, only
/// the second is left to be served.
pub proof fn lemma_last_request_wins(h: HistoryState, first: HistoryAction, second: HistoryAction)
    ensures
        requested(requested(h, first), second) == requested(h, second),
        requested(requested(h, first), second).action == second,
{
}

/// Taking a turn back and replaying it again are opposite changes: negating
/// an angle twice gives the angle, and a zero stays a zero under negation.
pub proof fn lemma_negation_involutive(s: Scalar)
    ensures
        s.negated().negated() == s,
        s.negated().is_zero() == s.is_zero(),
{
    let b = s.bits;
    assert((b ^ 0x8000_0000u32) ^ 0x8000_0000u32 == b) by (bit_vector);
    assert(((b ^ 0x8000_0000u32) & 0x7fff_ffffu32 == 0) == (b & 0x7fff_ffffu32 == 0))
        by (bit_vector);
}

} // verus!
