use editor_core::history::{
    DeltaError, EntityRef, History, HistoryAction, HistoryItem, OperationDelta, Scalar,
    TransformOp, Vector3,
};

fn number(x: f32) -> Scalar {
    Scalar { bits: x.to_bits() }
}

fn triple(x: f32, y: f32, z: f32) -> Vector3 {
    Vector3 { x: number(x), y: number(y), z: number(z) }
}

fn moved(id: u64, x: f32, y: f32, z: f32) -> HistoryItem {
    HistoryItem::Transform(EntityRef { id }, OperationDelta::Translation { total: triple(x, y, z) })
}

#[test]
fn new_history_is_empty() {
    let history = History::new();
    assert!(history.past.is_empty());
    assert!(history.future.is_empty());
    assert_eq!(history.action, HistoryAction::Idle);
}

#[test]
fn push_appends_to_past() {
    let mut history = History::new();
    history.push(moved(1, 1.0, 0.0, 0.0));
    history.push(moved(2, 0.0, 1.0, 0.0));
    assert_eq!(history.past, vec![moved(1, 1.0, 0.0, 0.0), moved(2, 0.0, 1.0, 0.0)]);
    assert!(history.future.is_empty());
}

#[test]
fn push_clears_future() {
    let mut history = History::new();
    history.push(moved(1, 1.0, 0.0, 0.0));
    history.push(moved(1, 2.0, 0.0, 0.0));
    assert_eq!(history.undo(), Some(moved(1, 2.0, 0.0, 0.0)));
    assert_eq!(history.future.len(), 1);
    history.push(moved(1, 3.0, 0.0, 0.0));
    assert!(history.future.is_empty());
    assert_eq!(history.past, vec![moved(1, 1.0, 0.0, 0.0), moved(1, 3.0, 0.0, 0.0)]);
    assert_eq!(history.redo(), None);
}

#[test]
fn push_keeps_the_pending_request() {
    let mut history = History::new();
    history.request(HistoryAction::Redo);
    history.push(moved(1, 1.0, 0.0, 0.0));
    assert_eq!(history.action, HistoryAction::Redo);
}

#[test]
fn undo_moves_the_most_recent_gesture() {
    let mut history = History::new();
    history.push(moved(1, 1.0, 0.0, 0.0));
    history.push(moved(2, 2.0, 0.0, 0.0));
    assert_eq!(history.undo(), Some(moved(2, 2.0, 0.0, 0.0)));
    assert_eq!(history.past, vec![moved(1, 1.0, 0.0, 0.0)]);
    assert_eq!(history.future, vec![moved(2, 2.0, 0.0, 0.0)]);
    assert_eq!(history.undo(), Some(moved(1, 1.0, 0.0, 0.0)));
    assert!(history.past.is_empty());
    assert_eq!(history.future, vec![moved(2, 2.0, 0.0, 0.0), moved(1, 1.0, 0.0, 0.0)]);
}

#[test]
fn undo_on_empty_past_does_nothing() {
    let mut history = History::new();
    assert_eq!(history.undo(), None);
    assert_eq!(history, History::new());
}

#[test]
fn redo_on_empty_future_does_nothing() {
    let mut history = History::new();
    history.push(moved(1, 1.0, 0.0, 0.0));
    let before = history.clone();
    assert_eq!(history.redo(), None);
    assert_eq!(history, before);
}

#[test]
fn redo_replays_in_reverse_order_of_undo() {
    let mut history = History::new();
    history.push(moved(1, 1.0, 0.0, 0.0));
    history.push(moved(2, 2.0, 0.0, 0.0));
    history.undo();
    history.undo();
    assert_eq!(history.redo(), Some(moved(1, 1.0, 0.0, 0.0)));
    assert_eq!(history.redo(), Some(moved(2, 2.0, 0.0, 0.0)));
    assert_eq!(history.past, vec![moved(1, 1.0, 0.0, 0.0), moved(2, 2.0, 0.0, 0.0)]);
    assert!(history.future.is_empty());
}

#[test]
fn undo_then_redo_restores_both_stacks() {
    let mut history = History::new();
    history.push(moved(1, 1.0, 0.0, 0.0));
    history.push(moved(2, 2.0, 0.0, 0.0));
    history.undo();
    history.push(moved(3, 3.0, 0.0, 0.0));
    history.undo();
    let before = history.clone();
    let undone = history.undo();
    let redone = history.redo();
    assert_eq!(undone, redone);
    assert_eq!(history, before);
}

#[test]
fn request_overwrites_the_pending_request() {
    let mut history = History::new();
    history.request(HistoryAction::Undo);
    history.request(HistoryAction::Redo);
    assert_eq!(history.action, HistoryAction::Redo);
    assert_eq!(history.take_request(), HistoryAction::Redo);
    assert_eq!(history.action, HistoryAction::Idle);
    assert_eq!(history.take_request(), HistoryAction::Idle);
}

#[test]
fn forward_of_each_delta() {
    let t = triple(1.0, 2.0, 3.0);
    assert_eq!(OperationDelta::Translation { total: t }.forward(), TransformOp::Translate { by: t });
    assert_eq!(OperationDelta::Scale { total: t }.forward(), TransformOp::Scale { by: t });
    assert_eq!(
        OperationDelta::Rotation { axis: t, total: number(0.5) }.forward(),
        TransformOp::Rotate { axis: t, angle: number(0.5) }
    );
}

#[test]
fn inverse_of_each_delta() {
    let t = triple(1.0, 2.0, 3.0);
    assert_eq!(
        OperationDelta::Translation { total: t }.inverse(),
        Ok(TransformOp::TranslateBack { by: t })
    );
    assert_eq!(OperationDelta::Scale { total: t }.inverse(), Ok(TransformOp::ScaleBack { by: t }));
    assert_eq!(
        OperationDelta::Rotation { axis: t, total: number(0.5) }.inverse(),
        Ok(TransformOp::Rotate { axis: t, angle: number(-0.5) })
    );
}

#[test]
fn inverse_of_a_scale_with_a_zero_component_is_refused() {
    for total in [triple(0.0, 1.0, 1.0), triple(1.0, -0.0, 1.0), triple(1.0, 1.0, 0.0)] {
        assert_eq!(OperationDelta::Scale { total }.inverse(), Err(DeltaError::ZeroScale));
        assert_eq!(OperationDelta::Scale { total }.forward(), TransformOp::Scale { by: total });
    }
}

#[test]
fn inverse_of_a_zero_translation_is_fine() {
    let zero = triple(0.0, 0.0, 0.0);
    assert_eq!(
        OperationDelta::Translation { total: zero }.inverse(),
        Ok(TransformOp::TranslateBack { by: zero })
    );
}

#[test]
fn zero_is_told_from_its_bits() {
    assert!(number(0.0).is_zero());
    assert!(number(-0.0).is_zero());
    assert!(!number(1.0).is_zero());
    assert!(!number(f32::MIN_POSITIVE).is_zero());
    assert!(!number(f32::NAN).is_zero());
    assert!(triple(1.0, 0.0, 1.0).has_zero());
    assert!(!triple(1.0, 2.0, 3.0).has_zero());
}

#[test]
fn negation_flips_the_sign_only() {
    assert_eq!(f32::from_bits(number(1.5).negated().bits), -1.5);
    assert_eq!(f32::from_bits(number(-2.25).negated().bits), 2.25);
    assert_eq!(number(0.75).negated().negated(), number(0.75));
    assert_eq!(number(0.0).negated(), number(-0.0));
}

#[test]
fn item_accessors() {
    let item = moved(42, 1.0, 2.0, 3.0);
    assert_eq!(item.entity(), EntityRef { id: 42 });
    assert_eq!(item.delta(), OperationDelta::Translation { total: triple(1.0, 2.0, 3.0) });
}
