use editor_core::history::{
    DeltaError, EntityRef, History, HistoryAction, HistoryItem, OperationDelta, Scalar,
    TransformOp, Vector3,
};
use editor_core::tick::{capture, is_live, replay_moved, serve, TickOutcome};

fn single(x: f32) -> Scalar {
    Scalar { bits: x.to_bits() }
}

fn vector(x: f32, y: f32, z: f32) -> Vector3 {
    Vector3 { x: single(x), y: single(y), z: single(z) }
}

fn value(v: Vector3) -> [f32; 3] {
    [f32::from_bits(v.x.bits), f32::from_bits(v.y.bits), f32::from_bits(v.z.bits)]
}

fn entity(id: u64) -> EntityRef {
    EntityRef { id }
}

fn translation(id: u64, x: f32, y: f32, z: f32) -> HistoryItem {
    HistoryItem::Transform(entity(id), OperationDelta::Translation { total: vector(x, y, z) })
}

fn scale(id: u64, x: f32, y: f32, z: f32) -> HistoryItem {
    HistoryItem::Transform(entity(id), OperationDelta::Scale { total: vector(x, y, z) })
}

struct Object {
    position: [f32; 3],
    scale: [f32; 3],
}

fn apply(object: &mut Object, op: TransformOp) {
    match op {
        TransformOp::Translate { by } => {
            let by = value(by);
            for k in 0..3 {
                object.position[k] += by[k];
            }
        }
        TransformOp::TranslateBack { by } => {
            let by = value(by);
            for k in 0..3 {
                object.position[k] -= by[k];
            }
        }
        TransformOp::Scale { by } => {
            let by = value(by);
            for k in 0..3 {
                object.scale[k] *= by[k];
            }
        }
        TransformOp::ScaleBack { by } => {
            let by = value(by);
            for k in 0..3 {
                object.scale[k] /= by[k];
            }
        }
        TransformOp::Rotate { .. } => panic!("no rotation in these scenarios"),
    }
}

#[test]
fn is_live_finds_members_only() {
    let live = vec![entity(1), entity(5), entity(9)];
    assert!(is_live(&live, entity(1)));
    assert!(is_live(&live, entity(9)));
    assert!(!is_live(&live, entity(2)));
    assert!(!is_live(&Vec::new(), entity(1)));
}

#[test]
fn capture_records_gestures_on_live_objects_in_order() {
    let mut history = History::new();
    let events = vec![translation(1, 1.0, 0.0, 0.0), translation(2, 2.0, 0.0, 0.0)];
    capture(&mut history, &events, &vec![entity(2), entity(1)]);
    assert_eq!(history.past, events);
    assert!(history.future.is_empty());
}

#[test]
fn capture_drops_gestures_on_objects_that_are_gone() {
    let mut history = History::new();
    let events = vec![
        translation(1, 1.0, 0.0, 0.0),
        translation(7, 2.0, 0.0, 0.0),
        translation(1, 3.0, 0.0, 0.0),
    ];
    capture(&mut history, &events, &vec![entity(1)]);
    assert_eq!(history.past, vec![translation(1, 1.0, 0.0, 0.0), translation(1, 3.0, 0.0, 0.0)]);
}

#[test]
fn capture_clears_future_only_when_something_is_recorded() {
    let mut history = History::new();
    history.push(translation(1, 1.0, 0.0, 0.0));
    history.undo();
    assert_eq!(history.future.len(), 1);
    capture(&mut history, &vec![translation(7, 2.0, 0.0, 0.0)], &vec![entity(1)]);
    assert_eq!(history.future.len(), 1);
    capture(&mut history, &Vec::new(), &vec![entity(1)]);
    assert_eq!(history.future.len(), 1);
    capture(&mut history, &vec![translation(1, 2.0, 0.0, 0.0)], &vec![entity(1)]);
    assert!(history.future.is_empty());
    assert_eq!(history.past, vec![translation(1, 2.0, 0.0, 0.0)]);
}

#[test]
fn capture_counts_a_live_object_once() {
    let mut history = History::new();
    capture(&mut history, &vec![translation(1, 1.0, 0.0, 0.0)], &vec![entity(1), entity(1)]);
    assert_eq!(history.past.len(), 1);
}

#[test]
fn serve_without_a_request_is_quiet() {
    let mut history = History::new();
    history.push(translation(1, 1.0, 0.0, 0.0));
    let before = history.clone();
    assert_eq!(serve(&mut history, &vec![entity(1)]), TickOutcome::Quiet);
    assert_eq!(history, before);
}

#[test]
fn serve_undo_applies_the_inverse() {
    let mut history = History::new();
    history.push(translation(1, 1.0, 2.0, 3.0));
    history.request(HistoryAction::Undo);
    let outcome = serve(&mut history, &vec![entity(1)]);
    assert_eq!(
        outcome,
        TickOutcome::Applied {
            entity: entity(1),
            op: TransformOp::TranslateBack { by: vector(1.0, 2.0, 3.0) }
        }
    );
    assert!(history.past.is_empty());
    assert_eq!(history.future, vec![translation(1, 1.0, 2.0, 3.0)]);
    assert_eq!(history.action, HistoryAction::Idle);
}

#[test]
fn serve_redo_applies_forward() {
    let mut history = History::new();
    history.push(translation(1, 1.0, 2.0, 3.0));
    history.undo();
    history.request(HistoryAction::Redo);
    let outcome = serve(&mut history, &vec![entity(1)]);
    assert_eq!(
        outcome,
        TickOutcome::Applied {
            entity: entity(1),
            op: TransformOp::Translate { by: vector(1.0, 2.0, 3.0) }
        }
    );
    assert_eq!(history.past, vec![translation(1, 1.0, 2.0, 3.0)]);
    assert!(history.future.is_empty());
    assert_eq!(history.action, HistoryAction::Idle);
}

#[test]
fn serve_on_an_empty_stack_is_a_silent_no_op() {
    let mut history = History::new();
    history.request(HistoryAction::Undo);
    assert_eq!(serve(&mut history, &vec![entity(1)]), TickOutcome::Exhausted);
    assert_eq!(history, History::new());
    history.request(HistoryAction::Redo);
    assert_eq!(serve(&mut history, &vec![entity(1)]), TickOutcome::Exhausted);
    assert_eq!(history, History::new());
}

#[test]
fn serve_moves_the_gesture_of_a_deleted_object_without_applying() {
    let mut history = History::new();
    history.push(translation(4, 1.0, 2.0, 3.0));
    history.request(HistoryAction::Undo);
    let outcome = serve(&mut history, &vec![entity(1)]);
    assert_eq!(outcome, TickOutcome::Detached { item: translation(4, 1.0, 2.0, 3.0) });
    assert!(history.past.is_empty());
    assert_eq!(history.future, vec![translation(4, 1.0, 2.0, 3.0)]);
    history.request(HistoryAction::Redo);
    let outcome = serve(&mut history, &Vec::new());
    assert_eq!(outcome, TickOutcome::Detached { item: translation(4, 1.0, 2.0, 3.0) });
    assert_eq!(history.past, vec![translation(4, 1.0, 2.0, 3.0)]);
}

#[test]
fn serve_reports_a_scale_that_cannot_be_undone() {
    let mut history = History::new();
    history.push(scale(1, 2.0, 0.0, 2.0));
    history.request(HistoryAction::Undo);
    let outcome = serve(&mut history, &vec![entity(1)]);
    assert_eq!(
        outcome,
        TickOutcome::Rejected { item: scale(1, 2.0, 0.0, 2.0), error: DeltaError::ZeroScale }
    );
    assert!(history.past.is_empty());
    assert_eq!(history.future, vec![scale(1, 2.0, 0.0, 2.0)]);
    history.request(HistoryAction::Redo);
    let outcome = serve(&mut history, &vec![entity(1)]);
    assert_eq!(
        outcome,
        TickOutcome::Applied { entity: entity(1), op: TransformOp::Scale { by: vector(2.0, 0.0, 2.0) } }
    );
}

#[test]
fn zero_scale_on_a_deleted_object_is_not_an_error() {
    let outcome = replay_moved(scale(1, 0.0, 0.0, 0.0), true, &Vec::new());
    assert_eq!(outcome, TickOutcome::Detached { item: scale(1, 0.0, 0.0, 0.0) });
}

#[test]
fn undo_twice_with_one_gesture_is_one_undo_and_a_no_op() {
    let live = vec![entity(1)];
    let mut history = History::new();
    history.push(translation(1, 1.0, 2.0, 3.0));
    history.request(HistoryAction::Undo);
    let first = serve(&mut history, &live);
    history.request(HistoryAction::Undo);
    let second = serve(&mut history, &live);
    assert!(matches!(first, TickOutcome::Applied { .. }));
    assert_eq!(second, TickOutcome::Exhausted);
    assert!(history.past.is_empty());
    assert_eq!(history.future.len(), 1);
}

#[test]
fn undo_then_redo_before_a_tick_serves_redo_only() {
    let live = vec![entity(1)];
    let mut history = History::new();
    history.push(translation(1, 1.0, 0.0, 0.0));
    history.push(translation(1, 2.0, 0.0, 0.0));
    history.undo();
    let before = history.clone();
    history.request(HistoryAction::Undo);
    history.request(HistoryAction::Redo);
    let outcome = serve(&mut history, &live);
    assert_eq!(
        outcome,
        TickOutcome::Applied {
            entity: entity(1),
            op: TransformOp::Translate { by: vector(2.0, 0.0, 0.0) }
        }
    );
    assert_eq!(history.past.len(), before.past.len() + 1);
    assert!(history.future.is_empty());
    assert_eq!(serve(&mut history, &live), TickOutcome::Quiet);
}

#[test]
fn scale_undo_scenario() {
    let live = vec![entity(1)];
    let mut object = Object { position: [0.0; 3], scale: [6.0, 8.0, 10.0] };
    let mut history = History::new();
    history.push(scale(1, 2.0, 2.0, 2.0));
    history.request(HistoryAction::Undo);
    match serve(&mut history, &live) {
        TickOutcome::Applied { entity: target, op } => {
            assert_eq!(target, entity(1));
            apply(&mut object, op);
        }
        other => panic!("unexpected outcome {:?}", other),
    }
    assert_eq!(object.scale, [3.0, 4.0, 5.0]);
    assert!(history.past.is_empty());
    assert_eq!(history.future, vec![scale(1, 2.0, 2.0, 2.0)]);
}

#[test]
fn translation_round_trip_scenario() {
    let live = vec![entity(1)];
    let mut object = Object { position: [0.5, -4.0, 10.0], scale: [1.0; 3] };
    let gesture = translation(1, 1.0, 2.0, 3.0);
    apply(&mut object, gesture.delta().forward());
    let after_gesture = object.position;
    assert_eq!(after_gesture, [1.5, -2.0, 13.0]);
    let mut history = History::new();
    capture(&mut history, &vec![gesture], &live);
    history.request(HistoryAction::Undo);
    match serve(&mut history, &live) {
        TickOutcome::Applied { op, .. } => apply(&mut object, op),
        other => panic!("unexpected outcome {:?}", other),
    }
    assert_eq!(object.position, [0.5, -4.0, 10.0]);
    history.request(HistoryAction::Redo);
    match serve(&mut history, &live) {
        TickOutcome::Applied { op, .. } => apply(&mut object, op),
        other => panic!("unexpected outcome {:?}", other),
    }
    assert_eq!(object.position, after_gesture);
    assert_eq!(history.past, vec![gesture]);
    assert!(history.future.is_empty());
}
