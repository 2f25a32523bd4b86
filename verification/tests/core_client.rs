use battlement_flatbuffers::core_client::{
    action_body, read_event, ActivationActionTable, ApplicationStateActionTable,
    BatchCompletedTable, BatchFailedTable, CaptureCancellationCode, CaptureResultCode,
    ControllerButtonActionTable, ControllerNavigateActionTable, CoreActionBodyTable,
    CoreActionBodyView, CoreActionKindCode, CoreActionTable, CoreClientBodyTable,
    CoreClientMessageView, InputCaptureActionTable, InputCaptureResult, KeyActionTable,
    OperationFailedTable, PointerActionTable, PointerButton, PointerButtonActionTable,
    PointerButtonKindCode, ReducedMotionPreferenceActionTable,
};
use battlement_flatbuffers::geometry::GeometryObservationBatchTable;

const IDENT: &str = "BCCM";

fn framed() -> Vec<u8> {
    let mut bytes = vec![12, 0, 0, 0, 8, 0, 0, 0];
    bytes.extend_from_slice(IDENT.as_bytes());
    bytes.extend_from_slice(&[0, 0, 0, 0]);
    bytes
}

fn bits(x: f64) -> u64 {
    x.to_bits()
}

fn pointer() -> PointerActionTable {
    PointerActionTable {
        object_id: [4; 16],
        pointer_id: 0,
        screen_position: [bits(10.0), bits(20.5)],
        world_hit: [bits(0.0), bits(1.0), bits(-2.0)],
    }
}

fn action(kind: CoreActionKindCode, body: CoreActionBodyTable) -> CoreActionTable {
    CoreActionTable { action_id: [1; 16], session_id: [2; 16], kind, body }
}

fn read(body: CoreClientBodyTable) -> Result<CoreClientMessageView, String> {
    CoreClientMessageView::read(&framed(), IDENT, Ok(body)).map_err(|e| e.message().to_string())
}

fn action_error(kind: CoreActionKindCode, body: CoreActionBodyTable) -> String {
    match read(CoreClientBodyTable::CoreAction(Some(action(kind, body)))) {
        Ok(_) => panic!("accepted"),
        Err(e) => e,
    }
}

fn capture(result: CaptureResultCode) -> InputCaptureActionTable {
    InputCaptureActionTable {
        capture_id: [5; 16],
        device_id: 1,
        result,
        key: 40,
        key_failure: None,
        button: 2,
        direction: 3,
        source: 0,
        repeat: false,
        cancellation: CaptureCancellationCode::FocusLost,
    }
}

#[test]
fn reads_a_pointer_enter_action() {
    let view = read(CoreClientBodyTable::CoreAction(Some(action(
        CoreActionKindCode::PointerEnter,
        CoreActionBodyTable::Pointer(Some(pointer())),
    ))))
    .unwrap();
    match view {
        CoreClientMessageView::Action(a) => {
            assert_eq!(a.action_id(), [1; 16]);
            assert_eq!(a.session_id(), [2; 16]);
            match a.body() {
                CoreActionBodyView::PointerEnter(p) => {
                    assert_eq!(p.object_id(), [4; 16]);
                    assert_eq!(p.pointer_id(), 0);
                    assert_eq!(f64::from_bits(p.screen_position()[1]), 20.5);
                    assert_eq!(f64::from_bits(p.world_hit()[2]), -2.0);
                }
                _ => panic!("unexpected body"),
            }
        }
        _ => panic!("unexpected message"),
    }
}

#[test]
fn kind_must_match_payload() {
    assert_eq!(
        action_error(CoreActionKindCode::PointerDown, CoreActionBodyTable::Pointer(Some(pointer()))),
        "core action kind and payload type do not match"
    );
    assert_eq!(
        action_error(CoreActionKindCode::Activate, CoreActionBodyTable::Activation(None)),
        "core action kind and payload type do not match"
    );
    assert_eq!(
        action_error(CoreActionKindCode::Unknown, CoreActionBodyTable::Other),
        "core action kind and payload type do not match"
    );
    assert_eq!(
        action_error(CoreActionKindCode::PointerExit, CoreActionBodyTable::Pointer(None)),
        "pointer payload is missing"
    );
}

#[test]
fn checks_pointer_payloads() {
    let mut p = pointer();
    p.pointer_id = -1;
    assert_eq!(
        action_error(CoreActionKindCode::PointerEnter, CoreActionBodyTable::Pointer(Some(p))),
        "invalid pointer identity or coordinates"
    );
    let mut p = pointer();
    p.world_hit[0] = bits(f64::NAN);
    assert_eq!(
        action_error(CoreActionKindCode::PointerEnter, CoreActionBodyTable::Pointer(Some(p))),
        "invalid pointer identity or coordinates"
    );
    let mut p = pointer();
    p.object_id = [0; 16];
    assert_eq!(
        action_error(CoreActionKindCode::PointerEnter, CoreActionBodyTable::Pointer(Some(p))),
        "pointer object UUID must be nonzero"
    );
}

#[test]
fn checks_pointer_buttons() {
    let button = |kind, other| PointerButtonActionTable {
        object_id: [4; 16],
        pointer_id: 2,
        screen_position: [bits(0.0), bits(0.0)],
        world_hit: [bits(0.0), bits(0.0), bits(0.0)],
        button: 1,
        button_kind: kind,
        button_other: other,
    };
    match action_body(
        CoreActionKindCode::PointerClick,
        CoreActionBodyTable::PointerButton(Some(button(PointerButtonKindCode::Middle, 0))),
    ) {
        Ok(CoreActionBodyView::PointerClick(v)) => {
            assert_eq!(v.pointer_button(), PointerButton::Middle);
            assert_eq!(v.button(), 1);
        }
        _ => panic!("refused"),
    }
    assert_eq!(
        action_error(
            CoreActionKindCode::PointerUp,
            CoreActionBodyTable::PointerButton(Some(button(PointerButtonKindCode::Other, 0)))
        ),
        "unknown core pointer button"
    );
    assert_eq!(
        action_error(
            CoreActionKindCode::PointerDown,
            CoreActionBodyTable::PointerButton(Some(button(PointerButtonKindCode::Left, 3)))
        ),
        "core pointer button has a noncanonical custom index"
    );
}

#[test]
fn checks_key_and_controller_ordinals() {
    assert!(action_body(CoreActionKindCode::KeyDown, CoreActionBodyTable::Key(Some(KeyActionTable { key: 103 }))).is_ok());
    assert_eq!(
        action_error(CoreActionKindCode::KeyUp, CoreActionBodyTable::Key(Some(KeyActionTable { key: 104 }))),
        "unknown physical key"
    );
    assert_eq!(
        action_error(
            CoreActionKindCode::ControllerButtonDown,
            CoreActionBodyTable::ControllerButton(Some(ControllerButtonActionTable { controller_id: 0, button: 10 }))
        ),
        "invalid controller-button payload"
    );
    let nav = ControllerNavigateActionTable { controller_id: 0, direction: 3, source: 1, repeat: true };
    match action_body(CoreActionKindCode::ControllerNavigate, CoreActionBodyTable::ControllerNavigate(Some(nav))) {
        Ok(CoreActionBodyView::ControllerNavigate(v)) => {
            assert_eq!((v.direction(), v.source(), v.is_repeat()), (3, 1, true));
        }
        _ => panic!("refused"),
    }
    let nav = ControllerNavigateActionTable { controller_id: 0, direction: 4, source: 0, repeat: false };
    assert_eq!(
        action_error(CoreActionKindCode::ControllerNavigate, CoreActionBodyTable::ControllerNavigate(Some(nav))),
        "invalid controller-navigation payload"
    );
}

#[test]
fn checks_state_and_preference_actions() {
    let state = ApplicationStateActionTable { focused: true, paused: false };
    match action_body(CoreActionKindCode::ApplicationStateChanged, CoreActionBodyTable::ApplicationState(Some(state))) {
        Ok(CoreActionBodyView::ApplicationStateChanged(v)) => assert!(v.focused() && !v.paused()),
        _ => panic!("refused"),
    }
    assert_eq!(
        action_error(
            CoreActionKindCode::ReducedMotionPreferenceChanged,
            CoreActionBodyTable::ReducedMotionPreference(Some(ReducedMotionPreferenceActionTable { value: 3 }))
        ),
        "unknown reduced-motion preference"
    );
    let activation = ActivationActionTable { object_id: [0; 16] };
    assert!(action_body(CoreActionKindCode::Activate, CoreActionBodyTable::Activation(Some(activation))).is_ok());
}

#[test]
fn nested_batches_are_checked() {
    let geometry = GeometryObservationBatchTable { generation: 0, changed: vec![] };
    assert_eq!(
        action_error(CoreActionKindCode::GeometryObservations, CoreActionBodyTable::Geometry(Some(geometry))),
        "geometry generation must be nonzero"
    );
}

#[test]
fn action_identities_must_be_nonzero() {
    let mut a = action(CoreActionKindCode::PointerEnter, CoreActionBodyTable::Pointer(Some(pointer())));
    a.session_id = [0; 16];
    assert_eq!(read(CoreClientBodyTable::CoreAction(Some(a))).err().unwrap(), "core action UUIDs must be nonzero");
}

#[test]
fn reads_input_capture_results() {
    let ev = read_event(&capture(CaptureResultCode::Key)).unwrap();
    assert_eq!(ev.id, [5; 16]);
    assert_eq!(ev.result, InputCaptureResult::Key { device_id: 1, key: 40 });
    let ev = read_event(&capture(CaptureResultCode::Direction)).unwrap();
    assert_eq!(ev.result, InputCaptureResult::Direction { controller_id: 1, direction: 3 });
    let ev = read_event(&capture(CaptureResultCode::Cancelled)).unwrap();
    assert_eq!(ev.result, InputCaptureResult::Cancelled(CaptureCancellationCode::FocusLost));
    let mut bad = capture(CaptureResultCode::Direction);
    bad.repeat = true;
    assert_eq!(read_event(&bad).unwrap_err().message(), "capture directions must be initial D-pad presses");
    let mut bad = capture(CaptureResultCode::Button);
    bad.button = 10;
    assert_eq!(read_event(&bad).unwrap_err().message(), "unknown capture button");
    let mut bad = capture(CaptureResultCode::Key);
    bad.device_id = -1;
    assert_eq!(read_event(&bad).unwrap_err().message(), "capture device identity must be nonnegative");
    let mut bad = capture(CaptureResultCode::Key);
    bad.key_failure = Some("unknown physical key".to_string());
    assert_eq!(read_event(&bad).unwrap_err().message(), "unknown physical key");
    assert_eq!(read_event(&capture(CaptureResultCode::Unknown)).unwrap_err().message(), "unknown capture result");
    let mut bad = capture(CaptureResultCode::Cancelled);
    bad.cancellation = CaptureCancellationCode::Unknown;
    assert_eq!(read_event(&bad).unwrap_err().message(), "unknown capture cancellation");
}

#[test]
fn reads_batch_reports() {
    match read(CoreClientBodyTable::BatchCompleted(Some(BatchCompletedTable { session_id: [1; 16], batch_id: [2; 16] }))).unwrap() {
        CoreClientMessageView::BatchCompleted(b) => assert_eq!((b.session_id, b.batch_id), ([1; 16], [2; 16])),
        _ => panic!("unexpected message"),
    }
    assert_eq!(
        read(CoreClientBodyTable::BatchCompleted(Some(BatchCompletedTable { session_id: [1; 16], batch_id: [0; 16] }))).err().unwrap(),
        "batch-completed batch is zero"
    );
    let failed = BatchFailedTable {
        session_id: [1; 16],
        batch_id: [2; 16],
        command_id: None,
        error_code: 4,
        error_code_named: true,
        message: "boom".to_string(),
    };
    match read(CoreClientBodyTable::BatchFailed(Some(failed))).unwrap() {
        CoreClientMessageView::BatchFailed(f) => {
            assert_eq!(f.message(), "boom");
            assert_eq!(f.command_id(), None);
            assert_eq!(f.error_code(), 4);
        }
        _ => panic!("unexpected message"),
    }
    let failed = OperationFailedTable {
        session_id: [1; 16],
        batch_id: [2; 16],
        command_id: [0; 16],
        error_code: 1,
        error_code_named: true,
        message: String::new(),
    };
    assert_eq!(
        read(CoreClientBodyTable::OperationFailed(Some(failed))).err().unwrap(),
        "invalid operation-failure identity or error code"
    );
    assert_eq!(read(CoreClientBodyTable::Unknown).err().unwrap(), "unknown core client message union tag");
    assert_eq!(read(CoreClientBodyTable::BatchFailed(None)).err().unwrap(), "batch-failure payload is missing");
}

#[test]
fn read_reports_framing_first() {
    let err = CoreClientMessageView::read(&[1, 2, 3], IDENT, Ok(CoreClientBodyTable::Unknown));
    assert_eq!(
        err.err().unwrap().message(),
        "core client message size prefix does not match its finished range"
    );
    let err = CoreClientMessageView::read(&framed(), IDENT, Err("bad offset".to_string()));
    assert_eq!(err.err().unwrap().message(), "invalid core client FlatBuffer: bad offset");
}

const RIGHT_BUTTON: u8 = 2;

fn click(other: u32, screen: [f64; 2], world: [f64; 3], pointer_id: i32) -> CoreActionTable {
    CoreActionTable {
        action_id: [1; 16],
        session_id: [2; 16],
        kind: CoreActionKindCode::PointerClick,
        body: CoreActionBodyTable::PointerButton(Some(PointerButtonActionTable {
            object_id: [3; 16],
            pointer_id,
            screen_position: screen.map(f64::to_bits),
            world_hit: world.map(f64::to_bits),
            button: RIGHT_BUTTON,
            button_kind: PointerButtonKindCode::Right,
            button_other: other,
        })),
    }
}

#[test]
fn reads_borrowed_pointer_payload_without_precision_loss() {
    let table = click(
        0,
        [1.234_567_890_123, -9.876_543_210_987],
        [123_456_789.125, -0.000_000_000_123, 42.5],
        7,
    );
    let CoreClientMessageView::Action(action) =
        CoreClientMessageView::read(&framed(), IDENT, Ok(CoreClientBodyTable::CoreAction(Some(table)))).unwrap()
    else {
        panic!("expected action");
    };
    assert_eq!(action.action_id(), [1; 16]);
    let CoreActionBodyView::PointerClick(pointer) = action.body() else {
        panic!("expected pointer click");
    };
    assert_eq!(pointer.object_id(), [3; 16]);
    assert_eq!(pointer.pointer_id(), 7);
    assert_eq!(pointer.screen_position().map(f64::from_bits), [1.234_567_890_123, -9.876_543_210_987]);
    assert_eq!(pointer.world_hit().map(f64::from_bits), [123_456_789.125, -0.000_000_000_123, 42.5]);
    assert_eq!(pointer.button(), RIGHT_BUTTON);
    assert_eq!(pointer.pointer_button(), PointerButton::Right);
}

#[test]
fn rejects_union_mismatch_unknown_enum_and_noncanonical_button() {
    let mismatch = action(CoreActionKindCode::Activate, CoreActionBodyTable::Key(Some(KeyActionTable { key: 30 })));
    assert!(read(CoreClientBodyTable::CoreAction(Some(mismatch))).is_err());
    let unknown = action(CoreActionKindCode::KeyDown, CoreActionBodyTable::Key(Some(KeyActionTable { key: u16::MAX })));
    assert!(read(CoreClientBodyTable::CoreAction(Some(unknown))).is_err());
    let mut noncanonical = click(4, [0.0, 0.0], [0.0, 0.0, 0.0], 0);
    noncanonical.kind = CoreActionKindCode::PointerDown;
    assert!(read(CoreClientBodyTable::CoreAction(Some(noncanonical))).is_err());
}

fn preference_body() -> CoreClientBodyTable {
    CoreClientBodyTable::CoreAction(Some(action(
        CoreActionKindCode::ReducedMotionPreferenceChanged,
        CoreActionBodyTable::ReducedMotionPreference(Some(ReducedMotionPreferenceActionTable { value: 1 })),
    )))
}

#[test]
fn rejects_truncation_prefix_mismatch_and_wrong_identifier() {
    let mut bytes = framed();
    assert!(CoreClientMessageView::read(&bytes, IDENT, Ok(preference_body())).is_ok());
    assert!(CoreClientMessageView::read(&bytes[..bytes.len() - 1], IDENT, Ok(preference_body())).is_err());
    bytes[0] ^= 1;
    assert!(CoreClientMessageView::read(&bytes, IDENT, Ok(preference_body())).is_err());
    bytes[0] ^= 1;
    bytes[8] ^= 1;
    assert!(CoreClientMessageView::read(&bytes, IDENT, Ok(preference_body())).is_err());
}

fn motion_body(first_sequence: u64, last_sequence: u64) -> CoreClientBodyTable {
    CoreClientBodyTable::CoreAction(Some(action(
        CoreActionKindCode::MotionEvents,
        CoreActionBodyTable::Motion(Some(battlement_flatbuffers::motion::MotionEventBatchTable {
            first_sequence,
            last_sequence,
            events: vec![],
            samples: vec![],
            value_samples: vec![],
            playback_events: vec![],
            gesture_events: vec![],
        })),
    )))
}

#[test]
fn reads_and_semantically_checks_motion_batches() {
    let CoreClientMessageView::Action(action) = read(motion_body(4, 4)).unwrap() else {
        panic!("expected action");
    };
    let CoreActionBodyView::MotionEvents(batch) = action.body() else {
        panic!("expected Motion batch");
    };
    assert_eq!(batch.first_sequence(), 4);
    assert_eq!(batch.last_sequence(), 4);
    assert_eq!(batch.lifecycle_count(), 0);
    assert_eq!(batch.presentation_sample_count(), 0);
    assert!(read(motion_body(5, 4)).is_err());
}
