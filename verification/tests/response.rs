use battlement_flatbuffers::command_kinds::{expected_payload, CoreCommandKind, CoreCommandPayload};
use battlement_flatbuffers::response::{
    validate_command, validate_response, BatchStartCode, BatchTable, CommandEntryTable,
    CommandKindCode, CoreCommandTable, ResponseMessageTable, ResponseTable, SnapshotTable,
};
use battlement_flatbuffers::ResponseView;

const IDENT: &str = "BRSP";

fn id(byte: u8) -> [u8; 16] {
    [byte; 16]
}

fn framed() -> Vec<u8> {
    let mut bytes = vec![12, 0, 0, 0, 8, 0, 0, 0];
    bytes.extend_from_slice(IDENT.as_bytes());
    bytes.extend_from_slice(&[0, 0, 0, 0]);
    bytes
}

fn command(kind: CoreCommandKind, payload: CoreCommandPayload) -> CoreCommandTable {
    CoreCommandTable {
        command_id: id(7),
        kind: CommandKindCode::Admitted(kind),
        payload_type: Some(payload),
        payload_failure: None,
    }
}

fn destroy() -> CommandEntryTable {
    CommandEntryTable::Core(Some(command(
        CoreCommandKind::ObjectDestroy,
        CoreCommandPayload::ObjectIdPayload,
    )))
}

fn batch(groups: Vec<Vec<CommandEntryTable>>) -> BatchTable {
    BatchTable {
        batch_id: id(2),
        session_id: id(1),
        caused_by_action_id: None,
        start: BatchStartCode::Now,
        work_scope: None,
        cancel_scope: None,
        groups,
    }
}

fn response(messages: Vec<ResponseMessageTable>) -> ResponseTable {
    ResponseTable { session_id: id(1), messages }
}

fn failure(t: ResponseTable) -> String {
    validate_response(&t).unwrap_err().message().to_string()
}

fn batch_failure(b: BatchTable) -> String {
    failure(response(vec![ResponseMessageTable::Batch(Some(b))]))
}

#[test]
fn reads_a_batch_and_a_snapshot() {
    let table = response(vec![
        ResponseMessageTable::Batch(Some(batch(vec![vec![destroy()]]))),
        ResponseMessageTable::Snapshot(Some(SnapshotTable { session_id: id(1), content_failure: None })),
    ]);
    let view = ResponseView::read(&framed(), IDENT, Ok(table)).unwrap();
    assert_eq!(view.session_id(), id(1));
    assert_eq!(view.message_count(), 2);
    assert_eq!(view.raw().messages.len(), 2);
}

#[test]
fn empty_response_is_accepted() {
    let view = ResponseView::read(&framed(), IDENT, Ok(response(vec![]))).unwrap();
    assert_eq!(view.message_count(), 0);
}

#[test]
fn read_reports_framing_and_decoding() {
    let mut long = framed();
    long.push(1);
    let err = ResponseView::read(&long, IDENT, Ok(response(vec![]))).err().unwrap();
    assert_eq!(err.message(), "response size prefix does not match its finished range");
    let err = ResponseView::read(&framed(), "BCON", Ok(response(vec![]))).err().unwrap();
    assert_eq!(err.message(), "response has the wrong file identifier");
    let err = ResponseView::read(&framed(), IDENT, Err("unaligned".to_string())).err().unwrap();
    assert_eq!(err.message(), "invalid response FlatBuffer: unaligned");
}

#[test]
fn refuses_zero_and_mismatched_sessions() {
    let mut zero = response(vec![]);
    zero.session_id = [0; 16];
    assert_eq!(failure(zero), "response session UUID is zero");
    let mut other = batch(vec![vec![destroy()]]);
    other.session_id = id(9);
    assert_eq!(batch_failure(other), "batch response session mismatch");
    let snapshot = SnapshotTable { session_id: id(9), content_failure: None };
    assert_eq!(
        failure(response(vec![ResponseMessageTable::Snapshot(Some(snapshot))])),
        "snapshot response session mismatch"
    );
    let snapshot = SnapshotTable { session_id: [0; 16], content_failure: None };
    assert_eq!(
        failure(response(vec![ResponseMessageTable::Snapshot(Some(snapshot))])),
        "snapshot session UUID is zero"
    );
}

#[test]
fn refuses_unknown_and_missing_messages() {
    assert_eq!(failure(response(vec![ResponseMessageTable::Unknown])), "response message kind is unknown");
    assert_eq!(
        failure(response(vec![ResponseMessageTable::Batch(None)])),
        "response message kind/payload mismatch"
    );
    assert_eq!(
        failure(response(vec![ResponseMessageTable::Snapshot(None)])),
        "response message kind/payload mismatch"
    );
    let snapshot = SnapshotTable { session_id: id(1), content_failure: Some("bad scene".to_string()) };
    assert_eq!(failure(response(vec![ResponseMessageTable::Snapshot(Some(snapshot))])), "bad scene");
}

#[test]
fn checks_batch_identity_and_scheduling() {
    let mut b = batch(vec![vec![destroy()]]);
    b.batch_id = [0; 16];
    assert_eq!(batch_failure(b), "batch UUID is zero");
    let mut b = batch(vec![vec![destroy()]]);
    b.session_id = [0; 16];
    assert_eq!(batch_failure(b), "batch session UUID is zero");
    let mut b = batch(vec![vec![destroy()]]);
    b.caused_by_action_id = Some([0; 16]);
    assert_eq!(batch_failure(b), "causing action UUID is zero");
    let mut b = batch(vec![vec![destroy()]]);
    b.start = BatchStartCode::Unknown;
    assert_eq!(batch_failure(b), "batch start is unknown");
    let mut b = batch(vec![vec![destroy()]]);
    b.work_scope = Some(0);
    assert_eq!(batch_failure(b), "work scope must be nonzero");
    assert_eq!(batch_failure(batch(vec![])), "batch has no parallel groups");
    assert_eq!(batch_failure(batch(vec![vec![]])), "parallel group has no commands");
}

#[test]
fn cancellation_batches_only_destroy() {
    let mut b = batch(vec![]);
    b.cancel_scope = Some(4);
    assert!(validate_response(&response(vec![ResponseMessageTable::Batch(Some(b))])).is_ok());
    let mut b = batch(vec![vec![destroy()]]);
    b.cancel_scope = Some(4);
    b.work_scope = Some(3);
    assert_eq!(batch_failure(b), "cancellation must be independent unowned work");
    let mut b = batch(vec![vec![destroy()]]);
    b.cancel_scope = Some(4);
    b.start = BatchStartCode::AfterEarlierBlockingWork;
    assert_eq!(batch_failure(b), "cancellation must be independent unowned work");
    let wait = CommandEntryTable::Core(Some(command(CoreCommandKind::TimeWait, CoreCommandPayload::WaitPayload)));
    let mut b = batch(vec![vec![wait]]);
    b.cancel_scope = Some(4);
    assert_eq!(batch_failure(b), "cancellation cleanup may only destroy objects");
}

#[test]
fn checks_command_entries() {
    assert_eq!(batch_failure(batch(vec![vec![CommandEntryTable::Other]])), "core command entry kind is unknown");
    assert_eq!(
        batch_failure(batch(vec![vec![CommandEntryTable::Core(None)]])),
        "core command entry payload is absent"
    );
}

#[test]
fn checks_commands() {
    let good = command(CoreCommandKind::SceneUnload, CoreCommandPayload::SceneIdPayload);
    assert!(validate_command(&good).is_ok());
    let mut zero = command(CoreCommandKind::SceneUnload, CoreCommandPayload::SceneIdPayload);
    zero.command_id = [0; 16];
    assert_eq!(validate_command(&zero).unwrap_err().message(), "command UUID is zero");
    let mismatch = command(CoreCommandKind::SceneUnload, CoreCommandPayload::SceneLoadPayload);
    assert_eq!(validate_command(&mismatch).unwrap_err().message(), "response command kind/payload mismatch");
    let mut absent = command(CoreCommandKind::SceneUnload, CoreCommandPayload::SceneIdPayload);
    absent.payload_type = None;
    assert_eq!(validate_command(&absent).unwrap_err().message(), "response command kind/payload mismatch");
    let mut unknown = good;
    unknown.kind = CommandKindCode::Unknown;
    assert_eq!(validate_command(&unknown).unwrap_err().message(), "response command kind is unknown");
    unknown.kind = CommandKindCode::NotAdmitted;
    assert_eq!(
        validate_command(&unknown).unwrap_err().message(),
        "response command kind is not admitted by this schema revision"
    );
}

#[test]
fn visual_element_payload_rules_apply_only_to_visual_kinds() {
    let mut create = command(CoreCommandKind::VisualElementCreate, CoreCommandPayload::VisualElementCreatePayload);
    create.payload_failure = Some("invalid visual element".to_string());
    assert_eq!(validate_command(&create).unwrap_err().message(), "invalid visual element");
    let mut wait = command(CoreCommandKind::TimeWait, CoreCommandPayload::WaitPayload);
    wait.payload_failure = Some("ignored".to_string());
    assert!(validate_command(&wait).is_ok());
}

#[test]
fn payload_table_pairs_kinds() {
    assert_eq!(expected_payload(CoreCommandKind::ObjectDestroy), CoreCommandPayload::ObjectIdPayload);
    assert_eq!(expected_payload(CoreCommandKind::InputSetCamera), CoreCommandPayload::ObjectIdPayload);
    assert_eq!(expected_payload(CoreCommandKind::TextSetColor), CoreCommandPayload::ColorPayload);
    assert_eq!(
        expected_payload(CoreCommandKind::InputSetController),
        CoreCommandPayload::ControllerInputSettings
    );
    assert_eq!(expected_payload(CoreCommandKind::AudioResume), CoreCommandPayload::AudioPlaybackPayload);
    assert_eq!(
        expected_payload(CoreCommandKind::AccessibilityUpdate),
        CoreCommandPayload::AccessibilityUpdate
    );
}

#[test]
fn first_failure_wins() {
    let bad_first = batch(vec![vec![CommandEntryTable::Other], vec![]]);
    assert_eq!(batch_failure(bad_first), "core command entry kind is unknown");
    let table = response(vec![ResponseMessageTable::Unknown, ResponseMessageTable::Batch(None)]);
    assert_eq!(failure(table), "response message kind is unknown");
}

fn framed_response(session: [u8; 16]) -> (Vec<u8>, ResponseTable) {
    (framed(), ResponseTable { session_id: session, messages: vec![] })
}

/// The writer of empty responses builds through the generated schema code
/// outside this library, so the message here is framed by hand and its root
/// table given as decoded.
#[test]
fn empty_response_is_size_prefixed_verified_and_borrowed() {
    let id = [7; 16];
    let (bytes, table) = framed_response(id);
    let view = ResponseView::read(&bytes, IDENT, Ok(table)).ok().expect("read response");
    assert_eq!(view.session_id(), id);
    assert_eq!(view.message_count(), 0);
}

/// Framed by hand as above; the zero session is refused by the response
/// rules, the flipped prefix byte by the framing check.
#[test]
fn response_rejects_zero_uuid_and_broken_prefix() {
    let (bytes, table) = framed_response([0; 16]);
    assert!(ResponseView::read(&bytes, IDENT, Ok(table)).is_err());
    let (mut bytes, table) = framed_response([9; 16]);
    bytes[0] ^= 1;
    assert!(ResponseView::read(&bytes, IDENT, Ok(table)).is_err());
}

/// Framed by hand as above. Every truncation breaks the size prefix. For the
/// hostile root offset the framing still holds, so the refusal is the
/// FlatBuffers verifier's own verdict on those bytes, which the reader must
/// report under its prefix.
#[test]
fn response_rejects_every_truncated_finished_range_and_hostile_root_offset() {
    let (bytes, _) = framed_response([0x6d; 16]);
    for length in 0..bytes.len() {
        let (_, table) = framed_response([0x6d; 16]);
        assert!(
            ResponseView::read(&bytes[..length], IDENT, Ok(table)).is_err(),
            "accepted truncated response length {length}"
        );
    }
    let mut hostile = bytes;
    hostile[4..8].copy_from_slice(&u32::MAX.to_le_bytes());
    let verdict = flatbuffers::size_prefixed_root_with_opts::<&str>(
        &flatbuffers::VerifierOptions::default(),
        &hostile,
    );
    let detail = verdict.as_ref().err().expect("the verifier accepted a root offset past the buffer").to_string();
    let (_, table) = framed_response([0x6d; 16]);
    let err = ResponseView::read(&hostile, IDENT, verdict.map(|_| table).map_err(|e| e.to_string()))
        .err()
        .expect("accepted a hostile root offset");
    assert_eq!(err.message(), format!("invalid response FlatBuffer: {detail}"));
}
