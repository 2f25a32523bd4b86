use battlement_flatbuffers::motion::{
    length, validate_batch, validate_property_value, validate_sample_value, validate_sequence,
    MotionEventBatchTable, MotionLength, MotionLifecycleEventTable, MotionLifecycleKind,
    MotionPropertyValueTable, MotionValueSampleTable, MotionValueTable,
};
use battlement_flatbuffers::MotionEventBatchView;

fn bits(x: f32) -> u32 {
    x.to_bits()
}

fn event(sequence: u64, kind: MotionLifecycleKind) -> MotionLifecycleEventTable {
    MotionLifecycleEventTable { sequence, descriptor_id: [3; 16], kind, repeat_first: 0, repeat_last: 0 }
}

fn batch(first: u64, last: u64, events: Vec<MotionLifecycleEventTable>) -> MotionEventBatchTable {
    MotionEventBatchTable {
        first_sequence: first,
        last_sequence: last,
        events,
        samples: vec![],
        value_samples: vec![],
        playback_events: vec![],
        gesture_events: vec![],
    }
}

fn error(t: MotionEventBatchTable) -> String {
    validate_batch(&t).unwrap_err().message().to_string()
}

#[test]
fn accepts_contiguous_lifecycle_events() {
    let t = batch(7, 9, vec![
        event(7, MotionLifecycleKind::Activated),
        event(8, MotionLifecycleKind::Started),
        event(9, MotionLifecycleKind::Completed),
    ]);
    let view = MotionEventBatchView::new(t).unwrap();
    assert_eq!(view.first_sequence(), 7);
    assert_eq!(view.last_sequence(), 9);
    assert_eq!(view.lifecycle_count(), 3);
    assert_eq!(view.presentation_sample_count(), 0);
    assert_eq!(view.value_sample_count(), 0);
    assert_eq!(view.playback_count(), 0);
    assert_eq!(view.gesture_count(), 0);
}

#[test]
fn refuses_sequence_faults() {
    assert_eq!(error(batch(5, 4, vec![])), "Motion sequence range is reversed");
    assert_eq!(
        error(batch(1, 2, vec![event(1, MotionLifecycleKind::Started)])),
        "Motion sequence bounds do not match lifecycle events"
    );
    assert_eq!(
        error(batch(1, 3, vec![event(1, MotionLifecycleKind::Started), event(3, MotionLifecycleKind::Completed)])),
        "Motion lifecycle sequences are not contiguous"
    );
}

#[test]
fn refuses_bad_lifecycle_records() {
    assert_eq!(
        error(batch(1, 1, vec![event(1, MotionLifecycleKind::Unknown)])),
        "invalid Motion lifecycle identity or kind"
    );
    let mut repeat = event(1, MotionLifecycleKind::Repeated);
    repeat.repeat_first = 4;
    repeat.repeat_last = 2;
    assert_eq!(error(batch(1, 1, vec![repeat])), "Motion repeat range is reversed");
    let mut stray = event(1, MotionLifecycleKind::Stopped);
    stray.repeat_last = 2;
    assert_eq!(error(batch(1, 1, vec![stray])), "non-repeat Motion event carries repeat bounds");
}

#[test]
fn checks_values_by_their_bits() {
    assert!(length(&MotionLength { pixels: bits(2.5), percentage: bits(0.0) }));
    assert!(!length(&MotionLength { pixels: bits(f32::INFINITY), percentage: bits(0.0) }));
    let named = MotionPropertyValueTable {
        property: 4,
        property_named: true,
        value: MotionValueTable::Scalar(Some(bits(1.0))),
    };
    assert!(validate_property_value(&named).is_ok());
    let unnamed = MotionPropertyValueTable { property_named: false, ..named };
    assert_eq!(validate_property_value(&unnamed).unwrap_err().message(), "unknown Motion property");
    let bad = MotionPropertyValueTable {
        property: 4,
        property_named: true,
        value: MotionValueTable::Scalar(Some(bits(f32::NAN))),
    };
    assert_eq!(validate_property_value(&bad).unwrap_err().message(), "invalid Motion property value");
    let sample = MotionValueSampleTable {
        subscription_id: [1; 16],
        value_id: [2; 16],
        value: MotionValueTable::Angle(Some(bits(90.0))),
        velocity: MotionValueTable::Unknown,
    };
    assert!(validate_sample_value(&sample, false).is_ok());
    assert_eq!(
        validate_sample_value(&sample, true).unwrap_err().message(),
        "invalid Motion sampled value"
    );
}

#[test]
fn written_sequences_run_consecutively() {
    assert!(validate_sequence(4, 6, &[4, 5, 6]).is_ok());
    assert!(validate_sequence(4, 9, &[]).is_ok());
    assert_eq!(validate_sequence(6, 4, &[]).unwrap_err().message(), "Motion sequence range is reversed");
    assert_eq!(
        validate_sequence(4, 6, &[4, 6]).unwrap_err().message(),
        "Motion lifecycle sequences must be contiguous"
    );
    assert_eq!(
        validate_sequence(4, 6, &[4, 5]).unwrap_err().message(),
        "Motion sequence bounds do not match events"
    );
    assert_eq!(
        validate_sequence(u64::MAX, u64::MAX, &[u64::MAX]).map_err(|e| e.message().to_string()),
        Ok(())
    );
}
