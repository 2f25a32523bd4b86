use battlement_flatbuffers::native::{NativeObjectPlacement, NativeTransform};
use battlement_flatbuffers::NativeParentScene;
use battlement_flatbuffers::message_writer::{
    validate_placement, validate_snapshot_arguments, require_finite,
    is_power_of_two, next_power_of_two, record_message_growth, recycle_with_allocation,
    require_duration, require_offsets, require_positive_duration, require_uuid,
    take_message_storage, MessageBuilderPool, MessageWriterCounters,
};
use battlement_flatbuffers::{message_writer_diagnostics, recycle_message_storage, FinishedMessage};

#[test]
fn powers_of_two() {
    assert!(is_power_of_two(1));
    assert!(is_power_of_two(4096));
    assert!(!is_power_of_two(0));
    assert!(!is_power_of_two(12));
    assert_eq!(next_power_of_two(0), 1);
    assert_eq!(next_power_of_two(1), 1);
    assert_eq!(next_power_of_two(3), 4);
    assert_eq!(next_power_of_two(4096), 4096);
    assert_eq!(next_power_of_two(4097), 8192);
}

#[test]
fn fresh_storage_is_zeroed_and_counted() {
    let mut pool = MessageBuilderPool::new();
    let mut counters = MessageWriterCounters::default();
    let storage = take_message_storage(&mut pool, &mut counters, 100);
    assert_eq!(storage.len(), 128);
    assert!(storage.iter().all(|b| *b == 0));
    let d = message_writer_diagnostics(&counters, &pool);
    assert_eq!((d.created, d.reused, d.idle_bytes), (1, 0, 0));
}

#[test]
fn recycled_storage_is_reused_zeroed() {
    let mut pool = MessageBuilderPool::new();
    let mut counters = MessageWriterCounters::default();
    recycle_with_allocation(&mut pool, vec![7u8; 100], 256);
    assert_eq!(message_writer_diagnostics(&counters, &pool).idle_bytes, 256);
    let storage = take_message_storage(&mut pool, &mut counters, 200);
    assert_eq!(storage.len(), 256);
    assert!(storage.iter().all(|b| *b == 0));
    let d = message_writer_diagnostics(&counters, &pool);
    assert_eq!((d.created, d.reused, d.idle_bytes), (0, 1, 0));
}

#[test]
fn best_fit_prefers_the_smallest_sufficient_allocation() {
    let mut pool = MessageBuilderPool::new();
    let mut counters = MessageWriterCounters::default();
    recycle_with_allocation(&mut pool, vec![], 1024);
    recycle_with_allocation(&mut pool, vec![], 64);
    recycle_with_allocation(&mut pool, vec![], 256);
    assert_eq!(take_message_storage(&mut pool, &mut counters, 100).len(), 256);
    assert_eq!(message_writer_diagnostics(&counters, &pool).idle_bytes, 1024 + 64);
    assert_eq!(take_message_storage(&mut pool, &mut counters, 2048).len(), 2048);
    assert_eq!(counters.created, 1);
}

#[test]
fn pool_drops_unsuitable_or_excess_storage() {
    let mut pool = MessageBuilderPool::new();
    let counters = MessageWriterCounters::default();
    recycle_with_allocation(&mut pool, vec![], 100);
    recycle_with_allocation(&mut pool, vec![], 2 * 1024 * 1024);
    recycle_with_allocation(&mut pool, vec![], 0);
    assert_eq!(message_writer_diagnostics(&counters, &pool).idle_bytes, 0);
    for _ in 0..17 {
        recycle_with_allocation(&mut pool, vec![], 1024 * 1024);
    }
    assert_eq!(message_writer_diagnostics(&counters, &pool).idle_bytes, 16 * 1024 * 1024);
}

#[test]
fn recycling_real_storage_keeps_the_pool_bounded() {
    let mut pool = MessageBuilderPool::new();
    let counters = MessageWriterCounters::default();
    recycle_message_storage(&mut pool, Vec::with_capacity(512));
    let idle = message_writer_diagnostics(&counters, &pool).idle_bytes;
    assert!(idle == 0 || idle >= 512);
    assert!(idle <= 16 * 1024 * 1024);
}

#[test]
fn growth_is_counted_by_doubling() {
    let mut counters = MessageWriterCounters::default();
    record_message_growth(&mut counters, 1024, 1024);
    assert_eq!((counters.growths, counters.copied_bytes), (0, 0));
    record_message_growth(&mut counters, 1024, 5000);
    assert_eq!((counters.growths, counters.copied_bytes), (3, 1024 + 2048 + 4096));
}

#[test]
fn argument_checks_name_their_field() {
    assert!(require_uuid(&[1; 16], "object").is_ok());
    assert_eq!(require_uuid(&[0; 16], "object").unwrap_err().message(), "object UUID is zero");
    assert!(require_duration(86_400_000, "tween").is_ok());
    assert_eq!(require_duration(86_400_001, "tween").unwrap_err().message(), "tween cannot exceed one day");
    assert_eq!(require_positive_duration(0, "wait").unwrap_err().message(), "wait must be positive");
    assert!(require_positive_duration(1, "wait").is_ok());
    assert!(require_offsets(3, &[3, 3]).is_ok());
    assert_eq!(
        require_offsets(3, &[3, 4]).unwrap_err().message(),
        "a FlatBuffer offset belongs to another message writer"
    );
}

#[test]
fn placement_checks_run_in_order() {
    let placement = NativeObjectPlacement::default();
    assert!(validate_placement(&[1; 16], &placement).is_ok());
    assert_eq!(validate_placement(&[0; 16], &placement).unwrap_err().message(), "game object UUID is zero");
    let parented = NativeObjectPlacement { parent_id: Some([0; 16]), ..placement };
    assert_eq!(validate_placement(&[1; 16], &parented).unwrap_err().message(), "parent object UUID is zero");
    let mut transform = NativeTransform::default();
    transform.rotation[1] = f64::NAN.to_bits();
    let spun = NativeObjectPlacement { transform, ..placement };
    assert_eq!(validate_placement(&[1; 16], &spun).unwrap_err().message(), "object rotation must be finite");
    let scene = NativeObjectPlacement { parent_scene: NativeParentScene::Scene([0; 16]), ..placement };
    assert_eq!(validate_placement(&[1; 16], &scene).unwrap_err().message(), "parent scene UUID is zero");
}

#[test]
fn default_transform_is_identity() {
    let t = NativeTransform::default();
    assert_eq!(t.position.map(f64::from_bits), [0.0; 3]);
    assert_eq!(t.rotation.map(f64::from_bits), [0.0, 0.0, 0.0, 1.0]);
    assert_eq!(t.scale.map(f64::from_bits), [1.0; 3]);
}

#[test]
fn snapshot_arguments_are_checked() {
    assert!(validate_snapshot_arguments(9, &[1; 16], None, Some([2; 16]), &[9, 9]).is_ok());
    assert_eq!(
        validate_snapshot_arguments(9, &[0; 16], None, None, &[]).unwrap_err().message(),
        "snapshot session UUID is zero"
    );
    assert_eq!(
        validate_snapshot_arguments(9, &[1; 16], Some([0; 16]), None, &[]).unwrap_err().message(),
        "primary scene UUID is zero"
    );
    assert_eq!(
        validate_snapshot_arguments(9, &[1; 16], None, Some([0; 16]), &[]).unwrap_err().message(),
        "input camera UUID is zero"
    );
    assert_eq!(
        validate_snapshot_arguments(9, &[1; 16], None, None, &[9, 8]).unwrap_err().message(),
        "a FlatBuffer offset belongs to another message writer"
    );
    assert_eq!(
        require_finite(&[f64::INFINITY.to_bits()], "intensity").unwrap_err().message(),
        "intensity must be finite"
    );
}

/// Message writers build through the generated schema code outside this
/// library; this follows their storage: a finished message's allocation is
/// released, the next writer takes it back, and none of the old bytes show.
#[test]
fn released_message_storage_is_reused_zeroed() {
    let mut pool = MessageBuilderPool::new();
    let mut counters = MessageWriterCounters::default();
    let mut storage = take_message_storage(&mut pool, &mut counters, 1024);
    let len = storage.len();
    storage.iter_mut().for_each(|byte| *byte = 0x91);
    let first = FinishedMessage::from_storage(storage, len - 16);
    assert_eq!(first.as_bytes(), &[0x91; 16]);
    let allocation = first.allocation_bytes();
    let (storage, _) = first.into_storage();
    recycle_message_storage(&mut pool, storage);
    assert_eq!(message_writer_diagnostics(&counters, &pool).idle_bytes, allocation);

    let reused_before = message_writer_diagnostics(&counters, &pool).reused;
    let second = take_message_storage(&mut pool, &mut counters, 1024);
    assert!(message_writer_diagnostics(&counters, &pool).reused > reused_before);
    assert_eq!(message_writer_diagnostics(&counters, &pool).idle_bytes, 0);
    assert_eq!(second.len(), allocation);
    assert!(second.iter().all(|byte| *byte == 0));
}

/// Every offset a writer hands out carries the writer's identity; composing
/// one from another writer is refused.
#[test]
fn offsets_from_another_writer_are_refused() {
    let first_writer = 1;
    let second_writer = 2;
    assert!(require_offsets(second_writer, &[second_writer]).is_ok());
    assert!(require_offsets(second_writer, &[second_writer, first_writer]).is_err());
}
