use battlement_flatbuffers::audio::{validate_bus, validate_mix, AudioBusCode, AudioMix};
use battlement_flatbuffers::float_bits::{
    finite_f32, finite_f64, ge_zero_f32, le_zero_f64, within_f32_f64, zero_f32, zero_f64,
};
use battlement_flatbuffers::material::{
    validate_asset, validate_instances, MaterialInstanceTable, MaterialParameterDeclarationTable,
    MaterialParameterTable, PreparedAssetTable,
};
use battlement_flatbuffers::names::{bytes_equal, bytes_less, validate_sorted_unique, validate_unique};
use battlement_flatbuffers::uuid::{nil, same_uuid, uuid_key};
use battlement_flatbuffers::{NativeDragMode, NativePhysicalKey, ProtocolError};

#[test]
fn audio_bus_must_be_named() {
    assert!(validate_bus(AudioBusCode::Music).is_ok());
    assert!(validate_bus(AudioBusCode::Effects).is_ok());
    assert_eq!(validate_bus(AudioBusCode::Unknown).unwrap_err().message(), "audio bus is unknown");
}

#[test]
fn float_bit_predicates() {
    assert!(finite_f64(1.5f64.to_bits()));
    assert!(!finite_f64(f64::NEG_INFINITY.to_bits()));
    assert!(le_zero_f64((-0.0f64).to_bits()));
    assert!(le_zero_f64((-3.0f64).to_bits()));
    assert!(!le_zero_f64(f64::NAN.to_bits()));
    assert!(zero_f64((-0.0f64).to_bits()));
    assert!(finite_f32(3.0f32.to_bits()));
    assert!(zero_f32(0.0f32.to_bits()));
    assert!(ge_zero_f32((-0.0f32).to_bits()));
    assert!(!ge_zero_f32((-1.0f32).to_bits()));
    assert!(within_f32_f64((f32::MAX as f64).to_bits()));
    assert!(within_f32_f64((-(f32::MAX as f64)).to_bits()));
    assert!(!within_f32_f64((f32::MAX as f64 * 2.0).to_bits()));
    assert!(!within_f32_f64(f64::NAN.to_bits()));
}

#[test]
fn names_order_as_str_does() {
    assert!(bytes_less(b"abc", b"abd"));
    assert!(bytes_less(b"ab", b"abc"));
    assert!(!bytes_less(b"abc", b"abc"));
    assert!(!bytes_less(b"b", b"abc"));
    assert!(bytes_equal(b"x", b"x"));
    assert!(!bytes_equal(b"x", b"xy"));
    assert!(validate_sorted_unique(&["a", "b", "c"], "tag").is_ok());
    assert_eq!(
        validate_sorted_unique(&["a", "a"], "tag").unwrap_err().message(),
        "tags must be nonempty, sorted, and unique"
    );
    assert!(validate_sorted_unique(&[""], "tag").is_err());
    assert!(validate_unique(&["b", "a"], "name").is_ok());
    assert_eq!(
        validate_unique(&["b", "a", "b"], "name").unwrap_err().message(),
        "names must be nonempty and unique"
    );
}

#[test]
fn uuids() {
    assert!(nil(&[0; 16]));
    let mut id = [0u8; 16];
    id[15] = 1;
    assert!(!nil(&id));
    assert!(same_uuid(&id, &id));
    assert!(!same_uuid(&id, &[0; 16]));
    assert_eq!(uuid_key(&id), 1u128 << 120);
    assert_ne!(uuid_key(&[1; 16]), uuid_key(&[2; 16]));
}

#[test]
fn material_declarations_are_distinct() {
    let decl = |name: &str, kind_named| MaterialParameterDeclarationTable { name: name.to_string(), kind_named };
    let asset = PreparedAssetTable {
        declares_material_parameters: true,
        parameters: vec![decl("_Color", true), decl("_Glossiness", true)],
    };
    assert!(validate_asset(&asset).is_ok());
    let asset = PreparedAssetTable {
        declares_material_parameters: true,
        parameters: vec![decl("_Color", true), decl("_Color", true)],
    };
    assert_eq!(validate_asset(&asset).unwrap_err().message(), "invalid material parameter declaration");
    let asset = PreparedAssetTable { declares_material_parameters: false, parameters: vec![decl("", false)] };
    assert!(validate_asset(&asset).is_ok());
}

#[test]
fn material_instances_are_checked_in_order() {
    let parameter = |name: &str, x: f64| MaterialParameterTable {
        name: name.to_string(),
        kind_named: true,
        components: [x.to_bits(), 0, 0, 0],
    };
    let instance = |slot, parameters| MaterialInstanceTable { slot, address: "mat".to_string(), parameters };
    assert!(validate_instances(&vec![instance(0, vec![parameter("a", 1.0)]), instance(1, vec![])]).is_ok());
    assert_eq!(
        validate_instances(&vec![instance(0, vec![]), instance(0, vec![])]).unwrap_err().message(),
        "invalid material instance slot or address"
    );
    assert_eq!(
        validate_instances(&vec![instance(0, vec![parameter("a", 1.0), parameter("a", 2.0)])]).unwrap_err().message(),
        "invalid material parameter name"
    );
    assert_eq!(
        validate_instances(&vec![instance(0, vec![parameter("a", 1e39)])]).unwrap_err().message(),
        "invalid material parameter type or value"
    );
}

#[test]
fn native_values() {
    assert_eq!(NativeDragMode::default(), NativeDragMode::Disabled);
    assert_eq!(NativePhysicalKey(NativePhysicalKey::SPACE), NativePhysicalKey(72));
}

#[test]
fn errors_carry_their_text() {
    let e = ProtocolError::new("bad");
    assert_eq!(e.message(), "bad");
    assert_eq!(ProtocolError::from_message("worse".to_string()).message(), "worse");
}

#[test]
fn mixer_gains_lie_between_zero_and_one() {
    let mix = |m: f32, u: f32, e: f32| AudioMix { master: m.to_bits(), music: u.to_bits(), effects: e.to_bits(), muted: false };
    assert!(validate_mix(mix(0.0, 1.0, 0.5)).is_ok());
    assert!(validate_mix(mix(-0.0, 1e-45, 0.999)).is_ok());
    assert_eq!(
        validate_mix(mix(1.0, 1.0000001, 0.0)).unwrap_err().message(),
        "audio mixer gains must be between zero and one"
    );
    assert!(validate_mix(mix(0.5, 0.5, -1e-45)).is_err());
    assert!(validate_mix(mix(f32::NAN, 0.5, 0.5)).is_err());
    assert!(validate_mix(mix(0.5, f32::INFINITY, 0.5)).is_err());
}

#[test]
fn finished_storage_round_trips_even_past_its_end() {
    let message = battlement_flatbuffers::FinishedMessage::from_storage(vec![1, 2, 3], 5);
    let (storage, start) = message.into_storage();
    assert_eq!(storage, vec![1, 2, 3]);
    assert_eq!(start, 5);
}
