use battlement_flatbuffers::framing::{check_framing, read_u32_le, FramingFailure};
use battlement_flatbuffers::{has_file_identifier, size_prefix_matches, FinishedMessage};

fn framed(ident: &[u8; 4], payload_len: usize) -> Vec<u8> {
    let body_len = 8 + payload_len;
    let mut bytes = Vec::new();
    bytes.extend_from_slice(&(body_len as u32).to_le_bytes());
    bytes.extend_from_slice(&[8, 0, 0, 0]);
    bytes.extend_from_slice(ident);
    bytes.extend(std::iter::repeat(0u8).take(payload_len));
    bytes
}

#[test]
fn reads_little_endian_prefix() {
    assert_eq!(read_u32_le(&[0x78, 0x56, 0x34, 0x12], 0), 0x1234_5678);
    assert_eq!(read_u32_le(&[9, 1, 0, 0, 0], 1), 1);
}

#[test]
fn size_prefix_counts_following_bytes() {
    assert!(size_prefix_matches(&framed(b"ABCD", 4)));
    assert!(size_prefix_matches(&[0, 0, 0, 0]));
    assert!(!size_prefix_matches(&[1, 0, 0, 0]));
    assert!(!size_prefix_matches(&[0, 0, 0]));
    let mut bytes = framed(b"ABCD", 4);
    bytes.push(0);
    assert!(!size_prefix_matches(&bytes));
}

#[test]
fn file_identifier_follows_prefix_and_root_offset() {
    let bytes = framed(b"BRSP", 0);
    assert!(has_file_identifier(&bytes, "BRSP"));
    assert!(!has_file_identifier(&bytes, "BCON"));
}

#[test]
fn framing_reports_failures_in_order() {
    assert_eq!(check_framing(&framed(b"ABCD", 4), "ABCD"), Ok(()));
    assert_eq!(check_framing(&framed(b"ABCD", 4), "WXYZ"), Err(FramingFailure::WrongIdentifier));
    assert_eq!(check_framing(&[4, 0, 0, 0, 1, 2, 3, 4], "ABCD"), Err(FramingFailure::WrongIdentifier));
    assert_eq!(check_framing(&[9, 0, 0, 0], "ABCD"), Err(FramingFailure::SizePrefixMismatch));
    assert_eq!(check_framing(&[], "ABCD"), Err(FramingFailure::SizePrefixMismatch));
    let oversized = framed(b"ABCD", 16 * 1024 * 1024);
    assert_eq!(check_framing(&oversized, "ABCD"), Err(FramingFailure::TooLarge));
}

#[test]
fn finished_message_exposes_only_the_finished_suffix() {
    let storage = vec![0, 0, 0, 4, 0, 0, 0, 7];
    let message = FinishedMessage::from_storage(storage.clone(), 3);
    assert_eq!(message.as_bytes(), &[4, 0, 0, 0, 7]);
    assert!(message.allocation_bytes() >= 8);
    let (back, start) = message.into_storage();
    assert_eq!(back, storage);
    assert_eq!(start, 3);
}

#[test]
fn finished_message_may_be_empty() {
    let message = FinishedMessage::from_storage(vec![1, 2], 2);
    assert!(message.as_bytes().is_empty());
}
