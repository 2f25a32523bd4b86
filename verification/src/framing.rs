//! Byte-level framing of size-prefixed FlatBuffers messages.
//!
//! A finished message starts with a little-endian `u32` holding the number of
//! bytes that follow it, then the root offset, then the four-byte file
//! identifier.
use crate::limits::MAXIMUM_MESSAGE_BYTES;
use vstd::prelude::*;
use vstd::string::StringSliceAdditionalSpecFns;

verus! {

/// The little-endian `u32` stored at `at` in `bytes`.
pub open spec fn le_u32(bytes: Seq<u8>, at: int) -> int {
    bytes[at] + bytes[at + 1] * 256 + bytes[at + 2] * 65536 + bytes[at + 3] * 16777216
}

/// The size prefix names exactly the bytes that follow it.
pub open spec fn spec_size_prefix_matches(bytes: Seq<u8>) -> bool {
    bytes.len() >= 4 && le_u32(bytes, 0) == bytes.len() - 4
}

/// Why a message was refused before its tables were looked at.
#[derive(Clone, Copy, Debug, Eq, PartialEq)]
pub enum FramingFailure {
    /// The finished range is larger than [`MAXIMUM_MESSAGE_BYTES`].
    TooLarge,
    /// The size prefix does not describe the finished range.
    SizePrefixMismatch,
    /// The buffer is too short for, or does not carry, the file identifier.
    WrongIdentifier,
}

/// The framing verdict on `bytes` for a message kind with identifier `ident`.
pub open spec fn spec_framing(bytes: Seq<u8>, ident: Seq<u8>) -> Result<(), FramingFailure> {
    if bytes.len() > MAXIMUM_MESSAGE_BYTES {
        Err(FramingFailure::TooLarge)
    } else if !spec_size_prefix_matches(bytes) {
        Err(FramingFailure::SizePrefixMismatch)
    } else if bytes.len() < 12 || bytes.subrange(8, 12) != ident {
        Err(FramingFailure::WrongIdentifier)
    } else {
        Ok(())
    }
}

/// Framing accepts exactly the messages of at most 16 MiB whose size prefix
/// counts the bytes after it and whose identifier bytes are `ident`.
pub proof fn lemma_framing_accepts(bytes: Seq<u8>, ident: Seq<u8>)
    ensures
        spec_framing(bytes, ident) is Ok <==> {
            &&& bytes.len() <= MAXIMUM_MESSAGE_BYTES
            &&& bytes.len() >= 12
            &&& le_u32(bytes, 0) == bytes.len() - 4
            &&& bytes.subrange(8, 12) == ident
        },
{
}

/// Reads the little-endian `u32` at `at`.
pub fn read_u32_le(bytes: &[u8], at: usize) -> (r: u32)
    requires
        at + 4 <= bytes@.len(),
    ensures
        r == le_u32(bytes@, at as int),
{
    let b0 = bytes[at] as u32;
    let b1 = bytes[at + 1] as u32;
    let b2 = bytes[at + 2] as u32;
    let b3 = bytes[at + 3] as u32;
    b0 + b1 * 256 + b2 * 65536 + b3 * 16777216
}

/// Whether the leading size prefix matches the finished range that follows it.
pub fn size_prefix_matches(bytes: &[u8]) -> (r: bool)
    ensures
        r == spec_size_prefix_matches(bytes@),
{
    if bytes.len() < 4 {
        return false;
    }
    let prefix = read_u32_le(bytes, 0);
    prefix as usize == bytes.len() - 4
}

/// Whether `data` carries `ident` as its size-prefixed file identifier.
///
/// Calls `flatbuffers::buffer_has_identifier` with `size_prefixed` set. Its
/// source compares the four bytes after the size prefix and the root offset,
/// `data[8..12]`, with the bytes of `ident`; it panics when `ident` is not four
/// bytes long or `data` is shorter than twelve bytes, which `requires` leaves out.
#[verifier::external_body]
pub fn has_file_identifier(data: &[u8], ident: &str) -> (r: bool)
    requires
        data@.len() >= 12,
        ident.spec_bytes().len() == 4,
    ensures
        r == (data@.subrange(8, 12) == ident.spec_bytes()),
{
    flatbuffers::buffer_has_identifier(data, ident, true)
}

/// Checks the framing of one complete size-prefixed message whose schema
/// identifier is `ident`, in the order the readers report failures.
pub fn check_framing(bytes: &[u8], ident: &str) -> (r: Result<(), FramingFailure>)
    requires
        ident.spec_bytes().len() == 4,
    ensures
        r == spec_framing(bytes@, ident.spec_bytes()),
{
    if bytes.len() > MAXIMUM_MESSAGE_BYTES {
        return Err(FramingFailure::TooLarge);
    }
    if !size_prefix_matches(bytes) {
        return Err(FramingFailure::SizePrefixMismatch);
    }
    if bytes.len() < 12 || !has_file_identifier(bytes, ident) {
        return Err(FramingFailure::WrongIdentifier);
    }
    Ok(())
}

} // verus!
