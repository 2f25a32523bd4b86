//! Transport limits shared by every reader and writer.
use vstd::prelude::*;

verus! {

/// Largest accepted finished request or response.
pub const MAXIMUM_MESSAGE_BYTES: usize = 16777216;

/// Maximum expanded traversal size accepted during verification.
pub const MAXIMUM_APPARENT_BYTES: usize = 67108864;

/// Maximum table nesting accepted during verification.
pub const MAXIMUM_TABLE_DEPTH: usize = 64;

/// Maximum number of table visits accepted during verification.
pub const MAXIMUM_TABLE_VISITS: usize = 1000000;

} // verus!
