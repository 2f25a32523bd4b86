//! One finished immutable FlatBuffer and its initialized range.
use vstd::prelude::*;

verus! {

/// One finished immutable FlatBuffer and its initialized range.
pub struct FinishedMessage {
    storage: Vec<u8>,
    start: usize,
}

impl FinishedMessage {
    /// The whole retained allocation, initialized range included.
    pub open spec fn storage(&self) -> Seq<u8> {
        self.allocation()@
    }

    /// The retained allocation itself.
    pub closed spec fn allocation(&self) -> Vec<u8> {
        self.storage
    }

    /// Where the finished bytes begin inside [`Self::storage`].
    pub closed spec fn start(&self) -> int {
        self.start as int
    }

    /// A finished range starts inside its storage.
    pub open spec fn wf(&self) -> bool {
        self.start() <= self.storage().len()
    }

    /// The finished bytes.
    pub open spec fn finished(&self) -> Seq<u8> {
        self.storage().subrange(self.start(), self.storage().len() as int)
    }

    /// Adopts a finished FlatBuffer suffix without copying its payload.
    ///
    /// Callers must finish, structurally verify, and semantically validate
    /// the message first.
    /// A start past the end is adopted too; such a message has no finished
    /// range, and [`Self::as_bytes`] is not defined on it.
    pub fn from_storage(storage: Vec<u8>, start: usize) -> (r: Self)
        ensures
            r.wf() == (start <= storage@.len()),
            r.allocation() == storage,
            r.storage() == storage@,
            r.start() == start,
    {
        FinishedMessage { storage, start }
    }

    /// Returns only the initialized finished bytes.
    pub fn as_bytes(&self) -> (r: &[u8])
        requires
            self.wf(),
        ensures
            r@ == self.finished(),
    {
        let (_, finished) = self.storage.as_slice().split_at(self.start);
        finished
    }

    /// Returns the retained allocation size charged to transport accounting.
    pub fn allocation_bytes(&self) -> (r: usize)
        ensures
            r >= self.storage().len(),
    {
        vec_capacity(&self.storage)
    }

    /// Returns the retained allocation and finished-range start without copying.
    pub fn into_storage(self) -> (r: (Vec<u8>, usize))
        ensures
            r.0 == self.allocation(),
            r.0@ == self.storage(),
            r.1 == self.start(),
    {
        (self.storage, self.start)
    }
}

/// Calls `Vec::capacity`. Its documentation promises only that the capacity is
/// at least the length; the exact amount is the allocator's choice and is not
/// stated.
#[verifier::external_body]
pub(crate) fn vec_capacity(v: &Vec<u8>) -> (r: usize)
    ensures
        r >= v@.len(),
{
    v.capacity()
}

} // verus!
