//! The allocation side of direct message construction: a bounded pool of
//! released transport storage, builder accounting, and the argument checks
//! shared by the command writers.
use crate::error::ProtocolError;
use crate::finished::vec_capacity;
use crate::float_bits::{all_finite, f64_finite, finite_f64};
use crate::native::{NativeObjectPlacement, NativeParentScene};
use crate::uuid::{is_nil, nil};
use vstd::arithmetic::power2::{lemma2_to64, lemma2_to64_rest, lemma_pow2_unfold, pow2};
use vstd::prelude::*;
use vstd::string::StringExecFns;

verus! {

/// Largest builder allocation a writer may request.
pub const MAXIMUM_BUILDER_BYTES: usize = 33554432;

/// Largest released allocation the pool retains.
pub const MAXIMUM_POOLED_BUILDER_BYTES: usize = 1048576;

/// Largest total of idle allocation the pool retains.
pub const MAXIMUM_IDLE_BUILDER_BYTES: usize = 16777216;

/// Longest duration, in milliseconds, a command may carry (one day).
pub const MAXIMUM_DURATION_MS: u64 = 86400000;

/// Whether `n` is a power of two.
pub open spec fn is_pow2(n: nat) -> bool
    decreases n,
{
    if n == 0 {
        false
    } else if n == 1 {
        true
    } else {
        n % 2 == 0 && is_pow2(n / 2)
    }
}

/// The smallest power of two not below `n`, for `n >= 1`.
pub open spec fn next_pow2(n: nat, p: nat) -> nat
    decreases (if p >= n { 0 } else { n - p }),
{
    if p == 0 || p >= n {
        p
    } else {
        next_pow2(n, p * 2)
    }
}

/// Every byte of `bytes` is zero.
pub open spec fn all_zero(bytes: Seq<u8>) -> bool {
    forall|i: int| 0 <= i < bytes.len() ==> bytes[i] == 0
}

/// The total length of the stored allocations.
pub open spec fn total_len(s: Seq<Seq<u8>>) -> int
    decreases s.len(),
{
    if s.len() == 0 {
        0
    } else {
        total_len(s.drop_last()) + s.last().len()
    }
}

proof fn lemma_total_update(s: Seq<Seq<u8>>, i: int, v: Seq<u8>)
    requires
        0 <= i < s.len(),
    ensures
        total_len(s.update(i, v)) == total_len(s) - s[i].len() + v.len(),
    decreases s.len(),
{
    let t = s.update(i, v);
    if i == s.len() - 1 {
        assert(t.drop_last() =~= s.drop_last());
    } else {
        assert(t.drop_last() =~= s.drop_last().update(i, v));
        lemma_total_update(s.drop_last(), i, v);
    }
}

proof fn lemma_total_nonneg(s: Seq<Seq<u8>>)
    ensures
        total_len(s) >= 0,
    decreases s.len(),
{
    if s.len() > 0 {
        lemma_total_nonneg(s.drop_last());
    }
}

proof fn lemma_total_swap_remove(s: Seq<Seq<u8>>, i: int)
    requires
        0 <= i < s.len(),
    ensures
        total_len(s.update(i, s.last()).drop_last()) == total_len(s) - s[i].len(),
{
    lemma_total_update(s, i, s.last());
    let t = s.update(i, s.last());
    assert(t.last() == s.last());
}

proof fn lemma_total_member(s: Seq<Seq<u8>>, i: int)
    requires
        0 <= i < s.len(),
    ensures
        s[i].len() <= total_len(s),
{
    lemma_total_swap_remove(s, i);
    lemma_total_nonneg(s.update(i, s.last()).drop_last());
}

/// Cumulative direct-response builder allocation diagnostics.
#[derive(Clone, Copy, Debug, Default, Eq, PartialEq)]
pub struct MessageWriterDiagnostics {
    /// Builders backed by a fresh allocation.
    pub created: u64,
    /// Builders backed by released transport storage.
    pub reused: u64,
    /// Allocation growth operations observed on finished messages.
    pub growths: u64,
    /// Payload bytes copied by those growth operations.
    pub copied_bytes: u64,
    /// Reusable allocation bytes idle on the current owning thread.
    pub idle_bytes: usize,
}

/// Cumulative builder counters; each addition wraps as an atomic `fetch_add`
/// does.
#[derive(Clone, Copy, Debug, Default)]
pub struct MessageWriterCounters {
    /// Builders backed by a fresh allocation.
    pub created: u64,
    /// Builders backed by released transport storage.
    pub reused: u64,
    /// Allocation growth operations observed on finished messages.
    pub growths: u64,
    /// Payload bytes copied by those growth operations.
    pub copied_bytes: u64,
}

/// Released transport allocations kept for reuse on one thread.
pub struct MessageBuilderPool {
    storage: Vec<Vec<u8>>,
    idle_bytes: usize,
}

impl MessageBuilderPool {
    /// The retained allocations, in pool order.
    pub closed spec fn stored(&self) -> Seq<Seq<u8>> {
        self.storage@.map_values(|v: Vec<u8>| v@)
    }

    /// The idle byte count the pool reports.
    pub closed spec fn idle(&self) -> nat {
        self.idle_bytes as nat
    }

    /// Every retained allocation is a zero-filled power of two of at most
    /// 1 MiB, and the idle count is their total, at most 16 MiB.
    pub open spec fn wf(&self) -> bool {
        &&& self.idle() == total_len(self.stored())
        &&& self.idle() <= MAXIMUM_IDLE_BUILDER_BYTES
        &&& forall|i: int|
            0 <= i < self.stored().len() ==> {
                &&& is_pow2((#[trigger] self.stored()[i]).len())
                &&& self.stored()[i].len() <= MAXIMUM_POOLED_BUILDER_BYTES
                &&& all_zero(self.stored()[i])
            }
    }

    /// An empty pool.
    pub fn new() -> (r: Self)
        ensures
            r.wf(),
            r.stored() == Seq::<Seq<u8>>::empty(),
            r.idle() == 0,
    {
        let r = MessageBuilderPool { storage: Vec::new(), idle_bytes: 0 };
        assert(r.stored() =~= Seq::<Seq<u8>>::empty());
        r
    }
}

/// Whether `n` is a power of two.
pub fn is_power_of_two(n: usize) -> (r: bool)
    ensures
        r == is_pow2(n as nat),
{
    if n == 0 {
        return false;
    }
    let mut m = n;
    while m % 2 == 0
        invariant
            m >= 1,
            is_pow2(n as nat) == is_pow2(m as nat),
        decreases m,
    {
        m = m / 2;
    }
    m == 1
}

/// The smallest power of two not below `n` (at least one).
pub fn next_power_of_two(n: usize) -> (r: usize)
    requires
        n <= MAXIMUM_BUILDER_BYTES,
    ensures
        r == next_pow2(n as nat, 1),
        is_pow2(r as nat),
        r >= n,
        r >= 1,
        r <= 2 * MAXIMUM_BUILDER_BYTES,
{
    let mut p: usize = 1;
    while p < n
        invariant
            1 <= p <= 2 * MAXIMUM_BUILDER_BYTES,
            n <= MAXIMUM_BUILDER_BYTES,
            next_pow2(n as nat, 1) == next_pow2(n as nat, p as nat),
            is_pow2(p as nat),
        decreases 2 * MAXIMUM_BUILDER_BYTES - p,
    {
        assert(is_pow2((p * 2) as nat)) by {
            assert((p * 2) as nat / 2 == p as nat);
        }
        p = p * 2;
    }
    p
}

/// Zero-fills `storage` in place.
fn zero_fill(storage: &mut Vec<u8>)
    ensures
        final(storage)@.len() == old(storage)@.len(),
        all_zero(final(storage)@),
{
    let mut i: usize = 0;
    while i < storage.len()
        invariant
            i <= storage@.len(),
            storage@.len() == old(storage)@.len(),
            forall|k: int| 0 <= k < i ==> storage@[k] == 0,
        decreases storage@.len() - i,
    {
        storage[i] = 0;
        i += 1;
    }
}

/// The pool after offering it a released allocation of `allocation` bytes.
pub open spec fn spec_recycled(
    old_stored: Seq<Seq<u8>>,
    old_idle: nat,
    allocation: nat,
) -> (Seq<Seq<u8>>, nat) {
    if allocation == 0 || allocation > MAXIMUM_POOLED_BUILDER_BYTES || !is_pow2(allocation)
        || old_idle > MAXIMUM_IDLE_BUILDER_BYTES - allocation {
        (old_stored, old_idle)
    } else {
        (old_stored.push(Seq::new(allocation, |i: int| 0u8)), old_idle + allocation)
    }
}

/// Offers one released allocation whose capacity is `allocation` to the pool.
///
/// Only power-of-two allocations up to 1 MiB are retained, resized to their
/// full capacity and zero-filled, and only while the idle total stays within
/// 16 MiB; all other storage is dropped.
pub fn recycle_with_allocation(pool: &mut MessageBuilderPool, storage: Vec<u8>, allocation: usize)
    requires
        old(pool).wf(),
        allocation >= storage@.len(),
    ensures
        final(pool).wf(),
        (final(pool).stored(), final(pool).idle()) == spec_recycled(
            old(pool).stored(),
            old(pool).idle(),
            allocation as nat,
        ),
{
    let mut storage = storage;
    if allocation == 0 || allocation > MAXIMUM_POOLED_BUILDER_BYTES || !is_power_of_two(allocation) {
        return;
    }
    if storage.len() != allocation {
        storage.resize(allocation, 0);
    }
    zero_fill(&mut storage);
    if pool.idle_bytes > MAXIMUM_IDLE_BUILDER_BYTES - allocation {
        return;
    }
    let ghost old_stored = pool.stored();
    pool.idle_bytes = pool.idle_bytes + allocation;
    pool.storage.push(storage);
    proof {
        let zeros = Seq::new(allocation as nat, |i: int| 0u8);
        assert(storage@ =~= zeros);
        assert(pool.stored() =~= old_stored.push(zeros));
        assert(pool.stored().drop_last() =~= old_stored);
    }
}

/// Returns one released transport allocation to the pool.
///
/// The allocation size is the storage's capacity, which only the allocator
/// knows; whatever it is, the pool keeps its invariant and either stays as it
/// was or gains one zero-filled power-of-two allocation no shorter than the
/// released storage.
pub fn recycle_message_storage(pool: &mut MessageBuilderPool, storage: Vec<u8>)
    requires
        old(pool).wf(),
    ensures
        final(pool).wf(),
        exists|allocation: nat|
            allocation >= storage@.len() && (final(pool).stored(), final(pool).idle())
                == spec_recycled(old(pool).stored(), old(pool).idle(), allocation),
{
    let allocation = vec_capacity(&storage);
    recycle_with_allocation(pool, storage, allocation);
}

/// The index of the shortest retained allocation of at least `requested`
/// bytes, the first such one among equals.
pub open spec fn best_fit(stored: Seq<Seq<u8>>, requested: nat, index: int) -> bool {
    &&& 0 <= index < stored.len()
    &&& stored[index].len() >= requested
    &&& forall|j: int|
        0 <= j < stored.len() && (#[trigger] stored[j]).len() >= requested ==> stored[index].len()
            <= stored[j].len()
    &&& forall|j: int|
        0 <= j < index && (#[trigger] stored[j]).len() >= requested ==> stored[index].len()
            < stored[j].len()
}

/// No retained allocation holds `requested` bytes.
pub open spec fn none_fits(stored: Seq<Seq<u8>>, requested: nat) -> bool {
    forall|j: int| 0 <= j < stored.len() ==> (#[trigger] stored[j]).len() < requested
}

fn find_best_fit(pool: &MessageBuilderPool, requested: usize) -> (r: Option<usize>)
    ensures
        match r {
            Some(index) => best_fit(pool.stored(), requested as nat, index as int),
            None => none_fits(pool.stored(), requested as nat),
        },
{
    let mut best: Option<usize> = None;
    let mut i: usize = 0;
    while i < pool.storage.len()
        invariant
            i <= pool.storage@.len(),
            pool.stored().len() == pool.storage@.len(),
            forall|k: int| 0 <= k < pool.storage@.len() ==> #[trigger] pool.stored()[k] == pool.storage@[k]@,
            match best {
                Some(b) => {
                    &&& b < i
                    &&& best_fit(pool.stored().subrange(0, i as int), requested as nat, b as int)
                },
                None => none_fits(pool.stored().subrange(0, i as int), requested as nat),
            },
        decreases pool.storage@.len() - i,
    {
        let len = pool.storage[i].len();
        let ghost prefix = pool.stored().subrange(0, i as int);
        let ghost next = pool.stored().subrange(0, i + 1);
        assert(next =~= prefix.push(pool.stored()[i as int]));
        if len >= requested {
            match best {
                Some(b) => {
                    if len < pool.storage[b].len() {
                        best = Some(i);
                        proof {
                            assert(pool.stored()[b as int] == prefix[b as int]);
                            assert forall|j: int|
                                0 <= j < next.len() && (#[trigger] next[j]).len() >= requested implies next[i as int].len() <= next[j].len() by {
                                if j < i {
                                    assert(next[j] == prefix[j]);
                                }
                            }
                            assert forall|j: int|
                                0 <= j < i && (#[trigger] next[j]).len() >= requested implies next[i as int].len() < next[j].len() by {
                                assert(next[j] == prefix[j]);
                            }
                        }
                    } else {
                        proof {
                            assert(pool.stored()[b as int] == prefix[b as int]);
                            assert forall|j: int|
                                0 <= j < next.len() && (#[trigger] next[j]).len() >= requested implies next[b as int].len() <= next[j].len() by {
                                if j < i {
                                    assert(next[j] == prefix[j]);
                                }
                            }
                            assert forall|j: int|
                                0 <= j < b && (#[trigger] next[j]).len() >= requested implies next[b as int].len() < next[j].len() by {
                                assert(next[j] == prefix[j]);
                            }
                        }
                    }
                },
                None => {
                    best = Some(i);
                    proof {
                        assert forall|j: int|
                            0 <= j < next.len() && (#[trigger] next[j]).len() >= requested implies next[i as int].len() <= next[j].len() by {
                            if j < i {
                                assert(next[j] == prefix[j]);
                            }
                        }
                        assert forall|j: int|
                            0 <= j < i && (#[trigger] next[j]).len() >= requested implies next[i as int].len() < next[j].len() by {
                            assert(next[j] == prefix[j]);
                        }
                    }
                },
            }
        } else {
            proof {
                match best {
                    Some(b) => {
                        assert(next[b as int] == prefix[b as int]);
                        assert forall|j: int|
                            0 <= j < next.len() && (#[trigger] next[j]).len() >= requested implies next[b as int].len() <= next[j].len() by {
                            if j < i {
                                assert(next[j] == prefix[j]);
                            }
                        }
                        assert forall|j: int|
                            0 <= j < b && (#[trigger] next[j]).len() >= requested implies next[b as int].len() < next[j].len() by {
                            assert(next[j] == prefix[j]);
                        }
                    },
                    None => {
                        assert forall|j: int| 0 <= j < next.len() implies (#[trigger] next[j]).len() < requested by {
                            if j < i {
                                assert(next[j] == prefix[j]);
                            }
                        }
                    },
                }
            }
        }
        i += 1;
    }
    assert(pool.stored().subrange(0, i as int) =~= pool.stored());
    best
}

/// Takes storage of at least `minimum` bytes (rounded up to a power of two),
/// reusing the shortest fitting retained allocation when there is one and
/// otherwise allocating fresh zeroed storage; counts which happened.
pub fn take_message_storage(
    pool: &mut MessageBuilderPool,
    counters: &mut MessageWriterCounters,
    minimum: usize,
) -> (r: Vec<u8>)
    requires
        old(pool).wf(),
        minimum <= MAXIMUM_BUILDER_BYTES,
    ensures
        final(pool).wf(),
        all_zero(r@),
        r@.len() >= next_pow2(if minimum == 0 { 1nat } else { minimum as nat }, 1),
        ({
            let requested = next_pow2(if minimum == 0 { 1nat } else { minimum as nat }, 1);
            let s = old(pool).stored();
            if none_fits(s, requested) {
                &&& r@.len() == requested
                &&& final(pool).stored() == s
                &&& final(pool).idle() == old(pool).idle()
                &&& final(counters).created == (old(counters).created + 1) % 0x1_0000_0000_0000_0000
                &&& final(counters).reused == old(counters).reused
            } else {
                exists|index: int|
                    {
                        &&& best_fit(s, requested, index)
                        &&& r@ == s[index]
                        &&& final(pool).stored() == s.update(index, s.last()).drop_last()
                        &&& final(pool).idle() == old(pool).idle() - s[index].len()
                        &&& final(counters).reused == (old(counters).reused + 1)
                            % 0x1_0000_0000_0000_0000
                        &&& final(counters).created == old(counters).created
                    }
            }
        }),
        final(counters).growths == old(counters).growths,
        final(counters).copied_bytes == old(counters).copied_bytes,
{
    let at_least = if minimum == 0 { 1 } else { minimum };
    let requested = next_power_of_two(at_least);
    match find_best_fit(pool, requested) {
        Some(index) => {
            let ghost s = pool.stored();
            proof {
                lemma_total_swap_remove(s, index as int);
                lemma_total_member(s, index as int);
                assert(pool.storage@[index as int]@ == s[index as int]);
            }
            let storage = pool.storage.swap_remove(index);
            pool.idle_bytes = pool.idle_bytes - storage.len();
            proof {
                assert(pool.stored() =~= s.update(index as int, s.last()).drop_last());
                assert forall|i: int| 0 <= i < pool.stored().len() implies {
                    &&& is_pow2((#[trigger] pool.stored()[i]).len())
                    &&& pool.stored()[i].len() <= MAXIMUM_POOLED_BUILDER_BYTES
                    &&& all_zero(pool.stored()[i])
                } by {
                    if i == index as int {
                        assert(pool.stored()[i] == s[s.len() - 1]);
                    } else {
                        assert(pool.stored()[i] == s[i]);
                    }
                }
            }
            counters.reused = counters.reused.wrapping_add(1);
            storage
        },
        None => {
            counters.created = counters.created.wrapping_add(1);
            let storage = vec![0u8; requested];
            storage
        },
    }
}

/// Current diagnostics from the cumulative counters and the thread's pool.
pub fn message_writer_diagnostics(
    counters: &MessageWriterCounters,
    pool: &MessageBuilderPool,
) -> (r: MessageWriterDiagnostics)
    ensures
        r.created == counters.created,
        r.reused == counters.reused,
        r.growths == counters.growths,
        r.copied_bytes == counters.copied_bytes,
        r.idle_bytes == pool.idle(),
{
    MessageWriterDiagnostics {
        created: counters.created,
        reused: counters.reused,
        growths: counters.growths,
        copied_bytes: counters.copied_bytes,
        idle_bytes: pool.idle_bytes,
    }
}

/// Growth operations and copied bytes when an allocation of `allocation`
/// bytes doubles (saturating at `usize::MAX`) until it holds `target` bytes.
pub open spec fn spec_growth(allocation: nat, target: nat) -> (nat, nat)
    decreases (if allocation == 0 || allocation >= target || target > usize::MAX {
        0
    } else {
        target - allocation
    }),
{
    if allocation == 0 || allocation >= target || target > usize::MAX {
        (0, 0)
    } else {
        let next = if allocation * 2 > usize::MAX { usize::MAX as nat } else { allocation * 2 };
        let rest = spec_growth(next, target);
        (rest.0 + 1, rest.1 + allocation)
    }
}

/// Adds to `counters` the growth operations and copied bytes of a builder
/// that started with `initial` bytes and finished with `final_allocation`.
pub fn record_message_growth(
    counters: &mut MessageWriterCounters,
    initial: usize,
    final_allocation: usize,
)
    requires
        final_allocation <= initial || initial >= 1,
    ensures
        ({
            let (growths, copied) = spec_growth(initial as nat, final_allocation as nat);
            &&& final(counters).growths == (old(counters).growths + growths) % 0x1_0000_0000_0000_0000
            &&& final(counters).copied_bytes == (old(counters).copied_bytes + (if copied > u64::MAX {
                u64::MAX as nat
            } else {
                copied
            })) % 0x1_0000_0000_0000_0000
        }),
        final(counters).created == old(counters).created,
        final(counters).reused == old(counters).reused,
{
    if final_allocation <= initial {
        return;
    }
    let mut allocation = initial;
    let mut growths: u64 = 0;
    let mut copied_bytes: u64 = 0;
    proof {
        lemma2_to64();
    }
    while allocation < final_allocation
        invariant
            allocation >= 1,
            ({
                let (g, c) = spec_growth(initial as nat, final_allocation as nat);
                let (rg, rc) = spec_growth(allocation as nat, final_allocation as nat);
                &&& g == growths + rg
                &&& (if c > u64::MAX { u64::MAX as nat } else { c }) == (if copied_bytes + rc > u64::MAX {
                    u64::MAX as nat
                } else {
                    (copied_bytes + rc) as nat
                })
            }),
            allocation == usize::MAX || allocation >= pow2(growths as nat),
            growths <= 64,
        decreases usize::MAX - allocation,
    {
        proof {
            lemma2_to64();
            lemma2_to64_rest();
            if growths == 64 {
                assert(allocation >= pow2(64));
                assert(false);
            }
            lemma_pow2_unfold((growths + 1) as nat);
        }
        copied_bytes = copied_bytes.saturating_add(allocation as u64);
        allocation = if allocation > usize::MAX / 2 { usize::MAX } else { allocation * 2 };
        growths += 1;
    }
    counters.growths = counters.growths.wrapping_add(growths);
    counters.copied_bytes = counters.copied_bytes.wrapping_add(copied_bytes);
}

/// Refuses the nil UUID for the field called `field`.
pub fn require_uuid(value: &[u8; 16], field: &str) -> (r: Result<(), ProtocolError>)
    ensures
        match r {
            Ok(()) => !is_nil(value@),
            Err(e) => is_nil(value@) && e@ == field@ + " UUID is zero"@,
        },
{
    if nil(value) {
        return Err(ProtocolError::from_message(field.to_owned().concat(" UUID is zero")));
    }
    Ok(())
}

/// Refuses the values of the field called `field`, given as binary64 bit
/// patterns, unless every one is finite.
pub fn require_finite(values: &[u64], field: &str) -> (r: Result<(), ProtocolError>)
    ensures
        match r {
            Ok(()) => forall|i: int| 0 <= i < values@.len() ==> f64_finite(#[trigger] values@[i]),
            Err(e) => (exists|i: int| 0 <= i < values@.len() && !f64_finite(#[trigger] values@[i]))
                && e@ == field@ + " must be finite"@,
        },
{
    let mut i: usize = 0;
    while i < values.len()
        invariant
            i <= values@.len(),
            forall|k: int| 0 <= k < i ==> f64_finite(#[trigger] values@[k]),
        decreases values@.len() - i,
    {
        if !finite_f64(values[i]) {
            return Err(ProtocolError::from_message(field.to_owned().concat(" must be finite")));
        }
        i += 1;
    }
    Ok(())
}

/// Refuses a duration longer than one day for the field called `field`.
pub fn require_duration(value_ms: u64, field: &str) -> (r: Result<(), ProtocolError>)
    ensures
        match r {
            Ok(()) => value_ms <= MAXIMUM_DURATION_MS,
            Err(e) => value_ms > MAXIMUM_DURATION_MS && e@ == field@ + " cannot exceed one day"@,
        },
{
    if value_ms > MAXIMUM_DURATION_MS {
        return Err(ProtocolError::from_message(field.to_owned().concat(" cannot exceed one day")));
    }
    Ok(())
}

/// Refuses a zero duration, then one longer than one day.
pub fn require_positive_duration(value_ms: u64, field: &str) -> (r: Result<(), ProtocolError>)
    ensures
        match r {
            Ok(()) => 0 < value_ms <= MAXIMUM_DURATION_MS,
            Err(e) => if value_ms == 0 {
                e@ == field@ + " must be positive"@
            } else {
                value_ms > MAXIMUM_DURATION_MS && e@ == field@ + " cannot exceed one day"@
            },
        },
{
    if value_ms == 0 {
        return Err(ProtocolError::from_message(field.to_owned().concat(" must be positive")));
    }
    require_duration(value_ms, field)
}

/// Refuses offsets that another message writer produced.
///
/// Every offset a writer hands out is tagged with the writer's identity;
/// composing one that carries another identity is refused.
pub fn require_offsets(builder_id: u64, offset_builder_ids: &[u64]) -> (r: Result<(), ProtocolError>)
    ensures
        match r {
            Ok(()) => forall|i: int| 0 <= i < offset_builder_ids@.len() ==> offset_builder_ids@[i] == builder_id,
            Err(e) => (exists|i: int|
                0 <= i < offset_builder_ids@.len() && offset_builder_ids@[i] != builder_id)
                && e@ == "a FlatBuffer offset belongs to another message writer"@,
        },
{
    let mut i: usize = 0;
    while i < offset_builder_ids.len()
        invariant
            i <= offset_builder_ids@.len(),
            forall|k: int| 0 <= k < i ==> offset_builder_ids@[k] == builder_id,
        decreases offset_builder_ids@.len() - i,
    {
        if offset_builder_ids[i] != builder_id {
            return Err(ProtocolError::new("a FlatBuffer offset belongs to another message writer"));
        }
        i += 1;
    }
    Ok(())
}

/// Why the placement of game object `object_id` is refused, if it is: the
/// checks a writer makes, in order, before it builds the object.
pub open spec fn placement_failure(object_id: Seq<u8>, placement: NativeObjectPlacement) -> Option<
    Seq<char>,
> {
    if is_nil(object_id) {
        Some("game object UUID is zero"@)
    } else if placement.parent_id is Some && is_nil(placement.parent_id->Some_0@) {
        Some("parent object UUID is zero"@)
    } else if !all_finite(placement.transform.position@) {
        Some("object position must be finite"@)
    } else if !all_finite(placement.transform.rotation@) {
        Some("object rotation must be finite"@)
    } else if !all_finite(placement.transform.scale@) {
        Some("object scale must be finite"@)
    } else if placement.parent_scene is Scene && is_nil(placement.parent_scene->Scene_0@) {
        Some("parent scene UUID is zero"@)
    } else {
        None
    }
}

/// Checks the identity, parent, transform and scene of a game object about to
/// be written.
pub fn validate_placement(object_id: &[u8; 16], placement: &NativeObjectPlacement) -> (r: Result<
    (),
    ProtocolError,
>)
    ensures
        match r {
            Ok(()) => placement_failure(object_id@, *placement) is None,
            Err(e) => placement_failure(object_id@, *placement) == Some(e@),
        },
{
    proof {
        reveal_strlit("game object");
        reveal_strlit("parent object");
        reveal_strlit("object position");
        reveal_strlit("object rotation");
        reveal_strlit("object scale");
        reveal_strlit("parent scene");
        reveal_strlit(" UUID is zero");
        reveal_strlit(" must be finite");
        reveal_strlit("game object UUID is zero");
        reveal_strlit("parent object UUID is zero");
        reveal_strlit("object position must be finite");
        reveal_strlit("object rotation must be finite");
        reveal_strlit("object scale must be finite");
        reveal_strlit("parent scene UUID is zero");
    }
    require_uuid(object_id, "game object")?;
    match &placement.parent_id {
        Some(parent_id) => {
            require_uuid(parent_id, "parent object")?;
        },
        None => {},
    }
    require_finite(&placement.transform.position, "object position")?;
    require_finite(&placement.transform.rotation, "object rotation")?;
    require_finite(&placement.transform.scale, "object scale")?;
    match &placement.parent_scene {
        NativeParentScene::Scene(id) => {
            require_uuid(id, "parent scene")?;
        },
        _ => {},
    }
    Ok(())
}

/// Why the arguments of a snapshot written by writer `builder_id` are
/// refused, if they are.
pub open spec fn snapshot_arguments_failure(
    builder_id: u64,
    session_id: Seq<u8>,
    primary_scene_id: Option<[u8; 16]>,
    input_camera_id: Option<[u8; 16]>,
    offset_builder_ids: Seq<u64>,
) -> Option<Seq<char>> {
    if is_nil(session_id) {
        Some("snapshot session UUID is zero"@)
    } else if primary_scene_id is Some && is_nil(primary_scene_id->Some_0@) {
        Some("primary scene UUID is zero"@)
    } else if input_camera_id is Some && is_nil(input_camera_id->Some_0@) {
        Some("input camera UUID is zero"@)
    } else if exists|i: int| 0 <= i < offset_builder_ids.len() && offset_builder_ids[i] != builder_id {
        Some("a FlatBuffer offset belongs to another message writer"@)
    } else {
        None
    }
}

/// Checks the identities of a snapshot and that every offset composed into it
/// (its prepared assets, scenes, objects and UI documents, in that order)
/// comes from writer `builder_id`.
pub fn validate_snapshot_arguments(
    builder_id: u64,
    session_id: &[u8; 16],
    primary_scene_id: Option<[u8; 16]>,
    input_camera_id: Option<[u8; 16]>,
    offset_builder_ids: &[u64],
) -> (r: Result<(), ProtocolError>)
    ensures
        match r {
            Ok(()) => snapshot_arguments_failure(
                builder_id,
                session_id@,
                primary_scene_id,
                input_camera_id,
                offset_builder_ids@,
            ) is None,
            Err(e) => snapshot_arguments_failure(
                builder_id,
                session_id@,
                primary_scene_id,
                input_camera_id,
                offset_builder_ids@,
            ) == Some(e@),
        },
{
    proof {
        reveal_strlit("snapshot session");
        reveal_strlit("primary scene");
        reveal_strlit("input camera");
        reveal_strlit(" UUID is zero");
        reveal_strlit("snapshot session UUID is zero");
        reveal_strlit("primary scene UUID is zero");
        reveal_strlit("input camera UUID is zero");
    }
    require_uuid(session_id, "snapshot session")?;
    match &primary_scene_id {
        Some(id) => {
            require_uuid(id, "primary scene")?;
        },
        None => {},
    }
    match &input_camera_id {
        Some(id) => {
            require_uuid(id, "input camera")?;
        },
        None => {},
    }
    require_offsets(builder_id, offset_builder_ids)
}

} // verus!
