//! Sixteen-byte UUIDs as carried in FlatBuffers `Uuid` structs.
use vstd::prelude::*;

verus! {

/// Whether every byte of `id` is zero.
pub open spec fn is_nil(id: Seq<u8>) -> bool {
    forall|i: int| 0 <= i < id.len() ==> id[i] == 0
}

/// Whether `id` is the nil UUID (all sixteen bytes zero).
pub fn nil(id: &[u8; 16]) -> (r: bool)
    ensures
        r == is_nil(id@),
{
    let mut i: usize = 0;
    while i < 16
        invariant
            i <= 16,
            id@.len() == 16,
            forall|j: int| 0 <= j < i ==> id@[j] == 0,
        decreases 16 - i,
    {
        if id[i] != 0 {
            return false;
        }
        i += 1;
    }
    true
}

/// Whether the two identifiers carry the same sixteen bytes.
pub fn same_uuid(a: &[u8; 16], b: &[u8; 16]) -> (r: bool)
    ensures
        r == (a@ == b@),
{
    let mut i: usize = 0;
    while i < 16
        invariant
            i <= 16,
            a@.len() == 16,
            b@.len() == 16,
            forall|j: int| 0 <= j < i ==> a@[j] == b@[j],
        decreases 16 - i,
    {
        if a[i] != b[i] {
            return false;
        }
        i += 1;
    }
    assert(a@ =~= b@);
    true
}

/// The little-endian value of a byte string.
pub open spec fn le_value(s: Seq<u8>) -> nat
    decreases s.len(),
{
    if s.len() == 0 {
        0
    } else {
        s[0] as nat + 256 * le_value(s.drop_first())
    }
}

/// `256` to the power `n`.
pub open spec fn p256(n: nat) -> nat
    decreases n,
{
    if n == 0 {
        1
    } else {
        256 * p256((n - 1) as nat)
    }
}

proof fn lemma_le_value_bound(s: Seq<u8>)
    ensures
        le_value(s) < p256(s.len()),
    decreases s.len(),
{
    if s.len() > 0 {
        let rest = s.drop_first();
        lemma_le_value_bound(rest);
        let x = le_value(rest);
        let p = p256(rest.len());
        assert(s[0] as nat + 256 * x < 256 * p) by (nonlinear_arith)
            requires
                s[0] < 256,
                x < p,
        ;
    }
}

proof fn lemma_p256_monotone(a: nat, b: nat)
    requires
        a <= b,
    ensures
        p256(a) <= p256(b),
    decreases b,
{
    if a < b {
        lemma_p256_monotone(a, (b - 1) as nat);
    }
}

/// Distinct byte strings of one length have distinct little-endian values.
pub proof fn lemma_le_value_injective(a: Seq<u8>, b: Seq<u8>)
    requires
        a.len() == b.len(),
        le_value(a) == le_value(b),
    ensures
        a == b,
    decreases a.len(),
{
    if a.len() > 0 {
        let x = le_value(a.drop_first());
        let y = le_value(b.drop_first());
        let a0 = a[0] as int;
        let b0 = b[0] as int;
        assert(a0 == b0 && x == y) by (nonlinear_arith)
            requires
                a0 + 256 * x == b0 + 256 * y,
                0 <= a0 < 256,
                0 <= b0 < 256,
                x >= 0,
                y >= 0,
        ;
        lemma_le_value_injective(a.drop_first(), b.drop_first());
        assert forall|i: int| 0 <= i < a.len() implies a[i] == b[i] by {
            if i > 0 {
                assert(a[i] == a.drop_first()[i - 1]);
                assert(b[i] == b.drop_first()[i - 1]);
            }
        }
        assert(a =~= b);
    } else {
        assert(a =~= b);
    }
}

/// The identifier read as one little-endian 128-bit integer, a key that two
/// identifiers share exactly when they are equal.
pub fn uuid_key(id: &[u8; 16]) -> (r: u128)
    ensures
        r == le_value(id@),
{
    let mut acc: u128 = 0;
    let mut i: usize = 16;
    proof {
        reveal_with_fuel(p256, 17);
        assert(id@.subrange(16, 16) =~= Seq::<u8>::empty());
    }
    while i > 0
        invariant
            i <= 16,
            id@.len() == 16,
            acc == le_value(id@.subrange(i as int, 16)),
            acc < p256((16 - i) as nat),
        decreases i,
    {
        proof {
            lemma_p256_monotone((16 - i) as nat, 15);
            reveal_with_fuel(p256, 16);
            assert(p256(15) == 0x1_0000_0000_0000_0000_0000_0000_0000_00nat);
            let rest = id@.subrange(i as int, 16);
            let longer = id@.subrange(i - 1, 16);
            assert(longer.drop_first() =~= rest);
            assert(longer[0] == id@[i - 1]);
            lemma_le_value_bound(longer);
            assert(longer.len() == 16 - (i - 1));
        }
        acc = acc * 256 + id[i - 1] as u128;
        i -= 1;
    }
    assert(id@.subrange(0, 16) =~= id@);
    acc
}

} // verus!
