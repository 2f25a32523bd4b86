//! Ordering and uniqueness rules on lists of names, compared byte by byte as
//! Rust compares `str` values.
use crate::error::ProtocolError;
use vstd::prelude::*;
use vstd::string::{StringExecFns, StringSliceAdditionalSpecFns};

verus! {

/// Byte-lexicographic strict order, the order of Rust's `str` comparison.
pub open spec fn lex_lt(a: Seq<u8>, b: Seq<u8>) -> bool
    decreases a.len(),
{
    if a.len() == 0 {
        b.len() > 0
    } else if b.len() == 0 {
        false
    } else if a[0] < b[0] {
        true
    } else if a[0] > b[0] {
        false
    } else {
        lex_lt(a.drop_first(), b.drop_first())
    }
}

/// The UTF-8 bytes of each name.
pub open spec fn name_bytes(names: Seq<&str>) -> Seq<Seq<u8>> {
    names.map_values(|s: &str| s.spec_bytes())
}

/// Every name is nonempty and each is strictly greater than the one before.
pub open spec fn sorted_unique(names: Seq<Seq<u8>>) -> bool {
    &&& forall|i: int| 0 <= i < names.len() ==> (#[trigger] names[i]).len() > 0
    &&& forall|i: int| 0 < i < names.len() ==> lex_lt(names[i - 1], #[trigger] names[i])
}

/// Every name is nonempty and no two names are equal.
pub open spec fn nonempty_unique(names: Seq<Seq<u8>>) -> bool {
    &&& forall|i: int| 0 <= i < names.len() ==> (#[trigger] names[i]).len() > 0
    &&& forall|i: int, j: int| 0 <= j < i < names.len() ==> names[j] != names[i]
}

proof fn lemma_lex_lt_irreflexive(a: Seq<u8>)
    ensures
        !lex_lt(a, a),
    decreases a.len(),
{
    if a.len() > 0 {
        lemma_lex_lt_irreflexive(a.drop_first());
    }
}

proof fn lemma_lex_lt_transitive(a: Seq<u8>, b: Seq<u8>, c: Seq<u8>)
    requires
        lex_lt(a, b),
        lex_lt(b, c),
    ensures
        lex_lt(a, c),
    decreases a.len(),
{
    if a.len() > 0 && b.len() > 0 && c.len() > 0 && a[0] == b[0] && b[0] == c[0] {
        lemma_lex_lt_transitive(a.drop_first(), b.drop_first(), c.drop_first());
    }
}

proof fn lemma_sorted_chain(names: Seq<Seq<u8>>, j: int, i: int)
    requires
        sorted_unique(names),
        0 <= j < i < names.len(),
    ensures
        lex_lt(names[j], names[i]),
    decreases i - j,
{
    if j < i - 1 {
        lemma_sorted_chain(names, j, i - 1);
        assert(lex_lt(names[i - 1], names[i]));
        lemma_lex_lt_transitive(names[j], names[i - 1], names[i]);
    }
}

/// Names that are sorted and unique in the strict byte order are, in
/// particular, nonempty and pairwise distinct.
pub proof fn lemma_sorted_names_are_unique(names: Seq<Seq<u8>>)
    requires
        sorted_unique(names),
    ensures
        nonempty_unique(names),
{
    assert forall|i: int, j: int| 0 <= j < i < names.len() implies names[j] != names[i] by {
        lemma_sorted_chain(names, j, i);
        lemma_lex_lt_irreflexive(names[i]);
    }
}

/// Whether `a` sorts strictly before `b` byte by byte.
pub fn bytes_less(a: &[u8], b: &[u8]) -> (r: bool)
    ensures
        r == lex_lt(a@, b@),
{
    let mut i: usize = 0;
    assert(a@.subrange(0, a@.len() as int) =~= a@);
    assert(b@.subrange(0, b@.len() as int) =~= b@);
    while i < a.len() && i < b.len()
        invariant
            i <= a@.len(),
            i <= b@.len(),
            lex_lt(a@, b@) == lex_lt(
                a@.subrange(i as int, a@.len() as int),
                b@.subrange(i as int, b@.len() as int),
            ),
        decreases a@.len() - i,
    {
        if a[i] < b[i] {
            return true;
        }
        if a[i] > b[i] {
            return false;
        }
        let ghost sa = a@.subrange(i as int, a@.len() as int);
        let ghost sb = b@.subrange(i as int, b@.len() as int);
        assert(sa.drop_first() =~= a@.subrange(i + 1, a@.len() as int));
        assert(sb.drop_first() =~= b@.subrange(i + 1, b@.len() as int));
        i += 1;
    }
    i < b.len()
}

/// Whether the two byte strings are equal.
pub fn bytes_equal(a: &[u8], b: &[u8]) -> (r: bool)
    ensures
        r == (a@ == b@),
{
    if a.len() != b.len() {
        return false;
    }
    let mut i: usize = 0;
    while i < a.len()
        invariant
            i <= a@.len(),
            a@.len() == b@.len(),
            forall|k: int| 0 <= k < i ==> a@[k] == b@[k],
        decreases a@.len() - i,
    {
        if a[i] != b[i] {
            return false;
        }
        i += 1;
    }
    assert(a@ =~= b@);
    true
}

fn sorted_failure(name: &str) -> (r: ProtocolError)
    ensures
        r@ == name@ + "s must be nonempty, sorted, and unique"@,
{
    ProtocolError::from_message(name.to_owned().concat("s must be nonempty, sorted, and unique"))
}

fn unique_failure(name: &str) -> (r: ProtocolError)
    ensures
        r@ == name@ + "s must be nonempty and unique"@,
{
    ProtocolError::from_message(name.to_owned().concat("s must be nonempty and unique"))
}

/// Checks that names are nonempty, sorted, and unique; the failure names
/// the list by its item `name`.
pub fn validate_sorted_unique(values: &[&str], name: &str) -> (r: Result<(), ProtocolError>)
    ensures
        match r {
            Ok(()) => sorted_unique(name_bytes(values@)),
            Err(e) => !sorted_unique(name_bytes(values@)) && e@ == name@
                + "s must be nonempty, sorted, and unique"@,
        },
{
    let ghost names = name_bytes(values@);
    let mut i: usize = 0;
    while i < values.len()
        invariant
            i <= values@.len(),
            names == name_bytes(values@),
            names.len() == values@.len(),
            forall|k: int| 0 <= k < i ==> (#[trigger] names[k]).len() > 0,
            forall|k: int| 0 < k < i ==> lex_lt(names[k - 1], #[trigger] names[k]),
        decreases values@.len() - i,
    {
        let value = values[i].as_bytes();
        assert(value@ == names[i as int]);
        if value.len() == 0 {
            return Err(sorted_failure(name));
        }
        if i > 0 {
            let previous = values[i - 1].as_bytes();
            assert(previous@ == names[i - 1]);
            if !bytes_less(previous, value) {
                return Err(sorted_failure(name));
            }
        }
        i += 1;
    }
    Ok(())
}

/// Checks that names are nonempty and unique; the failure names the list by
/// its item `name`.
pub fn validate_unique(values: &[&str], name: &str) -> (r: Result<(), ProtocolError>)
    ensures
        match r {
            Ok(()) => nonempty_unique(name_bytes(values@)),
            Err(e) => !nonempty_unique(name_bytes(values@)) && e@ == name@
                + "s must be nonempty and unique"@,
        },
{
    let ghost names = name_bytes(values@);
    let mut i: usize = 0;
    while i < values.len()
        invariant
            i <= values@.len(),
            names == name_bytes(values@),
            names.len() == values@.len(),
            forall|k: int| 0 <= k < i ==> (#[trigger] names[k]).len() > 0,
            forall|k: int, j: int| 0 <= j < k < i ==> names[j] != names[k],
        decreases values@.len() - i,
    {
        let value = values[i].as_bytes();
        assert(value@ == names[i as int]);
        if value.len() == 0 {
            return Err(unique_failure(name));
        }
        let mut j: usize = 0;
        while j < i
            invariant
                j <= i < values@.len(),
                names == name_bytes(values@),
                names.len() == values@.len(),
                value@ == names[i as int],
                forall|k: int| 0 <= k < j ==> names[k] != names[i as int],
            decreases i - j,
        {
            let seen = values[j].as_bytes();
            assert(seen@ == names[j as int]);
            if bytes_equal(seen, value) {
                return Err(unique_failure(name));
            }
            j += 1;
        }
        i += 1;
    }
    Ok(())
}

} // verus!
