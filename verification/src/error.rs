//! The bounded protocol failure reported by every reader and validator.
use vstd::prelude::*;

verus! {

/// A bounded FlatBuffers protocol validation failure.
#[derive(Clone, Debug, Eq, PartialEq)]
pub struct ProtocolError {
    message: String,
}

impl View for ProtocolError {
    type V = Seq<char>;

    /// The human-readable failure text.
    closed spec fn view(&self) -> Seq<char> {
        self.message@
    }
}

/// A result with its failure replaced by the failure text; every validator
/// states its verdict in this form.
pub open spec fn outcome<T>(r: Result<T, ProtocolError>) -> Result<T, Seq<char>> {
    match r {
        Ok(v) => Ok(v),
        Err(e) => Err(e@),
    }
}

impl ProtocolError {
    /// Creates a failure carrying `message`.
    pub fn new(message: &str) -> (r: Self)
        ensures
            r@ == message@,
    {
        ProtocolError { message: message.to_owned() }
    }

    /// Creates a failure that takes ownership of an already built message.
    pub fn from_message(message: String) -> (r: Self)
        ensures
            r@ == message@,
    {
        ProtocolError { message }
    }

    /// Returns the failure text, as the error displays it.
    pub fn message(&self) -> (r: &str)
        ensures
            r@ == self@,
    {
        self.message.as_str()
    }
}

/// The first index in `0..n`, at or after `k`, where `f` reports a failure,
/// and that failure.
pub open spec fn first_failure(n: int, f: spec_fn(int) -> Option<Seq<char>>, k: int) -> Option<
    Seq<char>,
>
    decreases n - k,
{
    if k < 0 || k >= n {
        None
    } else {
        match f(k) {
            Some(m) => Some(m),
            None => first_failure(n, f, k + 1),
        }
    }
}

/// With no failure from `k` on, no index from `k` on fails.
pub proof fn lemma_first_failure_none(n: int, f: spec_fn(int) -> Option<Seq<char>>, k: int, i: int)
    requires
        0 <= k <= i < n,
        first_failure(n, f, k) is None,
    ensures
        f(i) is None,
    decreases i - k,
{
    if k < i {
        lemma_first_failure_none(n, f, k + 1, i);
    }
}

/// `a`, unless it is `None`, in which case `b`.
pub open spec fn or_else(a: Option<Seq<char>>, b: Option<Seq<char>>) -> Option<Seq<char>> {
    if a is Some {
        a
    } else {
        b
    }
}

} // verus!
