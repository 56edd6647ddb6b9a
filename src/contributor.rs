use vstd::prelude::*;

verus! {

/// Identifier of a chain account, a 256-bit value held as two halves.
#[derive(Clone, Copy, Debug, PartialEq, Eq, Structural, Hash, Default)]
pub struct Id {
    pub high: u128,
    pub low: u128,
}

impl Id {
    /// The identifier whose value is `value` (its upper half is zero).
    pub fn from_u128(value: u128) -> (r: Id)
        ensures
            r.high == 0,
            r.low == value,
    {
        Id { high: 0, low: value }
    }
}

/// A contributor: a chain account and the GitHub identity linked to it.
#[derive(Clone, Debug, PartialEq, Eq, Default)]
pub struct Contributor {
    pub id: Id,
    pub github_username: Option<String>,
    pub github_handle: Option<String>,
}

} // verus!
