use vstd::prelude::*;

verus! {

/// The optional precondition of a write: the version that the item is
/// expected to have at the moment of the write.
#[derive(Clone, Copy, Debug)]
pub struct WriteCondition {
    pub version_equals: Option<u64>,
}

/// Whether a write that expects `expected` may go ahead when the stored
/// version is `existing` (`None`: no item is stored under the key).
///
/// Without an expectation every write is allowed. An expectation of zero
/// asks for the item to be absent; any other expectation asks for exactly
/// that stored version.
pub open spec fn write_allowed(existing: Option<nat>, expected: Option<u64>) -> bool {
    match expected {
        None => true,
        Some(v) => match existing {
            None => v == 0,
            Some(stored) => stored == v,
        },
    }
}

/// The version that an allowed write gives the item: one on creation, one
/// more than the stored version on overwrite.
pub open spec fn next_version(existing: Option<nat>) -> nat {
    match existing {
        None => 1,
        Some(stored) => stored + 1,
    }
}

impl WriteCondition {
    /// The condition that allows every write.
    pub fn none() -> (r: Self)
        ensures
            r.version_equals is None,
    {
        WriteCondition { version_equals: None }
    }

    /// Evaluates the condition against the stored version of the item, or
    /// against `None` where no item is stored.
    pub fn permits(&self, existing: Option<u64>) -> (r: bool)
        ensures
            r == write_allowed(stored_version(existing), self.version_equals),
    {
        match self.version_equals {
            None => true,
            Some(v) => match existing {
                None => v == 0,
                Some(stored) => stored == v,
            },
        }
    }
}

/// An expected version that no stored version can equal: the store holds
/// versions up to `i64::MAX`.
pub open spec fn beyond_stored_versions(expected: Option<u64>) -> bool {
    expected matches Some(v) && v > i64::MAX
}

/// An expectation beyond every stored version allows no write, whatever is
/// stored.
pub proof fn lemma_beyond_stored_versions_never_allowed(
    existing: Option<nat>,
    expected: Option<u64>,
)
    requires
        beyond_stored_versions(expected),
        existing matches Some(stored) ==> stored <= i64::MAX,
    ensures
        !write_allowed(existing, expected),
{
}

/// A stored version as the mathematical number it stands for.
pub open spec fn stored_version(existing: Option<u64>) -> Option<nat> {
    match existing {
        None => None,
        Some(v) => Some(v as nat),
    }
}

} // verus!
