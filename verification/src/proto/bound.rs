use crate::proto::SortKey;
use vstd::prelude::*;

verus! {

/// The kind of a range bound on the wire.
pub enum Kind {
    Included(SortKey),
    Excluded(SortKey),
    Unbounded,
}

} // verus!
