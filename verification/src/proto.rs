//! The messages of the wire protocol as plain data. A field that the
//! protocol allows to be left out is an `Option`.

pub mod bound;

use crate::proto::bound::Kind;
use time::OffsetDateTime;
use vstd::prelude::*;

verus! {

pub struct PartitionKey {
    pub value: String,
}

pub struct SortKey {
    pub value: String,
}

pub struct WriteCondition {
    pub version_equals: Option<u64>,
}

pub struct SetValue {
    pub sort_key: Option<SortKey>,
    pub write_condition: Option<WriteCondition>,
    pub value: Vec<u8>,
}

pub struct Item {
    pub partition_key: Option<PartitionKey>,
    pub sort_key: Option<SortKey>,
    pub value: Vec<u8>,
    pub created_at: Option<OffsetDateTime>,
    pub updated_at: Option<OffsetDateTime>,
    pub version: u64,
}

/// One end of a range. A bound without a kind is open.
pub struct RangeBound {
    pub bound: Option<Kind>,
}

/// A range of sort keys. An end that is left out is open.
pub struct Range {
    pub start: Option<RangeBound>,
    pub end: Option<RangeBound>,
}

pub struct SetRequest {
    pub partition_key: Option<PartitionKey>,
    pub set_values: Vec<SetValue>,
}

pub struct SetResponse {
    pub updated: bool,
}

pub struct GetRequest {
    pub partition_key: Option<PartitionKey>,
    pub sort_key: Option<SortKey>,
}

pub struct GetResponse {
    pub item: Option<Item>,
}

pub struct ListRequest {
    pub partition_key: Option<PartitionKey>,
    pub range: Option<Range>,
    pub page_size: u32,
}

pub struct ListResponse {
    pub items: Vec<Item>,
}

} // verus!
