//! Requests are decoded before the store is asked, and results are encoded
//! after it answered. A key that is missing or empty never reaches the
//! store.

use crate::error::endpoint::EndpointError;
use crate::model::item::Item;
use crate::model::partition_key::PartitionKey;
use crate::model::set_value::SetValue;
use crate::model::sort_key::SortKey;
use crate::model::write_condition::WriteCondition;
use crate::proto;
use std::ops::Bound;
use vstd::prelude::*;

verus! {

/// The partition key that a message field stands for, or the error that
/// rejects it.
pub open spec fn partition_key_of(key: Option<proto::PartitionKey>) -> Result<
    PartitionKey,
    EndpointError,
> {
    match key {
        None => Err(EndpointError::MissingPartitionKey),
        Some(k) => if k.value@.len() == 0 {
            Err(EndpointError::InvalidPartitionKey)
        } else {
            Ok(PartitionKey(k.value))
        },
    }
}

/// The sort key that a message field stands for, or the error that rejects
/// it.
pub open spec fn sort_key_of(key: Option<proto::SortKey>) -> Result<SortKey, EndpointError> {
    match key {
        None => Err(EndpointError::MissingSortKey),
        Some(k) => if k.value@.len() == 0 {
            Err(EndpointError::InvalidSortKey)
        } else {
            Ok(SortKey(k.value))
        },
    }
}

/// The bound that a message field stands for. A bound that is left out, or
/// that has no kind, is open.
pub open spec fn bound_of(b: Option<proto::RangeBound>) -> Result<Bound<SortKey>, EndpointError> {
    match b {
        Some(proto::RangeBound { bound: Some(proto::bound::Kind::Included(k)) }) => match sort_key_of(
            Some(k),
        ) {
            Ok(key) => Ok(Bound::Included(key)),
            Err(e) => Err(e),
        },
        Some(proto::RangeBound { bound: Some(proto::bound::Kind::Excluded(k)) }) => match sort_key_of(
            Some(k),
        ) {
            Ok(key) => Ok(Bound::Excluded(key)),
            Err(e) => Err(e),
        },
        _ => Ok(Bound::Unbounded),
    }
}

pub fn convert_partition_key(key: Option<proto::PartitionKey>) -> (r: Result<
    PartitionKey,
    EndpointError,
>)
    ensures
        r == partition_key_of(key),
        r matches Ok(k) ==> k.valid(),
{
    match key {
        None => Err(EndpointError::MissingPartitionKey),
        Some(k) => match PartitionKey::try_from(k.value) {
            Ok(key) => Ok(key),
            Err(_) => Err(EndpointError::InvalidPartitionKey),
        },
    }
}

pub fn convert_sort_key(key: Option<proto::SortKey>) -> (r: Result<SortKey, EndpointError>)
    ensures
        r == sort_key_of(key),
        r matches Ok(k) ==> k.valid(),
{
    match key {
        None => Err(EndpointError::MissingSortKey),
        Some(k) => match SortKey::try_from(k.value) {
            Ok(key) => Ok(key),
            Err(_) => Err(EndpointError::InvalidSortKey),
        },
    }
}

pub fn convert_bound(b: Option<proto::RangeBound>) -> (r: Result<Bound<SortKey>, EndpointError>)
    ensures
        r == bound_of(b),
{
    let kind = match b {
        Some(b) => b.bound,
        None => None,
    };
    match kind {
        Some(proto::bound::Kind::Included(sort_key)) => {
            let sort_key = convert_sort_key(Some(sort_key))?;
            Ok(Bound::Included(sort_key))
        },
        Some(proto::bound::Kind::Excluded(sort_key)) => {
            let sort_key = convert_sort_key(Some(sort_key))?;
            Ok(Bound::Excluded(sort_key))
        },
        Some(proto::bound::Kind::Unbounded) => Ok(Bound::Unbounded),
        None => Ok(Bound::Unbounded),
    }
}

/// The write that a message stands for, or the error that rejects its sort
/// key. A write condition that is left out allows every write.
pub open spec fn set_value_of(w: proto::SetValue) -> Result<SetValue, EndpointError> {
    match sort_key_of(w.sort_key) {
        Err(e) => Err(e),
        Ok(sort_key) => Ok(
            SetValue {
                sort_key,
                write_condition: WriteCondition {
                    version_equals: match w.write_condition {
                        Some(condition) => condition.version_equals,
                        None => None,
                    },
                },
                value: w.value,
            },
        ),
    }
}

/// The writes that the messages stand for, in their order, or the error of
/// the first message that is rejected.
pub open spec fn set_values_of(ws: Seq<proto::SetValue>) -> Result<Seq<SetValue>, EndpointError>
    decreases ws.len(),
{
    if ws.len() == 0 {
        Ok(Seq::empty())
    } else {
        match set_values_of(ws.drop_last()) {
            Err(e) => Err(e),
            Ok(init) => match set_value_of(ws.last()) {
                Err(e) => Err(e),
                Ok(v) => Ok(init.push(v)),
            },
        }
    }
}

/// An error among the first `k` messages is the error of the whole list.
pub proof fn lemma_first_rejection_decides(ws: Seq<proto::SetValue>, k: int)
    requires
        0 <= k <= ws.len(),
        set_values_of(ws.take(k)) is Err,
    ensures
        set_values_of(ws) == set_values_of(ws.take(k)),
    decreases ws.len() - k,
{
    if k < ws.len() {
        assert(ws.take(k + 1).drop_last() =~= ws.take(k));
        lemma_first_rejection_decides(ws, k + 1);
    } else {
        assert(ws.take(k) =~= ws);
    }
}

pub fn convert_set_value(w: proto::SetValue) -> (r: Result<SetValue, EndpointError>)
    ensures
        r == set_value_of(w),
{
    let sort_key = convert_sort_key(w.sort_key)?;
    let version_equals = match w.write_condition {
        Some(condition) => condition.version_equals,
        None => None,
    };
    Ok(SetValue { sort_key, write_condition: WriteCondition { version_equals }, value: w.value })
}

/// Decodes a set request: the partition key first, then the writes in
/// order. The first field that is rejected gives the error.
pub fn set_request(request: proto::SetRequest) -> (r: Result<
    (PartitionKey, Vec<SetValue>),
    EndpointError,
>)
    ensures
        match partition_key_of(request.partition_key) {
            Err(e) => r == Err::<(PartitionKey, Vec<SetValue>), EndpointError>(e),
            Ok(partition_key) => match set_values_of(request.set_values@) {
                Err(e) => r == Err::<(PartitionKey, Vec<SetValue>), EndpointError>(e),
                Ok(values) => r matches Ok((p, v)) && p == partition_key && v@ == values,
            },
        },
{
    let partition_key = convert_partition_key(request.partition_key)?;
    let ghost ws = request.set_values@;
    let mut set_values: Vec<SetValue> = Vec::new();
    for w in it: request.set_values.into_iter()
        invariant
            ws == request.set_values@,
            partition_key_of(request.partition_key) == Ok::<PartitionKey, EndpointError>(
                partition_key,
            ),
            set_values_of(ws.take(it.index() as int)) == Ok::<Seq<SetValue>, EndpointError>(
                set_values@,
            ),
    {
        proof {
            let i = it.index() as int;
            assert(w == ws[i]);
            assert(ws.take(i + 1).drop_last() =~= ws.take(i));
            assert(ws.take(i + 1).last() == ws[i]);
        }
        match convert_set_value(w) {
            Ok(v) => {
                set_values.push(v);
            },
            Err(e) => {
                proof {
                    lemma_first_rejection_decides(ws, it.index() + 1);
                }
                return Err(e);
            },
        }
    }
    proof {
        assert(ws.take(ws.len() as int) =~= ws);
    }
    Ok((partition_key, set_values))
}

/// Encodes the answer to a set request. A batch that was not applied is a
/// conflict, never a success.
pub fn set_response(updated: bool) -> (r: Result<proto::SetResponse, EndpointError>)
    ensures
        updated ==> r == Ok::<proto::SetResponse, EndpointError>(
            proto::SetResponse { updated: true },
        ),
        !updated ==> r == Err::<proto::SetResponse, EndpointError>(EndpointError::Conflict),
{
    if updated {
        Ok(proto::SetResponse { updated })
    } else {
        Err(EndpointError::Conflict)
    }
}

/// Decodes a get request: the partition key first, then the sort key.
pub fn get_request(request: proto::GetRequest) -> (r: Result<(PartitionKey, SortKey), EndpointError>)
    ensures
        match partition_key_of(request.partition_key) {
            Err(e) => r == Err::<(PartitionKey, SortKey), EndpointError>(e),
            Ok(partition_key) => match sort_key_of(request.sort_key) {
                Err(e) => r == Err::<(PartitionKey, SortKey), EndpointError>(e),
                Ok(sort_key) => r == Ok::<(PartitionKey, SortKey), EndpointError>(
                    (partition_key, sort_key),
                ),
            },
        },
{
    let partition_key = convert_partition_key(request.partition_key)?;
    let sort_key = convert_sort_key(request.sort_key)?;
    Ok((partition_key, sort_key))
}

/// The message that stands for an item: every field of the item, each in
/// its place.
pub open spec fn item_message(item: Item) -> proto::Item {
    proto::Item {
        partition_key: Some(proto::PartitionKey { value: item.partition_key.0 }),
        sort_key: Some(proto::SortKey { value: item.sort_key.0 }),
        value: item.value,
        created_at: Some(item.created_at),
        updated_at: Some(item.updated_at),
        version: item.version,
    }
}

pub fn encode_item(item: Item) -> (r: proto::Item)
    ensures
        r == item_message(item),
{
    proto::Item {
        partition_key: Some(proto::PartitionKey { value: item.partition_key.0 }),
        sort_key: Some(proto::SortKey { value: item.sort_key.0 }),
        value: item.value,
        created_at: Some(item.created_at),
        updated_at: Some(item.updated_at),
        version: item.version,
    }
}

/// Encodes the answer to a get request. An absent item is not found.
pub fn get_response(result: Option<Item>) -> (r: Result<proto::GetResponse, EndpointError>)
    ensures
        result is None ==> r == Err::<proto::GetResponse, EndpointError>(EndpointError::NotFound),
        result matches Some(item) ==> r == Ok::<proto::GetResponse, EndpointError>(
            proto::GetResponse { item: Some(item_message(item)) },
        ),
{
    match result {
        Some(item) => Ok(proto::GetResponse { item: Some(encode_item(item)) }),
        None => Err(EndpointError::NotFound),
    }
}

/// What a list request asks for.
pub struct ListQuery {
    pub partition_key: PartitionKey,
    pub range: (Bound<SortKey>, Bound<SortKey>),
    pub page_size: usize,
}

/// Decodes a list request: the partition key, then the start of the range,
/// then its end. A range that is left out is open at both ends.
pub fn list_request(request: proto::ListRequest) -> (r: Result<ListQuery, EndpointError>)
    ensures
        match partition_key_of(request.partition_key) {
            Err(e) => r == Err::<ListQuery, EndpointError>(e),
            Ok(partition_key) => match bound_of(start_of(request.range)) {
                Err(e) => r == Err::<ListQuery, EndpointError>(e),
                Ok(start) => match bound_of(end_of(request.range)) {
                    Err(e) => r == Err::<ListQuery, EndpointError>(e),
                    Ok(end) => r == Ok::<ListQuery, EndpointError>(
                        ListQuery {
                            partition_key,
                            range: (start, end),
                            page_size: request.page_size as usize,
                        },
                    ),
                },
            },
        },
{
    let partition_key = convert_partition_key(request.partition_key)?;
    let (start, end) = match request.range {
        Some(range) => (range.start, range.end),
        None => (None, None),
    };
    let start = convert_bound(start)?;
    let end = convert_bound(end)?;
    Ok(ListQuery { partition_key, range: (start, end), page_size: request.page_size as usize })
}

/// The start of a range on the wire; none where the range is left out.
pub open spec fn start_of(range: Option<proto::Range>) -> Option<proto::RangeBound> {
    match range {
        Some(range) => range.start,
        None => None,
    }
}

/// The end of a range on the wire; none where the range is left out.
pub open spec fn end_of(range: Option<proto::Range>) -> Option<proto::RangeBound> {
    match range {
        Some(range) => range.end,
        None => None,
    }
}

/// Encodes the answer to a list request: one message per item, in the order
/// of the items.
pub fn list_response(items: Vec<Item>) -> (r: proto::ListResponse)
    ensures
        r.items@ == items@.map_values(|item: Item| item_message(item)),
{
    let ghost all = items@;
    let mut messages: Vec<proto::Item> = Vec::new();
    for item in it: items.into_iter()
        invariant
            all == items@,
            messages@ == all.take(it.index() as int).map_values(|item: Item| item_message(item)),
    {
        proof {
            let i = it.index() as int;
            assert(all.take(i + 1) =~= all.take(i).push(all[i]));
        }
        messages.push(encode_item(item));
    }
    proof {
        assert(all.take(all.len() as int) =~= all);
    }
    proto::ListResponse { items: messages }
}

} // verus!
