use crate::error::db::DatabaseError;
use crate::model::item::Item;
use crate::model::partition_key::PartitionKey;
use crate::model::set_value::holds_unmatchable;
use crate::model::set_value::SetValue;
use crate::model::sort_key::SortKey;
use std::ops::Bound;
use tokio::sync::mpsc::Sender;
use vstd::prelude::*;

verus! {

/// `tokio::sync::mpsc::Sender`, the sending half of a channel. A task
/// carries one as the conduit for its reply; the engine hands it back with
/// the result and never sends on it itself.
#[verifier::external_type_specification]
#[verifier::external_body]
#[verifier::reject_recursive_types(T)]
pub struct ExSender<T>(tokio::sync::mpsc::Sender<T>);

/// One operation on the store, with the conduit on which its single reply
/// is expected.
#[allow(inconsistent_fields)]
pub enum Task {
    Get {
        partition_key: PartitionKey,
        sort_key: SortKey,
        sender: Sender<Result<Option<Item>, DatabaseError>>,
    },
    SetValues {
        partition_key: PartitionKey,
        set_value: Vec<SetValue>,
        sender: Sender<Result<bool, DatabaseError>>,
    },
    List {
        partition_key: PartitionKey,
        range: (Bound<SortKey>, Bound<SortKey>),
        page_size: usize,
        sender: Sender<Result<Vec<Item>, DatabaseError>>,
    },
}

/// The result of a task, paired with the conduit that the task came with.
/// Delivering it is the last step of the task and is left to the owner of
/// the channels.
#[allow(inconsistent_fields)]
pub enum Reply {
    Get {
        sender: Sender<Result<Option<Item>, DatabaseError>>,
        result: Result<Option<Item>, DatabaseError>,
    },
    SetValues { sender: Sender<Result<bool, DatabaseError>>, result: Result<bool, DatabaseError> },
    List {
        sender: Sender<Result<Vec<Item>, DatabaseError>>,
        result: Result<Vec<Item>, DatabaseError>,
    },
}

impl Reply {
    /// The reply goes out on the conduit of `task`, is of the task's kind,
    /// and holds a result that fits what the task asked for: an item that
    /// was found carries the keys of the read; a batch with a write that
    /// can never be allowed was not applied, and an empty batch was not
    /// refused; a page is no longer than the page size, and each of its
    /// items carries the partition key of the scan; an error is an error of
    /// SQLite.
    pub open spec fn answers(&self, task: Task) -> bool {
        match task {
            Task::Get { partition_key, sort_key, sender } => {
                &&& *self matches Reply::Get { sender: s, result }
                &&& s == sender
                &&& result matches Ok(Some(item)) ==> item.partition_key@ == partition_key@
                    && item.sort_key@ == sort_key@
                &&& result matches Err(e) ==> e is SqliteError
            },
            Task::SetValues { partition_key, set_value, sender } => {
                &&& *self matches Reply::SetValues { sender: s, result }
                &&& s == sender
                &&& holds_unmatchable(set_value@) ==> !(result matches Ok(true))
                &&& set_value@.len() == 0 ==> !(result matches Ok(false))
                &&& result matches Err(e) ==> e is SqliteError
            },
            Task::List { partition_key, range, page_size, sender } => {
                &&& *self matches Reply::List { sender: s, result }
                &&& s == sender
                &&& result matches Ok(items) ==> {
                    &&& items@.len() <= page_size
                    &&& forall|i: int|
                        0 <= i < items@.len() ==> (#[trigger] items@[i]).partition_key@
                            == partition_key@
                }
                &&& result matches Err(e) ==> e is SqliteError
            },
        }
    }
}

} // verus!
