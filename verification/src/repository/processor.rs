//! The processor: the one owner of the connection. It executes one task at
//! a time, so every operation on the store is ordered with every other.

use crate::error::db::DatabaseError;
use crate::model::item::Item;
use crate::model::partition_key::PartitionKey;
use crate::model::set_value::holds_unmatchable;
use crate::model::set_value::SetValue;
use crate::model::sort_key::SortKey;
use crate::model::task::Reply;
use crate::model::task::Task;
use crate::model::write_condition::beyond_stored_versions;
use crate::repository::query_shim::is_stored_time;
use crate::repository::query_shim::listed;
use crate::repository::query_shim::SQLiteQueryShim;
use crate::repository::sqlite::begin;
use crate::repository::sqlite::commit;
use crate::repository::sqlite::now_utc;
use crate::repository::sqlite::rollback;
use rusqlite::Connection;
use rusqlite::Transaction;
use std::ops::Bound;
use time::OffsetDateTime;
use vstd::prelude::*;

verus! {

/// What a batch does after one of its writes.
#[derive(Debug)]
pub enum Next {
    /// The write took effect: the batch goes on with the next write.
    GoOn,
    /// The write did not take effect: the batch is undone.
    Undo,
    /// SQLite failed: the batch ends with the error.
    Fail(DatabaseError),
}

/// How a batch closes its transaction.
#[derive(Clone, Copy, Debug, PartialEq, Eq, Structural)]
pub enum Closing {
    Commit,
    Rollback,
}

/// Decides how a batch goes on after a write, from what the write returned.
pub fn after_write(written: Result<bool, rusqlite::Error>) -> (r: Next)
    ensures
        written matches Ok(true) ==> r is GoOn,
        written matches Ok(false) ==> r is Undo,
        written matches Err(e) ==> r == Next::Fail(DatabaseError::SqliteError(e)),
{
    match written {
        Ok(true) => Next::GoOn,
        Ok(false) => Next::Undo,
        Err(e) => Next::Fail(DatabaseError::from(e)),
    }
}

/// Decides how the transaction of a batch is closed: it is committed when
/// every write took effect, and rolled back when one did not.
pub fn closing(all_applied: bool) -> (r: Closing)
    ensures
        all_applied ==> r == Closing::Commit,
        !all_applied ==> r == Closing::Rollback,
{
    if all_applied {
        Closing::Commit
    } else {
        Closing::Rollback
    }
}

/// The answer of a batch, from whether every write took effect and from
/// what closing the transaction returned: the first as it is where the
/// transaction was closed, else the error of the closing.
pub fn batch_answer(all_applied: bool, closed: Result<(), rusqlite::Error>) -> (r: Result<
    bool,
    DatabaseError,
>)
    ensures
        closed is Ok ==> r == Ok::<bool, DatabaseError>(all_applied),
        closed matches Err(e) ==> r == Err::<bool, DatabaseError>(DatabaseError::SqliteError(e)),
{
    match closed {
        Ok(()) => Ok(all_applied),
        Err(e) => Err(DatabaseError::from(e)),
    }
}

/// Closes the transaction of a batch as `closing` decides and gives the
/// answer of the batch.
fn close(txn: Transaction<'_>, all_applied: bool) -> (r: Result<bool, DatabaseError>)
    ensures
        r matches Ok(answer) ==> answer == all_applied,
        r matches Err(e) ==> e is SqliteError,
{
    let closed = match closing(all_applied) {
        Closing::Commit => commit(txn),
        Closing::Rollback => rollback(txn),
    };
    batch_answer(all_applied, closed)
}

/// Owns the connection to the database for as long as it lives. Every
/// operation takes the processor by reference, a write by exclusive
/// reference, so no two operations on the store overlap.
pub struct Processor {
    conn: Connection,
}

impl Processor {
    /// The connection that the processor owns.
    pub closed spec fn connection(&self) -> Connection {
        self.conn
    }

    /// Takes over the connection.
    pub fn new(conn: Connection) -> (r: Self)
        ensures
            r.connection() == conn,
    {
        Self { conn }
    }

    /// Executes one task and pairs its result with the task's own conduit.
    /// A failure of the operation is part of the result: the processor
    /// itself goes on.
    pub fn process_task(&mut self, request: Task) -> (reply: Reply)
        ensures
            reply.answers(request),
    {
        match request {
            Task::Get { partition_key, sort_key, sender } => {
                let result = self.process_get(partition_key, sort_key);
                Reply::Get { sender, result }
            },
            Task::SetValues { partition_key, set_value, sender } => {
                let result = self.process_set(partition_key, set_value);
                Reply::SetValues { sender, result }
            },
            Task::List { partition_key, range, page_size, sender } => {
                let result = self.process_list(partition_key, range, page_size);
                Reply::List { sender, result }
            },
        }
    }

    /// A single read outside any transaction. An item that is found carries
    /// the keys that were asked for, and timestamps that were read out of
    /// stored texts.
    pub fn process_get(&self, partition_key: PartitionKey, sort_key: SortKey) -> (r: Result<
        Option<Item>,
        DatabaseError,
    >)
        ensures
            r matches Ok(Some(item)) ==> {
                &&& item.partition_key@ == partition_key@
                &&& item.sort_key@ == sort_key@
                &&& is_stored_time(item.created_at)
                &&& is_stored_time(item.updated_at)
            },
            r matches Err(e) ==> e is SqliteError,
    {
        let conn = &self.conn;
        let store = SQLiteQueryShim::new(&conn);
        match store.get(&partition_key, &sort_key) {
            Ok(item) => Ok(item),
            Err(e) => Err(DatabaseError::from(e)),
        }
    }

    /// Applies a batch at the present time. See `process_set_at`.
    pub fn process_set(&mut self, partition_key: PartitionKey, set_values: Vec<SetValue>) -> (r:
        Result<bool, DatabaseError>)
        ensures
            holds_unmatchable(set_values@) ==> !(r matches Ok(true)),
            set_values@.len() == 0 ==> !(r matches Ok(false)),
            r matches Err(e) ==> e is SqliteError,
    {
        let now = now_utc();
        self.process_set_at(partition_key, set_values, now)
    }

    /// Applies a batch in one transaction, with `now` as the time of every
    /// write. The writes run in order, and `after_write` decides after each
    /// of them. The first that does not take effect ends the batch: the
    /// transaction is rolled back and the answer is `false`. Only when every
    /// write took effect is the transaction committed and the answer `true`;
    /// `closing` and `batch_answer` decide both. A failure of SQLite leaves
    /// the transaction to roll back and is returned as the error.
    pub fn process_set_at(
        &mut self,
        partition_key: PartitionKey,
        set_values: Vec<SetValue>,
        now: OffsetDateTime,
    ) -> (r: Result<bool, DatabaseError>)
        ensures
            holds_unmatchable(set_values@) ==> !(r matches Ok(true)),
            set_values@.len() == 0 ==> !(r matches Ok(false)),
            r matches Err(e) ==> e is SqliteError,
    {
        let txn = match begin(&mut self.conn) {
            Ok(txn) => txn,
            Err(e) => {
                return Err(DatabaseError::from(e));
            },
        };
        let store = SQLiteQueryShim::new(&txn);
        for v in it: set_values.into_iter()
            invariant
                forall|j: int|
                    0 <= j < it.index() ==> !beyond_stored_versions(
                        (#[trigger] set_values@[j]).write_condition.version_equals,
                    ),
        {
            let written = store.set(
                partition_key.clone(),
                v.sort_key,
                now,
                now,
                v.write_condition.version_equals,
                v.value,
            );
            match after_write(written) {
                Next::GoOn => {},
                Next::Undo => {
                    return close(txn, false);
                },
                Next::Fail(e) => {
                    return Err(e);
                },
            }
        }
        close(txn, true)
    }

    /// A single range scan outside any transaction. At most `page_size`
    /// items are returned, each with the partition key that was asked for
    /// and timestamps that were read out of stored texts.
    pub fn process_list(
        &self,
        partition_key: PartitionKey,
        range: (Bound<SortKey>, Bound<SortKey>),
        page_size: usize,
    ) -> (r: Result<Vec<Item>, DatabaseError>)
        ensures
            r matches Ok(items) ==> {
                &&& items@.len() <= page_size
                &&& forall|i: int|
                    0 <= i < items@.len() ==> listed(#[trigger] items@[i], partition_key@)
            },
            r matches Err(e) ==> e is SqliteError,
    {
        let conn = &self.conn;
        let store = SQLiteQueryShim::new(&conn);
        match store.list(partition_key, range, page_size) {
            Ok(items) => Ok(items),
            Err(e) => Err(DatabaseError::from(e)),
        }
    }
}

} // verus!
