//! The translation of get, set and list into statements.

use crate::model::item::Item;
use crate::model::item::ItemView;
use crate::model::partition_key::PartitionKey;
use crate::model::sort_key::text_le;
use crate::model::sort_key::text_lt;
use crate::model::sort_key::SortKey;
use crate::model::write_condition::beyond_stored_versions;
use crate::repository::sqlite::column_blob;
use crate::repository::sqlite::column_text;
use crate::repository::sqlite::column_u64;
use crate::repository::sqlite::execute_plain;
use crate::repository::sqlite::execute_write;
use crate::repository::sqlite::next_row;
use crate::repository::sqlite::not_a_timestamp;
use crate::repository::sqlite::prepare;
use crate::repository::sqlite::query_key;
use crate::repository::sqlite::query_range;
use crate::repository::sqlite::stored_time;
use crate::repository::sqlite::time_from_text;
use rusqlite::Connection;
use rusqlite::Row;
use std::ops::Bound;
use std::ops::Deref;
use time::OffsetDateTime;
use vstd::prelude::*;

verus! {

/// `std::ops::Bound`, one end of a range: inclusive, exclusive or open.
#[verifier::external_type_specification]
#[verifier::reject_recursive_types(T)]
pub struct ExBound<T>(std::ops::Bound<T>);

/// The table of the store: one row under each pair of partition key and
/// sort key.
pub const CREATE_TABLE_STATEMENT: &'static str = "CREATE TABLE IF NOT EXISTS item (
                partition_key TEXT NOT NULL,
                sort_key TEXT NOT NULL,
                created_at TEXT NOT NULL,
                updated_at TEXT NOT NULL,
                version INTEGER NOT NULL,
                value BLOB NOT NULL,
                PRIMARY KEY (partition_key, sort_key)
            )";

/// The point read: the columns of the one row under a key pair.
pub const GET_ITEM_STATEMENT: &'static str = "
    SELECT created_at, updated_at, version, value
    FROM item
    WHERE partition_key = ?1 AND sort_key = ?2";

/// The conditional write, as one statement: it looks up the stored version,
/// decides whether the write is allowed, and inserts or overwrites the row
/// only if it is. `created_at` is set on insertion and kept on overwrite.
pub const SET_ITEM_STATEMENT: &'static str = "
    WITH previous_row AS (
        SELECT version
        FROM item
        WHERE partition_key = :partition_key AND sort_key = :sort_key
    ),
    can_insert AS (
        SELECT
            CASE
                WHEN NOT EXISTS (SELECT 1 FROM previous_row) AND (
                    :previous_version IS NULL
                    OR :previous_version = 0
                ) THEN 1
                WHEN EXISTS (SELECT 1 FROM previous_row) AND (
                    :previous_version IS NULL
                    OR (SELECT version FROM previous_row) = :previous_version
                ) THEN 1
                ELSE 0
            END AS allowed
    )
    INSERT INTO item (partition_key, sort_key, created_at, updated_at, version, value)
    SELECT
        :partition_key,
        :sort_key,
        :created_at,
        :updated_at,
        COALESCE((SELECT version FROM previous_row), 0) + 1,
        :value
    FROM can_insert
    WHERE allowed = 1
    ON CONFLICT(partition_key, sort_key)
    DO UPDATE SET
        updated_at = excluded.updated_at,
        version = excluded.version,
        value = excluded.value;";

/// The range scan: the rows of one partition that pass every predicate that
/// is not NULL, in ascending order of sort key, at most `:page_size` of them.
pub const LIST_QUERY: &'static str = "
    SELECT sort_key, created_at, updated_at, version, value
    FROM item
    WHERE partition_key = :partition_key
    AND (:gt_sort_key IS NULL OR sort_key > :gt_sort_key)
    AND (:ge_sort_key IS NULL OR sort_key >= :ge_sort_key)
    AND (:lt_sort_key IS NULL OR sort_key < :lt_sort_key)
    AND (:le_sort_key IS NULL OR sort_key <= :le_sort_key)
    ORDER BY partition_key, sort_key ASC
    LIMIT :page_size";

/// The four predicates that a range scan binds. `None` is bound as NULL and
/// switches the predicate off.
pub struct RangePredicates {
    /// The sort key must come after this text.
    pub gt_sort_key: Option<String>,
    /// The sort key must be this text or come after it.
    pub ge_sort_key: Option<String>,
    /// The sort key must come before this text.
    pub lt_sort_key: Option<String>,
    /// The sort key must be this text or come before it.
    pub le_sort_key: Option<String>,
}

/// The predicates that stand for a range: the start bound sets one of the
/// first two, the end bound one of the last two, an open bound none.
pub open spec fn predicates_of(range: (Bound<SortKey>, Bound<SortKey>)) -> RangePredicates {
    RangePredicates {
        gt_sort_key: match range.0 {
            Bound::Excluded(k) => Some(k.0),
            _ => None,
        },
        ge_sort_key: match range.0 {
            Bound::Included(k) => Some(k.0),
            _ => None,
        },
        lt_sort_key: match range.1 {
            Bound::Excluded(k) => Some(k.0),
            _ => None,
        },
        le_sort_key: match range.1 {
            Bound::Included(k) => Some(k.0),
            _ => None,
        },
    }
}

/// Whether a sort key lies inside a range.
pub open spec fn within(range: (Bound<SortKey>, Bound<SortKey>), key: Seq<char>) -> bool {
    &&& match range.0 {
        Bound::Included(k) => text_le(k@, key),
        Bound::Excluded(k) => text_lt(k@, key),
        Bound::Unbounded => true,
    }
    &&& match range.1 {
        Bound::Included(k) => text_le(key, k@),
        Bound::Excluded(k) => text_lt(key, k@),
        Bound::Unbounded => true,
    }
}

/// Whether a sort key passes the predicates, as the range scan's `WHERE`
/// clause reads them.
pub open spec fn selects(predicates: RangePredicates, key: Seq<char>) -> bool {
    &&& predicates.gt_sort_key matches Some(k) ==> text_lt(k@, key)
    &&& predicates.ge_sort_key matches Some(k) ==> text_le(k@, key)
    &&& predicates.lt_sort_key matches Some(k) ==> text_lt(key, k@)
    &&& predicates.le_sort_key matches Some(k) ==> text_le(key, k@)
}

/// Translates a range into the predicates of the range scan.
pub fn range_predicates(range: (Bound<SortKey>, Bound<SortKey>)) -> (r: RangePredicates)
    ensures
        r == predicates_of(range),
{
    let (gt_sort_key, ge_sort_key) = match range.0 {
        Bound::Included(sort_key) => (None, Some(sort_key.0)),
        Bound::Excluded(sort_key) => (Some(sort_key.0), None),
        Bound::Unbounded => (None, None),
    };
    let (lt_sort_key, le_sort_key) = match range.1 {
        Bound::Included(sort_key) => (None, Some(sort_key.0)),
        Bound::Excluded(sort_key) => (Some(sort_key.0), None),
        Bound::Unbounded => (None, None),
    };
    RangePredicates { gt_sort_key, ge_sort_key, lt_sort_key, le_sort_key }
}

/// The predicates of a range let through exactly the sort keys inside it.
pub proof fn lemma_predicates_select_the_range(
    range: (Bound<SortKey>, Bound<SortKey>),
    key: Seq<char>,
)
    ensures
        selects(predicates_of(range), key) <==> within(range, key),
{
}

/// Each bound sets at most one predicate, and exactly one unless it is open;
/// a range open at both ends sets none.
pub proof fn lemma_one_predicate_per_bound(range: (Bound<SortKey>, Bound<SortKey>))
    ensures
        !(predicates_of(range).gt_sort_key is Some && predicates_of(range).ge_sort_key is Some),
        !(predicates_of(range).lt_sort_key is Some && predicates_of(range).le_sort_key is Some),
        range.0 is Unbounded <==> predicates_of(range).gt_sort_key is None && predicates_of(
            range,
        ).ge_sort_key is None,
        range.1 is Unbounded <==> predicates_of(range).lt_sort_key is None && predicates_of(
            range,
        ).le_sort_key is None,
{
}

/// The row limit that stands for a page size: the page size itself, or the
/// largest limit that SQLite can take where the page size is beyond it.
pub open spec fn limit_of(page_size: usize) -> i64 {
    if page_size <= i64::MAX {
        page_size as i64
    } else {
        i64::MAX
    }
}

/// Computes the row limit of a range scan.
pub fn row_limit(page_size: usize) -> (r: i64)
    ensures
        r == limit_of(page_size),
        0 <= r,
{
    let wide: u64 = page_size as u64;
    if wide <= 0x7fff_ffff_ffff_ffff {
        wide as i64
    } else {
        i64::MAX
    }
}

/// Whether the conditional write took effect, from the number of rows that
/// SQLite reports as changed: it writes one row or none.
pub fn applied(changed: usize) -> (r: bool)
    ensures
        r == (changed == 1),
{
    changed == 1
}

/// Runs the store's statements on a connection, or on a transaction of one.
pub struct SQLiteQueryShim<'a, T> {
    conn: &'a T,
}

impl<'a, T> SQLiteQueryShim<'a, T> where T: Deref<Target = Connection> {
    /// The connection that the statements run on.
    pub closed spec fn connection(&self) -> &'a T {
        self.conn
    }

    /// A shim on `conn`, which is borrowed for as long as the shim lives.
    pub fn new(conn: &'a T) -> (r: SQLiteQueryShim<'a, T>)
        ensures
            r.connection() == conn,
    {
        SQLiteQueryShim { conn }
    }

    /// Creates the table of the store unless it is there already.
    pub fn create_table(&self) -> (r: Result<(), rusqlite::Error>) {
        let mut stmt = prepare(self.conn, CREATE_TABLE_STATEMENT)?;
        let _ = execute_plain(&mut stmt)?;
        Ok(())
    }

    /// Reads the item under a key pair. `Ok(None)` where the statement finds
    /// no row; an item that is found carries the keys that were asked for,
    /// and timestamps that were read out of stored texts.
    pub fn get(&self, partition_key: &PartitionKey, sort_key: &SortKey) -> (r: Result<
        Option<Item>,
        rusqlite::Error,
    >)
        ensures
            r matches Ok(Some(item)) ==> {
                &&& item.partition_key@ == partition_key@
                &&& item.sort_key@ == sort_key@
                &&& is_stored_time(item.created_at)
                &&& is_stored_time(item.updated_at)
            },
    {
        let mut stmt = prepare(self.conn, GET_ITEM_STATEMENT)?;
        let mut rows = query_key(&mut stmt, &partition_key.0, &sort_key.0)?;
        let row = next_row(&mut rows)?;
        match row {
            Some(row) => {
                let stored = read_stored_row(row, 0)?;
                Ok(found(partition_key, sort_key, Some(stored)))
            },
            None => Ok(found(partition_key, sort_key, None)),
        }
    }

    /// Runs the conditional write for one item and says whether it took
    /// effect. An expected version that no stored version can equal is
    /// answered with `false` before SQLite is asked.
    pub fn set(
        &self,
        partition_key: PartitionKey,
        sort_key: SortKey,
        created_at: OffsetDateTime,
        updated_at: OffsetDateTime,
        previous_version: Option<u64>,
        value: Vec<u8>,
    ) -> (r: Result<bool, rusqlite::Error>)
        ensures
            beyond_stored_versions(previous_version) ==> r == Ok::<bool, rusqlite::Error>(false),
    {
        if let Some(v) = previous_version {
            if v > 0x7fff_ffff_ffff_ffff {
                return Ok(false);
            }
        }
        let mut stmt = prepare(self.conn, SET_ITEM_STATEMENT)?;
        let changed = execute_write(
            &mut stmt,
            &partition_key.0,
            &sort_key.0,
            &created_at,
            &updated_at,
            &previous_version,
            &value,
        )?;
        Ok(applied(changed))
    }

    /// Reads the items of a partition whose sort key lies in `range`, in the
    /// order in which the range scan yields them. At most `page_size` items
    /// are taken, and each carries the partition key that was asked for and
    /// timestamps that were read out of stored texts.
    pub fn list(
        &self,
        partition_key: PartitionKey,
        range: (Bound<SortKey>, Bound<SortKey>),
        page_size: usize,
    ) -> (r: Result<Vec<Item>, rusqlite::Error>)
        ensures
            r matches Ok(items) ==> {
                &&& items@.len() <= page_size
                &&& forall|i: int|
                    0 <= i < items@.len() ==> listed(#[trigger] items@[i], partition_key@)
            },
    {
        let mut stmt = prepare(self.conn, LIST_QUERY)?;
        let predicates = range_predicates(range);
        let mut rows = query_range(
            &mut stmt,
            &partition_key.0,
            &predicates.gt_sort_key,
            &predicates.ge_sort_key,
            &predicates.lt_sort_key,
            &predicates.le_sort_key,
            row_limit(page_size),
        )?;
        let mut items: Vec<Item> = Vec::new();
        while items.len() < page_size
            invariant
                items@.len() <= page_size,
                forall|i: int|
                    0 <= i < items@.len() ==> listed(#[trigger] items@[i], partition_key@),
            decreases page_size - items@.len(),
        {
            let row = next_row(&mut rows)?;
            match row {
                Some(row) => {
                    let sort_key = SortKey(column_text(row, 0)?);
                    let stored = read_stored_row(row, 1)?;
                    items.push(assemble(&partition_key, sort_key, stored));
                },
                None => {
                    return Ok(items);
                },
            }
        }
        Ok(items)
    }
}

/// The text can be cut after its first eight bytes, where a date ends. The
/// conversion of a stored timestamp cuts there.
pub open spec fn can_be_cut(text: Seq<char>) -> bool {
    vstd::utf8::is_char_boundary(vstd::utf8::encode_utf8(text), 8)
}

/// The timestamp that a stored text stands for: none where the text cannot
/// be cut, else what the conversion reads out of it.
pub open spec fn time_of(text: Seq<char>) -> Option<OffsetDateTime> {
    if can_be_cut(text) {
        stored_time(text)
    } else {
        None
    }
}

/// `t` is what some stored text stands for.
pub open spec fn is_stored_time(t: OffsetDateTime) -> bool {
    exists|text: Seq<char>| #[trigger] time_of(text) == Some(t)
}

/// Converts the text of a timestamp column. The text that cannot be cut is
/// rejected here; every other text is handed to the conversion, which
/// accepts or rejects it. `idx` is only reported in the error.
pub fn timestamp_of(text: &String, idx: usize) -> (r: Result<OffsetDateTime, rusqlite::Error>)
    ensures
        r is Ok <==> time_of(text@) is Some,
        r matches Ok(t) ==> time_of(text@) == Some(t),
{
    if text.as_str().is_char_boundary(8) {
        time_from_text(text, idx)
    } else {
        Err(not_a_timestamp(idx))
    }
}

/// What holds of every item of a range scan over `partition_key`: it
/// carries that partition key, and its timestamps were read out of stored
/// texts.
pub open spec fn listed(item: Item, partition_key: Seq<char>) -> bool {
    &&& item.partition_key@ == partition_key
    &&& is_stored_time(item.created_at)
    &&& is_stored_time(item.updated_at)
}

/// What a statement read of one item, besides its keys.
pub struct StoredRow {
    pub created_at: OffsetDateTime,
    pub updated_at: OffsetDateTime,
    pub version: u64,
    pub value: Vec<u8>,
}

/// The item that a row stands for under a key pair.
pub open spec fn item_of(partition_key: Seq<char>, sort_key: Seq<char>, row: StoredRow) -> ItemView {
    ItemView {
        partition_key,
        sort_key,
        created_at: row.created_at,
        updated_at: row.updated_at,
        version: row.version as nat,
        value: row.value@,
    }
}

/// Puts a row and its keys together.
pub fn assemble(partition_key: &PartitionKey, sort_key: SortKey, row: StoredRow) -> (item: Item)
    ensures
        item@ == item_of(partition_key@, sort_key@, row),
{
    Item {
        partition_key: partition_key.clone(),
        sort_key,
        created_at: row.created_at,
        updated_at: row.updated_at,
        version: row.version,
        value: row.value,
    }
}

/// The result of a point read, from what the statement found: nothing where
/// it found no row, else the row under the keys that were asked for.
pub fn found(partition_key: &PartitionKey, sort_key: &SortKey, row: Option<StoredRow>) -> (r:
    Option<Item>)
    ensures
        row is None <==> r is None,
        row matches Some(stored) ==> r->Some_0@ == item_of(partition_key@, sort_key@, stored),
{
    match row {
        Some(stored) => Some(assemble(partition_key, sort_key.clone(), stored)),
        None => None,
    }
}

/// Makes a row of what was read from its four columns: the text of
/// `created_at`, the text of `updated_at`, the version and the value, each
/// into the field of its name. The row comes about exactly when both texts
/// stand for a timestamp. `columns` holds the numbers of the two timestamp
/// columns, which are only reported in the error.
pub fn stored_row_of(
    created_at: &String,
    updated_at: &String,
    version: u64,
    value: Vec<u8>,
    columns: (usize, usize),
) -> (r: Result<StoredRow, rusqlite::Error>)
    ensures
        r is Ok <==> time_of(created_at@) is Some && time_of(updated_at@) is Some,
        r matches Ok(stored) ==> {
            &&& time_of(created_at@) == Some(stored.created_at)
            &&& time_of(updated_at@) == Some(stored.updated_at)
            &&& stored.version == version
            &&& stored.value == value
        },
{
    let created_at = timestamp_of(created_at, columns.0)?;
    let updated_at = timestamp_of(updated_at, columns.1)?;
    Ok(StoredRow { created_at, updated_at, version, value })
}

/// Reads the four columns `created_at`, `updated_at`, `version`, `value`,
/// which start at column `first`, and makes a row of them. Both timestamps
/// of a row that is returned were read out of stored texts.
fn read_stored_row(row: &Row<'_>, first: usize) -> (r: Result<StoredRow, rusqlite::Error>)
    requires
        first <= 1,
    ensures
        r matches Ok(stored) ==> is_stored_time(stored.created_at) && is_stored_time(
            stored.updated_at,
        ),
{
    let created_at = column_text(row, first)?;
    let updated_at = column_text(row, first + 1)?;
    let version = column_u64(row, first + 2)?;
    let value = column_blob(row, first + 3)?;
    stored_row_of(&created_at, &updated_at, version, value, (first, first + 1))
}

} // verus!
