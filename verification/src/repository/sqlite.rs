//! The calls into `rusqlite` and `time` that the engine makes. Everything in
//! this file is believed, not proved: each function hands its arguments to
//! one outside function and hands back what that function returned. What a
//! statement finds or changes depends on the database file, so none of these
//! functions promises anything about its result. The one exception is the
//! conversion of a timestamp text, which depends on the text alone.

use rusqlite::types::FromSql;
use rusqlite::types::Type;
use rusqlite::types::ValueRef;
use rusqlite::Connection;
use rusqlite::Row;
use rusqlite::Rows;
use rusqlite::Statement;
use rusqlite::ToSql;
use rusqlite::Transaction;
use std::ops::Deref;
use time::OffsetDateTime;
use vstd::prelude::*;

verus! {

/// `rusqlite::Connection`, an open SQLite database.
#[verifier::external_type_specification]
#[verifier::external_body]
pub struct ExConnection(rusqlite::Connection);

/// `rusqlite::Transaction`, an open transaction on a connection. Dropping it
/// without a commit rolls it back.
#[verifier::external_type_specification]
#[verifier::external_body]
pub struct ExTransaction<'conn>(rusqlite::Transaction<'conn>);

/// `rusqlite::Statement`, a prepared statement.
#[verifier::external_type_specification]
#[verifier::external_body]
pub struct ExStatement<'conn>(rusqlite::Statement<'conn>);

/// `rusqlite::Rows`, the rows that a running query still has to yield.
#[verifier::external_type_specification]
#[verifier::external_body]
pub struct ExRows<'stmt>(rusqlite::Rows<'stmt>);

/// `rusqlite::Row`, the current row of a running query.
#[verifier::external_type_specification]
#[verifier::external_body]
pub struct ExRow<'stmt>(rusqlite::Row<'stmt>);

/// `rusqlite::Error`, whatever went wrong in SQLite or on the way to it.
#[verifier::external_type_specification]
#[verifier::external_body]
pub struct ExSqliteError(rusqlite::Error);

/// `Connection::prepare`: compiles `sql` on the connection that `conn`
/// dereferences to. Fails where SQLite rejects the text.
#[verifier::external_body]
pub(crate) fn prepare<'c, T: Deref<Target = Connection>>(conn: &'c T, sql: &str) -> (r: Result<
    Statement<'c>,
    rusqlite::Error,
>) {
    conn.prepare(sql)
}

/// `Statement::execute` without parameters, for a statement that takes none.
/// Returns the number of rows that SQLite reports as changed.
#[verifier::external_body]
pub(crate) fn execute_plain(stmt: &mut Statement<'_>) -> (r: Result<usize, rusqlite::Error>) {
    stmt.execute([])
}

/// `Statement::query` with the two positional parameters of the point
/// read, in the order partition key, sort key. No row is fetched yet.
#[verifier::external_body]
pub(crate) fn query_key<'s>(
    stmt: &'s mut Statement<'_>,
    partition_key: &String,
    sort_key: &String,
) -> (r: Result<Rows<'s>, rusqlite::Error>) {
    stmt.query([partition_key, sort_key])
}

/// `Statement::query` with the named parameters of the range scan. An absent
/// predicate is bound as NULL. No row is fetched yet.
#[verifier::external_body]
pub(crate) fn query_range<'s>(
    stmt: &'s mut Statement<'_>,
    partition_key: &String,
    gt: &Option<String>,
    ge: &Option<String>,
    lt: &Option<String>,
    le: &Option<String>,
    limit: i64,
) -> (r: Result<Rows<'s>, rusqlite::Error>) {
    stmt.query(
        &[
            (":partition_key", partition_key as &dyn ToSql),
            (":gt_sort_key", gt as &dyn ToSql),
            (":ge_sort_key", ge as &dyn ToSql),
            (":lt_sort_key", lt as &dyn ToSql),
            (":le_sort_key", le as &dyn ToSql),
            (":page_size", &limit as &dyn ToSql),
        ][..],
    )
}

/// `Statement::execute` with the named parameters of the conditional write.
/// Returns the number of rows that SQLite reports as changed.
#[verifier::external_body]
pub(crate) fn execute_write(
    stmt: &mut Statement<'_>,
    partition_key: &String,
    sort_key: &String,
    created_at: &OffsetDateTime,
    updated_at: &OffsetDateTime,
    previous_version: &Option<u64>,
    value: &Vec<u8>,
) -> (r: Result<usize, rusqlite::Error>) {
    stmt.execute(
        &[
            (":partition_key", partition_key as &dyn ToSql),
            (":sort_key", sort_key as &dyn ToSql),
            (":created_at", created_at as &dyn ToSql),
            (":updated_at", updated_at as &dyn ToSql),
            (":previous_version", previous_version as &dyn ToSql),
            (":value", value as &dyn ToSql),
        ][..],
    )
}

/// `Rows::next`: steps the query. `Ok(None)` when no row is left.
#[verifier::external_body]
pub(crate) fn next_row<'r, 's>(rows: &'r mut Rows<'s>) -> (r: Result<
    Option<&'r Row<'s>>,
    rusqlite::Error,
>) {
    rows.next()
}

/// `Row::get` for a text column. Fails where the column is no text.
#[verifier::external_body]
pub(crate) fn column_text(row: &Row<'_>, idx: usize) -> (r: Result<String, rusqlite::Error>) {
    row.get(idx)
}

/// `Row::get` for an integer column read as `u64`. Fails where the column
/// is no integer or holds a negative one.
#[verifier::external_body]
pub(crate) fn column_u64(row: &Row<'_>, idx: usize) -> (r: Result<u64, rusqlite::Error>) {
    row.get(idx)
}

/// `Row::get` for a blob column.
#[verifier::external_body]
pub(crate) fn column_blob(row: &Row<'_>, idx: usize) -> (r: Result<Vec<u8>, rusqlite::Error>) {
    row.get(idx)
}

/// The timestamp that `rusqlite` reads out of the text of a column, or
/// `None` where it rejects the text. The conversion parses the text against
/// fixed formats and looks at nothing else, so the text alone decides; the
/// formats themselves are not written out here.
pub uninterp spec fn stored_time(text: Seq<char>) -> Option<OffsetDateTime>;

/// `<OffsetDateTime as FromSql>::column_result` on the text of a column: the
/// conversion that `rusqlite` applies to a stored timestamp. It slices the
/// text at byte 8 before it parses, which panics on a shorter text or inside
/// a character; `requires` leaves those texts out. The call succeeds exactly
/// on the texts that the conversion accepts, with the timestamp that it
/// reads. `idx` is only reported in the error.
#[verifier::external_body]
pub(crate) fn time_from_text(text: &String, idx: usize) -> (r: Result<
    OffsetDateTime,
    rusqlite::Error,
>)
    requires
        vstd::utf8::is_char_boundary(vstd::utf8::encode_utf8(text@), 8),
    ensures
        r is Ok <==> stored_time(text@) is Some,
        r matches Ok(t) ==> stored_time(text@) == Some(t),
{
    <OffsetDateTime as FromSql>::column_result(ValueRef::Text(text.as_bytes())).map_err(
        |e| rusqlite::Error::FromSqlConversionFailure(idx, Type::Text, Box::new(e)),
    )
}

/// The `rusqlite::Error` for a column whose text cannot be a timestamp:
/// `InvalidColumnType` for column `idx`, found as text.
#[verifier::external_body]
pub(crate) fn not_a_timestamp(idx: usize) -> (r: rusqlite::Error) {
    rusqlite::Error::InvalidColumnType(idx, String::new(), Type::Text)
}

/// `Connection::transaction`: begins a deferred transaction.
#[verifier::external_body]
pub(crate) fn begin<'c>(conn: &'c mut Connection) -> (r: Result<Transaction<'c>, rusqlite::Error>) {
    conn.transaction()
}

/// `Transaction::commit`.
#[verifier::external_body]
pub(crate) fn commit(txn: Transaction<'_>) -> (r: Result<(), rusqlite::Error>) {
    txn.commit()
}

/// `Transaction::rollback`.
#[verifier::external_body]
pub(crate) fn rollback(txn: Transaction<'_>) -> (r: Result<(), rusqlite::Error>) {
    txn.rollback()
}

/// `OffsetDateTime::now_utc`: the system clock, read as UTC. The call panics
/// only where the clock is set past the year 9999, the last that the type
/// can hold.
#[verifier::external_body]
pub(crate) fn now_utc() -> (r: OffsetDateTime) {
    OffsetDateTime::now_utc()
}

/// The text that `rusqlite::Error` displays.
#[verifier::external_body]
pub(crate) fn error_text(e: &rusqlite::Error) -> (r: String) {
    e.to_string()
}

} // verus!
