//! What the statements of the store mean, as a model on plain data, and the
//! laws of that model.
//!
//! The table is a map from key pairs to rows. `write` is the write rule for
//! one item, `batch` the rule for a transaction of writes, `read` the point
//! read. Everything here is proved of the model. That SQLite, running the
//! statements, acts as the model says is outside what a proof in this crate
//! can reach: the tests of the crate hold the two against each other.

use crate::model::item::ItemView;
use crate::model::set_value::SetValueView;
use crate::model::write_condition::next_version;
use crate::model::write_condition::write_allowed;
use time::OffsetDateTime;
use vstd::prelude::*;

verus! {

/// What the table holds under one key pair.
pub struct Record {
    pub created_at: OffsetDateTime,
    pub updated_at: OffsetDateTime,
    pub version: nat,
    pub value: Seq<u8>,
}

/// The table: at most one row under each pair of partition key and sort key.
pub type Table = Map<(Seq<char>, Seq<char>), Record>;

/// The stored version under a key pair, if a row is stored there.
pub open spec fn version_at(table: Table, partition_key: Seq<char>, sort_key: Seq<char>) -> Option<
    nat,
> {
    if table.dom().contains((partition_key, sort_key)) {
        Some(table[(partition_key, sort_key)].version)
    } else {
        None
    }
}

/// The point read: the item under a key pair, if a row is stored there.
pub open spec fn read(table: Table, partition_key: Seq<char>, sort_key: Seq<char>) -> Option<
    ItemView,
> {
    if table.dom().contains((partition_key, sort_key)) {
        let row = table[(partition_key, sort_key)];
        Some(
            ItemView {
                partition_key,
                sort_key,
                created_at: row.created_at,
                updated_at: row.updated_at,
                version: row.version,
                value: row.value,
            },
        )
    } else {
        None
    }
}

/// The row that an allowed write at time `now` leaves under a key pair: the
/// time of creation is kept where a row was stored, the version goes up by
/// one, everything else is new.
pub open spec fn written(
    table: Table,
    partition_key: Seq<char>,
    sort_key: Seq<char>,
    now: OffsetDateTime,
    value: Seq<u8>,
) -> Record {
    Record {
        created_at: if table.dom().contains((partition_key, sort_key)) {
            table[(partition_key, sort_key)].created_at
        } else {
            now
        },
        updated_at: now,
        version: next_version(version_at(table, partition_key, sort_key)),
        value,
    }
}

/// The write rule for one item: the table after the write, and whether the
/// write took effect. A write that is not allowed changes nothing.
pub open spec fn write(table: Table, partition_key: Seq<char>, w: SetValueView, now: OffsetDateTime)
    -> (Table, bool) {
    if write_allowed(version_at(table, partition_key, w.sort_key), w.expected) {
        (
            table.insert(
                (partition_key, w.sort_key),
                written(table, partition_key, w.sort_key, now, w.value),
            ),
            true,
        )
    } else {
        (table, false)
    }
}

/// The writes of a batch, one after the other, each on the table that the
/// one before it left. `None` as soon as one does not take effect.
pub open spec fn write_in_order(
    table: Table,
    partition_key: Seq<char>,
    ws: Seq<SetValueView>,
    now: OffsetDateTime,
) -> Option<Table>
    decreases ws.len(),
{
    if ws.len() == 0 {
        Some(table)
    } else {
        let (next, ok) = write(table, partition_key, ws[0], now);
        if ok {
            write_in_order(next, partition_key, ws.drop_first(), now)
        } else {
            None
        }
    }
}

/// The rule for a batch: all of its writes, or none of them.
pub open spec fn batch(
    table: Table,
    partition_key: Seq<char>,
    ws: Seq<SetValueView>,
    now: OffsetDateTime,
) -> (Table, bool) {
    match write_in_order(table, partition_key, ws, now) {
        Some(after) => (after, true),
        None => (table, false),
    }
}

/// The write at position `k` of a batch is the first that is not allowed:
/// those before it took effect in order, and it meets a stored version that
/// its condition does not accept.
pub open spec fn fails_at(
    table: Table,
    partition_key: Seq<char>,
    ws: Seq<SetValueView>,
    now: OffsetDateTime,
    k: int,
) -> bool {
    &&& 0 <= k < ws.len()
    &&& write_in_order(table, partition_key, ws.take(k), now) matches Some(before)
    &&& !write(before, partition_key, ws[k], now).1
}

/// One unconditional write per entry of `times`, all under the same key
/// pair, each at its own time and with its own value.
pub open spec fn overwrite_each(
    table: Table,
    partition_key: Seq<char>,
    sort_key: Seq<char>,
    times: Seq<OffsetDateTime>,
    values: Seq<Seq<u8>>,
) -> Table
    decreases times.len(),
{
    if times.len() == 0 {
        table
    } else {
        write(
            overwrite_each(table, partition_key, sort_key, times.drop_last(), values.drop_last()),
            partition_key,
            SetValueView { sort_key, expected: None, value: values.last() },
            times.last(),
        ).0
    }
}

/// A write without a condition under a key pair that holds no row takes
/// effect, and a read that follows finds version 1 and the written value.
pub proof fn lemma_first_write_reads_back(
    table: Table,
    partition_key: Seq<char>,
    sort_key: Seq<char>,
    value: Seq<u8>,
    now: OffsetDateTime,
)
    requires
        !table.dom().contains((partition_key, sort_key)),
    ensures
        write(table, partition_key, SetValueView { sort_key, expected: None, value }, now).1,
        read(
            write(table, partition_key, SetValueView { sort_key, expected: None, value }, now).0,
            partition_key,
            sort_key,
        ) == Some(
            ItemView {
                partition_key,
                sort_key,
                created_at: now,
                updated_at: now,
                version: 1,
                value,
            },
        ),
{
}

/// After `n >= 1` writes without a condition under one key pair, the stored
/// version is `n` more than it was (counting from zero where no row was
/// stored), the time of update is the time of the last write, the value is
/// the last value, and the time of creation is the one that was stored, or
/// the time of the first write where no row was stored.
pub proof fn lemma_unconditional_writes_count(
    table: Table,
    partition_key: Seq<char>,
    sort_key: Seq<char>,
    times: Seq<OffsetDateTime>,
    values: Seq<Seq<u8>>,
)
    requires
        times.len() == values.len(),
        times.len() >= 1,
    ensures
        read(
            overwrite_each(table, partition_key, sort_key, times, values),
            partition_key,
            sort_key,
        ) == Some(
            ItemView {
                partition_key,
                sort_key,
                created_at: match read(table, partition_key, sort_key) {
                    Some(item) => item.created_at,
                    None => times[0],
                },
                updated_at: times.last(),
                version: match version_at(table, partition_key, sort_key) {
                    Some(v) => v + times.len(),
                    None => times.len(),
                },
                value: values.last(),
            },
        ),
    decreases times.len(),
{
    let before = overwrite_each(
        table,
        partition_key,
        sort_key,
        times.drop_last(),
        values.drop_last(),
    );
    if times.len() > 1 {
        lemma_unconditional_writes_count(
            table,
            partition_key,
            sort_key,
            times.drop_last(),
            values.drop_last(),
        );
        assert(times.drop_last()[0] == times[0]);
    } else {
        assert(before == table);
    }
    assert(overwrite_each(table, partition_key, sort_key, times, values) == write(
        before,
        partition_key,
        SetValueView { sort_key, expected: None, value: values.last() },
        times.last(),
    ).0);
}

/// A write that expects version `v` takes effect exactly when the stored
/// version is `v`, or when `v` is zero and no row is stored. When it does
/// not take effect the table is what it was.
pub proof fn lemma_conditional_write(
    table: Table,
    partition_key: Seq<char>,
    sort_key: Seq<char>,
    v: u64,
    value: Seq<u8>,
    now: OffsetDateTime,
)
    ensures
        write(table, partition_key, SetValueView { sort_key, expected: Some(v), value }, now).1
            <==> (version_at(table, partition_key, sort_key) == Some(v as nat) || (v == 0
            && version_at(table, partition_key, sort_key) is None)),
        !write(table, partition_key, SetValueView { sort_key, expected: Some(v), value }, now).1
            ==> write(
            table,
            partition_key,
            SetValueView { sort_key, expected: Some(v), value },
            now,
        ).0 == table,
{
}

/// A batch in which some write is not allowed reports `false` and leaves the
/// table as it was, the writes before the failing one included.
pub proof fn lemma_failed_batch_changes_nothing(
    table: Table,
    partition_key: Seq<char>,
    ws: Seq<SetValueView>,
    now: OffsetDateTime,
    k: int,
)
    requires
        fails_at(table, partition_key, ws, now, k),
    ensures
        batch(table, partition_key, ws, now) == (table, false),
    decreases k,
{
    if k == 0 {
        assert(ws.take(0).len() == 0);
    } else {
        let head = ws.take(k);
        assert(head[0] == ws[0]);
        let (next, ok) = write(table, partition_key, ws[0], now);
        assert(ok);
        assert(head.drop_first() =~= ws.drop_first().take(k - 1));
        assert(ws.drop_first()[k - 1] == ws[k]);
        lemma_failed_batch_changes_nothing(next, partition_key, ws.drop_first(), now, k - 1);
    }
}

/// A batch reports `true` only when every one of its writes was allowed in
/// its turn; it reports `false` only when some write fails.
pub proof fn lemma_batch_fails_at_some_write(
    table: Table,
    partition_key: Seq<char>,
    ws: Seq<SetValueView>,
    now: OffsetDateTime,
)
    requires
        !batch(table, partition_key, ws, now).1,
    ensures
        exists|k: int| fails_at(table, partition_key, ws, now, k),
    decreases ws.len(),
{
    let (next, ok) = write(table, partition_key, ws[0], now);
    if !ok {
        assert(ws.take(0).len() == 0);
        assert(fails_at(table, partition_key, ws, now, 0));
    } else {
        lemma_batch_fails_at_some_write(next, partition_key, ws.drop_first(), now);
        let j = choose|j: int| fails_at(next, partition_key, ws.drop_first(), now, j);
        let head = ws.take(j + 1);
        assert(head[0] == ws[0]);
        assert(head.drop_first() =~= ws.drop_first().take(j));
        assert(ws.drop_first()[j] == ws[j + 1]);
        assert(fails_at(table, partition_key, ws, now, j + 1));
    }
}

/// Two writes under one key pair that expect the same version, run one
/// after the other on a table that meets the expectation: the first takes
/// effect and the second does not, whichever of the two comes first.
pub proof fn lemma_one_of_two_takes_effect(
    table: Table,
    partition_key: Seq<char>,
    sort_key: Seq<char>,
    v: u64,
    first: Seq<u8>,
    second: Seq<u8>,
    now: OffsetDateTime,
    later: OffsetDateTime,
)
    requires
        write_allowed(version_at(table, partition_key, sort_key), Some(v)),
    ensures
        write(
            table,
            partition_key,
            SetValueView { sort_key, expected: Some(v), value: first },
            now,
        ).1,
        !write(
            write(
                table,
                partition_key,
                SetValueView { sort_key, expected: Some(v), value: first },
                now,
            ).0,
            partition_key,
            SetValueView { sort_key, expected: Some(v), value: second },
            later,
        ).1,
{
}

/// A read under a key pair that was never written finds nothing.
pub proof fn lemma_unwritten_key_reads_nothing(
    table: Table,
    partition_key: Seq<char>,
    sort_key: Seq<char>,
)
    requires
        !table.dom().contains((partition_key, sort_key)),
    ensures
        read(table, partition_key, sort_key) is None,
{
}

/// A write under one key pair leaves the row under every other key pair as
/// it was.
pub proof fn lemma_write_touches_one_key(
    table: Table,
    partition_key: Seq<char>,
    w: SetValueView,
    now: OffsetDateTime,
    other_partition: Seq<char>,
    other_sort: Seq<char>,
)
    requires
        (other_partition, other_sort) != (partition_key, w.sort_key),
    ensures
        read(write(table, partition_key, w, now).0, other_partition, other_sort) == read(
            table,
            other_partition,
            other_sort,
        ),
{
}

} // verus!
