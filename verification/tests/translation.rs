use std::ops::Bound;

use parapluie::model::item::Item;
use parapluie::model::partition_key::PartitionKey;
use parapluie::model::sort_key::SortKey;
use parapluie::repository::query_shim::applied;
use parapluie::repository::query_shim::assemble;
use parapluie::repository::query_shim::found;
use parapluie::repository::query_shim::range_predicates;
use parapluie::repository::query_shim::row_limit;
use parapluie::repository::query_shim::stored_row_of;
use parapluie::repository::query_shim::timestamp_of;
use parapluie::repository::query_shim::StoredRow;
use time::OffsetDateTime;

fn sk(text: &str) -> SortKey {
    SortKey::try_from(text).ok().unwrap()
}

fn some(text: &str) -> Option<String> {
    Some(text.to_string())
}

fn row(version: u64) -> StoredRow {
    StoredRow {
        created_at: OffsetDateTime::from_unix_timestamp(1).unwrap(),
        updated_at: OffsetDateTime::from_unix_timestamp(2).unwrap(),
        version,
        value: vec![9],
    }
}

fn check(item: &Item, sort_key: &str, version: u64) {
    assert_eq!(item.partition_key.0, "p");
    assert_eq!(item.sort_key.0, sort_key);
    assert_eq!(item.created_at, OffsetDateTime::from_unix_timestamp(1).unwrap());
    assert_eq!(item.updated_at, OffsetDateTime::from_unix_timestamp(2).unwrap());
    assert_eq!(item.version, version);
    assert_eq!(item.value, vec![9]);
}

#[test]
fn open_range_sets_no_predicate() {
    let p = range_predicates((Bound::Unbounded, Bound::Unbounded));
    assert_eq!((p.gt_sort_key, p.ge_sort_key, p.lt_sort_key, p.le_sort_key), (None, None, None, None));
}

#[test]
fn each_bound_sets_its_own_predicate() {
    let p = range_predicates((Bound::Included(sk("a")), Bound::Excluded(sk("z"))));
    assert_eq!((p.gt_sort_key, p.ge_sort_key, p.lt_sort_key, p.le_sort_key), (None, some("a"), some("z"), None));
    let p = range_predicates((Bound::Excluded(sk("a")), Bound::Included(sk("z"))));
    assert_eq!((p.gt_sort_key, p.ge_sort_key, p.lt_sort_key, p.le_sort_key), (some("a"), None, None, some("z")));
    let p = range_predicates((Bound::Unbounded, Bound::Included(sk("m"))));
    assert_eq!((p.gt_sort_key, p.ge_sort_key, p.lt_sort_key, p.le_sort_key), (None, None, None, some("m")));
    let p = range_predicates((Bound::Excluded(sk("m")), Bound::Unbounded));
    assert_eq!((p.gt_sort_key, p.ge_sort_key, p.lt_sort_key, p.le_sort_key), (some("m"), None, None, None));
}

#[test]
fn row_limit_is_the_page_size_up_to_the_largest_limit() {
    assert_eq!(row_limit(0), 0);
    assert_eq!(row_limit(1), 1);
    assert_eq!(row_limit(250), 250);
    assert_eq!(row_limit(i64::MAX as usize), i64::MAX);
    assert_eq!(row_limit(i64::MAX as usize + 1), i64::MAX);
    assert_eq!(row_limit(usize::MAX), i64::MAX);
}

#[test]
fn a_write_is_applied_when_one_row_changed() {
    assert!(!applied(0));
    assert!(applied(1));
    assert!(!applied(2));
    assert!(!applied(usize::MAX));
}

#[test]
fn assemble_puts_keys_and_row_together() {
    let p = PartitionKey::try_from("p").ok().unwrap();
    check(&assemble(&p, sk("s"), row(4)), "s", 4);
}

#[test]
fn found_is_absent_without_a_row() {
    let p = PartitionKey::try_from("p").ok().unwrap();
    assert!(found(&p, &sk("s"), None).is_none());
    check(&found(&p, &sk("s"), Some(row(1))).unwrap(), "s", 1);
}

#[test]
fn timestamp_text_that_cannot_be_cut_is_rejected() {
    for text in ["", "short", "1234567", "1234567\u{e9}", "\u{4e2d}\u{6587}\u{4e2d}"] {
        assert!(timestamp_of(&text.to_string(), 0).is_err(), "{:?}", text);
    }
}

#[test]
fn timestamp_text_that_the_conversion_rejects_is_rejected() {
    for text in ["12345678", "not a timestamp at all", "2024-13-45 99:99:99", "2024-01-02"] {
        assert!(timestamp_of(&text.to_string(), 1).is_err(), "{:?}", text);
    }
}

#[test]
fn timestamp_text_is_converted() {
    let seconds = |text: &str| timestamp_of(&text.to_string(), 0).unwrap().unix_timestamp();
    assert_eq!(seconds("2024-01-02 03:04:05"), 1_704_164_645);
    assert_eq!(seconds("2024-01-02T03:04:05"), 1_704_164_645);
    assert_eq!(seconds("2024-01-02 03:04"), 1_704_164_640);
    assert_eq!(seconds("2024-01-02 03:04:05.000+00:00"), 1_704_164_645);
    assert_eq!(seconds("2024-01-02 03:04:05.0+01:00"), 1_704_161_045);
    assert_eq!(seconds("1970-01-01 00:00:00"), 0);
    let t = timestamp_of(&"2024-01-02 03:04:05.25-02:30".to_string(), 0).unwrap();
    assert_eq!(t.unix_timestamp_nanos(), 1_704_173_645_250_000_000);
    assert_eq!(t.offset().whole_minutes(), -150);
    let written = OffsetDateTime::from_unix_timestamp(1_700_000_000).unwrap();
    let text = "2023-11-14 22:13:20.0+00:00".to_string();
    assert_eq!(timestamp_of(&text, 0).unwrap(), written);
}

#[test]
fn each_column_of_a_row_goes_into_the_field_of_its_name() {
    let created = "2024-01-02 03:04:05".to_string();
    let updated = "2024-06-07 08:09:10".to_string();
    let row = stored_row_of(&created, &updated, 7, vec![1, 2], (0, 1)).unwrap();
    assert_eq!(row.created_at.unix_timestamp(), 1_704_164_645);
    assert_eq!(row.updated_at.unix_timestamp(), 1_717_747_750);
    assert_eq!(row.version, 7);
    assert_eq!(row.value, vec![1, 2]);
}

#[test]
fn a_row_needs_both_of_its_timestamps() {
    let good = "2024-01-02 03:04:05".to_string();
    for bad in ["", "short", "not a timestamp at all"] {
        assert!(stored_row_of(&bad.to_string(), &good, 1, vec![], (1, 2)).is_err());
        assert!(stored_row_of(&good, &bad.to_string(), 1, vec![], (1, 2)).is_err());
    }
    assert!(stored_row_of(&good, &good, 1, vec![], (1, 2)).is_ok());
}
