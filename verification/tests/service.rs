use std::ops::Bound;

use parapluie::error::endpoint::EndpointError;
use parapluie::grpc::service::convert_bound;
use parapluie::grpc::service::convert_partition_key;
use parapluie::grpc::service::convert_set_value;
use parapluie::grpc::service::convert_sort_key;
use parapluie::grpc::service::encode_item;
use parapluie::grpc::service::get_request;
use parapluie::grpc::service::get_response;
use parapluie::grpc::service::list_request;
use parapluie::grpc::service::list_response;
use parapluie::grpc::service::set_request;
use parapluie::grpc::service::set_response;
use parapluie::model::item::Item;
use parapluie::model::partition_key::PartitionKey;
use parapluie::model::sort_key::SortKey;
use parapluie::proto;
use parapluie::proto::bound::Kind;
use time::OffsetDateTime;

fn wire_pk(text: &str) -> Option<proto::PartitionKey> {
    Some(proto::PartitionKey { value: text.to_string() })
}

fn wire_sk(text: &str) -> Option<proto::SortKey> {
    Some(proto::SortKey { value: text.to_string() })
}

fn wire_write(sort_key: Option<&str>, condition: Option<Option<u64>>, value: &[u8]) -> proto::SetValue {
    proto::SetValue {
        sort_key: sort_key.map(|text| proto::SortKey { value: text.to_string() }),
        write_condition: condition.map(|version_equals| proto::WriteCondition { version_equals }),
        value: value.to_vec(),
    }
}

fn included(text: &str) -> Option<proto::RangeBound> {
    Some(proto::RangeBound { bound: Some(Kind::Included(proto::SortKey { value: text.to_string() })) })
}

fn excluded(text: &str) -> Option<proto::RangeBound> {
    Some(proto::RangeBound { bound: Some(Kind::Excluded(proto::SortKey { value: text.to_string() })) })
}

fn item(sort_key: &str, version: u64) -> Item {
    Item {
        partition_key: PartitionKey::try_from("p").ok().unwrap(),
        sort_key: SortKey::try_from(sort_key).ok().unwrap(),
        created_at: OffsetDateTime::from_unix_timestamp(100).unwrap(),
        updated_at: OffsetDateTime::from_unix_timestamp(200).unwrap(),
        version,
        value: vec![version as u8],
    }
}

fn check_message(message: &proto::Item, sort_key: &str, version: u64) {
    assert_eq!(message.partition_key.as_ref().unwrap().value, "p");
    assert_eq!(message.sort_key.as_ref().unwrap().value, sort_key);
    assert_eq!(message.created_at, Some(OffsetDateTime::from_unix_timestamp(100).unwrap()));
    assert_eq!(message.updated_at, Some(OffsetDateTime::from_unix_timestamp(200).unwrap()));
    assert_eq!(message.version, version);
    assert_eq!(message.value, vec![version as u8]);
}

#[test]
fn partition_key_field_is_checked() {
    assert!(matches!(convert_partition_key(None), Err(EndpointError::MissingPartitionKey)));
    assert!(matches!(convert_partition_key(wire_pk("")), Err(EndpointError::InvalidPartitionKey)));
    assert_eq!(convert_partition_key(wire_pk("tenant")).unwrap().0, "tenant");
}

#[test]
fn sort_key_field_is_checked() {
    assert!(matches!(convert_sort_key(None), Err(EndpointError::MissingSortKey)));
    assert!(matches!(convert_sort_key(wire_sk("")), Err(EndpointError::InvalidSortKey)));
    assert_eq!(convert_sort_key(wire_sk("k")).unwrap().0, "k");
}

#[test]
fn bound_field_is_decoded() {
    assert!(matches!(convert_bound(None), Ok(Bound::Unbounded)));
    assert!(matches!(convert_bound(Some(proto::RangeBound { bound: None })), Ok(Bound::Unbounded)));
    assert!(matches!(
        convert_bound(Some(proto::RangeBound { bound: Some(Kind::Unbounded) })),
        Ok(Bound::Unbounded)
    ));
    match convert_bound(included("a")) {
        Ok(Bound::Included(k)) => assert_eq!(k.0, "a"),
        _ => panic!("expected an inclusive bound"),
    }
    match convert_bound(excluded("b")) {
        Ok(Bound::Excluded(k)) => assert_eq!(k.0, "b"),
        _ => panic!("expected an exclusive bound"),
    }
    assert!(matches!(convert_bound(included("")), Err(EndpointError::InvalidSortKey)));
    assert!(matches!(convert_bound(excluded("")), Err(EndpointError::InvalidSortKey)));
}

#[test]
fn set_value_is_decoded() {
    let v = convert_set_value(wire_write(Some("k"), Some(Some(3)), b"x")).unwrap();
    assert_eq!((v.sort_key.0, v.write_condition.version_equals, v.value), ("k".to_string(), Some(3), b"x".to_vec()));
    let v = convert_set_value(wire_write(Some("k"), Some(None), b"")).unwrap();
    assert_eq!(v.write_condition.version_equals, None);
    let v = convert_set_value(wire_write(Some("k"), None, b"")).unwrap();
    assert_eq!(v.write_condition.version_equals, None);
    assert!(matches!(convert_set_value(wire_write(None, None, b"")), Err(EndpointError::MissingSortKey)));
    assert!(matches!(convert_set_value(wire_write(Some(""), None, b"")), Err(EndpointError::InvalidSortKey)));
}

#[test]
fn set_request_is_decoded_in_order() {
    let request = proto::SetRequest {
        partition_key: wire_pk("p"),
        set_values: vec![wire_write(Some("a"), Some(Some(0)), b"1"), wire_write(Some("b"), None, b"2")],
    };
    let (partition_key, values) = set_request(request).unwrap();
    assert_eq!(partition_key.0, "p");
    assert_eq!(values.len(), 2);
    assert_eq!((values[0].sort_key.0.as_str(), values[0].write_condition.version_equals), ("a", Some(0)));
    assert_eq!(values[0].value, b"1".to_vec());
    assert_eq!((values[1].sort_key.0.as_str(), values[1].write_condition.version_equals), ("b", None));
    assert_eq!(values[1].value, b"2".to_vec());
    let (_, values) = set_request(proto::SetRequest { partition_key: wire_pk("p"), set_values: vec![] }).unwrap();
    assert!(values.is_empty());
}

#[test]
fn set_request_reports_the_first_rejected_field() {
    let bad_values = || vec![wire_write(Some("a"), None, b""), wire_write(Some(""), None, b""), wire_write(None, None, b"")];
    let r = set_request(proto::SetRequest { partition_key: None, set_values: bad_values() });
    assert!(matches!(r, Err(EndpointError::MissingPartitionKey)));
    let r = set_request(proto::SetRequest { partition_key: wire_pk(""), set_values: bad_values() });
    assert!(matches!(r, Err(EndpointError::InvalidPartitionKey)));
    let r = set_request(proto::SetRequest { partition_key: wire_pk("p"), set_values: bad_values() });
    assert!(matches!(r, Err(EndpointError::InvalidSortKey)));
    let r = set_request(proto::SetRequest {
        partition_key: wire_pk("p"),
        set_values: vec![wire_write(None, None, b""), wire_write(Some(""), None, b"")],
    });
    assert!(matches!(r, Err(EndpointError::MissingSortKey)));
}

#[test]
fn set_response_turns_false_into_a_conflict() {
    assert!(set_response(true).unwrap().updated);
    assert!(matches!(set_response(false), Err(EndpointError::Conflict)));
}

#[test]
fn get_request_is_decoded() {
    let (p, s) = get_request(proto::GetRequest { partition_key: wire_pk("p"), sort_key: wire_sk("s") }).unwrap();
    assert_eq!((p.0.as_str(), s.0.as_str()), ("p", "s"));
    let r = get_request(proto::GetRequest { partition_key: None, sort_key: None });
    assert!(matches!(r, Err(EndpointError::MissingPartitionKey)));
    let r = get_request(proto::GetRequest { partition_key: wire_pk(""), sort_key: None });
    assert!(matches!(r, Err(EndpointError::InvalidPartitionKey)));
    let r = get_request(proto::GetRequest { partition_key: wire_pk("p"), sort_key: None });
    assert!(matches!(r, Err(EndpointError::MissingSortKey)));
    let r = get_request(proto::GetRequest { partition_key: wire_pk("p"), sort_key: wire_sk("") });
    assert!(matches!(r, Err(EndpointError::InvalidSortKey)));
}

#[test]
fn get_response_turns_absence_into_not_found() {
    assert!(matches!(get_response(None), Err(EndpointError::NotFound)));
    let response = get_response(Some(item("s", 3))).unwrap();
    check_message(&response.item.unwrap(), "s", 3);
    check_message(&encode_item(item("t", 4)), "t", 4);
}

#[test]
fn list_request_is_decoded() {
    let q = list_request(proto::ListRequest {
        partition_key: wire_pk("p"),
        range: Some(proto::Range { start: excluded("a"), end: included("c") }),
        page_size: 25,
    })
    .unwrap();
    assert_eq!(q.partition_key.0, "p");
    assert_eq!(q.page_size, 25);
    assert!(matches!(&q.range, (Bound::Excluded(a), Bound::Included(c)) if a.0 == "a" && c.0 == "c"));
    let q = list_request(proto::ListRequest { partition_key: wire_pk("p"), range: None, page_size: u32::MAX }).unwrap();
    assert!(matches!(q.range, (Bound::Unbounded, Bound::Unbounded)));
    assert_eq!(q.page_size, u32::MAX as usize);
    let q = list_request(proto::ListRequest {
        partition_key: wire_pk("p"),
        range: Some(proto::Range { start: None, end: excluded("z") }),
        page_size: 0,
    })
    .unwrap();
    assert!(matches!(&q.range, (Bound::Unbounded, Bound::Excluded(z)) if z.0 == "z"));
}

#[test]
fn list_request_reports_the_first_rejected_field() {
    let range = || Some(proto::Range { start: included(""), end: excluded("") });
    let r = list_request(proto::ListRequest { partition_key: None, range: range(), page_size: 1 });
    assert!(matches!(r, Err(EndpointError::MissingPartitionKey)));
    let r = list_request(proto::ListRequest { partition_key: wire_pk(""), range: range(), page_size: 1 });
    assert!(matches!(r, Err(EndpointError::InvalidPartitionKey)));
    let r = list_request(proto::ListRequest { partition_key: wire_pk("p"), range: range(), page_size: 1 });
    assert!(matches!(r, Err(EndpointError::InvalidSortKey)));
    let r = list_request(proto::ListRequest {
        partition_key: wire_pk("p"),
        range: Some(proto::Range { start: included("a"), end: excluded("") }),
        page_size: 1,
    });
    assert!(matches!(r, Err(EndpointError::InvalidSortKey)));
}

#[test]
fn list_response_keeps_the_order_of_the_items() {
    assert!(list_response(vec![]).items.is_empty());
    let response = list_response(vec![item("a", 1), item("b", 2), item("c", 3)]);
    assert_eq!(response.items.len(), 3);
    check_message(&response.items[0], "a", 1);
    check_message(&response.items[1], "b", 2);
    check_message(&response.items[2], "c", 3);
}
