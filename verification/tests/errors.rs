use parapluie::error::db::DatabaseError;
use parapluie::error::endpoint::EndpointError;
use parapluie::error::endpoint::StatusCode;
use parapluie::repository::repository::replied;
use parapluie::repository::repository::submitted;

#[test]
fn database_error_messages() {
    assert_eq!(DatabaseError::NoRemainingMessageInChannel.message(), "no remaining message in channel");
    assert_eq!(
        DatabaseError::FailedToSendRequest("channel closed".to_string()).message(),
        "failed to send request: channel closed"
    );
    let e = DatabaseError::SqliteError(rusqlite::Error::QueryReturnedNoRows);
    assert_eq!(e.message(), format!("sqlite error: {}", rusqlite::Error::QueryReturnedNoRows));
    assert_ne!(e.message(), "sqlite error: ");
}

#[test]
fn database_error_from_sqlite_error() {
    let e = DatabaseError::from(rusqlite::Error::InvalidQuery);
    assert!(matches!(e, DatabaseError::SqliteError(rusqlite::Error::InvalidQuery)));
}

#[test]
fn endpoint_error_messages() {
    assert_eq!(EndpointError::MissingPartitionKey.message(), "missing partition key");
    assert_eq!(EndpointError::MissingSortKey.message(), "missing sort key");
    assert_eq!(EndpointError::InvalidPartitionKey.message(), "invalid partition key");
    assert_eq!(EndpointError::InvalidSortKey.message(), "invalid sort key");
    assert_eq!(EndpointError::NotFound.message(), "not found");
    assert_eq!(EndpointError::Conflict.message(), "write condition not met");
    assert_eq!(
        EndpointError::DatabaseError(DatabaseError::NoRemainingMessageInChannel).message(),
        "database error: no remaining message in channel"
    );
}

#[test]
fn endpoint_error_status() {
    let cases = [
        (EndpointError::MissingPartitionKey, StatusCode::MissingArgument, "missing partition key"),
        (EndpointError::MissingSortKey, StatusCode::MissingArgument, "missing sort key"),
        (EndpointError::InvalidPartitionKey, StatusCode::InvalidArgument, "invalid partition key"),
        (EndpointError::InvalidSortKey, StatusCode::InvalidArgument, "invalid sort key"),
        (EndpointError::NotFound, StatusCode::NotFound, "not found"),
        (EndpointError::Conflict, StatusCode::FailedPrecondition, "write condition not met"),
        (
            EndpointError::DatabaseError(DatabaseError::FailedToSendRequest("gone".to_string())),
            StatusCode::Internal,
            "failed to send request: gone",
        ),
    ];
    for (error, code, message) in cases {
        assert_eq!(error.code(), code);
        assert_eq!(error.status_message(), message);
    }
    let wrapped = EndpointError::from(DatabaseError::NoRemainingMessageInChannel);
    assert!(matches!(wrapped, EndpointError::DatabaseError(DatabaseError::NoRemainingMessageInChannel)));
}

#[test]
fn a_task_that_was_not_taken_is_a_failed_send() {
    assert!(submitted(Ok(())).is_ok());
    match submitted(Err("channel closed".to_string())) {
        Err(DatabaseError::FailedToSendRequest(reason)) => assert_eq!(reason, "channel closed"),
        _ => panic!("expected a failed send"),
    }
}

#[test]
fn a_conduit_that_closed_without_a_reply_is_an_error() {
    assert!(matches!(replied::<bool>(None), Err(DatabaseError::NoRemainingMessageInChannel)));
    assert!(matches!(replied(Some(Ok(true))), Ok(true)));
    assert!(matches!(replied(Some(Ok(false))), Ok(false)));
    assert!(matches!(
        replied::<bool>(Some(Err(DatabaseError::SqliteError(rusqlite::Error::InvalidQuery)))),
        Err(DatabaseError::SqliteError(rusqlite::Error::InvalidQuery))
    ));
}

#[test]
fn a_missing_key_and_an_invalid_key_have_codes_of_their_own() {
    assert_ne!(EndpointError::MissingPartitionKey.code(), EndpointError::InvalidPartitionKey.code());
    assert_ne!(EndpointError::MissingSortKey.code(), EndpointError::InvalidSortKey.code());
    assert_eq!(EndpointError::MissingPartitionKey.code(), EndpointError::MissingSortKey.code());
}
