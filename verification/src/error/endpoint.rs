use crate::error::db::starts_with;
use crate::error::db::DatabaseError;
use vstd::prelude::*;
use vstd::std_specs::convert::FromSpecImpl;
use vstd::string::StringExecFns;

verus! {

/// Why a request was not answered with a result.
#[derive(Debug)]
pub enum EndpointError {
    MissingPartitionKey,
    MissingSortKey,
    InvalidPartitionKey,
    InvalidSortKey,
    NotFound,
    /// A write condition of the batch did not hold: nothing was written.
    Conflict,
    DatabaseError(DatabaseError),
}

/// The condition under which an error goes back to the caller.
#[derive(Clone, Copy, Debug, PartialEq, Eq, Structural)]
pub enum StatusCode {
    /// A key that the request must hold was left out.
    MissingArgument,
    /// A key was given and is not valid.
    InvalidArgument,
    NotFound,
    FailedPrecondition,
    Internal,
}

impl From<DatabaseError> for EndpointError {
    fn from(error: DatabaseError) -> (r: Self) {
        EndpointError::DatabaseError(error)
    }
}

impl FromSpecImpl<DatabaseError> for EndpointError {
    open spec fn obeys_from_spec() -> bool {
        true
    }

    open spec fn from_spec(error: DatabaseError) -> Self {
        EndpointError::DatabaseError(error)
    }
}

impl EndpointError {
    /// The status code that stands for the error: a key that was left out
    /// is a missing argument, a key that is not valid an invalid argument,
    /// an absent item is not found, a failed write condition is a failed
    /// precondition, and a failure of the store is internal.
    pub open spec fn code_of(&self) -> StatusCode {
        match self {
            EndpointError::MissingPartitionKey => StatusCode::MissingArgument,
            EndpointError::MissingSortKey => StatusCode::MissingArgument,
            EndpointError::InvalidPartitionKey => StatusCode::InvalidArgument,
            EndpointError::InvalidSortKey => StatusCode::InvalidArgument,
            EndpointError::NotFound => StatusCode::NotFound,
            EndpointError::Conflict => StatusCode::FailedPrecondition,
            EndpointError::DatabaseError(_) => StatusCode::Internal,
        }
    }

    pub fn code(&self) -> (r: StatusCode)
        ensures
            r == self.code_of(),
    {
        match self {
            EndpointError::MissingPartitionKey => StatusCode::MissingArgument,
            EndpointError::MissingSortKey => StatusCode::MissingArgument,
            EndpointError::InvalidPartitionKey => StatusCode::InvalidArgument,
            EndpointError::InvalidSortKey => StatusCode::InvalidArgument,
            EndpointError::NotFound => StatusCode::NotFound,
            EndpointError::Conflict => StatusCode::FailedPrecondition,
            EndpointError::DatabaseError(_) => StatusCode::Internal,
        }
    }

    /// The error in words.
    pub fn message(&self) -> (r: String)
        ensures
            self is MissingPartitionKey ==> r@ == "missing partition key"@,
            self is MissingSortKey ==> r@ == "missing sort key"@,
            self is InvalidPartitionKey ==> r@ == "invalid partition key"@,
            self is InvalidSortKey ==> r@ == "invalid sort key"@,
            self is NotFound ==> r@ == "not found"@,
            self is Conflict ==> r@ == "write condition not met"@,
            self is DatabaseError ==> starts_with(r@, "database error: "@),
            self matches EndpointError::DatabaseError(
                DatabaseError::NoRemainingMessageInChannel,
            ) ==> r@ == "database error: "@ + "no remaining message in channel"@,
            self matches EndpointError::DatabaseError(DatabaseError::FailedToSendRequest(reason))
                ==> r@ == "database error: "@ + ("failed to send request: "@ + reason@),
    {
        match self {
            EndpointError::MissingPartitionKey => String::from_str("missing partition key"),
            EndpointError::MissingSortKey => String::from_str("missing sort key"),
            EndpointError::InvalidPartitionKey => String::from_str("invalid partition key"),
            EndpointError::InvalidSortKey => String::from_str("invalid sort key"),
            EndpointError::NotFound => String::from_str("not found"),
            EndpointError::Conflict => String::from_str("write condition not met"),
            EndpointError::DatabaseError(e) => {
                let detail = e.message();
                let r = String::from_str("database error: ").concat(detail.as_str());
                assert(r@.subrange(0, "database error: "@.len() as int) =~= "database error: "@);
                r
            },
        }
    }

    /// The text that goes back to the caller with the status code. A failure
    /// of the store is described by the store's own message.
    pub fn status_message(&self) -> (r: String)
        ensures
            self is MissingPartitionKey ==> r@ == "missing partition key"@,
            self is MissingSortKey ==> r@ == "missing sort key"@,
            self is InvalidPartitionKey ==> r@ == "invalid partition key"@,
            self is InvalidSortKey ==> r@ == "invalid sort key"@,
            self is NotFound ==> r@ == "not found"@,
            self is Conflict ==> r@ == "write condition not met"@,
            self matches EndpointError::DatabaseError(
                DatabaseError::NoRemainingMessageInChannel,
            ) ==> r@ == "no remaining message in channel"@,
            self matches EndpointError::DatabaseError(DatabaseError::FailedToSendRequest(reason))
                ==> r@ == "failed to send request: "@ + reason@,
            self matches EndpointError::DatabaseError(DatabaseError::SqliteError(_))
                ==> starts_with(r@, "sqlite error: "@),
    {
        match self {
            EndpointError::DatabaseError(e) => e.message(),
            _ => self.message(),
        }
    }
}

} // verus!
