use crate::repository::sqlite::error_text;
use vstd::prelude::*;
use vstd::std_specs::convert::FromSpecImpl;
use vstd::string::StringExecFns;

verus! {

/// Why an operation on the store did not give a result.
#[derive(Debug)]
pub enum DatabaseError {
    /// The reply conduit closed before the processor answered.
    NoRemainingMessageInChannel,
    /// The task could not be handed to the processor; the text says why.
    FailedToSendRequest(String),
    /// SQLite, or the way to it, failed.
    SqliteError(rusqlite::Error),
}

impl From<rusqlite::Error> for DatabaseError {
    fn from(e: rusqlite::Error) -> (r: Self) {
        DatabaseError::SqliteError(e)
    }
}

impl FromSpecImpl<rusqlite::Error> for DatabaseError {
    open spec fn obeys_from_spec() -> bool {
        true
    }

    open spec fn from_spec(e: rusqlite::Error) -> Self {
        DatabaseError::SqliteError(e)
    }
}

/// `text` begins with `prefix`.
pub open spec fn starts_with(text: Seq<char>, prefix: Seq<char>) -> bool {
    prefix.len() <= text.len() && text.subrange(0, prefix.len() as int) == prefix
}

impl DatabaseError {
    /// The error in words.
    pub fn message(&self) -> (r: String)
        ensures
            self is NoRemainingMessageInChannel ==> r@ == "no remaining message in channel"@,
            self matches DatabaseError::FailedToSendRequest(reason) ==> r@
                == "failed to send request: "@ + reason@,
            self is SqliteError ==> starts_with(r@, "sqlite error: "@),
    {
        match self {
            DatabaseError::NoRemainingMessageInChannel => String::from_str(
                "no remaining message in channel",
            ),
            DatabaseError::FailedToSendRequest(reason) => String::from_str(
                "failed to send request: ",
            ).concat(reason.as_str()),
            DatabaseError::SqliteError(e) => {
                let detail = error_text(e);
                let r = String::from_str("sqlite error: ").concat(detail.as_str());
                assert(r@.subrange(0, "sqlite error: "@.len() as int) =~= "sqlite error: "@);
                r
            },
        }
    }
}

} // verus!
