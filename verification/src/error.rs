//! The ways in which an operation can fail.

use vstd::prelude::*;
use vstd::string::*;

verus! {

/// Why an operation failed. The store's failures and a failed lock carry the
/// words of whatever reported them.
#[derive(Debug, PartialEq, Eq)]
pub enum SessionError {
    /// A session is being recorded, so none can start.
    AlreadyActive,
    /// No session is being recorded.
    NoActiveSession,
    /// A record, or the list of records, could not be read.
    StoreReadError(String),
    /// A record could not be written.
    StoreWriteError(String),
    /// A record could not be turned into stored form, or back.
    SerializationError(String),
    /// No record is kept under the identifier.
    NotFound(String),
    /// The lock that guards the state cannot be taken any more.
    LockFailure(String),
}

/// What the user is told when a session is already being recorded.
pub open spec fn already_active_message() -> Seq<char> {
    "A session is already in progress"@
}

/// What the user is told when no session is being recorded.
pub open spec fn no_active_session_message() -> Seq<char> {
    "No active session"@
}

/// What the user is told when no record is kept under `id`.
pub open spec fn not_found_message(id: Seq<char>) -> Seq<char> {
    "Session with ID "@ + id + " not found"@
}

impl Clone for SessionError {
    fn clone(&self) -> (res: SessionError)
        ensures
            res == *self,
    {
        match self {
            SessionError::AlreadyActive => SessionError::AlreadyActive,
            SessionError::NoActiveSession => SessionError::NoActiveSession,
            SessionError::StoreReadError(detail) => SessionError::StoreReadError(detail.clone()),
            SessionError::StoreWriteError(detail) => SessionError::StoreWriteError(detail.clone()),
            SessionError::SerializationError(detail) => SessionError::SerializationError(
                detail.clone(),
            ),
            SessionError::NotFound(id) => SessionError::NotFound(id.clone()),
            SessionError::LockFailure(detail) => SessionError::LockFailure(detail.clone()),
        }
    }
}

impl SessionError {
    /// The words for the user.
    pub open spec fn message_text(self) -> Seq<char> {
        match self {
            SessionError::AlreadyActive => already_active_message(),
            SessionError::NoActiveSession => no_active_session_message(),
            SessionError::StoreReadError(detail) => detail@,
            SessionError::StoreWriteError(detail) => detail@,
            SessionError::SerializationError(detail) => detail@,
            SessionError::NotFound(id) => not_found_message(id@),
            SessionError::LockFailure(detail) => detail@,
        }
    }

    /// The words for the user.
    pub fn message(&self) -> (res: String)
        ensures
            res@ == self.message_text(),
    {
        match self {
            SessionError::AlreadyActive => "A session is already in progress".to_owned(),
            SessionError::NoActiveSession => "No active session".to_owned(),
            SessionError::StoreReadError(detail) => detail.clone(),
            SessionError::StoreWriteError(detail) => detail.clone(),
            SessionError::SerializationError(detail) => detail.clone(),
            SessionError::NotFound(id) => {
                let mut out = "Session with ID ".to_owned();
                out.append(id.as_str());
                out.append(" not found");
                out
            },
            SessionError::LockFailure(detail) => detail.clone(),
        }
    }
}

} // verus!
