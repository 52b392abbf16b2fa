//! The ways in which an operation can fail.

use vstd::prelude::*;

verus! {

/// Why an operation did not succeed.
#[derive(Debug, Clone, Copy, PartialEq, Eq, Structural)]
pub enum ApiError {
    /// No connection to the store could be had, or a read failed.
    StorageUnavailable,
    /// The credentials match no account, or no such chatroom exists.
    NotFound,
    /// The username is taken.
    Conflict,
    /// The caller may not see what was asked for.
    Forbidden,
    /// The token is not the one that the account holds.
    InvalidSession,
    /// The store rejected an insert, an update or a delete.
    InternalWriteFailure,
}

impl ApiError {
    /// The HTTP status that signals this failure to a client.
    pub open spec fn spec_status_code(self) -> u16 {
        match self {
            ApiError::StorageUnavailable => 503,
            ApiError::NotFound => 404,
            ApiError::Conflict => 302,
            ApiError::Forbidden => 403,
            ApiError::InvalidSession => 406,
            ApiError::InternalWriteFailure => 500,
        }
    }

    /// The HTTP status that signals this failure to a client.
    #[verifier::when_used_as_spec(spec_status_code)]
    pub fn status_code(self) -> (code: u16)
        ensures
            code == self.spec_status_code(),
    {
        match self {
            ApiError::StorageUnavailable => 503,
            ApiError::NotFound => 404,
            ApiError::Conflict => 302,
            ApiError::Forbidden => 403,
            ApiError::InvalidSession => 406,
            ApiError::InternalWriteFailure => 500,
        }
    }
}

/// Every kind of failure has a status of its own.
pub proof fn status_codes_are_distinct(a: ApiError, b: ApiError)
    ensures
        a.spec_status_code() == b.spec_status_code() <==> a == b,
{
}

} // verus!
