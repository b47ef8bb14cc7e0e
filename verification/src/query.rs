//! Failures of Query handlers.

use vstd::prelude::*;

verus! {

/// Failures of a Query handler, as far as a client is told.
#[derive(Clone, Copy, Debug, PartialEq, Eq, Structural)]
pub enum QueryHandlerError {
    /// The Query or its payload is invalid.
    InvalidQuery,
    /// The actor may not make this Query.
    Unauthorized,
    /// What the Query asks for does not exist.
    NotFound,
    /// A backend is temporarily unavailable.
    Unavailable,
    /// The Query failed unexpectedly.
    Internal,
}

/// Failures of a read authorization port.
#[derive(Clone, Copy, Debug, PartialEq, Eq, Structural)]
pub enum ReadAuthorizationError {
    /// The actor may not read the Session.
    Unauthorized,
    /// The authorization backend is temporarily unavailable.
    Unavailable,
    /// The authorization backend failed unexpectedly.
    Internal,
}

/// The failure of a Query whose read was not authorized.
pub open spec fn authorization_failure(error: ReadAuthorizationError) -> QueryHandlerError {
    match error {
        ReadAuthorizationError::Unauthorized => QueryHandlerError::Unauthorized,
        ReadAuthorizationError::Unavailable => QueryHandlerError::Unavailable,
        ReadAuthorizationError::Internal => QueryHandlerError::Internal,
    }
}

/// Maps a failure of a read authorization port.
pub fn map_read_authorization_error(error: ReadAuthorizationError) -> (r: QueryHandlerError)
    ensures
        r == authorization_failure(error),
{
    match error {
        ReadAuthorizationError::Unauthorized => QueryHandlerError::Unauthorized,
        ReadAuthorizationError::Unavailable => QueryHandlerError::Unavailable,
        ReadAuthorizationError::Internal => QueryHandlerError::Internal,
    }
}

/// A failed read authorization is told as it is.
pub proof fn law_authorization_failures_are_told_apart()
    ensures
        authorization_failure(ReadAuthorizationError::Unauthorized)
            == QueryHandlerError::Unauthorized,
        authorization_failure(ReadAuthorizationError::Unavailable)
            == QueryHandlerError::Unavailable,
        authorization_failure(ReadAuthorizationError::Internal) == QueryHandlerError::Internal,
{
}

} // verus!
