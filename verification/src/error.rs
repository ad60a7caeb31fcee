//! Error taxonomy: storage/API errors and authentication errors.

use vstd::prelude::*;

verus! {

/// Errors of the record store and of the API functions built on it.
#[derive(Debug, Clone, PartialEq, Eq)]
pub enum Error {
    /// A text field exceeds the store's column width; carries the field name.
    DataTooLong(String),
    /// A value cannot be stored at all (for instance a date outside the
    /// storable range); carries the field name.
    IllegalValueForType(String),
    /// A reference to another record does not resolve; carries the field name.
    ConstraintError(String),
    /// The requested record does not exist.
    ItemNotFound,
    /// The store answered in a shape that it never should have.
    IllegalState,
}

/// Authentication and authorization failures, a closed set.
///
/// The first three arise while validating a bearer token, the next two while
/// enforcing a role requirement, and the last three inside the background
/// refresh only: they never propagate to request handling.
#[derive(Debug, Clone, Copy, PartialEq, Eq, Structural)]
pub enum AuthError {
    /// An Authorization header was present but not of the `Bearer <token>` shape.
    MalformedHeader,
    /// The cached public key is missing or cannot be decoded; the request is
    /// rejected, but the fault is the server's configuration, not the caller's.
    KeyUnavailable,
    /// The token's signature does not verify, or the token is expired or
    /// structurally broken.
    InvalidToken,
    /// Roles were required but no claims were presented.
    Unauthenticated,
    /// Claims were presented but none of the required roles matched.
    Forbidden,
    /// The identity provider could not be reached.
    UpstreamUnavailable,
    /// The identity provider answered an authentication request with a failure.
    UpstreamRejected,
    /// The identity provider's answer did not decode to the expected shape.
    MalformedUpstreamResponse,
}

} // verus!
