use vstd::prelude::*;

verus! {

/// Why the credentials attached to a request were not accepted.
#[derive(Clone, Debug, PartialEq, Eq)]
pub enum AuthFailure {
    /// No credential was available to attach.
    MissingCredentials,
    /// A credential was sent but rejected as invalid or expired, or its
    /// refresh failed.
    InvalidCredentials(String),
}

/// Failures surfaced while walking a chain of windows.
#[derive(Clone, Debug, PartialEq, Eq)]
pub enum Error {
    /// The window has no link to a following window.
    NoNextPage,
    /// The window has no link to a preceding window.
    NoPreviousPage,
    /// The request did not complete.
    Transport(String),
    /// The request was refused for its credentials.
    Auth(AuthFailure),
    /// The response body did not have the expected shape.
    Decode(String),
}

} // verus!
