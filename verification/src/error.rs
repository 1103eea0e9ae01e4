//! The error type surfaced by this crate.
//!
//! The taxonomy distinguishes credential problems that are fatal at
//! construction time (`InvalidCredential`), transient renewal problems
//! (`RenewalFailed`), and the two HTTP outcomes downstream callers need to
//! tell apart (`NotFound`, `Forbidden`); everything else is `Other`.

use vstd::prelude::*;

verus! {

/// The kind of an [`Error`].
#[derive(Debug, Clone, Copy, PartialEq, Eq, Structural)]
pub enum ErrorKind {
    /// The requested resource does not exist (HTTP 404).
    NotFound,
    /// Access to the requested resource is forbidden (HTTP 403).
    Forbidden,
    /// A renewable token carries no decodable expiry claim; fatal at
    /// credential construction, never retried.
    InvalidCredential,
    /// A token renewal exchange failed; retried by the background scheduler,
    /// surfaced once to the synchronous caller that triggered it.
    RenewalFailed,
    /// Any other failure.
    Other,
}

/// An error of this crate: a kind plus a human-readable message.
#[derive(Debug, Clone)]
pub struct Error {
    kind: ErrorKind,
    message: String,
}

/// Mathematical model of [`Error`].
pub struct ErrorView {
    pub kind: ErrorKind,
    pub message: Seq<char>,
}

impl View for Error {
    type V = ErrorView;

    closed spec fn view(&self) -> ErrorView {
        ErrorView { kind: self.kind, message: self.message@ }
    }
}

impl Error {
    pub fn not_found() -> (r: Self)
        ensures
            r@.kind == ErrorKind::NotFound,
    {
        Self { kind: ErrorKind::NotFound, message: String::new() }
    }

    pub fn forbidden() -> (r: Self)
        ensures
            r@.kind == ErrorKind::Forbidden,
    {
        Self { kind: ErrorKind::Forbidden, message: String::new() }
    }

    pub fn invalid_credential() -> (r: Self)
        ensures
            r@.kind == ErrorKind::InvalidCredential,
    {
        Self {
            kind: ErrorKind::InvalidCredential,
            message: String::from_str("Refresh token provided but access token does not expire"),
        }
    }

    pub fn renewal_failed(cause: String) -> (r: Self)
        ensures
            r@.kind == ErrorKind::RenewalFailed,
            r@.message == cause@,
    {
        Self { kind: ErrorKind::RenewalFailed, message: cause }
    }

    pub fn other(message: String) -> (r: Self)
        ensures
            r@.kind == ErrorKind::Other,
            r@.message == message@,
    {
        Self { kind: ErrorKind::Other, message }
    }

    pub fn kind(&self) -> (r: ErrorKind)
        ensures
            r == self@.kind,
    {
        self.kind
    }

    /// A human-readable description of the error.
    pub fn message(&self) -> (r: &str)
        ensures
            r@ == self@.message,
    {
        self.message.as_str()
    }

    pub fn is_not_found(&self) -> (r: bool)
        ensures
            r == (self@.kind == ErrorKind::NotFound),
    {
        match self.kind {
            ErrorKind::NotFound => true,
            _ => false,
        }
    }

    pub fn is_forbidden(&self) -> (r: bool)
        ensures
            r == (self@.kind == ErrorKind::Forbidden),
    {
        match self.kind {
            ErrorKind::Forbidden => true,
            _ => false,
        }
    }

    pub fn is_invalid_credential(&self) -> (r: bool)
        ensures
            r == (self@.kind == ErrorKind::InvalidCredential),
    {
        match self.kind {
            ErrorKind::InvalidCredential => true,
            _ => false,
        }
    }

    pub fn is_renewal_failed(&self) -> (r: bool)
        ensures
            r == (self@.kind == ErrorKind::RenewalFailed),
    {
        match self.kind {
            ErrorKind::RenewalFailed => true,
            _ => false,
        }
    }
}

} // verus!
