//! The error taxonomy of the reconciler.
//!
//! Every failure of a reconciliation step is reported as one of these
//! variants; no error is silently swallowed. `UserInputError` and
//! `TemplateError` are permanent for a given resource definition, the
//! others are transient and retried after a short backoff.

use vstd::prelude::*;

verus! {

/// All errors a reconciliation can surface.
#[derive(Debug)]
pub enum Error {
    /// A resource-store transport, permission or conflict failure.
    StoreError(String),
    /// The resource definition itself is invalid (for example, it has no
    /// scope/namespace). Fatal to the cycle; retrying cannot help until
    /// the definition changes.
    UserInputError(String),
    /// A repository clone, commit or push failure. `retryable` is true
    /// when a fresh attempt may succeed, as for a push rejected because
    /// it was not a fast-forward.
    RepositoryError { message: String, retryable: bool },
    /// A local filesystem failure while rendering or staging.
    FilesystemError(String),
    /// An unresolved variable or a malformed template.
    TemplateError(String),
}

impl Error {
    /// True for errors that a fresh reconciliation attempt may clear.
    pub fn is_retryable(&self) -> (r: bool)
        ensures
            r == self.spec_is_retryable(),
    {
        match self {
            Error::StoreError(_) => true,
            Error::UserInputError(_) => false,
            Error::RepositoryError { retryable, .. } => *retryable,
            Error::FilesystemError(_) => true,
            Error::TemplateError(_) => false,
        }
    }

    /// Whether a fresh attempt may clear the error.
    pub open spec fn spec_is_retryable(&self) -> bool {
        match self {
            Error::StoreError(_) => true,
            Error::UserInputError(_) => false,
            Error::RepositoryError { retryable, .. } => *retryable,
            Error::FilesystemError(_) => true,
            Error::TemplateError(_) => false,
        }
    }

    /// A human-readable description of the error.
    pub fn describe(&self) -> (r: &String)
        ensures
            r@ == self.spec_describe(),
    {
        match self {
            Error::StoreError(m) => m,
            Error::UserInputError(m) => m,
            Error::RepositoryError { message, .. } => message,
            Error::FilesystemError(m) => m,
            Error::TemplateError(m) => m,
        }
    }

    /// The message carried by the error.
    pub open spec fn spec_describe(&self) -> Seq<char> {
        match self {
            Error::StoreError(m) => m@,
            Error::UserInputError(m) => m@,
            Error::RepositoryError { message, .. } => message@,
            Error::FilesystemError(m) => m@,
            Error::TemplateError(m) => m@,
        }
    }
}

} // verus!
