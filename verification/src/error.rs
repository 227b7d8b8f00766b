//! The failures that the crate reports.

use vstd::prelude::*;

verus! {

/// The kind of a generic failure.
#[derive(Debug, Clone, Copy, PartialEq, Eq, Structural)]
pub enum ErrorCode {
    /// Generic error
    ServerError,
    /// when an entity cannot be created/updated
    UniqueViolation,
    /// when the directly targeted entity cannot be found
    NotFound,
    /// when a referenced entity cannot be found
    InvalidReference,
    /// when the user can fix the problem in the request itself
    BadRequest,
    /// Not Authorized
    Unauthorized,
    /// when the action would break a foreign key
    ReferenceViolation,
    /// when the actual data state does not permit the attempted action
    Forbidden,
}

#[derive(Debug)]
pub enum Error {
    /// A failure with its kind, a message, and the fields it is about,
    /// each with the value that was refused. No field is listed twice.
    /// The fields are a list and no hash map: of a hash map with texts
    /// for keys nothing can be proved.
    Generic(ErrorCode, String, Vec<(String, String)>),
    /// The storage engine failed; the text is what it said.
    RepositoryError(String),
    /// An id that is not known
    ReferenceError(String),
    /// A setting that is not defined
    MissingConfig(String),
    /// A JWT token that is not valid
    InvalidJWT(String),
    /// A text that is no tenant id
    InvalidTenantId(String),
    /// A text that names no role
    UnknownRole(String),
    /// A text that names no caller type
    UnknownCallerType(String),
    /// The settings could not be loaded; the text says why.
    ConfigError(String),
}

} // verus!
