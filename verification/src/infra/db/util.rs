//! Faults of the storage engine, as plain values.

use vstd::prelude::*;
use vstd::string::*;
use crate::error::Error;
use crate::util::misc::{eq_ignore_ascii_case, matches_ignoring_ascii_case};

verus! {

/// The code by which the storage engine reports that a uniqueness
/// constraint was violated.
pub const UNIQUE_VIOLATION: &'static str = "23505";

/// What the storage engine itself said of a fault.
#[derive(Debug, Clone)]
pub struct DatabaseFault {
    /// The engine's code for the kind of fault, where it gave one.
    pub code: Option<String>,
    /// The constraint that was violated, where the engine named one.
    pub constraint: Option<String>,
}

/// A failed storage operation.
#[derive(Debug, Clone)]
pub struct StorageError {
    /// The fault in words.
    pub message: String,
    /// What the engine said, where the fault came from the engine and not
    /// from the way to it.
    pub database: Option<DatabaseFault>,
}

/// Whether `fault` reports a violated uniqueness constraint that may be
/// `constraint`: its code is the one for uniqueness violations, and the
/// constraint it names, if any, is `constraint`. Letters compare without
/// regard to ASCII case.
pub open spec fn reports_unique_violation(fault: DatabaseFault, constraint: Seq<char>) -> bool {
    &&& fault.code matches Some(code) && matches_ignoring_ascii_case(code@, UNIQUE_VIOLATION@)
    &&& fault.constraint matches Some(named) ==> matches_ignoring_ascii_case(named@, constraint)
}

/// Whether `e` is a violation of the uniqueness constraint
/// `constraint_name`. A fault that names no constraint is taken to be
/// about the expected one. Without an expected constraint nothing is
/// attributed.
pub fn is_unique_constraint_error(e: &StorageError, constraint_name: Option<&str>) -> (hit: bool)
    ensures
        hit <==> (e.database matches Some(fault) && constraint_name matches Some(name)
            && reports_unique_violation(fault, name@)),
{
    match &e.database {
        Some(fault) => match &fault.code {
            Some(code) => {
                if eq_ignore_ascii_case(code.as_str(), UNIQUE_VIOLATION) {
                    match constraint_name {
                        Some(name) => match &fault.constraint {
                            Some(named) => eq_ignore_ascii_case(named.as_str(), name),
                            None => true,
                        },
                        None => false,
                    }
                } else {
                    false
                }
            },
            None => false,
        },
        None => false,
    }
}

impl From<StorageError> for Error {
    /// A storage fault as the crate reports it: opaque, with its message.
    fn from(e: StorageError) -> (error: Error)
        ensures
            error == Error::RepositoryError(e.message),
    {
        Error::RepositoryError(e.message)
    }
}

impl vstd::std_specs::convert::FromSpecImpl<StorageError> for Error {
    open spec fn obeys_from_spec() -> bool {
        true
    }

    open spec fn from_spec(e: StorageError) -> Error {
        Error::RepositoryError(e.message)
    }
}

} // verus!
