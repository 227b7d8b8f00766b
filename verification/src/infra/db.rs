//! The storage side: faults, the tenant repository's decisions, and the
//! protocol that puts a caller's identity into a session.

pub mod session;
pub mod tenants;
pub mod util;

pub use self::util::{is_unique_constraint_error, DatabaseFault, StorageError};
