//! The tenant records.

use vstd::prelude::*;

verus! {

/// A tenant that a caller asks to have declared.
pub struct NewTenant {
    /// Unique identifier
    pub code: String,
}

impl NewTenant {
    pub fn new(code: String) -> (tenant: NewTenant)
        ensures
            tenant.code == code,
    {
        NewTenant { code }
    }
}

/// A tenant as the repository holds it.
#[derive(Debug, Clone)]
pub struct Tenant {
    /// Unique technical identifier
    pub id: i64,
    /// Unique identifier
    pub code: String,
}

} // verus!
