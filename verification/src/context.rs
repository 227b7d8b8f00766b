//! Who calls, for which tenant, and what the caller may do.

pub mod execution;
pub mod permissions;

pub use self::execution::{Caller, CallerType, ExecutionContext, PermissionControlState, TenantId};
pub use self::permissions::{Permission, PermissionSet, Role};
