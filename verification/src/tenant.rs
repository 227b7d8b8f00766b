//! Tenants: the isolated scopes that most operations run in.

pub mod domain;

pub use self::domain::{NewTenant, Tenant};
