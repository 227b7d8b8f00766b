//! Multi-tenant tokenization: who may do what, how tokens are minted and
//! masked, and how tenant listings are paged.

pub mod context;
pub mod error;
pub mod infra;
pub mod tenant;
pub mod token;
pub mod util;
