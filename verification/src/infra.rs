//! What the crate decides on behalf of the storage engine and the
//! configuration around it.

pub mod config;
pub mod db;
