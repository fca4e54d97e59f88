//! The catalog as relations a statement can select from.

pub mod absent;
pub mod agree;
pub mod contents;
pub mod relations;
pub mod snapshot;
pub mod types;
