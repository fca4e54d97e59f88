//! The grammar of statements.

pub mod cursor;
pub mod value;
pub mod row;
pub mod predicate;
pub mod condition;
pub mod ranking;
pub mod graph;
pub mod select;
pub mod define;
pub mod write;
pub mod session;
pub mod statement;
pub mod height;
pub mod sound;
pub mod types;
pub mod namespaces;
pub mod redefine;
