//! What statements mean, apart from how they are compiled, and the laws that
//! compiling keeps the meaning.

pub mod row;
pub mod condition;
pub mod places;
pub mod patterns;
pub mod scores;
pub mod groups;
pub mod writes;
pub mod expressions;
pub mod texts;
pub mod selects;
pub mod grammar;
pub mod catalogs;
pub mod requests;
pub mod values;
pub mod tables;
pub mod phrases;
pub mod statements;
