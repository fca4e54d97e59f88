//! The statement language of an embedded multi-model database.

pub mod ast;
pub mod calendar;
pub mod catalog;
pub mod compile;
pub mod debug;
pub mod decimal;
pub mod error;
pub mod explain;
pub mod guc;
pub mod idset;
pub mod instant;
pub mod iso;
pub mod json;
pub mod lists;
pub mod meaning;
pub mod named;
pub mod number;
pub mod parser;
pub mod prepare;
pub mod refuse;
pub mod result;
pub mod scan;
pub mod stmt;
pub mod strings;
pub mod text;
pub mod timestamp;
pub mod token;
pub mod value;
