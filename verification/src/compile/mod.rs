//! From a parsed statement to a plan.

pub mod aggregate;
pub mod again;
pub mod altered;
pub mod answer;
pub mod bind;
pub mod constants;
pub mod ddl;
pub mod define;
pub mod describe;
pub mod dml;
pub mod env;
pub mod geometry;
pub mod graph;
pub mod indexed;
pub mod listed;
pub mod listing;
pub mod log;
pub mod modify;
pub mod order;
pub mod ordered;
pub mod plan;
pub mod predicates;
pub mod project;
pub mod ranges;
pub mod reads;
pub mod places;
pub mod rebind;
pub mod request;
pub mod row;
pub mod rows;
pub mod run;
pub mod select;
pub mod semi;
pub mod show;
pub mod slots;
pub mod statement;
pub mod tight;
pub mod views;
pub mod windows;
