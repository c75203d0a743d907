//! A grammar-driven parser for SQL `CREATE TABLE` statements, together with a
//! reserved-keyword recognizer usable across a SQL front end.
//!
//! Every grammar rule is a pure function from an input byte slice and a start
//! position to an outcome: success with the position of the unconsumed
//! remainder and the parsed value, a structured failure, or a report that more
//! input is needed. Each executable rule is verified against a specification
//! function that defines the grammar mathematically.

pub mod ast;
pub mod common;
pub mod create;
pub mod keywords;
pub mod outcome;
pub mod text;
