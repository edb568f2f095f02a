//! The core of a proxy for the MySQL protocol: a model of SQL statements and
//! two passes over it.
//!
//! The render pass writes the SQL text of a statement to a sink, with the
//! identifiers that a render context replaces. The analysis pass hands the
//! names, data types, literal values and raw tokens of a statement to an
//! accumulator, in the order in which they are written, and stops at the
//! first that the accumulator refuses. The two passes share nothing but the
//! statement.

pub mod analyse;
pub mod context;
pub mod data_type;
pub mod ddl;
pub mod expr;
pub mod ident;
pub mod laws;
pub mod operator;
pub mod query;
pub mod reach;
pub mod rewrite;
pub mod service;
pub mod statement;
pub mod text;
pub mod tokenizer;
pub mod value;
