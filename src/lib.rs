//! A query builder for a graph database: comparisons, filters and nested traversal queries
//! rendered to query-language text, with the batched cursor over their results.
pub mod comparison;
pub mod cursor;
pub mod error;
pub mod filter;
pub mod graph_query;
pub mod query;
pub mod query_result;
pub mod text;
pub mod update;

pub use error::{ArangoHttpError, Error};
pub use update::Update;
