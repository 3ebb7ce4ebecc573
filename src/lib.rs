//! Maps dynamically shaped SQL result rows to typed, serialisable values.
//!
//! A query returns rows whose columns are known only at run time. Each row is
//! mapped to an ordered list of `(column name, SqlResult)` entries, where
//! `SqlResult` is a closed set of tagged values; callers either serialise the
//! rows to JSON or pull native values back out through typed accessors.

pub mod api;
pub mod config;
pub mod json;
pub mod query;
pub mod row;
pub mod text;
pub mod value;
