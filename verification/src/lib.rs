//! A connector that exposes a remote GraphQL project-management API as
//! queryable row-oriented tables: it translates a table scan request
//! (object name, column list, predicates) into one GraphQL query, and
//! turns the JSON response back into typed rows.

pub mod catalog;
pub mod coerce;
pub mod error;
pub mod json;
pub mod laws;
pub mod names;
pub mod predicate;
pub mod query;
pub mod relations;
pub mod response;
pub mod scan;
pub mod timestamp;
