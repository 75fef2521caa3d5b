//! A typed client core for a mod-hosting search API: a base-62 identifier
//! codec, the query-string encoding of search parameters, and a pull-based
//! paginator over search results.
pub mod base62;
pub mod params;
pub mod query_string;
pub mod search;
pub mod types;
mod text;
