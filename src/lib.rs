//! A small store of JSON form documents keyed by an identifier.
//!
//! The HTTP service around it runs the queries against the database; this
//! library decides what each request does with what the database returned.
pub mod error;
pub mod json;
pub mod forms;
pub mod table;
