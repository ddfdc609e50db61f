//! Read-only browsing of a multi-table key-value store.
//!
//! The store itself lives behind an embedded storage engine; this crate holds
//! the logic of a browsing session over it: decoding the catalog of table
//! names, sizing the environment to that catalog, and collecting a bounded,
//! ordered window of entries rendered as hexadecimal text. The engine calls
//! and the terminal front end drive these functions from outside.

pub mod browser;
pub mod catalog;
pub mod codec;
pub mod errors;
