//! Authenticated query clients for an issue tracker, a bookmarking service
//! and a graph-query endpoint: credential resolution, request construction,
//! response validation, and decoding of typed JSON results into domain
//! objects. The HTTP transport itself is left to the caller, which hands the
//! completed response back to the response handlers defined here.

pub mod config;
pub mod error;
pub mod http_util;
pub mod jira;
pub mod json;
pub mod pocket;
pub mod sparql;
pub mod strutil;
