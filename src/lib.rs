//! One error type for the dcli family of tools: every failure of the API
//! client, the response parser, the manifest cache and the archive extractor
//! is classified into `error::Error` and rendered by a single rule.

pub mod error;
mod outside;
