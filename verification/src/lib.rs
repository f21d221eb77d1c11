//! Resolution of CI build metadata for a coverage-reporting upload.
//!
//! A coverage upload needs a flat record of build metadata: a repo token,
//! git commit information, and CI service identifiers.  Each CI provider
//! exposes these through its own set of environment variables, with its own
//! precedence rules; explicit command-line flags override anything read from
//! the environment.  This crate models the environment as a snapshot of
//! name/value pairs and proves that the resolved record is exactly the one
//! the per-provider variable tables prescribe.

pub mod cli_args;
pub mod config;
pub mod laws;
pub mod text;
