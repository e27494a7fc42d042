//! An interactive builder for `curl` command lines: a command model
//! (URL, method, headers, query parameters, body, attached options),
//! a deterministic string-building pipeline with environment-variable
//! substitution, a structural validator, an option catalog, and the
//! navigation/editing state machine that drives all mutation of the
//! model.  Terminal rendering and process execution live outside this
//! crate; everything here is pure computation with verified contracts.

pub mod app;
pub mod builder;
pub mod catalog;
pub mod cmdline;
pub mod executor;
pub mod models;
pub mod output;
pub mod strutil;
pub mod validation;
