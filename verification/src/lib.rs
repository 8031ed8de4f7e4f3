//! A schema-driven client library for a remote HTTP API.
//!
//! The library turns a declarative catalogue of resources and operations
//! into fully resolved HTTP requests: it binds supplied parameter values
//! into a path, query pairs and header pairs, resolves a request body,
//! selects credentials for each physical call (with one automatic
//! fallback from an API key to a bearer token on an authorization
//! failure), retries a versioned API path once against the previous
//! version when the response looks like an HTML page, and finally
//! rejects HTML responses to API paths as a configuration error.
//!
//! All I/O (argument parsing, reading body input, the HTTP transport)
//! lives outside this crate; the library exposes pure decision functions
//! and a request flow state machine that a driver feeds with responses.

pub mod args;
pub mod auth;
pub mod binder;
pub mod body;
pub mod catalogue;
pub mod chars;
pub mod encode;
pub mod errors;
pub mod flow;
pub mod jsonio;
pub mod response;
pub mod text;
pub mod urlio;
