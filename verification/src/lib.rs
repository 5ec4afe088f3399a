//! A typed client library for a remote indexing service that serves account,
//! market, order, fill, transfer and funding-history data over REST.
//!
//! The verified core is the request pipeline shared by every domain accessor:
//! validation and normalization of the endpoint host, ordered encoding of
//! query parameters from typed arguments (with optional values elided),
//! construction and validation of the full request URL, and the two-tier
//! error taxonomy that separates configuration failures from per-request
//! failures. The HTTP transport and JSON decoding sit outside this crate and
//! consume the validated URLs it produces.

pub mod camel;
pub mod constants;
pub mod errors;
pub mod indexer_client;
pub mod indexer_client_types;
pub mod params;
pub mod render;
pub mod rest;
