//! A request-payload extraction-and-validation layer: decode an incoming
//! body or query string into a typed value, run semantic validation rules
//! against it, and either hand the caller a read-only validated wrapper or
//! a structured error with a deterministic JSON rendering.

pub mod report;
pub mod error;
pub mod config;
pub mod render;
pub mod extract;
