//! Token-scoped authentication and authorization gateway for a package
//! registry API.
//!
//! Given an inbound request, the gateway establishes the caller's identity
//! from session headers, resolves a named API token record scoped to that
//! identity (by human-chosen name or by raw secret value), and returns a
//! sanitized view of the record. The security-sensitive invariants — a lookup
//! never crosses identity boundaries, anonymous callers are rejected before
//! any lookup, and secrets never appear in responses — are stated as
//! contracts and proved.

pub mod gateway;
pub mod laws;
pub mod model;
pub mod store;
