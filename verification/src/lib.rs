//! The core of a single-origin caching reverse proxy: the host gate, the
//! construction of origin requests, the in-memory response cache keyed by
//! method and path, and the per-request decisions that tie them together.
//!
//! The library performs no I/O. A server hands it parsed requests and the
//! outcome of origin fetches as plain values and acts on what it returns.

pub mod cache;
pub mod config;
pub mod error;
pub mod host_gate;
pub mod laws;
pub mod message;
pub mod origin;
pub mod proxy;
