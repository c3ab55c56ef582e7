//! Core of a small homepage server: bounded synthetic demo workloads and a
//! contact-form relay.
//!
//! The library covers the parts of the server with real input handling:
//! parsing and bounds-checking an untyped request parameter, running one of
//! two bounded demo workloads (a compute-bound hashing loop, or a worker
//! suspension of a requested length), mapping each outcome onto a template
//! name with its field set, and deciding and describing the one-shot relay of
//! a contact message to a chat webhook. HTTP serving, the actual worker
//! suspension, and the outbound POST live outside the library, which hands
//! them plain values to act on.

pub mod decimal;
pub mod engine;
pub mod handler;
pub mod validate;
pub mod payload;
pub mod relay;
pub mod workload;
