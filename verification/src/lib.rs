//! Jen generates synthetic structured documents by rendering a template
//! against a registry of randomized helper functions.
//!
//! The library compiles and validates a template once, then hands out an
//! unbounded lazy stream of rendered documents. Helpers cover booleans,
//! bounded numerics, identifiers, timestamps, lorem text and random choice;
//! a session-scoped index counter and an optional generation limit make the
//! work distributable over several workers while still producing exactly the
//! requested number of documents.
pub mod engine;
pub mod error;
pub mod generator;
pub mod helper;
pub mod scheduler;
pub mod session;
pub mod value;
