//! Persistent configuration storage for keyboard firmware, as a set of
//! verified decision procedures.
//!
//! The crate owns every rule of the storage layer:
//!
//! - how a flash partition is cut into pages and which primitive requests
//!   a page read, erase or write takes ([`hw`]), and what those requests do
//!   to the device ([`medium`]);
//! - how the engine's "not ready" answers are turned into flash I/O and
//!   re-invocations until an operation is done ([`continuation`]);
//! - which engine commands a read, a write, a delete or the boot-time check
//!   of a service issues, and what the client is told ([`eeprom`]), with the
//!   laws that follow on a store that keeps its word ([`model`]);
//! - in which order the storage task mounts, initialises and serves
//!   ([`task`]).
//!
//! None of these functions touches a device. Each one takes the outcome of
//! the previous piece of outside work and answers with the next piece of
//! work to perform; the embedding program performs it and reports back.

pub mod continuation;
pub mod eeprom;
pub mod engine;
pub mod hw;
pub mod medium;
pub mod model;
pub mod task;
