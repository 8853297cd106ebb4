//! A single-node key-value store addressed by a partition key and an ordered
//! sort key, persisted in SQLite, with writes guarded by a per-item version.
//!
//! The crate holds the engine: the key and item model, the translation of
//! get / set / list into statements, the processor that executes one task at
//! a time on the connection it owns, and the conversions between wire
//! messages and the model. Channels, the runtime and the network listener
//! belong to the program that hosts the engine.

pub mod error;
pub mod grpc;
pub mod model;
pub mod proto;
pub mod repository;
pub mod rule;
