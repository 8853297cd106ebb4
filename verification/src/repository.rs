//! The engine: statements against SQLite, the processor that runs tasks on
//! the connection it owns, and what a caller makes of a reply.

pub mod processor;
pub mod query_shim;
pub mod repository;
pub mod sqlite;
