//! What can go wrong inside the engine and at its wire boundary.

pub mod db;
pub mod endpoint;
