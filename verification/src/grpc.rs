//! The conversions between wire messages and the model.

pub mod service;
