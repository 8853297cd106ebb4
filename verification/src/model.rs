//! Value types of the store: keys, items, write units and tasks.

pub mod item;
pub mod partition_key;
pub mod set_value;
pub mod sort_key;
pub mod task;
pub mod write_condition;
