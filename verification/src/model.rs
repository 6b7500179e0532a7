//! Data carried by each client handle.

pub mod data;
pub mod device_map;
