//! Virtual memory: page arithmetic, permissions, address spaces, and the
//! meaning of requests to map and to unmap.
pub mod address;
pub mod mapping;
pub mod memory_set;
pub mod permission;
