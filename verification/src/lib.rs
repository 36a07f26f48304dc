//! Sequence containers with verified contracts: a fixed-capacity array, a
//! singly linked list of owned nodes, and a small two-field holder.

pub mod containers;
pub mod utilities;
