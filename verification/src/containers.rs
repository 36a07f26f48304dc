//! The sequence containers.

pub mod array;
pub mod forward_list;
