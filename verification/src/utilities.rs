//! Small helper types that own no container storage of their own.

pub mod pair;
