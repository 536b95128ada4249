//! The read and write model over the external key-value store: key spaces,
//! key formats, and the record types the controller persists.

pub mod opdb;
pub mod rocks;
