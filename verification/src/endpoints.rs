//! The operations of the service, run against the tables in memory.

pub mod media;
pub mod user;
