//! Access control and lifecycle rules of a small media host: who may upload,
//! fetch and delete media, who may register and delete accounts, and how the
//! deletion of an account takes its media with it.

pub mod access;
pub mod endpoints;
pub mod guarantees;
pub mod ident;
pub mod keys;
pub mod messages;
pub mod model;
pub mod sniff;
pub mod store;
pub mod table;
pub mod text;
