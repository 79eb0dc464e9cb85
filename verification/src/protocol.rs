//! The wire protocol: byte layout, descriptors, and the client that plans
//! control transactions.

pub mod client;
pub mod injection;
pub mod wire;
