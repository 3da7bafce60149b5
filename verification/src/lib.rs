//! The verified core of a cache client: a thin facade over a remote key-value
//! store.
//!
//! Nothing in this crate talks to the store. A [`cache::Cache`] owns the
//! connection and lends it out; each of its operations says which command the
//! store is to carry out and what the caller receives for the store's reply.
//! The program around the crate makes the connection, carries the commands out
//! on it and hands the replies back.

pub mod cache;
pub mod diagnostic;
pub mod laws;
pub mod logger;
pub mod store;
