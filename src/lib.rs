//! Capability-checked access to a Redis instance that runs the mCaptcha
//! cache module: the command catalog, the capability check that must pass
//! before the connection is trusted, the requests of the five domain
//! commands, and the decoding of their replies into typed results.

pub mod catalog;
pub mod error;
pub mod reply;
pub mod capability;
pub mod request;
pub mod connection;
pub mod model;
