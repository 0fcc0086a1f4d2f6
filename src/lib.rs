//! A registry of running listeners keyed by port, with the create / list /
//! delete protocol that a management service drives under one lock.
pub mod handle;
pub mod laws;
pub mod protocol;
pub mod registry;
