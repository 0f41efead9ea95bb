//! Commands on the API gateway.

pub mod deployment;
