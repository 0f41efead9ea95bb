//! The interfaces of the API gateway.

pub mod deployment;
