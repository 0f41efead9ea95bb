//! Command dispatch and error normalisation for a cloud management client.
//!
//! A typed command is resolved against a project reference, routed to one
//! backend call, and the backend's answer is folded into one result or one
//! error with a readable message.

pub mod clients;
pub mod errors;
pub mod gateway;
pub mod model;
pub mod text;
pub mod uuids;
