//! Real-time fan-out core of a collaborative editing backend.
//!
//! A [`registry::ConnectionManager`] maps project identifiers to broadcast
//! topics; [`pump`] holds the decisions a connection makes for each socket
//! event; [`envelope`] defines the change events carried over the wire and
//! [`frames`] the error frames sent back to clients. [`errors`] and
//! [`models`] hold the plain request and error types around them.

pub mod envelope;
pub mod errors;
pub mod frames;
pub mod models;
pub mod pump;
pub mod registry;
