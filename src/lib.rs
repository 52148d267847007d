//! Confirmation resolution for cargo parcels and the liveness responder of the
//! contact service.
pub mod laws;
pub mod ready;
pub mod resolver;
pub mod stage;
