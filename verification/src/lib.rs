//! Core of a double opt-in newsletter subscription service.
//!
//! The crate holds the parts of the service that carry rules worth proving:
//! the layered configuration model and the token-based confirmation workflow.
//! Every executable function is verified against the contract in its header.

pub mod configuration;
pub mod domain;
pub mod routes;
