//! The requests that the service answers.

pub mod subscriptions_confirm;

pub use subscriptions_confirm::{confirm, ConfirmationError, Parameters};
