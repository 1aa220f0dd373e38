//! The values that the service is about.

pub mod subscriber;
pub mod subscriber_email;

pub use subscriber::SubscriberStatus;
pub use subscriber_email::SubscriberEmail;
