//! The settings of the service and the way they are selected and loaded.

pub mod environment;
pub mod field;
pub mod loader;
pub mod secret;
pub mod settings;
pub mod source;

pub use environment::Environment;
pub use field::Field;
pub use loader::{get_configuration, SettingsEntries, SettingsError};
pub use secret::Secret;
pub use settings::{
    ApplicationSettings, ConnectOptions, DatabaseSettings, EmailClientSettings, Settings,
};
