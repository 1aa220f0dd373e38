//! The settings of the service: a fixed shape, read once at start.

use crate::configuration::secret::Secret;
use crate::domain::subscriber_email::{is_email, rejection, SubscriberEmail};
use std::time::Duration;
use vstd::prelude::*;

verus! {

/// Where and as whom the service reaches its database.
pub struct DatabaseSettings {
    pub username: String,
    pub password: Secret,
    pub port: u16,
    pub host: String,
    pub database_name: String,
}

/// Where the service itself listens and how the outside world reaches it.
pub struct ApplicationSettings {
    pub port: u16,
    pub host: String,
    pub base_url: String,
}

/// How the service reaches the provider that sends its emails.
pub struct EmailClientSettings {
    pub base_url: String,
    pub sender_email: String,
    pub authorization_token: Secret,
    pub timeout_milliseconds: u64,
}

/// All settings of the service.
pub struct Settings {
    pub database: DatabaseSettings,
    pub application: ApplicationSettings,
    pub email_client: EmailClientSettings,
}

/// What [`DatabaseSettings`] holds, secrets in plain text.
pub struct DatabaseSettingsView {
    pub username: Seq<char>,
    pub password: Seq<char>,
    pub port: u16,
    pub host: Seq<char>,
    pub database_name: Seq<char>,
}

/// What [`ApplicationSettings`] holds.
pub struct ApplicationSettingsView {
    pub port: u16,
    pub host: Seq<char>,
    pub base_url: Seq<char>,
}

/// What [`EmailClientSettings`] holds, secrets in plain text.
pub struct EmailClientSettingsView {
    pub base_url: Seq<char>,
    pub sender_email: Seq<char>,
    pub authorization_token: Seq<char>,
    pub timeout_milliseconds: u64,
}

/// What [`Settings`] holds.
pub struct SettingsView {
    pub database: DatabaseSettingsView,
    pub application: ApplicationSettingsView,
    pub email_client: EmailClientSettingsView,
}

impl View for DatabaseSettings {
    type V = DatabaseSettingsView;

    open spec fn view(&self) -> DatabaseSettingsView {
        DatabaseSettingsView {
            username: self.username@,
            password: self.password@,
            port: self.port,
            host: self.host@,
            database_name: self.database_name@,
        }
    }
}

impl View for ApplicationSettings {
    type V = ApplicationSettingsView;

    open spec fn view(&self) -> ApplicationSettingsView {
        ApplicationSettingsView { port: self.port, host: self.host@, base_url: self.base_url@ }
    }
}

impl View for EmailClientSettings {
    type V = EmailClientSettingsView;

    open spec fn view(&self) -> EmailClientSettingsView {
        EmailClientSettingsView {
            base_url: self.base_url@,
            sender_email: self.sender_email@,
            authorization_token: self.authorization_token@,
            timeout_milliseconds: self.timeout_milliseconds,
        }
    }
}

impl View for Settings {
    type V = SettingsView;

    open spec fn view(&self) -> SettingsView {
        SettingsView {
            database: self.database@,
            application: self.application@,
            email_client: self.email_client@,
        }
    }
}

impl Clone for DatabaseSettings {
    fn clone(&self) -> (copy: Self)
        ensures
            copy@ == self@,
    {
        DatabaseSettings {
            username: self.username.clone(),
            password: self.password.clone(),
            port: self.port,
            host: self.host.clone(),
            database_name: self.database_name.clone(),
        }
    }
}

impl Clone for ApplicationSettings {
    fn clone(&self) -> (copy: Self)
        ensures
            copy@ == self@,
    {
        ApplicationSettings {
            port: self.port,
            host: self.host.clone(),
            base_url: self.base_url.clone(),
        }
    }
}

impl Clone for EmailClientSettings {
    fn clone(&self) -> (copy: Self)
        ensures
            copy@ == self@,
    {
        EmailClientSettings {
            base_url: self.base_url.clone(),
            sender_email: self.sender_email.clone(),
            authorization_token: self.authorization_token.clone(),
            timeout_milliseconds: self.timeout_milliseconds,
        }
    }
}

impl Clone for Settings {
    fn clone(&self) -> (copy: Self)
        ensures
            copy@ == self@,
    {
        Settings {
            database: self.database.clone(),
            application: self.application.clone(),
            email_client: self.email_client.clone(),
        }
    }
}

/// What a connection to the database is opened with. The password stays
/// wrapped until the connection is made.
pub struct ConnectOptions {
    pub host: String,
    pub username: String,
    pub password: Secret,
    pub port: u16,
    pub database: Option<String>,
}

/// What [`ConnectOptions`] holds, the password in plain text.
pub struct ConnectOptionsView {
    pub host: Seq<char>,
    pub username: Seq<char>,
    pub password: Seq<char>,
    pub port: u16,
    pub database: Option<Seq<char>>,
}

impl View for ConnectOptions {
    type V = ConnectOptionsView;

    open spec fn view(&self) -> ConnectOptionsView {
        ConnectOptionsView {
            host: self.host@,
            username: self.username@,
            password: self.password@,
            port: self.port,
            database: match self.database {
                Some(name) => Some(name@),
                None => None,
            },
        }
    }
}

impl DatabaseSettingsView {
    /// The options for a connection to the server, with no database chosen.
    pub open spec fn without_db(self) -> ConnectOptionsView {
        ConnectOptionsView {
            host: self.host,
            username: self.username,
            password: self.password,
            port: self.port,
            database: None,
        }
    }

    /// The options for a connection to the service's own database.
    pub open spec fn with_db(self) -> ConnectOptionsView {
        ConnectOptionsView { database: Some(self.database_name), ..self.without_db() }
    }
}

impl DatabaseSettings {
    /// The options for a connection to the database server that names no
    /// database, as needed to create one.
    pub fn without_db(&self) -> (options: ConnectOptions)
        ensures
            options@ == self@.without_db(),
    {
        ConnectOptions {
            host: self.host.clone(),
            username: self.username.clone(),
            password: self.password.clone(),
            port: self.port,
            database: None,
        }
    }

    /// The options for a connection to the service's own database.
    pub fn with_db(&self) -> (options: ConnectOptions)
        ensures
            options@ == self@.with_db(),
    {
        let server = self.without_db();
        ConnectOptions {
            host: server.host,
            username: server.username,
            password: server.password,
            port: server.port,
            database: Some(self.database_name.clone()),
        }
    }
}

/// The duration of the given number of milliseconds: what
/// `Duration::from_millis` returns for it.
pub uninterp spec fn duration_of_millis(milliseconds: u64) -> Duration;

/// `Duration::from_millis` makes a duration of the given number of
/// milliseconds. A `Duration` is opaque here, so the contract only gives the
/// result its name.
pub assume_specification[ Duration::from_millis ](millis: u64) -> (duration: Duration)
    ensures
        duration == duration_of_millis(millis),
;

impl EmailClientSettings {
    /// How long a request to the email provider may take.
    pub fn timeout(&self) -> (timeout: Duration)
        ensures
            timeout == duration_of_millis(self.timeout_milliseconds),
    {
        Duration::from_millis(self.timeout_milliseconds)
    }

    /// The address that the emails are sent from, if the configured text is
    /// a well-formed email address, and the message that rejects it if not.
    pub fn sender(&self) -> (sender: Result<SubscriberEmail, String>)
        ensures
            match sender {
                Ok(email) => is_email(self.sender_email@) && email@ == self.sender_email@,
                Err(message) => !is_email(self.sender_email@) && message@ == rejection(
                    self.sender_email@,
                ),
            },
    {
        SubscriberEmail::parse(self.sender_email.clone())
    }
}

} // verus!
