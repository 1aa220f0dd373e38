//! Reading the settings out of the merged configuration documents.

use crate::configuration::field::Field;
use crate::configuration::secret::Secret;
use crate::configuration::settings::{
    ApplicationSettings, ApplicationSettingsView, DatabaseSettings, DatabaseSettingsView,
    EmailClientSettings, EmailClientSettingsView, Settings, SettingsView,
};
use crate::configuration::source::{integer_entries, lookup_integer, lookup_text, text_entries};
use vstd::prelude::*;

verus! {

/// Why the documents do not give the settings.
#[derive(Clone, Copy, Debug, PartialEq, Eq, Structural)]
pub enum SettingsError {
    /// The documents hold no value of the field's type under the field's key.
    Missing(Field),
    /// The number under the field's key does not fit the field.
    OutOfRange(Field),
}

/// What the documents hold under the key of each field: `None` where they
/// hold no value of the field's type. The two secrets are wrapped as soon as
/// they are read.
pub struct SettingsEntries {
    pub database_username: Option<String>,
    pub database_password: Option<Secret>,
    pub database_port: Option<i64>,
    pub database_host: Option<String>,
    pub database_name: Option<String>,
    pub application_port: Option<i64>,
    pub application_host: Option<String>,
    pub application_base_url: Option<String>,
    pub email_client_base_url: Option<String>,
    pub email_client_sender_email: Option<String>,
    pub email_client_authorization_token: Option<Secret>,
    pub email_client_timeout_milliseconds: Option<i64>,
}

/// What [`SettingsEntries`] holds, secrets in plain text.
pub struct SettingsEntriesView {
    pub database_username: Option<Seq<char>>,
    pub database_password: Option<Seq<char>>,
    pub database_port: Option<i64>,
    pub database_host: Option<Seq<char>>,
    pub database_name: Option<Seq<char>>,
    pub application_port: Option<i64>,
    pub application_host: Option<Seq<char>>,
    pub application_base_url: Option<Seq<char>>,
    pub email_client_base_url: Option<Seq<char>>,
    pub email_client_sender_email: Option<Seq<char>>,
    pub email_client_authorization_token: Option<Seq<char>>,
    pub email_client_timeout_milliseconds: Option<i64>,
}

/// The characters of an optional text.
pub open spec fn text_view(text: Option<String>) -> Option<Seq<char>> {
    match text {
        Some(text) => Some(text@),
        None => None,
    }
}

/// The plain text of an optional secret.
pub open spec fn secret_view(secret: Option<Secret>) -> Option<Seq<char>> {
    match secret {
        Some(secret) => Some(secret@),
        None => None,
    }
}

impl View for SettingsEntries {
    type V = SettingsEntriesView;

    open spec fn view(&self) -> SettingsEntriesView {
        SettingsEntriesView {
            database_username: text_view(self.database_username),
            database_password: secret_view(self.database_password),
            database_port: self.database_port,
            database_host: text_view(self.database_host),
            database_name: text_view(self.database_name),
            application_port: self.application_port,
            application_host: text_view(self.application_host),
            application_base_url: text_view(self.application_base_url),
            email_client_base_url: text_view(self.email_client_base_url),
            email_client_sender_email: text_view(self.email_client_sender_email),
            email_client_authorization_token: secret_view(
                self.email_client_authorization_token,
            ),
            email_client_timeout_milliseconds: self.email_client_timeout_milliseconds,
        }
    }
}

/// The first of two optional errors.
pub open spec fn first_of(first: Option<SettingsError>, second: Option<SettingsError>) -> Option<
    SettingsError,
> {
    if first is Some {
        first
    } else {
        second
    }
}

impl SettingsEntriesView {
    /// The text under the key of `field`, if the field holds text.
    pub open spec fn text(self, field: Field) -> Option<Seq<char>> {
        match field {
            Field::DatabaseUsername => self.database_username,
            Field::DatabasePassword => self.database_password,
            Field::DatabaseHost => self.database_host,
            Field::DatabaseName => self.database_name,
            Field::ApplicationHost => self.application_host,
            Field::ApplicationBaseUrl => self.application_base_url,
            Field::EmailClientBaseUrl => self.email_client_base_url,
            Field::EmailClientSenderEmail => self.email_client_sender_email,
            Field::EmailClientAuthorizationToken => self.email_client_authorization_token,
            _ => None,
        }
    }

    /// The number under the key of `field`, if the field holds a number.
    pub open spec fn number(self, field: Field) -> Option<i64> {
        match field {
            Field::DatabasePort => self.database_port,
            Field::ApplicationPort => self.application_port,
            Field::EmailClientTimeoutMilliseconds => self.email_client_timeout_milliseconds,
            _ => None,
        }
    }

    /// What is wrong with `field`, if anything: its value is missing, or is a
    /// number that is negative or too large for the field.
    pub open spec fn defect(self, field: Field) -> Option<SettingsError> {
        if field.is_number() {
            match self.number(field) {
                None => Some(SettingsError::Missing(field)),
                Some(number) => if 0 <= number <= field.largest() {
                    None
                } else {
                    Some(SettingsError::OutOfRange(field))
                },
            }
        } else if self.text(field) is None {
            Some(SettingsError::Missing(field))
        } else {
            None
        }
    }

    /// The defect of the first field, in the order of [`Field`], that has one.
    pub open spec fn first_defect(self) -> Option<SettingsError> {
        first_of(
            self.defect(Field::DatabaseUsername),
            first_of(
                self.defect(Field::DatabasePassword),
                first_of(
                    self.defect(Field::DatabasePort),
                    first_of(
                        self.defect(Field::DatabaseHost),
                        first_of(
                            self.defect(Field::DatabaseName),
                            first_of(
                                self.defect(Field::ApplicationPort),
                                first_of(
                                    self.defect(Field::ApplicationHost),
                                    first_of(
                                        self.defect(Field::ApplicationBaseUrl),
                                        first_of(
                                            self.defect(Field::EmailClientBaseUrl),
                                            first_of(
                                                self.defect(Field::EmailClientSenderEmail),
                                                first_of(
                                                    self.defect(
                                                        Field::EmailClientAuthorizationToken,
                                                    ),
                                                    self.defect(
                                                        Field::EmailClientTimeoutMilliseconds,
                                                    ),
                                                ),
                                            ),
                                        ),
                                    ),
                                ),
                            ),
                        ),
                    ),
                ),
            ),
        )
    }

    /// The settings that the entries give, where no field has a defect.
    pub open spec fn settings(self) -> SettingsView {
        SettingsView {
            database: DatabaseSettingsView {
                username: self.database_username.unwrap(),
                password: self.database_password.unwrap(),
                port: self.database_port.unwrap() as u16,
                host: self.database_host.unwrap(),
                database_name: self.database_name.unwrap(),
            },
            application: ApplicationSettingsView {
                port: self.application_port.unwrap() as u16,
                host: self.application_host.unwrap(),
                base_url: self.application_base_url.unwrap(),
            },
            email_client: EmailClientSettingsView {
                base_url: self.email_client_base_url.unwrap(),
                sender_email: self.email_client_sender_email.unwrap(),
                authorization_token: self.email_client_authorization_token.unwrap(),
                timeout_milliseconds: self.email_client_timeout_milliseconds.unwrap() as u64,
            },
        }
    }

    /// The settings that the entries give, or the first defect that keeps
    /// them from giving any.
    pub open spec fn assemble(self) -> Result<SettingsView, SettingsError> {
        match self.first_defect() {
            Some(defect) => Err(defect),
            None => Ok(self.settings()),
        }
    }
}

/// The settings load exactly when no field has a defect, and with the
/// values of the entries; the error of a failed load is the defect of a
/// field before which no field has one.
pub proof fn lemma_first_defect_is_reported(entries: SettingsEntriesView)
    ensures
        match entries.assemble() {
            Ok(settings) => settings == entries.settings() && forall|field: Field|
                (#[trigger] entries.defect(field)) is None,
            Err(error) => exists|field: Field|
                #[trigger] entries.defect(field) == Some(error) && forall|earlier: Field|
                    earlier.position() < field.position() ==> (#[trigger] entries.defect(
                        earlier,
                    )) is None,
        },
{
    match entries.first_defect() {
        None => {},
        Some(error) => {
            let field = match error {
                SettingsError::Missing(field) => field,
                SettingsError::OutOfRange(field) => field,
            };
            assert(entries.defect(field) == Some(error));
        },
    }
}

/// What an attempt to load the settings gave.
pub open spec fn outcome_view(loaded: Result<Settings, SettingsError>) -> Result<
    SettingsView,
    SettingsError,
> {
    match loaded {
        Ok(settings) => Ok(settings@),
        Err(error) => Err(error),
    }
}

/// The text of a field, which must be there.
fn required_text(value: Option<String>, field: Field) -> (text: Result<String, SettingsError>)
    ensures
        match text {
            Ok(text) => value == Some(text),
            Err(error) => value is None && error == SettingsError::Missing(field),
        },
{
    match value {
        Some(text) => Ok(text),
        None => Err(SettingsError::Missing(field)),
    }
}

/// The secret of a field, which must be there.
fn required_secret(value: Option<Secret>, field: Field) -> (secret: Result<Secret, SettingsError>)
    ensures
        match secret {
            Ok(secret) => value == Some(secret),
            Err(error) => value is None && error == SettingsError::Missing(field),
        },
{
    match value {
        Some(secret) => Ok(secret),
        None => Err(SettingsError::Missing(field)),
    }
}

/// The port of a field, which must be there and be a port number.
fn required_port(value: Option<i64>, field: Field) -> (port: Result<u16, SettingsError>)
    ensures
        match port {
            Ok(port) => value == Some(port as i64),
            Err(error) => match value {
                None => error == SettingsError::Missing(field),
                Some(number) => !(0 <= number <= u16::MAX) && error == SettingsError::OutOfRange(
                    field,
                ),
            },
        },
{
    match value {
        None => Err(SettingsError::Missing(field)),
        Some(number) => if 0 <= number && number <= 65535 {
            Ok(number as u16)
        } else {
            Err(SettingsError::OutOfRange(field))
        },
    }
}

/// The duration of a field in milliseconds, which must be there and not be
/// negative.
fn required_milliseconds(value: Option<i64>, field: Field) -> (milliseconds: Result<
    u64,
    SettingsError,
>)
    ensures
        match milliseconds {
            Ok(milliseconds) => value == Some(milliseconds as i64) && milliseconds <= i64::MAX,
            Err(error) => match value {
                None => error == SettingsError::Missing(field),
                Some(number) => number < 0 && error == SettingsError::OutOfRange(field),
            },
        },
{
    match value {
        None => Err(SettingsError::Missing(field)),
        Some(number) => if 0 <= number {
            Ok(number as u64)
        } else {
            Err(SettingsError::OutOfRange(field))
        },
    }
}

impl Settings {
    /// Builds the settings from what the documents hold under the key of
    /// each field. Every field is required: the first one, in the order of
    /// [`Field`], whose value is missing or out of range is reported.
    pub fn from_entries(entries: SettingsEntries) -> (loaded: Result<Settings, SettingsError>)
        ensures
            outcome_view(loaded) == entries@.assemble(),
    {
        let username = required_text(entries.database_username, Field::DatabaseUsername)?;
        let password = required_secret(entries.database_password, Field::DatabasePassword)?;
        let database_port = required_port(entries.database_port, Field::DatabasePort)?;
        let database_host = required_text(entries.database_host, Field::DatabaseHost)?;
        let database_name = required_text(entries.database_name, Field::DatabaseName)?;
        let application_port = required_port(entries.application_port, Field::ApplicationPort)?;
        let application_host = required_text(entries.application_host, Field::ApplicationHost)?;
        let application_base_url = required_text(
            entries.application_base_url,
            Field::ApplicationBaseUrl,
        )?;
        let email_base_url = required_text(
            entries.email_client_base_url,
            Field::EmailClientBaseUrl,
        )?;
        let sender_email = required_text(
            entries.email_client_sender_email,
            Field::EmailClientSenderEmail,
        )?;
        let authorization_token = required_secret(
            entries.email_client_authorization_token,
            Field::EmailClientAuthorizationToken,
        )?;
        let timeout_milliseconds = required_milliseconds(
            entries.email_client_timeout_milliseconds,
            Field::EmailClientTimeoutMilliseconds,
        )?;
        Ok(
            Settings {
                database: DatabaseSettings {
                    username,
                    password,
                    port: database_port,
                    host: database_host,
                    database_name,
                },
                application: ApplicationSettings {
                    port: application_port,
                    host: application_host,
                    base_url: application_base_url,
                },
                email_client: EmailClientSettings {
                    base_url: email_base_url,
                    sender_email,
                    authorization_token,
                    timeout_milliseconds,
                },
            },
        )
    }
}

/// The text that `source` holds under the key of `field`.
pub open spec fn text_in(source: config::Config, field: Field) -> Option<Seq<char>> {
    if text_entries(source).contains_key(field.path()) {
        Some(text_entries(source)[field.path()])
    } else {
        None
    }
}

/// The number that `source` holds under the key of `field`.
pub open spec fn number_in(source: config::Config, field: Field) -> Option<i64> {
    if integer_entries(source).contains_key(field.path()) {
        Some(integer_entries(source)[field.path()])
    } else {
        None
    }
}

/// What `source` holds under the key of each field.
pub open spec fn entries_in(source: config::Config) -> SettingsEntriesView {
    SettingsEntriesView {
        database_username: text_in(source, Field::DatabaseUsername),
        database_password: text_in(source, Field::DatabasePassword),
        database_port: number_in(source, Field::DatabasePort),
        database_host: text_in(source, Field::DatabaseHost),
        database_name: text_in(source, Field::DatabaseName),
        application_port: number_in(source, Field::ApplicationPort),
        application_host: text_in(source, Field::ApplicationHost),
        application_base_url: text_in(source, Field::ApplicationBaseUrl),
        email_client_base_url: text_in(source, Field::EmailClientBaseUrl),
        email_client_sender_email: text_in(source, Field::EmailClientSenderEmail),
        email_client_authorization_token: text_in(source, Field::EmailClientAuthorizationToken),
        email_client_timeout_milliseconds: number_in(
            source,
            Field::EmailClientTimeoutMilliseconds,
        ),
    }
}

/// Reads the text under the key of `field`.
fn read_text(source: &config::Config, field: Field) -> (text: Option<String>)
    ensures
        text_view(text) == text_in(*source, field),
{
    match lookup_text(source, field.key()) {
        Ok(text) => Some(text),
        Err(_) => None,
    }
}

/// Reads the secret under the key of `field`.
fn read_secret(source: &config::Config, field: Field) -> (secret: Option<Secret>)
    ensures
        secret_view(secret) == text_in(*source, field),
{
    match lookup_text(source, field.key()) {
        Ok(text) => Some(Secret::new(text)),
        Err(_) => None,
    }
}

/// Reads the number under the key of `field`.
fn read_number(source: &config::Config, field: Field) -> (number: Option<i64>)
    ensures
        number == number_in(*source, field),
{
    match lookup_integer(source, field.key()) {
        Ok(number) => Some(number),
        Err(_) => None,
    }
}

/// Reads every field of the settings out of `source`.
pub fn read_entries(source: &config::Config) -> (entries: SettingsEntries)
    ensures
        entries@ == entries_in(*source),
{
    SettingsEntries {
        database_username: read_text(source, Field::DatabaseUsername),
        database_password: read_secret(source, Field::DatabasePassword),
        database_port: read_number(source, Field::DatabasePort),
        database_host: read_text(source, Field::DatabaseHost),
        database_name: read_text(source, Field::DatabaseName),
        application_port: read_number(source, Field::ApplicationPort),
        application_host: read_text(source, Field::ApplicationHost),
        application_base_url: read_text(source, Field::ApplicationBaseUrl),
        email_client_base_url: read_text(source, Field::EmailClientBaseUrl),
        email_client_sender_email: read_text(source, Field::EmailClientSenderEmail),
        email_client_authorization_token: read_secret(
            source,
            Field::EmailClientAuthorizationToken,
        ),
        email_client_timeout_milliseconds: read_number(
            source,
            Field::EmailClientTimeoutMilliseconds,
        ),
    }
}

/// Loads the settings from `source`, into which the base document and then
/// the document of the environment have been merged. A field that neither
/// document gives a usable value for fails the load.
pub fn get_configuration(source: &config::Config) -> (loaded: Result<Settings, SettingsError>)
    ensures
        outcome_view(loaded) == entries_in(*source).assemble(),
{
    Settings::from_entries(read_entries(source))
}

} // verus!
