//! The fields of the settings and their keys in the documents.

use vstd::prelude::*;

verus! {

/// The fields of the settings, in the order in which they are read.
#[derive(Clone, Copy, Debug, PartialEq, Eq, Structural)]
pub enum Field {
    DatabaseUsername,
    DatabasePassword,
    DatabasePort,
    DatabaseHost,
    DatabaseName,
    ApplicationPort,
    ApplicationHost,
    ApplicationBaseUrl,
    EmailClientBaseUrl,
    EmailClientSenderEmail,
    EmailClientAuthorizationToken,
    EmailClientTimeoutMilliseconds,
}

impl Field {
    /// The key of the field in the documents.
    pub open spec fn path(self) -> Seq<char> {
        match self {
            Field::DatabaseUsername => "database.username"@,
            Field::DatabasePassword => "database.password"@,
            Field::DatabasePort => "database.port"@,
            Field::DatabaseHost => "database.host"@,
            Field::DatabaseName => "database.database_name"@,
            Field::ApplicationPort => "application.port"@,
            Field::ApplicationHost => "application.host"@,
            Field::ApplicationBaseUrl => "application.base_url"@,
            Field::EmailClientBaseUrl => "email_client.base_url"@,
            Field::EmailClientSenderEmail => "email_client.sender_email"@,
            Field::EmailClientAuthorizationToken => "email_client.authorization_token"@,
            Field::EmailClientTimeoutMilliseconds => "email_client.timeout_milliseconds"@,
        }
    }

    /// The place of the field in the order in which the fields are read.
    pub open spec fn position(self) -> nat {
        match self {
            Field::DatabaseUsername => 0,
            Field::DatabasePassword => 1,
            Field::DatabasePort => 2,
            Field::DatabaseHost => 3,
            Field::DatabaseName => 4,
            Field::ApplicationPort => 5,
            Field::ApplicationHost => 6,
            Field::ApplicationBaseUrl => 7,
            Field::EmailClientBaseUrl => 8,
            Field::EmailClientSenderEmail => 9,
            Field::EmailClientAuthorizationToken => 10,
            Field::EmailClientTimeoutMilliseconds => 11,
        }
    }

    /// Whether the field holds a number rather than text.
    pub open spec fn is_number(self) -> bool {
        self == Field::DatabasePort || self == Field::ApplicationPort || self
            == Field::EmailClientTimeoutMilliseconds
    }

    /// The largest number that the field can hold.
    pub open spec fn largest(self) -> int {
        if self == Field::EmailClientTimeoutMilliseconds {
            i64::MAX as int
        } else {
            u16::MAX as int
        }
    }

    /// The key of the field in the documents.
    pub fn key(&self) -> (key: &'static str)
        ensures
            key@ == self.path(),
    {
        match self {
            Field::DatabaseUsername => "database.username",
            Field::DatabasePassword => "database.password",
            Field::DatabasePort => "database.port",
            Field::DatabaseHost => "database.host",
            Field::DatabaseName => "database.database_name",
            Field::ApplicationPort => "application.port",
            Field::ApplicationHost => "application.host",
            Field::ApplicationBaseUrl => "application.base_url",
            Field::EmailClientBaseUrl => "email_client.base_url",
            Field::EmailClientSenderEmail => "email_client.sender_email",
            Field::EmailClientAuthorizationToken => "email_client.authorization_token",
            Field::EmailClientTimeoutMilliseconds => "email_client.timeout_milliseconds",
        }
    }
}

/// Whether `key` is the key of a field.
pub open spec fn is_field_key(key: Seq<char>) -> bool {
    exists|field: Field| #[trigger] field.path() == key
}

} // verus!
