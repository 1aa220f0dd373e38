use std::time::Duration;

use config::{Config, File, FileFormat};
use zero2prod::configuration::loader::read_entries;
use zero2prod::configuration::{
    get_configuration, DatabaseSettings, EmailClientSettings, Environment, Field, Secret,
    Settings, SettingsEntries, SettingsError,
};

const BASE: &str = "
application:
  port: 8000
  host: 0.0.0.0
  base_url: http://127.0.0.1
database:
  host: localhost
  port: 5432
  username: postgres
  password: password
  database_name: newsletter
email_client:
  base_url: localhost
  sender_email: test@gmail.com
  authorization_token: my-secret-token
  timeout_milliseconds: 10000
";

fn merged(documents: &[&str]) -> Config {
    let mut source = Config::default();
    for document in documents {
        source.merge(File::from_str(document, FileFormat::Yaml)).expect("the document parses");
    }
    source
}

fn complete_entries() -> SettingsEntries {
    SettingsEntries {
        database_username: Some("postgres".to_string()),
        database_password: Some(Secret::new("password".to_string())),
        database_port: Some(5432),
        database_host: Some("localhost".to_string()),
        database_name: Some("newsletter".to_string()),
        application_port: Some(8000),
        application_host: Some("0.0.0.0".to_string()),
        application_base_url: Some("http://127.0.0.1".to_string()),
        email_client_base_url: Some("localhost".to_string()),
        email_client_sender_email: Some("test@gmail.com".to_string()),
        email_client_authorization_token: Some(Secret::new("my-secret-token".to_string())),
        email_client_timeout_milliseconds: Some(10000),
    }
}

fn error_of(loaded: Result<Settings, SettingsError>) -> SettingsError {
    match loaded {
        Ok(_) => panic!("the settings loaded"),
        Err(error) => error,
    }
}

#[test]
fn environment_names_are_lowercase() {
    assert_eq!(Environment::Local.as_str(), "local");
    assert_eq!(Environment::Production.as_str(), "production");
}

#[test]
fn environment_parses_in_any_case() {
    assert_eq!(Environment::try_from("LOCAL".to_string()), Ok(Environment::Local));
    assert_eq!(Environment::try_from("local".to_string()), Ok(Environment::Local));
    assert_eq!(Environment::try_from("Production".to_string()), Ok(Environment::Production));
    assert_eq!(Environment::try_from("pRoDuCtIoN".to_string()), Ok(Environment::Production));
}

#[test]
fn environment_converts_with_try_into() {
    let parsed: Result<Environment, String> = "Local".to_string().try_into();
    assert_eq!(parsed, Ok(Environment::Local));
}

#[test]
fn unknown_environment_is_rejected_with_a_message() {
    assert_eq!(
        Environment::try_from("staging".to_string()),
        Err("staging is not a supported environment. try `local` or `production`.".to_string())
    );
}

#[test]
fn rejection_quotes_the_lowercase_form() {
    assert_eq!(
        Environment::try_from("STAGING".to_string()),
        Err("staging is not a supported environment. try `local` or `production`.".to_string())
    );
}

#[test]
fn empty_environment_is_rejected() {
    assert_eq!(
        Environment::try_from(String::new()),
        Err(" is not a supported environment. try `local` or `production`.".to_string())
    );
}

#[test]
fn environment_with_surrounding_space_is_rejected() {
    assert!(Environment::try_from(" local".to_string()).is_err());
    assert!(Environment::try_from("local ".to_string()).is_err());
}

#[test]
fn from_name_matches_exactly() {
    assert_eq!(Environment::from_name("local".to_string()), Ok(Environment::Local));
    assert_eq!(Environment::from_name("production".to_string()), Ok(Environment::Production));
    assert_eq!(
        Environment::from_name("Local".to_string()),
        Err("Local is not a supported environment. try `local` or `production`.".to_string())
    );
}

#[test]
fn unset_variable_selects_local() {
    assert_eq!(Environment::from_variable(None), Ok(Environment::Local));
}

#[test]
fn set_variable_selects_the_named_environment() {
    assert_eq!(
        Environment::from_variable(Some("PRODUCTION".to_string())),
        Ok(Environment::Production)
    );
    assert_eq!(Environment::from_variable(Some("local".to_string())), Ok(Environment::Local));
}

#[test]
fn set_variable_with_unknown_value_is_an_error() {
    assert_eq!(
        Environment::from_variable(Some("Staging".to_string())),
        Err("staging is not a supported environment. try `local` or `production`.".to_string())
    );
}

#[test]
fn field_keys_are_dotted_paths() {
    assert_eq!(Field::DatabaseUsername.key(), "database.username");
    assert_eq!(Field::DatabasePassword.key(), "database.password");
    assert_eq!(Field::DatabasePort.key(), "database.port");
    assert_eq!(Field::DatabaseHost.key(), "database.host");
    assert_eq!(Field::DatabaseName.key(), "database.database_name");
    assert_eq!(Field::ApplicationPort.key(), "application.port");
    assert_eq!(Field::ApplicationHost.key(), "application.host");
    assert_eq!(Field::ApplicationBaseUrl.key(), "application.base_url");
    assert_eq!(Field::EmailClientBaseUrl.key(), "email_client.base_url");
    assert_eq!(Field::EmailClientSenderEmail.key(), "email_client.sender_email");
    assert_eq!(Field::EmailClientAuthorizationToken.key(), "email_client.authorization_token");
    assert_eq!(
        Field::EmailClientTimeoutMilliseconds.key(),
        "email_client.timeout_milliseconds"
    );
}

#[test]
fn base_document_alone_gives_the_settings() {
    let settings = get_configuration(&merged(&[BASE])).expect("the settings load");
    assert_eq!(settings.database.username, "postgres");
    assert_eq!(settings.database.password.expose_secret(), "password");
    assert_eq!(settings.database.port, 5432);
    assert_eq!(settings.database.host, "localhost");
    assert_eq!(settings.database.database_name, "newsletter");
    assert_eq!(settings.application.port, 8000);
    assert_eq!(settings.application.host, "0.0.0.0");
    assert_eq!(settings.application.base_url, "http://127.0.0.1");
    assert_eq!(settings.email_client.base_url, "localhost");
    assert_eq!(settings.email_client.sender_email, "test@gmail.com");
    assert_eq!(settings.email_client.authorization_token.expose_secret(), "my-secret-token");
    assert_eq!(settings.email_client.timeout_milliseconds, 10000);
}

#[test]
fn override_wins_and_base_is_kept_elsewhere() {
    let overlay = "
database:
  host: prod-db
";
    let settings = get_configuration(&merged(&[BASE, overlay])).expect("the settings load");
    assert_eq!(settings.database.port, 5432);
    assert_eq!(settings.database.host, "prod-db");
    assert_eq!(settings.database.username, "postgres");
    assert_eq!(settings.application.port, 8000);
}

#[test]
fn override_may_complete_the_base() {
    let base = "
application:
  port: 8000
database:
  host: localhost
  port: 5432
  username: postgres
  password: password
  database_name: newsletter
email_client:
  base_url: localhost
  sender_email: test@gmail.com
  authorization_token: my-secret-token
  timeout_milliseconds: 10000
";
    let overlay = "
application:
  host: 127.0.0.1
  base_url: http://127.0.0.1
";
    assert_eq!(
        error_of(get_configuration(&merged(&[base]))),
        SettingsError::Missing(Field::ApplicationHost)
    );
    let settings = get_configuration(&merged(&[base, overlay])).expect("the settings load");
    assert_eq!(settings.application.host, "127.0.0.1");
    assert_eq!(settings.application.base_url, "http://127.0.0.1");
    assert_eq!(settings.application.port, 8000);
}

#[test]
fn empty_source_misses_the_first_field() {
    assert_eq!(
        error_of(get_configuration(&Config::default())),
        SettingsError::Missing(Field::DatabaseUsername)
    );
}

#[test]
fn text_in_place_of_a_port_is_a_missing_port() {
    let overlay = "
database:
  port: not-a-number
";
    assert_eq!(
        error_of(get_configuration(&merged(&[BASE, overlay]))),
        SettingsError::Missing(Field::DatabasePort)
    );
}

#[test]
fn table_in_place_of_a_text_is_a_missing_text() {
    let overlay = "
application:
  host:
    name: localhost
";
    assert_eq!(
        error_of(get_configuration(&merged(&[BASE, overlay]))),
        SettingsError::Missing(Field::ApplicationHost)
    );
}

#[test]
fn port_beyond_sixteen_bits_is_out_of_range() {
    let overlay = "
application:
  port: 65536
";
    assert_eq!(
        error_of(get_configuration(&merged(&[BASE, overlay]))),
        SettingsError::OutOfRange(Field::ApplicationPort)
    );
}

#[test]
fn largest_port_is_accepted() {
    let overlay = "
application:
  port: 65535
database:
  port: 0
";
    let settings = get_configuration(&merged(&[BASE, overlay])).expect("the settings load");
    assert_eq!(settings.application.port, 65535);
    assert_eq!(settings.database.port, 0);
}

#[test]
fn negative_timeout_is_out_of_range() {
    let overlay = "
email_client:
  timeout_milliseconds: -1
";
    assert_eq!(
        error_of(get_configuration(&merged(&[BASE, overlay]))),
        SettingsError::OutOfRange(Field::EmailClientTimeoutMilliseconds)
    );
}

#[test]
fn json_and_toml_documents_merge_as_well() {
    let mut source = Config::default();
    source.merge(File::from_str(BASE, FileFormat::Yaml)).expect("the document parses");
    source
        .merge(File::from_str("{\"database\": {\"port\": 6543}}", FileFormat::Json))
        .expect("the document parses");
    source
        .merge(File::from_str("[application]\nhost = \"example.org\"\n", FileFormat::Toml))
        .expect("the document parses");
    let settings = get_configuration(&source).expect("the settings load");
    assert_eq!(settings.database.port, 6543);
    assert_eq!(settings.application.host, "example.org");
    assert_eq!(settings.database.host, "localhost");
}

#[test]
fn entries_are_read_under_their_keys() {
    let overlay = "
database:
  port: 70000
application:
  host:
    - a list
";
    let entries = read_entries(&merged(&[BASE, overlay]));
    assert_eq!(entries.database_username, Some("postgres".to_string()));
    assert_eq!(
        entries.database_password.as_ref().map(|secret| secret.expose_secret().clone()),
        Some("password".to_string())
    );
    assert_eq!(entries.database_port, Some(70000));
    assert_eq!(entries.database_host, Some("localhost".to_string()));
    assert_eq!(entries.database_name, Some("newsletter".to_string()));
    assert_eq!(entries.application_port, Some(8000));
    assert_eq!(entries.application_host, None);
    assert_eq!(entries.application_base_url, Some("http://127.0.0.1".to_string()));
    assert_eq!(entries.email_client_base_url, Some("localhost".to_string()));
    assert_eq!(entries.email_client_sender_email, Some("test@gmail.com".to_string()));
    assert_eq!(
        entries
            .email_client_authorization_token
            .as_ref()
            .map(|secret| secret.expose_secret().clone()),
        Some("my-secret-token".to_string())
    );
    assert_eq!(entries.email_client_timeout_milliseconds, Some(10000));
}

#[test]
fn complete_entries_give_the_settings() {
    let settings = Settings::from_entries(complete_entries()).expect("the settings load");
    assert_eq!(settings.database.username, "postgres");
    assert_eq!(settings.database.password.expose_secret(), "password");
    assert_eq!(settings.database.port, 5432);
    assert_eq!(settings.database.host, "localhost");
    assert_eq!(settings.database.database_name, "newsletter");
    assert_eq!(settings.application.port, 8000);
    assert_eq!(settings.application.host, "0.0.0.0");
    assert_eq!(settings.application.base_url, "http://127.0.0.1");
    assert_eq!(settings.email_client.base_url, "localhost");
    assert_eq!(settings.email_client.sender_email, "test@gmail.com");
    assert_eq!(settings.email_client.authorization_token.expose_secret(), "my-secret-token");
    assert_eq!(settings.email_client.timeout_milliseconds, 10000);
}

#[test]
fn each_missing_entry_is_reported() {
    let mut entries = complete_entries();
    entries.database_username = None;
    assert_eq!(
        error_of(Settings::from_entries(entries)),
        SettingsError::Missing(Field::DatabaseUsername)
    );
    let mut entries = complete_entries();
    entries.database_password = None;
    assert_eq!(
        error_of(Settings::from_entries(entries)),
        SettingsError::Missing(Field::DatabasePassword)
    );
    let mut entries = complete_entries();
    entries.database_port = None;
    assert_eq!(
        error_of(Settings::from_entries(entries)),
        SettingsError::Missing(Field::DatabasePort)
    );
    let mut entries = complete_entries();
    entries.database_host = None;
    assert_eq!(
        error_of(Settings::from_entries(entries)),
        SettingsError::Missing(Field::DatabaseHost)
    );
    let mut entries = complete_entries();
    entries.database_name = None;
    assert_eq!(
        error_of(Settings::from_entries(entries)),
        SettingsError::Missing(Field::DatabaseName)
    );
    let mut entries = complete_entries();
    entries.application_port = None;
    assert_eq!(
        error_of(Settings::from_entries(entries)),
        SettingsError::Missing(Field::ApplicationPort)
    );
    let mut entries = complete_entries();
    entries.application_host = None;
    assert_eq!(
        error_of(Settings::from_entries(entries)),
        SettingsError::Missing(Field::ApplicationHost)
    );
    let mut entries = complete_entries();
    entries.application_base_url = None;
    assert_eq!(
        error_of(Settings::from_entries(entries)),
        SettingsError::Missing(Field::ApplicationBaseUrl)
    );
    let mut entries = complete_entries();
    entries.email_client_base_url = None;
    assert_eq!(
        error_of(Settings::from_entries(entries)),
        SettingsError::Missing(Field::EmailClientBaseUrl)
    );
    let mut entries = complete_entries();
    entries.email_client_sender_email = None;
    assert_eq!(
        error_of(Settings::from_entries(entries)),
        SettingsError::Missing(Field::EmailClientSenderEmail)
    );
    let mut entries = complete_entries();
    entries.email_client_authorization_token = None;
    assert_eq!(
        error_of(Settings::from_entries(entries)),
        SettingsError::Missing(Field::EmailClientAuthorizationToken)
    );
    let mut entries = complete_entries();
    entries.email_client_timeout_milliseconds = None;
    assert_eq!(
        error_of(Settings::from_entries(entries)),
        SettingsError::Missing(Field::EmailClientTimeoutMilliseconds)
    );
}

#[test]
fn first_defect_in_field_order_is_reported() {
    let mut entries = complete_entries();
    entries.database_port = Some(-1);
    entries.database_host = None;
    entries.application_port = Some(70000);
    assert_eq!(
        error_of(Settings::from_entries(entries)),
        SettingsError::OutOfRange(Field::DatabasePort)
    );
    let mut entries = complete_entries();
    entries.database_password = None;
    entries.database_port = Some(-1);
    assert_eq!(
        error_of(Settings::from_entries(entries)),
        SettingsError::Missing(Field::DatabasePassword)
    );
}

#[test]
fn numbers_at_the_edges_of_their_fields() {
    let mut entries = complete_entries();
    entries.database_port = Some(0);
    entries.application_port = Some(65535);
    entries.email_client_timeout_milliseconds = Some(i64::MAX);
    let settings = Settings::from_entries(entries).expect("the settings load");
    assert_eq!(settings.database.port, 0);
    assert_eq!(settings.application.port, 65535);
    assert_eq!(settings.email_client.timeout_milliseconds, 9223372036854775807);

    let mut entries = complete_entries();
    entries.application_port = Some(65536);
    assert_eq!(
        error_of(Settings::from_entries(entries)),
        SettingsError::OutOfRange(Field::ApplicationPort)
    );
    let mut entries = complete_entries();
    entries.email_client_timeout_milliseconds = Some(i64::MIN);
    assert_eq!(
        error_of(Settings::from_entries(entries)),
        SettingsError::OutOfRange(Field::EmailClientTimeoutMilliseconds)
    );
}

#[test]
fn secret_renders_as_the_placeholder() {
    let secret = Secret::new("hunter2-and-more".to_string());
    assert_eq!(secret.redacted(), "[REDACTED]");
    assert!(!secret.redacted().contains("hunter2-and-more"));
    assert!(!secret.redacted().contains("hunter2"));
}

#[test]
fn secrets_render_alike() {
    let first = Secret::new("first".to_string());
    let second = Secret::new(String::new());
    assert_eq!(first.redacted(), second.redacted());
}

#[test]
fn secret_is_exposed_on_request() {
    let secret = Secret::new("hunter2".to_string());
    assert_eq!(secret.expose_secret(), "hunter2");
    assert_eq!(secret.clone().expose_secret(), "hunter2");
}

fn database() -> DatabaseSettings {
    DatabaseSettings {
        username: "postgres".to_string(),
        password: Secret::new("password".to_string()),
        port: 5432,
        host: "localhost".to_string(),
        database_name: "newsletter".to_string(),
    }
}

#[test]
fn connection_without_database_names_none() {
    let options = database().without_db();
    assert_eq!(options.host, "localhost");
    assert_eq!(options.username, "postgres");
    assert_eq!(options.password.expose_secret(), "password");
    assert_eq!(options.port, 5432);
    assert_eq!(options.database, None);
}

#[test]
fn connection_with_database_names_it() {
    let options = database().with_db();
    assert_eq!(options.host, "localhost");
    assert_eq!(options.username, "postgres");
    assert_eq!(options.password.expose_secret(), "password");
    assert_eq!(options.port, 5432);
    assert_eq!(options.database, Some("newsletter".to_string()));
}

fn email_client(sender_email: &str, timeout_milliseconds: u64) -> EmailClientSettings {
    EmailClientSettings {
        base_url: "localhost".to_string(),
        sender_email: sender_email.to_string(),
        authorization_token: Secret::new("my-secret-token".to_string()),
        timeout_milliseconds,
    }
}

#[test]
fn timeout_counts_milliseconds() {
    assert_eq!(email_client("test@gmail.com", 10000).timeout(), Duration::from_secs(10));
    assert_eq!(email_client("test@gmail.com", 1).timeout().as_micros(), 1000);
    assert_eq!(email_client("test@gmail.com", 0).timeout(), Duration::ZERO);
}

#[test]
fn sender_is_the_configured_address() {
    let sender = email_client("test@gmail.com", 10000).sender().expect("the address is valid");
    assert_eq!(sender.as_str(), "test@gmail.com");
}

#[test]
fn malformed_sender_is_rejected() {
    match email_client("not an address", 10000).sender() {
        Ok(_) => panic!("the address was accepted"),
        Err(message) => assert_eq!(message, "not an address is not a valid subscriber email."),
    }
}

#[test]
fn cloned_settings_hold_the_same_values() {
    let settings = Settings::from_entries(complete_entries()).expect("the settings load");
    let copy = settings.clone();
    assert_eq!(copy.database.username, settings.database.username);
    assert_eq!(copy.database.password.expose_secret(), "password");
    assert_eq!(copy.database.port, 5432);
    assert_eq!(copy.application.base_url, "http://127.0.0.1");
    assert_eq!(copy.email_client.authorization_token.expose_secret(), "my-secret-token");
    assert_eq!(copy.email_client.timeout_milliseconds, 10000);
}
