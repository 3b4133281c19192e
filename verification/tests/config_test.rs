use ws2mongo::config::{Config, ConfigError};

fn full_values() -> Config {
    Config::new(
        Some("ws://example.com".to_string()),
        Some("key123".to_string()),
        Some("secret123".to_string()),
        Some("mongodb://localhost:27017".to_string()),
        Some("testdb".to_string()),
        Some("testcollection".to_string()),
        Some("user".to_string()),
        Some("password".to_string()),
        Some("admin".to_string()),
        Some("SCRAM-SHA-256".to_string()),
    )
    .unwrap()
}

#[test]
fn test_config_all_env_vars_set() {
    let config = Config::new(
        Some("ws://example.com".to_string()),
        Some("key123".to_string()),
        Some("secret123".to_string()),
        Some("mongodb://localhost:27017".to_string()),
        Some("testdb".to_string()),
        Some("testcollection".to_string()),
        Some("user".to_string()),
        Some("password".to_string()),
        Some("admin".to_string()),
        Some("SCRAM-SHA-256".to_string()),
    );
    assert!(config.is_ok());

    let config = config.unwrap();
    assert_eq!(config.websocket_url, "ws://example.com");
    assert_eq!(config.websocket_api_key.unwrap(), "key123");
    assert_eq!(config.websocket_api_secret.unwrap(), "secret123");
    assert_eq!(config.mongodb_uri, "mongodb://localhost:27017");
    assert_eq!(config.database_name, "testdb");
    assert_eq!(config.collection_name, "testcollection");
    assert_eq!(config.mongodb_user.unwrap(), "user");
    assert_eq!(config.mongodb_password.unwrap(), "password");
    assert_eq!(config.mongodb_auth_source.unwrap(), "admin");
    assert_eq!(config.mongodb_auth_mechanism.unwrap(), "SCRAM-SHA-256");
}

#[test]
fn test_config_missing_required_vars() {
    let config = Config::new(None, None, None, None, None, None, None, None, None, None);
    assert!(config.is_err());
}

#[test]
fn test_config_optional_vars_missing() {
    let config = Config::new(
        Some("ws://example.com".to_string()),
        None,
        None,
        Some("mongodb://localhost:27017".to_string()),
        Some("testdb".to_string()),
        Some("testcollection".to_string()),
        None,
        None,
        None,
        None,
    );
    assert!(config.is_ok());

    let config = config.unwrap();
    assert_eq!(config.websocket_url, "ws://example.com");
    assert!(config.websocket_api_key.is_none());
    assert!(config.websocket_api_secret.is_none());
    assert_eq!(config.mongodb_uri, "mongodb://localhost:27017");
    assert_eq!(config.database_name, "testdb");
    assert_eq!(config.collection_name, "testcollection");
    assert!(config.mongodb_user.is_none());
    assert!(config.mongodb_password.is_none());
    assert!(config.mongodb_auth_source.is_none());
    assert!(config.mongodb_auth_mechanism.is_none());
}

#[test]
fn first_missing_required_field_is_reported() {
    let r = Config::new(
        None,
        None,
        None,
        Some("mongodb://localhost:27017".to_string()),
        None,
        None,
        None,
        None,
        None,
        None,
    );
    match r {
        Err(ConfigError::MissingEnvVar(name)) => assert_eq!(name, "WEBSOCKET_URL"),
        _ => panic!("expected a missing-variable error"),
    }

    let r = Config::new(
        Some("ws://example.com".to_string()),
        None,
        None,
        Some("mongodb://localhost:27017".to_string()),
        None,
        Some("testcollection".to_string()),
        None,
        None,
        None,
        None,
    );
    match r {
        Err(ConfigError::MissingEnvVar(name)) => assert_eq!(name, "DATABASE_NAME"),
        _ => panic!("expected a missing-variable error"),
    }
}

#[test]
fn config_error_message_names_the_variable() {
    let e = ConfigError::MissingEnvVar("COLLECTION_NAME".to_string());
    assert_eq!(e.message(), "missing environment variable: COLLECTION_NAME");
}

#[test]
fn full_config_round_trips_all_fields() {
    let config = full_values();
    assert_eq!(config.mongodb_auth_mechanism.as_deref(), Some("SCRAM-SHA-256"));
    assert_eq!(config.mongodb_auth_source.as_deref(), Some("admin"));
}
