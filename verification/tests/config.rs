use hexarch::config::{Config, ConfigError, DATABASE_URL_KEY, SERVER_PORT_KEY};

#[test]
fn config_holds_both_variables() {
    let config =
        Config::from_env(Some("3000".to_string()), Some("sqlite:authors.db".to_string())).unwrap();
    assert_eq!(
        config,
        Config { server_port: "3000".to_string(), database_url: "sqlite:authors.db".to_string() }
    );
}

#[test]
fn config_needs_the_port() {
    let missing = Config::from_env(None, Some("sqlite:authors.db".to_string())).unwrap_err();
    assert_eq!(missing, ConfigError { key: "SERVER_PORT".to_string() });
    assert_eq!(missing.to_string(), "failed to load environment variable SERVER_PORT");
}

#[test]
fn config_needs_the_database() {
    let missing = Config::from_env(Some("3000".to_string()), None).unwrap_err();
    assert_eq!(missing.key, DATABASE_URL_KEY);
    assert_eq!(missing.to_string(), "failed to load environment variable DATABASE_URL");
}

#[test]
fn config_misses_the_port_first() {
    let missing = Config::from_env(None, None).unwrap_err();
    assert_eq!(missing.key, SERVER_PORT_KEY);
}

#[test]
fn config_keeps_values_as_they_are() {
    let config = Config::from_env(Some(" 80 ".to_string()), Some(String::new())).unwrap();
    assert_eq!(config.server_port, " 80 ");
    assert_eq!(config.database_url, "");
}
