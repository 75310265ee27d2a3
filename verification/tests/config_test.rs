use llamp::config::{Cli, Config};

fn cli_with(port: Option<u16>, host: Option<&str>, database: Option<&str>, admin_key: Option<&str>) -> Cli {
    let defaults = Cli::default();
    Cli {
        admin_key: admin_key.map(|k| k.to_string()),
        port: port.unwrap_or(defaults.port),
        host: host.map(|h| h.to_string()).unwrap_or(defaults.host),
        config: None,
        database: database.map(|d| d.to_string()),
    }
}

#[test]
fn test_config_from_args() {
    // llamp --port 3000 --host 127.0.0.1
    let cli = cli_with(Some(3000), Some("127.0.0.1"), None, None);

    let config = Config::from_args(&cli).unwrap();

    assert_eq!(config.port, 3000);
    assert_eq!(config.host, "127.0.0.1");
    assert_eq!(config.database_url, "sqlite://./llamp.db"); // default
    assert_eq!(config.log_level, "info");
}

#[test]
fn test_config_custom_database() {
    // llamp --database sqlite://./custom.db
    let cli = cli_with(None, None, Some("sqlite://./custom.db"), None);

    let config = Config::from_args(&cli).unwrap();

    assert_eq!(config.database_url, "sqlite://./custom.db");
}

#[test]
fn test_config_admin_key() {
    // llamp --admin-key my-secret-key
    let cli = cli_with(None, None, None, Some("my-secret-key"));

    let config = Config::from_args(&cli).unwrap();

    assert_eq!(config.get_admin_key(), Some(&"my-secret-key".to_string()));
}

#[test]
fn test_config_get_address() {
    // llamp --port 8080 --host 0.0.0.0
    let cli = cli_with(Some(8080), Some("0.0.0.0"), None, None);

    let config = Config::from_args(&cli).unwrap();
    assert_eq!(config.get_address(), "0.0.0.0:8080");
}

#[test]
fn test_config_default_values() {
    // llamp
    let cli = Cli::default();

    let config = Config::from_args(&cli).unwrap();

    assert_eq!(config.port, 8080);
    assert_eq!(config.host, "0.0.0.0");
}

#[test]
fn config_log_level_and_missing_admin_key() {
    let config = Config::from_args(&Cli::default()).unwrap();
    assert_eq!(config.get_log_level(), "info");
    assert_eq!(config.get_admin_key(), None);
    assert_eq!(config.database_url, "sqlite://./llamp.db");
}

#[test]
fn config_address_edge_ports() {
    let mut cli = Cli::default();
    cli.host = "localhost".to_string();
    cli.port = 0;
    assert_eq!(Config::from_args(&cli).unwrap().get_address(), "localhost:0");
    cli.port = 65535;
    assert_eq!(Config::from_args(&cli).unwrap().get_address(), "localhost:65535");
    cli.host = String::new();
    cli.port = 10;
    assert_eq!(Config::from_args(&cli).unwrap().get_address(), ":10");
}

#[test]
fn admin_key_from_environment() {
    let cli = cli_with(None, None, None, None);
    let config = Config::from_args_and_env(&cli, Some("env-key".to_string())).unwrap();
    assert_eq!(config.admin_key, Some("env-key".to_string()));
    assert_eq!(config.port, 8080);

    let cli = cli_with(None, None, None, Some("cli-key"));
    let config = Config::from_args_and_env(&cli, Some("env-key".to_string())).unwrap();
    assert_eq!(config.admin_key, Some("cli-key".to_string()));

    let cli = cli_with(None, None, None, None);
    let config = Config::from_args_and_env(&cli, None).unwrap();
    assert_eq!(config.admin_key, None);
}
