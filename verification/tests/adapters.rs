use phenotype_shared::adapters::postgres::PostgresError;
use phenotype_shared::adapters::redis::AdapterError;
use phenotype_shared::ports::error::PortError;
use phenotype_shared::adapters::postgres::{default_table, schema_statement, PostgresConfig};
use phenotype_shared::adapters::redis::{command_name, set_command, RedisConfig, SetCommand};

#[test]
fn test_crate_exists() {
    assert!(true);
}

#[test]
fn postgres_connection_string() {
    let config = PostgresConfig::new("db.local", 6543, "app", "s3cret", "main");
    assert_eq!(config.max_size, 16);
    assert_eq!(config.connection_string(), "host=db.local port=6543 user=app password=s3cret dbname=main");
    let default = PostgresConfig::default();
    assert_eq!(
        default.connection_string(),
        "host=localhost port=5432 user=postgres password=postgres dbname=phenotype"
    );
}

#[test]
fn postgres_schema_names_the_table() {
    assert_eq!(default_table(), "entities");
    let sql = schema_statement("things");
    assert!(sql.contains("CREATE TABLE IF NOT EXISTS things ("));
    assert!(sql.contains("data JSONB NOT NULL"));
}

#[test]
fn redis_config_and_commands() {
    let c = RedisConfig::new("redis://cache:6379");
    assert_eq!(c.url, "redis://cache:6379");
    assert_eq!(c.max_size, 16);
    assert_eq!(c.min_idle, Some(4));
    let d = RedisConfig::default();
    assert_eq!(d.url, "redis://localhost:6379");
    let o = RedisConfig::with_options("redis://x", 2, None);
    assert_eq!((o.max_size, o.min_idle), (2, None));
    assert_eq!(set_command(None), SetCommand::Plain);
    assert_eq!(set_command(Some(60)), SetCommand::Expiring(60));
    assert_eq!(command_name(SetCommand::Plain), "SET");
    assert_eq!(command_name(SetCommand::Expiring(1)), "SETEX");
}

#[test]
fn adapter_errors_read_as_messages() {
    assert_eq!(PostgresError::QueryError("bad".to_string()).message(), "Query error: bad");
    assert_eq!(AdapterError::Redis("down".to_string()).message(), "Redis error: down");
    assert_eq!(
        AdapterError::Port(PortError::NotFound("k".to_string())).message(),
        "Port error: Not found: k"
    );
}
