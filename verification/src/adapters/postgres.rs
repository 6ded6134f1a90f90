//! PostgreSQL adapter: connection configuration and the entity table schema.
use vstd::prelude::*;

use crate::common::text::{decimal, labelled, u64_to_decimal};

verus! {

/// Errors of the PostgreSQL adapter.
#[derive(Debug)]
pub enum PostgresError {
    ConnectionError(String),
    QueryError(String),
    NotFound(String),
    AlreadyExists(String),
    SerializationError(serde_json::Error),
    PoolError(String),
    MigrationError(String),
}

/// `m` is the message of the adapter error `e`, as its display form reads;
/// a wrapped JSON error's text is a display string of it.
pub open spec fn postgres_error_message(e: PostgresError, m: Seq<char>) -> bool {
    match e {
        PostgresError::ConnectionError(s) => m == "Connection error: "@ + s@,
        PostgresError::QueryError(s) => m == "Query error: "@ + s@,
        PostgresError::NotFound(s) => m == "Not found: "@ + s@,
        PostgresError::AlreadyExists(s) => m == "Already exists: "@ + s@,
        PostgresError::SerializationError(err) => exists|t: String|
            vstd::string::to_string_from_display_ensures::<serde_json::Error>(&err, t) && m
                == "Serialization error: "@ + t@,
        PostgresError::PoolError(s) => m == "Pool error: "@ + s@,
        PostgresError::MigrationError(s) => m == "Migration error: "@ + s@,
    }
}

impl PostgresError {
    /// The message of the error, as its display form reads.
    pub fn message(&self) -> (r: String)
        ensures
            postgres_error_message(*self, r@),
    {
        match self {
            PostgresError::ConnectionError(s) => labelled("Connection error: ", s.as_str()),
            PostgresError::QueryError(s) => labelled("Query error: ", s.as_str()),
            PostgresError::NotFound(s) => labelled("Not found: ", s.as_str()),
            PostgresError::AlreadyExists(s) => labelled("Already exists: ", s.as_str()),
            PostgresError::SerializationError(err) => {
                let t = err.to_string();
                labelled("Serialization error: ", t.as_str())
            },
            PostgresError::PoolError(s) => labelled("Pool error: ", s.as_str()),
            PostgresError::MigrationError(s) => labelled("Migration error: ", s.as_str()),
        }
    }
}

/// Configuration for a PostgreSQL connection.
#[derive(Debug, Clone)]
pub struct PostgresConfig {
    pub host: String,
    pub port: u16,
    pub user: String,
    pub password: String,
    pub database: String,
    pub max_size: usize,
}

/// The connection string of a configuration:
/// `host=H port=P user=U password=W dbname=D`.
pub open spec fn connection_text(c: PostgresConfig) -> Seq<char> {
    "host="@ + c.host@ + " port="@ + decimal(c.port as nat) + " user="@ + c.user@ + " password="@
        + c.password@ + " dbname="@ + c.database@
}

impl PostgresConfig {
    /// A configuration with the given connection values and a pool of 16.
    pub fn new(host: &str, port: u16, user: &str, password: &str, database: &str) -> (r: Self)
        ensures
            r.host@ == host@,
            r.port == port,
            r.user@ == user@,
            r.password@ == password@,
            r.database@ == database@,
            r.max_size == 16,
    {
        PostgresConfig {
            host: String::from_str(host),
            port,
            user: String::from_str(user),
            password: String::from_str(password),
            database: String::from_str(database),
            max_size: 16,
        }
    }

    /// The connection string.
    pub fn connection_string(&self) -> (r: String)
        ensures
            r@ == connection_text(*self),
    {
        let mut s = String::from_str("host=");
        s.append(self.host.as_str());
        s.append(" port=");
        s.append(u64_to_decimal(self.port as u64).as_str());
        s.append(" user=");
        s.append(self.user.as_str());
        s.append(" password=");
        s.append(self.password.as_str());
        s.append(" dbname=");
        s.append(self.database.as_str());
        s
    }
}

impl Default for PostgresConfig {
    /// A local server: `localhost:5432`, user and password `postgres`,
    /// database `phenotype`, a pool of 16.
    fn default() -> (r: Self)
        ensures
            r.host@ == "localhost"@,
            r.port == 5432,
            r.user@ == "postgres"@,
            r.password@ == "postgres"@,
            r.database@ == "phenotype"@,
            r.max_size == 16,
    {
        Self::new("localhost", 5432, "postgres", "postgres", "phenotype")
    }
}

/// The default name of the table that holds entities.
pub open spec fn default_table_name() -> Seq<char> {
    "entities"@
}

/// The statement that creates the entity table `table` when it is missing.
pub open spec fn schema_text(table: Seq<char>) -> Seq<char> {
    "\n            CREATE TABLE IF NOT EXISTS "@ + table
        + " (\n                id TEXT PRIMARY KEY,\n                entity_type TEXT NOT NULL,\n                data JSONB NOT NULL,\n                version INTEGER NOT NULL DEFAULT 1,\n                created_at TIMESTAMPTZ NOT NULL DEFAULT NOW(),\n                updated_at TIMESTAMPTZ NOT NULL DEFAULT NOW()\n            )\n            "@
}

/// The statement that creates the entity table `table` when it is missing.
pub fn schema_statement(table: &str) -> (r: String)
    ensures
        r@ == schema_text(table@),
{
    let mut s = String::from_str("\n            CREATE TABLE IF NOT EXISTS ");
    s.append(table);
    s.append(
        " (\n                id TEXT PRIMARY KEY,\n                entity_type TEXT NOT NULL,\n                data JSONB NOT NULL,\n                version INTEGER NOT NULL DEFAULT 1,\n                created_at TIMESTAMPTZ NOT NULL DEFAULT NOW(),\n                updated_at TIMESTAMPTZ NOT NULL DEFAULT NOW()\n            )\n            ",
    );
    s
}

/// The default name of the table that holds entities.
pub fn default_table() -> (r: &'static str)
    ensures
        r@ == default_table_name(),
{
    "entities"
}

} // verus!
