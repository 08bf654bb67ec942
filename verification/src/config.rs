//! The service's settings, read from its environment.

use vstd::prelude::*;

verus! {

/// The settings the service runs with.
#[derive(Clone, Debug, PartialEq, Eq)]
pub struct Config {
    /// The port of the public API.
    pub public_port: String,
    /// The port of the metrics endpoint.
    pub private_port: String,
    /// Where the database is.
    pub database_uri: String,
    /// Create the tables and stop.
    pub should_only_run_migrations: bool,
    /// Create the tables before serving.
    pub should_run_migrations: bool,
}

/// Why the settings could not be read.
#[derive(Clone, Copy, Debug, PartialEq, Eq)]
pub enum ConfigError {
    MissingDatabaseUri,
}

impl ConfigError {
    /// The message that goes with the error.
    pub fn message(&self) -> (s: &'static str)
        ensures
            s@ == "Missing database URI"@,
    {
        "Missing database URI"
    }
}

/// The value of a setting, or its default when it is not set.
pub open spec fn setting_or(value: Option<String>, default: Seq<char>) -> Seq<char> {
    match value {
        Some(v) => v@,
        None => default,
    }
}

/// The migration mode, `no` when it is not set.
pub open spec fn migrate_mode(value: Option<String>) -> Seq<char> {
    setting_or(value, "no"@)
}

fn setting_or_default(value: Option<String>, default: &str) -> (s: String)
    ensures
        s@ == setting_or(value, default@),
{
    match value {
        Some(v) => v,
        None => String::from_str(default),
    }
}

fn address_on(port: &String) -> (address: String)
    ensures
        address@ == "0.0.0.0:"@ + port@,
{
    let mut address = String::from_str("0.0.0.0:");
    address.append(port.as_str());
    address
}

impl Config {
    /// Reads the settings from the values of `PUBLIC_PORT`, `GRAFANA_PORT`,
    /// `DATABASE_URI` and `MIGRATE` (`None` where a variable is not set).
    /// The ports default to 80 and 3000 and the mode to `no`; the database
    /// has no default. The mode `only` creates the tables and stops; `yes`,
    /// `true` and `only` create them before anything else.
    pub fn from_env(
        public_port: Option<String>,
        grafana_port: Option<String>,
        database_uri: Option<String>,
        migrate: Option<String>,
    ) -> (config: core::result::Result<Config, ConfigError>)
        ensures
            database_uri is None ==> config == Err::<Config, ConfigError>(ConfigError::MissingDatabaseUri),
            database_uri matches Some(uri) ==> config is Ok && {
                let c = config->Ok_0;
                let mode = migrate_mode(migrate);
                &&& c.public_port@ == setting_or(public_port, "80"@)
                &&& c.private_port@ == setting_or(grafana_port, "3000"@)
                &&& c.database_uri == uri
                &&& c.should_only_run_migrations == (mode == "only"@)
                &&& c.should_run_migrations == (mode == "only"@ || mode == "yes"@ || mode == "true"@)
            },
            config matches Ok(c) ==> (c.should_only_run_migrations ==> c.should_run_migrations),
            config is Ok && public_port is Some ==> config->Ok_0.public_port@ == public_port->Some_0@,
            config is Ok && public_port is None ==> config->Ok_0.public_port@ == "80"@,
            config is Ok && grafana_port is Some ==> config->Ok_0.private_port@ == grafana_port->Some_0@,
            config is Ok && grafana_port is None ==> config->Ok_0.private_port@ == "3000"@,
            config is Ok && migrate is Some ==> config->Ok_0.should_only_run_migrations == (migrate->Some_0@ == "only"@),
            config is Ok && migrate is Some ==> config->Ok_0.should_run_migrations == (migrate->Some_0@ == "only"@
                || migrate->Some_0@ == "yes"@ || migrate->Some_0@ == "true"@),
            config is Ok && migrate is None ==> !config->Ok_0.should_run_migrations,
    {
        let public_port = setting_or_default(public_port, "80");
        let private_port = setting_or_default(grafana_port, "3000");
        let database_uri = match database_uri {
            Some(uri) => uri,
            None => return Err(ConfigError::MissingDatabaseUri),
        };
        let migrate = setting_or_default(migrate, "no");
        proof {
            reveal_strlit("no");
            reveal_strlit("only");
            reveal_strlit("yes");
            reveal_strlit("true");
            assert("no"@ != "only"@ && "no"@ != "yes"@ && "no"@ != "true"@) by {
                assert("no"@.len() == 2 && "only"@.len() == 4 && "true"@.len() == 4);
                assert("no"@[0] != "yes"@[0]);
            }
        }
        let should_only_run_migrations = migrate == String::from_str("only");
        let should_run_migrations = should_only_run_migrations
            || migrate == String::from_str("yes")
            || migrate == String::from_str("true");
        Ok(Config { public_port, private_port, database_uri, should_only_run_migrations, should_run_migrations })
    }

    /// The address the public API listens on.
    pub fn public_addr(&self) -> (address: String)
        ensures
            address@ == "0.0.0.0:"@ + self.public_port@,
    {
        address_on(&self.public_port)
    }

    /// The address the metrics endpoint listens on.
    pub fn private_addr(&self) -> (address: String)
        ensures
            address@ == "0.0.0.0:"@ + self.private_port@,
    {
        address_on(&self.private_port)
    }

    /// Whether the service goes on to serve requests after its start-up.
    pub fn serves(&self) -> (serves: bool)
        ensures
            serves == !self.should_only_run_migrations,
    {
        !self.should_only_run_migrations
    }
}

} // verus!
