//! The settings of a deployment, and how they are read from environment
//! variables.

use vstd::prelude::*;
use vstd::string::StringExecFns;
use crate::shared::db::row::Earliest;
use crate::shared::text::{
    ascii_lower,
    parse_bool,
    parse_i64,
    parse_u32,
    parse_u64,
    parsed_bool,
    parsed_i64,
    parsed_u32,
    parsed_u64,
    to_ascii_lowercase,
    trim,
    trimmed,
};

verus! {

/// How tokens are signed and checked.
#[derive(Debug, Clone, PartialEq, Eq)]
pub struct AppConfigJWT {
    /// The path of the RSA private key, in PEM.
    pub private_secret_pem_path: String,
    /// The path of the RSA public key, in PEM.
    pub public_secret_pem_path: String,
    pub issuer: String,
    pub audience: String,
    pub expires_in_minutes: i64,
    /// The key identity shown in the token header.
    pub kid: Option<String>,
}

/// How the relational store is reached.
#[derive(Debug, Clone, PartialEq, Eq)]
pub struct AppDatabaseMySQLConfig {
    pub uri: String,
    pub username: String,
    pub password: String,
    pub database: String,
    pub pool_size: Option<i64>,
    pub pool_min_idle: Option<i64>,
    pub pool_max_lifetime: Option<i64>,
    pub pool_idle_timeout: Option<i64>,
    pub pool_connection_timeout: Option<i64>,
    pub pool_max_connections: Option<u32>,
    pub pool_connection_lifetime: Option<i64>,
    pub pool_connection_acquisition_timeout: Option<i64>,
}

/// How a document store is reached.
#[derive(Debug, Clone, PartialEq, Eq)]
pub struct AppDatabaseMongoDBConfig {
    pub uri: String,
    pub database: String,
}

/// How the cache is reached.
#[derive(Debug, Clone, PartialEq, Eq)]
pub struct AppDatabaseRedisConfig {
    pub uri: String,
    /// The lifetime of an entry, in seconds.
    pub default_ttl: Option<u64>,
    pub max_connections: Option<u32>,
    pub app_space_name: Option<String>,
}

/// How a graph store is reached.
#[derive(Debug, Clone, PartialEq, Eq)]
pub struct AppDatabaseNeo4jConfig {
    pub uri: String,
    pub username: String,
    pub password: String,
    pub encrypted: bool,
}

/// The stores of a deployment; each is optional.
#[derive(Debug, Clone, PartialEq, Eq)]
pub struct AppDatabaseConfig {
    pub mysql: Option<AppDatabaseMySQLConfig>,
    pub mongo: Option<AppDatabaseMongoDBConfig>,
    pub redis: Option<AppDatabaseRedisConfig>,
    pub neo4j: Option<AppDatabaseNeo4jConfig>,
}

/// How mail is sent.
#[derive(Debug, Clone, PartialEq, Eq)]
pub struct AppEmailSmtp {
    pub host: String,
    pub username: String,
    pub password: String,
    pub from_email: String,
    pub from_name: String,
}

/// Everything a deployment is configured with.
#[derive(Debug, Clone, PartialEq, Eq)]
pub struct AppConfig {
    pub is_prod: bool,
    pub log_level: String,
    pub jwt: AppConfigJWT,
    pub database: AppDatabaseConfig,
    pub email_smtp: AppEmailSmtp,
    pub bind_addr: String,
    pub metrics_addr: String,
}

/// The environment of a process: names and values, in the order in which
/// they were set. The first value of a name counts.
#[derive(Debug, Clone, PartialEq, Eq)]
pub struct Environment {
    pub vars: Vec<(String, String)>,
}

impl DeepView for Environment {
    type V = Seq<(Seq<char>, Seq<char>)>;

    open spec fn deep_view(&self) -> Seq<(Seq<char>, Seq<char>)> {
        self.vars.deep_view()
    }
}

impl View for Environment {
    type V = Seq<(Seq<char>, Seq<char>)>;

    open spec fn view(&self) -> Seq<(Seq<char>, Seq<char>)> {
        self.deep_view()
    }
}

/// Why the settings could not be read.
#[derive(Debug, Clone, PartialEq, Eq)]
pub enum ConfigError {
    /// A variable that must be set is not.
    Missing(String),
    /// A variable holds a text that is not a value of its kind.
    Invalid(String),
}

/// What a [`ConfigError`] stands for.
pub enum ConfigErrorView {
    Missing(Seq<char>),
    Invalid(Seq<char>),
}

impl DeepView for ConfigError {
    type V = ConfigErrorView;

    open spec fn deep_view(&self) -> ConfigErrorView {
        match *self {
            ConfigError::Missing(name) => ConfigErrorView::Missing(name@),
            ConfigError::Invalid(name) => ConfigErrorView::Invalid(name@),
        }
    }
}

impl View for ConfigError {
    type V = ConfigErrorView;

    open spec fn view(&self) -> ConfigErrorView {
        self.deep_view()
    }
}

impl ConfigError {
    /// The text of the failure.
    pub open spec fn message_spec(&self) -> Seq<char> {
        match *self {
            ConfigError::Missing(name) => "Missing required environment variable: "@ + name@,
            ConfigError::Invalid(name) => "Invalid value of environment variable: "@ + name@,
        }
    }

    /// The text of the failure.
    pub fn to_string(&self) -> (text: String)
        ensures
            text@ == self.message_spec(),
    {
        match self {
            ConfigError::Missing(name) => {
                let mut text = String::from_str("Missing required environment variable: ");
                text.append(name.as_str());
                text
            },
            ConfigError::Invalid(name) => {
                let mut text = String::from_str("Invalid value of environment variable: ");
                text.append(name.as_str());
                text
            },
        }
    }
}

/// The value of the variable `name`: that of the first pair that carries the
/// name.
pub open spec fn lookup(vars: Seq<(Seq<char>, Seq<char>)>, name: Seq<char>) -> Option<Seq<char>>
    decreases vars.len(),
{
    if vars.len() == 0 {
        None
    } else if vars[0].0 == name {
        Some(vars[0].1)
    } else {
        lookup(vars.skip(1), name)
    }
}

/// The failure of a variable that must be set: none where it is set.
pub open spec fn missing(vars: Seq<(Seq<char>, Seq<char>)>, name: Seq<char>) -> Option<
    ConfigErrorView,
> {
    if lookup(vars, name) is Some {
        None
    } else {
        Some(ConfigErrorView::Missing(name))
    }
}

/// The failure of a variable that, where it is set, must spell a value:
/// `readable` says whether it does.
pub open spec fn invalid(name: Seq<char>, set: bool, readable: bool) -> Option<ConfigErrorView> {
    if set && !readable {
        Some(ConfigErrorView::Invalid(name))
    } else {
        None
    }
}

/// Whether the text of `APP_ENV` names a production deployment.
pub open spec fn names_production(app_env: Seq<char>) -> bool {
    let lower = app_env.map_values(|c: char| ascii_lower(c));
    lower == "prod"@ || lower == "production"@
}

/// The first variable that keeps the settings from being read, in the order
/// in which the variables are read; none where the settings can be read.
///
/// The variables of a store are read only where the store's address is set.
pub open spec fn first_failure(vars: Seq<(Seq<char>, Seq<char>)>) -> Option<ConfigErrorView> {
    let general = missing(vars, "BIND_ADDR"@)
        .or_later(missing(vars, "METRICS_ADDR"@))
        .or_later(missing(vars, "APP_ENV"@));
    let jwt = missing(vars, "JWT_RSA_PRIVATE_KEY_PATH"@)
        .or_later(missing(vars, "JWT_RSA_PUBLIC_KEY_PATH"@))
        .or_later(missing(vars, "JWT_ISSUER"@))
        .or_later(missing(vars, "JWT_AUDIENCE"@))
        .or_later(missing(vars, "JWT_EXPIRES_IN_MINUTES"@))
        .or_later(
            invalid(
                "JWT_EXPIRES_IN_MINUTES"@,
                true,
                parsed_i64(trimmed(lookup(vars, "JWT_EXPIRES_IN_MINUTES"@)->0)) is Some,
            ),
        );
    let mysql = if lookup(vars, "MYSQL_URL"@) is Some {
        missing(vars, "MYSQL_USERNAME"@)
            .or_later(missing(vars, "MYSQL_PASSWORD"@))
            .or_later(missing(vars, "MYSQL_DATABASE"@))
    } else {
        None
    };
    let mongo = if lookup(vars, "MONGO_URL"@) is Some {
        missing(vars, "MONGO_DATABASE"@)
    } else {
        None
    };
    let redis = if lookup(vars, "REDIS_URL"@) is Some {
        invalid(
            "REDIS_DEFAULT_TTL"@,
            lookup(vars, "REDIS_DEFAULT_TTL"@) is Some,
            parsed_u64(trimmed(lookup(vars, "REDIS_DEFAULT_TTL"@)->0)) is Some,
        ).or_later(
            invalid(
                "REDIS_MAX_CONNECTIONS"@,
                lookup(vars, "REDIS_MAX_CONNECTIONS"@) is Some,
                parsed_u32(trimmed(lookup(vars, "REDIS_MAX_CONNECTIONS"@)->0)) is Some,
            ),
        )
    } else {
        None
    };
    let neo4j = if lookup(vars, "NEO4J_URL"@) is Some {
        missing(vars, "NEO4J_USERNAME"@)
            .or_later(missing(vars, "NEO4J_PASSWORD"@))
            .or_later(missing(vars, "NEO4J_ENCRYPTED"@))
            .or_later(
                invalid(
                    "NEO4J_ENCRYPTED"@,
                    true,
                    parsed_bool(trimmed(lookup(vars, "NEO4J_ENCRYPTED"@)->0)) is Some,
                ),
            )
    } else {
        None
    };
    let smtp = missing(vars, "SMTP_HOST"@)
        .or_later(missing(vars, "SMTP_USERNAME"@))
        .or_later(missing(vars, "SMTP_PASSWORD"@))
        .or_later(missing(vars, "SMTP_FROM_EMAIL"@))
        .or_later(missing(vars, "SMTP_FROM_NAME"@));
    general.or_later(jwt).or_later(mysql).or_later(mongo).or_later(redis).or_later(neo4j).or_later(
        smtp,
    )
}

/// Whether `value` is the text of the variable `name`, or missing with it.
pub open spec fn holds(vars: Seq<(Seq<char>, Seq<char>)>, name: Seq<char>, value: Option<String>)
    -> bool {
    value.deep_view() == lookup(vars, name)
}

impl AppConfig {
    /// Whether the settings are what the variables say.
    pub open spec fn describes(&self, vars: Seq<(Seq<char>, Seq<char>)>) -> bool {
        &&& Some(self.bind_addr@) == lookup(vars, "BIND_ADDR"@)
        &&& Some(self.metrics_addr@) == lookup(vars, "METRICS_ADDR"@)
        &&& self.is_prod == names_production(lookup(vars, "APP_ENV"@)->0)
        &&& self.log_level@ == match lookup(vars, "LOG_LEVEL"@) {
            Some(level) => level,
            None => "info"@,
        }
        &&& Some(self.jwt.private_secret_pem_path@) == lookup(vars, "JWT_RSA_PRIVATE_KEY_PATH"@)
        &&& Some(self.jwt.public_secret_pem_path@) == lookup(vars, "JWT_RSA_PUBLIC_KEY_PATH"@)
        &&& Some(self.jwt.issuer@) == lookup(vars, "JWT_ISSUER"@)
        &&& Some(self.jwt.audience@) == lookup(vars, "JWT_AUDIENCE"@)
        &&& Some(self.jwt.expires_in_minutes) == parsed_i64(
            trimmed(lookup(vars, "JWT_EXPIRES_IN_MINUTES"@)->0),
        )
        &&& holds(vars, "JWT_KID"@, self.jwt.kid)
        &&& self.database.mysql is Some <==> lookup(vars, "MYSQL_URL"@) is Some
        &&& self.database.mysql matches Some(mysql) ==> {
            &&& Some(mysql.uri@) == lookup(vars, "MYSQL_URL"@)
            &&& Some(mysql.username@) == lookup(vars, "MYSQL_USERNAME"@)
            &&& Some(mysql.password@) == lookup(vars, "MYSQL_PASSWORD"@)
            &&& Some(mysql.database@) == lookup(vars, "MYSQL_DATABASE"@)
            &&& mysql.pool_size is None
            &&& mysql.pool_min_idle is None
            &&& mysql.pool_max_lifetime is None
            &&& mysql.pool_idle_timeout is None
            &&& mysql.pool_connection_timeout is None
            &&& mysql.pool_max_connections is None
            &&& mysql.pool_connection_lifetime is None
            &&& mysql.pool_connection_acquisition_timeout is None
        }
        &&& self.database.mongo is Some <==> lookup(vars, "MONGO_URL"@) is Some
        &&& self.database.mongo matches Some(mongo) ==> {
            &&& Some(mongo.uri@) == lookup(vars, "MONGO_URL"@)
            &&& Some(mongo.database@) == lookup(vars, "MONGO_DATABASE"@)
        }
        &&& self.database.redis is Some <==> lookup(vars, "REDIS_URL"@) is Some
        &&& self.database.redis matches Some(redis) ==> {
            &&& Some(redis.uri@) == lookup(vars, "REDIS_URL"@)
            &&& redis.default_ttl == match lookup(vars, "REDIS_DEFAULT_TTL"@) {
                Some(text) => parsed_u64(trimmed(text)),
                None => None,
            }
            &&& redis.max_connections == match lookup(vars, "REDIS_MAX_CONNECTIONS"@) {
                Some(text) => parsed_u32(trimmed(text)),
                None => None,
            }
            &&& holds(vars, "REDIS_APP_SPACE_NAME"@, redis.app_space_name)
        }
        &&& self.database.neo4j is Some <==> lookup(vars, "NEO4J_URL"@) is Some
        &&& self.database.neo4j matches Some(neo4j) ==> {
            &&& Some(neo4j.uri@) == lookup(vars, "NEO4J_URL"@)
            &&& Some(neo4j.username@) == lookup(vars, "NEO4J_USERNAME"@)
            &&& Some(neo4j.password@) == lookup(vars, "NEO4J_PASSWORD"@)
            &&& Some(neo4j.encrypted) == parsed_bool(
                trimmed(lookup(vars, "NEO4J_ENCRYPTED"@)->0),
            )
        }
        &&& Some(self.email_smtp.host@) == lookup(vars, "SMTP_HOST"@)
        &&& Some(self.email_smtp.username@) == lookup(vars, "SMTP_USERNAME"@)
        &&& Some(self.email_smtp.password@) == lookup(vars, "SMTP_PASSWORD"@)
        &&& Some(self.email_smtp.from_email@) == lookup(vars, "SMTP_FROM_EMAIL"@)
        &&& Some(self.email_smtp.from_name@) == lookup(vars, "SMTP_FROM_NAME"@)
    }
}

impl Environment {
    /// The value of the variable `name`, if it is set.
    pub fn get(&self, name: &str) -> (value: Option<String>)
        ensures
            value.deep_view() == lookup(self@, name@),
    {
        let wanted = name.to_string();
        let mut i: usize = 0;
        proof {
            assert(self@.skip(0) =~= self@);
        }
        while i < self.vars.len()
            invariant
                i <= self.vars.len(),
                wanted@ == name@,
                lookup(self@, name@) == lookup(self@.skip(i as int), name@),
            decreases self.vars.len() - i,
        {
            proof {
                assert(self@.skip(i as int)[0] == self.vars[i as int].deep_view());
                assert(self@.skip(i as int).skip(1) =~= self@.skip(i + 1));
            }
            if self.vars[i].0 == wanted {
                return Some(self.vars[i].1.clone());
            }
            i += 1;
        }
        None
    }

    /// The value of a variable that must be set.
    pub fn require(&self, name: &str) -> (r: Result<String, ConfigError>)
        ensures
            match r {
                Ok(value) => lookup(self@, name@) == Some(value@) && missing(self@, name@) is None,
                Err(e) => missing(self@, name@) == Some(e@),
            },
    {
        match self.get(name) {
            Some(value) => Ok(value),
            None => Err(ConfigError::Missing(name.to_string())),
        }
    }
}

/// Whether a text names a production deployment: `prod` or `production`, in
/// any mix of upper and lower case.
pub fn is_production(app_env: &str) -> (r: bool)
    ensures
        r == names_production(app_env@),
{
    let lower = to_ascii_lowercase(app_env);
    lower == String::from_str("prod") || lower == String::from_str("production")
}

impl AppConfig {
    /// Reads the settings from the environment.
    ///
    /// Variables are read in a fixed order, and the first one that is
    /// missing or cannot be read is reported.
    pub fn default(env: &Environment) -> (r: Result<AppConfig, ConfigError>)
        ensures
            match r {
                Ok(config) => first_failure(env@) is None && config.describes(env@),
                Err(e) => first_failure(env@) == Some(e@),
            },
    {
        let bind_addr = env.require("BIND_ADDR")?;
        let metrics_addr = env.require("METRICS_ADDR")?;
        let app_env = env.require("APP_ENV")?;
        let is_prod = is_production(app_env.as_str());
        let log_level = match env.get("LOG_LEVEL") {
            Some(level) => level,
            None => String::from_str("info"),
        };
        let private_secret_pem_path = env.require("JWT_RSA_PRIVATE_KEY_PATH")?;
        let public_secret_pem_path = env.require("JWT_RSA_PUBLIC_KEY_PATH")?;
        let issuer = env.require("JWT_ISSUER")?;
        let audience = env.require("JWT_AUDIENCE")?;
        let expires_text = env.require("JWT_EXPIRES_IN_MINUTES")?;
        let expires_in_minutes = match parse_i64(trim(expires_text.as_str())) {
            Some(minutes) => minutes,
            None => return Err(ConfigError::Invalid(String::from_str("JWT_EXPIRES_IN_MINUTES"))),
        };
        let kid = env.get("JWT_KID");
        let jwt = AppConfigJWT {
            private_secret_pem_path,
            public_secret_pem_path,
            issuer,
            audience,
            expires_in_minutes,
            kid,
        };
        let mysql = match env.get("MYSQL_URL") {
            Some(uri) => {
                let username = env.require("MYSQL_USERNAME")?;
                let password = env.require("MYSQL_PASSWORD")?;
                let database = env.require("MYSQL_DATABASE")?;
                Some(
                    AppDatabaseMySQLConfig {
                        uri,
                        username,
                        password,
                        database,
                        pool_size: None,
                        pool_min_idle: None,
                        pool_max_lifetime: None,
                        pool_idle_timeout: None,
                        pool_connection_timeout: None,
                        pool_max_connections: None,
                        pool_connection_lifetime: None,
                        pool_connection_acquisition_timeout: None,
                    },
                )
            },
            None => None,
        };
        let mongo = match env.get("MONGO_URL") {
            Some(uri) => {
                let database = env.require("MONGO_DATABASE")?;
                Some(AppDatabaseMongoDBConfig { uri, database })
            },
            None => None,
        };
        let redis = match env.get("REDIS_URL") {
            Some(uri) => {
                let default_ttl = match env.get("REDIS_DEFAULT_TTL") {
                    Some(text) => match parse_u64(trim(text.as_str())) {
                        Some(ttl) => Some(ttl),
                        None => return Err(
                            ConfigError::Invalid(String::from_str("REDIS_DEFAULT_TTL")),
                        ),
                    },
                    None => None,
                };
                let max_connections = match env.get("REDIS_MAX_CONNECTIONS") {
                    Some(text) => match parse_u32(trim(text.as_str())) {
                        Some(n) => Some(n),
                        None => return Err(
                            ConfigError::Invalid(String::from_str("REDIS_MAX_CONNECTIONS")),
                        ),
                    },
                    None => None,
                };
                let app_space_name = env.get("REDIS_APP_SPACE_NAME");
                Some(AppDatabaseRedisConfig { uri, default_ttl, max_connections, app_space_name })
            },
            None => None,
        };
        let neo4j = match env.get("NEO4J_URL") {
            Some(uri) => {
                let username = env.require("NEO4J_USERNAME")?;
                let password = env.require("NEO4J_PASSWORD")?;
                let encrypted_text = env.require("NEO4J_ENCRYPTED")?;
                let encrypted = match parse_bool(trim(encrypted_text.as_str())) {
                    Some(encrypted) => encrypted,
                    None => return Err(ConfigError::Invalid(String::from_str("NEO4J_ENCRYPTED"))),
                };
                Some(AppDatabaseNeo4jConfig { uri, username, password, encrypted })
            },
            None => None,
        };
        let database = AppDatabaseConfig { mysql, mongo, redis, neo4j };
        let host = env.require("SMTP_HOST")?;
        let username = env.require("SMTP_USERNAME")?;
        let password = env.require("SMTP_PASSWORD")?;
        let from_email = env.require("SMTP_FROM_EMAIL")?;
        let from_name = env.require("SMTP_FROM_NAME")?;
        let email_smtp = AppEmailSmtp { host, username, password, from_email, from_name };
        Ok(AppConfig { is_prod, log_level, jwt, database, email_smtp, bind_addr, metrics_addr })
    }
}

} // verus!
