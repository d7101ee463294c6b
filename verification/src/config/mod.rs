//! Strongly typed configuration parsed once at startup.
//!
//! Every value comes from environment variables. Invalid critical configuration
//! fails fast before the server binds a port.
pub mod cors;
pub mod env;
pub mod host;
pub mod parse;
pub mod secret;

use vstd::prelude::*;

pub use cors::CorsConfig;
use cors::{spec_cors_fault, spec_cors_outcome, views};
pub use host::IpLiteral;
pub use env::{ConfigError, ConfigValue, EnvVars, SettingFault};
pub use secret::Secret;

use env::{
    first_fault, optional, optional_fault, optional_or, required, required_fault, spec_optional,
    spec_required, spec_value_or,
};
use crate::text::{concat3, starts_with, str_eq, to_ascii_lower, to_ascii_lowercase};

verus! {

#[derive(Debug, Clone, Copy, PartialEq, Eq, Structural)]
pub enum Environment {
    Development,
    Test,
    Staging,
    Production,
}

impl View for Environment {
    type V = Environment;

    open spec fn view(&self) -> Environment {
        *self
    }
}

impl Environment {
    pub open spec fn spec_is_deployed(self) -> bool {
        self == Environment::Staging || self == Environment::Production
    }

    pub open spec fn spec_as_str(self) -> Seq<char> {
        match self {
            Environment::Development => "development"@,
            Environment::Test => "test"@,
            Environment::Staging => "staging"@,
            Environment::Production => "production"@,
        }
    }

    /// Case-insensitive names, with the aliases `dev`, `local` and `prod`.
    pub open spec fn spec_parse(value: Seq<char>) -> Result<Environment, Seq<char>> {
        let v = to_ascii_lower(value);
        if v == "development"@ || v == "dev"@ || v == "local"@ {
            Ok(Environment::Development)
        } else if v == "test"@ {
            Ok(Environment::Test)
        } else if v == "staging"@ {
            Ok(Environment::Staging)
        } else if v == "production"@ || v == "prod"@ {
            Ok(Environment::Production)
        } else {
            Err("unknown environment `"@ + v + "`"@)
        }
    }

    /// Staging and production must follow production-grade security policy.
    pub fn is_deployed(self) -> (r: bool)
        ensures
            r == self.spec_is_deployed(),
    {
        matches!(self, Environment::Staging | Environment::Production)
    }

    pub fn as_str(self) -> (s: &'static str)
        ensures
            s@ == self.spec_as_str(),
    {
        match self {
            Environment::Development => "development",
            Environment::Test => "test",
            Environment::Staging => "staging",
            Environment::Production => "production",
        }
    }

    pub fn parse(value: &str) -> (r: Result<Environment, String>)
        ensures
            match r {
                Ok(e) => Environment::spec_parse(value@) == Ok::<Environment, Seq<char>>(e),
                Err(m) => Environment::spec_parse(value@) == Err::<Environment, Seq<char>>(m@),
            },
    {
        let lower = to_ascii_lowercase(value);
        let v = lower.as_str();
        if str_eq(v, "development") || str_eq(v, "dev") || str_eq(v, "local") {
            Ok(Environment::Development)
        } else if str_eq(v, "test") {
            Ok(Environment::Test)
        } else if str_eq(v, "staging") {
            Ok(Environment::Staging)
        } else if str_eq(v, "production") || str_eq(v, "prod") {
            Ok(Environment::Production)
        } else {
            Err(concat3("unknown environment `", v, "`"))
        }
    }
}

/// Parsing the name of an environment gives it back.
pub proof fn environment_string_round_trip(environment: Environment)
    ensures
        Environment::spec_parse(environment.spec_as_str()) == Ok::<Environment, Seq<char>>(environment),
{
    reveal_strlit("development");
    reveal_strlit("test");
    reveal_strlit("staging");
    reveal_strlit("production");
    reveal_strlit("dev");
    reveal_strlit("local");
    reveal_strlit("prod");
    let s = environment.spec_as_str();
    assert(to_ascii_lower(s) =~= s);
    assert("development"@.len() == 11 && "test"@.len() == 4 && "staging"@.len() == 7
        && "production"@.len() == 10 && "dev"@.len() == 3 && "local"@.len() == 5 && "prod"@.len() == 4);
    assert("test"@[0] == 't' && "local"@[0] == 'l' && "staging"@[0] == 's');
}

/// Deployed environments default to JSON logs, the others to readable text.
pub proof fn json_logs_by_default_exactly_when_deployed(environment: Environment)
    ensures
        (LogFormat::spec_default_for(environment) == LogFormat::Json) == environment.spec_is_deployed(),
{
}

impl std::str::FromStr for Environment {
    type Err = String;

    fn from_str(value: &str) -> (r: Result<Environment, String>)
        ensures
            match r {
                Ok(e) => Environment::spec_parse(value@) == Ok::<Environment, Seq<char>>(e),
                Err(m) => Environment::spec_parse(value@) == Err::<Environment, Seq<char>>(m@),
            },
    {
        Environment::parse(value)
    }
}

impl ConfigValue for Environment {
    open spec fn spec_parse(text: Seq<char>) -> Result<Environment, Seq<char>> {
        Environment::spec_parse(text)
    }

    fn parse_config(text: &str) -> (r: Result<Environment, String>) {
        Environment::parse(text)
    }
}

#[derive(Debug, Clone, Copy, PartialEq, Eq, Structural)]
pub enum LogFormat {
    Pretty,
    Json,
}

impl View for LogFormat {
    type V = LogFormat;

    open spec fn view(&self) -> LogFormat {
        *self
    }
}

impl LogFormat {
    pub open spec fn spec_default_for(environment: Environment) -> LogFormat {
        if environment.spec_is_deployed() {
            LogFormat::Json
        } else {
            LogFormat::Pretty
        }
    }

    pub open spec fn spec_parse(value: Seq<char>) -> Result<LogFormat, Seq<char>> {
        let v = to_ascii_lower(value);
        if v == "pretty"@ {
            Ok(LogFormat::Pretty)
        } else if v == "json"@ {
            Ok(LogFormat::Json)
        } else {
            Err("unknown log format `"@ + v + "`"@)
        }
    }

    /// Deployed environments log JSON; development and test log readable text.
    pub fn default_for(environment: Environment) -> (r: LogFormat)
        ensures
            r == LogFormat::spec_default_for(environment),
    {
        if environment.is_deployed() {
            LogFormat::Json
        } else {
            LogFormat::Pretty
        }
    }

    pub fn parse(value: &str) -> (r: Result<LogFormat, String>)
        ensures
            match r {
                Ok(f) => LogFormat::spec_parse(value@) == Ok::<LogFormat, Seq<char>>(f),
                Err(m) => LogFormat::spec_parse(value@) == Err::<LogFormat, Seq<char>>(m@),
            },
    {
        let lower = to_ascii_lowercase(value);
        let v = lower.as_str();
        if str_eq(v, "pretty") {
            Ok(LogFormat::Pretty)
        } else if str_eq(v, "json") {
            Ok(LogFormat::Json)
        } else {
            Err(concat3("unknown log format `", v, "`"))
        }
    }
}

impl std::str::FromStr for LogFormat {
    type Err = String;

    fn from_str(value: &str) -> (r: Result<LogFormat, String>)
        ensures
            match r {
                Ok(v) => LogFormat::spec_parse(value@) == Ok::<LogFormat, Seq<char>>(v),
                Err(m) => LogFormat::spec_parse(value@) == Err::<LogFormat, Seq<char>>(m@),
            },
    {
        LogFormat::parse(value)
    }
}

impl ConfigValue for LogFormat {
    open spec fn spec_parse(text: Seq<char>) -> Result<LogFormat, Seq<char>> {
        LogFormat::spec_parse(text)
    }

    fn parse_config(text: &str) -> (r: Result<LogFormat, String>) {
        LogFormat::parse(text)
    }
}

/// Listening address and request limits. `host` is the IP address the server
/// binds to.
pub struct ServerConfig {
    pub host: IpLiteral,
    pub port: u16,
    pub request_body_limit_bytes: usize,
    pub request_timeout_secs: u64,
    pub api_docs_enabled: bool,
}

pub struct TelemetryConfig {
    pub format: LogFormat,
    pub level: String,
}

pub struct DatabaseConfig {
    pub url: Secret,
    pub max_connections: u32,
    pub min_connections: u32,
    pub acquire_timeout_secs: u64,
    pub run_migrations: bool,
}

pub struct RedisConfig {
    pub url: Secret,
}

pub struct AuthConfig {
    pub jwt_secret: Secret,
    pub jwt_issuer: String,
    pub access_token_ttl_secs: u64,
    pub refresh_token_ttl_secs: u64,
}

pub struct StorageConfig {
    /// Present whenever storage is configured.
    pub endpoint: Option<String>,
    pub bucket: String,
    pub region: String,
    pub access_key: Secret,
    pub secret_key: Secret,
}

pub struct JobsConfig {
    pub enabled: bool,
    pub poll_interval_ms: u64,
    pub batch_size: i64,
}

pub struct AppConfig {
    pub environment: Environment,
    pub server: ServerConfig,
    pub telemetry: TelemetryConfig,
    pub database: DatabaseConfig,
    pub redis: RedisConfig,
    pub auth: AuthConfig,
    pub storage: Option<StorageConfig>,
    pub cors: CorsConfig,
    pub jobs: JobsConfig,
}

/// `Some(v)` holds `v`; `None` is never equal to a value.
pub open spec fn holds<T>(o: Option<T>, v: T) -> bool {
    o == Some(v)
}

impl StorageConfig {
    /// Why the storage settings cannot be read, if they cannot: `S3_BUCKET`
    /// is invalid, or it is present and one of the other S3 variables, read
    /// in this order, is invalid or missing.
    pub open spec fn spec_fault(vars: Seq<(Seq<char>, Seq<char>)>) -> Option<SettingFault> {
        match spec_optional::<String>(vars, "S3_BUCKET"@) {
            Err(reason) => Some(SettingFault::Invalid("S3_BUCKET"@, reason)),
            Ok(None) => None,
            Ok(Some(_)) => first_fault(
                required_fault::<String>(vars, "S3_ENDPOINT"@),
                first_fault(
                    required_fault::<String>(vars, "S3_REGION"@),
                    first_fault(
                        required_fault::<String>(vars, "S3_ACCESS_KEY"@),
                        required_fault::<String>(vars, "S3_SECRET_KEY"@),
                    ),
                ),
            ),
        }
    }

    /// `self` holds the storage settings of `vars`.
    pub open spec fn spec_from_vars(&self, vars: Seq<(Seq<char>, Seq<char>)>) -> bool {
        &&& spec_optional::<String>(vars, "S3_BUCKET"@) == Ok::<Option<Seq<char>>, Seq<char>>(
            Some(self.bucket@),
        )
        &&& self.endpoint matches Some(e) && holds(spec_required::<String>(vars, "S3_ENDPOINT"@), e@)
        &&& holds(spec_required::<String>(vars, "S3_REGION"@), self.region@)
        &&& holds(spec_required::<String>(vars, "S3_ACCESS_KEY"@), self.access_key@)
        &&& holds(spec_required::<String>(vars, "S3_SECRET_KEY"@), self.secret_key@)
    }

    /// Storage stays optional until the documents module ships; when
    /// `S3_BUCKET` is present, the remaining S3 variables become mandatory.
    pub fn from_env(vars: &EnvVars) -> (r: Result<Option<StorageConfig>, ConfigError>)
        ensures
            match StorageConfig::spec_fault(vars@) {
                Some(fault) => r matches Err(e) && e.reports(fault),
                None => r is Ok,
            },
            r matches Ok(None) ==> spec_optional::<String>(vars@, "S3_BUCKET"@) == Ok::<
                Option<Seq<char>>,
                Seq<char>,
            >(None),
            r matches Ok(Some(s)) ==> s.spec_from_vars(vars@),
    {
        let bucket = match optional::<String>(vars, "S3_BUCKET")? {
            Some(b) => b,
            None => {
                return Ok(None);
            },
        };
        let endpoint = Some(required::<String>(vars, "S3_ENDPOINT")?);
        let region = required::<String>(vars, "S3_REGION")?;
        let access_key = Secret::new(required::<String>(vars, "S3_ACCESS_KEY")?);
        let secret_key = Secret::new(required::<String>(vars, "S3_SECRET_KEY")?);
        Ok(Some(StorageConfig { endpoint, bucket, region, access_key, secret_key }))
    }
}

/// Why a configuration is refused by the cross-field rules, checked in this
/// order: `(variable, reason)`, or `None` when it is accepted.
pub open spec fn spec_rule_refusal(
    environment: Environment,
    jwt_secret: Seq<char>,
    access_ttl: u64,
    refresh_ttl: u64,
    min_connections: u32,
    max_connections: u32,
    allow_any_origin: bool,
) -> Option<(Seq<char>, Seq<char>)> {
    if (vstd::utf8::encode_utf8(jwt_secret).len() as usize) < 32 {
        Some(("JWT_SECRET"@, "must be at least 32 bytes"@))
    } else if access_ttl >= refresh_ttl {
        Some(("JWT_ACCESS_TTL"@, "must be shorter than JWT_REFRESH_TTL"@))
    } else if min_connections > max_connections {
        Some(("DATABASE_MIN_CONNECTIONS"@, "must not exceed DATABASE_MAX_CONNECTIONS"@))
    } else if environment.spec_is_deployed() && allow_any_origin {
        Some(("FRONTEND_URL"@, "wildcard origin is not allowed outside development"@))
    } else if environment.spec_is_deployed() && "change-me"@.len() <= jwt_secret.len()
        && jwt_secret.subrange(0, "change-me"@.len() as int) == "change-me"@ {
        Some(("JWT_SECRET"@, "placeholder secret detected"@))
    } else {
        None
    }
}

/// The first fault among the environment and server settings.
pub open spec fn server_fault(vars: Seq<(Seq<char>, Seq<char>)>) -> Option<SettingFault> {
    first_fault(
        optional_fault::<Environment>(vars, "APP_ENV"@),
        first_fault(
            optional_fault::<IpLiteral>(vars, "APP_HOST"@),
            first_fault(
                optional_fault::<u16>(vars, "APP_PORT"@),
                first_fault(
                    optional_fault::<usize>(vars, "APP_REQUEST_BODY_LIMIT"@),
                    first_fault(
                        optional_fault::<u64>(vars, "APP_REQUEST_TIMEOUT"@),
                        optional_fault::<bool>(vars, "APP_API_DOCS_ENABLED"@),
                    ),
                ),
            ),
        ),
    )
}

/// The first fault among the logging settings.
pub open spec fn telemetry_fault(vars: Seq<(Seq<char>, Seq<char>)>) -> Option<SettingFault> {
    first_fault(
        optional_fault::<LogFormat>(vars, "LOG_FORMAT"@),
        optional_fault::<String>(vars, "LOG_LEVEL"@),
    )
}

/// The first fault among the database settings.
pub open spec fn database_fault(vars: Seq<(Seq<char>, Seq<char>)>) -> Option<SettingFault> {
    first_fault(
        required_fault::<String>(vars, "DATABASE_URL"@),
        first_fault(
            optional_fault::<u32>(vars, "DATABASE_MAX_CONNECTIONS"@),
            first_fault(
                optional_fault::<u32>(vars, "DATABASE_MIN_CONNECTIONS"@),
                first_fault(
                    optional_fault::<u64>(vars, "DATABASE_ACQUIRE_TIMEOUT"@),
                    optional_fault::<bool>(vars, "DATABASE_RUN_MIGRATIONS"@),
                ),
            ),
        ),
    )
}

/// The first fault among the token settings.
pub open spec fn auth_fault(vars: Seq<(Seq<char>, Seq<char>)>) -> Option<SettingFault> {
    first_fault(
        required_fault::<String>(vars, "JWT_SECRET"@),
        first_fault(
            optional_fault::<String>(vars, "JWT_ISSUER"@),
            first_fault(
                optional_fault::<u64>(vars, "JWT_ACCESS_TTL"@),
                optional_fault::<u64>(vars, "JWT_REFRESH_TTL"@),
            ),
        ),
    )
}

/// The first fault among the job worker settings.
pub open spec fn jobs_fault(vars: Seq<(Seq<char>, Seq<char>)>) -> Option<SettingFault> {
    first_fault(
        optional_fault::<bool>(vars, "JOBS_ENABLED"@),
        first_fault(
            optional_fault::<u64>(vars, "JOBS_POLL_INTERVAL_MS"@),
            optional_fault::<i64>(vars, "JOBS_BATCH_SIZE"@),
        ),
    )
}

/// Why the settings of `vars` cannot be read, if they cannot: the fault of
/// the first setting that is invalid or missing, in the order in which the
/// settings are read.
pub open spec fn spec_settings_fault(vars: Seq<(Seq<char>, Seq<char>)>) -> Option<SettingFault> {
    first_fault(
        server_fault(vars),
        first_fault(
            telemetry_fault(vars),
            first_fault(
                database_fault(vars),
                first_fault(
                    required_fault::<String>(vars, "REDIS_URL"@),
                    first_fault(
                        auth_fault(vars),
                        first_fault(
                            StorageConfig::spec_fault(vars),
                            first_fault(spec_cors_fault(vars), jobs_fault(vars)),
                        ),
                    ),
                ),
            ),
        ),
    )
}

/// Why the settings of `vars` break a cross-field rule, if they do.
pub open spec fn spec_settings_refusal(vars: Seq<(Seq<char>, Seq<char>)>) -> Option<
    (Seq<char>, Seq<char>),
> {
    spec_rule_refusal(
        spec_value_or::<Environment>(vars, "APP_ENV"@, Environment::Development)->0,
        spec_required::<String>(vars, "JWT_SECRET"@)->0,
        spec_value_or::<u64>(vars, "JWT_ACCESS_TTL"@, 900)->0,
        spec_value_or::<u64>(vars, "JWT_REFRESH_TTL"@, 2592000)->0,
        spec_value_or::<u32>(vars, "DATABASE_MIN_CONNECTIONS"@, 2)->0,
        spec_value_or::<u32>(vars, "DATABASE_MAX_CONNECTIONS"@, 20)->0,
        spec_cors_outcome(spec_required::<String>(vars, "FRONTEND_URL"@)->0)->Ok_0.1,
    )
}

/// A configuration that passes the cross-field rules has a JWT secret of at
/// least 32 bytes, access tokens that expire before refresh tokens, no more
/// minimum than maximum database connections and, when deployed, neither a
/// wildcard origin nor a placeholder secret.
pub proof fn accepted_configuration_is_consistent(config: AppConfig)
    requires
        config.spec_refusal() is None,
    ensures
        (vstd::utf8::encode_utf8(config.auth.jwt_secret@).len() as usize) >= 32,
        config.auth.access_token_ttl_secs < config.auth.refresh_token_ttl_secs,
        config.database.min_connections <= config.database.max_connections,
        config.environment.spec_is_deployed() ==> !config.cors.allow_any_origin,
        config.environment.spec_is_deployed() ==> !("change-me"@.len() <= config.auth.jwt_secret@.len()
            && config.auth.jwt_secret@.subrange(0, "change-me"@.len() as int) == "change-me"@),
{
}

impl AppConfig {
    pub open spec fn spec_refusal(&self) -> Option<(Seq<char>, Seq<char>)> {
        spec_rule_refusal(
            self.environment,
            self.auth.jwt_secret@,
            self.auth.access_token_ttl_secs,
            self.auth.refresh_token_ttl_secs,
            self.database.min_connections,
            self.database.max_connections,
            self.cors.allow_any_origin,
        )
    }

    /// `self` holds the settings of `vars`.
    pub open spec fn spec_from_vars(&self, vars: Seq<(Seq<char>, Seq<char>)>) -> bool {
        let env = self.environment;
        &&& holds(spec_value_or::<Environment>(vars, "APP_ENV"@, Environment::Development), env)
        &&& holds(spec_value_or::<IpLiteral>(vars, "APP_HOST"@, "0.0.0.0"@), self.server.host@)
        &&& holds(spec_value_or::<u16>(vars, "APP_PORT"@, 8080), self.server.port)
        &&& holds(
            spec_value_or::<usize>(vars, "APP_REQUEST_BODY_LIMIT"@, 2097152),
            self.server.request_body_limit_bytes,
        )
        &&& holds(
            spec_value_or::<u64>(vars, "APP_REQUEST_TIMEOUT"@, 30),
            self.server.request_timeout_secs,
        )
        &&& holds(
            spec_value_or::<bool>(
                vars,
                "APP_API_DOCS_ENABLED"@,
                env == Environment::Development,
            ),
            self.server.api_docs_enabled,
        )
        &&& holds(
            spec_value_or::<LogFormat>(vars, "LOG_FORMAT"@, LogFormat::spec_default_for(env)),
            self.telemetry.format,
        )
        &&& holds(spec_value_or::<String>(vars, "LOG_LEVEL"@, "info"@), self.telemetry.level@)
        &&& holds(spec_required::<String>(vars, "DATABASE_URL"@), self.database.url@)
        &&& holds(
            spec_value_or::<u32>(vars, "DATABASE_MAX_CONNECTIONS"@, 20),
            self.database.max_connections,
        )
        &&& holds(
            spec_value_or::<u32>(vars, "DATABASE_MIN_CONNECTIONS"@, 2),
            self.database.min_connections,
        )
        &&& holds(
            spec_value_or::<u64>(vars, "DATABASE_ACQUIRE_TIMEOUT"@, 5),
            self.database.acquire_timeout_secs,
        )
        &&& holds(
            spec_value_or::<bool>(vars, "DATABASE_RUN_MIGRATIONS"@, false),
            self.database.run_migrations,
        )
        &&& holds(spec_required::<String>(vars, "REDIS_URL"@), self.redis.url@)
        &&& holds(spec_required::<String>(vars, "JWT_SECRET"@), self.auth.jwt_secret@)
        &&& holds(spec_value_or::<String>(vars, "JWT_ISSUER"@, "miracle-api"@), self.auth.jwt_issuer@)
        &&& holds(spec_value_or::<u64>(vars, "JWT_ACCESS_TTL"@, 900), self.auth.access_token_ttl_secs)
        &&& holds(
            spec_value_or::<u64>(vars, "JWT_REFRESH_TTL"@, 2592000),
            self.auth.refresh_token_ttl_secs,
        )
        &&& match self.storage {
            None => spec_optional::<String>(vars, "S3_BUCKET"@) == Ok::<Option<Seq<char>>, Seq<char>>(
                None,
            ),
            Some(storage) => storage.spec_from_vars(vars),
        }
        &&& spec_optional::<String>(vars, "FRONTEND_URL"@) matches Ok(Some(raw))
            && spec_cors_outcome(raw) == Ok::<(Seq<Seq<char>>, bool), Seq<char>>(
            (views(self.cors.allowed_origins@), self.cors.allow_any_origin),
        )
        &&& holds(spec_value_or::<bool>(vars, "JOBS_ENABLED"@, true), self.jobs.enabled)
        &&& holds(spec_value_or::<u64>(vars, "JOBS_POLL_INTERVAL_MS"@, 1000), self.jobs.poll_interval_ms)
        &&& holds(spec_value_or::<i64>(vars, "JOBS_BATCH_SIZE"@, 10), self.jobs.batch_size)
    }

    /// Reads the whole configuration from `vars`, then checks the cross-field
    /// rules. `server.host` is an IP address literal, checked here and kept as
    /// text.
    #[verifier::rlimit(60)]
    pub fn from_env(vars: &EnvVars) -> (r: Result<AppConfig, ConfigError>)
        ensures
            match spec_settings_fault(vars@) {
                Some(fault) => r matches Err(e) && e.reports(fault),
                None => match spec_settings_refusal(vars@) {
                    Some((name, reason)) => r matches Err(e) && e.is_invalid(name, reason),
                    None => r matches Ok(c) && c.spec_from_vars(vars@) && c.spec_refusal() is None,
                },
            },
    {
        let environment: Environment = optional_or(vars, "APP_ENV", Environment::Development)?;
        let host: IpLiteral = optional_or(vars, "APP_HOST", IpLiteral::unspecified())?;
        let port: u16 = optional_or(vars, "APP_PORT", 8080u16)?;
        let request_body_limit_bytes: usize = optional_or(
            vars,
            "APP_REQUEST_BODY_LIMIT",
            2 * 1024 * 1024usize,
        )?;
        let request_timeout_secs: u64 = optional_or(vars, "APP_REQUEST_TIMEOUT", 30u64)?;
        let api_docs_enabled: bool = optional_or(
            vars,
            "APP_API_DOCS_ENABLED",
            environment == Environment::Development,
        )?;
        let format: LogFormat = optional_or(vars, "LOG_FORMAT", LogFormat::default_for(environment))?;
        let level: String = optional_or(vars, "LOG_LEVEL", "info".to_owned())?;
        let database_url = Secret::new(required::<String>(vars, "DATABASE_URL")?);
        let max_connections: u32 = optional_or(vars, "DATABASE_MAX_CONNECTIONS", 20u32)?;
        let min_connections: u32 = optional_or(vars, "DATABASE_MIN_CONNECTIONS", 2u32)?;
        let acquire_timeout_secs: u64 = optional_or(vars, "DATABASE_ACQUIRE_TIMEOUT", 5u64)?;
        let run_migrations: bool = optional_or(vars, "DATABASE_RUN_MIGRATIONS", false)?;
        let redis_url = Secret::new(required::<String>(vars, "REDIS_URL")?);
        let jwt_secret = Secret::new(required::<String>(vars, "JWT_SECRET")?);
        let jwt_issuer: String = optional_or(vars, "JWT_ISSUER", "miracle-api".to_owned())?;
        let access_token_ttl_secs: u64 = optional_or(vars, "JWT_ACCESS_TTL", 900u64)?;
        let refresh_token_ttl_secs: u64 = optional_or(vars, "JWT_REFRESH_TTL", 2_592_000u64)?;
        let storage = StorageConfig::from_env(vars)?;
        let cors = CorsConfig::from_env(vars)?;
        let enabled: bool = optional_or(vars, "JOBS_ENABLED", true)?;
        let poll_interval_ms: u64 = optional_or(vars, "JOBS_POLL_INTERVAL_MS", 1000u64)?;
        let batch_size: i64 = optional_or(vars, "JOBS_BATCH_SIZE", 10i64)?;
        let config = AppConfig {
            environment,
            server: ServerConfig {
                host,
                port,
                request_body_limit_bytes,
                request_timeout_secs,
                api_docs_enabled,
            },
            telemetry: TelemetryConfig { format, level },
            database: DatabaseConfig {
                url: database_url,
                max_connections,
                min_connections,
                acquire_timeout_secs,
                run_migrations,
            },
            redis: RedisConfig { url: redis_url },
            auth: AuthConfig {
                jwt_secret,
                jwt_issuer,
                access_token_ttl_secs,
                refresh_token_ttl_secs,
            },
            storage,
            cors,
            jobs: JobsConfig { enabled, poll_interval_ms, batch_size },
        };
        config.validate()?;
        Ok(config)
    }

    /// Cross-field and environment-specific rules.
    pub fn validate(&self) -> (r: Result<(), ConfigError>)
        ensures
            match self.spec_refusal() {
                None => r is Ok,
                Some((name, reason)) => r matches Err(e) && e.is_invalid(name, reason),
            },
    {
        if self.auth.jwt_secret.expose().len() < 32 {
            return Err(ConfigError::invalid("JWT_SECRET", "must be at least 32 bytes".to_owned()));
        }
        if self.auth.access_token_ttl_secs >= self.auth.refresh_token_ttl_secs {
            return Err(
                ConfigError::invalid(
                    "JWT_ACCESS_TTL",
                    "must be shorter than JWT_REFRESH_TTL".to_owned(),
                ),
            );
        }
        if self.database.min_connections > self.database.max_connections {
            return Err(
                ConfigError::invalid(
                    "DATABASE_MIN_CONNECTIONS",
                    "must not exceed DATABASE_MAX_CONNECTIONS".to_owned(),
                ),
            );
        }
        if self.environment.is_deployed() {
            if self.cors.allow_any_origin {
                return Err(
                    ConfigError::invalid(
                        "FRONTEND_URL",
                        "wildcard origin is not allowed outside development".to_owned(),
                    ),
                );
            }
            if starts_with(self.auth.jwt_secret.expose(), "change-me") {
                return Err(
                    ConfigError::invalid("JWT_SECRET", "placeholder secret detected".to_owned()),
                );
            }
        }
        Ok(())
    }
}

} // verus!
