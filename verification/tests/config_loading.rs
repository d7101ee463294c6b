use miracle_backend::config::env::{optional, optional_or, required};
use miracle_backend::config::host::ip_literal_ok;
use miracle_backend::config::parse::{parse_i64, parse_unsigned, IntErrorKind};
use miracle_backend::config::{AppConfig, ConfigError, CorsConfig, EnvVars, Environment, LogFormat, StorageConfig};

const SECRET: &str = "0123456789abcdef0123456789abcdef";

fn vars(pairs: &[(&str, &str)]) -> EnvVars {
    EnvVars::new(
        pairs
            .iter()
            .map(|(k, v)| (k.to_string(), v.to_string()))
            .collect(),
    )
}

fn base() -> Vec<(&'static str, &'static str)> {
    vec![
        ("DATABASE_URL", "postgres://localhost/miracle"),
        ("REDIS_URL", "redis://localhost"),
        ("JWT_SECRET", SECRET),
        ("FRONTEND_URL", "https://app.example.com/"),
    ]
}

fn invalid(e: ConfigError) -> (String, String) {
    match e {
        ConfigError::Invalid { name, reason } => (name.to_string(), reason),
        ConfigError::Missing(name) => panic!("unexpected missing {name}"),
    }
}

#[test]
fn defaults_apply_when_only_required_settings_are_given() {
    let config = AppConfig::from_env(&vars(&base())).unwrap();
    assert_eq!(config.environment, Environment::Development);
    assert_eq!(config.server.host.as_str(), "0.0.0.0");
    assert_eq!(config.server.port, 8080);
    assert_eq!(config.server.request_body_limit_bytes, 2 * 1024 * 1024);
    assert_eq!(config.server.request_timeout_secs, 30);
    assert!(config.server.api_docs_enabled);
    assert_eq!(config.telemetry.format, LogFormat::Pretty);
    assert_eq!(config.telemetry.level, "info");
    assert_eq!(config.database.url.expose(), "postgres://localhost/miracle");
    assert_eq!(config.database.max_connections, 20);
    assert_eq!(config.database.min_connections, 2);
    assert_eq!(config.database.acquire_timeout_secs, 5);
    assert!(!config.database.run_migrations);
    assert_eq!(config.auth.jwt_issuer, "miracle-api");
    assert_eq!(config.auth.access_token_ttl_secs, 900);
    assert_eq!(config.auth.refresh_token_ttl_secs, 2_592_000);
    assert!(config.storage.is_none());
    assert_eq!(config.cors.allowed_origins, vec!["https://app.example.com".to_string()]);
    assert!(!config.cors.allow_any_origin);
    assert!(config.jobs.enabled);
    assert_eq!(config.jobs.poll_interval_ms, 1000);
    assert_eq!(config.jobs.batch_size, 10);
}

#[test]
fn production_defaults_to_json_logs_and_no_api_docs() {
    let mut pairs = base();
    pairs.push(("APP_ENV", " PROD "));
    let config = AppConfig::from_env(&vars(&pairs)).unwrap();
    assert_eq!(config.environment, Environment::Production);
    assert_eq!(config.telemetry.format, LogFormat::Json);
    assert!(!config.server.api_docs_enabled);
}

#[test]
fn missing_database_url_is_reported() {
    let pairs: Vec<_> = base().into_iter().filter(|(k, _)| *k != "DATABASE_URL").collect();
    match AppConfig::from_env(&vars(&pairs)) {
        Err(ConfigError::Missing(name)) => assert_eq!(name, "DATABASE_URL"),
        _ => panic!("expected a missing variable"),
    }
}

#[test]
fn blank_required_value_counts_as_missing() {
    let v = vars(&[("REDIS_URL", "   ")]);
    assert!(matches!(required::<String>(&v, "REDIS_URL"), Err(ConfigError::Missing("REDIS_URL"))));
}

#[test]
fn short_jwt_secret_is_rejected() {
    let mut pairs = base();
    pairs.retain(|(k, _)| *k != "JWT_SECRET");
    pairs.push(("JWT_SECRET", "too-short"));
    let (name, reason) = invalid(AppConfig::from_env(&vars(&pairs)).err().unwrap());
    assert_eq!(name, "JWT_SECRET");
    assert_eq!(reason, "must be at least 32 bytes");
}

#[test]
fn access_ttl_must_be_shorter_than_refresh_ttl() {
    let mut pairs = base();
    pairs.push(("JWT_ACCESS_TTL", "100"));
    pairs.push(("JWT_REFRESH_TTL", "100"));
    let (name, reason) = invalid(AppConfig::from_env(&vars(&pairs)).err().unwrap());
    assert_eq!(name, "JWT_ACCESS_TTL");
    assert_eq!(reason, "must be shorter than JWT_REFRESH_TTL");
}

#[test]
fn min_connections_cannot_exceed_max() {
    let mut pairs = base();
    pairs.push(("DATABASE_MIN_CONNECTIONS", "30"));
    let (name, reason) = invalid(AppConfig::from_env(&vars(&pairs)).err().unwrap());
    assert_eq!(name, "DATABASE_MIN_CONNECTIONS");
    assert_eq!(reason, "must not exceed DATABASE_MAX_CONNECTIONS");
}

#[test]
fn wildcard_origin_is_refused_when_deployed() {
    let mut pairs = base();
    pairs.retain(|(k, _)| *k != "FRONTEND_URL");
    pairs.push(("FRONTEND_URL", "*"));
    pairs.push(("APP_ENV", "staging"));
    let (name, reason) = invalid(AppConfig::from_env(&vars(&pairs)).err().unwrap());
    assert_eq!(name, "FRONTEND_URL");
    assert_eq!(reason, "wildcard origin is not allowed outside development");
}

#[test]
fn placeholder_secret_is_refused_when_deployed() {
    let mut pairs = base();
    pairs.retain(|(k, _)| *k != "JWT_SECRET");
    pairs.push(("JWT_SECRET", "change-me-change-me-change-me-change-me"));
    pairs.push(("APP_ENV", "production"));
    let (name, reason) = invalid(AppConfig::from_env(&vars(&pairs)).err().unwrap());
    assert_eq!(name, "JWT_SECRET");
    assert_eq!(reason, "placeholder secret detected");

    // The same secret is accepted in development.
    let mut dev = base();
    dev.retain(|(k, _)| *k != "JWT_SECRET");
    dev.push(("JWT_SECRET", "change-me-change-me-change-me-change-me"));
    assert!(AppConfig::from_env(&vars(&dev)).is_ok());
}

#[test]
fn invalid_number_reports_the_parse_error() {
    let (name, reason) = invalid(optional::<u16>(&vars(&[("APP_PORT", "80a")]), "APP_PORT").err().unwrap());
    assert_eq!(name, "APP_PORT");
    assert_eq!(reason, "invalid digit found in string");
    let (_, reason) = invalid(optional::<u16>(&vars(&[("APP_PORT", "70000")]), "APP_PORT").err().unwrap());
    assert_eq!(reason, "number too large to fit in target type");
}

#[test]
fn optional_values_are_trimmed_and_defaulted() {
    let v = vars(&[("APP_PORT", "  9090 "), ("BLANK", "  ")]);
    assert_eq!(optional::<u16>(&v, "APP_PORT").unwrap(), Some(9090));
    assert_eq!(optional::<u16>(&v, "BLANK").unwrap(), None);
    assert_eq!(optional_or::<u16>(&v, "UNSET", 8080).unwrap(), 8080);
}

#[test]
fn booleans_must_be_exactly_true_or_false() {
    let v = vars(&[("A", "true"), ("B", "yes")]);
    assert!(optional_or::<bool>(&v, "A", false).unwrap());
    let (_, reason) = invalid(optional::<bool>(&v, "B").err().unwrap());
    assert_eq!(reason, "provided string was not `true` or `false`");
}

#[test]
fn integer_parsing_follows_std() {
    assert_eq!(parse_unsigned("+42", u64::MAX), Ok(42));
    assert_eq!(parse_unsigned("", u64::MAX), Err(IntErrorKind::Empty));
    assert_eq!(parse_unsigned("+", u64::MAX), Err(IntErrorKind::InvalidDigit));
    assert_eq!(parse_unsigned("-1", u64::MAX), Err(IntErrorKind::InvalidDigit));
    assert_eq!(parse_unsigned("65536", u16::MAX as u64), Err(IntErrorKind::PosOverflow));
    assert_eq!(parse_unsigned("18446744073709551615", u64::MAX), Ok(u64::MAX));
    assert_eq!(parse_i64("-9223372036854775808"), Ok(i64::MIN));
    assert_eq!(parse_i64("-9223372036854775809"), Err(IntErrorKind::NegOverflow));
    assert_eq!(parse_i64("-12"), Ok(-12));
    for text in ["0", "7", "+15", "-3", "123456789", "9x", "", "-"] {
        assert_eq!(parse_i64(text).ok(), text.parse::<i64>().ok(), "{text}");
        assert_eq!(parse_unsigned(text, u32::MAX as u64).ok().map(|n| n as u32), text.parse::<u32>().ok(), "{text}");
    }
}

#[test]
fn unknown_environment_names_the_lowercased_value() {
    assert_eq!(Environment::parse("Local"), Ok(Environment::Development));
    assert_eq!(Environment::parse("QA"), Err("unknown environment `qa`".to_string()));
    assert_eq!(LogFormat::parse("JSON"), Ok(LogFormat::Json));
    assert_eq!(LogFormat::parse("xml"), Err("unknown log format `xml`".to_string()));
    for env in [Environment::Development, Environment::Test, Environment::Staging, Environment::Production] {
        assert_eq!(env.as_str().parse::<Environment>(), Ok(env));
    }
}

#[test]
fn storage_requires_the_other_s3_settings_once_a_bucket_is_set() {
    assert!(StorageConfig::from_env(&vars(&[])).unwrap().is_none());
    let missing = StorageConfig::from_env(&vars(&[("S3_BUCKET", "docs")]));
    assert!(matches!(missing, Err(ConfigError::Missing("S3_ENDPOINT"))));
    let no_endpoint = StorageConfig::from_env(&vars(&[
        ("S3_BUCKET", "docs"),
        ("S3_REGION", "eu-west-1"),
        ("S3_ACCESS_KEY", "ak"),
        ("S3_SECRET_KEY", "sk"),
    ]));
    assert!(matches!(no_endpoint, Err(ConfigError::Missing("S3_ENDPOINT"))));
    let storage = StorageConfig::from_env(&vars(&[
        ("S3_BUCKET", "docs"),
        ("S3_ENDPOINT", "https://s3.example.com"),
        ("S3_REGION", "ap-south-1"),
        ("S3_ACCESS_KEY", "key"),
        ("S3_SECRET_KEY", "secret"),
    ]))
    .unwrap()
    .unwrap();
    assert_eq!(storage.bucket, "docs");
    assert_eq!(storage.region, "ap-south-1");
    assert_eq!(storage.endpoint.as_deref(), Some("https://s3.example.com"));
    assert_eq!(storage.access_key.expose(), "key");
    assert_eq!(storage.secret_key.expose(), "secret");
}

#[test]
fn cors_origins_are_split_trimmed_and_checked() {
    let cors = CorsConfig::from_env(&vars(&[(
        "FRONTEND_URL",
        " https://a.example.com// , ,*,http://localhost:3000",
    )]))
    .unwrap();
    assert!(cors.allow_any_origin);
    assert_eq!(
        cors.allowed_origins,
        vec!["https://a.example.com".to_string(), "http://localhost:3000".to_string()]
    );

    let (_, reason) = invalid(CorsConfig::from_env(&vars(&[("FRONTEND_URL", " , ")])).err().unwrap());
    assert_eq!(reason, "at least one origin is required");

    let (_, reason) = invalid(
        CorsConfig::from_env(&vars(&[("FRONTEND_URL", "https://ok.example.com,bad\u{7f}origin")]))
            .err()
            .unwrap(),
    );
    assert_eq!(reason, "contains an invalid origin");
}

#[test]
fn the_first_unreadable_setting_is_reported() {
    // APP_PORT is read before DATABASE_URL, so its parse error wins.
    let config = AppConfig::from_env(&vars(&[("APP_PORT", "http"), ("JOBS_BATCH_SIZE", "x")]));
    let (name, reason) = invalid(config.err().unwrap());
    assert_eq!(name, "APP_PORT");
    assert_eq!(reason, "invalid digit found in string");

    // Storage is read before the allowed origins.
    let mut pairs: Vec<_> = base().into_iter().filter(|(k, _)| *k != "FRONTEND_URL").collect();
    pairs.push(("S3_BUCKET", "docs"));
    match AppConfig::from_env(&vars(&pairs)) {
        Err(ConfigError::Missing(name)) => assert_eq!(name, "S3_ENDPOINT"),
        other => panic!("expected S3_ENDPOINT to be missing, got {:?}", other.err()),
    }
}

#[test]
fn hosts_must_be_ip_address_literals() {
    for ok in [
        "0.0.0.0",
        "127.0.0.1",
        "255.255.255.255",
        "::",
        "::1",
        "1::",
        "FE80::1",
        "2001:db8::8a2e:370:7334",
        "2001:0db8:0000:0000:0000:ff00:0042:8329",
        "::ffff:192.0.2.128",
        "1:2:3:4:5:6:1.2.3.4",
        "1:2:3:4:5:6:7::",
        "::2:3:4:5:6:7:8",
    ] {
        assert!(ip_literal_ok(ok), "{ok}");
    }
    for bad in [
        "",
        "localhost",
        "256.0.0.1",
        "01.2.3.4",
        "1.2.3",
        "1.2.3.4.5",
        "1.2.3.4x",
        ":::",
        "1::2::3",
        "12345::",
        "1:2:3:4:5:6:7",
        "1:2:3:4:5:6:7:8:9",
        "1:2:3:4::5:6:7:8",
        "1.2.3.4::",
        "::1.2.3.4:5",
        "1:2:3:4:5:6::1.2.3.4",
    ] {
        assert!(!ip_literal_ok(bad), "{bad}");
    }
    let mut pairs = base();
    pairs.push(("APP_HOST", " localhost "));
    pairs.push(("APP_PORT", "x"));
    let (name, reason) = invalid(AppConfig::from_env(&vars(&pairs)).err().unwrap());
    assert_eq!((name.as_str(), reason.as_str()), ("APP_HOST", "invalid IP address syntax"));
}
