use student_service::config::{
    get_env, parse_env, require_env, AppConfig, AuthConfig, Config, DatabaseConfig, EnvVars, KafkaConfig,
    RedisConfig, SentryConfig, TelemetryConfig,
};
use student_service::user_service;

fn env(pairs: &[(&str, &str)]) -> EnvVars {
    EnvVars::new(pairs.iter().map(|(k, v)| (k.to_string(), v.to_string())).collect())
}

fn complete() -> Vec<(&'static str, &'static str)> {
    vec![
        ("JWT_SECRET", "s3cret"),
        ("DATABASE_PRIMARY_URL", "postgres://primary"),
        ("DATABASE_REPLICA_URL", "postgres://replica"),
        ("REDIS_URL", "redis://cache"),
    ]
}

#[test]
fn lookup_takes_the_first_occurrence() {
    let e = env(&[("A", "1"), ("B", "2"), ("A", "3")]);
    assert_eq!(e.var("A"), Some("1".to_string()));
    assert_eq!(e.var("B"), Some("2".to_string()));
    assert_eq!(e.var("C"), None);
}

#[test]
fn get_env_uses_default_when_unset() {
    let e = env(&[("APP_HOST", "127.0.0.1")]);
    assert_eq!(get_env(&e, "APP_HOST", "0.0.0.0"), "127.0.0.1");
    assert_eq!(get_env(&e, "APP_NAME", "student-service"), "student-service");
}

#[test]
fn require_env_records_missing_names() {
    let e = env(&[("PRESENT", "x")]);
    let mut missing = vec![];
    assert_eq!(require_env(&e, "PRESENT", &mut missing), Some("x".to_string()));
    assert!(missing.is_empty());
    assert_eq!(require_env(&e, "ABSENT", &mut missing), None);
    assert_eq!(missing, vec!["ABSENT".to_string()]);
}

#[test]
fn parse_env_records_unparseable_text() {
    let e = env(&[("N", "12"), ("BAD", "twelve"), ("Q", "a\"b")]);
    let mut invalid = vec![];
    assert_eq!(parse_env(&e, "N", 5u32, &mut invalid), 12);
    assert_eq!(parse_env(&e, "UNSET", 5u32, &mut invalid), 5);
    assert!(invalid.is_empty());
    assert_eq!(parse_env(&e, "BAD", 5u32, &mut invalid), 5);
    assert_eq!(parse_env(&e, "Q", true, &mut invalid), true);
    assert_eq!(invalid, vec!["BAD=\"twelve\"".to_string(), "Q=\"a\\\"b\"".to_string()]);
}

#[test]
fn app_config_defaults_and_silent_port_fallback() {
    let c = AppConfig::from_env(&env(&[]));
    assert_eq!(c.app_name, "student-service");
    assert_eq!(c.host, "0.0.0.0");
    assert_eq!(c.port, 8080);
    let c = AppConfig::from_env(&env(&[("APP_PORT", "not-a-port"), ("APP_NAME", "x")]));
    assert_eq!(c.port, 8080);
    assert_eq!(c.app_name, "x");
    let c = AppConfig::from_env(&env(&[("APP_PORT", "9000")]));
    assert_eq!(c.port, 9000);
}

#[test]
fn kafka_and_telemetry_defaults() {
    let k = KafkaConfig::from_env(&env(&[]));
    assert_eq!(k.broker, "localhost:9092");
    assert_eq!(k.topic_student_events, "student-events");
    assert_eq!(k.topic_supervision_events, "supervision-events");
    let mut invalid = vec![];
    let t = TelemetryConfig::from_env(&env(&[("OTEL_ENABLED", "false")]), &mut invalid);
    assert_eq!(t.otlp_endpoint, "http://localhost:4317");
    assert_eq!(t.service_name, "student-service");
    assert_eq!(t.service_version, "0.1.0");
    assert!(!t.enabled);
    assert!(invalid.is_empty());
    let t = TelemetryConfig::from_env(&env(&[("OTEL_ENABLED", "yes")]), &mut invalid);
    assert!(t.enabled);
    assert_eq!(invalid, vec!["OTEL_ENABLED=\"yes\"".to_string()]);
}

#[test]
fn secret_settings_and_their_redacted_debug_text() {
    let mut missing = vec![];
    let mut invalid = vec![];
    let a = AuthConfig::from_env(&env(&[("JWT_SECRET", "k"), ("JWT_EXPIRY_MINUTES", "15")]), &mut missing, &mut invalid);
    assert_eq!(a.jwt_secret, "k");
    assert_eq!(a.jwt_expiry_minutes, 15);
    assert_eq!(a.redacted_debug(), "AuthConfig { jwt_secret: \"[redacted]\", jwt_expiry_minutes: 15 }");
    let d = DatabaseConfig::from_env(&env(&[]), &mut missing, &mut invalid);
    assert_eq!(d.primary_url, "");
    assert_eq!(d.max_connections, 10);
    assert_eq!(
        d.redacted_debug(),
        "DatabaseConfig { primary_url: \"[redacted]\", replica_url: \"[redacted]\", max_connections: 10 }"
    );
    let r = RedisConfig::from_env(&env(&[("REDIS_URL", "redis://x")]), &mut missing);
    assert_eq!(r.url, "redis://x");
    assert_eq!(r.redacted_debug(), "RedisConfig { url: \"[redacted]\" }");
    assert_eq!(missing, vec!["DATABASE_PRIMARY_URL".to_string(), "DATABASE_REPLICA_URL".to_string()]);
    assert!(invalid.is_empty());
}

#[test]
fn debug_text_does_not_depend_on_secrets() {
    let mut m = vec![];
    let mut i = vec![];
    let a = AuthConfig::from_env(&env(&[("JWT_SECRET", "one")]), &mut m, &mut i);
    let b = AuthConfig::from_env(&env(&[("JWT_SECRET", "two")]), &mut m, &mut i);
    assert_eq!(a.redacted_debug(), b.redacted_debug());
}

#[test]
fn sentry_settings() {
    let mut invalid = vec![];
    let s = SentryConfig::from_env(&env(&[("SENTRY_DSN", "https://k@host/1")]), true, &mut invalid);
    assert_eq!(s.dsn, Some("https://k@host/1".to_string()));
    assert_eq!(s.environment, "development");
    assert!(invalid.is_empty());
    let s = SentryConfig::from_env(&env(&[("SENTRY_TRACES_SAMPLE_RATE", "often")]), false, &mut invalid);
    assert_eq!(s.dsn, None);
    assert_eq!(invalid, vec!["SENTRY_TRACES_SAMPLE_RATE=\"often\"".to_string()]);
}

#[test]
fn config_succeeds_with_required_settings() {
    let c = Config::from_env(&env(&complete()), true);
    let c = match c {
        Ok(c) => c,
        Err(_) => panic!("expected settings"),
    };
    assert_eq!(c.auth.jwt_secret, "s3cret");
    assert_eq!(c.database.replica_url, "postgres://replica");
    assert_eq!(c.redis.url, "redis://cache");
    assert_eq!(c.app.port, 8080);
}

#[test]
fn config_lists_every_missing_and_invalid_setting() {
    let e = env(&[("DATABASE_REPLICA_URL", "r"), ("JWT_EXPIRY_MINUTES", "-5"), ("OTEL_ENABLED", "1"),
        ("DB_MAX_CONNECTIONS", "10")]);
    match Config::from_env(&e, false) {
        Ok(_) => panic!("expected an error"),
        Err(err) => {
            assert_eq!(err.missing, vec!["JWT_SECRET", "DATABASE_PRIMARY_URL", "REDIS_URL"]);
            assert_eq!(err.invalid, vec!["JWT_EXPIRY_MINUTES=\"-5\"", "OTEL_ENABLED=\"1\""]);
            assert_eq!(
                err.message(),
                "Missing required env vars: JWT_SECRET, DATABASE_PRIMARY_URL, REDIS_URL\nInvalid env var values: JWT_EXPIRY_MINUTES=\"-5\", OTEL_ENABLED=\"1\"\n"
            );
        }
    }
}

#[test]
fn config_fails_on_invalid_value_alone() {
    let mut pairs = complete();
    pairs.push(("DB_MAX_CONNECTIONS", "lots"));
    pairs.push(("SENTRY_TRACES_SAMPLE_RATE", "x"));
    match Config::from_env(&env(&pairs), false) {
        Ok(_) => panic!("expected an error"),
        Err(err) => {
            assert!(err.missing.is_empty());
            assert_eq!(err.invalid, vec!["DB_MAX_CONNECTIONS=\"lots\"", "SENTRY_TRACES_SAMPLE_RATE=\"x\""]);
            assert_eq!(err.message(), "Invalid env var values: DB_MAX_CONNECTIONS=\"lots\", SENTRY_TRACES_SAMPLE_RATE=\"x\"\n");
        }
    }
}

#[test]
fn user_service_settings_and_database_url() {
    let e = env(&[
        ("DB_HOST", "db"), ("DB_PORT", "5432"), ("DB_USER", "u"), ("DB_PASSWORD", "p"), ("DB_NAME", "users"),
        ("REDIS_ADDR", "cache:6379"), ("KAFKA_BROKER", "k:9092"), ("OTP_SERVICE_ADDR", "otp"),
        ("FILE_SERVICE_ADDR", "files"),
    ]);
    assert!(user_service::Config::has_required(&e));
    let c = user_service::Config::load(&e);
    assert_eq!(c.port, "8080");
    assert_eq!(c.redis_password, "");
    assert_eq!(c.database_url(), "postgres://u:p@db:5432/users");
    assert!(!user_service::Config::has_required(&env(&[("DB_HOST", "db")])));
}
