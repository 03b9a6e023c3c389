//! Service configuration read from a snapshot of the process environment:
//! defaults for optional settings, the list of required settings that are
//! absent, and the list of settings whose text does not parse.

use vstd::prelude::*;
use crate::text::{parse_unsigned, parse_unsigned_text, parse_bool, parse_bool_text, same_text, nat_text, push_nat, joined, texts, join_texts};
use crate::json::pair_texts;

verus! {

/// A snapshot of environment variables as `(name, value)` pairs. A name
/// that occurs more than once is read from its first occurrence.
pub struct EnvVars {
    pub vars: Vec<(String, String)>,
}

/// The value of `key` in a list of `(name, value)` pairs: the first pair
/// with that name.
pub open spec fn lookup(vars: Seq<(Seq<char>, Seq<char>)>, key: Seq<char>) -> Option<Seq<char>>
    decreases vars.len(),
{
    if vars.len() == 0 {
        None
    } else if vars[0].0 == key {
        Some(vars[0].1)
    } else {
        lookup(vars.drop_first(), key)
    }
}

/// A variable's value is the value of its first occurrence, and a
/// variable that does not occur is unset.
pub proof fn lemma_lookup_first(vars: Seq<(Seq<char>, Seq<char>)>, key: Seq<char>, i: int)
    ensures
        (0 <= i < vars.len() && vars[i].0 == key && (forall|j: int| 0 <= j < i ==> vars[j].0 != key))
            ==> lookup(vars, key) == Some(vars[i].1),
        (forall|j: int| 0 <= j < vars.len() ==> vars[j].0 != key) ==> lookup(vars, key) is None,
    decreases vars.len(),
{
    if vars.len() > 0 {
        lemma_lookup_first(vars.drop_first(), key, i - 1);
        if 0 < i < vars.len() && vars[i].0 == key && (forall|j: int| 0 <= j < i ==> vars[j].0 != key) {
            assert(vars[0].0 != key);
            assert forall|j: int| 0 <= j < i - 1 implies vars.drop_first()[j].0 != key by {
                assert(vars.drop_first()[j] == vars[j + 1]);
            }
            assert(vars.drop_first()[i - 1] == vars[i]);
        }
        if forall|j: int| 0 <= j < vars.len() ==> vars[j].0 != key {
            assert(vars[0].0 != key);
            assert forall|j: int| 0 <= j < vars.len() - 1 implies vars.drop_first()[j].0 != key by {
                assert(vars.drop_first()[j] == vars[j + 1]);
            }
        }
    }
}

impl EnvVars {
    /// The variables as pairs of character sequences.
    pub open spec fn pairs(&self) -> Seq<(Seq<char>, Seq<char>)> {
        pair_texts(self.vars@)
    }

    /// The value of variable `key`, if it is set.
    pub open spec fn value(&self, key: Seq<char>) -> Option<Seq<char>> {
        lookup(self.pairs(), key)
    }

    pub fn new(vars: Vec<(String, String)>) -> (r: EnvVars)
        ensures
            r.vars == vars,
    {
        EnvVars { vars }
    }

    /// `std::env::var(key).ok()` on the snapshot.
    pub fn var(&self, key: &str) -> (r: Option<String>)
        ensures
            match r {
                Some(v) => self.value(key@) == Some(v@),
                None => self.value(key@) is None,
            },
    {
        let n = self.vars.len();
        let mut i: usize = 0;
        assert(self.pairs().skip(0) =~= self.pairs());
        while i < n
            invariant
                n == self.vars@.len(),
                i <= n,
                lookup(self.pairs(), key@) == lookup(self.pairs().skip(i as int), key@),
            decreases n - i,
        {
            assert(self.pairs().skip(i as int)[0] == (self.vars@[i as int].0@, self.vars@[i as int].1@));
            if same_text(self.vars[i].0.as_str(), key) {
                return Some(self.vars[i].1.clone());
            }
            assert(self.pairs().skip(i as int).drop_first() =~= self.pairs().skip(i + 1));
            i = i + 1;
        }
        assert(self.pairs().skip(n as int) =~= Seq::<(Seq<char>, Seq<char>)>::empty());
        None
    }
}

/// A setting type read from the text of an environment variable.
pub trait EnvValue: Sized + Copy {
    /// What `str::parse` gives for this type.
    spec fn from_env_text(s: Seq<char>) -> Option<Self>;

    /// Parses the text as `str::parse` does.
    fn parse_env_text(s: &str) -> (r: Option<Self>)
        ensures
            r == Self::from_env_text(s@),
    ;
}

impl EnvValue for u16 {
    open spec fn from_env_text(s: Seq<char>) -> Option<u16> {
        match parse_unsigned(s, 65535) {
            Some(v) => Some(v as u16),
            None => None,
        }
    }

    fn parse_env_text(s: &str) -> (r: Option<u16>) {
        match parse_unsigned_text(s, 65535) {
            Some(v) => Some(v as u16),
            None => None,
        }
    }
}

impl EnvValue for u32 {
    open spec fn from_env_text(s: Seq<char>) -> Option<u32> {
        match parse_unsigned(s, 4294967295) {
            Some(v) => Some(v as u32),
            None => None,
        }
    }

    fn parse_env_text(s: &str) -> (r: Option<u32>) {
        match parse_unsigned_text(s, 4294967295) {
            Some(v) => Some(v as u32),
            None => None,
        }
    }
}

impl EnvValue for u64 {
    open spec fn from_env_text(s: Seq<char>) -> Option<u64> {
        match parse_unsigned(s, 18446744073709551615) {
            Some(v) => Some(v as u64),
            None => None,
        }
    }

    fn parse_env_text(s: &str) -> (r: Option<u64>) {
        parse_unsigned_text(s, 18446744073709551615)
    }
}

impl EnvValue for bool {
    open spec fn from_env_text(s: Seq<char>) -> Option<bool> {
        parse_bool(s)
    }

    fn parse_env_text(s: &str) -> (r: Option<bool>) {
        parse_bool_text(s)
    }
}

/// The text that `format!("{:?}", s)` gives for a string: the string in
/// double quotes with Rust's debug escapes.
pub uninterp spec fn debug_text(s: Seq<char>) -> Seq<char>;

/// `format!("{:?}", s)` for a `&str`.
#[verifier::external_body]
fn debug_string(s: &str) -> (r: String)
    ensures
        r@ == debug_text(s@),
{
    format!("{:?}", s)
}

/// The entry recorded for a variable whose text does not parse:
/// `format!("{}={:?}", key, value)`.
pub open spec fn invalid_entry(key: Seq<char>, value: Seq<char>) -> Seq<char> {
    key + "="@ + debug_text(value)
}

/// The value of `key`, or `default` when it is not set.
pub open spec fn text_or(env: EnvVars, key: Seq<char>, default: Seq<char>) -> Seq<char> {
    match env.value(key) {
        Some(v) => v,
        None => default,
    }
}

/// The value of `key` parsed as `T`, or `default` when it is not set or
/// does not parse.
pub open spec fn parsed_or<T: EnvValue>(env: EnvVars, key: Seq<char>, default: T) -> T {
    match env.value(key) {
        Some(v) => match T::from_env_text(v) {
            Some(p) => p,
            None => default,
        },
        None => default,
    }
}

/// The entries that reading `key` as `T` adds to the list of invalid
/// settings: one when it is set and does not parse, none otherwise.
pub open spec fn parse_complaints<T: EnvValue>(env: EnvVars, key: Seq<char>) -> Seq<Seq<char>> {
    match env.value(key) {
        Some(v) => if T::from_env_text(v) is None { seq![invalid_entry(key, v)] } else { Seq::empty() },
        None => Seq::empty(),
    }
}

/// The entries that requiring `key` adds to the list of missing settings.
pub open spec fn missing_complaints(env: EnvVars, key: Seq<char>) -> Seq<Seq<char>> {
    if env.value(key) is None { seq![key] } else { Seq::empty() }
}

/// The value of `key`, or `default` when it is not set.
pub fn get_env(env: &EnvVars, key: &str, default: &str) -> (r: String)
    ensures
        r@ == text_or(*env, key@, default@),
{
    match env.var(key) {
        Some(v) => v,
        None => default.to_string(),
    }
}

/// The value of a required variable; when it is not set, its name is
/// added to `missing`.
pub fn require_env(env: &EnvVars, key: &str, missing: &mut Vec<String>) -> (r: Option<String>)
    ensures
        match r {
            Some(v) => env.value(key@) == Some(v@),
            None => env.value(key@) is None,
        },
        texts(final(missing)@) == texts(old(missing)@) + missing_complaints(*env, key@),
{
    match env.var(key) {
        Some(v) => {
            assert(texts(missing@) =~= texts(old(missing)@) + missing_complaints(*env, key@));
            Some(v)
        },
        None => {
            missing.push(key.to_string());
            assert(texts(missing@) =~= texts(old(missing)@) + missing_complaints(*env, key@));
            None
        },
    }
}

/// The value of `key` parsed as `T`, or `default`; when the variable is set
/// but does not parse, `KEY="text"` is added to `invalid`.
pub fn parse_env<T: EnvValue>(env: &EnvVars, key: &str, default: T, invalid: &mut Vec<String>) -> (r: T)
    ensures
        r == parsed_or(*env, key@, default),
        texts(final(invalid)@) == texts(old(invalid)@) + parse_complaints::<T>(*env, key@),
{
    match env.var(key) {
        Some(v) => match T::parse_env_text(v.as_str()) {
            Some(p) => {
                assert(texts(invalid@) =~= texts(old(invalid)@) + parse_complaints::<T>(*env, key@));
                p
            },
            None => {
                let mut entry = key.to_string();
                entry.append("=");
                let shown = debug_string(v.as_str());
                entry.append(shown.as_str());
                invalid.push(entry);
                assert(texts(invalid@) =~= texts(old(invalid)@) + parse_complaints::<T>(*env, key@));
                default
            },
        },
        None => {
            assert(texts(invalid@) =~= texts(old(invalid)@) + parse_complaints::<T>(*env, key@));
            default
        },
    }
}


/// Name, listening host and port of the HTTP service.
#[derive(Debug, Clone)]
pub struct AppConfig {
    pub app_name: String,
    pub host: String,
    pub port: u16,
}

impl AppConfig {
    /// Whether the settings are those that `env` gives.
    pub open spec fn reads(self, env: EnvVars) -> bool {
        &&& self.app_name@ == text_or(env, "APP_NAME"@, "student-service"@)
        &&& self.host@ == text_or(env, "APP_HOST"@, "0.0.0.0"@)
        &&& self.port == parsed_or(env, "APP_PORT"@, 8080u16)
    }

    /// `APP_NAME` (default `student-service`), `APP_HOST` (default
    /// `0.0.0.0`) and `APP_PORT` (default 8080; a text that does not parse
    /// also gives 8080 and is not reported).
    pub fn from_env(env: &EnvVars) -> (r: AppConfig)
        ensures
            r.reads(*env),
    {
        let mut ignored: Vec<String> = Vec::new();
        AppConfig {
            app_name: get_env(env, "APP_NAME", "student-service"),
            host: get_env(env, "APP_HOST", "0.0.0.0"),
            port: parse_env(env, "APP_PORT", 8080u16, &mut ignored),
        }
    }
}

/// Token signing settings.
#[derive(Clone)]
pub struct AuthConfig {
    pub jwt_secret: String,
    pub jwt_expiry_minutes: u64,
}

/// The debug text of an [`AuthConfig`]: the secret is shown as `[redacted]`.
pub open spec fn auth_debug_text(expiry: u64) -> Seq<char> {
    "AuthConfig { jwt_secret: \"[redacted]\", jwt_expiry_minutes: "@ + nat_text(expiry as nat) + " }"@
}

impl AuthConfig {
    /// Whether the settings are those that `env` gives.
    pub open spec fn reads(self, env: EnvVars) -> bool {
        &&& self.jwt_secret@ == text_or(env, "JWT_SECRET"@, Seq::empty())
        &&& self.jwt_expiry_minutes == parsed_or(env, "JWT_EXPIRY_MINUTES"@, 60u64)
    }

    /// `JWT_SECRET` is required (empty when absent, and recorded as
    /// missing); `JWT_EXPIRY_MINUTES` defaults to 60.
    pub fn from_env(env: &EnvVars, missing: &mut Vec<String>, invalid: &mut Vec<String>) -> (r: AuthConfig)
        ensures
            r.reads(*env),
            texts(final(missing)@) == texts(old(missing)@) + missing_complaints(*env, "JWT_SECRET"@),
            texts(final(invalid)@) == texts(old(invalid)@) + parse_complaints::<u64>(*env, "JWT_EXPIRY_MINUTES"@),
    {
        let secret = require_env(env, "JWT_SECRET", missing);
        let jwt_secret = match secret {
            Some(v) => v,
            None => String::new(),
        };
        AuthConfig {
            jwt_secret,
            jwt_expiry_minutes: parse_env(env, "JWT_EXPIRY_MINUTES", 60u64, invalid),
        }
    }

    /// What `{:?}` shows of the settings: the secret is hidden.
    pub fn redacted_debug(&self) -> (r: String)
        ensures
            r@ == auth_debug_text(self.jwt_expiry_minutes),
    {
        let mut r = String::new();
        r.append("AuthConfig { jwt_secret: \"[redacted]\", jwt_expiry_minutes: ");
        push_nat(&mut r, self.jwt_expiry_minutes as u128);
        r.append(" }");
        assert(r@ =~= auth_debug_text(self.jwt_expiry_minutes));
        r
    }
}

/// Database connection settings.
#[derive(Clone)]
pub struct DatabaseConfig {
    pub primary_url: String,
    pub replica_url: String,
    pub max_connections: u32,
}

/// The debug text of a [`DatabaseConfig`]: both URLs are shown as `[redacted]`.
pub open spec fn database_debug_text(max_connections: u32) -> Seq<char> {
    "DatabaseConfig { primary_url: \"[redacted]\", replica_url: \"[redacted]\", max_connections: "@
        + nat_text(max_connections as nat) + " }"@
}

impl DatabaseConfig {
    /// Whether the settings are those that `env` gives.
    pub open spec fn reads(self, env: EnvVars) -> bool {
        &&& self.primary_url@ == text_or(env, "DATABASE_PRIMARY_URL"@, Seq::empty())
        &&& self.replica_url@ == text_or(env, "DATABASE_REPLICA_URL"@, Seq::empty())
        &&& self.max_connections == parsed_or(env, "DB_MAX_CONNECTIONS"@, 10u32)
    }

    /// `DATABASE_PRIMARY_URL` and `DATABASE_REPLICA_URL` are required;
    /// `DB_MAX_CONNECTIONS` defaults to 10.
    pub fn from_env(env: &EnvVars, missing: &mut Vec<String>, invalid: &mut Vec<String>) -> (r: DatabaseConfig)
        ensures
            r.reads(*env),
            texts(final(missing)@) == texts(old(missing)@) + missing_complaints(*env, "DATABASE_PRIMARY_URL"@)
                + missing_complaints(*env, "DATABASE_REPLICA_URL"@),
            texts(final(invalid)@) == texts(old(invalid)@) + parse_complaints::<u32>(*env, "DB_MAX_CONNECTIONS"@),
    {
        let primary = require_env(env, "DATABASE_PRIMARY_URL", missing);
        let ghost after_primary = texts(missing@);
        let replica = require_env(env, "DATABASE_REPLICA_URL", missing);
        let primary_url = match primary {
            Some(v) => v,
            None => String::new(),
        };
        let replica_url = match replica {
            Some(v) => v,
            None => String::new(),
        };
        let max_connections = parse_env(env, "DB_MAX_CONNECTIONS", 10u32, invalid);
        assert(texts(missing@) =~= texts(old(missing)@) + missing_complaints(*env, "DATABASE_PRIMARY_URL"@)
            + missing_complaints(*env, "DATABASE_REPLICA_URL"@));
        DatabaseConfig { primary_url, replica_url, max_connections }
    }

    /// What `{:?}` shows of the settings: the URLs are hidden.
    pub fn redacted_debug(&self) -> (r: String)
        ensures
            r@ == database_debug_text(self.max_connections),
    {
        let mut r = String::new();
        r.append("DatabaseConfig { primary_url: \"[redacted]\", replica_url: \"[redacted]\", max_connections: ");
        push_nat(&mut r, self.max_connections as u128);
        r.append(" }");
        assert(r@ =~= database_debug_text(self.max_connections));
        r
    }
}

/// Message broker settings.
#[derive(Debug, Clone)]
pub struct KafkaConfig {
    pub broker: String,
    pub topic_student_events: String,
    pub topic_supervision_events: String,
}

impl KafkaConfig {
    /// Whether the settings are those that `env` gives.
    pub open spec fn reads(self, env: EnvVars) -> bool {
        &&& self.broker@ == text_or(env, "KAFKA_BROKER"@, "localhost:9092"@)
        &&& self.topic_student_events@ == text_or(env, "KAFKA_TOPIC_STUDENT_EVENTS"@, "student-events"@)
        &&& self.topic_supervision_events@ == text_or(env, "KAFKA_TOPIC_SUPERVISION_EVENTS"@, "supervision-events"@)
    }

    /// `KAFKA_BROKER` (default `localhost:9092`) and the two topic names
    /// (defaults `student-events` and `supervision-events`).
    pub fn from_env(env: &EnvVars) -> (r: KafkaConfig)
        ensures
            r.reads(*env),
    {
        KafkaConfig {
            broker: get_env(env, "KAFKA_BROKER", "localhost:9092"),
            topic_student_events: get_env(env, "KAFKA_TOPIC_STUDENT_EVENTS", "student-events"),
            topic_supervision_events: get_env(env, "KAFKA_TOPIC_SUPERVISION_EVENTS", "supervision-events"),
        }
    }
}

/// Cache server settings.
#[derive(Clone)]
pub struct RedisConfig {
    pub url: String,
}

/// The debug text of a [`RedisConfig`]: the URL is shown as `[redacted]`.
pub open spec fn redis_debug_text() -> Seq<char> {
    "RedisConfig { url: \"[redacted]\" }"@
}

impl RedisConfig {
    /// Whether the settings are those that `env` gives.
    pub open spec fn reads(self, env: EnvVars) -> bool {
        self.url@ == text_or(env, "REDIS_URL"@, Seq::empty())
    }

    /// `REDIS_URL` is required.
    pub fn from_env(env: &EnvVars, missing: &mut Vec<String>) -> (r: RedisConfig)
        ensures
            r.reads(*env),
            texts(final(missing)@) == texts(old(missing)@) + missing_complaints(*env, "REDIS_URL"@),
    {
        let url = match require_env(env, "REDIS_URL", missing) {
            Some(v) => v,
            None => String::new(),
        };
        RedisConfig { url }
    }

    /// What `{:?}` shows of the settings: the URL is hidden.
    pub fn redacted_debug(&self) -> (r: String)
        ensures
            r@ == redis_debug_text(),
    {
        let mut r = String::new();
        r.append("RedisConfig { url: \"[redacted]\" }");
        assert(r@ =~= redis_debug_text());
        r
    }
}

/// Error reporting settings; the trace sample rate, a float, is read by
/// the program around the library.
#[derive(Debug, Clone)]
pub struct SentryConfig {
    pub dsn: Option<String>,
    pub environment: String,
}

impl SentryConfig {
    /// Whether the settings are those that `env` gives.
    pub open spec fn reads(self, env: EnvVars) -> bool {
        &&& match self.dsn {
            Some(d) => env.value("SENTRY_DSN"@) == Some(d@),
            None => env.value("SENTRY_DSN"@) is None,
        }
        &&& self.environment@ == text_or(env, "SENTRY_ENVIRONMENT"@, "development"@)
    }

    /// `SENTRY_DSN` (optional) and `SENTRY_ENVIRONMENT` (default
    /// `development`). `rate_parses` tells whether the text of
    /// `SENTRY_TRACES_SAMPLE_RATE`, when it is set, parses as an `f32`; when
    /// it is set and does not, it is recorded as invalid.
    pub fn from_env(env: &EnvVars, rate_parses: bool, invalid: &mut Vec<String>) -> (r: SentryConfig)
        ensures
            r.reads(*env),
            texts(final(invalid)@) == texts(old(invalid)@) + rate_complaints(*env, rate_parses),
    {
        let dsn = env.var("SENTRY_DSN");
        let environment = get_env(env, "SENTRY_ENVIRONMENT", "development");
        match env.var("SENTRY_TRACES_SAMPLE_RATE") {
            Some(v) => {
                if !rate_parses {
                    let mut entry = "SENTRY_TRACES_SAMPLE_RATE".to_string();
                    entry.append("=");
                    let shown = debug_string(v.as_str());
                    entry.append(shown.as_str());
                    invalid.push(entry);
                }
            },
            None => {},
        }
        assert(texts(invalid@) =~= texts(old(invalid)@) + rate_complaints(*env, rate_parses));
        SentryConfig { dsn, environment }
    }
}

/// The entries that the sample rate adds to the list of invalid settings.
pub open spec fn rate_complaints(env: EnvVars, rate_parses: bool) -> Seq<Seq<char>> {
    match env.value("SENTRY_TRACES_SAMPLE_RATE"@) {
        Some(v) => if !rate_parses { seq![invalid_entry("SENTRY_TRACES_SAMPLE_RATE"@, v)] } else { Seq::empty() },
        None => Seq::empty(),
    }
}

/// Trace export settings.
#[derive(Debug, Clone)]
pub struct TelemetryConfig {
    pub otlp_endpoint: String,
    pub service_name: String,
    pub service_version: String,
    pub enabled: bool,
}

impl TelemetryConfig {
    /// Whether the settings are those that `env` gives.
    pub open spec fn reads(self, env: EnvVars) -> bool {
        &&& self.otlp_endpoint@ == text_or(env, "OTEL_EXPORTER_OTLP_ENDPOINT"@, "http://localhost:4317"@)
        &&& self.service_name@ == text_or(env, "OTEL_SERVICE_NAME"@, "student-service"@)
        &&& self.service_version@ == text_or(env, "OTEL_SERVICE_VERSION"@, "0.1.0"@)
        &&& self.enabled == parsed_or(env, "OTEL_ENABLED"@, true)
    }

    /// `OTEL_EXPORTER_OTLP_ENDPOINT` (default `http://localhost:4317`),
    /// `OTEL_SERVICE_NAME` (default `student-service`),
    /// `OTEL_SERVICE_VERSION` (default `0.1.0`) and `OTEL_ENABLED` (default
    /// `true`).
    pub fn from_env(env: &EnvVars, invalid: &mut Vec<String>) -> (r: TelemetryConfig)
        ensures
            r.reads(*env),
            texts(final(invalid)@) == texts(old(invalid)@) + parse_complaints::<bool>(*env, "OTEL_ENABLED"@),
    {
        TelemetryConfig {
            otlp_endpoint: get_env(env, "OTEL_EXPORTER_OTLP_ENDPOINT", "http://localhost:4317"),
            service_name: get_env(env, "OTEL_SERVICE_NAME", "student-service"),
            service_version: get_env(env, "OTEL_SERVICE_VERSION", "0.1.0"),
            enabled: parse_env(env, "OTEL_ENABLED", true, invalid),
        }
    }
}


/// What `{:?}` shows of the secret-holding settings does not depend on
/// the secrets: settings that differ only in their secrets and URLs show
/// the same text.
pub proof fn lemma_debug_text_hides_secrets(a: AuthConfig, b: AuthConfig, c: DatabaseConfig, d: DatabaseConfig)
    requires
        a.jwt_expiry_minutes == b.jwt_expiry_minutes,
        c.max_connections == d.max_connections,
    ensures
        auth_debug_text(a.jwt_expiry_minutes) == auth_debug_text(b.jwt_expiry_minutes),
        database_debug_text(c.max_connections) == database_debug_text(d.max_connections),
{
}

/// All settings of the service.
#[derive(Clone)]
pub struct Config {
    pub app: AppConfig,
    pub auth: AuthConfig,
    pub database: DatabaseConfig,
    pub kafka: KafkaConfig,
    pub redis: RedisConfig,
    pub sentry: SentryConfig,
    pub telemetry: TelemetryConfig,
}

/// The required settings that are absent, in the order they are read.
#[derive(Debug)]
pub struct ConfigError {
    pub missing: Vec<String>,
    pub invalid: Vec<String>,
}

/// The names of the required variables that `env` lacks, in reading order.
pub open spec fn missing_settings(env: EnvVars) -> Seq<Seq<char>> {
    missing_complaints(env, "JWT_SECRET"@) + missing_complaints(env, "DATABASE_PRIMARY_URL"@)
        + missing_complaints(env, "DATABASE_REPLICA_URL"@) + missing_complaints(env, "REDIS_URL"@)
}

/// The `KEY="text"` entries of the set variables that do not parse, in
/// reading order.
pub open spec fn invalid_settings(env: EnvVars, rate_parses: bool) -> Seq<Seq<char>> {
    parse_complaints::<u64>(env, "JWT_EXPIRY_MINUTES"@) + parse_complaints::<u32>(env, "DB_MAX_CONNECTIONS"@)
        + rate_complaints(env, rate_parses) + parse_complaints::<bool>(env, "OTEL_ENABLED"@)
}

impl Config {
    /// Whether every part of the settings is what `env` gives.
    pub open spec fn reads(self, env: EnvVars) -> bool {
        &&& self.app.reads(env)
        &&& self.auth.reads(env)
        &&& self.database.reads(env)
        &&& self.kafka.reads(env)
        &&& self.redis.reads(env)
        &&& self.sentry.reads(env)
        &&& self.telemetry.reads(env)
    }

    /// Reads all settings. It succeeds exactly when no required variable is
    /// absent and every set variable parses; otherwise the error lists all
    /// absent required variables and all unparseable ones, in reading order.
    /// `sentry_rate_parses` tells whether `SENTRY_TRACES_SAMPLE_RATE`, when
    /// set, parses as an `f32`.
    pub fn from_env(env: &EnvVars, sentry_rate_parses: bool) -> (r: Result<Config, ConfigError>)
        ensures
            r is Ok <==> (missing_settings(*env).len() == 0 && invalid_settings(*env, sentry_rate_parses).len() == 0),
            match r {
                Ok(c) => c.reads(*env),
                Err(e) => {
                    &&& texts(e.missing@) == missing_settings(*env)
                    &&& texts(e.invalid@) == invalid_settings(*env, sentry_rate_parses)
                },
            },
    {
        let mut missing: Vec<String> = Vec::new();
        let mut invalid: Vec<String> = Vec::new();
        let app = AppConfig::from_env(env);
        let auth = AuthConfig::from_env(env, &mut missing, &mut invalid);
        let database = DatabaseConfig::from_env(env, &mut missing, &mut invalid);
        let kafka = KafkaConfig::from_env(env);
        let redis = RedisConfig::from_env(env, &mut missing);
        let sentry = SentryConfig::from_env(env, sentry_rate_parses, &mut invalid);
        let telemetry = TelemetryConfig::from_env(env, &mut invalid);
        assert(texts(missing@) =~= missing_settings(*env));
        assert(texts(invalid@) =~= invalid_settings(*env, sentry_rate_parses));
        if missing.len() > 0 || invalid.len() > 0 {
            return Err(ConfigError { missing, invalid });
        }
        Ok(Config { app, auth, database, kafka, redis, sentry, telemetry })
    }
}

/// The text that `Display` shows for a configuration error: a line naming
/// the absent variables when there are any, then a line naming the invalid
/// ones when there are any.
pub open spec fn config_error_text(missing: Seq<Seq<char>>, invalid: Seq<Seq<char>>) -> Seq<char> {
    (if missing.len() > 0 {
        "Missing required env vars: "@ + joined(missing, ", "@) + "\n"@
    } else {
        Seq::empty()
    }) + (if invalid.len() > 0 {
        "Invalid env var values: "@ + joined(invalid, ", "@) + "\n"@
    } else {
        Seq::empty()
    })
}

impl ConfigError {
    /// The message shown for the error.
    pub fn message(&self) -> (r: String)
        ensures
            r@ == config_error_text(texts(self.missing@), texts(self.invalid@)),
    {
        let mut r = String::new();
        if self.missing.len() > 0 {
            r.append("Missing required env vars: ");
            let names = join_texts(&self.missing, ", ");
            r.append(names.as_str());
            r.append("\n");
        }
        let ghost first = r@;
        if self.invalid.len() > 0 {
            r.append("Invalid env var values: ");
            let entries = join_texts(&self.invalid, ", ");
            r.append(entries.as_str());
            r.append("\n");
        }
        assert(r@ =~= config_error_text(texts(self.missing@), texts(self.invalid@)));
        r
    }
}


/// The text settings of the HTTP service are the variables' values when
/// set and their defaults otherwise; the port is the value of `APP_PORT`
/// when it reads as a `u16`, and 8080 otherwise.
pub proof fn lemma_app_settings(c: AppConfig, env: EnvVars)
    requires
        c.reads(env),
    ensures
        match env.value("APP_NAME"@) { Some(v) => c.app_name@ == v, None => c.app_name@ == "student-service"@ },
        match env.value("APP_HOST"@) { Some(v) => c.host@ == v, None => c.host@ == "0.0.0.0"@ },
        match env.value("APP_PORT"@) {
            Some(v) => match parse_unsigned(v, 65535) { Some(n) => c.port as nat == n, None => c.port == 8080 },
            None => c.port == 8080,
        },
{
}

/// The token secret is `JWT_SECRET` (empty when unset); the expiry is
/// `JWT_EXPIRY_MINUTES` when it reads as a `u64`, and 60 otherwise.
pub proof fn lemma_auth_settings(c: AuthConfig, env: EnvVars)
    requires
        c.reads(env),
    ensures
        match env.value("JWT_SECRET"@) { Some(v) => c.jwt_secret@ == v, None => c.jwt_secret@ == Seq::<char>::empty() },
        match env.value("JWT_EXPIRY_MINUTES"@) {
            Some(v) => match parse_unsigned(v, 18446744073709551615) {
                Some(n) => c.jwt_expiry_minutes as nat == n,
                None => c.jwt_expiry_minutes == 60,
            },
            None => c.jwt_expiry_minutes == 60,
        },
{
}

/// The database URLs are their variables (empty when unset); the pool size
/// is `DB_MAX_CONNECTIONS` when it reads as a `u32`, and 10 otherwise.
pub proof fn lemma_database_settings(c: DatabaseConfig, env: EnvVars)
    requires
        c.reads(env),
    ensures
        match env.value("DATABASE_PRIMARY_URL"@) { Some(v) => c.primary_url@ == v, None => c.primary_url@ == Seq::<char>::empty() },
        match env.value("DATABASE_REPLICA_URL"@) { Some(v) => c.replica_url@ == v, None => c.replica_url@ == Seq::<char>::empty() },
        match env.value("DB_MAX_CONNECTIONS"@) {
            Some(v) => match parse_unsigned(v, 4294967295) {
                Some(n) => c.max_connections as nat == n,
                None => c.max_connections == 10,
            },
            None => c.max_connections == 10,
        },
{
}

/// Each broker setting is its variable when set, and its default
/// (`localhost:9092`, `student-events`, `supervision-events`) otherwise.
pub proof fn lemma_kafka_settings(c: KafkaConfig, env: EnvVars)
    requires
        c.reads(env),
    ensures
        match env.value("KAFKA_BROKER"@) { Some(v) => c.broker@ == v, None => c.broker@ == "localhost:9092"@ },
        match env.value("KAFKA_TOPIC_STUDENT_EVENTS"@) {
            Some(v) => c.topic_student_events@ == v,
            None => c.topic_student_events@ == "student-events"@,
        },
        match env.value("KAFKA_TOPIC_SUPERVISION_EVENTS"@) {
            Some(v) => c.topic_supervision_events@ == v,
            None => c.topic_supervision_events@ == "supervision-events"@,
        },
{
}

/// The cache URL is `REDIS_URL` (empty when unset).
pub proof fn lemma_redis_settings(c: RedisConfig, env: EnvVars)
    requires
        c.reads(env),
    ensures
        match env.value("REDIS_URL"@) { Some(v) => c.url@ == v, None => c.url@ == Seq::<char>::empty() },
{
}

/// The error tracking address is `SENTRY_DSN` when set; the environment
/// is `SENTRY_ENVIRONMENT`, `development` when unset.
pub proof fn lemma_sentry_settings(c: SentryConfig, env: EnvVars)
    requires
        c.reads(env),
    ensures
        match env.value("SENTRY_DSN"@) { Some(v) => c.dsn matches Some(d) && d@ == v, None => c.dsn is None },
        match env.value("SENTRY_ENVIRONMENT"@) { Some(v) => c.environment@ == v, None => c.environment@ == "development"@ },
{
}

/// The trace export settings are their variables when set and their
/// defaults otherwise; export is on unless `OTEL_ENABLED` reads as `false`.
pub proof fn lemma_telemetry_settings(c: TelemetryConfig, env: EnvVars)
    requires
        c.reads(env),
    ensures
        match env.value("OTEL_EXPORTER_OTLP_ENDPOINT"@) {
            Some(v) => c.otlp_endpoint@ == v,
            None => c.otlp_endpoint@ == "http://localhost:4317"@,
        },
        match env.value("OTEL_SERVICE_NAME"@) { Some(v) => c.service_name@ == v, None => c.service_name@ == "student-service"@ },
        match env.value("OTEL_SERVICE_VERSION"@) { Some(v) => c.service_version@ == v, None => c.service_version@ == "0.1.0"@ },
        match env.value("OTEL_ENABLED"@) {
            Some(v) => match parse_bool(v) { Some(b) => c.enabled == b, None => c.enabled },
            None => c.enabled,
        },
{
}

/// The message of a configuration error: a line naming the absent
/// variables, separated by commas, when there are any, then a line with the
/// invalid entries when there are any; nothing when both lists are empty.
pub proof fn lemma_config_error_lines(missing: Seq<Seq<char>>, invalid: Seq<Seq<char>>)
    ensures
        missing.len() == 0 && invalid.len() == 0 ==> config_error_text(missing, invalid).len() == 0,
        missing.len() > 0 && invalid.len() == 0 ==> config_error_text(missing, invalid)
            == "Missing required env vars: "@ + joined(missing, ", "@) + "\n"@,
        missing.len() == 0 && invalid.len() > 0 ==> config_error_text(missing, invalid)
            == "Invalid env var values: "@ + joined(invalid, ", "@) + "\n"@,
        missing.len() > 0 && invalid.len() > 0 ==> config_error_text(missing, invalid)
            == "Missing required env vars: "@ + joined(missing, ", "@) + "\n"@
            + "Invalid env var values: "@ + joined(invalid, ", "@) + "\n"@,
{
    assert(Seq::<char>::empty() + Seq::<char>::empty() =~= Seq::<char>::empty());
    assert(("Missing required env vars: "@ + joined(missing, ", "@) + "\n"@) + Seq::<char>::empty()
        =~= "Missing required env vars: "@ + joined(missing, ", "@) + "\n"@);
    assert(Seq::<char>::empty() + ("Invalid env var values: "@ + joined(invalid, ", "@) + "\n"@)
        =~= "Invalid env var values: "@ + joined(invalid, ", "@) + "\n"@);
    assert(("Missing required env vars: "@ + joined(missing, ", "@) + "\n"@)
        + ("Invalid env var values: "@ + joined(invalid, ", "@) + "\n"@)
        =~= "Missing required env vars: "@ + joined(missing, ", "@) + "\n"@
            + "Invalid env var values: "@ + joined(invalid, ", "@) + "\n"@);
}

/// Settings read from `env` hold each part as that part reads it.
pub proof fn lemma_config_parts(c: Config, env: EnvVars)
    requires
        c.reads(env),
    ensures
        c.app.reads(env),
        c.auth.reads(env),
        c.database.reads(env),
        c.kafka.reads(env),
        c.redis.reads(env),
        c.sentry.reads(env),
        c.telemetry.reads(env),
{
}

/// The required settings reported missing are exactly the absent ones
/// among `JWT_SECRET`, `DATABASE_PRIMARY_URL`, `DATABASE_REPLICA_URL` and
/// `REDIS_URL`; none is missing exactly when all four are set.
pub proof fn lemma_missing_settings(env: EnvVars)
    ensures
        missing_settings(env).contains("JWT_SECRET"@) <==> env.value("JWT_SECRET"@) is None,
        missing_settings(env).contains("DATABASE_PRIMARY_URL"@) <==> env.value("DATABASE_PRIMARY_URL"@) is None,
        missing_settings(env).contains("DATABASE_REPLICA_URL"@) <==> env.value("DATABASE_REPLICA_URL"@) is None,
        missing_settings(env).contains("REDIS_URL"@) <==> env.value("REDIS_URL"@) is None,
        forall|i: int| 0 <= i < missing_settings(env).len() ==> {
            let k = #[trigger] missing_settings(env)[i];
            k == "JWT_SECRET"@ || k == "DATABASE_PRIMARY_URL"@ || k == "DATABASE_REPLICA_URL"@ || k == "REDIS_URL"@
        },
        missing_settings(env).len() == 0 <==> (env.value("JWT_SECRET"@) is Some && env.value("DATABASE_PRIMARY_URL"@) is Some
            && env.value("DATABASE_REPLICA_URL"@) is Some && env.value("REDIS_URL"@) is Some),
{
    reveal_strlit("JWT_SECRET");
    reveal_strlit("DATABASE_PRIMARY_URL");
    reveal_strlit("DATABASE_REPLICA_URL");
    reveal_strlit("REDIS_URL");
    let a = missing_complaints(env, "JWT_SECRET"@);
    let b = missing_complaints(env, "DATABASE_PRIMARY_URL"@);
    let c = missing_complaints(env, "DATABASE_REPLICA_URL"@);
    let d = missing_complaints(env, "REDIS_URL"@);
    let m = missing_settings(env);
    assert(m =~= a + b + c + d);
    assert("JWT_SECRET"@.len() == 10 && "DATABASE_PRIMARY_URL"@.len() == 20 && "DATABASE_REPLICA_URL"@.len() == 20
        && "REDIS_URL"@.len() == 9);
    assert("JWT_SECRET"@ != "DATABASE_PRIMARY_URL"@ && "JWT_SECRET"@ != "DATABASE_REPLICA_URL"@ && "JWT_SECRET"@ != "REDIS_URL"@);
    assert("DATABASE_PRIMARY_URL"@ != "REDIS_URL"@ && "DATABASE_REPLICA_URL"@ != "REDIS_URL"@);
    assert("DATABASE_PRIMARY_URL"@[9] != "DATABASE_REPLICA_URL"@[9]);
    assert forall|i: int| 0 <= i < m.len() implies {
        let k = #[trigger] m[i];
        k == "JWT_SECRET"@ || k == "DATABASE_PRIMARY_URL"@ || k == "DATABASE_REPLICA_URL"@ || k == "REDIS_URL"@
    } by {
        if i < a.len() {
            assert(m[i] == a[i]);
        } else if i < a.len() + b.len() {
            assert(m[i] == b[i - a.len()]);
        } else if i < a.len() + b.len() + c.len() {
            assert(m[i] == c[i - a.len() - b.len()]);
        } else {
            assert(m[i] == d[i - a.len() - b.len() - c.len()]);
        }
    }
    if env.value("JWT_SECRET"@) is None {
        assert(m[0] == "JWT_SECRET"@);
    }
    if env.value("DATABASE_PRIMARY_URL"@) is None {
        assert(m[a.len() as int] == "DATABASE_PRIMARY_URL"@);
    }
    if env.value("DATABASE_REPLICA_URL"@) is None {
        assert(m[(a.len() + b.len()) as int] == "DATABASE_REPLICA_URL"@);
    }
    if env.value("REDIS_URL"@) is None {
        assert(m[(a.len() + b.len() + c.len()) as int] == "REDIS_URL"@);
    }
}

/// No setting is reported invalid exactly when each of `JWT_EXPIRY_MINUTES`
/// (a `u64`), `DB_MAX_CONNECTIONS` (a `u32`), `SENTRY_TRACES_SAMPLE_RATE`
/// and `OTEL_ENABLED` (a boolean) is unset or reads as its type.
pub proof fn lemma_invalid_settings(env: EnvVars, rate_parses: bool)
    ensures
        invalid_settings(env, rate_parses).len() == 0 <==> ({
            &&& (env.value("JWT_EXPIRY_MINUTES"@) matches Some(v) ==> parse_unsigned(v, 18446744073709551615) is Some)
            &&& (env.value("DB_MAX_CONNECTIONS"@) matches Some(v) ==> parse_unsigned(v, 4294967295) is Some)
            &&& (env.value("SENTRY_TRACES_SAMPLE_RATE"@) is Some ==> rate_parses)
            &&& (env.value("OTEL_ENABLED"@) matches Some(v) ==> parse_bool(v) is Some)
        }),
{
}

} // verus!
