//! Settings of the user service, read from a snapshot of the environment.

use vstd::prelude::*;
use crate::config::{EnvVars, get_env, text_or};

verus! {

/// Settings of the user service.
pub struct Config {
    pub port: String,
    pub db_host: String,
    pub db_port: String,
    pub db_user: String,
    pub db_password: String,
    pub db_name: String,
    pub redis_addr: String,
    pub redis_password: String,
    pub kafka_broker: String,
    pub otp_service_addr: String,
    pub file_service_addr: String,
}

/// Whether every variable that the user service cannot start without is set.
pub open spec fn has_required_settings(env: EnvVars) -> bool {
    &&& env.value("DB_HOST"@) is Some
    &&& env.value("DB_PORT"@) is Some
    &&& env.value("DB_USER"@) is Some
    &&& env.value("DB_PASSWORD"@) is Some
    &&& env.value("DB_NAME"@) is Some
    &&& env.value("REDIS_ADDR"@) is Some
    &&& env.value("KAFKA_BROKER"@) is Some
    &&& env.value("OTP_SERVICE_ADDR"@) is Some
    &&& env.value("FILE_SERVICE_ADDR"@) is Some
}

/// The connection URL built from the database settings.
pub open spec fn database_url_text(user: Seq<char>, password: Seq<char>, host: Seq<char>, port: Seq<char>, name: Seq<char>) -> Seq<char> {
    "postgres://"@ + user + ":"@ + password + "@"@ + host + ":"@ + port + "/"@ + name
}

/// The value of a variable that is known to be set.
fn required(env: &EnvVars, key: &str) -> (r: String)
    requires
        env.value(key@) is Some,
    ensures
        env.value(key@) == Some(r@),
{
    match env.var(key) {
        Some(v) => v,
        None => String::new(),
    }
}

impl Config {
    /// Whether the settings are those that `env` gives.
    pub open spec fn reads(self, env: EnvVars) -> bool {
        &&& self.port@ == text_or(env, "PORT"@, "8080"@)
        &&& env.value("DB_HOST"@) == Some(self.db_host@)
        &&& env.value("DB_PORT"@) == Some(self.db_port@)
        &&& env.value("DB_USER"@) == Some(self.db_user@)
        &&& env.value("DB_PASSWORD"@) == Some(self.db_password@)
        &&& env.value("DB_NAME"@) == Some(self.db_name@)
        &&& env.value("REDIS_ADDR"@) == Some(self.redis_addr@)
        &&& self.redis_password@ == text_or(env, "REDIS_PASSWORD"@, Seq::empty())
        &&& env.value("KAFKA_BROKER"@) == Some(self.kafka_broker@)
        &&& env.value("OTP_SERVICE_ADDR"@) == Some(self.otp_service_addr@)
        &&& env.value("FILE_SERVICE_ADDR"@) == Some(self.file_service_addr@)
    }

    /// Whether `env` holds every required variable, so that `load` can run.
    pub fn has_required(env: &EnvVars) -> (r: bool)
        ensures
            r == has_required_settings(*env),
    {
        env.var("DB_HOST").is_some() && env.var("DB_PORT").is_some() && env.var("DB_USER").is_some()
            && env.var("DB_PASSWORD").is_some() && env.var("DB_NAME").is_some()
            && env.var("REDIS_ADDR").is_some() && env.var("KAFKA_BROKER").is_some()
            && env.var("OTP_SERVICE_ADDR").is_some() && env.var("FILE_SERVICE_ADDR").is_some()
    }

    /// Reads the settings; `PORT` defaults to `8080` and `REDIS_PASSWORD`
    /// to the empty string, all other variables must be set.
    pub fn load(env: &EnvVars) -> (r: Config)
        requires
            has_required_settings(*env),
        ensures
            r.reads(*env),
    {
        let redis_password = match env.var("REDIS_PASSWORD") {
            Some(v) => v,
            None => String::new(),
        };
        Config {
            port: get_env(env, "PORT", "8080"),
            db_host: required(env, "DB_HOST"),
            db_port: required(env, "DB_PORT"),
            db_user: required(env, "DB_USER"),
            db_password: required(env, "DB_PASSWORD"),
            db_name: required(env, "DB_NAME"),
            redis_addr: required(env, "REDIS_ADDR"),
            redis_password,
            kafka_broker: required(env, "KAFKA_BROKER"),
            otp_service_addr: required(env, "OTP_SERVICE_ADDR"),
            file_service_addr: required(env, "FILE_SERVICE_ADDR"),
        }
    }

    /// `postgres://{db_user}:{db_password}@{db_host}:{db_port}/{db_name}`.
    pub fn database_url(&self) -> (r: String)
        ensures
            r@ == database_url_text(self.db_user@, self.db_password@, self.db_host@, self.db_port@, self.db_name@),
    {
        let mut r = String::new();
        r.append("postgres://");
        r.append(self.db_user.as_str());
        r.append(":");
        r.append(self.db_password.as_str());
        r.append("@");
        r.append(self.db_host.as_str());
        r.append(":");
        r.append(self.db_port.as_str());
        r.append("/");
        r.append(self.db_name.as_str());
        assert(r@ =~= database_url_text(self.db_user@, self.db_password@, self.db_host@, self.db_port@, self.db_name@));
        r
    }
}


/// The user service listens on `PORT` (`8080` when unset), uses
/// `REDIS_PASSWORD` (empty when unset), and takes every other setting from
/// its variable as it is.
pub proof fn lemma_user_service_settings(c: Config, env: EnvVars)
    requires
        c.reads(env),
    ensures
        match env.value("PORT"@) { Some(v) => c.port@ == v, None => c.port@ == "8080"@ },
        match env.value("REDIS_PASSWORD"@) { Some(v) => c.redis_password@ == v, None => c.redis_password@ == Seq::<char>::empty() },
        env.value("DB_HOST"@) == Some(c.db_host@),
        env.value("DB_PORT"@) == Some(c.db_port@),
        env.value("DB_USER"@) == Some(c.db_user@),
        env.value("DB_PASSWORD"@) == Some(c.db_password@),
        env.value("DB_NAME"@) == Some(c.db_name@),
{
}

/// The connection URL names the user, the password, the host, the port and
/// the database in that order: it starts with `postgres://` and the user,
/// and ends with `/` and the database name.
pub proof fn lemma_database_url_parts(user: Seq<char>, password: Seq<char>, host: Seq<char>, port: Seq<char>, name: Seq<char>)
    ensures
        database_url_text(user, password, host, port, name).take(11 + user.len() as int) == "postgres://"@ + user,
        database_url_text(user, password, host, port, name).skip(
            database_url_text(user, password, host, port, name).len() - name.len() - 1) == "/"@ + name,
        database_url_text(user, password, host, port, name).len() == 11 + user.len() + 1 + password.len() + 1
            + host.len() + 1 + port.len() + 1 + name.len(),
{
    reveal_strlit("postgres://");
    reveal_strlit(":");
    reveal_strlit("@");
    reveal_strlit("/");
    let t = database_url_text(user, password, host, port, name);
    assert(t.take(11 + user.len() as int) =~= "postgres://"@ + user);
    assert(t.skip(t.len() - name.len() - 1) =~= "/"@ + name);
}

} // verus!
