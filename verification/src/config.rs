//! Backend configuration: the defaults, the choice between an environment
//! value and a default, and the worker's settings with their ranges. Reading
//! the environment and parsing the socket address are done by the caller.

use vstd::prelude::*;
use vstd::string::*;
use crate::text::{chars_of, parse_u64_from, parse_u64_text};

verus! {

/// The address the server binds when `BIND_ADDRESS` is not set.
pub const DEFAULT_BIND_ADDRESS: &'static str = "127.0.0.1:3000";

/// The database used when `DATABASE_URL` is not set.
pub const DEFAULT_DATABASE_URL: &'static str = "sqlite:promptogether.db?mode=rwc";

/// The tracing filter used when neither `LOG_LEVEL` nor `RUST_LOG` is set.
pub const DEFAULT_LOG_LEVEL: &'static str = "backend=info,tower_http=info";

/// A configuration value that could not be used.
#[derive(Debug)]
pub enum ConfigError {
    /// `BIND_ADDRESS` is not a socket address.
    InvalidBindAddress(String),
    /// A worker setting is not a whole number in its range.
    InvalidWorkerSetting { setting: WorkerSetting, value: String },
    /// The tracing filter taken from `variable` does not parse.
    InvalidLogLevel { variable: LogSetting, value: String },
}

/// The environment variable a tracing filter was taken from.
#[derive(Debug, Clone, Copy, PartialEq, Eq, Structural)]
pub enum LogSetting {
    /// `LOG_LEVEL`, which takes precedence.
    LogLevel,
    /// `RUST_LOG`, read when `LOG_LEVEL` is not set.
    RustLog,
}

impl LogSetting {
    /// The environment variable of the setting.
    pub open spec fn env_name(self) -> Seq<char> {
        match self {
            LogSetting::LogLevel => "LOG_LEVEL"@,
            LogSetting::RustLog => "RUST_LOG"@,
        }
    }

    /// The environment variable of the setting.
    pub fn env_var(self) -> (name: &'static str)
        ensures
            name@ == self.env_name(),
    {
        match self {
            LogSetting::LogLevel => "LOG_LEVEL",
            LogSetting::RustLog => "RUST_LOG",
        }
    }
}

/// A setting of the background worker, read from the environment.
#[derive(Debug, Clone, Copy, PartialEq, Eq, Structural)]
pub enum WorkerSetting {
    /// `WORKER_CONCURRENCY`: how many job handlers run at once.
    Concurrency,
    /// `WORKER_POLL_INTERVAL_MS`: the pause between poll cycles.
    PollInterval,
    /// `WORKER_LEASE_DURATION_SECS`: how long a claimed job is leased.
    LeaseDuration,
    /// `WORKER_SHUTDOWN_TIMEOUT_SECS`: how long shutdown waits for handlers.
    ShutdownTimeout,
}

impl WorkerSetting {
    /// The environment variable of the setting.
    pub open spec fn env_name(self) -> Seq<char> {
        match self {
            WorkerSetting::Concurrency => "WORKER_CONCURRENCY"@,
            WorkerSetting::PollInterval => "WORKER_POLL_INTERVAL_MS"@,
            WorkerSetting::LeaseDuration => "WORKER_LEASE_DURATION_SECS"@,
            WorkerSetting::ShutdownTimeout => "WORKER_SHUTDOWN_TIMEOUT_SECS"@,
        }
    }

    /// The values the setting accepts, in words.
    pub open spec fn range_text(self) -> Seq<char> {
        match self {
            WorkerSetting::Concurrency => "a whole number from 1 to 4"@,
            WorkerSetting::PollInterval => "a whole number of at least 100"@,
            WorkerSetting::LeaseDuration => "a whole number of at least 5"@,
            WorkerSetting::ShutdownTimeout => "a whole number of at least 1"@,
        }
    }

    /// The environment variable of the setting.
    pub fn env_var(self) -> (name: &'static str)
        ensures
            name@ == self.env_name(),
    {
        match self {
            WorkerSetting::Concurrency => "WORKER_CONCURRENCY",
            WorkerSetting::PollInterval => "WORKER_POLL_INTERVAL_MS",
            WorkerSetting::LeaseDuration => "WORKER_LEASE_DURATION_SECS",
            WorkerSetting::ShutdownTimeout => "WORKER_SHUTDOWN_TIMEOUT_SECS",
        }
    }

    fn range(self) -> (r: &'static str)
        ensures
            r@ == self.range_text(),
    {
        match self {
            WorkerSetting::Concurrency => "a whole number from 1 to 4",
            WorkerSetting::PollInterval => "a whole number of at least 100",
            WorkerSetting::LeaseDuration => "a whole number of at least 5",
            WorkerSetting::ShutdownTimeout => "a whole number of at least 1",
        }
    }
}

impl ConfigError {
    /// The human-readable message for this error.
    pub open spec fn describe(&self) -> Seq<char> {
        match self {
            ConfigError::InvalidBindAddress(val) => "invalid BIND_ADDRESS: \""@ + val@
                + "\" — expected a socket address like 127.0.0.1:3000"@,
            ConfigError::InvalidWorkerSetting { setting, value } => "invalid "@
                + setting.env_name() + ": \""@ + value@ + "\" — expected "@
                + setting.range_text(),
            ConfigError::InvalidLogLevel { variable, value } => "invalid "@ + variable.env_name()
                + ": \""@ + value@ + "\" — expected a tracing filter like backend=info"@,
        }
    }

    /// The human-readable message for this error (what `Display` printed).
    pub fn message(&self) -> (m: String)
        ensures
            m@ == self.describe(),
    {
        match self {
            ConfigError::InvalidBindAddress(val) => {
                let mut m = "invalid BIND_ADDRESS: \"".to_owned();
                m.append(val.as_str());
                m.append("\" — expected a socket address like 127.0.0.1:3000");
                m
            },
            ConfigError::InvalidWorkerSetting { setting, value } => {
                let mut m = "invalid ".to_owned();
                m.append(setting.env_var());
                m.append(": \"");
                m.append(value.as_str());
                m.append("\" — expected ");
                m.append(setting.range());
                m
            },
            ConfigError::InvalidLogLevel { variable, value } => {
                let mut m = "invalid ".to_owned();
                m.append(variable.env_var());
                m.append(": \"");
                m.append(value.as_str());
                m.append("\" — expected a tracing filter like backend=info");
                m
            },
        }
    }
}

/// The bind address text: `BIND_ADDRESS` when set, else the default.
pub fn bind_address_text(bind_address: Option<String>) -> (t: String)
    ensures
        t@ == match bind_address {
            Some(v) => v@,
            None => DEFAULT_BIND_ADDRESS@,
        },
{
    match bind_address {
        Some(v) => v,
        None => DEFAULT_BIND_ADDRESS.to_owned(),
    }
}

/// The database URL: `DATABASE_URL` when set, else the default.
pub fn resolve_database_url(database_url: Option<String>) -> (u: String)
    ensures
        u@ == match database_url {
            Some(v) => v@,
            None => DEFAULT_DATABASE_URL@,
        },
{
    match database_url {
        Some(v) => v,
        None => DEFAULT_DATABASE_URL.to_owned(),
    }
}

/// The tracing filter: `LOG_LEVEL` takes precedence, then `RUST_LOG`, then
/// the default.
pub fn resolve_log_level(log_level: Option<String>, rust_log: Option<String>) -> (l: String)
    ensures
        l@ == match (log_level, rust_log) {
            (Some(v), _) => v@,
            (None, Some(v)) => v@,
            (None, None) => DEFAULT_LOG_LEVEL@,
        },
{
    match log_level {
        Some(v) => v,
        None => match rust_log {
            Some(v) => v,
            None => DEFAULT_LOG_LEVEL.to_owned(),
        },
    }
}

/// Whether `tracing_subscriber` accepts the text as a filter: a list of
/// directives separated by commas, each a target, a level, or both.
pub uninterp spec fn is_valid_log_filter(directives: Seq<char>) -> bool;

/// Whether `tracing_subscriber::EnvFilter::try_new` parses the directives.
/// Its answer depends on the text alone (the builder it uses reads no
/// environment); the empty text parses, to the default directive. Which other
/// texts parse is left to the name [`is_valid_log_filter`].
#[verifier::external_body]
fn log_filter_parses(directives: &str) -> (ok: bool)
    ensures
        ok == is_valid_log_filter(directives@),
        directives@.len() == 0 ==> ok,
{
    tracing_subscriber::EnvFilter::try_new(directives).is_ok()
}

/// The tracing filter text that applies: `LOG_LEVEL`, then `RUST_LOG`, then
/// the default.
pub open spec fn log_level_text(log_level: Option<String>, rust_log: Option<String>) -> Seq<
    char,
> {
    match (log_level, rust_log) {
        (Some(v), _) => v@,
        (None, Some(v)) => v@,
        (None, None) => DEFAULT_LOG_LEVEL@,
    }
}

/// The tracing filter, checked: the text chosen as by [`resolve_log_level`],
/// refused with `InvalidLogLevel` naming the variable it came from when it
/// does not parse as a tracing filter. The default is not a setting and is
/// taken as it is.
pub fn checked_log_level(log_level: Option<String>, rust_log: Option<String>) -> (r: Result<
    String,
    ConfigError,
>)
    ensures
        r is Ok <==> match (log_level, rust_log) {
            (Some(v), _) => is_valid_log_filter(v@),
            (None, Some(v)) => is_valid_log_filter(v@),
            (None, None) => true,
        },
        r matches Ok(l) ==> l@ == log_level_text(log_level, rust_log),
        r matches Err(e) ==> {
            &&& e matches ConfigError::InvalidLogLevel { variable, value }
            &&& variable == if log_level is Some {
                LogSetting::LogLevel
            } else {
                LogSetting::RustLog
            }
            &&& value@ == log_level_text(log_level, rust_log)
        },
{
    match log_level {
        Some(v) => if log_filter_parses(v.as_str()) {
            Ok(v)
        } else {
            Err(ConfigError::InvalidLogLevel { variable: LogSetting::LogLevel, value: v })
        },
        None => match rust_log {
            Some(v) => if log_filter_parses(v.as_str()) {
                Ok(v)
            } else {
                Err(ConfigError::InvalidLogLevel { variable: LogSetting::RustLog, value: v })
            },
            None => Ok(DEFAULT_LOG_LEVEL.to_owned()),
        },
    }
}

/// The worker's settings.
#[derive(Debug, Clone)]
pub struct WorkerConfig {
    /// How many job handlers run at once (1 to 4, within the database pool's
    /// five connections).
    pub concurrency: usize,
    /// Milliseconds between poll cycles.
    pub poll_interval_ms: u64,
    /// How long a claimed job is leased, in seconds.
    pub lease_duration_secs: i64,
    /// How long shutdown waits for running handlers, in seconds.
    pub shutdown_timeout_secs: u64,
}

/// The value of a setting read from the environment: the default when it is
/// not set, the number it holds when that lies in `[min, max]`, and no value
/// otherwise.
pub open spec fn setting_value(raw: Option<String>, default: int, min: int, max: int) -> Option<int> {
    match raw {
        None => Some(default),
        Some(v) => match parse_u64_text(v@) {
            Some(n) => if min <= n <= max {
                Some(n as int)
            } else {
                None
            },
            None => None,
        },
    }
}

fn read_setting(raw: Option<String>, setting: WorkerSetting, default: u64, min: u64, max: u64) -> (r:
    Result<u64, ConfigError>)
    ensures
        match setting_value(raw, default as int, min as int, max as int) {
            Some(n) => r == Ok::<u64, ConfigError>(n as u64),
            None => r matches Err(ConfigError::InvalidWorkerSetting { setting: s, value }) && s
                == setting && raw == Some(value),
        },
{
    match raw {
        None => Ok(default),
        Some(v) => {
            let chars = chars_of(v.as_str());
            assert(chars@.skip(0) =~= v@);
            match parse_u64_from(&chars, 0) {
                Some(n) => if min <= n && n <= max {
                    Ok(n)
                } else {
                    Err(ConfigError::InvalidWorkerSetting { setting, value: v })
                },
                None => Err(ConfigError::InvalidWorkerSetting { setting, value: v }),
            }
        },
    }
}

/// The worker's settings from the values of `WORKER_CONCURRENCY` (1 to 4,
/// default 2), `WORKER_POLL_INTERVAL_MS` (at least 100, default 1000),
/// `WORKER_LEASE_DURATION_SECS` (at least 5, default 30) and
/// `WORKER_SHUTDOWN_TIMEOUT_SECS` (at least 1, default 30); the first
/// setting that is not a whole number in its range is refused.
pub fn worker_config(
    concurrency: Option<String>,
    poll_interval_ms: Option<String>,
    lease_duration_secs: Option<String>,
    shutdown_timeout_secs: Option<String>,
) -> (r: Result<WorkerConfig, ConfigError>)
    ensures
        r is Ok <==> {
            &&& setting_value(concurrency, 2, 1, 4) is Some
            &&& setting_value(poll_interval_ms, 1000, 100, u64::MAX as int) is Some
            &&& setting_value(lease_duration_secs, 30, 5, i64::MAX as int) is Some
            &&& setting_value(shutdown_timeout_secs, 30, 1, u64::MAX as int) is Some
        },
        r matches Ok(c) ==> {
            &&& setting_value(concurrency, 2, 1, 4) == Some(c.concurrency as int)
            &&& setting_value(poll_interval_ms, 1000, 100, u64::MAX as int) == Some(
                c.poll_interval_ms as int,
            )
            &&& setting_value(lease_duration_secs, 30, 5, i64::MAX as int) == Some(
                c.lease_duration_secs as int,
            )
            &&& setting_value(shutdown_timeout_secs, 30, 1, u64::MAX as int) == Some(
                c.shutdown_timeout_secs as int,
            )
        },
        r matches Err(e) ==> e matches ConfigError::InvalidWorkerSetting { setting, value } && (
        if setting_value(concurrency, 2, 1, 4) is None {
            setting == WorkerSetting::Concurrency && concurrency == Some(value)
        } else if setting_value(poll_interval_ms, 1000, 100, u64::MAX as int) is None {
            setting == WorkerSetting::PollInterval && poll_interval_ms == Some(value)
        } else if setting_value(lease_duration_secs, 30, 5, i64::MAX as int) is None {
            setting == WorkerSetting::LeaseDuration && lease_duration_secs == Some(value)
        } else {
            setting == WorkerSetting::ShutdownTimeout && shutdown_timeout_secs == Some(value)
        }),
{
    let c = read_setting(concurrency, WorkerSetting::Concurrency, 2, 1, 4)?;
    let p = read_setting(poll_interval_ms, WorkerSetting::PollInterval, 1000, 100, u64::MAX)?;
    let l = read_setting(lease_duration_secs, WorkerSetting::LeaseDuration, 30, 5, i64::MAX as u64)?;
    let t = read_setting(shutdown_timeout_secs, WorkerSetting::ShutdownTimeout, 30, 1, u64::MAX)?;
    Ok(
        WorkerConfig {
            concurrency: c as usize,
            poll_interval_ms: p,
            lease_duration_secs: l as i64,
            shutdown_timeout_secs: t,
        },
    )
}

} // verus!
