//! Command-line commands and the configuration drawn from them.
use vstd::prelude::*;
use vstd::string::StringExecFns;
use std::path::PathBuf;
use std::time::Duration;

verus! {

/// `std::path::PathBuf`, carried through unchanged: nothing here looks inside a path.
#[verifier::external_type_specification]
#[verifier::external_body]
pub struct ExPathBuf(PathBuf);

/// The duration of `secs` whole seconds, as `Duration::from_secs` gives it.
pub uninterp spec fn seconds_duration(secs: u64) -> Duration;

/// `Duration::from_secs`. Trusted: its result depends on `secs` alone (a
/// `Duration` is opaque here, so what it holds is left to the name).
#[verifier::external_body]
fn duration_from_secs(secs: u64) -> (d: Duration)
    ensures
        d == seconds_duration(secs),
{
    Duration::from_secs(secs)
}

/// Database path used when none is given.
pub const DEFAULT_DB_PATH: &'static str = "tempcheck.db";

/// Seconds between polls when none is given.
pub const DEFAULT_INTERVAL_SECS: u64 = 30;

/// Environment variable that holds the MCP bearer token.
pub const DEFAULT_MCP_TOKEN_ENV: &'static str = "TEMPCHECK_MCP_TOKEN";

/// Most rows one analysis may cover.
pub const MAX_ANALYSIS_ROWS: usize = 10_000;

/// Most bytes one tool response may hold (256 KiB).
pub const MAX_RESPONSE_BYTES: usize = 256 * 1024;

/// The parsed command line.
#[derive(Debug)]
pub struct Cli {
    pub command: Command,
}

/// The subcommands.
#[derive(Debug)]
pub enum Command {
    /// Run the background temperature logging daemon.
    Daemon { db: PathBuf, interval_secs: u64 },
    /// Start the MCP server (stdio transport).
    Mcp { db: PathBuf, audit_log: Option<PathBuf> },
    /// Collect and print one snapshot.
    Once { db: PathBuf, save: bool },
}

/// Settings for one run.
#[derive(Debug)]
pub struct Config {
    pub db_path: PathBuf,
    pub interval: Duration,
    pub audit_log: Option<PathBuf>,
}

/// Why a command line gives no configuration.
#[derive(Debug, Clone, Copy, PartialEq, Eq, Structural)]
pub enum ConfigError {
    InvalidInterval,
}

/// The text of a configuration error.
pub open spec fn config_error_text(e: ConfigError) -> Seq<char> {
    match e {
        ConfigError::InvalidInterval => "interval must be greater than zero"@,
    }
}

impl ConfigError {
    /// The error's message.
    pub fn message(&self) -> (s: String)
        ensures
            s@ == config_error_text(*self),
    {
        match self {
            ConfigError::InvalidInterval => String::from_str("interval must be greater than zero"),
        }
    }
}

/// The configuration a command line gives: the daemon takes its database
/// and a positive interval; the MCP server its database and audit log; a
/// one-shot reading its database. The two latter use the default interval.
pub open spec fn config_of(command: Command) -> Result<Config, ConfigError> {
    match command {
        Command::Daemon { db, interval_secs } => if interval_secs == 0 {
            Err(ConfigError::InvalidInterval)
        } else {
            Ok(Config { db_path: db, interval: seconds_duration(interval_secs), audit_log: None })
        },
        Command::Mcp { db, audit_log } => Ok(
            Config { db_path: db, interval: seconds_duration(DEFAULT_INTERVAL_SECS), audit_log },
        ),
        Command::Once { db, save } => Ok(
            Config {
                db_path: db,
                interval: seconds_duration(DEFAULT_INTERVAL_SECS),
                audit_log: None,
            },
        ),
    }
}

impl Config {
    /// The configuration for a parsed command line.
    pub fn from_cli(cli: Cli) -> (r: Result<Config, ConfigError>)
        ensures
            r == config_of(cli.command),
    {
        match cli.command {
            Command::Daemon { db, interval_secs } => {
                if interval_secs == 0 {
                    return Err(ConfigError::InvalidInterval);
                }
                let interval = duration_from_secs(interval_secs);
                Ok(Config { db_path: db, interval, audit_log: None })
            },
            Command::Mcp { db, audit_log } => {
                let interval = duration_from_secs(DEFAULT_INTERVAL_SECS);
                Ok(Config { db_path: db, interval, audit_log })
            },
            Command::Once { db, .. } => {
                let interval = duration_from_secs(DEFAULT_INTERVAL_SECS);
                Ok(Config { db_path: db, interval, audit_log: None })
            },
        }
    }
}

/// The seconds between polls a command asks for: the daemon's own, else the
/// default.
pub open spec fn interval_secs_of(command: Command) -> u64 {
    match command {
        Command::Daemon { interval_secs, .. } => interval_secs,
        _ => DEFAULT_INTERVAL_SECS,
    }
}

/// Every configuration drawn from a command line has its interval built from
/// the seconds the command asks for (`interval_secs_of`), and those are
/// positive; a command line with a zero interval is refused.
pub proof fn lemma_config_interval_from_positive_seconds(command: Command)
    ensures
        config_of(command) matches Ok(c) ==> c.interval == seconds_duration(
            interval_secs_of(command),
        ) && interval_secs_of(command) > 0,
        (command matches Command::Daemon { interval_secs, .. } && interval_secs == 0) <==> config_of(
            command,
        ) == Err::<Config, ConfigError>(ConfigError::InvalidInterval),
{
}

} // verus!
