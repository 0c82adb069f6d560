use std::path::PathBuf;
use tempcheck::config::{Cli, Command, Config, ConfigError, DEFAULT_INTERVAL_SECS};

#[test]
fn daemon_config_rejects_zero_interval() {
    let cli = Cli {
        command: Command::Daemon {
            db: "x.db".into(),
            interval_secs: 0,
        },
    };
    assert_eq!(
        Config::from_cli(cli).unwrap_err(),
        ConfigError::InvalidInterval
    );
}

#[test]
fn mcp_config_uses_db_path() {
    let cli = Cli {
        command: Command::Mcp {
            db: "custom.db".into(),
            audit_log: None,
        },
    };
    let cfg = Config::from_cli(cli).unwrap();
    assert_eq!(cfg.db_path, PathBuf::from("custom.db"));
}

#[test]
fn once_config_uses_db_path() {
    let cli = Cli {
        command: Command::Once {
            db: "snap.db".into(),
            save: true,
        },
    };
    let cfg = Config::from_cli(cli).unwrap();
    assert_eq!(cfg.db_path, PathBuf::from("snap.db"));
}

#[test]
fn daemon_config_keeps_positive_interval() {
    let cli = Cli {
        command: Command::Daemon {
            db: "d.db".into(),
            interval_secs: 5,
        },
    };
    let cfg = Config::from_cli(cli).unwrap();
    assert_eq!(cfg.db_path, PathBuf::from("d.db"));
    assert_eq!(cfg.interval, std::time::Duration::from_secs(5));
    assert!(cfg.audit_log.is_none());
}

#[test]
fn mcp_config_keeps_audit_log_and_default_interval() {
    let cli = Cli {
        command: Command::Mcp {
            db: "m.db".into(),
            audit_log: Some("audit.jsonl".into()),
        },
    };
    let cfg = Config::from_cli(cli).unwrap();
    assert_eq!(cfg.interval, std::time::Duration::from_secs(DEFAULT_INTERVAL_SECS));
    assert_eq!(cfg.interval.as_secs(), 30);
    assert_eq!(cfg.audit_log, Some(PathBuf::from("audit.jsonl")));
}

#[test]
fn config_error_message() {
    assert_eq!(
        ConfigError::InvalidInterval.message(),
        "interval must be greater than zero"
    );
}

#[test]
fn run_rejects_invalid_daemon_interval() {
    let cli = Cli {
        command: Command::Daemon {
            db: PathBuf::from("x.db"),
            interval_secs: 0,
        },
    };
    assert!(Config::from_cli(cli).is_err());
}
