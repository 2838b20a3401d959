use time_rs::cli::{Cli, Commands};
use time_rs::commands::{Command, Start, Status, Stop, Summary};
use time_rs::config::Config;
use time_rs::progress::ProgressNode;

#[test]
fn basic_operation_succeeds() {
    let start = Start {};
    let mut config = Config::new();
    config.add_data_dir("/".to_string());
    let cli = Cli::default();
    let mut progress = ProgressNode::new("root".to_string());

    let result = start.run(&mut progress, &cli, &config);

    assert!(result.is_ok());
}

#[test]
fn test_status_run() {
    let cli = Cli::default();
    let config = Config::new();
    let mut progress = ProgressNode::new("root".to_string());
    let status = Status {};
    let result = status.run(&mut progress, &cli, &config);
    assert!(result.is_ok());
}

#[test]
fn test_stop_run() {
    let cli = Cli::default();
    let config = Config::new();
    let mut progress = ProgressNode::new("root".to_string());
    let stop = Stop {};
    let result = stop.run(&mut progress, &cli, &config);
    assert!(result.is_ok());
}

#[test]
fn test_summary_run() {
    let cli = Cli::default();
    let config = Config::new();
    let mut progress = ProgressNode::new("root".to_string());
    let summary = Summary {};
    let result = summary.run(&mut progress, &cli, &config);
    assert!(result.is_ok());
}

#[test]
fn test_add_data_dir() {
    let mut config = Config::new();
    let path = "/new/data/dir".to_string();
    config.add_data_dir(path.clone());
    assert_eq!(config.data_dir, Some(path));
}

#[test]
fn cli_default_is_empty() {
    let cli = Cli::default();
    assert!(cli.data_dir.is_none());
    assert!(cli.config_dir.is_none());
    assert!(!cli.force);
    assert!(cli.command.is_none());
}

#[test]
fn cli_carries_a_command() {
    let cli = Cli {
        data_dir: Some("/tmp".to_string()),
        config_dir: None,
        force: false,
        command: Some(Commands::Start(Start {})),
    };
    assert!(matches!(cli.command, Some(Commands::Start(_))));
}
