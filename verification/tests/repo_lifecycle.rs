use time_rs::cli::Cli;
use time_rs::config::Config;
use time_rs::error::Error;
use time_rs::reaper::{EntryInfo, ReapAction, ReapEvent};
use time_rs::repo::{init_outcome, CloneEvent, CloneStep, InitEvent, Repo, RepoCommand};

fn config_with(data_dir: &str) -> Config {
    let mut config = Config::new();
    config.add_data_dir(data_dir.to_string());
    config
}

#[test]
fn clone_fails_without_data_dir() {
    let repo = Repo {
        command: RepoCommand::Clone { url: "https://github.com/NobbZ/time_rs".to_string() },
    };
    let config = Config::new();

    let result = repo.clone_start(&config);

    assert!(matches!(result, Err(Error::NoDataDirectoryConfigured)));
}

#[test]
fn clone_fails_with_invalid_url() {
    let repo = Repo { command: RepoCommand::Clone { url: "not-a-valid-url".to_string() } };
    let config = config_with("/tmp/clone-invalid");

    // The engine reads "not-a-valid-url" as a local path, so the failure
    // comes once it looks for a repository there: at fetch setup.
    let result = match repo.clone_start(&config) {
        Err(e) => Err(e),
        Ok(mut op) => {
            op.on_event(CloneEvent::DirCreated).unwrap();
            op.on_event(CloneEvent::FetchSetupFailed("no repository there".to_string()))
        }
    };

    assert!(result.is_err());
}

#[test]
fn clone_fails_with_unparsable_url() {
    let repo = Repo { command: RepoCommand::Clone { url: "".to_string() } };
    let config = config_with("/tmp/clone-unparsable");

    let result = repo.clone_start(&config);

    match result {
        Err(Error::UrlParseFailed(url)) => assert_eq!(url, ""),
        other => panic!("Error::UrlParseFailed was expected, got {other:?}"),
    }
}

#[test]
fn clone_fails_when_destination_not_empty() {
    let repo = Repo {
        command: RepoCommand::Clone { url: "https://github.com/NobbZ/time_rs".to_string() },
    };
    let config = config_with("/tmp/clone-nonempty");

    // The engine is told to insist on an empty destination; a pre-existing
    // file there makes it refuse the clone at setup.
    let mut op = repo.clone_start(&config).unwrap();
    op.on_event(CloneEvent::DirCreated).unwrap();
    let result = op.on_event(CloneEvent::FetchSetupFailed(
        "refusing to initialize the non-empty directory".to_string(),
    ));

    assert!(result.is_err());
    assert!(matches!(result, Err(Error::EngineCloneSetupFailed(_))));
    assert_eq!(op.step, CloneStep::Failed);
}

#[test]
fn init_succeeds_with_empty_directory() {
    let repo = Repo { command: RepoCommand::Init {} };
    let config = config_with("/tmp/init-empty");

    let plan = repo.init_plan(&config).unwrap();
    let result = init_outcome(InitEvent::Created);

    assert!(result.is_ok());
    assert_eq!(plan.target, "/tmp/init-empty/repo");
    assert!(plan.destination_must_be_empty);
}

#[test]
fn init_fails_on_second_run() {
    // The destination is non-empty the second time, and the plan obliges the
    // engine to refuse it.
    let repo = Repo { command: RepoCommand::Init {} };
    let config = config_with("/tmp/init-twice");

    let plan = repo.init_plan(&config).unwrap();
    assert!(plan.destination_must_be_empty);
    let first = init_outcome(InitEvent::Created);
    let second = init_outcome(InitEvent::EngineFailed(
        "refusing to initialize the non-empty directory".to_string(),
    ));

    assert!(first.is_ok());
    assert!(matches!(second, Err(Error::EngineInitializationFailed(_))));
}

#[test]
fn init_fails_without_data_dir() {
    let repo = Repo { command: RepoCommand::Init {} };
    let config = Config::new();

    let result = repo.init_plan(&config);

    assert!(matches!(result, Err(Error::NoDataDirectoryConfigured)));
}

#[test]
fn init_maps_remaining_outcomes() {
    let io = init_outcome(InitEvent::CreateDirFailed("permission denied".to_string()));
    let join = init_outcome(InitEvent::JoinFailed("worker gone".to_string()));

    assert!(matches!(io, Err(Error::FilesystemIO(_))));
    assert!(matches!(join, Err(Error::BackgroundTaskJoinFailed(_))));
}

#[test]
fn destroy_fails_without_force_flag() {
    let repo = Repo { command: RepoCommand::Destroy {} };
    let cli = Cli::default();
    let config = config_with("/tmp/destroy-noforce");

    let result = repo.destroy_start(&cli, &config);

    match result {
        Err(Error::DestructiveOperationRequiresConfirmation(operation)) => {
            assert_eq!(operation, "repo destroy");
        }
        other => panic!("confirmation refusal was expected, got {other:?}"),
    }
}

#[test]
fn destroy_succeeds_with_force_flag() {
    let repo = Repo { command: RepoCommand::Destroy {} };
    let mut cli = Cli::default();
    cli.force = true;
    let config = config_with("/data");

    // The repository holds test_file.txt and nested/inner.txt.
    let mut op = repo.destroy_start(&cli, &config).unwrap();
    match op.reaper.next_action() {
        ReapAction::ReadDir(p) => assert_eq!(p, "/data/repo"),
        other => panic!("enumeration of the root was expected, got {other:?}"),
    }
    op.reaper
        .on_event(
            ReapEvent::DirRead(vec![
                EntryInfo { name: "test_file.txt".to_string(), is_dir: false },
                EntryInfo { name: "nested".to_string(), is_dir: true },
            ]),
            &mut op.progress,
        )
        .unwrap();
    assert!(matches!(op.reaper.next_action(), ReapAction::RemoveFile(p) if p == "/data/repo/test_file.txt"));
    op.reaper.on_event(ReapEvent::Removed, &mut op.progress).unwrap();
    assert!(matches!(op.reaper.next_action(), ReapAction::ReadDir(p) if p == "/data/repo/nested"));
    op.reaper
        .on_event(
            ReapEvent::DirRead(vec![EntryInfo { name: "inner.txt".to_string(), is_dir: false }]),
            &mut op.progress,
        )
        .unwrap();
    assert!(matches!(op.reaper.next_action(), ReapAction::RemoveFile(p) if p == "/data/repo/nested/inner.txt"));
    op.reaper.on_event(ReapEvent::Removed, &mut op.progress).unwrap();
    assert!(matches!(op.reaper.next_action(), ReapAction::RemoveDir(p) if p == "/data/repo/nested"));
    op.reaper.on_event(ReapEvent::Removed, &mut op.progress).unwrap();
    assert!(matches!(op.reaper.next_action(), ReapAction::RemoveDir(p) if p == "/data/repo"));
    op.reaper.on_event(ReapEvent::Removed, &mut op.progress).unwrap();

    assert!(op.reaper.finished);
    assert!(matches!(op.reaper.next_action(), ReapAction::Finished));
    op.finish();
    assert_eq!(op.progress.completion.as_deref(), Some("destroyed"));
    // Four objects removed; three entries encountered across the two reads.
    assert_eq!(op.progress.current, 4);
    assert_eq!(op.progress.max_value, Some(3));
}

#[test]
fn destroy_fails_when_repo_folder_does_not_exist() {
    let repo = Repo { command: RepoCommand::Destroy {} };
    let mut cli = Cli::default();
    cli.force = true;
    let config = config_with("/tmp/destroy-missing");

    let mut op = repo.destroy_start(&cli, &config).unwrap();
    // The first action enumerates the root, so nothing was removed when the
    // enumeration of a missing directory fails.
    assert!(matches!(op.reaper.next_action(), ReapAction::ReadDir(_)));
    let result = op.reaper.on_event(
        ReapEvent::Failed("No such file or directory".to_string()),
        &mut op.progress,
    );

    assert!(result.is_err());
    assert!(matches!(result, Err(Error::FilesystemIO(_))));
    assert!(op.reaper.failed);
    assert_eq!(op.progress.current, 0);
    assert_eq!(op.progress.max_value, Some(0));
}

#[test]
fn sync_succeeds() {
    let repo = Repo { command: RepoCommand::Sync {} };

    let result = repo.sync();

    assert!(result.is_ok());
}

#[test]
fn clone_succeeds() {
    let repo = Repo {
        command: RepoCommand::Clone { url: "https://github.com/git-fixtures/basic".to_string() },
    };
    let config = config_with("/tmp/clone-ok");

    let mut op = repo.clone_start(&config).unwrap();
    assert_eq!(op.dest, "/tmp/clone-ok/repo");
    op.on_event(CloneEvent::DirCreated).unwrap();
    op.on_event(CloneEvent::Fetched).unwrap();
    op.on_event(CloneEvent::CheckedOut).unwrap();

    assert_eq!(op.step, CloneStep::Complete);
    assert_eq!(op.progress.current, 4);
    assert_eq!(op.progress.max_value, Some(4));
}

#[test]
fn clone_counts_its_four_steps() {
    // URL parse, directory creation, fetch, checkout: one tick each.
    let repo = Repo {
        command: RepoCommand::Clone { url: "https://example.org/repo.git".to_string() },
    };
    let config = config_with("/tmp/clone-steps");

    let mut op = repo.clone_start(&config).unwrap();
    assert_eq!(op.dest, "/tmp/clone-steps/repo");
    assert_eq!(op.progress.current, 1);
    assert_eq!(op.progress.max_value, Some(4));
    assert_eq!(op.progress.children.len(), 2);
    assert_eq!(op.progress.children[0].label, "fetch");
    assert_eq!(op.progress.children[1].label, "checkout");

    op.on_event(CloneEvent::DirCreated).unwrap();
    assert_eq!(op.progress.current, 2);
    op.on_event(CloneEvent::Fetched).unwrap();
    assert_eq!(op.progress.current, 3);
    op.on_event(CloneEvent::CheckedOut).unwrap();
    assert_eq!(op.progress.current, 4);
    assert_eq!(op.progress.max_value, Some(4));
    assert_eq!(op.step, CloneStep::Complete);
}

#[test]
fn clone_fetch_failure_keeps_progress() {
    let repo = Repo {
        command: RepoCommand::Clone { url: "https://example.org/repo.git".to_string() },
    };
    let config = config_with("/tmp/clone-fetchfail");

    let mut op = repo.clone_start(&config).unwrap();
    op.on_event(CloneEvent::DirCreated).unwrap();
    let result = op.on_event(CloneEvent::FetchFailed("connection reset".to_string()));

    assert!(matches!(result, Err(Error::EngineFetchFailed(_))));
    assert_eq!(op.step, CloneStep::Failed);
    assert_eq!(op.progress.current, 2);
}

#[test]
fn clone_checkout_failure_is_distinguished() {
    let repo = Repo {
        command: RepoCommand::Clone { url: "https://example.org/repo.git".to_string() },
    };
    let config = config_with("/tmp/clone-checkoutfail");

    let mut op = repo.clone_start(&config).unwrap();
    op.on_event(CloneEvent::DirCreated).unwrap();
    op.on_event(CloneEvent::Fetched).unwrap();
    let result = op.on_event(CloneEvent::CheckoutFailed("interrupted".to_string()));

    assert!(matches!(result, Err(Error::EngineCheckoutFailed(_))));
    assert_eq!(op.step, CloneStep::Failed);
}
