use dirsort::config::{resolve_worker_count, ConfigError, RunConfig, TransferMode, WorkerCount};

#[test]
fn zero_workers_are_refused() {
    assert_eq!(resolve_worker_count(Some(0)), Err(ConfigError::InvalidWorkerCount));
    assert_eq!(ConfigError::InvalidWorkerCount.message(), "Thread count must be greater than 0");
    assert_eq!(
        RunConfig::resolve(None, false, Some(0), None),
        Err(ConfigError::InvalidWorkerCount)
    );
}

#[test]
fn worker_count_is_taken_as_given() {
    assert_eq!(resolve_worker_count(None), Ok(WorkerCount::PlatformDefault));
    assert_eq!(resolve_worker_count(Some(1)), Ok(WorkerCount::Fixed(1)));
    assert_eq!(resolve_worker_count(Some(64)), Ok(WorkerCount::Fixed(64)));
    assert_eq!(resolve_worker_count(Some(usize::MAX)), Ok(WorkerCount::Fixed(usize::MAX)));
}

#[test]
fn defaults_of_a_run() {
    let config = RunConfig::resolve(None, false, None, None).unwrap();
    assert_eq!(
        config,
        RunConfig {
            output_dir: "sorted".to_string(),
            mode: TransferMode::Copy,
            workers: WorkerCount::PlatformDefault,
            max_depth: None,
            follow_links: true,
        }
    );
}

#[test]
fn choices_of_a_run() {
    let config = RunConfig::resolve(Some("out".to_string()), true, Some(8), Some(0)).unwrap();
    assert_eq!(
        config,
        RunConfig {
            output_dir: "out".to_string(),
            mode: TransferMode::Move,
            workers: WorkerCount::Fixed(8),
            max_depth: Some(0),
            follow_links: true,
        }
    );
}

#[test]
fn modes_and_their_words() {
    assert_eq!(TransferMode::from_flag(true), TransferMode::Move);
    assert_eq!(TransferMode::from_flag(false), TransferMode::Copy);
    assert_eq!(TransferMode::Move.verb(), "moving");
    assert_eq!(TransferMode::Copy.verb(), "copying");
}

#[test]
fn messages_of_configuration_errors() {
    assert_eq!(
        ConfigError::ThreadPool { reason: "already initialised".to_string() }.message(),
        "Failed to configure thread pool: already initialised"
    );
    assert_eq!(
        ConfigError::OutputDirectory {
            path: "sorted".to_string(),
            reason: "permission denied".to_string(),
        }
        .message(),
        "Failed to create output directory 'sorted': permission denied"
    );
    assert_eq!(
        ConfigError::UnreadableBlacklist { path: "b".to_string(), reason: "r".to_string() }
            .message(),
        "Failed to read blacklist file 'b': r"
    );
    assert_eq!(
        ConfigError::MalformedCategories { reason: "r".to_string() }.message(),
        "Malformed category configuration: r"
    );
}
