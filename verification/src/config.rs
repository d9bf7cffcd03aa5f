//! The configuration of one run, and the errors that stop a run before it
//! starts.

use crate::text::text_of;
use vstd::prelude::*;
use vstd::string::StringExecFns;

verus! {

/// How a file reaches its destination.
#[derive(Clone, Copy, Debug, PartialEq, Eq, Structural)]
pub enum TransferMode {
    /// The file is duplicated and the source stays.
    Copy,
    /// The file is relocated and the source is gone afterwards.
    Move,
}

/// The mode that the operator's choice stands for.
pub open spec fn mode_for(use_move: bool) -> TransferMode {
    if use_move {
        TransferMode::Move
    } else {
        TransferMode::Copy
    }
}

impl TransferMode {
    /// The mode that the operator's choice stands for: a move where it was
    /// asked for, a copy otherwise.
    pub fn from_flag(use_move: bool) -> (mode: Self)
        ensures
            mode == mode_for(use_move),
    {
        if use_move {
            TransferMode::Move
        } else {
            TransferMode::Copy
        }
    }

    /// The word for what the run does to the files: "moving" or "copying".
    pub fn verb(self) -> (word: &'static str)
        ensures
            word@ == (match self {
                TransferMode::Move => "moving"@,
                TransferMode::Copy => "copying"@,
            }),
    {
        match self {
            TransferMode::Move => "moving",
            TransferMode::Copy => "copying",
        }
    }
}

/// How many workers process the entries.
#[derive(Clone, Copy, Debug, PartialEq, Eq, Structural)]
pub enum WorkerCount {
    /// As many as the platform suggests.
    PlatformDefault,
    /// Exactly this many; never zero.
    Fixed(usize),
}

/// A fault in the configuration. Each of them ends the run before any file is
/// touched.
#[derive(Debug, PartialEq, Eq)]
pub enum ConfigError {
    /// A worker count of zero was asked for.
    InvalidWorkerCount,
    /// The worker pool could not be set up.
    ThreadPool { reason: String },
    /// The blacklist file could not be read.
    UnreadableBlacklist { path: String, reason: String },
    /// The category document was read but is not what it should be.
    MalformedCategories { reason: String },
    /// The output directory could not be created.
    OutputDirectory { path: String, reason: String },
}

/// A configuration fault, as plain values.
pub enum ConfigErrorView {
    InvalidWorkerCount,
    ThreadPool { reason: Seq<char> },
    UnreadableBlacklist { path: Seq<char>, reason: Seq<char> },
    MalformedCategories { reason: Seq<char> },
    OutputDirectory { path: Seq<char>, reason: Seq<char> },
}

impl View for ConfigError {
    type V = ConfigErrorView;

    open spec fn view(&self) -> ConfigErrorView {
        match self {
            ConfigError::InvalidWorkerCount => ConfigErrorView::InvalidWorkerCount,
            ConfigError::ThreadPool { reason } => ConfigErrorView::ThreadPool { reason: reason@ },
            ConfigError::UnreadableBlacklist { path, reason } => {
                ConfigErrorView::UnreadableBlacklist { path: path@, reason: reason@ }
            },
            ConfigError::MalformedCategories { reason } => ConfigErrorView::MalformedCategories {
                reason: reason@,
            },
            ConfigError::OutputDirectory { path, reason } => ConfigErrorView::OutputDirectory {
                path: path@,
                reason: reason@,
            },
        }
    }
}

/// The text that tells the operator what is wrong.
pub open spec fn config_error_text(error: ConfigErrorView) -> Seq<char> {
    match error {
        ConfigErrorView::InvalidWorkerCount => "Thread count must be greater than 0"@,
        ConfigErrorView::ThreadPool { reason } => "Failed to configure thread pool: "@ + reason,
        ConfigErrorView::UnreadableBlacklist { path, reason } => "Failed to read blacklist file '"@
            + path + "': "@ + reason,
        ConfigErrorView::MalformedCategories { reason } => "Malformed category configuration: "@
            + reason,
        ConfigErrorView::OutputDirectory { path, reason } => "Failed to create output directory '"@
            + path + "': "@ + reason,
    }
}

impl ConfigError {
    /// The text that tells the operator what is wrong.
    pub fn message(&self) -> (text: String)
        ensures
            text@ == config_error_text(self@),
    {
        match self {
            ConfigError::InvalidWorkerCount => String::from_str(
                "Thread count must be greater than 0",
            ),
            ConfigError::ThreadPool { reason } => String::from_str(
                "Failed to configure thread pool: ",
            ).concat(reason.as_str()),
            ConfigError::UnreadableBlacklist { path, reason } => String::from_str(
                "Failed to read blacklist file '",
            ).concat(path.as_str()).concat("': ").concat(reason.as_str()),
            ConfigError::MalformedCategories { reason } => String::from_str(
                "Malformed category configuration: ",
            ).concat(reason.as_str()),
            ConfigError::OutputDirectory { path, reason } => String::from_str(
                "Failed to create output directory '",
            ).concat(path.as_str()).concat("': ").concat(reason.as_str()),
        }
    }
}

/// The worker count that a request stands for: none asks for the platform's
/// default, zero is refused, anything else is taken as it is.
pub open spec fn worker_count_for(requested: Option<usize>) -> Result<
    WorkerCount,
    ConfigErrorView,
> {
    match requested {
        None => Ok(WorkerCount::PlatformDefault),
        Some(n) => if n == 0 {
            Err(ConfigErrorView::InvalidWorkerCount)
        } else {
            Ok(WorkerCount::Fixed(n))
        },
    }
}

/// The view of a result whose error is a configuration fault.
pub open spec fn outcome_of<T>(r: Result<T, ConfigError>) -> Result<T, ConfigErrorView> {
    match r {
        Ok(v) => Ok(v),
        Err(e) => Err(e@),
    }
}

/// Decides how many workers the pool gets. A request for zero workers is a
/// configuration error.
pub fn resolve_worker_count(thread_count: Option<usize>) -> (r: Result<WorkerCount, ConfigError>)
    ensures
        outcome_of(r) == worker_count_for(thread_count),
{
    match thread_count {
        None => Ok(WorkerCount::PlatformDefault),
        Some(count) => {
            if count == 0 {
                Err(ConfigError::InvalidWorkerCount)
            } else {
                Ok(WorkerCount::Fixed(count))
            }
        },
    }
}

/// The settings of one run, fixed before the run starts.
#[derive(Debug, PartialEq, Eq)]
pub struct RunConfig {
    /// The directory that the files are sorted into.
    pub output_dir: String,
    /// Whether files are copied or moved.
    pub mode: TransferMode,
    /// How many workers process the entries.
    pub workers: WorkerCount,
    /// How many levels of subdirectories below the root are searched; none
    /// for all of them.
    pub max_depth: Option<usize>,
    /// Whether the walk follows symbolic links. It does.
    pub follow_links: bool,
}

/// A run's settings, as plain values.
pub struct RunConfigView {
    pub output_dir: Seq<char>,
    pub mode: TransferMode,
    pub workers: WorkerCount,
    pub max_depth: Option<usize>,
    pub follow_links: bool,
}

impl View for RunConfig {
    type V = RunConfigView;

    open spec fn view(&self) -> RunConfigView {
        RunConfigView {
            output_dir: self.output_dir@,
            mode: self.mode,
            workers: self.workers,
            max_depth: self.max_depth,
            follow_links: self.follow_links,
        }
    }
}

/// The name of the output directory where none is given.
pub open spec fn default_output_dir() -> Seq<char> {
    "sorted"@
}

/// The settings that the operator's choices stand for, or the error where
/// they ask for zero workers.
pub open spec fn resolved(
    output_dir: Option<Seq<char>>,
    use_move: bool,
    threads: Option<usize>,
    max_depth: Option<usize>,
) -> Result<RunConfigView, ConfigErrorView> {
    match worker_count_for(threads) {
        Err(e) => Err(e),
        Ok(workers) => Ok(
            RunConfigView {
                output_dir: match output_dir {
                    Some(dir) => dir,
                    None => default_output_dir(),
                },
                mode: mode_for(use_move),
                workers,
                max_depth,
                follow_links: true,
            },
        ),
    }
}

/// The view of the result of resolving a run's settings.
pub open spec fn config_result(r: Result<RunConfig, ConfigError>) -> Result<
    RunConfigView,
    ConfigErrorView,
> {
    match r {
        Ok(config) => Ok(config@),
        Err(e) => Err(e@),
    }
}

impl RunConfig {
    /// Fixes the settings of a run from the operator's choices.
    pub fn resolve(
        output_dir: Option<String>,
        use_move: bool,
        threads: Option<usize>,
        max_depth: Option<usize>,
    ) -> (r: Result<RunConfig, ConfigError>)
        ensures
            config_result(r) == resolved(text_of(output_dir), use_move, threads, max_depth),
    {
        let workers = match resolve_worker_count(threads) {
            Ok(workers) => workers,
            Err(e) => {
                return Err(e);
            },
        };
        let output_dir = match output_dir {
            Some(dir) => dir,
            None => String::from_str("sorted"),
        };
        Ok(
            RunConfig {
                output_dir,
                mode: TransferMode::from_flag(use_move),
                workers,
                max_depth,
                follow_links: true,
            },
        )
    }
}

} // verus!
