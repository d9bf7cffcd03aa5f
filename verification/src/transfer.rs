//! Relocating one file.
//!
//! The destination of a file is `<root>/<subfolder>/<file name>`: the name
//! alone, not the path below the source root. Files of the same name from
//! different source directories therefore meet at one destination, and the one
//! that is transferred last stays.
//!
//! Touching the file system is left to the caller. What is decided here is the
//! order of the steps: the caller carries out the action it is handed, reports
//! what came of it, and is handed the next one, until it is told to finish.

use crate::config::TransferMode;
use vstd::prelude::*;
use vstd::string::StringExecFns;

verus! {

/// Where a file goes, as the parts of its path.
#[derive(Debug, PartialEq, Eq)]
pub struct Destination {
    /// The output directory.
    pub root: String,
    /// The subfolder below the output directory.
    pub subfolder: String,
    /// The file's name.
    pub file_name: String,
}

/// A destination, as plain values.
pub struct DestinationView {
    pub root: Seq<char>,
    pub subfolder: Seq<char>,
    pub file_name: Seq<char>,
}

impl View for Destination {
    type V = DestinationView;

    open spec fn view(&self) -> DestinationView {
        DestinationView {
            root: self.root@,
            subfolder: self.subfolder@,
            file_name: self.file_name@,
        }
    }
}

/// One file to relocate.
#[derive(Debug, PartialEq, Eq)]
pub struct TransferPlan {
    /// The path at which the file was found.
    pub source: String,
    /// Where it goes.
    pub destination: Destination,
    /// How it gets there.
    pub mode: TransferMode,
}

/// A transfer plan, as plain values.
pub struct TransferPlanView {
    pub source: Seq<char>,
    pub destination: DestinationView,
    pub mode: TransferMode,
}

impl View for TransferPlan {
    type V = TransferPlanView;

    open spec fn view(&self) -> TransferPlanView {
        TransferPlanView {
            source: self.source@,
            destination: self.destination@,
            mode: self.mode,
        }
    }
}

/// Why a file was not relocated.
#[derive(Debug, PartialEq, Eq)]
pub enum TransferError {
    /// The file's name is not text, so it has no destination.
    InvalidFileName,
    /// The source was gone when the transfer began.
    SourceMissing,
    /// A step on the file system failed.
    Failed { cause: String },
    /// A report did not answer the action that had been handed out.
    UnexpectedReport,
}

/// A transfer error, as plain values.
pub enum TransferErrorView {
    InvalidFileName,
    SourceMissing,
    Failed { cause: Seq<char> },
    UnexpectedReport,
}

impl View for TransferError {
    type V = TransferErrorView;

    open spec fn view(&self) -> TransferErrorView {
        match self {
            TransferError::InvalidFileName => TransferErrorView::InvalidFileName,
            TransferError::SourceMissing => TransferErrorView::SourceMissing,
            TransferError::Failed { cause } => TransferErrorView::Failed { cause: cause@ },
            TransferError::UnexpectedReport => TransferErrorView::UnexpectedReport,
        }
    }
}

/// The text that names the cause of a transfer error.
pub open spec fn transfer_error_text(error: TransferErrorView) -> Seq<char> {
    match error {
        TransferErrorView::InvalidFileName => "Invalid filename encoding"@,
        TransferErrorView::SourceMissing => "source does not exist"@,
        TransferErrorView::Failed { cause } => cause,
        TransferErrorView::UnexpectedReport => "unexpected report for a transfer step"@,
    }
}

impl TransferError {
    /// The text that names the cause.
    pub fn message(&self) -> (text: String)
        ensures
            text@ == transfer_error_text(self@),
    {
        match self {
            TransferError::InvalidFileName => String::from_str("Invalid filename encoding"),
            TransferError::SourceMissing => String::from_str("source does not exist"),
            TransferError::Failed { cause } => cause.clone(),
            TransferError::UnexpectedReport => String::from_str(
                "unexpected report for a transfer step",
            ),
        }
    }
}

/// How far a transfer has come: the step whose report is awaited.
#[derive(Clone, Copy, Debug, PartialEq, Eq, Structural)]
pub enum TransferStage {
    /// Whether the source exists is being looked up.
    CheckingSource,
    /// The destination's subfolder is being created.
    CreatingDirectories,
    /// Whether the destination exists is being looked up.
    CheckingDestination,
    /// The file at the destination is being removed.
    RemovingDestination,
    /// The source's content is being duplicated to the destination.
    Copying,
    /// The source is being renamed to the destination.
    Renaming,
    /// Nothing is awaited; the transfer has ended.
    Finished,
}

/// What came of the step that the caller was handed.
#[derive(Debug, PartialEq, Eq)]
pub enum TransferReport {
    /// A lookup's answer: whether the file exists.
    Found(bool),
    /// The step was carried out.
    Done,
    /// The step failed, for this reason.
    Failed(String),
}

/// A report, as plain values.
pub enum TransferReportView {
    Found(bool),
    Done,
    Failed(Seq<char>),
}

impl View for TransferReport {
    type V = TransferReportView;

    open spec fn view(&self) -> TransferReportView {
        match self {
            TransferReport::Found(exists) => TransferReportView::Found(*exists),
            TransferReport::Done => TransferReportView::Done,
            TransferReport::Failed(cause) => TransferReportView::Failed(cause@),
        }
    }
}

/// What the caller does next.
#[derive(Debug, PartialEq, Eq)]
pub enum TransferAction {
    /// Look up whether the source exists.
    ProbeSource,
    /// Create the destination's subfolder and any missing ancestor; nothing is
    /// to be done where it exists.
    CreateDirectories,
    /// Look up whether the destination exists.
    ProbeDestination,
    /// Remove the file at the destination.
    RemoveDestination,
    /// Duplicate the source's content to the destination.
    CopyContents,
    /// Rename the source to the destination.
    Rename,
    /// Stop: the transfer has ended, well or with this error.
    Finish(Result<(), TransferError>),
}

/// An action, as plain values.
pub enum TransferActionView {
    ProbeSource,
    CreateDirectories,
    ProbeDestination,
    RemoveDestination,
    CopyContents,
    Rename,
    Finish(Result<(), TransferErrorView>),
}

impl View for TransferAction {
    type V = TransferActionView;

    open spec fn view(&self) -> TransferActionView {
        match self {
            TransferAction::ProbeSource => TransferActionView::ProbeSource,
            TransferAction::CreateDirectories => TransferActionView::CreateDirectories,
            TransferAction::ProbeDestination => TransferActionView::ProbeDestination,
            TransferAction::RemoveDestination => TransferActionView::RemoveDestination,
            TransferAction::CopyContents => TransferActionView::CopyContents,
            TransferAction::Rename => TransferActionView::Rename,
            TransferAction::Finish(Ok(())) => TransferActionView::Finish(Ok(())),
            TransferAction::Finish(Err(e)) => TransferActionView::Finish(Err(e@)),
        }
    }
}

/// Whether a transfer in this mode ever awaits this stage's step. Renaming
/// belongs to a move; looking the destination up, removing it and copying
/// belong to a copy; an ended transfer awaits nothing.
pub open spec fn occurs_in(stage: TransferStage, mode: TransferMode) -> bool {
    match stage {
        TransferStage::CheckingSource | TransferStage::CreatingDirectories => true,
        TransferStage::CheckingDestination
        | TransferStage::RemovingDestination
        | TransferStage::Copying => mode == TransferMode::Copy,
        TransferStage::Renaming => mode == TransferMode::Move,
        TransferStage::Finished => false,
    }
}

/// The stage that follows a report, and the action that goes with it.
///
/// A transfer begins by looking the source up, and ends at once where it is
/// gone. Then the destination's subfolder is created. A move renames the
/// source. A copy looks the destination up, removes it where it exists, and
/// duplicates the source's content. A step that fails ends the transfer with
/// its cause, and so does a report that does not answer the awaited step.
pub open spec fn step(mode: TransferMode, stage: TransferStage, report: TransferReportView) -> (
    TransferStage,
    TransferActionView,
) {
    match (stage, report) {
        _ if !occurs_in(stage, mode) => (
            TransferStage::Finished,
            TransferActionView::Finish(Err(TransferErrorView::UnexpectedReport)),
        ),
        (_, TransferReportView::Failed(cause)) => (
            TransferStage::Finished,
            TransferActionView::Finish(Err(TransferErrorView::Failed { cause })),
        ),
        (TransferStage::CheckingSource, TransferReportView::Found(true)) => (
            TransferStage::CreatingDirectories,
            TransferActionView::CreateDirectories,
        ),
        (TransferStage::CheckingSource, TransferReportView::Found(false)) => (
            TransferStage::Finished,
            TransferActionView::Finish(Err(TransferErrorView::SourceMissing)),
        ),
        (TransferStage::CreatingDirectories, TransferReportView::Done) => match mode {
            TransferMode::Move => (TransferStage::Renaming, TransferActionView::Rename),
            TransferMode::Copy => (
                TransferStage::CheckingDestination,
                TransferActionView::ProbeDestination,
            ),
        },
        (TransferStage::CheckingDestination, TransferReportView::Found(true)) => (
            TransferStage::RemovingDestination,
            TransferActionView::RemoveDestination,
        ),
        (TransferStage::CheckingDestination, TransferReportView::Found(false)) => (
            TransferStage::Copying,
            TransferActionView::CopyContents,
        ),
        (TransferStage::RemovingDestination, TransferReportView::Done) => (
            TransferStage::Copying,
            TransferActionView::CopyContents,
        ),
        (TransferStage::Copying, TransferReportView::Done) => (
            TransferStage::Finished,
            TransferActionView::Finish(Ok(())),
        ),
        (TransferStage::Renaming, TransferReportView::Done) => (
            TransferStage::Finished,
            TransferActionView::Finish(Ok(())),
        ),
        _ => (
            TransferStage::Finished,
            TransferActionView::Finish(Err(TransferErrorView::UnexpectedReport)),
        ),
    }
}

/// The number of reports that a transfer at this stage can still take before
/// it has ended.
pub open spec fn steps_left(stage: TransferStage) -> nat {
    match stage {
        TransferStage::CheckingSource => 5,
        TransferStage::CreatingDirectories => 4,
        TransferStage::CheckingDestination => 3,
        TransferStage::RemovingDestination => 2,
        TransferStage::Copying => 1,
        TransferStage::Renaming => 1,
        TransferStage::Finished => 0,
    }
}

/// Every report brings a transfer nearer to its end, and the caller is told
/// to finish exactly when the end is reached.
pub proof fn lemma_transfer_ends(
    mode: TransferMode,
    stage: TransferStage,
    report: TransferReportView,
)
    ensures
        stage != TransferStage::Finished ==> steps_left(step(mode, stage, report).0) < steps_left(
            stage,
        ),
        step(mode, stage, report).0 != TransferStage::Finished ==> occurs_in(
            step(mode, stage, report).0,
            mode,
        ),
        step(mode, stage, report).0 == TransferStage::Finished <==> step(
            mode,
            stage,
            report,
        ).1 is Finish,
{
}

/// A copy never renames the source, so the source stays whatever happens; and
/// no transfer removes anything but a destination that was found to exist.
pub proof fn lemma_source_is_kept(
    mode: TransferMode,
    stage: TransferStage,
    report: TransferReportView,
)
    ensures
        mode == TransferMode::Copy ==> !(step(mode, stage, report).1 is Rename),
        step(mode, stage, report).1 is RemoveDestination ==> mode == TransferMode::Copy && stage
            == TransferStage::CheckingDestination && report == TransferReportView::Found(true),
{
}

/// Content is only ever written to a destination that was found free or has
/// just been removed, and only in a copy; a source is only ever renamed once
/// the destination's subfolder has been created, and only in a move.
pub proof fn lemma_writes_follow_preparation(
    mode: TransferMode,
    stage: TransferStage,
    report: TransferReportView,
)
    ensures
        step(mode, stage, report).1 is CopyContents ==> mode == TransferMode::Copy && ((stage
            == TransferStage::CheckingDestination && report == TransferReportView::Found(false))
            || (stage == TransferStage::RemovingDestination && report
            == TransferReportView::Done)),
        step(mode, stage, report).1 is Rename ==> mode == TransferMode::Move && stage
            == TransferStage::CreatingDirectories && report == TransferReportView::Done,
{
}

/// A step that fails ends the transfer with its cause, and a source that is
/// gone ends it before anything is created.
pub proof fn lemma_failures_end_transfer(mode: TransferMode, stage: TransferStage, cause: Seq<char>)
    ensures
        occurs_in(stage, mode) ==> step(mode, stage, TransferReportView::Failed(cause)) == (
            TransferStage::Finished,
            TransferActionView::Finish(Err(TransferErrorView::Failed { cause })),
        ),
        step(mode, TransferStage::CheckingSource, TransferReportView::Found(false)) == (
            TransferStage::Finished,
            TransferActionView::Finish(Err(TransferErrorView::SourceMissing)),
        ),
{
}

/// The stage and the action with which every transfer begins.
pub fn begin_transfer() -> (first: (TransferStage, TransferAction))
    ensures
        first.0 == TransferStage::CheckingSource,
        first.1@ == TransferActionView::ProbeSource,
{
    (TransferStage::CheckingSource, TransferAction::ProbeSource)
}

/// Takes the report on the awaited step and hands out the next stage and
/// action.
pub fn advance_transfer(
    mode: TransferMode,
    stage: TransferStage,
    report: TransferReport,
) -> (next: (TransferStage, TransferAction))
    ensures
        next.0 == step(mode, stage, report@).0,
        next.1@ == step(mode, stage, report@).1,
{
    let unexpected = (
        TransferStage::Finished,
        TransferAction::Finish(Err(TransferError::UnexpectedReport)),
    );
    if !stage_occurs_in(stage, mode) {
        return unexpected;
    }
    match stage {
        TransferStage::Finished => unexpected,
        TransferStage::CheckingSource => match report {
            TransferReport::Failed(cause) => failed(cause),
            TransferReport::Found(true) => (
                TransferStage::CreatingDirectories,
                TransferAction::CreateDirectories,
            ),
            TransferReport::Found(false) => (
                TransferStage::Finished,
                TransferAction::Finish(Err(TransferError::SourceMissing)),
            ),
            TransferReport::Done => unexpected,
        },
        TransferStage::CreatingDirectories => match report {
            TransferReport::Failed(cause) => failed(cause),
            TransferReport::Done => match mode {
                TransferMode::Move => (TransferStage::Renaming, TransferAction::Rename),
                TransferMode::Copy => (
                    TransferStage::CheckingDestination,
                    TransferAction::ProbeDestination,
                ),
            },
            TransferReport::Found(_) => unexpected,
        },
        TransferStage::CheckingDestination => match report {
            TransferReport::Failed(cause) => failed(cause),
            TransferReport::Found(true) => (
                TransferStage::RemovingDestination,
                TransferAction::RemoveDestination,
            ),
            TransferReport::Found(false) => (TransferStage::Copying, TransferAction::CopyContents),
            TransferReport::Done => unexpected,
        },
        TransferStage::RemovingDestination => match report {
            TransferReport::Failed(cause) => failed(cause),
            TransferReport::Done => (TransferStage::Copying, TransferAction::CopyContents),
            TransferReport::Found(_) => unexpected,
        },
        TransferStage::Copying => match report {
            TransferReport::Failed(cause) => failed(cause),
            TransferReport::Done => (TransferStage::Finished, TransferAction::Finish(Ok(()))),
            TransferReport::Found(_) => unexpected,
        },
        TransferStage::Renaming => match report {
            TransferReport::Failed(cause) => failed(cause),
            TransferReport::Done => (TransferStage::Finished, TransferAction::Finish(Ok(()))),
            TransferReport::Found(_) => unexpected,
        },
    }
}

/// Whether a transfer in this mode ever awaits this stage's step.
pub fn stage_occurs_in(stage: TransferStage, mode: TransferMode) -> (occurs: bool)
    ensures
        occurs == occurs_in(stage, mode),
{
    match stage {
        TransferStage::CheckingSource | TransferStage::CreatingDirectories => true,
        TransferStage::CheckingDestination
        | TransferStage::RemovingDestination
        | TransferStage::Copying => match mode {
            TransferMode::Copy => true,
            TransferMode::Move => false,
        },
        TransferStage::Renaming => match mode {
            TransferMode::Copy => false,
            TransferMode::Move => true,
        },
        TransferStage::Finished => false,
    }
}

/// The end of a transfer whose step failed.
fn failed(cause: String) -> (next: (TransferStage, TransferAction))
    ensures
        next.0 == TransferStage::Finished,
        next.1@ == TransferActionView::Finish(Err(TransferErrorView::Failed { cause: cause@ })),
{
    (TransferStage::Finished, TransferAction::Finish(Err(TransferError::Failed { cause })))
}

} // verus!
