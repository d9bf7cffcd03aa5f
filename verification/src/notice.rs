//! The notice that tells the operator that a run has finished.

use crate::config::TransferMode;
use vstd::prelude::*;
use vstd::string::StringExecFns;

verus! {

/// A notice: a short summary line and a body.
#[derive(Debug, PartialEq, Eq)]
pub struct Notice {
    pub summary: String,
    pub body: String,
}

/// The word by which the notice calls what the run did.
pub open spec fn operation_of(mode: TransferMode) -> Seq<char> {
    match mode {
        TransferMode::Move => "moving"@,
        TransferMode::Copy => "sorting"@,
    }
}

/// The summary line of the notice.
pub open spec fn notice_summary(operation: Seq<char>) -> Seq<char> {
    "Finished "@ + operation
}

/// The body of the notice.
pub open spec fn notice_body(operation: Seq<char>) -> Seq<char> {
    "`dirsort` has finished "@ + operation + " the directory"@
}

/// The word by which the notice calls what the run did.
pub fn operation_name(mode: TransferMode) -> (word: &'static str)
    ensures
        word@ == operation_of(mode),
{
    match mode {
        TransferMode::Move => "moving",
        TransferMode::Copy => "sorting",
    }
}

/// The notice for a run that has finished `operation`.
pub fn finished_notice(operation: &str) -> (notice: Notice)
    ensures
        notice.summary@ == notice_summary(operation@),
        notice.body@ == notice_body(operation@),
{
    Notice {
        summary: String::from_str("Finished ").concat(operation),
        body: String::from_str("`dirsort` has finished ").concat(operation).concat(
            " the directory",
        ),
    }
}

} // verus!
