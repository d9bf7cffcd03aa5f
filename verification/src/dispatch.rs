//! Processing the entries of a run and keeping count of what became of them.
//!
//! Every entry is processed on its own: nothing about one entry depends on
//! another. The entries may therefore be handed out to workers in any order.
//! What the workers share is the accumulator, which takes one outcome per
//! entry; whoever shares it sees to it that outcomes are recorded one at a
//! time.
//!
//! The summary counts as processed every entry that was not skipped, whether
//! its transfer succeeded or failed. The failed transfers are counted beside
//! that, so that a reader can tell the two apart.

use crate::classify::{
    classify, decision_for, Decision, DecisionView, ExtensionIndex, ExtensionIndexView,
};
use crate::config::TransferMode;
use crate::entry::{FileEntry, FileEntryView};
use crate::text::texts;
use crate::transfer::{
    Destination, DestinationView, TransferError, TransferErrorView, TransferPlan, TransferPlanView,
};
use vstd::prelude::*;
use vstd::string::StringExecFns;

verus! {

/// What is to be done for one entry.
#[derive(Debug, PartialEq, Eq)]
pub enum Dispatch {
    /// Nothing: the blacklist rejects the entry.
    Skip,
    /// Nothing can be done: the entry cannot be given a destination.
    Fail(TransferError),
    /// The entry is to be transferred as planned.
    Transfer(TransferPlan),
}

/// What is to be done for one entry, as plain values.
pub enum DispatchView {
    Skip,
    Fail(TransferErrorView),
    Transfer(TransferPlanView),
}

impl View for Dispatch {
    type V = DispatchView;

    open spec fn view(&self) -> DispatchView {
        match self {
            Dispatch::Skip => DispatchView::Skip,
            Dispatch::Fail(e) => DispatchView::Fail(e@),
            Dispatch::Transfer(plan) => DispatchView::Transfer(plan@),
        }
    }
}

/// What is to be done for an entry: it is skipped where the blacklist rejects
/// it; otherwise it goes to `<out_dir>/<subfolder>/<file name>`, which needs
/// its name to be text.
pub open spec fn dispatch_for(
    entry: FileEntryView,
    out_dir: Seq<char>,
    mode: TransferMode,
    index: ExtensionIndexView,
) -> DispatchView {
    match decision_for(entry.extension, index) {
        DecisionView::Skip => DispatchView::Skip,
        DecisionView::TargetSubfolder(subfolder) => match entry.file_name {
            None => DispatchView::Fail(TransferErrorView::InvalidFileName),
            Some(file_name) => DispatchView::Transfer(
                TransferPlanView {
                    source: entry.path,
                    destination: DestinationView { root: out_dir, subfolder, file_name },
                    mode,
                },
            ),
        },
    }
}

/// Two entries with the same name are treated alike, wherever they were
/// found: both are skipped, or both go to the same destination, where only one
/// file can stay.
pub proof fn lemma_same_name_same_destination(
    a: FileEntryView,
    b: FileEntryView,
    out_dir: Seq<char>,
    mode: TransferMode,
    index: ExtensionIndexView,
)
    requires
        a.consistent(),
        b.consistent(),
        a.file_name is Some,
        a.file_name == b.file_name,
    ensures
        match (dispatch_for(a, out_dir, mode, index), dispatch_for(b, out_dir, mode, index)) {
            (DispatchView::Transfer(p), DispatchView::Transfer(q)) => p.destination
                == q.destination,
            (DispatchView::Skip, DispatchView::Skip) => true,
            _ => false,
        },
{
}

/// A planned transfer keeps the entry's path as its source and the entry's
/// own name, case preserved, below the subfolder that was decided for it.
pub proof fn lemma_destination_layout(
    entry: FileEntryView,
    out_dir: Seq<char>,
    mode: TransferMode,
    index: ExtensionIndexView,
)
    ensures
        dispatch_for(entry, out_dir, mode, index) matches DispatchView::Transfer(plan) ==> {
            &&& plan.source == entry.path
            &&& plan.mode == mode
            &&& plan.destination.root == out_dir
            &&& entry.file_name == Some(plan.destination.file_name)
            &&& decision_for(entry.extension, index) == DecisionView::TargetSubfolder(
                plan.destination.subfolder,
            )
        },
        dispatch_for(entry, out_dir, mode, index) is Skip <==> decision_for(
            entry.extension,
            index,
        ) is Skip,
{
}

/// Decides what is to be done for one entry.
pub fn process_file(
    entry: &FileEntry,
    out_dir: &str,
    mode: TransferMode,
    index: &ExtensionIndex,
) -> (dispatch: Dispatch)
    ensures
        dispatch@ == dispatch_for(entry@, out_dir@, mode, index@),
{
    match classify(entry, index) {
        Decision::Skip => Dispatch::Skip,
        Decision::TargetSubfolder(subfolder) => match entry.file_name() {
            None => Dispatch::Fail(TransferError::InvalidFileName),
            Some(file_name) => Dispatch::Transfer(
                TransferPlan {
                    source: String::from_str(entry.path()),
                    destination: Destination {
                        root: String::from_str(out_dir),
                        subfolder,
                        file_name: String::from_str(file_name),
                    },
                    mode,
                },
            ),
        },
    }
}

/// What became of one entry.
#[derive(Debug, PartialEq, Eq)]
pub enum TransferOutcome {
    /// The blacklist rejected it.
    Skipped,
    /// It was transferred.
    Succeeded,
    /// It was not transferred, for this cause.
    Failed(String),
}

/// An outcome, as plain values.
pub enum TransferOutcomeView {
    Skipped,
    Succeeded,
    Failed(Seq<char>),
}

impl View for TransferOutcome {
    type V = TransferOutcomeView;

    open spec fn view(&self) -> TransferOutcomeView {
        match self {
            TransferOutcome::Skipped => TransferOutcomeView::Skipped,
            TransferOutcome::Succeeded => TransferOutcomeView::Succeeded,
            TransferOutcome::Failed(cause) => TransferOutcomeView::Failed(cause@),
        }
    }
}

/// The line of the error log for an entry that was not transferred.
pub open spec fn failure_text(source: Seq<char>, cause: Seq<char>) -> Seq<char> {
    "Failed to process '"@ + source + "': "@ + cause
}

/// The counts of a run.
#[derive(Clone, Copy, Debug, PartialEq, Eq, Structural)]
pub struct Summary {
    /// How many entries were discovered.
    pub total: usize,
    /// How many of them the blacklist rejected.
    pub skipped: usize,
    /// How many were not skipped: `total - skipped`, failed transfers
    /// included.
    pub processed: usize,
    /// How many transfers failed.
    pub failed: usize,
}

/// What an accumulator holds, as plain values.
pub struct RunAccumulatorView {
    pub total: nat,
    pub skipped: nat,
    pub succeeded: nat,
    pub errors: Seq<Seq<char>>,
}

impl RunAccumulatorView {
    /// How many outcomes were recorded.
    pub open spec fn completed(self) -> nat {
        self.skipped + self.succeeded + self.errors.len()
    }

    /// The accumulator after one more outcome.
    pub open spec fn recorded(self, source: Seq<char>, outcome: TransferOutcomeView) -> Self {
        match outcome {
            TransferOutcomeView::Skipped => RunAccumulatorView {
                skipped: self.skipped + 1,
                ..self
            },
            TransferOutcomeView::Succeeded => RunAccumulatorView {
                succeeded: self.succeeded + 1,
                ..self
            },
            TransferOutcomeView::Failed(cause) => RunAccumulatorView {
                errors: self.errors.push(failure_text(source, cause)),
                ..self
            },
        }
    }

    /// The accumulator after a sequence of outcomes, each with the path of the
    /// entry it belongs to.
    pub open spec fn recorded_all(self, outcomes: Seq<(Seq<char>, TransferOutcomeView)>) -> Self
        decreases outcomes.len(),
    {
        if outcomes.len() == 0 {
            self
        } else {
            self.recorded_all(outcomes.drop_last()).recorded(
                outcomes.last().0,
                outcomes.last().1,
            )
        }
    }

    /// How many entries count as processed: all that were not skipped,
    /// whether their transfer succeeded or failed.
    pub open spec fn processed(self) -> int {
        self.total - self.skipped
    }

    /// How many transfers failed.
    pub open spec fn failed(self) -> nat {
        self.errors.len()
    }
}

/// Skipped and processed entries add up to the total, whatever was recorded;
/// and once every entry has its outcome, the processed ones are those that
/// succeeded and those that failed.
pub proof fn lemma_conservation(acc: RunAccumulatorView)
    requires
        acc.completed() <= acc.total,
    ensures
        acc.skipped + acc.processed() == acc.total,
        acc.processed() >= 0,
        acc.completed() == acc.total ==> acc.processed() == acc.succeeded + acc.failed(),
{
}

/// Recording one outcome counts one more entry as done, never changes the
/// total, and adds one line to the error log exactly for a failure.
pub proof fn lemma_record_counts_once(
    acc: RunAccumulatorView,
    source: Seq<char>,
    outcome: TransferOutcomeView,
)
    ensures
        acc.recorded(source, outcome).completed() == acc.completed() + 1,
        acc.recorded(source, outcome).total == acc.total,
        acc.recorded(source, outcome).skipped == acc.skipped + (if outcome is Skipped {
            1nat
        } else {
            0nat
        }),
        acc.recorded(source, outcome).errors.len() == acc.errors.len() + (if outcome is Failed {
            1nat
        } else {
            0nat
        }),
{
}

/// After any sequence of outcomes, as many entries are done as outcomes were
/// recorded, and the skipped count and the error log have only grown.
pub proof fn lemma_recorded_all(
    acc: RunAccumulatorView,
    outcomes: Seq<(Seq<char>, TransferOutcomeView)>,
)
    ensures
        acc.recorded_all(outcomes).completed() == acc.completed() + outcomes.len(),
        acc.recorded_all(outcomes).total == acc.total,
        acc.recorded_all(outcomes).skipped >= acc.skipped,
        acc.errors.is_prefix_of(acc.recorded_all(outcomes).errors),
    decreases outcomes.len(),
{
    if outcomes.len() > 0 {
        lemma_recorded_all(acc, outcomes.drop_last());
        lemma_record_counts_once(
            acc.recorded_all(outcomes.drop_last()),
            outcomes.last().0,
            outcomes.last().1,
        );
    }
}

/// The shared state of a run: how many entries were skipped, how many
/// succeeded, and the error log.
pub struct RunAccumulator {
    total: usize,
    skipped: usize,
    succeeded: usize,
    errors: Vec<String>,
}

impl View for RunAccumulator {
    type V = RunAccumulatorView;

    closed spec fn view(&self) -> RunAccumulatorView {
        RunAccumulatorView {
            total: self.total as nat,
            skipped: self.skipped as nat,
            succeeded: self.succeeded as nat,
            errors: texts(self.errors@),
        }
    }
}

impl RunAccumulator {
    #[verifier::type_invariant]
    spec fn within_total(&self) -> bool {
        self.skipped + self.succeeded + self.errors@.len() <= self.total
    }

    /// The accumulator for a run over `total` entries, before any outcome.
    pub fn new(total: usize) -> (acc: Self)
        ensures
            acc@ == (RunAccumulatorView {
                total: total as nat,
                skipped: 0,
                succeeded: 0,
                errors: Seq::empty(),
            }),
    {
        let acc = RunAccumulator { total, skipped: 0, succeeded: 0, errors: Vec::new() };
        assert(acc@.errors =~= Seq::empty());
        acc
    }

    /// Records the outcome of the entry found at `source`. An outcome beyond
    /// the last entry's is refused and changes nothing.
    pub fn record(&mut self, source: &str, outcome: TransferOutcome) -> (accepted: bool)
        ensures
            accepted == (old(self)@.completed() < old(self)@.total),
            final(self)@ == if accepted {
                old(self)@.recorded(source@, outcome@)
            } else {
                old(self)@
            },
            final(self)@.completed() <= final(self)@.total,
    {
        proof {
            use_type_invariant(&*self);
        }
        let completed = self.skipped + self.succeeded + self.errors.len();
        if completed >= self.total {
            return false;
        }
        match outcome {
            TransferOutcome::Skipped => {
                self.skipped = self.skipped + 1;
            },
            TransferOutcome::Succeeded => {
                self.succeeded = self.succeeded + 1;
            },
            TransferOutcome::Failed(cause) => {
                let line = String::from_str("Failed to process '").concat(source).concat(
                    "': ",
                ).concat(cause.as_str());
                let mut errors: Vec<String> = Vec::new();
                core::mem::swap(&mut self.errors, &mut errors);
                let ghost before = errors@;
                errors.push(line);
                core::mem::swap(&mut self.errors, &mut errors);
                assert(texts(self.errors@) =~= texts(before).push(line@));
            },
        }
        true
    }

    /// How many outcomes were recorded so far.
    pub fn completed(&self) -> (count: usize)
        ensures
            count == self@.completed(),
            count <= self@.total,
    {
        proof {
            use_type_invariant(self);
        }
        self.skipped + self.succeeded + self.errors.len()
    }

    /// Whether every entry has its outcome.
    pub fn is_finished(&self) -> (finished: bool)
        ensures
            finished == (self@.completed() == self@.total),
    {
        self.completed() == self.total
    }

    /// The error log: one line per failed transfer, in the order in which the
    /// failures were recorded.
    pub fn errors(&self) -> (log: &Vec<String>)
        ensures
            texts(log@) == self@.errors,
    {
        &self.errors
    }

    /// The counts of the run.
    pub fn summary(&self) -> (summary: Summary)
        ensures
            summary.total == self@.total,
            summary.skipped == self@.skipped,
            summary.processed == self@.processed(),
            summary.failed == self@.failed(),
            summary.skipped + summary.processed == summary.total,
    {
        proof {
            use_type_invariant(self);
        }
        Summary {
            total: self.total,
            skipped: self.skipped,
            processed: self.total - self.skipped,
            failed: self.errors.len(),
        }
    }
}

} // verus!
