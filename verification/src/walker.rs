//! Turning what a directory walk reports into the list of files to sort.
//!
//! The walk itself happens elsewhere. It reports one event per entry that it
//! comes across, in the order of discovery. Here the events are filtered: only
//! regular files within the depth bound are kept, directories are counted, and
//! an entry that the walk could not read is counted and passed over, so that
//! one bad entry never ends the walk.

use crate::entry::{FileEntry, FileEntryView};
use vstd::prelude::*;

verus! {

/// One entry that the walk came across.
///
/// The depth says how far below the root the entry lies: the root itself is
/// at depth 0, what the root directory holds is at depth 1.
pub enum WalkEvent {
    /// An entry that could not be read.
    Failed,
    /// A directory.
    Directory { depth: usize },
    /// A regular file.
    File { depth: usize, entry: FileEntry },
    /// Anything else.
    Other,
}

/// A walk event, as plain values.
pub enum WalkEventView {
    Failed,
    Directory { depth: usize },
    File { depth: usize, entry: FileEntryView },
    Other,
}

impl View for WalkEvent {
    type V = WalkEventView;

    open spec fn view(&self) -> WalkEventView {
        match self {
            WalkEvent::Failed => WalkEventView::Failed,
            WalkEvent::Directory { depth } => WalkEventView::Directory { depth: *depth },
            WalkEvent::File { depth, entry } => WalkEventView::File {
                depth: *depth,
                entry: entry@,
            },
            WalkEvent::Other => WalkEventView::Other,
        }
    }
}

/// The events held by a sequence of walk events, as plain values.
pub open spec fn event_views(events: Seq<WalkEvent>) -> Seq<WalkEventView> {
    events.map_values(|e: WalkEvent| e@)
}

/// The files held by a sequence of entries, as plain values.
pub open spec fn entry_views(entries: Seq<FileEntry>) -> Seq<FileEntryView> {
    entries.map_values(|e: FileEntry| e@)
}

/// How deeply an entry is nested: the number of directories that lie between
/// the root and the entry, the root not counted. What the root directory
/// itself holds is nested 0 deep; the root is given -1.
pub open spec fn nesting(depth: usize) -> int {
    depth - 1
}

/// Whether an entry at this depth is within the bound: it is nested no deeper
/// than the bound says. With a bound of 0 only the root directory's own
/// entries are within it; without a bound everything is.
pub open spec fn within_bound(depth: usize, max_depth: Option<usize>) -> bool {
    match max_depth {
        None => true,
        Some(bound) => nesting(depth) <= bound,
    }
}

/// The regular files within the bound, in the order of discovery.
pub open spec fn found_files(events: Seq<WalkEventView>, max_depth: Option<usize>) -> Seq<
    FileEntryView,
>
    decreases events.len(),
{
    if events.len() == 0 {
        seq![]
    } else {
        let before = found_files(events.drop_last(), max_depth);
        match events.last() {
            WalkEventView::File { depth, entry } => if within_bound(depth, max_depth) {
                before.push(entry)
            } else {
                before
            },
            _ => before,
        }
    }
}

/// The number of directories within the bound.
pub open spec fn visited_directories(events: Seq<WalkEventView>, max_depth: Option<usize>) -> nat
    decreases events.len(),
{
    if events.len() == 0 {
        0
    } else {
        let before = visited_directories(events.drop_last(), max_depth);
        match events.last() {
            WalkEventView::Directory { depth } => if within_bound(depth, max_depth) {
                before + 1
            } else {
                before
            },
            _ => before,
        }
    }
}

/// The number of entries that could not be read.
pub open spec fn unreadable_entries(events: Seq<WalkEventView>) -> nat
    decreases events.len(),
{
    if events.len() == 0 {
        0
    } else {
        let before = unreadable_entries(events.drop_last());
        match events.last() {
            WalkEventView::Failed => before + 1,
            _ => before,
        }
    }
}

/// No more files are found, directories counted or failures counted than
/// there are events.
pub proof fn lemma_counts_bounded(events: Seq<WalkEventView>, max_depth: Option<usize>)
    ensures
        found_files(events, max_depth).len() + visited_directories(events, max_depth)
            + unreadable_entries(events) <= events.len(),
    decreases events.len(),
{
    if events.len() > 0 {
        lemma_counts_bounded(events.drop_last(), max_depth);
    }
}

/// Every file that is found was reported as a regular file within the bound.
pub proof fn lemma_found_files_were_reported(
    events: Seq<WalkEventView>,
    max_depth: Option<usize>,
    i: int,
)
    requires
        0 <= i < found_files(events, max_depth).len(),
    ensures
        exists|k: int|
            0 <= k < events.len() && (#[trigger] events[k] matches WalkEventView::File {
                depth,
                entry,
            } && within_bound(depth, max_depth) && entry == found_files(events, max_depth)[i]),
    decreases events.len(),
{
    let front = events.drop_last();
    let before = found_files(front, max_depth);
    if i < before.len() {
        lemma_found_files_were_reported(front, max_depth, i);
        let k = choose|k: int|
            0 <= k < front.len() && (#[trigger] front[k] matches WalkEventView::File {
                depth,
                entry,
            } && within_bound(depth, max_depth) && entry == before[i]);
        assert(events[k] == front[k]);
    }
}

/// What a walk found.
pub struct WalkReport {
    /// The regular files within the bound, in the order of discovery.
    pub files: Vec<FileEntry>,
    /// How many directories within the bound the walk came across.
    pub directories: usize,
    /// How many entries the walk could not read.
    pub failures: usize,
}

/// Whether an entry at this depth is within the bound.
pub fn is_within_bound(depth: usize, max_depth: Option<usize>) -> (within: bool)
    ensures
        within == within_bound(depth, max_depth),
{
    match max_depth {
        None => true,
        Some(bound) => depth == 0 || depth - 1 <= bound,
    }
}

/// The greatest depth that the walk needs to report for the bound, or none
/// where it needs to report every depth.
pub fn walk_limit(max_depth: Option<usize>) -> (limit: Option<usize>)
    ensures
        forall|depth: usize|
            #[trigger] within_bound(depth, max_depth) <==> (match limit {
                Some(deepest) => depth <= deepest,
                None => true,
            }),
{
    match max_depth {
        None => None,
        Some(bound) => if bound < usize::MAX {
            Some(bound + 1)
        } else {
            None
        },
    }
}

/// Collects the regular files within the bound from the events of a walk, in
/// the order of discovery, and counts the directories within the bound and the
/// entries that could not be read.
pub fn collect_files(events: &Vec<WalkEvent>, max_depth: Option<usize>) -> (report: WalkReport)
    ensures
        entry_views(report.files@) == found_files(event_views(events@), max_depth),
        report.directories == visited_directories(event_views(events@), max_depth),
        report.failures == unreadable_entries(event_views(events@)),
{
    let mut files: Vec<FileEntry> = Vec::new();
    let mut directories: usize = 0;
    let mut failures: usize = 0;
    let ghost all = event_views(events@);
    let mut k: usize = 0;
    while k < events.len()
        invariant
            k <= events.len(),
            all == event_views(events@),
            entry_views(files@) == found_files(all.take(k as int), max_depth),
            directories == visited_directories(all.take(k as int), max_depth),
            failures == unreadable_entries(all.take(k as int)),
        decreases events.len() - k,
    {
        proof {
            assert(all.take(k as int + 1).drop_last() == all.take(k as int));
            lemma_counts_bounded(all.take(k as int + 1), max_depth);
        }
        match &events[k] {
            WalkEvent::Failed => {
                failures += 1;
            },
            WalkEvent::Directory { depth } => {
                if is_within_bound(*depth, max_depth) {
                    directories += 1;
                }
            },
            WalkEvent::File { depth, entry } => {
                if is_within_bound(*depth, max_depth) {
                    files.push(entry.duplicate());
                }
            },
            WalkEvent::Other => {},
        }
        k += 1;
    }
    assert(all.take(k as int) == all);
    WalkReport { files, directories, failures }
}

} // verus!
