use dirsort::blacklist::{get_blacklist, BlacklistFile};
use dirsort::categories::{Category, CategoryMap};
use dirsort::classify::ExtensionIndex;
use dirsort::config::TransferMode;
use dirsort::dispatch::{process_file, Dispatch, RunAccumulator, Summary, TransferOutcome};
use dirsort::entry::FileEntry;
use dirsort::transfer::{
    advance_transfer, begin_transfer, TransferAction, TransferPlan, TransferReport,
};
use dirsort::walker::{collect_files, WalkEvent};
use std::collections::{BTreeMap, BTreeSet};

/// A file system held in memory: the content of each file by its path.
struct Tree {
    files: BTreeMap<String, Vec<u8>>,
    directories: BTreeSet<String>,
}

impl Tree {
    fn new(files: &[(&str, &str)]) -> Tree {
        let mut tree = Tree { files: BTreeMap::new(), directories: BTreeSet::new() };
        for (path, content) in files {
            tree.files.insert(path.to_string(), content.as_bytes().to_vec());
        }
        tree
    }

    fn content(&self, path: &str) -> Option<String> {
        self.files.get(path).map(|bytes| String::from_utf8(bytes.clone()).unwrap())
    }

    fn below(&self, prefix: &str) -> Vec<String> {
        self.files.keys().filter(|p| p.starts_with(prefix)).cloned().collect()
    }

    /// What a walk from `.` reports, in the order of the paths.
    fn walk(&self) -> Vec<WalkEvent> {
        let mut events = vec![WalkEvent::Directory { depth: 0 }];
        let mut seen = BTreeSet::new();
        for path in self.files.keys().filter(|p| p.starts_with("./")) {
            let parts: Vec<&str> = path[2..].split('/').collect();
            for depth in 1..parts.len() {
                if seen.insert(parts[..depth].join("/")) {
                    events.push(WalkEvent::Directory { depth });
                }
            }
            let name = parts[parts.len() - 1].to_string();
            events.push(WalkEvent::File {
                depth: parts.len(),
                entry: FileEntry::new(path.clone(), name),
            });
        }
        events
    }

    /// Carries out one planned transfer, step by step.
    fn transfer(&mut self, plan: &TransferPlan) -> TransferOutcome {
        let folder = format!("{}/{}", plan.destination.root, plan.destination.subfolder);
        let target = format!("{}/{}", folder, plan.destination.file_name);
        let (mut stage, mut action) = begin_transfer();
        loop {
            let report = match action {
                TransferAction::ProbeSource => {
                    TransferReport::Found(self.files.contains_key(&plan.source))
                },
                TransferAction::CreateDirectories => {
                    self.directories.insert(folder.clone());
                    TransferReport::Done
                },
                TransferAction::ProbeDestination => {
                    TransferReport::Found(self.files.contains_key(&target))
                },
                TransferAction::RemoveDestination => match self.files.remove(&target) {
                    Some(_) => TransferReport::Done,
                    None => TransferReport::Failed("nothing to remove".to_string()),
                },
                TransferAction::CopyContents => match self.files.get(&plan.source).cloned() {
                    Some(bytes) => {
                        assert!(!self.files.contains_key(&target));
                        self.files.insert(target.clone(), bytes);
                        TransferReport::Done
                    },
                    None => TransferReport::Failed("nothing to copy".to_string()),
                },
                TransferAction::Rename => match self.files.remove(&plan.source) {
                    Some(bytes) => {
                        self.files.insert(target.clone(), bytes);
                        TransferReport::Done
                    },
                    None => TransferReport::Failed("nothing to rename".to_string()),
                },
                TransferAction::Finish(Ok(())) => return TransferOutcome::Succeeded,
                TransferAction::Finish(Err(e)) => return TransferOutcome::Failed(e.message()),
            };
            let next = advance_transfer(plan.mode, stage, report);
            stage = next.0;
            action = next.1;
        }
    }
}

struct Run {
    summary: Summary,
    errors: Vec<String>,
    discovered: Vec<String>,
}

/// One run over the tree. The file at `vanishes`, if any, is deleted after
/// the walk and before the transfers.
fn run(
    tree: &mut Tree,
    mode: TransferMode,
    blacklist: Option<&str>,
    categories: &[(&str, &[&str])],
    max_depth: Option<usize>,
    vanishes: Option<&str>,
) -> Run {
    let raw: Vec<Category> = categories
        .iter()
        .map(|(name, extensions)| Category {
            name: name.to_string(),
            extensions: extensions.iter().map(|e| e.to_string()).collect(),
        })
        .collect();
    let index = ExtensionIndex::new(
        get_blacklist(blacklist, &BlacklistFile::NotConfigured).unwrap(),
        CategoryMap::normalized(&raw),
    );
    let report = collect_files(&tree.walk(), max_depth);
    if let Some(path) = vanishes {
        tree.files.remove(path);
    }
    let mut acc = RunAccumulator::new(report.files.len());
    for entry in &report.files {
        let outcome = match process_file(entry, "out", mode, &index) {
            Dispatch::Skip => TransferOutcome::Skipped,
            Dispatch::Fail(e) => TransferOutcome::Failed(e.message()),
            Dispatch::Transfer(plan) => tree.transfer(&plan),
        };
        assert!(acc.record(entry.path(), outcome));
    }
    assert!(acc.is_finished());
    Run {
        summary: acc.summary(),
        errors: acc.errors().clone(),
        discovered: report.files.iter().map(|f| f.path().to_string()).collect(),
    }
}

const DOCUMENTS: &[(&str, &[&str])] = &[("Documents", &["txt"])];

#[test]
fn files_land_in_category_and_unknown() {
    let mut tree = Tree::new(&[("./a.txt", "A"), ("./b.TXT", "B"), ("./c", "C")]);
    let run = run(&mut tree, TransferMode::Copy, None, DOCUMENTS, None, None);
    assert_eq!(
        tree.below("out/"),
        vec!["out/Documents/a.txt", "out/Documents/b.TXT", "out/unknown/c"]
    );
    assert_eq!(tree.content("out/Documents/a.txt"), Some("A".to_string()));
    assert_eq!(tree.content("out/Documents/b.TXT"), Some("B".to_string()));
    assert_eq!(tree.content("out/unknown/c"), Some("C".to_string()));
    assert_eq!(tree.below("./"), vec!["./a.txt", "./b.TXT", "./c"]);
    assert_eq!(run.summary, Summary { total: 3, skipped: 0, processed: 3, failed: 0 });
    assert!(run.errors.is_empty());
}

#[test]
fn blacklisted_files_stay_behind() {
    let mut tree = Tree::new(&[("./a.txt", "A"), ("./b.TXT", "B"), ("./c", "C")]);
    let run = run(&mut tree, TransferMode::Copy, Some("txt"), DOCUMENTS, None, None);
    assert_eq!(tree.below("out/"), vec!["out/unknown/c"]);
    assert_eq!(run.summary, Summary { total: 3, skipped: 2, processed: 1, failed: 0 });
    assert!(run.errors.is_empty());
}

#[test]
fn nested_file_is_beyond_depth_zero() {
    let mut tree = Tree::new(&[("./a.txt", "A"), ("./sub/d.png", "D")]);
    let run = run(&mut tree, TransferMode::Copy, None, DOCUMENTS, Some(0), None);
    assert_eq!(run.discovered, vec!["./a.txt"]);
    assert_eq!(tree.below("out/"), vec!["out/Documents/a.txt"]);
    assert!(tree.below("out/").iter().all(|p| !p.ends_with("d.png")));
    assert_eq!(run.summary.total, 1);
}

#[test]
fn vanished_source_fails_alone() {
    let mut tree = Tree::new(&[("./a.txt", "A"), ("./b.png", "B"), ("./c", "C")]);
    let run = run(&mut tree, TransferMode::Move, None, DOCUMENTS, None, Some("./b.png"));
    assert_eq!(run.errors, vec!["Failed to process './b.png': source does not exist"]);
    assert_eq!(tree.below("out/"), vec!["out/Documents/a.txt", "out/unknown/c"]);
    assert!(tree.below("./").is_empty());
    assert!(!tree.directories.contains("out/png"));
    assert_eq!(run.summary, Summary { total: 3, skipped: 0, processed: 3, failed: 1 });
}

#[test]
fn same_name_meets_at_one_destination() {
    let mut tree = Tree::new(&[("./one/x.jpg", "first"), ("./two/x.jpg", "second")]);
    let run = run(&mut tree, TransferMode::Copy, None, &[("Images", &["jpg"])], None, None);
    assert_eq!(tree.below("out/"), vec!["out/Images/x.jpg"]);
    assert_eq!(tree.content("out/Images/x.jpg"), Some("second".to_string()));
    assert_eq!(run.summary, Summary { total: 2, skipped: 0, processed: 2, failed: 0 });
    assert!(run.errors.is_empty());
}

#[test]
fn copying_twice_gives_the_same_tree() {
    let mut tree = Tree::new(&[("./a.txt", "A"), ("./sub/b.md", "B"), ("./c", "C")]);
    let first = run(&mut tree, TransferMode::Copy, None, DOCUMENTS, None, None);
    let after_first = tree.files.clone();
    let second = run(&mut tree, TransferMode::Copy, None, DOCUMENTS, None, None);
    assert_eq!(tree.files, after_first);
    assert_eq!(first.summary, second.summary);
    assert_eq!(tree.content("out/Documents/a.txt"), Some("A".to_string()));
    assert_eq!(tree.content("out/md/b.md"), Some("B".to_string()));
    assert_eq!(tree.content("./a.txt"), Some("A".to_string()));
}

#[test]
fn copy_overwrites_a_stale_destination() {
    let mut tree = Tree::new(&[("./a.txt", "new"), ("out/Documents/a.txt", "old")]);
    let run = run(&mut tree, TransferMode::Copy, None, DOCUMENTS, None, None);
    assert_eq!(tree.content("out/Documents/a.txt"), Some("new".to_string()));
    assert_eq!(tree.content("./a.txt"), Some("new".to_string()));
    assert_eq!(run.summary.failed, 0);
}

#[test]
fn move_leaves_no_source_behind() {
    let mut tree = Tree::new(&[("./a.txt", "A"), ("./deep/er/b.TXT", "B")]);
    let run = run(&mut tree, TransferMode::Move, None, DOCUMENTS, None, None);
    assert!(tree.below("./").is_empty());
    assert_eq!(tree.below("out/"), vec!["out/Documents/a.txt", "out/Documents/b.TXT"]);
    assert_eq!(run.summary, Summary { total: 2, skipped: 0, processed: 2, failed: 0 });
}
