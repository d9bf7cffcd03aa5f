//! Deciding where a file goes.
//!
//! Every file gets exactly one decision: it is skipped when the blacklist
//! rejects it, and otherwise it has a target subfolder, which is the name of
//! its category, or its extension in lower case where no category claims it,
//! or a fixed name where it has no extension.

use crate::blacklist::{blacklisted, is_blacklisted, BlacklistSet};
use crate::categories::{
    category_for, lemma_category_of_claims, lemma_no_claim, CategoryMap, CategoryView,
};
use crate::entry::FileEntry;
use crate::text::{lowercase, to_lowercase};
use vstd::prelude::*;
use vstd::string::StringExecFns;

verus! {

/// The blacklist and the category map of a run.
pub struct ExtensionIndex {
    blacklist: BlacklistSet,
    categories: CategoryMap,
}

/// An extension index, as plain values.
pub struct ExtensionIndexView {
    pub blacklist: Set<Seq<char>>,
    pub categories: Seq<CategoryView>,
}

impl View for ExtensionIndex {
    type V = ExtensionIndexView;

    closed spec fn view(&self) -> ExtensionIndexView {
        ExtensionIndexView { blacklist: self.blacklist@, categories: self.categories@ }
    }
}

impl ExtensionIndex {
    /// The index over a blacklist and a category map.
    pub fn new(blacklist: BlacklistSet, categories: CategoryMap) -> (index: Self)
        ensures
            index@ == (ExtensionIndexView { blacklist: blacklist@, categories: categories@ }),
    {
        ExtensionIndex { blacklist, categories }
    }

    /// The blacklist.
    pub fn blacklist(&self) -> (blacklist: &BlacklistSet)
        ensures
            blacklist@ == self@.blacklist,
    {
        &self.blacklist
    }

    /// The category map.
    pub fn categories(&self) -> (categories: &CategoryMap)
        ensures
            categories@ == self@.categories,
    {
        &self.categories
    }
}

/// What is done with a file.
#[derive(Debug, PartialEq, Eq)]
pub enum Decision {
    /// The file is left where it is.
    Skip,
    /// The file goes into the subfolder of this name.
    TargetSubfolder(String),
}

/// A decision, as plain values.
pub enum DecisionView {
    Skip,
    TargetSubfolder(Seq<char>),
}

impl View for Decision {
    type V = DecisionView;

    open spec fn view(&self) -> DecisionView {
        match self {
            Decision::Skip => DecisionView::Skip,
            Decision::TargetSubfolder(name) => DecisionView::TargetSubfolder(name@),
        }
    }
}

/// The subfolder for files without an extension.
pub open spec fn unknown_subfolder() -> Seq<char> {
    "unknown"@
}

/// The decision for a file with this extension.
pub open spec fn decision_for(
    extension: Option<Seq<char>>,
    index: ExtensionIndexView,
) -> DecisionView {
    if blacklisted(extension, index.blacklist) {
        DecisionView::Skip
    } else {
        match extension {
            Some(e) => match category_for(index.categories, e) {
                Some(name) => DecisionView::TargetSubfolder(name),
                None => DecisionView::TargetSubfolder(lowercase(e)),
            },
            None => DecisionView::TargetSubfolder(unknown_subfolder()),
        }
    }
}

/// A file whose extension no category claims, and which the blacklist does
/// not reject, goes into the subfolder named by its extension in lower case.
pub proof fn lemma_unclaimed_extension_names_subfolder(
    extension: Seq<char>,
    index: ExtensionIndexView,
)
    requires
        !blacklisted(Some(extension), index.blacklist),
        forall|j: int|
            0 <= j < index.categories.len() ==> !index.categories[j].extensions.contains(
                lowercase(extension),
            ),
    ensures
        category_for(index.categories, extension) is None,
        decision_for(Some(extension), index) == DecisionView::TargetSubfolder(
            lowercase(extension),
        ),
{
    lemma_no_claim(index.categories, lowercase(extension));
}

/// The subfolder of a file that is not skipped is one of three: the fixed
/// name where the file has no extension, the name of a category that claims
/// the extension's lower-case form, or that lower-case form itself where no
/// category claims it.
pub proof fn lemma_subfolder_kinds(extension: Option<Seq<char>>, index: ExtensionIndexView)
    ensures
        match decision_for(extension, index) {
            DecisionView::Skip => true,
            DecisionView::TargetSubfolder(name) => match extension {
                None => name == unknown_subfolder(),
                Some(e) => {
                    ||| exists|k: int|
                        0 <= k < index.categories.len() && index.categories[k].name == name
                            && #[trigger] index.categories[k].extensions.contains(lowercase(e))
                    ||| name == lowercase(e) && forall|k: int|
                        0 <= k < index.categories.len()
                            ==> !#[trigger] index.categories[k].extensions.contains(lowercase(e))
                },
            },
        },
{
    match extension {
        Some(e) => {
            lemma_category_of_claims(index.categories, lowercase(e));
        },
        None => {},
    }
}

/// A file that the blacklist rejects is skipped whatever its category, and a
/// file that is skipped was rejected by the blacklist.
pub proof fn lemma_skip_means_blacklisted(extension: Option<Seq<char>>, index: ExtensionIndexView)
    ensures
        decision_for(extension, index) is Skip <==> blacklisted(extension, index.blacklist),
{
}

/// Two spellings of an extension with the same lower-case form get the same
/// decision.
pub proof fn lemma_decision_ignores_case(a: Seq<char>, b: Seq<char>, index: ExtensionIndexView)
    requires
        lowercase(a) == lowercase(b),
    ensures
        decision_for(Some(a), index) == decision_for(Some(b), index),
{
}

/// Decides what is done with a file.
pub fn classify(entry: &FileEntry, index: &ExtensionIndex) -> (decision: Decision)
    ensures
        decision@ == decision_for(entry@.extension, index@),
{
    if is_blacklisted(entry, &index.blacklist) {
        return Decision::Skip;
    }
    match entry.extension() {
        Some(extension) => {
            let lowered = to_lowercase(extension);
            match index.categories.lookup(&lowered) {
                Some(name) => Decision::TargetSubfolder(String::from_str(name)),
                None => Decision::TargetSubfolder(lowered),
            }
        },
        None => Decision::TargetSubfolder(String::from_str("unknown")),
    }
}

} // verus!
