//! The extension blacklist: how it is read and what it rejects.
//!
//! A blacklist is a set of extensions in lower case and without their leading
//! dot. It is built once, from a comma-separated list, from the lines of a
//! file, or from both, and only read afterwards.

use crate::config::{ConfigError, ConfigErrorView};
use crate::entry::FileEntry;
use crate::text::{
    chars_of, lowercase, slice_text_of, split, split_on, string_of, strip_leading_dot, text_of,
    to_lowercase, trim, trim_range, views,
};
use vstd::hash_set::StringHashSet;
use vstd::prelude::*;

verus! {

/// What one piece of a blacklist source contributes: the piece is trimmed and
/// lower-cased; an empty result contributes nothing, nor does a comment where
/// comments are recognised; otherwise one leading dot is dropped.
pub open spec fn entry_of(raw: Seq<char>, comments: bool) -> Option<Seq<char>> {
    let form = lowercase(trim(raw));
    if form.len() == 0 || (comments && form[0] == '#') {
        None
    } else {
        Some(strip_leading_dot(form))
    }
}

/// The extensions that the pieces of `text` between separators contribute.
pub open spec fn entries_of(text: Seq<char>, sep: char, comments: bool) -> Set<Seq<char>> {
    Set::new(
        |e: Seq<char>|
            exists|i: int|
                0 <= i < split(text, sep).len() && entry_of(
                    #[trigger] split(text, sep)[i],
                    comments,
                ) == Some(e),
    )
}

/// The extensions named by a comma-separated list.
pub open spec fn listed_extensions(list: Seq<char>) -> Set<Seq<char>> {
    entries_of(list, ',', false)
}

/// The extensions named by a blacklist file: one per line, where blank lines
/// and lines that start with `#` name nothing. Lines end at a line feed; what
/// surrounds the extension on its line is trimmed away as whitespace.
pub open spec fn file_extensions(content: Seq<char>) -> Set<Seq<char>> {
    entries_of(content, '\n', true)
}

/// The blacklist that a list and a file give together: the union of both.
pub open spec fn blacklist_of(list: Option<Seq<char>>, content: Option<Seq<char>>) -> Set<
    Seq<char>,
> {
    let listed = match list {
        Some(l) => listed_extensions(l),
        None => Set::empty(),
    };
    let filed = match content {
        Some(c) => file_extensions(c),
        None => Set::empty(),
    };
    listed.union(filed)
}

/// Whether a file with this extension is rejected: it has an extension, and
/// the lower-case form of that extension is in the blacklist.
pub open spec fn blacklisted(extension: Option<Seq<char>>, blacklist: Set<Seq<char>>) -> bool {
    match extension {
        Some(e) => blacklist.contains(lowercase(e)),
        None => false,
    }
}

/// Whether a piece of a blacklist source names `extension`: trimmed and
/// lower-cased, the piece is the extension itself or the extension behind a
/// dot.
pub open spec fn names(raw: Seq<char>, extension: Seq<char>) -> bool {
    let form = lowercase(trim(raw));
    form == seq!['.'] + extension || (form == extension && extension.len() > 0)
}

/// An extension that a piece of the source names is among the source's
/// entries, provided the extension does not itself start with a dot and is not
/// taken for a comment.
proof fn lemma_named_extension_is_entry(
    text: Seq<char>,
    sep: char,
    comments: bool,
    i: int,
    extension: Seq<char>,
)
    requires
        0 <= i < split(text, sep).len(),
        names(split(text, sep)[i], extension),
        !(extension.len() > 0 && extension[0] == '.'),
        !(comments && lowercase(trim(split(text, sep)[i]))[0] == '#'),
    ensures
        entries_of(text, sep, comments).contains(extension),
{
    let form = lowercase(trim(split(text, sep)[i]));
    if form != extension {
        assert(form.skip(1) == extension);
    }
    assert(entry_of(split(text, sep)[i], comments) == Some(extension));
}

/// A file is rejected when its extension, in whatever case the file spells it,
/// is named by an item of the comma-separated list, with or without a dot in
/// front of it there.
pub proof fn lemma_listed_extension_is_blacklisted(
    list: Seq<char>,
    content: Option<Seq<char>>,
    i: int,
    extension: Seq<char>,
    spelling: Seq<char>,
)
    requires
        0 <= i < split(list, ',').len(),
        names(split(list, ',')[i], extension),
        !(extension.len() > 0 && extension[0] == '.'),
        lowercase(spelling) == extension,
    ensures
        blacklisted(Some(spelling), blacklist_of(Some(list), content)),
{
    lemma_named_extension_is_entry(list, ',', false, i, extension);
}

/// A file is rejected when its extension, in whatever case the file spells it,
/// is named by a line of the blacklist file, with or without a dot in front of
/// it there, unless that line is a comment.
pub proof fn lemma_file_extension_is_blacklisted(
    list: Option<Seq<char>>,
    content: Seq<char>,
    i: int,
    extension: Seq<char>,
    spelling: Seq<char>,
)
    requires
        0 <= i < split(content, '\n').len(),
        names(split(content, '\n')[i], extension),
        !(extension.len() > 0 && extension[0] == '.'),
        lowercase(trim(split(content, '\n')[i]))[0] != '#',
        lowercase(spelling) == extension,
    ensures
        blacklisted(Some(spelling), blacklist_of(list, Some(content))),
{
    lemma_named_extension_is_entry(content, '\n', true, i, extension);
}

/// Two spellings of an extension with the same lower-case form are rejected
/// alike.
pub proof fn lemma_case_is_irrelevant(a: Seq<char>, b: Seq<char>, blacklist: Set<Seq<char>>)
    requires
        lowercase(a) == lowercase(b),
    ensures
        blacklisted(Some(a), blacklist) == blacklisted(Some(b), blacklist),
{
}

/// An empty blacklist rejects nothing, and no blacklist rejects a file
/// without an extension.
pub proof fn lemma_nothing_rejected(extension: Option<Seq<char>>, blacklist: Set<Seq<char>>)
    ensures
        !blacklisted(extension, Set::empty()),
        !blacklisted(None, blacklist),
{
}

/// A set of blacklisted extensions.
pub struct BlacklistSet {
    set: StringHashSet,
    listed: Vec<String>,
}

impl View for BlacklistSet {
    type V = Set<Seq<char>>;

    closed spec fn view(&self) -> Set<Seq<char>> {
        self.set@
    }
}

/// Whether `listed` names every member of `set` exactly once, and nothing
/// else.
pub open spec fn enumerates(listed: Seq<String>, set: Set<Seq<char>>) -> bool {
    &&& forall|i: int| 0 <= i < listed.len() ==> set.contains(#[trigger] listed[i]@)
    &&& forall|e: Seq<char>|
        set.contains(e) ==> exists|i: int| 0 <= i < listed.len() && #[trigger] listed[i]@ == e
    &&& forall|i: int, j: int| 0 <= i < j < listed.len() ==> listed[i]@ != listed[j]@
}

/// Adds one extension to the set and, where it is new, to the list of the
/// set's members.
fn insert_into(set: &mut StringHashSet, listed: &mut Vec<String>, extension: String)
    requires
        enumerates(old(listed)@, old(set)@),
    ensures
        enumerates(final(listed)@, final(set)@),
        final(set)@ == old(set)@.insert(extension@),
{
    if !set.contains(extension.as_str()) {
        let ghost before = listed@;
        let ghost members = set@;
        let copy = extension.clone();
        set.insert(copy);
        listed.push(extension);
        proof {
            assert forall|e: Seq<char>| set@.contains(e) implies exists|i: int|
                0 <= i < listed@.len() && #[trigger] listed@[i]@ == e by {
                if e == extension@ {
                    assert(listed@[before.len() as int]@ == e);
                } else {
                    assert(members.contains(e));
                    let i = choose|i: int| 0 <= i < before.len() && #[trigger] before[i]@ == e;
                    assert(listed@[i]@ == e);
                }
            }
            assert forall|i: int, j: int| 0 <= i < j < listed@.len() implies listed@[i]@
                != listed@[j]@ by {
                if j == before.len() {
                    assert(members.contains(before[i]@));
                }
            }
        }
    }
}

impl BlacklistSet {
    #[verifier::type_invariant]
    spec fn well_formed(&self) -> bool {
        enumerates(self.listed@, self.set@)
    }

    /// The blacklist that rejects nothing.
    pub fn new() -> (blacklist: Self)
        ensures
            blacklist@ == Set::<Seq<char>>::empty(),
    {
        BlacklistSet { set: StringHashSet::new(), listed: Vec::new() }
    }

    /// The blacklist with one more extension, which is taken as it is given.
    pub fn with_extension(self, extension: String) -> (blacklist: Self)
        ensures
            blacklist@ == self@.insert(extension@),
    {
        proof {
            use_type_invariant(&self);
        }
        let BlacklistSet { mut set, mut listed } = self;
        insert_into(&mut set, &mut listed, extension);
        BlacklistSet { set, listed }
    }

    /// Whether the extension, taken as it is given, is in the blacklist.
    pub fn contains(&self, extension: &str) -> (found: bool)
        ensures
            found == self@.contains(extension@),
    {
        self.set.contains(extension)
    }

    /// Whether the blacklist rejects nothing.
    pub fn is_empty(&self) -> (empty: bool)
        ensures
            empty == (self@ == Set::<Seq<char>>::empty()),
    {
        proof {
            use_type_invariant(self);
        }
        let empty = self.listed.len() == 0;
        proof {
            if empty {
                assert(self@ =~= Set::<Seq<char>>::empty());
            } else {
                assert(self@.contains(self.listed@[0]@));
            }
        }
        empty
    }

    /// The blacklisted extensions, each once.
    pub fn extensions(&self) -> (listed: &Vec<String>)
        ensures
            enumerates(listed@, self@),
    {
        proof {
            use_type_invariant(self);
        }
        &self.listed
    }
}

/// Normalises one piece of a blacklist source.
fn normalize(piece: &Vec<char>, comments: bool) -> (entry: Option<String>)
    ensures
        text_of(entry) == entry_of(piece@, comments),
{
    let (from, to) = trim_range(piece);
    let trimmed = string_of(piece, from, to);
    let lowered = to_lowercase(trimmed.as_str());
    let form = chars_of(lowered.as_str());
    if form.len() == 0 {
        return None;
    }
    if comments && form[0] == '#' {
        return None;
    }
    if form[0] == '.' {
        Some(string_of(&form, 1, form.len()))
    } else {
        Some(lowered)
    }
}

/// Adds to the set what the pieces of `text` between separators contribute.
fn add_entries(
    set: &mut StringHashSet,
    listed: &mut Vec<String>,
    text: &str,
    sep: char,
    comments: bool,
)
    requires
        enumerates(old(listed)@, old(set)@),
    ensures
        enumerates(final(listed)@, final(set)@),
        final(set)@ == old(set)@.union(entries_of(text@, sep, comments)),
{
    let chars = chars_of(text);
    let pieces = split_on(&chars, sep);
    let ghost parts = split(text@, sep);
    let ghost start = set@;
    let mut k: usize = 0;
    while k < pieces.len()
        invariant
            k <= pieces.len(),
            views(pieces@) == parts,
            parts == split(text@, sep),
            enumerates(listed@, set@),
            set@ == start.union(
                Set::new(
                    |e: Seq<char>|
                        exists|i: int|
                            0 <= i < k && entry_of(#[trigger] parts[i], comments) == Some(e),
                ),
            ),
        decreases pieces.len() - k,
    {
        assert(pieces@[k as int]@ == parts[k as int]);
        match normalize(&pieces[k], comments) {
            Some(extension) => {
                insert_into(set, listed, extension);
            },
            None => {},
        }
        k += 1;
    }
}

/// What reading the blacklist file gave.
#[derive(Debug, PartialEq, Eq)]
pub enum BlacklistFile {
    /// No file was asked for.
    NotConfigured,
    /// The file at `path` could not be read.
    Unreadable { path: String, reason: String },
    /// The file was read, and this is its text.
    Loaded { content: String },
}

/// What reading the blacklist file gave, as plain values.
pub enum BlacklistFileView {
    NotConfigured,
    Unreadable { path: Seq<char>, reason: Seq<char> },
    Loaded { content: Seq<char> },
}

impl View for BlacklistFile {
    type V = BlacklistFileView;

    open spec fn view(&self) -> BlacklistFileView {
        match self {
            BlacklistFile::NotConfigured => BlacklistFileView::NotConfigured,
            BlacklistFile::Unreadable { path, reason } => BlacklistFileView::Unreadable {
                path: path@,
                reason: reason@,
            },
            BlacklistFile::Loaded { content } => BlacklistFileView::Loaded { content: content@ },
        }
    }
}

/// The blacklist that the sources give, or the error that an unreadable file
/// causes.
pub open spec fn loaded_blacklist(list: Option<Seq<char>>, file: BlacklistFileView) -> Result<
    Set<Seq<char>>,
    ConfigErrorView,
> {
    match file {
        BlacklistFileView::NotConfigured => Ok(blacklist_of(list, None)),
        BlacklistFileView::Unreadable { path, reason } => Err(
            ConfigErrorView::UnreadableBlacklist { path, reason },
        ),
        BlacklistFileView::Loaded { content } => Ok(blacklist_of(list, Some(content))),
    }
}

/// The view of the result of loading a blacklist.
pub open spec fn blacklist_result(r: Result<BlacklistSet, ConfigError>) -> Result<
    Set<Seq<char>>,
    ConfigErrorView,
> {
    match r {
        Ok(b) => Ok(b@),
        Err(e) => Err(e@),
    }
}

/// Builds the blacklist from the comma-separated list and from the file, where
/// they are given. A file that could not be read is a configuration error,
/// whatever the list holds.
pub fn load_blacklist(list: Option<&str>, file: &BlacklistFile) -> (r: Result<
    BlacklistSet,
    ConfigError,
>)
    ensures
        blacklist_result(r) == loaded_blacklist(slice_text_of(list), file@),
{
    let mut set = StringHashSet::new();
    let mut listed: Vec<String> = Vec::new();
    match list {
        Some(l) => {
            add_entries(&mut set, &mut listed, l, ',', false);
        },
        None => {},
    }
    assert(set@ =~= blacklist_of(slice_text_of(list), None));
    match file {
        BlacklistFile::NotConfigured => Ok(BlacklistSet { set, listed }),
        BlacklistFile::Unreadable { path, reason } => Err(
            ConfigError::UnreadableBlacklist { path: path.clone(), reason: reason.clone() },
        ),
        BlacklistFile::Loaded { content } => {
            add_entries(&mut set, &mut listed, content.as_str(), '\n', true);
            assert(set@ =~= blacklist_of(slice_text_of(list), Some(content@)));
            Ok(BlacklistSet { set, listed })
        },
    }
}

/// The blacklist of a run; see [`load_blacklist`].
pub fn get_blacklist(list: Option<&str>, file: &BlacklistFile) -> (r: Result<
    BlacklistSet,
    ConfigError,
>)
    ensures
        blacklist_result(r) == loaded_blacklist(slice_text_of(list), file@),
{
    load_blacklist(list, file)
}

/// Whether the entry is rejected by the blacklist: it has an extension whose
/// lower-case form is blacklisted. With an empty blacklist the entry is not
/// looked at.
pub fn is_blacklisted(entry: &FileEntry, blacklist: &BlacklistSet) -> (rejected: bool)
    ensures
        rejected == blacklisted(entry@.extension, blacklist@),
{
    if blacklist.is_empty() {
        return false;
    }
    match entry.extension() {
        Some(extension) => {
            let lowered = to_lowercase(extension);
            blacklist.contains(lowered.as_str())
        },
        None => false,
    }
}

} // verus!
