//! Discovered files and what their names say about them.

use crate::text::{
    chars_of, last_index_of, lemma_last_index_of, slice_text_of, string_of, text_of,
};
use vstd::prelude::*;

verus! {

/// The extension of a file name: the part after the last dot, unless the name
/// has no dot, is `..`, or has its only dot in front (a hidden file). A name
/// that ends in a dot has the empty extension.
pub open spec fn extension_of(name: Seq<char>) -> Option<Seq<char>> {
    let dot = last_index_of(name, '.');
    if dot <= 0 || name == seq!['.', '.'] {
        None
    } else {
        Some(name.skip(dot + 1))
    }
}

/// Computes the extension of a file name.
pub fn file_extension(name: &str) -> (ext: Option<String>)
    ensures
        text_of(ext) == extension_of(name@),
{
    let chars = chars_of(name);
    let n = chars.len();
    let mut i: usize = n;
    while i > 0 && chars[i - 1] != '.'
        invariant
            i <= n == chars.len(),
            forall|j: int| i <= j < n ==> chars@[j] != '.',
        decreases i,
    {
        i -= 1;
    }
    proof {
        lemma_last_index_of(chars@, '.', i as int - 1);
    }
    if i <= 1 {
        return None;
    }
    if n == 2 && chars[0] == '.' {
        assert(chars@ == seq!['.', '.']);
        return None;
    }
    Some(string_of(&chars, i, n))
}

/// A regular file found under the root.
///
/// The name keeps its case. An entry whose name cannot be represented as text
/// has no name here; it can still be classified by its extension, but it
/// cannot be given a destination.
pub struct FileEntry {
    path: String,
    file_name: Option<String>,
    extension: Option<String>,
}

/// What an entry holds, as plain values.
pub struct FileEntryView {
    pub path: Seq<char>,
    pub file_name: Option<Seq<char>>,
    pub extension: Option<Seq<char>>,
}

impl FileEntryView {
    /// Whether the extension is the one that the name has, where the entry
    /// has a name.
    pub open spec fn consistent(self) -> bool {
        self.file_name matches Some(name) ==> self.extension == extension_of(name)
    }
}

impl View for FileEntry {
    type V = FileEntryView;

    closed spec fn view(&self) -> FileEntryView {
        FileEntryView {
            path: self.path@,
            file_name: text_of(self.file_name),
            extension: text_of(self.extension),
        }
    }
}

impl FileEntry {
    #[verifier::type_invariant]
    spec fn well_formed(&self) -> bool {
        self@.consistent()
    }

    /// An entry for the file at `path` whose name is `file_name`. The
    /// extension is read off the name.
    pub fn new(path: String, file_name: String) -> (entry: Self)
        ensures
            entry@ == (FileEntryView {
                path: path@,
                file_name: Some(file_name@),
                extension: extension_of(file_name@),
            }),
    {
        let extension = file_extension(file_name.as_str());
        FileEntry { path, file_name: Some(file_name), extension }
    }

    /// An entry for a file whose name is not text. The extension, where it is
    /// text, is given by the caller.
    pub fn with_unreadable_name(path: String, extension: Option<String>) -> (entry: Self)
        ensures
            entry@ == (FileEntryView {
                path: path@,
                file_name: None,
                extension: text_of(extension),
            }),
    {
        FileEntry { path, file_name: None, extension }
    }

    /// The path at which the file was found.
    pub fn path(&self) -> (p: &str)
        ensures
            p@ == self@.path,
    {
        self.path.as_str()
    }

    /// The file's name, case preserved.
    pub fn file_name(&self) -> (name: Option<&str>)
        ensures
            slice_text_of(name) == self@.file_name,
            self@.consistent(),
    {
        proof {
            use_type_invariant(self);
        }
        match &self.file_name {
            Some(s) => Some(s.as_str()),
            None => None,
        }
    }

    /// The file's extension, case preserved.
    pub fn extension(&self) -> (ext: Option<&str>)
        ensures
            slice_text_of(ext) == self@.extension,
            self@.consistent(),
    {
        proof {
            use_type_invariant(self);
        }
        match &self.extension {
            Some(s) => Some(s.as_str()),
            None => None,
        }
    }

    /// A copy of the entry.
    pub fn duplicate(&self) -> (copy: Self)
        ensures
            copy@ == self@,
    {
        proof {
            use_type_invariant(self);
        }
        let file_name = match &self.file_name {
            Some(s) => Some(s.clone()),
            None => None,
        };
        let extension = match &self.extension {
            Some(s) => Some(s.clone()),
            None => None,
        };
        FileEntry { path: self.path.clone(), file_name, extension }
    }
}

} // verus!
