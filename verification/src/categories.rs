//! Categories: named buckets that extensions map into.
//!
//! A category map is an ordered list of categories. Looking an extension up
//! walks the list from the front and stops at the first category that claims
//! the extension, so an extension that two categories claim belongs to the
//! earlier one. The map is built once and only read afterwards.

use crate::config::{ConfigError, ConfigErrorView};
use crate::text::{
    chars_of, lowercase, slice_text_of, string_of, strip_leading_dots, text_of, texts,
    to_lowercase,
};
use vstd::prelude::*;
use vstd::string::StringExecFns;

verus! {

/// A named bucket and the extensions that it claims.
#[derive(Debug, PartialEq, Eq)]
pub struct Category {
    pub name: String,
    pub extensions: Vec<String>,
}

/// A category, as plain values.
pub struct CategoryView {
    pub name: Seq<char>,
    pub extensions: Seq<Seq<char>>,
}

impl View for Category {
    type V = CategoryView;

    open spec fn view(&self) -> CategoryView {
        CategoryView { name: self.name@, extensions: texts(self.extensions@) }
    }
}

/// The categories held by a sequence of categories, as plain values.
pub open spec fn category_views(categories: Seq<Category>) -> Seq<CategoryView> {
    categories.map_values(|c: Category| c@)
}

/// The form in which an extension of a category document is kept: without its
/// leading dots and in lower case.
pub open spec fn normalized_extension(raw: Seq<char>) -> Seq<char> {
    lowercase(strip_leading_dots(raw))
}

/// A category with each of its extensions normalised. The name is kept as it
/// is.
pub open spec fn normalized_category(raw: CategoryView) -> CategoryView {
    CategoryView {
        name: raw.name,
        extensions: raw.extensions.map_values(|e: Seq<char>| normalized_extension(e)),
    }
}

/// The categories of a document with each extension normalised, in the
/// document's order.
pub open spec fn normalized_categories(raw: Seq<CategoryView>) -> Seq<CategoryView> {
    raw.map_values(|c: CategoryView| normalized_category(c))
}

/// The first category, from the front, that claims the extension, which is
/// taken as it is given.
pub open spec fn category_of(categories: Seq<CategoryView>, extension: Seq<char>) -> Option<
    Seq<char>,
>
    decreases categories.len(),
{
    if categories.len() == 0 {
        None
    } else if categories[0].extensions.contains(extension) {
        Some(categories[0].name)
    } else {
        category_of(categories.skip(1), extension)
    }
}

/// The category of an extension in whatever case it is spelled: the first
/// category that claims its lower-case form.
pub open spec fn category_for(categories: Seq<CategoryView>, extension: Seq<char>) -> Option<
    Seq<char>,
> {
    category_of(categories, lowercase(extension))
}

/// The built-in categories, used where no category document is configured.
pub open spec fn default_categories() -> Seq<CategoryView> {
    seq![
        CategoryView {
            name: "Images"@,
            extensions: seq![
                "gif"@,
                "ico"@,
                "jpeg"@,
                "jpg"@,
                "jpg~"@,
                "png"@,
                "png~"@,
                "webp"@,
            ],
        },
        CategoryView { name: "Videos"@, extensions: seq!["mp4"@, "mkv"@, "ogv"@, "webm"@] },
        CategoryView {
            name: "Documents"@,
            extensions: seq!["pdf"@, "docx"@, "doc"@, "txt"@, "md"@],
        },
        CategoryView { name: "Audio"@, extensions: seq!["mp3"@, "wav"@, "flac"@, "ogg"@] },
        CategoryView { name: "Archives"@, extensions: seq!["zip"@, "tar"@, "gz"@, "rar"@] },
    ]
}

/// The category at position `k` is the answer when it claims the extension
/// and no category before it does.
pub proof fn lemma_first_claim_wins(categories: Seq<CategoryView>, extension: Seq<char>, k: int)
    requires
        0 <= k < categories.len(),
        categories[k].extensions.contains(extension),
        forall|j: int| 0 <= j < k ==> !categories[j].extensions.contains(extension),
    ensures
        category_of(categories, extension) == Some(categories[k].name),
    decreases k,
{
    if k > 0 {
        let rest = categories.skip(1);
        assert forall|j: int| 0 <= j < k - 1 implies !rest[j].extensions.contains(extension) by {
            assert(rest[j] == categories[j + 1]);
        }
        lemma_first_claim_wins(rest, extension, k - 1);
    }
}

/// An extension whose lower-case form is claimed by exactly one category
/// belongs to that category.
pub proof fn lemma_single_claim(categories: Seq<CategoryView>, extension: Seq<char>, k: int)
    requires
        0 <= k < categories.len(),
        categories[k].extensions.contains(lowercase(extension)),
        forall|j: int|
            0 <= j < categories.len() && j != k ==> !categories[j].extensions.contains(
                lowercase(extension),
            ),
    ensures
        category_for(categories, extension) == Some(categories[k].name),
{
    lemma_first_claim_wins(categories, lowercase(extension), k);
}

/// An extension that no category claims has no category.
pub proof fn lemma_no_claim(categories: Seq<CategoryView>, extension: Seq<char>)
    requires
        forall|j: int| 0 <= j < categories.len() ==> !categories[j].extensions.contains(extension),
    ensures
        category_of(categories, extension) is None,
    decreases categories.len(),
{
    if categories.len() > 0 {
        let rest = categories.skip(1);
        assert forall|j: int| 0 <= j < rest.len() implies !rest[j].extensions.contains(
            extension,
        ) by {
            assert(rest[j] == categories[j + 1]);
        }
        lemma_no_claim(rest, extension);
    }
}

/// Whatever `category_of` answers is the name of a category that claims the
/// extension, and it answers whenever some category does.
pub proof fn lemma_category_of_claims(categories: Seq<CategoryView>, extension: Seq<char>)
    ensures
        match category_of(categories, extension) {
            Some(name) => exists|k: int|
                0 <= k < categories.len() && categories[k].name == name
                    && #[trigger] categories[k].extensions.contains(extension),
            None => forall|k: int|
                0 <= k < categories.len() ==> !#[trigger] categories[k].extensions.contains(
                    extension,
                ),
        },
    decreases categories.len(),
{
    if categories.len() > 0 && !categories[0].extensions.contains(extension) {
        let rest = categories.skip(1);
        lemma_category_of_claims(rest, extension);
        match category_of(rest, extension) {
            Some(name) => {
                let k = choose|k: int|
                    0 <= k < rest.len() && rest[k].name == name
                        && #[trigger] rest[k].extensions.contains(extension);
                assert(categories[k + 1] == rest[k]);
            },
            None => {
                assert forall|k: int|
                    0 <= k < categories.len() implies !#[trigger] categories[k].extensions.contains(
                    extension,
                ) by {
                    if k > 0 {
                        assert(categories[k] == rest[k - 1]);
                    }
                }
            },
        }
    }
}

/// An ordered list of categories whose extensions are ready for lookup.
pub struct CategoryMap {
    entries: Vec<Category>,
}

impl View for CategoryMap {
    type V = Seq<CategoryView>;

    closed spec fn view(&self) -> Seq<CategoryView> {
        category_views(self.entries@)
    }
}

/// Whether a list of extensions holds the given one.
fn claims(extensions: &Vec<String>, extension: &String) -> (found: bool)
    ensures
        found == texts(extensions@).contains(extension@),
{
    let mut j: usize = 0;
    while j < extensions.len()
        invariant
            j <= extensions.len(),
            forall|i: int| 0 <= i < j ==> texts(extensions@)[i] != extension@,
        decreases extensions.len() - j,
    {
        if extensions[j] == *extension {
            assert(texts(extensions@)[j as int] == extension@);
            return true;
        }
        j += 1;
    }
    false
}

/// Normalises one extension of a category document.
fn normalize_extension(raw: &str) -> (extension: String)
    ensures
        extension@ == normalized_extension(raw@),
{
    let chars = chars_of(raw);
    let n = chars.len();
    let mut i: usize = 0;
    assert(chars@.skip(0) == chars@);
    while i < n && chars[i] == '.'
        invariant
            i <= n == chars.len(),
            strip_leading_dots(chars@) == strip_leading_dots(chars@.skip(i as int)),
        decreases n - i,
    {
        assert(chars@.skip(i as int).skip(1) == chars@.skip(i as int + 1));
        i += 1;
    }
    let stripped = string_of(&chars, i, n);
    to_lowercase(stripped.as_str())
}

/// Normalises every extension of one category.
fn normalize_category(raw: &Category) -> (category: Category)
    ensures
        category@ == normalized_category(raw@),
{
    let mut extensions: Vec<String> = Vec::new();
    let mut j: usize = 0;
    while j < raw.extensions.len()
        invariant
            j <= raw.extensions.len(),
            extensions@.len() == j,
            forall|i: int|
                0 <= i < j ==> extensions@[i]@ == normalized_extension(raw.extensions@[i]@),
        decreases raw.extensions.len() - j,
    {
        extensions.push(normalize_extension(raw.extensions[j].as_str()));
        j += 1;
    }
    let category = Category { name: raw.name.clone(), extensions };
    assert(category@.extensions =~= normalized_category(raw@).extensions);
    category
}

/// Builds a category from literal names.
fn category(name: &str, extensions: &[&str]) -> (category: Category)
    ensures
        category@.name == name@,
        category@.extensions.len() == extensions@.len(),
        forall|i: int| 0 <= i < extensions@.len() ==> category@.extensions[i] == extensions@[i]@,
{
    let mut list: Vec<String> = Vec::new();
    let mut j: usize = 0;
    while j < extensions.len()
        invariant
            j <= extensions.len(),
            list@.len() == j,
            forall|i: int| 0 <= i < j ==> list@[i]@ == extensions@[i]@,
        decreases extensions.len() - j,
    {
        list.push(String::from_str(extensions[j]));
        j += 1;
    }
    Category { name: String::from_str(name), extensions: list }
}

impl CategoryMap {
    /// The map that holds the built-in categories.
    pub fn defaults() -> (map: Self)
        ensures
            map@ == default_categories(),
    {
        let mut entries: Vec<Category> = Vec::new();
        let images = category(
            "Images",
            &["gif", "ico", "jpeg", "jpg", "jpg~", "png", "png~", "webp"],
        );
        assert(images@ == default_categories()[0]) by {
            assert(images@.extensions =~= default_categories()[0].extensions);
        }
        entries.push(images);
        let videos = category("Videos", &["mp4", "mkv", "ogv", "webm"]);
        assert(videos@ == default_categories()[1]) by {
            assert(videos@.extensions =~= default_categories()[1].extensions);
        }
        entries.push(videos);
        let documents = category("Documents", &["pdf", "docx", "doc", "txt", "md"]);
        assert(documents@ == default_categories()[2]) by {
            assert(documents@.extensions =~= default_categories()[2].extensions);
        }
        entries.push(documents);
        let audio = category("Audio", &["mp3", "wav", "flac", "ogg"]);
        assert(audio@ == default_categories()[3]) by {
            assert(audio@.extensions =~= default_categories()[3].extensions);
        }
        entries.push(audio);
        let archives = category("Archives", &["zip", "tar", "gz", "rar"]);
        assert(archives@ == default_categories()[4]) by {
            assert(archives@.extensions =~= default_categories()[4].extensions);
        }
        entries.push(archives);
        CategoryMap { entries }
    }

    /// The map for the categories of a document: every extension is
    /// normalised, names and order are kept.
    pub fn normalized(raw: &Vec<Category>) -> (map: Self)
        ensures
            map@ == normalized_categories(category_views(raw@)),
    {
        let mut entries: Vec<Category> = Vec::new();
        let mut k: usize = 0;
        while k < raw.len()
            invariant
                k <= raw.len(),
                entries@.len() == k,
                forall|i: int| 0 <= i < k ==> entries@[i]@ == normalized_category(raw@[i]@),
            decreases raw.len() - k,
        {
            entries.push(normalize_category(&raw[k]));
            k += 1;
        }
        CategoryMap { entries }
    }

    /// The categories, in lookup order.
    pub fn categories(&self) -> (entries: &Vec<Category>)
        ensures
            category_views(entries@) == self@,
    {
        &self.entries
    }

    /// Whether the map holds no category.
    pub fn is_empty(&self) -> (empty: bool)
        ensures
            empty == (self@.len() == 0),
    {
        self.entries.len() == 0
    }

    /// The first category that claims the extension, which is taken as it is
    /// given.
    pub fn lookup(&self, extension: &String) -> (name: Option<&str>)
        ensures
            slice_text_of(name) == category_of(self@, extension@),
    {
        let mut k: usize = 0;
        assert(self@.skip(0) == self@);
        while k < self.entries.len()
            invariant
                k <= self.entries.len(),
                self@ == category_views(self.entries@),
                category_of(self@, extension@) == category_of(self@.skip(k as int), extension@),
            decreases self.entries.len() - k,
        {
            if claims(&self.entries[k].extensions, extension) {
                return Some(self.entries[k].name.as_str());
            }
            assert(self@.skip(k as int).skip(1) == self@.skip(k as int + 1));
            k += 1;
        }
        None
    }
}

/// The category of an extension in whatever case it is spelled, or none when
/// no category claims it.
pub fn get_category<'a>(ext: &str, categories: &'a CategoryMap) -> (name: Option<&'a str>)
    ensures
        slice_text_of(name) == category_for(categories@, ext@),
{
    let lowered = to_lowercase(ext);
    categories.lookup(&lowered)
}

/// What reading and parsing the category document gave.
#[derive(Debug, PartialEq, Eq)]
pub enum CategoryDocument {
    /// No document was asked for.
    NotConfigured,
    /// The document at `path` could not be read.
    Unreadable { path: String, reason: String },
    /// The document was read but could not be understood.
    Malformed { reason: String },
    /// The document was read, and these are its categories.
    Parsed { categories: Vec<Category> },
}

/// What reading and parsing the category document gave, as plain values.
pub enum CategoryDocumentView {
    NotConfigured,
    Unreadable { path: Seq<char>, reason: Seq<char> },
    Malformed { reason: Seq<char> },
    Parsed { categories: Seq<CategoryView> },
}

impl View for CategoryDocument {
    type V = CategoryDocumentView;

    open spec fn view(&self) -> CategoryDocumentView {
        match self {
            CategoryDocument::NotConfigured => CategoryDocumentView::NotConfigured,
            CategoryDocument::Unreadable { path, reason } => CategoryDocumentView::Unreadable {
                path: path@,
                reason: reason@,
            },
            CategoryDocument::Malformed { reason } => CategoryDocumentView::Malformed {
                reason: reason@,
            },
            CategoryDocument::Parsed { categories } => CategoryDocumentView::Parsed {
                categories: category_views(categories@),
            },
        }
    }
}

/// The categories of a run, and the warning that the operator is owed where
/// the built-in ones stand in for an unreadable document.
pub struct LoadedCategories {
    pub categories: CategoryMap,
    pub warning: Option<String>,
}

/// Loaded categories, as plain values.
pub struct LoadedCategoriesView {
    pub categories: Seq<CategoryView>,
    pub warning: Option<Seq<char>>,
}

impl View for LoadedCategories {
    type V = LoadedCategoriesView;

    open spec fn view(&self) -> LoadedCategoriesView {
        LoadedCategoriesView { categories: self.categories@, warning: text_of(self.warning) }
    }
}

/// The warning for a category document that could not be read.
pub open spec fn fallback_warning(path: Seq<char>, reason: Seq<char>) -> Seq<char> {
    "Failed to read config file '"@ + path + "': "@ + reason + "\nFalling back to default."@
}

/// What a document gives: the built-in categories where none is configured,
/// the built-in categories and a warning where it could not be read, an error
/// where it is malformed, and otherwise its own categories, normalised.
pub open spec fn loaded_categories(document: CategoryDocumentView) -> Result<
    LoadedCategoriesView,
    ConfigErrorView,
> {
    match document {
        CategoryDocumentView::NotConfigured => Ok(
            LoadedCategoriesView { categories: default_categories(), warning: None },
        ),
        CategoryDocumentView::Unreadable { path, reason } => Ok(
            LoadedCategoriesView {
                categories: default_categories(),
                warning: Some(fallback_warning(path, reason)),
            },
        ),
        CategoryDocumentView::Malformed { reason } => Err(
            ConfigErrorView::MalformedCategories { reason },
        ),
        CategoryDocumentView::Parsed { categories } => Ok(
            LoadedCategoriesView { categories: normalized_categories(categories), warning: None },
        ),
    }
}

/// The view of the result of loading categories.
pub open spec fn categories_result(r: Result<LoadedCategories, ConfigError>) -> Result<
    LoadedCategoriesView,
    ConfigErrorView,
> {
    match r {
        Ok(loaded) => Ok(loaded@),
        Err(e) => Err(e@),
    }
}

/// Decides the categories of a run from what reading the category document
/// gave. A document that cannot be read is replaced by the built-in
/// categories, with a warning; one that is malformed is a configuration
/// error.
pub fn load_categories(document: &CategoryDocument) -> (r: Result<LoadedCategories, ConfigError>)
    ensures
        categories_result(r) == loaded_categories(document@),
{
    match document {
        CategoryDocument::NotConfigured => Ok(
            LoadedCategories { categories: CategoryMap::defaults(), warning: None },
        ),
        CategoryDocument::Unreadable { path, reason } => {
            let warning = String::from_str("Failed to read config file '").concat(
                path.as_str(),
            ).concat("': ").concat(reason.as_str()).concat("\nFalling back to default.");
            Ok(LoadedCategories { categories: CategoryMap::defaults(), warning: Some(warning) })
        },
        CategoryDocument::Malformed { reason } => Err(
            ConfigError::MalformedCategories { reason: reason.clone() },
        ),
        CategoryDocument::Parsed { categories } => Ok(
            LoadedCategories { categories: CategoryMap::normalized(categories), warning: None },
        ),
    }
}

/// The categories of a run; see [`load_categories`].
pub fn get_categories(document: &CategoryDocument) -> (r: Result<LoadedCategories, ConfigError>)
    ensures
        categories_result(r) == loaded_categories(document@),
{
    load_categories(document)
}

} // verus!
