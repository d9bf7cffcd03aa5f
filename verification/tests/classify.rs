use dirsort::blacklist::{get_blacklist, BlacklistFile};
use dirsort::categories::{Category, CategoryMap};
use dirsort::classify::{classify, Decision, ExtensionIndex};
use dirsort::entry::FileEntry;

fn entry(name: &str) -> FileEntry {
    FileEntry::new(format!("./{name}"), name.to_string())
}

fn index(blacklist: Option<&str>, categories: &[(&str, &[&str])]) -> ExtensionIndex {
    let raw: Vec<Category> = categories
        .iter()
        .map(|(name, extensions)| Category {
            name: name.to_string(),
            extensions: extensions.iter().map(|e| e.to_string()).collect(),
        })
        .collect();
    ExtensionIndex::new(
        get_blacklist(blacklist, &BlacklistFile::NotConfigured).unwrap(),
        CategoryMap::normalized(&raw),
    )
}

fn target(name: &str) -> Decision {
    Decision::TargetSubfolder(name.to_string())
}

#[test]
fn category_name_is_the_subfolder() {
    let index = index(None, &[("Documents", &["txt"])]);
    assert_eq!(classify(&entry("a.txt"), &index), target("Documents"));
    assert_eq!(classify(&entry("b.TXT"), &index), target("Documents"));
}

#[test]
fn uncategorised_extension_is_its_own_subfolder_in_lower_case() {
    let index = index(None, &[("Documents", &["txt"])]);
    assert_eq!(classify(&entry("d.png"), &index), target("png"));
    assert_eq!(classify(&entry("e.PNG"), &index), target("png"));
    assert_eq!(classify(&entry("f.Tar.GZ"), &index), target("gz"));
    assert_eq!(classify(&entry("name."), &index), target(""));
}

#[test]
fn no_extension_goes_to_unknown() {
    let index = index(None, &[("Documents", &["txt"])]);
    assert_eq!(classify(&entry("c"), &index), target("unknown"));
    assert_eq!(classify(&entry(".bashrc"), &index), target("unknown"));
    let odd = FileEntry::with_unreadable_name("./odd".to_string(), None);
    assert_eq!(classify(&odd, &index), target("unknown"));
}

#[test]
fn blacklist_comes_before_categories() {
    let index = index(Some("txt"), &[("Documents", &["txt", "md"])]);
    assert_eq!(classify(&entry("a.txt"), &index), Decision::Skip);
    assert_eq!(classify(&entry("b.TXT"), &index), Decision::Skip);
    assert_eq!(classify(&entry("c"), &index), target("unknown"));
    assert_eq!(classify(&entry("d.md"), &index), target("Documents"));
}

#[test]
fn index_hands_its_parts_back() {
    let index = index(Some("tmp"), &[("Documents", &["txt"])]);
    assert!(index.blacklist().contains("tmp"));
    assert_eq!(index.categories().categories().len(), 1);
}

#[test]
fn a_category_may_be_called_unknown() {
    let index = index(None, &[("unknown", &["bin"])]);
    assert_eq!(classify(&entry("x.bin"), &index), target("unknown"));
    assert_eq!(classify(&entry("x"), &index), target("unknown"));
}
