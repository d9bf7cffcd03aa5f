use dirsort::blacklist::{
    get_blacklist, is_blacklisted, load_blacklist, BlacklistFile, BlacklistSet,
};
use dirsort::config::ConfigError;
use dirsort::entry::FileEntry;

fn entry(name: &str) -> FileEntry {
    FileEntry::new(format!("./{name}"), name.to_string())
}

fn loaded(content: &str) -> BlacklistFile {
    BlacklistFile::Loaded { content: content.to_string() }
}

fn sorted(blacklist: &BlacklistSet) -> Vec<String> {
    let mut all = blacklist.extensions().clone();
    all.sort();
    all
}

#[test]
fn listed_extensions_are_normalised() {
    let blacklist = get_blacklist(Some(" TXT, .Log ,,tmp"), &BlacklistFile::NotConfigured).unwrap();
    assert!(blacklist.contains("txt"));
    assert!(blacklist.contains("log"));
    assert!(blacklist.contains("tmp"));
    assert!(!blacklist.contains(""));
    assert!(!blacklist.contains("TXT"));
    assert!(!blacklist.contains(".log"));
    assert_eq!(sorted(&blacklist), vec!["log", "tmp", "txt"]);
}

#[test]
fn blacklisted_regardless_of_case_or_dot() {
    for list in ["txt", ".txt", "TXT", ".TXT", " .Txt ", "log,tXt"] {
        let blacklist = get_blacklist(Some(list), &BlacklistFile::NotConfigured).unwrap();
        for name in ["a.txt", "b.TXT", "c.Txt", "d.tar.tXT"] {
            assert!(is_blacklisted(&entry(name), &blacklist), "{} with {}", name, list);
        }
        assert!(!is_blacklisted(&entry("c"), &blacklist));
        assert!(!is_blacklisted(&entry("txt"), &blacklist));
        assert!(!is_blacklisted(&entry("a.txt.bak"), &blacklist));
    }
}

#[test]
fn empty_blacklist_rejects_nothing() {
    let blacklist = get_blacklist(None, &BlacklistFile::NotConfigured).unwrap();
    assert!(blacklist.is_empty());
    assert!(blacklist.extensions().is_empty());
    for name in ["a.txt", "b.TXT", "c", ".hidden", "name."] {
        assert!(!is_blacklisted(&entry(name), &blacklist));
    }
    let blank = get_blacklist(Some(" , ,"), &loaded("\n\n# only a comment\n")).unwrap();
    assert!(blank.is_empty());
    assert!(!is_blacklisted(&entry("a.txt"), &blank));
}

#[test]
fn file_lines_comments_and_blanks() {
    let content = "tmp\n\n# a comment\n  .BAK  \r\n#log\nlog\n";
    let blacklist = load_blacklist(None, &loaded(content)).unwrap();
    assert_eq!(sorted(&blacklist), vec!["bak", "log", "tmp"]);
    assert!(is_blacklisted(&entry("x.bak"), &blacklist));
    assert!(is_blacklisted(&entry("x.LOG"), &blacklist));
    assert!(!is_blacklisted(&entry("x.txt"), &blacklist));
}

#[test]
fn list_does_not_know_comments() {
    let blacklist = load_blacklist(Some("#x,y"), &BlacklistFile::NotConfigured).unwrap();
    assert_eq!(sorted(&blacklist), vec!["#x", "y"]);
}

#[test]
fn file_does_not_split_at_commas() {
    let blacklist = load_blacklist(None, &loaded("a,b\n")).unwrap();
    assert_eq!(sorted(&blacklist), vec!["a,b"]);
}

#[test]
fn list_and_file_are_united() {
    let blacklist = load_blacklist(Some("txt,log"), &loaded("log\ntmp")).unwrap();
    assert_eq!(sorted(&blacklist), vec!["log", "tmp", "txt"]);
    assert_eq!(blacklist.extensions().len(), 3);
}

#[test]
fn only_one_leading_dot_is_dropped() {
    let blacklist = load_blacklist(Some("..gz,."), &BlacklistFile::NotConfigured).unwrap();
    assert_eq!(sorted(&blacklist), vec!["", ".gz"]);
    assert!(is_blacklisted(&entry("name."), &blacklist));
    assert!(!is_blacklisted(&entry("a.gz"), &blacklist));
}

#[test]
fn unreadable_file_is_a_configuration_error() {
    let file = BlacklistFile::Unreadable {
        path: "missing.txt".to_string(),
        reason: "No such file or directory (os error 2)".to_string(),
    };
    let error = match load_blacklist(Some("txt"), &file) {
        Ok(_) => panic!("an unreadable blacklist file must be refused"),
        Err(e) => e,
    };
    assert_eq!(
        error,
        ConfigError::UnreadableBlacklist {
            path: "missing.txt".to_string(),
            reason: "No such file or directory (os error 2)".to_string(),
        }
    );
    assert_eq!(
        error.message(),
        "Failed to read blacklist file 'missing.txt': No such file or directory (os error 2)"
    );
    assert!(get_blacklist(None, &file).is_err());
}

#[test]
fn set_built_by_hand() {
    let blacklist = BlacklistSet::new().with_extension("txt".to_string()).with_extension(
        "txt".to_string(),
    ).with_extension("LOG".to_string());
    assert!(!blacklist.is_empty());
    assert_eq!(sorted(&blacklist), vec!["LOG", "txt"]);
    assert!(is_blacklisted(&entry("a.TXT"), &blacklist));
    assert!(!is_blacklisted(&entry("a.log"), &blacklist));
    assert!(!is_blacklisted(&entry("a.LOG"), &blacklist));
}

#[test]
fn unreadable_name_is_judged_by_its_extension() {
    let blacklist = get_blacklist(Some("txt"), &BlacklistFile::NotConfigured).unwrap();
    let odd = FileEntry::with_unreadable_name("./odd".to_string(), Some("TXT".to_string()));
    assert!(is_blacklisted(&odd, &blacklist));
    let bare = FileEntry::with_unreadable_name("./odd".to_string(), None);
    assert!(!is_blacklisted(&bare, &blacklist));
}
