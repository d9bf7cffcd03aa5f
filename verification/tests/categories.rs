use dirsort::categories::{
    get_categories, get_category, load_categories, Category, CategoryDocument, CategoryMap,
};
use dirsort::config::ConfigError;

fn category(name: &str, extensions: &[&str]) -> Category {
    Category {
        name: name.to_string(),
        extensions: extensions.iter().map(|e| e.to_string()).collect(),
    }
}

fn parsed(categories: Vec<Category>) -> CategoryDocument {
    CategoryDocument::Parsed { categories }
}

#[test]
fn built_in_categories() {
    let map = CategoryMap::defaults();
    let expected = vec![
        category("Images", &["gif", "ico", "jpeg", "jpg", "jpg~", "png", "png~", "webp"]),
        category("Videos", &["mp4", "mkv", "ogv", "webm"]),
        category("Documents", &["pdf", "docx", "doc", "txt", "md"]),
        category("Audio", &["mp3", "wav", "flac", "ogg"]),
        category("Archives", &["zip", "tar", "gz", "rar"]),
    ];
    assert_eq!(*map.categories(), expected);
    assert!(!map.is_empty());
    assert_eq!(get_category("png", &map), Some("Images"));
    assert_eq!(get_category("JPG~", &map), Some("Images"));
    assert_eq!(get_category("Mkv", &map), Some("Videos"));
    assert_eq!(get_category("TXT", &map), Some("Documents"));
    assert_eq!(get_category("flac", &map), Some("Audio"));
    assert_eq!(get_category("rar", &map), Some("Archives"));
    assert_eq!(get_category("rs", &map), None);
    assert_eq!(get_category("", &map), None);
}

#[test]
fn document_extensions_are_normalised() {
    let map = CategoryMap::normalized(&vec![
        category("Docs", &[".TXT", "..Md", "pdf", " odt"]),
        category("empty", &[]),
    ]);
    assert_eq!(
        *map.categories(),
        vec![category("Docs", &["txt", "md", "pdf", " odt"]), category("empty", &[])]
    );
    assert_eq!(get_category("txt", &map), Some("Docs"));
    assert_eq!(get_category("MD", &map), Some("Docs"));
    assert_eq!(get_category("odt", &map), None);
}

#[test]
fn extension_in_exactly_one_category() {
    let map = CategoryMap::normalized(&vec![
        category("A", &["one", "two"]),
        category("B", &["three"]),
        category("C", &["four", "five"]),
    ]);
    assert_eq!(get_category("one", &map), Some("A"));
    assert_eq!(get_category("THREE", &map), Some("B"));
    assert_eq!(get_category("Five", &map), Some("C"));
    assert_eq!(get_category("six", &map), None);
}

#[test]
fn first_category_wins() {
    let map = CategoryMap::normalized(&vec![
        category("First", &["x"]),
        category("Second", &["x", "y"]),
    ]);
    assert_eq!(get_category("x", &map), Some("First"));
    assert_eq!(get_category("y", &map), Some("Second"));
}

#[test]
fn lookup_takes_the_extension_as_given() {
    let map = CategoryMap::normalized(&vec![category("Docs", &["txt"])]);
    assert_eq!(map.lookup(&"txt".to_string()), Some("Docs"));
    assert_eq!(map.lookup(&"TXT".to_string()), None);
}

#[test]
fn no_document_gives_the_built_in_categories() {
    let loaded = get_categories(&CategoryDocument::NotConfigured).unwrap();
    assert_eq!(loaded.warning, None);
    assert_eq!(*loaded.categories.categories(), *CategoryMap::defaults().categories());
}

#[test]
fn unreadable_document_falls_back_with_a_warning() {
    let document = CategoryDocument::Unreadable {
        path: "cats.toml".to_string(),
        reason: "permission denied".to_string(),
    };
    let loaded = load_categories(&document).unwrap();
    assert_eq!(
        loaded.warning,
        Some(
            "Failed to read config file 'cats.toml': permission denied\nFalling back to default."
                .to_string()
        )
    );
    assert_eq!(*loaded.categories.categories(), *CategoryMap::defaults().categories());
}

#[test]
fn malformed_document_is_a_configuration_error() {
    let document = CategoryDocument::Malformed { reason: "expected a table".to_string() };
    let error = match load_categories(&document) {
        Ok(_) => panic!("a malformed document must be refused"),
        Err(e) => e,
    };
    assert_eq!(error, ConfigError::MalformedCategories { reason: "expected a table".to_string() });
    assert_eq!(error.message(), "Malformed category configuration: expected a table");
    assert!(get_categories(&document).is_err());
}

#[test]
fn parsed_document_replaces_the_built_in_categories() {
    let loaded = get_categories(&parsed(vec![category("Documents", &[".TXT"])])).unwrap();
    assert_eq!(loaded.warning, None);
    assert_eq!(*loaded.categories.categories(), vec![category("Documents", &["txt"])]);
    assert_eq!(get_category("png", &loaded.categories), None);
    let empty = get_categories(&parsed(vec![])).unwrap();
    assert!(empty.categories.is_empty());
    assert_eq!(get_category("txt", &empty.categories), None);
}
