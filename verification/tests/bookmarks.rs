use nami::bookmarks::Bookmarks;
use std::path::PathBuf;

fn test_bookmarks() -> Bookmarks {
    Bookmarks::new(PathBuf::from("/tmp/nami-test-bookmarks.json"))
}

#[test]
fn add_and_check() {
    let mut bm = test_bookmarks();
    assert!(bm.add("https://example.com", "Example", vec![]));
    assert!(bm.is_bookmarked("https://example.com"));
    assert!(!bm.is_bookmarked("https://other.com"));
}

#[test]
fn add_duplicate() {
    let mut bm = test_bookmarks();
    assert!(bm.add("https://example.com", "Example", vec![]));
    assert!(!bm.add("https://example.com", "Example 2", vec![]));
    assert_eq!(bm.len(), 1);
}

#[test]
fn remove_bookmark() {
    let mut bm = test_bookmarks();
    bm.add("https://example.com", "Example", vec![]);
    assert!(bm.remove("https://example.com"));
    assert!(!bm.is_bookmarked("https://example.com"));
    assert!(!bm.remove("https://example.com"));
}

#[test]
fn search_bookmarks() {
    let mut bm = test_bookmarks();
    bm.add("https://rust-lang.org", "Rust Language", vec!["programming".into()]);
    bm.add("https://example.com", "Example Site", vec!["reference".into()]);

    let results = bm.search("rust");
    assert_eq!(results.len(), 1);

    let results = bm.search("programming");
    assert_eq!(results.len(), 1);
}

#[test]
fn tags_collection() {
    let mut bm = test_bookmarks();
    bm.add("https://a.com", "A", vec!["rust".into(), "code".into()]);
    bm.add("https://b.com", "B", vec!["code".into(), "docs".into()]);

    let tags = bm.tags();
    assert_eq!(tags, vec!["code", "docs", "rust"]);
}

#[test]
fn by_tag() {
    let mut bm = test_bookmarks();
    bm.add("https://a.com", "A", vec!["rust".into()]);
    bm.add("https://b.com", "B", vec!["python".into()]);

    let rust = bm.by_tag("rust");
    assert_eq!(rust.len(), 1);
    assert_eq!(rust[0].url, "https://a.com");
}

#[test]
fn all_lists_newest_first_and_later_additions_first() {
    let mut bm = test_bookmarks();
    bm.add_at("https://old.com", "Old", vec![], 10);
    bm.add_at("https://new.com", "New", vec![], 30);
    bm.add_at("https://mid1.com", "Mid 1", vec![], 20);
    bm.add_at("https://mid2.com", "Mid 2", vec![], 20);
    let all: Vec<&str> = bm.all().iter().map(|b| b.url.as_str()).collect();
    assert_eq!(all, vec!["https://new.com", "https://mid2.com", "https://mid1.com", "https://old.com"]);
}

#[test]
fn remove_keeps_other_bookmarks_in_order() {
    let mut bm = test_bookmarks();
    bm.add_at("https://a.com", "A", vec![], 1);
    bm.add_at("https://b.com", "B", vec![], 2);
    bm.add_at("https://c.com", "C", vec![], 3);
    assert!(bm.remove("https://b.com"));
    let urls: Vec<&str> = bm.stored().iter().map(|b| b.url.as_str()).collect();
    assert_eq!(urls, vec!["https://a.com", "https://c.com"]);
}

#[test]
fn search_ignores_case() {
    let mut bm = test_bookmarks();
    bm.add("https://Example.COM/Path", "Mixed Case", vec!["Docs".into()]);
    assert_eq!(bm.search("EXAMPLE").len(), 1);
    assert_eq!(bm.search("docs").len(), 1);
    assert_eq!(bm.search("nothing").len(), 0);
}
