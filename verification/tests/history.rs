use nami::history::{BrowsingHistory, NavigationStack};
use std::path::PathBuf;

#[test]
fn navigation_stack_basic() {
    let mut stack = NavigationStack::new();
    assert!(stack.current().is_none());

    stack.navigate("https://a.com");
    assert_eq!(stack.current(), Some("https://a.com"));

    stack.navigate("https://b.com");
    assert_eq!(stack.current(), Some("https://b.com"));

    let back = stack.go_back();
    assert_eq!(back.as_deref(), Some("https://a.com"));
    assert_eq!(stack.current(), Some("https://a.com"));

    let fwd = stack.go_forward();
    assert_eq!(fwd.as_deref(), Some("https://b.com"));
}

#[test]
fn navigation_clears_forward() {
    let mut stack = NavigationStack::new();
    stack.navigate("https://a.com");
    stack.navigate("https://b.com");
    stack.navigate("https://c.com");
    stack.go_back();
    stack.go_back();

    stack.navigate("https://d.com");
    assert!(!stack.can_go_forward());
    assert!(stack.can_go_back());
}

#[test]
fn navigation_back_at_start() {
    let mut stack = NavigationStack::new();
    stack.navigate("https://a.com");
    assert!(stack.go_back().is_none());
}

#[test]
fn navigation_forward_at_end() {
    let mut stack = NavigationStack::new();
    stack.navigate("https://a.com");
    assert!(stack.go_forward().is_none());
}

#[test]
fn browsing_history_add_and_search() {
    let mut hist = BrowsingHistory::new(PathBuf::from("/tmp/nami-test-history.json"), 100);

    hist.add("https://example.com", "Example");
    hist.add("https://rust-lang.org", "Rust Lang");

    assert_eq!(hist.len(), 2);
    assert!(!hist.is_empty());

    let results = hist.search("rust");
    assert_eq!(results.len(), 1);
    assert_eq!(results[0].url, "https://rust-lang.org");
}

#[test]
fn browsing_history_max_entries() {
    let mut hist = BrowsingHistory::new(PathBuf::from("/tmp/nami-test-history2.json"), 5);

    for i in 0..10 {
        hist.add(&format!("https://page{i}.com"), &format!("Page {i}"));
    }

    assert_eq!(hist.len(), 5);
}

#[test]
fn browsing_history_clear() {
    let mut hist = BrowsingHistory::new(PathBuf::from("/tmp/nami-test-history3.json"), 100);
    hist.add("https://example.com", "Example");
    hist.clear();
    assert!(hist.is_empty());
}

#[test]
fn back_then_forward_returns_to_the_same_page() {
    let mut stack = NavigationStack::new();
    stack.navigate("https://a.com");
    stack.navigate("https://b.com");
    stack.go_back();
    assert_eq!(stack.go_forward().as_deref(), Some("https://b.com"));
    assert_eq!(stack.current(), Some("https://b.com"));
    assert!(stack.can_go_back());
    assert!(!stack.can_go_forward());
}

#[test]
fn history_keeps_the_newest_visits() {
    let mut hist = BrowsingHistory::new(PathBuf::from("/tmp/nami-test-history4.json"), 2);
    hist.add_at("https://1.com", "1", 1);
    hist.add_at("https://2.com", "2", 2);
    hist.add_at("https://3.com", "3", 3);
    let urls: Vec<&str> = hist.stored().iter().map(|e| e.url.as_str()).collect();
    assert_eq!(urls, vec!["https://2.com", "https://3.com"]);
    let newest: Vec<&str> = hist.entries().iter().map(|e| e.url.as_str()).collect();
    assert_eq!(newest, vec!["https://3.com", "https://2.com"]);
}

#[test]
fn history_with_no_room_keeps_nothing() {
    let mut hist = BrowsingHistory::new(PathBuf::from("/tmp/nami-test-history5.json"), 0);
    hist.add_at("https://1.com", "1", 1);
    assert!(hist.is_empty());
}

#[test]
fn same_second_visits_latest_first() {
    let mut hist = BrowsingHistory::new(PathBuf::from("/tmp/nami-test-history6.json"), 10);
    hist.add_at("https://a.com", "a", 5);
    hist.add_at("https://b.com", "b", 5);
    hist.add_at("https://c.com", "c", 4);
    hist.add_at("https://d.com", "d", 5);
    let newest: Vec<&str> = hist.entries().iter().map(|e| e.url.as_str()).collect();
    assert_eq!(newest, vec!["https://d.com", "https://b.com", "https://a.com", "https://c.com"]);
}
