use nami::dom::{Document, Element, Node, NodeKind};
use nami::tabs::{PageState, Tab, TabManager};

fn text(t: &str) -> Node {
    Node { kind: NodeKind::Text(t.to_string()) }
}

fn el(tag: &str, children: Vec<Node>) -> Node {
    Node { kind: NodeKind::Element(Element { tag: tag.to_string(), attrs: Vec::new(), children }) }
}

fn page(title: Option<&str>, body: &str) -> Document {
    let head = match title {
        Some(t) => el("head", vec![el("title", vec![text(t)])]),
        None => el("head", vec![]),
    };
    Document { root: el("#document", vec![el("html", vec![head, el("body", vec![el("p", vec![text(body)])])])]) }
}

#[test]
fn new_tab_is_blank() {
    let tab = Tab::new();
    assert!(matches!(tab.page_state, PageState::Blank));
    assert_eq!(tab.title(), "New Tab");
    assert_eq!(tab.url(), "about:blank");
}

#[test]
fn tab_with_url() {
    let tab = Tab::with_url("https://example.com");
    assert!(tab.is_loading());
    assert_eq!(tab.url(), "https://example.com");
}

#[test]
fn tab_set_loaded() {
    let mut tab = Tab::new();
    tab.set_loaded(
        "https://example.com",
        "<html><head><title>Test</title></head><body>Hello</body></html>".to_string(),
        page(Some("Test"), "Hello"),
    );
    assert_eq!(tab.title(), "Test");
    assert!(tab.document.is_some());
}

#[test]
fn tab_search() {
    let mut tab = Tab::new();
    tab.set_loaded(
        "https://example.com",
        "<html><body><p>Hello World. Hello again.</p></body></html>".to_string(),
        page(None, "Hello World. Hello again."),
    );
    tab.search("Hello");
    assert_eq!(tab.search_matches.len(), 2);
    assert_eq!(tab.current_match, Some(0));

    tab.next_match();
    assert_eq!(tab.current_match, Some(1));

    tab.next_match();
    assert_eq!(tab.current_match, Some(0));
}

#[test]
fn tab_manager_basic() {
    let mut mgr = TabManager::new();
    assert_eq!(mgr.tab_count(), 1);

    mgr.new_tab(Some("https://example.com"));
    assert_eq!(mgr.tab_count(), 2);
    assert_eq!(mgr.active_index(), 1);

    mgr.prev_tab();
    assert_eq!(mgr.active_index(), 0);

    mgr.next_tab();
    assert_eq!(mgr.active_index(), 1);
}

#[test]
fn tab_manager_close() {
    let mut mgr = TabManager::new();
    mgr.new_tab(Some("https://a.com"));
    mgr.new_tab(Some("https://b.com"));
    assert_eq!(mgr.tab_count(), 3);

    mgr.close_tab();
    assert_eq!(mgr.tab_count(), 2);
}

#[test]
fn tab_manager_close_last() {
    let mut mgr = TabManager::new();
    mgr.close_tab();
    assert_eq!(mgr.tab_count(), 1);
    assert!(matches!(mgr.active_tab().page_state, PageState::Blank));
}

#[test]
fn tab_manager_titles() {
    let mut mgr = TabManager::new();
    mgr.new_tab(None);
    let titles = mgr.tab_titles();
    assert_eq!(titles.len(), 2);
    assert!(!titles[0].1);
    assert!(titles[1].1);
}

#[test]
fn tab_match_count_str() {
    let mut tab = Tab::new();
    assert_eq!(tab.match_count_str(), "No matches");

    tab.set_loaded(
        "https://example.com",
        "<html><body>test test test</body></html>".to_string(),
        page(None, "test test test"),
    );
    tab.search("test");
    assert!(tab.match_count_str().contains('/'));
}

#[test]
fn search_ignores_case_and_reports_positions() {
    let mut tab = Tab::new();
    tab.set_loaded("u", String::new(), page(None, "Rust and RUST and rust"));
    tab.search("rust");
    let found: Vec<(&str, usize)> = tab.search_matches.iter().map(|m| (m.text.as_str(), m.offset)).collect();
    assert_eq!(found, vec![("Rust", 0), ("RUST", 9), ("rust", 18)]);
    assert_eq!(tab.match_count_str(), "1/3");
    tab.prev_match();
    assert_eq!(tab.current_match, Some(2));
    assert_eq!(tab.match_count_str(), "3/3");
}

#[test]
fn closing_a_middle_tab_keeps_the_index() {
    let mut mgr = TabManager::new();
    mgr.new_tab(Some("https://a.com"));
    mgr.new_tab(Some("https://b.com"));
    mgr.goto_tab(1);
    mgr.close_tab();
    assert_eq!(mgr.active_index(), 1);
    assert_eq!(mgr.active_tab().url(), "https://b.com");
    mgr.goto_tab(7);
    assert_eq!(mgr.active_index(), 1);
}

#[test]
fn pinned_tabs_stay_open() {
    let mut mgr = TabManager::new();
    mgr.new_tab(Some("https://a.com"));
    mgr.active_tab_mut().pinned = true;
    mgr.close_tab();
    assert_eq!(mgr.tab_count(), 2);
}

#[test]
fn error_and_loaded_titles() {
    let mut tab = Tab::with_url("https://x.com");
    tab.set_error("https://x.com", "boom".to_string());
    assert_eq!(tab.title(), "https://x.com");
    tab.set_loaded("https://x.com", String::new(), page(None, "no title"));
    assert_eq!(tab.title(), "Untitled");
    assert!(!tab.is_loading());
}

#[test]
fn get_tab_mut_edits_one_tab() {
    let mut m = TabManager::new();
    m.new_tab(Some("https://a.com"));
    if let Some(t) = m.get_tab_mut(0) {
        t.pinned = true;
    }
    assert!(m.get_tab_mut(5).is_none());
    assert!(m.get_tab(0).unwrap().pinned);
    assert!(!m.get_tab(1).unwrap().pinned);
    assert_eq!(m.active_index(), 1);
}

#[test]
fn search_offsets_count_bytes() {
    let mut tab = Tab::new();
    tab.set_loaded("u", String::new(), page(None, "é foo and Foo"));
    tab.search("foo");
    let found: Vec<(&str, usize)> = tab.search_matches.iter().map(|m| (m.text.as_str(), m.offset)).collect();
    assert_eq!(found, vec![("foo", 3), ("Foo", 11)]);
}
