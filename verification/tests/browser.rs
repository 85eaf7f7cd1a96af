use nami::bookmarks::Bookmarks;
use nami::browser::{
    error_page_html, loading_page_html, render_bookmarks_page, render_history_page, render_source_page, Browser,
    BrowserEffect, NavStart, PageSource, ScrollRequest,
};
use nami::config::ContentBlockingConfig;
use nami::content_blocking::ContentBlocker;
use nami::dom::{Document, Element, Node, NodeKind};
use nami::history::BrowsingHistory;
use nami::input::BrowserAction;
use nami::render::render_blank_page;
use nami::tabs::PageState;
use std::path::PathBuf;

const ENGINE: &str = "https://duckduckgo.com/?q=%s";

fn blocker() -> ContentBlocker {
    ContentBlocker::new(&ContentBlockingConfig {
        enabled: true,
        block_trackers: true,
        block_ads: false,
        filter_lists: Vec::new(),
        blocked_domains: Vec::new(),
    })
}

fn browser(initial: Option<&str>) -> Browser {
    Browser::new(
        ENGINE.to_string(),
        "about:blank",
        BrowsingHistory::new(PathBuf::from("/tmp/test-hist.json"), 100),
        Bookmarks::new(PathBuf::from("/tmp/test-bm.json")),
        blocker(),
        initial,
    )
}

#[test]
fn browser_creates() {
    let browser = browser(None);
    assert!(!browser.should_quit);
    assert_eq!(browser.tabs.tab_count(), 1);
}

#[test]
fn browser_creates_with_url() {
    let browser = browser(Some("https://example.com"));
    assert_eq!(browser.tabs.active_tab().url(), "https://example.com");
}

#[test]
fn browser_render_full() {
    let browser = browser(None);
    let output = browser.render_full_text(&render_blank_page());
    assert!(output.contains("NORMAL"));
}

#[test]
fn bookmarks_page_rendering() {
    let mut bookmarks = Bookmarks::new(PathBuf::from("/tmp/test-bm.json"));
    bookmarks.add("https://example.com", "Example", vec!["test".into()]);
    let html = render_bookmarks_page(&bookmarks);
    assert!(html.contains("Example"));
    assert!(html.contains("example.com"));
}

#[test]
fn history_page_rendering() {
    let mut history = BrowsingHistory::new(PathBuf::from("/tmp/test-hist.json"), 100);
    history.add("https://example.com", "Example");
    let html = render_history_page(&history);
    assert!(html.contains("Example"));
}

#[test]
fn bookmarks_page_exact_html() {
    let mut bookmarks = Bookmarks::new(PathBuf::from("/tmp/test-bm.json"));
    assert_eq!(
        render_bookmarks_page(&bookmarks),
        "<html><head><title>Bookmarks</title></head><body><h1>Bookmarks</h1><ul><li>No bookmarks yet. Press B to bookmark a page.</li></ul></body></html>"
    );
    bookmarks.add_at("https://a.com", "A", vec!["x".into(), "y".into()], 5);
    assert_eq!(
        render_bookmarks_page(&bookmarks),
        "<html><head><title>Bookmarks</title></head><body><h1>Bookmarks</h1><ul><li><a href=\"https://a.com\">A</a> [x, y]</li></ul></body></html>"
    );
}

#[test]
fn source_page_escapes_markup() {
    assert_eq!(
        render_source_page("<p>a & b</p>"),
        "<html><body><pre>&lt;p&gt;a &amp; b&lt;/p&gt;</pre></body></html>"
    );
}

#[test]
fn key_actions() {
    let mut b = browser(None);
    assert!(matches!(b.handle_action(BrowserAction::ScrollDown(3)), BrowserEffect::Scroll(ScrollRequest::Down(3))));
    assert!(matches!(b.handle_action(BrowserAction::GoBack), BrowserEffect::Nothing));
    assert_eq!(b.status_message.as_deref(), Some("No previous page"));
    b.handle_action(BrowserAction::NewTab);
    assert_eq!(b.tabs.tab_count(), 2);
    assert_eq!(b.tabs.active_index(), 1);
    b.handle_action(BrowserAction::OpenUrl);
    assert!(b.editing_address);
    b.address_bar = "example.com".to_string();
    match b.handle_action(BrowserAction::SubmitInput) {
        BrowserEffect::Navigate(u) => assert_eq!(u, "example.com"),
        other => panic!("unexpected {other:?}"),
    }
    assert!(!b.editing_address);
    b.handle_action(BrowserAction::Quit);
    assert!(b.should_quit);
}

#[test]
fn navigation_start_and_finish() {
    let mut b = browser(None);
    match b.begin_navigation("example.com") {
        NavStart::Fetch(u) => assert_eq!(u, "https://example.com"),
        other => panic!("unexpected {other:?}"),
    }
    assert!(b.tabs.active_tab().is_loading());
    assert!(matches!(b.begin_navigation("https://google-analytics.com/x"), NavStart::Blocked));
    assert_eq!(b.status_message.as_deref(), Some("Blocked: https://google-analytics.com/x"));
    assert!(matches!(b.begin_navigation(""), NavStart::Blank));
    assert!(matches!(b.tabs.active_tab().page_state, PageState::Blank));
    b.finish_navigation("https://example.com", Err("timeout after 30s".to_string()));
    assert_eq!(b.status_message.as_deref(), Some("Error: timeout after 30s"));
    assert_eq!(b.tabs.active_tab().title(), "https://example.com");
}

#[test]
fn commands() {
    let mut b = browser(Some("https://example.com"));
    assert!(matches!(b.execute_command("bm docs rust"), BrowserEffect::SaveBookmarks));
    assert!(b.bookmarks.is_bookmarked("https://example.com"));
    assert_eq!(b.bookmarks.tags(), vec!["docs", "rust"]);
    assert!(matches!(b.handle_action(BrowserAction::ToggleBookmark), BrowserEffect::SaveBookmarks));
    assert!(!b.bookmarks.is_bookmarked("https://example.com"));
    assert_eq!(b.status_message.as_deref(), Some("Bookmark removed"));
    match b.execute_command("open rust-lang.org") {
        BrowserEffect::Navigate(u) => assert_eq!(u, "rust-lang.org"),
        other => panic!("unexpected {other:?}"),
    }
    assert!(matches!(b.execute_command("frobnicate"), BrowserEffect::Nothing));
    assert_eq!(b.status_message.as_deref(), Some("Unknown command: frobnicate"));
    match b.execute_command("history") {
        BrowserEffect::ShowPage { url, layout, .. } => {
            assert_eq!(url, "about:history");
            assert!(!layout);
        }
        other => panic!("unexpected {other:?}"),
    }
    b.execute_command("q");
    assert!(b.should_quit);
}

#[test]
fn page_source_follows_the_tab_state() {
    let mut b = browser(None);
    assert!(matches!(b.page_source(), PageSource::Blank));
    let b2 = browser(Some("example.com"));
    match b2.page_source() {
        PageSource::Html(h) => assert_eq!(h, "<html><body><p>Loading https://example.com...</p></body></html>"),
        other => panic!("unexpected {other:?}"),
    }
    b.tabs.active_tab_mut().set_error("https://x.com", "boom".to_string());
    match b.page_source() {
        PageSource::Html(h) => assert_eq!(h, error_page_html("https://x.com", "boom")),
        other => panic!("unexpected {other:?}"),
    }
}

#[test]
fn generated_pages() {
    assert_eq!(loading_page_html("u"), "<html><body><p>Loading u...</p></body></html>");
    assert_eq!(
        error_page_html("u", "e"),
        "<html><body><h1>Error</h1><p>Failed to load u</p><p>e</p></body></html>"
    );
}

#[test]
fn browser_render_blank() {
    let b = browser(None);
    assert!(matches!(b.page_source(), PageSource::Blank));
    let text = nami::render::to_plain_text(&render_blank_page());
    assert!(text.contains("Nami Browser"));
}

#[test]
fn search_command_uses_the_whole_query() {
    let text = Node { kind: NodeKind::Text("foo bar and foo baz".to_string()) };
    let body = Node {
        kind: NodeKind::Element(Element { tag: "body".to_string(), attrs: Vec::new(), children: vec![text] }),
    };
    let mut b = browser(None);
    b.tabs.active_tab_mut().set_loaded("https://x.com", String::new(), Document { root: body });
    assert!(matches!(b.execute_command("/foo bar"), BrowserEffect::Nothing));
    assert_eq!(b.tabs.active_tab().search_matches.len(), 1);
    assert_eq!(b.tabs.active_tab().search_matches[0].text, "foo bar");
    let info = b.tabs.active_tab().match_count_str();
    assert_eq!(b.status_message.as_deref(), Some(info.as_str()));
    b.execute_command("/foo");
    assert_eq!(b.tabs.active_tab().search_matches.len(), 2);
}
