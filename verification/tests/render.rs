use nami::css::KeywordStyle;
use nami::dom::{Document, Element, Node, NodeKind};
use nami::render::{
    hex_to_ansi256, render_blank_page, render_document, render_status_bar, render_tab_bar,
    to_ansi_text, to_plain_text, truncate,
};

fn text(t: &str) -> Node {
    Node { kind: NodeKind::Text(t.to_string()) }
}

fn el(tag: &str, attrs: &[(&str, &str)], children: Vec<Node>) -> Node {
    Node {
        kind: NodeKind::Element(Element {
            tag: tag.to_string(),
            attrs: attrs.iter().map(|(k, v)| (k.to_string(), v.to_string())).collect(),
            children,
        }),
    }
}

fn doc(body: Vec<Node>) -> Document {
    Document {
        root: el("#document", &[], vec![el("html", &[], vec![el("head", &[], vec![]), el("body", &[], body)])]),
    }
}

#[test]
fn render_blank_page_has_content() {
    let page = render_blank_page();
    assert!(!page.lines.is_empty());
    let text = to_plain_text(&page);
    assert!(text.contains("Nami Browser"));
}

#[test]
fn status_bar_rendering() {
    let bar = render_status_bar("https://example.com", "NORMAL", "1/3", 5, false);
    assert!(bar.contains("NORMAL"));
    assert!(bar.contains("example.com"));
    assert!(bar.contains("5 blocked"));
}

#[test]
fn tab_bar_rendering() {
    let tabs = vec![("Tab 1", false), ("Tab 2", true)];
    let bar = render_tab_bar(&tabs);
    assert!(bar.contains("Tab 1"));
    assert!(bar.contains("Tab 2"));
}

#[test]
fn hex_to_ansi_conversion() {
    assert!(hex_to_ansi256("#ff0000").is_some());
    assert!(hex_to_ansi256("#00ff00").is_some());
    assert!(hex_to_ansi256("#0000ff").is_some());
    assert!(hex_to_ansi256("invalid").is_none());
    assert!(hex_to_ansi256("transparent").is_none());
}

#[test]
fn truncate_strings() {
    assert_eq!(truncate("short", 10), "short");
    assert_eq!(truncate("a very long string", 10), "a very...");
}

#[test]
fn truncate_counts_bytes_and_cuts_at_char_boundaries() {
    let title = format!("a{}", "é".repeat(10));
    assert_eq!(truncate(&title, 20), format!("a{}...", "é".repeat(8)));
    let all_accents = "é".repeat(11);
    assert_eq!(truncate(&all_accents, 20), format!("{}...", "é".repeat(8)));
    assert_eq!(truncate(&"é".repeat(10), 20), "é".repeat(10));
    assert_eq!(truncate("abcdef", 2), "...");
}

#[test]
fn ansi_codes_of_the_colour_cube() {
    assert_eq!(hex_to_ansi256("#ff0000"), Some(196));
    assert_eq!(hex_to_ansi256("#000000"), Some(16));
    assert_eq!(hex_to_ansi256("#ffffff"), Some(231));
    assert_eq!(hex_to_ansi256("#eceff4"), Some(231));
    assert_eq!(hex_to_ansi256("#5e81ac"), Some(109));
    assert_eq!(hex_to_ansi256("#12345"), None);
}

#[test]
fn status_bar_exact_text() {
    assert_eq!(
        render_status_bar("u", "NORMAL", "2/4", 0, true),
        "\x1b[7m NORMAL | u Loading... | 2/4 \x1b[0m"
    );
    assert_eq!(
        render_status_bar("u", "INSERT", "1/1", 12, false),
        "\x1b[7m INSERT | u  [12 blocked] | 1/1 \x1b[0m"
    );
}

#[test]
fn tab_bar_exact_text() {
    let tabs = vec![("A", true), ("A very long tab title here", false)];
    assert_eq!(
        render_tab_bar(&tabs),
        "\x1b[7m [1: A] \x1b[0m  2: A very long tab t...  "
    );
}

#[test]
fn render_headings_lists_and_links() {
    let d = doc(vec![
        el("h1", &[], vec![text("Big")]),
        el("ul", &[], vec![el("li", &[], vec![text("one")])]),
        el("p", &[], vec![text("See "), el("a", &[("href", "https://example.com")], vec![text("this")])]),
    ]);
    let page = render_document(&d, 80);
    assert_eq!(page.title, "Untitled");
    let plain = to_plain_text(&page);
    assert!(plain.contains("# Big"));
    assert!(plain.contains("  - one"));
    assert!(plain.contains("this [https://example.com]"));
    assert_eq!(page.total_lines, page.lines.len());
}

#[test]
fn render_skips_scripts_and_draws_rules() {
    let d = doc(vec![
        el("script", &[], vec![text("var x = 1;")]),
        el("hr", &[], vec![]),
        el("img", &[("alt", "logo")], vec![]),
    ]);
    let page = render_document(&d, 10);
    let plain = to_plain_text(&page);
    assert!(!plain.contains("var x"));
    assert!(plain.contains("----------\n"));
    assert!(!plain.contains("-----------"));
    assert!(plain.contains("[img: logo]"));
}

#[test]
fn ansi_text_output() {
    let d = doc(vec![el("strong", &[], vec![text("Bold")])]);
    let page = render_document(&d, 80);
    let ansi = to_ansi_text(&page);
    assert!(ansi.contains("\x1b[1m"));
    let plain = to_plain_text(&page);
    assert!(!plain.contains("\x1b["));
}

#[test]
fn title_comes_from_the_document() {
    let d = Document {
        root: el("#document", &[], vec![el("html", &[], vec![el("head", &[], vec![el("title", &[], vec![text("My Page")])])])]),
    };
    assert_eq!(render_document(&d, 80).title, "My Page");
    let _ = KeywordStyle::default();
}

#[test]
fn render_simple_page() {
    let d = doc(vec![el("h1", &[], vec![text("Hello")]), el("p", &[], vec![text("World")])]);
    let page = render_document(&d, 80);
    assert!(!page.lines.is_empty());
    assert_eq!(page.title, "Untitled");
    let text = to_plain_text(&page);
    assert!(text.contains("Hello"));
    assert!(text.contains("World"));
}

#[test]
fn render_with_links() {
    let d = doc(vec![el("a", &[("href", "https://example.com")], vec![text("Click")])]);
    let page = render_document(&d, 80);
    let text = to_plain_text(&page);
    assert!(text.contains("Click"));
    assert!(text.contains("example.com"));
}

#[test]
fn render_headings() {
    let d = doc(vec![
        el("h1", &[], vec![text("Big")]),
        el("h2", &[], vec![text("Medium")]),
        el("h3", &[], vec![text("Small")]),
    ]);
    let page = render_document(&d, 80);
    let text = to_plain_text(&page);
    assert!(text.contains("# Big"));
    assert!(text.contains("## Medium"));
    assert!(text.contains("### Small"));
}

#[test]
fn plain_text_output() {
    let d = doc(vec![el("p", &[], vec![text("Test paragraph")])]);
    let page = render_document(&d, 80);
    let text = to_plain_text(&page);
    assert!(text.contains("Test paragraph"));
    assert!(!text.contains("\x1b["));
}
