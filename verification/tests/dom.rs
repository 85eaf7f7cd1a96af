use nami::dom::{Document, Element, Node, NodeKind};

fn text(t: &str) -> Node {
    Node { kind: NodeKind::Text(t.to_string()) }
}

fn el(tag: &str, attrs: &[(&str, &str)], children: Vec<Node>) -> Node {
    Node {
        kind: NodeKind::Element(Element {
            tag: tag.to_string(),
            attrs: attrs.iter().map(|(k, v)| (k.to_string(), v.to_string())).collect(),
            children,
        }),
    }
}

fn sample() -> Document {
    Document {
        root: el(
            "#document",
            &[],
            vec![el(
                "html",
                &[],
                vec![
                    el("head", &[], vec![el("title", &[], vec![text("My Page")]), el("style", &[], vec![text(".foo { color: red; }")])]),
                    el(
                        "body",
                        &[],
                        vec![
                            el("h1", &[], vec![text("  Lots   of\n spaces  ")]),
                            Node { kind: NodeKind::Comment("hidden".to_string()) },
                            el("script", &[], vec![text("var x = 1;")]),
                            el("a", &[("href", "https://example.com"), ("class", "link")], vec![text("Example")]),
                            el("p", &[], vec![el("a", &[("href", "/about")], vec![text("About")]), el("a", &[], vec![text("none")])]),
                        ],
                    ),
                ],
            )],
        ),
    }
}

#[test]
fn title_links_and_text() {
    let d = sample();
    assert_eq!(d.title(), Some("My Page"));
    assert_eq!(d.links(), vec!["https://example.com", "/about"]);
    let t = d.text_content();
    assert_eq!(t, "My Page Lots of spaces Example About none");
    assert!(!t.contains("var x"));
    assert!(!t.contains("  "));
}

#[test]
fn inline_styles_in_document_order() {
    assert_eq!(sample().inline_styles(), vec![".foo { color: red; }"]);
}

#[test]
fn empty_document_has_nothing() {
    let d = Document { root: el("#document", &[], vec![]) };
    assert!(d.title().is_none());
    assert!(d.links().is_empty());
    assert_eq!(d.text_content(), "");
}

#[test]
fn attribute_lookup_finds_the_first() {
    if let NodeKind::Element(e) = el("a", &[("href", "/x"), ("id", "main-link")], vec![]).kind {
        assert_eq!(e.get_attr("href").map(String::as_str), Some("/x"));
        assert_eq!(e.get_attr("id").map(String::as_str), Some("main-link"));
        assert!(e.get_attr("class").is_none());
    }
}

/// The tree an HTML parser builds for `<html><head>head</head><body>body</body></html>`.
fn page(head: Vec<Node>, body: Vec<Node>) -> Document {
    Document {
        root: el("#document", &[], vec![el("html", &[], vec![el("head", &[], head), el("body", &[], body)])]),
    }
}

#[test]
fn parse_extracts_title() {
    let doc = page(vec![el("title", &[], vec![text("My Page")])], vec![]);
    assert_eq!(doc.title(), Some("My Page"));
}

#[test]
fn parse_no_title_returns_none() {
    let doc = page(vec![], vec![el("p", &[], vec![text("No title here")])]);
    assert_eq!(doc.title(), None);
}

#[test]
fn parse_extracts_links() {
    let doc = page(
        vec![],
        vec![
            text("\n                "),
            el("a", &[("href", "https://example.com")], vec![text("Example")]),
            text("\n                "),
            el("a", &[("href", "/about")], vec![text("About")]),
            text("\n                "),
            el("p", &[], vec![text("No link here")]),
            text("\n                "),
            el("a", &[("href", "mailto:test@test.com")], vec![text("Email")]),
            text("\n            \n        "),
        ],
    );
    let links = doc.links();
    assert_eq!(links.len(), 3);
    assert!(links.contains(&"https://example.com".to_string()));
    assert!(links.contains(&"/about".to_string()));
    assert!(links.contains(&"mailto:test@test.com".to_string()));
}

#[test]
fn parse_no_links() {
    let doc = page(vec![], vec![el("p", &[], vec![text("No links")])]);
    assert!(doc.links().is_empty());
}

#[test]
fn text_content_strips_tags() {
    let doc = page(
        vec![],
        vec![
            el("h1", &[], vec![text("Title")]),
            el("p", &[], vec![text("Some "), el("strong", &[], vec![text("bold")]), text(" text.")]),
        ],
    );
    let text = doc.text_content();
    assert!(text.contains("Title"));
    assert!(text.contains("Some"));
    assert!(text.contains("bold"));
    assert!(text.contains("text."));
    assert!(!text.contains("<h1>"));
    assert!(!text.contains("<strong>"));
}

#[test]
fn text_content_skips_script_and_style() {
    let doc = page(
        vec![],
        vec![
            el("p", &[], vec![text("Visible")]),
            el("script", &[], vec![text("var x = 1;")]),
            el("style", &[], vec![text(".foo { color: red; }")]),
            el("p", &[], vec![text("Also visible")]),
        ],
    );
    let text = doc.text_content();
    assert!(text.contains("Visible"));
    assert!(text.contains("Also visible"));
    assert!(!text.contains("var x"));
    assert!(!text.contains(".foo"));
}

#[test]
fn element_attributes() {
    let doc = page(
        vec![],
        vec![el("a", &[("href", "/test"), ("class", "link"), ("id", "main-link")], vec![text("Click")])],
    );
    fn find_element<'a>(node: &'a Node, tag: &str) -> Option<&'a Element> {
        match &node.kind {
            NodeKind::Element(elem) => {
                if elem.tag == tag {
                    return Some(elem);
                }
                for child in &elem.children {
                    if let Some(found) = find_element(child, tag) {
                        return Some(found);
                    }
                }
                None
            }
            _ => None,
        }
    }
    let anchor = find_element(&doc.root, "a").expect("should find <a> element");
    assert_eq!(anchor.get_attr("href").map(String::as_str), Some("/test"));
    assert_eq!(anchor.get_attr("class").map(String::as_str), Some("link"));
    assert_eq!(anchor.get_attr("id").map(String::as_str), Some("main-link"));
}

#[test]
fn text_content_normalises_whitespace() {
    let doc = page(vec![], vec![el("p", &[], vec![text("  Lots   of    spaces  ")])]);
    let text = doc.text_content();
    assert!(!text.contains("   "));
    assert!(text.contains("Lots of spaces"));
}
