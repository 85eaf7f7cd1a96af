use nami::dom::{Document, Element, Node, NodeKind};
use nami::transform::{
    apply, eq_ignore_ascii_case, matches_element, selector_tag_exec, DomAction, DomTransformSpec,
    TransformSet,
};

fn text(t: &str) -> Node {
    Node { kind: NodeKind::Text(t.to_string()) }
}

fn el(tag: &str, attrs: &[(&str, &str)], children: Vec<Node>) -> Node {
    Node {
        kind: NodeKind::Element(Element {
            tag: tag.to_string(),
            attrs: attrs.iter().map(|(k, v)| (k.to_string(), v.to_string())).collect(),
            children,
        }),
    }
}

/// A document as the HTML parser builds it: `#document`, `html`, `head`,
/// `body`.
fn page(body: Vec<Node>) -> Document {
    Document {
        root: el("#document", &[], vec![el("html", &[], vec![el("head", &[], vec![]), el("body", &[], body)])]),
    }
}

fn spec(name: &str, selector: &str, action: DomAction, arg: Option<&str>) -> DomTransformSpec {
    DomTransformSpec {
        name: name.to_string(),
        selector: selector.to_string(),
        action,
        arg: arg.map(str::to_string),
    }
}

fn count_tag(doc: &Document, tag: &str) -> usize {
    fn walk(node: &Node, tag: &str, n: &mut usize) {
        if let NodeKind::Element(el) = &node.kind {
            if el.tag == tag {
                *n += 1;
            }
            for c in &el.children {
                walk(c, tag, n);
            }
        }
    }
    let mut n = 0;
    walk(&doc.root, tag, &mut n);
    n
}

fn find_tag<'a>(doc: &'a Document, tag: &str) -> Option<&'a Element> {
    fn walk<'a>(node: &'a Node, tag: &str) -> Option<&'a Element> {
        if let NodeKind::Element(el) = &node.kind {
            if el.tag == tag {
                return Some(el);
            }
            for c in &el.children {
                if let Some(found) = walk(c, tag) {
                    return Some(found);
                }
            }
        }
        None
    }
    walk(&doc.root, tag)
}

fn attr<'a>(el: &'a Element, name: &str) -> Option<&'a str> {
    el.get_attr(name).map(String::as_str)
}

#[test]
fn remove_strips_matching_elements() {
    let mut doc = page(vec![
        el("div", &[("class", "ad")], vec![text("a")]),
        el("p", &[], vec![text("ok")]),
        el("div", &[("class", "ad")], vec![text("b")]),
    ]);
    let set = TransformSet { specs: vec![spec("hide-ads", ".ad", DomAction::Remove, None)] };
    let report = set.apply(&mut doc);
    assert_eq!(count_tag(&doc, "div"), 0);
    assert_eq!(count_tag(&doc, "p"), 1);
    assert_eq!(report.applied.len(), 2);
    assert_eq!(report.applied[0].transform, "hide-ads");
    assert_eq!(report.applied[0].tag, "ad");
}

#[test]
fn add_class_is_idempotent() {
    let mut doc = page(vec![el("img", &[("src", "x")], vec![])]);
    let set = TransformSet {
        specs: vec![spec("flag", "img", DomAction::AddClass, Some("needs-alt"))],
    };
    set.apply(&mut doc);
    set.apply(&mut doc);
    let img = find_tag(&doc, "img").unwrap();
    assert_eq!(attr(img, "class").unwrap(), "needs-alt");
}

#[test]
fn set_attr_creates_or_updates() {
    let mut doc = page(vec![el("a", &[("href", "old")], vec![text("x")])]);
    let set = TransformSet {
        specs: vec![spec("rw", "a", DomAction::SetAttr, Some("href=https://new"))],
    };
    set.apply(&mut doc);
    assert_eq!(attr(find_tag(&doc, "a").unwrap(), "href").unwrap(), "https://new");
}

#[test]
fn unwrap_replaces_with_children() {
    let mut doc = page(vec![el("div", &[("class", "wrap")], vec![el("p", &[], vec![text("inner")])])]);
    let set = TransformSet { specs: vec![spec("unwrap", ".wrap", DomAction::Unwrap, None)] };
    set.apply(&mut doc);
    assert_eq!(count_tag(&doc, "div"), 0);
    assert_eq!(count_tag(&doc, "p"), 1);
    let body = find_tag(&doc, "body").unwrap();
    assert_eq!(body.children.len(), 1);
}

#[test]
fn empty_transform_set_changes_nothing() {
    let set = TransformSet::default();
    assert!(set.is_empty());
    assert_eq!(set.len(), 0);
    let mut doc = page(vec![el("p", &[], vec![text("x")])]);
    let report = set.apply(&mut doc);
    assert!(report.applied.is_empty());
    assert_eq!(count_tag(&doc, "p"), 1);
}

#[test]
fn set_attr_without_equals_does_nothing() {
    let mut doc = page(vec![el("a", &[("href", "old")], vec![])]);
    let report = apply(&mut doc, &[spec("rw", "a", DomAction::SetAttr, Some("href"))]);
    assert!(report.applied.is_empty());
    assert_eq!(attr(find_tag(&doc, "a").unwrap(), "href").unwrap(), "old");
}

#[test]
fn set_attr_adds_missing_attribute() {
    let mut doc = page(vec![el("img", &[("src", "x")], vec![])]);
    apply(&mut doc, &[spec("alt", "img", DomAction::SetAttr, Some("alt=a=b"))]);
    let img = find_tag(&doc, "img").unwrap();
    assert_eq!(img.attrs.len(), 2);
    assert_eq!(attr(img, "alt").unwrap(), "a=b");
}

#[test]
fn remove_class_keeps_other_classes() {
    let mut doc = page(vec![el("div", &[("class", "a  b a")], vec![])]);
    apply(&mut doc, &[spec("rc", "div", DomAction::RemoveClass, Some("a"))]);
    assert_eq!(attr(find_tag(&doc, "div").unwrap(), "class").unwrap(), "b");
    apply(&mut doc, &[spec("rc", "div", DomAction::RemoveClass, Some("b"))]);
    assert_eq!(attr(find_tag(&doc, "div").unwrap(), "class"), None);
}

#[test]
fn add_class_appends_with_a_space() {
    let mut doc = page(vec![el("div", &[("class", "a")], vec![])]);
    let report = apply(&mut doc, &[spec("ac", "DIV", DomAction::AddClass, Some("b"))]);
    assert_eq!(report.applied.len(), 1);
    assert_eq!(report.applied[0].tag, "div");
    assert_eq!(attr(find_tag(&doc, "div").unwrap(), "class").unwrap(), "a b");
}

#[test]
fn remove_attr_and_set_text() {
    let mut doc = page(vec![el("p", &[("id", "x"), ("title", "t")], vec![text("old"), text("more")])]);
    let report = apply(
        &mut doc,
        &[
            spec("ra", "#x", DomAction::RemoveAttr, Some("title")),
            spec("st", "p", DomAction::SetText, Some("new")),
        ],
    );
    assert_eq!(report.applied.len(), 2);
    let p = find_tag(&doc, "p").unwrap();
    assert_eq!(attr(p, "title"), None);
    assert_eq!(p.children.len(), 1);
    assert!(matches!(&p.children[0].kind, NodeKind::Text(t) if t == "new"));
}

#[test]
fn nested_matches_are_reported_depth_first() {
    let mut doc = page(vec![el("div", &[("class", "w")], vec![el("div", &[("class", "w")], vec![text("x")])])]);
    let report = apply(&mut doc, &[spec("u", ".w", DomAction::Unwrap, None)]);
    assert_eq!(report.applied.len(), 2);
    assert_eq!(count_tag(&doc, "div"), 0);
    let body = find_tag(&doc, "body").unwrap();
    assert!(matches!(&body.children[0].kind, NodeKind::Text(t) if t == "x"));
}

#[test]
fn selectors_match_class_id_and_tag() {
    let node = el("Img", &[("class", "a b"), ("id", "main")], vec![]);
    assert!(matches_element(&node, " .b "));
    assert!(!matches_element(&node, ".c"));
    assert!(matches_element(&node, "#main"));
    assert!(!matches_element(&node, "#other"));
    assert!(matches_element(&node, "IMG"));
    assert!(!matches_element(&text("img"), "img"));
    assert_eq!(selector_tag_exec(".#.x"), "x");
    let a: Vec<char> = "aBc".chars().collect();
    let b: Vec<char> = "AbC".chars().collect();
    assert!(eq_ignore_ascii_case(&a, &b));
}
