use nami::dom::{Element, Node, NodeKind};
use nami::sink::{collect_attrs, DomSink};

fn element(tag: &str) -> Node {
    Node { kind: NodeKind::Element(Element { tag: tag.to_string(), attrs: Vec::new(), children: Vec::new() }) }
}

fn text(t: &str) -> Node {
    Node { kind: NodeKind::Text(t.to_string()) }
}

fn tag_of(n: &Node) -> &str {
    match &n.kind {
        NodeKind::Element(e) => &e.tag,
        NodeKind::Text(t) => t,
        NodeKind::Comment(c) => c,
    }
}

fn children(n: &Node) -> &Vec<Node> {
    match &n.kind {
        NodeKind::Element(e) => &e.children,
        _ => panic!("not an element"),
    }
}

#[test]
fn empty_arena_gives_the_document_node() {
    let sink = DomSink::new();
    assert_eq!(sink.len(), 1);
    let root = sink.finish();
    assert_eq!(tag_of(&root), "#document");
    assert!(children(&root).is_empty());
}

#[test]
fn parse_events_build_the_tree() {
    let mut sink = DomSink::new();
    let html = sink.push_node(element("html"), None);
    sink.set_parent(html, Some(0));
    let head = sink.push_node(element("head"), None);
    sink.set_parent(head, Some(html));
    let body = sink.push_node(element("body"), None);
    sink.set_parent(body, Some(html));
    let p = sink.push_node(element("p"), None);
    sink.set_parent(p, Some(body));
    sink.push_node(text("hi"), Some(p));
    sink.push_node(text("!"), Some(p));
    let root = sink.finish();
    let html_node = &children(&root)[0];
    assert_eq!(tag_of(html_node), "html");
    let kids: Vec<&str> = children(html_node).iter().map(tag_of).collect();
    assert_eq!(kids, vec!["head", "body"]);
    let p_node = &children(&children(html_node)[1])[0];
    let texts: Vec<&str> = children(p_node).iter().map(tag_of).collect();
    assert_eq!(texts, vec!["hi", "!"]);
}

#[test]
fn unlinked_nodes_are_dropped() {
    let mut sink = DomSink::new();
    let a = sink.push_node(element("a"), Some(0));
    let b = sink.push_node(element("b"), Some(0));
    sink.set_parent(a, None);
    assert_eq!(sink.parent_of(a), None);
    assert_eq!(sink.parent_of(b), Some(0));
    let root = sink.finish();
    let kids: Vec<&str> = children(&root).iter().map(tag_of).collect();
    assert_eq!(kids, vec!["b"]);
}

#[test]
fn reparenting_moves_all_children() {
    let mut sink = DomSink::new();
    let old = sink.push_node(element("old"), Some(0));
    let new = sink.push_node(element("new"), Some(0));
    sink.push_node(text("x"), Some(old));
    sink.push_node(text("y"), Some(old));
    sink.reparent_children(old, new);
    let root = sink.finish();
    assert!(children(&children(&root)[0]).is_empty());
    let moved: Vec<&str> = children(&children(&root)[1]).iter().map(tag_of).collect();
    assert_eq!(moved, vec!["x", "y"]);
}

#[test]
fn a_node_taken_before_its_turn_loses_its_children() {
    // `inner` (index 1) is linked to `outer` (index 2), created after it:
    // `outer` takes it first, and the text linked to `inner` is lost.
    let mut sink = DomSink::new();
    let inner = sink.push_node(element("inner"), None);
    let outer = sink.push_node(element("outer"), Some(0));
    sink.set_parent(inner, Some(outer));
    sink.push_node(text("lost"), Some(inner));
    let root = sink.finish();
    let outer_node = &children(&root)[0];
    assert_eq!(tag_of(outer_node), "outer");
    assert_eq!(tag_of(&children(outer_node)[0]), "inner");
    assert!(children(&children(outer_node)[0]).is_empty());
}

#[test]
fn missing_attributes_are_added_in_order() {
    let mut sink = DomSink::new();
    let e = Node {
        kind: NodeKind::Element(Element {
            tag: "body".to_string(),
            attrs: vec![("class".to_string(), "a".to_string())],
            children: Vec::new(),
        }),
    };
    let b = sink.push_node(e, Some(0));
    sink.add_attrs_if_missing(
        b,
        vec![
            ("class".to_string(), "b".to_string()),
            ("id".to_string(), "x".to_string()),
            ("id".to_string(), "y".to_string()),
        ],
    );
    let root = sink.finish();
    match &children(&root)[0].kind {
        NodeKind::Element(el) => {
            assert_eq!(el.attrs, vec![("class".to_string(), "a".to_string()), ("id".to_string(), "x".to_string())]);
        }
        _ => panic!("not an element"),
    }
}

#[test]
fn later_duplicate_attribute_wins() {
    let attrs = collect_attrs(vec![
        ("href".to_string(), "a".to_string()),
        ("id".to_string(), "i".to_string()),
        ("href".to_string(), "b".to_string()),
    ]);
    assert_eq!(attrs, vec![("href".to_string(), "b".to_string()), ("id".to_string(), "i".to_string())]);
}
