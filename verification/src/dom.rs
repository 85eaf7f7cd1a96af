//! DOM tree -- the parsed document model.
//!
//! The tree that the HTML parser builds, and the queries that the layout
//! engine, the renderer and the scripts make of it. Attributes are kept in
//! the order the parser gave them; a lookup finds the first with the name.
use vstd::prelude::*;
use crate::text::{chars_of, chars_eq, collapse_ws, collapse_ws_chars, eq_str, push_chars, push_str, string_from_chars};

verus! {

/// The kind of a DOM node.
#[derive(Debug)]
pub enum NodeKind {
    /// An HTML element with tag name, attributes, and children.
    Element(Element),
    /// A text node.
    Text(String),
    /// An HTML comment.
    Comment(String),
}

/// An HTML element.
#[derive(Debug)]
pub struct Element {
    /// Tag name (lowercase), e.g. "div", "a", "p".
    pub tag: String,
    /// Element attributes as name-value pairs, names distinct.
    pub attrs: Vec<(String, String)>,
    /// Child nodes.
    pub children: Vec<Node>,
}

/// A single node in the DOM tree.
#[derive(Debug)]
pub struct Node {
    /// What kind of node this is.
    pub kind: NodeKind,
}

/// A parsed HTML document.
#[derive(Debug)]
pub struct Document {
    /// The root node of the document tree.
    pub root: Node,
}

/// The value of the first attribute named `name`.
pub open spec fn attr_value(attrs: Seq<(String, String)>, name: Seq<char>) -> Option<Seq<char>>
    decreases attrs.len(),
{
    if attrs.len() == 0 {
        None
    } else if attrs[0].0@ == name {
        Some(attrs[0].1@)
    } else {
        attr_value(attrs.drop_first(), name)
    }
}

/// The index of the first attribute named `name`.
pub open spec fn attr_index(attrs: Seq<(String, String)>, name: Seq<char>) -> Option<int>
    decreases attrs.len(),
{
    if attrs.len() == 0 {
        None
    } else if attrs[0].0@ == name {
        Some(0)
    } else {
        match attr_index(attrs.drop_first(), name) {
            Some(i) => Some(i + 1),
            None => None,
        }
    }
}

pub proof fn lemma_attr_index(attrs: Seq<(String, String)>, name: Seq<char>)
    ensures
        match attr_index(attrs, name) {
            Some(i) => 0 <= i < attrs.len() && attrs[i].0@ == name && attr_value(attrs, name)
                == Some(attrs[i].1@) && forall|k: int| 0 <= k < i ==> attrs[k].0@ != name,
            None => attr_value(attrs, name) is None && forall|k: int|
                0 <= k < attrs.len() ==> attrs[k].0@ != name,
        },
    decreases attrs.len(),
{
    if attrs.len() > 0 && attrs[0].0@ != name {
        lemma_attr_index(attrs.drop_first(), name);
        assert forall|k: int| 1 <= k < attrs.len() implies attrs[k] == attrs.drop_first()[k - 1] by {}
    }
}

/// Finds the first attribute named `name` (the key written as characters).
pub fn find_attr(attrs: &Vec<(String, String)>, name: &[char]) -> (r: Option<usize>)
    ensures
        match r {
            Some(i) => attr_index(attrs@, name@) == Some(i as int),
            None => attr_index(attrs@, name@) is None,
        },
{
    proof {
        lemma_attr_index(attrs@, name@);
    }
    let mut i: usize = 0;
    while i < attrs.len()
        invariant
            i <= attrs@.len(),
            forall|k: int| 0 <= k < i ==> attrs@[k].0@ != name@,
            match attr_index(attrs@, name@) {
                Some(j) => i <= j,
                None => true,
            },
            match attr_index(attrs@, name@) {
                Some(j) => 0 <= j < attrs@.len() && attrs@[j].0@ == name@ && forall|k: int|
                    0 <= k < j ==> attrs@[k].0@ != name@,
                None => forall|k: int| 0 <= k < attrs@.len() ==> attrs@[k].0@ != name@,
            },
        decreases attrs@.len() - i,
    {
        let k = chars_of(attrs[i].0.as_str());
        if chars_eq(k.as_slice(), name) {
            return Some(i);
        }
        i = i + 1;
    }
    None
}

impl Element {
    /// The value of the attribute named `name`.
    pub fn get_attr(&self, name: &str) -> (r: Option<&String>)
        ensures
            match r {
                Some(v) => attr_value(self.attrs@, name@) == Some(v@),
                None => attr_value(self.attrs@, name@) is None,
            },
    {
        proof {
            lemma_attr_index(self.attrs@, name@);
        }
        let n = chars_of(name);
        match find_attr(&self.attrs, n.as_slice()) {
            Some(i) => Some(&self.attrs[i].1),
            None => None,
        }
    }
}

/// A node as a value: its strings as character sequences.
pub enum NodeView {
    Element { tag: Seq<char>, attrs: Seq<(Seq<char>, Seq<char>)>, children: Seq<NodeView> },
    Text(Seq<char>),
    Comment(Seq<char>),
}

/// Attributes as pairs of character sequences.
pub open spec fn attrs_view(attrs: Seq<(String, String)>) -> Seq<(Seq<char>, Seq<char>)> {
    attrs.map_values(|p: (String, String)| (p.0@, p.1@))
}

/// The value of a node.
pub open spec fn node_view(n: Node) -> NodeView
    decreases n, 0nat,
{
    match n.kind {
        NodeKind::Element(e) => NodeView::Element {
            tag: e.tag@,
            attrs: attrs_view(e.attrs@),
            children: nodes_view(e.children@),
        },
        NodeKind::Text(t) => NodeView::Text(t@),
        NodeKind::Comment(c) => NodeView::Comment(c@),
    }
}

/// The values of the nodes `cs`, in order.
pub open spec fn nodes_view(cs: Seq<Node>) -> Seq<NodeView>
    decreases cs, 1nat,
{
    if cs.len() == 0 {
        seq![]
    } else {
        nodes_view(cs.subrange(0, cs.len() - 1)).push(node_view(cs[cs.len() - 1]))
    }
}

impl View for Node {
    type V = NodeView;

    open spec fn view(&self) -> NodeView {
        node_view(*self)
    }
}

/// The values of nodes are those of their parts, one by one.
pub proof fn lemma_nodes_view(cs: Seq<Node>)
    ensures
        nodes_view(cs).len() == cs.len(),
        forall|i: int| 0 <= i < cs.len() ==> #[trigger] nodes_view(cs)[i] == node_view(cs[i]),
    decreases cs.len(),
{
    if cs.len() > 0 {
        lemma_nodes_view(cs.subrange(0, cs.len() - 1));
    }
}

/// The value of a concatenation of node sequences.
pub proof fn lemma_nodes_view_add(a: Seq<Node>, b: Seq<Node>)
    ensures
        nodes_view(a + b) == nodes_view(a) + nodes_view(b),
{
    lemma_nodes_view(a);
    lemma_nodes_view(b);
    lemma_nodes_view(a + b);
    assert(nodes_view(a + b) =~= nodes_view(a) + nodes_view(b));
}

/// The value of the first attribute named `name`, over attribute values.
pub open spec fn attr_lookup(attrs: Seq<(Seq<char>, Seq<char>)>, name: Seq<char>) -> Option<Seq<char>>
    decreases attrs.len(),
{
    if attrs.len() == 0 {
        None
    } else if attrs[0].0 == name {
        Some(attrs[0].1)
    } else {
        attr_lookup(attrs.drop_first(), name)
    }
}

/// The index of the first attribute named `name`, over attribute values.
pub open spec fn attr_position(attrs: Seq<(Seq<char>, Seq<char>)>, name: Seq<char>) -> Option<int>
    decreases attrs.len(),
{
    if attrs.len() == 0 {
        None
    } else if attrs[0].0 == name {
        Some(0)
    } else {
        match attr_position(attrs.drop_first(), name) {
            Some(i) => Some(i + 1),
            None => None,
        }
    }
}

/// Lookups over attribute values agree with those over the strings.
pub proof fn lemma_attrs_view(attrs: Seq<(String, String)>, name: Seq<char>)
    ensures
        attr_lookup(attrs_view(attrs), name) == attr_value(attrs, name),
        attr_position(attrs_view(attrs), name) == attr_index(attrs, name),
    decreases attrs.len(),
{
    if attrs.len() > 0 {
        assert(attrs_view(attrs).drop_first() =~= attrs_view(attrs.drop_first()));
        lemma_attrs_view(attrs.drop_first(), name);
    }
}

/// The text of the first text node among `cs`.
pub open spec fn first_text(cs: Seq<Node>) -> Option<Seq<char>>
    decreases cs.len(),
{
    if cs.len() == 0 {
        None
    } else {
        match cs[0].kind {
            NodeKind::Text(t) => Some(t@),
            _ => first_text(cs.drop_first()),
        }
    }
}

/// The document title found under `n`: the first text child of the first
/// `<title>` element, in document order.
pub open spec fn title_in(n: Node) -> Option<Seq<char>>
    decreases n, 0nat,
{
    match n.kind {
        NodeKind::Element(e) => if e.tag@ == "title"@ {
            first_text(e.children@)
        } else {
            title_in_all(e.children@)
        },
        _ => None,
    }
}

/// The first title found under the nodes `cs`, in order.
pub open spec fn title_in_all(cs: Seq<Node>) -> Option<Seq<char>>
    decreases cs, 1nat,
{
    if cs.len() == 0 {
        None
    } else {
        match title_in(cs[0]) {
            Some(t) => Some(t),
            None => title_in_all(cs.subrange(1, cs.len() as int)),
        }
    }
}

/// The `href` values of the `<a>` elements under `n`, in document order.
pub open spec fn links_in(n: Node) -> Seq<Seq<char>>
    decreases n, 0nat,
{
    match n.kind {
        NodeKind::Element(e) => {
            let own = if e.tag@ == "a"@ {
                match attr_value(e.attrs@, "href"@) {
                    Some(h) => seq![h],
                    None => seq![],
                }
            } else {
                seq![]
            };
            own + links_in_all(e.children@)
        },
        _ => seq![],
    }
}

/// The links under the nodes `cs`, in order.
pub open spec fn links_in_all(cs: Seq<Node>) -> Seq<Seq<char>>
    decreases cs, 1nat,
{
    if cs.len() == 0 {
        seq![]
    } else {
        links_in_all(cs.subrange(0, cs.len() - 1)) + links_in(cs[cs.len() - 1])
    }
}

/// The text under `n`: each text node followed by a space, nothing from
/// comments or from `<script>` and `<style>` elements.
pub open spec fn text_in(n: Node) -> Seq<char>
    decreases n, 0nat,
{
    match n.kind {
        NodeKind::Text(t) => t@.push(' '),
        NodeKind::Element(e) => if e.tag@ == "script"@ || e.tag@ == "style"@ {
            seq![]
        } else {
            text_in_all(e.children@)
        },
        NodeKind::Comment(_) => seq![],
    }
}

/// The text under the nodes `cs`, in order.
pub open spec fn text_in_all(cs: Seq<Node>) -> Seq<char>
    decreases cs, 1nat,
{
    if cs.len() == 0 {
        seq![]
    } else {
        text_in_all(cs.subrange(0, cs.len() - 1)) + text_in(cs[cs.len() - 1])
    }
}

fn first_text_child(cs: &Vec<Node>) -> (r: Option<&str>)
    ensures
        match r {
            Some(t) => first_text(cs@) == Some(t@),
            None => first_text(cs@) is None,
        },
{
    let mut i: usize = 0;
    assert(cs@.skip(0) =~= cs@);
    while i < cs.len()
        invariant
            i <= cs@.len(),
            first_text(cs@) == first_text(cs@.skip(i as int)),
        decreases cs@.len() - i,
    {
        assert(cs@.skip(i as int).drop_first() =~= cs@.skip(i + 1));
        assert(cs@.skip(i as int)[0] == cs@[i as int]);
        match &cs[i].kind {
            NodeKind::Text(t) => {
                return Some(t.as_str());
            },
            _ => {},
        }
        i = i + 1;
    }
    None
}

/// Recursively search for the `<title>` element and return its text content.
fn find_title(node: &Node) -> (r: Option<&str>)
    ensures
        match r {
            Some(t) => title_in(*node) == Some(t@),
            None => title_in(*node) is None,
        },
    decreases node,
{
    match &node.kind {
        NodeKind::Element(elem) => {
            if eq_str(chars_of(elem.tag.as_str()).as_slice(), "title") {
                return first_text_child(&elem.children);
            }
            let cs = &elem.children;
            let mut i: usize = 0;
            assert(cs@.subrange(0, cs@.len() as int) =~= cs@);
            while i < cs.len()
                invariant
                    i <= cs@.len(),
                    title_in(*node) == title_in_all(cs@.subrange(i as int, cs@.len() as int)),
                    node.kind == NodeKind::Element(*elem),
                    elem.children == *cs,
                    elem.tag@ != "title"@,
                decreases cs@.len() - i,
            {
                let ghost rest = cs@.subrange(i as int, cs@.len() as int);
                assert(rest.subrange(1, rest.len() as int) =~= cs@.subrange(i + 1, cs@.len() as int));
                assert(rest[0] == cs@[i as int]);
                assert(decreases_to!(*node => cs@[i as int])) by {
                    assert(decreases_to!(*node => node.kind));
                    assert(decreases_to!(node.kind => node.kind->Element_0));
                    assert(decreases_to!(*elem => elem.children));
                    assert(decreases_to!(elem.children => elem.children@));
                    assert(decreases_to!(cs@ => cs@[i as int]));
                }
                match find_title(&cs[i]) {
                    Some(t) => {
                        return Some(t);
                    },
                    None => {},
                }
                i = i + 1;
            }
            None
        },
        _ => None,
    }
}

/// Collect all `href` values from `<a>` elements.
fn collect_links(node: &Node, links: &mut Vec<String>)
    ensures
        final(links)@.map_values(|s: String| s@) == old(links)@.map_values(|s: String| s@)
            + links_in(*node),
    decreases node,
{
    match &node.kind {
        NodeKind::Element(elem) => {
            let ghost start = links@.map_values(|s: String| s@);
            if eq_str(chars_of(elem.tag.as_str()).as_slice(), "a") {
                match elem.get_attr("href") {
                    Some(h) => {
                        links.push(h.clone());
                    },
                    None => {},
                }
            }
            let ghost own = links@.map_values(|s: String| s@);
            assert(own == start + (if elem.tag@ == "a"@ {
                match attr_value(elem.attrs@, "href"@) {
                    Some(h) => seq![h],
                    None => seq![],
                }
            } else {
                seq![]
            }));
            let cs = &elem.children;
            let mut i: usize = 0;
            while i < cs.len()
                invariant
                    i <= cs@.len(),
                    node.kind == NodeKind::Element(*elem),
                    elem.children == *cs,
                    links@.map_values(|s: String| s@) == own + links_in_all(cs@.subrange(0, i as int)),
                decreases cs@.len() - i,
            {
                assert(cs@.subrange(0, i + 1).subrange(0, i as int) =~= cs@.subrange(0, i as int));
                assert(decreases_to!(*node => cs@[i as int])) by {
                    assert(decreases_to!(*node => node.kind));
                    assert(decreases_to!(node.kind => node.kind->Element_0));
                    assert(decreases_to!(*elem => elem.children));
                    assert(decreases_to!(elem.children => elem.children@));
                    assert(decreases_to!(cs@ => cs@[i as int]));
                }
                collect_links(&cs[i], links);
                assert(own + links_in_all(cs@.subrange(0, i as int)) + links_in(cs@[i as int]) =~= own
                    + links_in_all(cs@.subrange(0, i + 1)));
                i = i + 1;
            }
            assert(cs@.subrange(0, cs@.len() as int) =~= cs@);
        },
        _ => {},
    }
}

/// Collect all text content from a node tree.
fn collect_text(node: &Node, buf: &mut Vec<char>)
    ensures
        final(buf)@ == old(buf)@ + text_in(*node),
    decreases node,
{
    match &node.kind {
        NodeKind::Text(text) => {
            push_str(buf, text.as_str());
            buf.push(' ');
        },
        NodeKind::Element(elem) => {
            let tag = chars_of(elem.tag.as_str());
            if eq_str(tag.as_slice(), "script") || eq_str(tag.as_slice(), "style") {
                return;
            }
            let ghost start = buf@;
            let cs = &elem.children;
            let mut i: usize = 0;
            while i < cs.len()
                invariant
                    i <= cs@.len(),
                    node.kind == NodeKind::Element(*elem),
                    elem.children == *cs,
                    buf@ == start + text_in_all(cs@.subrange(0, i as int)),
                decreases cs@.len() - i,
            {
                assert(cs@.subrange(0, i + 1).subrange(0, i as int) =~= cs@.subrange(0, i as int));
                assert(decreases_to!(*node => cs@[i as int])) by {
                    assert(decreases_to!(*node => node.kind));
                    assert(decreases_to!(node.kind => node.kind->Element_0));
                    assert(decreases_to!(*elem => elem.children));
                    assert(decreases_to!(elem.children => elem.children@));
                    assert(decreases_to!(cs@ => cs@[i as int]));
                }
                collect_text(&cs[i], buf);
                i = i + 1;
            }
            assert(cs@.subrange(0, cs@.len() as int) =~= cs@);
        },
        NodeKind::Comment(_) => {},
    }
}

impl Document {
    /// Get the document title (content of the `<title>` element).
    pub fn title(&self) -> (r: Option<&str>)
        ensures
            match r {
                Some(t) => title_in(self.root) == Some(t@),
                None => title_in(self.root) is None,
            },
    {
        find_title(&self.root)
    }

    /// Get all `href` attribute values from anchor (`<a>`) elements.
    pub fn links(&self) -> (r: Vec<String>)
        ensures
            r@.map_values(|s: String| s@) == links_in(self.root),
    {
        let mut links: Vec<String> = Vec::new();
        assert(links@.map_values(|s: String| s@) =~= Seq::<Seq<char>>::empty());
        collect_links(&self.root, &mut links);
        assert(links@.map_values(|s: String| s@) =~= links_in(self.root));
        links
    }

    /// Extract all text content from the document, stripping tags, with
    /// runs of whitespace collapsed into single spaces.
    pub fn text_content(&self) -> (r: String)
        ensures
            r@ == collapse_ws(text_in(self.root)),
    {
        let mut text: Vec<char> = Vec::new();
        collect_text(&self.root, &mut text);
        assert(text@ =~= text_in(self.root));
        let c = collapse_ws_chars(text.as_slice());
        string_from_chars(c.as_slice())
    }
}

/// The text of the text nodes among `cs`, one after the other.
pub open spec fn own_text(cs: Seq<Node>) -> Seq<char>
    decreases cs.len(),
{
    if cs.len() == 0 {
        seq![]
    } else {
        own_text(cs.drop_last()) + match cs.last().kind {
            NodeKind::Text(t) => t@,
            _ => seq![],
        }
    }
}

/// The stylesheet texts of the `<style>` elements under `n`, in document
/// order.
pub open spec fn styles_in(n: Node) -> Seq<Seq<char>>
    decreases n, 0nat,
{
    match n.kind {
        NodeKind::Element(e) => if e.tag@ == "style"@ {
            seq![own_text(e.children@)]
        } else {
            styles_in_all(e.children@)
        },
        _ => seq![],
    }
}

/// The stylesheet texts under the nodes `cs`, in order.
pub open spec fn styles_in_all(cs: Seq<Node>) -> Seq<Seq<char>>
    decreases cs, 1nat,
{
    if cs.len() == 0 {
        seq![]
    } else {
        styles_in_all(cs.subrange(0, cs.len() - 1)) + styles_in(cs[cs.len() - 1])
    }
}

fn own_text_exec(cs: &Vec<Node>) -> (r: Vec<char>)
    ensures
        r@ == own_text(cs@),
{
    let mut out: Vec<char> = Vec::new();
    let mut i: usize = 0;
    while i < cs.len()
        invariant
            i <= cs@.len(),
            out@ == own_text(cs@.take(i as int)),
        decreases cs@.len() - i,
    {
        assert(cs@.take(i + 1).drop_last() =~= cs@.take(i as int));
        match &cs[i].kind {
            NodeKind::Text(t) => push_str(&mut out, t.as_str()),
            _ => {},
        }
        i = i + 1;
    }
    assert(cs@.take(i as int) =~= cs@);
    out
}

fn collect_styles(node: &Node, out: &mut Vec<String>)
    ensures
        final(out)@.map_values(|s: String| s@) == old(out)@.map_values(|s: String| s@)
            + styles_in(*node),
    decreases node,
{
    match &node.kind {
        NodeKind::Element(elem) => {
            if eq_str(chars_of(elem.tag.as_str()).as_slice(), "style") {
                let t = own_text_exec(&elem.children);
                let ghost o0 = out@;
                out.push(string_from_chars(t.as_slice()));
                assert(out@.map_values(|s: String| s@) =~= o0.map_values(|s: String| s@).push(t@));
                return;
            }
            let ghost start = out@.map_values(|s: String| s@);
            let cs = &elem.children;
            let mut i: usize = 0;
            while i < cs.len()
                invariant
                    i <= cs@.len(),
                    node.kind == NodeKind::Element(*elem),
                    elem.children == *cs,
                    out@.map_values(|s: String| s@) == start + styles_in_all(cs@.subrange(0, i as int)),
                decreases cs@.len() - i,
            {
                assert(cs@.subrange(0, i + 1).subrange(0, i as int) =~= cs@.subrange(0, i as int));
                assert(decreases_to!(*node => cs@[i as int])) by {
                    assert(decreases_to!(*node => node.kind));
                    assert(decreases_to!(node.kind => node.kind->Element_0));
                    assert(decreases_to!(*elem => elem.children));
                    assert(decreases_to!(elem.children => elem.children@));
                    assert(decreases_to!(cs@ => cs@[i as int]));
                }
                collect_styles(&cs[i], out);
                assert(start + styles_in_all(cs@.subrange(0, i as int)) + styles_in(cs@[i as int]) =~= start
                    + styles_in_all(cs@.subrange(0, i + 1)));
                i = i + 1;
            }
            assert(cs@.subrange(0, cs@.len() as int) =~= cs@);
        },
        _ => {},
    }
}

impl Document {
    /// The texts of the document's `<style>` elements, in document order.
    pub fn inline_styles(&self) -> (r: Vec<String>)
        ensures
            r@.map_values(|s: String| s@) == styles_in(self.root),
    {
        let mut out: Vec<String> = Vec::new();
        assert(out@.map_values(|s: String| s@) =~= Seq::<Seq<char>>::empty());
        collect_styles(&self.root, &mut out);
        assert(out@.map_values(|s: String| s@) =~= styles_in(self.root));
        out
    }
}

/// The `href` values of the `<link rel="stylesheet">` elements under `n`,
/// in document order.
pub open spec fn sheet_links_in(n: Node) -> Seq<Seq<char>>
    decreases n, 0nat,
{
    match n.kind {
        NodeKind::Element(e) => {
            let own = if e.tag@ == "link"@ && attr_value(e.attrs@, "rel"@) == Some("stylesheet"@) {
                match attr_value(e.attrs@, "href"@) {
                    Some(h) => seq![h],
                    None => seq![],
                }
            } else {
                seq![]
            };
            own + sheet_links_in_all(e.children@)
        },
        _ => seq![],
    }
}

/// The stylesheet links under the nodes `cs`, in order.
pub open spec fn sheet_links_in_all(cs: Seq<Node>) -> Seq<Seq<char>>
    decreases cs, 1nat,
{
    if cs.len() == 0 {
        seq![]
    } else {
        sheet_links_in_all(cs.subrange(0, cs.len() - 1)) + sheet_links_in(cs[cs.len() - 1])
    }
}

fn collect_sheet_links(node: &Node, links: &mut Vec<String>)
    ensures
        final(links)@.map_values(|s: String| s@) == old(links)@.map_values(|s: String| s@)
            + sheet_links_in(*node),
    decreases node,
{
    match &node.kind {
        NodeKind::Element(elem) => {
            let ghost start = links@.map_values(|s: String| s@);
            let is_sheet = eq_str(chars_of(elem.tag.as_str()).as_slice(), "link") && match elem.get_attr("rel") {
                Some(r) => eq_str(chars_of(r.as_str()).as_slice(), "stylesheet"),
                None => false,
            };
            if is_sheet {
                match elem.get_attr("href") {
                    Some(h) => {
                        links.push(h.clone());
                    },
                    None => {},
                }
            }
            let ghost own = links@.map_values(|s: String| s@);
            assert(own == start + (if elem.tag@ == "link"@ && attr_value(elem.attrs@, "rel"@) == Some("stylesheet"@) {
                match attr_value(elem.attrs@, "href"@) {
                    Some(h) => seq![h],
                    None => seq![],
                }
            } else {
                seq![]
            }));
            let cs = &elem.children;
            let mut i: usize = 0;
            while i < cs.len()
                invariant
                    i <= cs@.len(),
                    node.kind == NodeKind::Element(*elem),
                    elem.children == *cs,
                    links@.map_values(|s: String| s@) == own + sheet_links_in_all(cs@.subrange(0, i as int)),
                decreases cs@.len() - i,
            {
                assert(cs@.subrange(0, i + 1).subrange(0, i as int) =~= cs@.subrange(0, i as int));
                assert(decreases_to!(*node => cs@[i as int])) by {
                    assert(decreases_to!(*node => node.kind));
                    assert(decreases_to!(node.kind => node.kind->Element_0));
                    assert(decreases_to!(*elem => elem.children));
                    assert(decreases_to!(elem.children => elem.children@));
                    assert(decreases_to!(cs@ => cs@[i as int]));
                }
                collect_sheet_links(&cs[i], links);
                assert(own + sheet_links_in_all(cs@.subrange(0, i as int)) + sheet_links_in(cs@[i as int]) =~= own
                    + sheet_links_in_all(cs@.subrange(0, i + 1)));
                i = i + 1;
            }
            assert(cs@.subrange(0, cs@.len() as int) =~= cs@);
        },
        _ => {},
    }
}

impl Document {
    /// The `href` values of the document's stylesheet links, in document
    /// order.
    pub fn stylesheet_links(&self) -> (r: Vec<String>)
        ensures
            r@.map_values(|s: String| s@) == sheet_links_in(self.root),
    {
        let mut links: Vec<String> = Vec::new();
        assert(links@.map_values(|s: String| s@) =~= Seq::<Seq<char>>::empty());
        collect_sheet_links(&self.root, &mut links);
        assert(links@.map_values(|s: String| s@) =~= sheet_links_in(self.root));
        links
    }
}

} // verus!
