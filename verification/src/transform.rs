//! DOM transforms applied after parsing and before layout.
//!
//! A transform names a selector (`.class`, `#id` or a tag name, ASCII case
//! ignored) and an action. It is applied depth first: the subtrees of a node
//! are transformed before the node's own children are matched, so an action
//! on a parent sees the transformed subtree. The root itself is never
//! matched. Each element acted on is reported, in order.
use vstd::prelude::*;
use crate::dom::{
    Document, Element, Node, NodeKind, NodeView, attr_lookup, attr_position, attrs_view, find_attr,
    lemma_attrs_view, lemma_nodes_view, lemma_nodes_view_add, node_view, nodes_view,
};
use crate::text::{
    char_seqs, chars_eq, chars_of, find_char, find_char_exec, is_word, join_chars, join_with, slice_chars,
    split_words, string_from_chars, trim, trim_chars, words, words_state,
};

verus! {

/// What a transform does to each element its selector matches.
#[derive(Debug, Clone, Copy, PartialEq, Eq, Structural)]
pub enum DomAction {
    /// Remove the element with its subtree.
    Remove,
    /// Replace the element by its children.
    Unwrap,
    /// Add the argument to the element's classes.
    AddClass,
    /// Remove the argument from the element's classes.
    RemoveClass,
    /// Set an attribute; the argument is `name=value`.
    SetAttr,
    /// Remove the attribute the argument names.
    RemoveAttr,
    /// Replace the element's children by one text node, the argument.
    SetText,
}

/// One transform.
#[derive(Debug, Clone)]
pub struct DomTransformSpec {
    pub name: String,
    pub selector: String,
    pub action: DomAction,
    pub arg: Option<String>,
}

/// One element a transform acted on.
#[derive(Debug, Clone)]
pub struct TransformHit {
    /// The transform's name.
    pub transform: String,
    pub action: DomAction,
    /// The element's tag; for a removal, the selector without its leading
    /// `.` and `#` marks.
    pub tag: String,
}

/// The elements that transforms acted on, in order.
#[derive(Debug)]
pub struct TransformReport {
    pub applied: Vec<TransformHit>,
}

/// A transform as values.
pub struct SpecView {
    pub name: Seq<char>,
    pub selector: Seq<char>,
    pub action: DomAction,
    pub arg: Option<Seq<char>>,
}

/// A report entry as values.
pub struct HitView {
    pub transform: Seq<char>,
    pub action: DomAction,
    pub tag: Seq<char>,
}

impl View for DomTransformSpec {
    type V = SpecView;

    open spec fn view(&self) -> SpecView {
        SpecView {
            name: self.name@,
            selector: self.selector@,
            action: self.action,
            arg: match self.arg {
                Some(a) => Some(a@),
                None => None,
            },
        }
    }
}

impl View for TransformHit {
    type V = HitView;

    open spec fn view(&self) -> HitView {
        HitView { transform: self.transform@, action: self.action, tag: self.tag@ }
    }
}

pub open spec fn specs_view(ts: Seq<DomTransformSpec>) -> Seq<SpecView> {
    ts.map_values(|t: DomTransformSpec| t@)
}

pub open spec fn hits_view(hs: Seq<TransformHit>) -> Seq<HitView> {
    hs.map_values(|h: TransformHit| h@)
}

// ---------------------------------------------------------------------------
// Selectors
// ---------------------------------------------------------------------------

/// Two characters equal when ASCII letters are folded to one case.
pub open spec fn char_eq_ignore_case(x: char, y: char) -> bool {
    ||| x == y
    ||| ('A' <= x <= 'Z' && y as int == x as int + 32)
    ||| ('a' <= x <= 'z' && y as int == x as int - 32)
}

/// Two strings equal when ASCII letters are folded to one case.
pub open spec fn eq_ignore_case(a: Seq<char>, b: Seq<char>) -> bool {
    &&& a.len() == b.len()
    &&& forall|i: int| 0 <= i < a.len() ==> char_eq_ignore_case(#[trigger] a[i], b[i])
}

/// Whether a node is an element that a selector matches: `.c` an element
/// with the class `c`, `#i` one with the id `i`, anything else one with
/// that tag; the selector is trimmed first.
pub open spec fn selects(n: NodeView, selector: Seq<char>) -> bool {
    match n {
        NodeView::Element { tag, attrs, .. } => {
            let s = trim(selector);
            if s.len() > 0 && s[0] == '.' {
                match attr_lookup(attrs, "class"@) {
                    Some(v) => words(v).contains(s.drop_first()),
                    None => false,
                }
            } else if s.len() > 0 && s[0] == '#' {
                attr_lookup(attrs, "id"@) == Some(s.drop_first())
            } else {
                eq_ignore_case(tag, s)
            }
        },
        _ => false,
    }
}

/// The selector without its leading `.` and `#` marks.
pub open spec fn selector_tag(s: Seq<char>) -> Seq<char>
    decreases s.len(),
{
    if s.len() > 0 && (s[0] == '.' || s[0] == '#') {
        selector_tag(s.drop_first())
    } else {
        s
    }
}

// ---------------------------------------------------------------------------
// Attribute and class edits
// ---------------------------------------------------------------------------

/// The attributes with `name` set to `value`: the first attribute of that
/// name changes, or a new one comes last.
pub open spec fn attrs_set(a: Seq<(Seq<char>, Seq<char>)>, name: Seq<char>, value: Seq<char>) -> Seq<
    (Seq<char>, Seq<char>),
> {
    match attr_position(a, name) {
        Some(i) => a.update(i, (name, value)),
        None => a.push((name, value)),
    }
}

/// The attributes without those named `name`.
pub open spec fn attrs_remove(a: Seq<(Seq<char>, Seq<char>)>, name: Seq<char>) -> Seq<
    (Seq<char>, Seq<char>),
>
    decreases a.len(),
{
    if a.len() == 0 {
        a
    } else if a.last().0 == name {
        attrs_remove(a.drop_last(), name)
    } else {
        attrs_remove(a.drop_last(), name).push(a.last())
    }
}

/// The words other than `w`, in order.
pub open spec fn without_word(ws: Seq<Seq<char>>, w: Seq<char>) -> Seq<Seq<char>>
    decreases ws.len(),
{
    if ws.len() == 0 {
        ws
    } else if ws.last() == w {
        without_word(ws.drop_last(), w)
    } else {
        without_word(ws.drop_last(), w).push(ws.last())
    }
}

/// The attributes with `class` added to the class list, unless it is there.
pub open spec fn with_class(a: Seq<(Seq<char>, Seq<char>)>, class: Seq<char>) -> Seq<
    (Seq<char>, Seq<char>),
> {
    let cur = match attr_lookup(a, "class"@) {
        Some(v) => v,
        None => seq![],
    };
    if words(cur).contains(class) {
        a
    } else {
        attrs_set(a, "class"@, if cur.len() == 0 { class } else { cur + seq![' '] + class })
    }
}

/// The attributes with `class` taken out of the class list; an empty list
/// removes the attribute.
pub open spec fn without_class(a: Seq<(Seq<char>, Seq<char>)>, class: Seq<char>) -> Seq<
    (Seq<char>, Seq<char>),
> {
    match attr_lookup(a, "class"@) {
        None => a,
        Some(cur) => {
            let rest = without_word(words(cur), class);
            if rest.len() == 0 {
                attrs_remove(a, "class"@)
            } else {
                attrs_set(a, "class"@, join_with(rest, seq![' ']))
            }
        },
    }
}

/// `name=value` split at its first `=`.
pub open spec fn split_assignment(a: Seq<char>) -> Option<(Seq<char>, Seq<char>)> {
    match find_char(a, '=') {
        Some(i) => Some((a.subrange(0, i), a.subrange(i + 1, a.len() as int))),
        None => None,
    }
}


fn char_eq_ignore_case_exec(x: char, y: char) -> (r: bool)
    ensures
        r == char_eq_ignore_case(x, y),
{
    let a = x as u32;
    let b = y as u32;
    a == b || ('A' <= x && x <= 'Z' && b == a + 32) || ('a' <= x && x <= 'z' && b + 32 == a)
}

/// Whether two strings are equal when ASCII letters are folded to one case.
pub fn eq_ignore_ascii_case(a: &[char], b: &[char]) -> (r: bool)
    ensures
        r == eq_ignore_case(a@, b@),
{
    if a.len() != b.len() {
        return false;
    }
    let mut i: usize = 0;
    while i < a.len()
        invariant
            a@.len() == b@.len(),
            i <= a@.len(),
            forall|k: int| 0 <= k < i ==> char_eq_ignore_case(#[trigger] a@[k], b@[k]),
        decreases a@.len() - i,
    {
        if !char_eq_ignore_case_exec(a[i], b[i]) {
            return false;
        }
        i = i + 1;
    }
    true
}

fn contains_word(ws: &Vec<Vec<char>>, w: &[char]) -> (r: bool)
    ensures
        r == char_seqs(ws@).contains(w@),
{
    let mut i: usize = 0;
    while i < ws.len()
        invariant
            i <= ws@.len(),
            char_seqs(ws@).len() == ws@.len(),
            forall|k: int| 0 <= k < i ==> char_seqs(ws@)[k] != w@,
        decreases ws@.len() - i,
    {
        if chars_eq(ws[i].as_slice(), w) {
            assert(char_seqs(ws@)[i as int] == w@);
            return true;
        }
        i = i + 1;
    }
    false
}

/// Whether `node` is an element that `selector` matches.
pub fn matches_element(node: &Node, selector: &str) -> (r: bool)
    ensures
        r == selects(node@, selector@),
{
    match &node.kind {
        NodeKind::Element(el) => {
            proof {
                lemma_attrs_view(el.attrs@, "class"@);
                lemma_attrs_view(el.attrs@, "id"@);
            }
            let sc = chars_of(selector);
            let s = trim_chars(sc.as_slice());
            if s.len() > 0 && s[0] == '.' {
                let class = slice_chars(s.as_slice(), 1, s.len());
                assert(class@ =~= s@.drop_first());
                match el.get_attr("class") {
                    Some(v) => {
                        let ws = split_words(chars_of(v.as_str()).as_slice());
                        contains_word(&ws, class.as_slice())
                    },
                    None => false,
                }
            } else if s.len() > 0 && s[0] == '#' {
                let id = slice_chars(s.as_slice(), 1, s.len());
                assert(id@ =~= s@.drop_first());
                match el.get_attr("id") {
                    Some(v) => chars_eq(chars_of(v.as_str()).as_slice(), id.as_slice()),
                    None => false,
                }
            } else {
                eq_ignore_ascii_case(chars_of(el.tag.as_str()).as_slice(), s.as_slice())
            }
        },
        _ => false,
    }
}

proof fn lemma_selector_tag_skip(s: Seq<char>, i: int)
    requires
        0 <= i <= s.len(),
        forall|k: int| 0 <= k < i ==> s[k] == '.' || s[k] == '#',
    ensures
        selector_tag(s) == selector_tag(s.skip(i)),
    decreases i,
{
    if i > 0 {
        assert(s.skip(1) =~= s.drop_first());
        lemma_selector_tag_skip(s.drop_first(), i - 1);
        assert(s.drop_first().skip(i - 1) =~= s.skip(i));
    } else {
        assert(s.skip(0) =~= s);
    }
}

/// The selector without its leading `.` and `#` marks.
pub fn selector_tag_exec(selector: &str) -> (r: String)
    ensures
        r@ == selector_tag(selector@),
{
    let s = chars_of(selector);
    let mut i: usize = 0;
    while i < s.len() && (s[i] == '.' || s[i] == '#')
        invariant
            i <= s@.len(),
            forall|k: int| 0 <= k < i ==> s@[k] == '.' || s@[k] == '#',
        decreases s@.len() - i,
    {
        i = i + 1;
    }
    proof {
        lemma_selector_tag_skip(s@, i as int);
        assert(s@.skip(i as int) =~= s@.subrange(i as int, s@.len() as int));
    }
    string_from_chars(slice_chars(s.as_slice(), i, s.len()).as_slice())
}


/// What an in-place action makes of an element, when its argument allows it.
pub open spec fn in_place(n: NodeView, t: SpecView) -> Option<NodeView> {
    match n {
        NodeView::Element { tag, attrs, children } => match t.arg {
            None => None,
            Some(a) => match t.action {
                DomAction::AddClass => Some(
                    NodeView::Element { tag, attrs: with_class(attrs, a), children },
                ),
                DomAction::RemoveClass => Some(
                    NodeView::Element { tag, attrs: without_class(attrs, a), children },
                ),
                DomAction::SetAttr => match split_assignment(a) {
                    Some(kv) => Some(
                        NodeView::Element { tag, attrs: attrs_set(attrs, kv.0, kv.1), children },
                    ),
                    None => None,
                },
                DomAction::RemoveAttr => Some(
                    NodeView::Element { tag, attrs: attrs_remove(attrs, a), children },
                ),
                DomAction::SetText => Some(
                    NodeView::Element { tag, attrs, children: seq![NodeView::Text(a)] },
                ),
                _ => None,
            },
        },
        _ => None,
    }
}

/// The tag of an element; empty for other nodes.
pub open spec fn tag_of(n: NodeView) -> Seq<char> {
    match n {
        NodeView::Element { tag, .. } => tag,
        _ => seq![],
    }
}

/// The report entry of transform `t` for an element with tag `tag`.
pub open spec fn hit(t: SpecView, tag: Seq<char>) -> HitView {
    HitView { transform: t.name, action: t.action, tag }
}

fn copy_chars(v: &Vec<char>) -> (r: Vec<char>)
    ensures
        r@ == v@,
{
    slice_chars(v.as_slice(), 0, v.len())
}

pub(crate) fn set_attr_pair(attrs: &mut Vec<(String, String)>, name: String, value: String)
    ensures
        attrs_view(final(attrs)@) == attrs_set(attrs_view(old(attrs)@), name@, value@),
{
    proof {
        lemma_attrs_view(attrs@, name@);
        crate::dom::lemma_attr_index(attrs@, name@);
    }
    let ghost a0 = attrs@;
    let key = chars_of(name.as_str());
    match find_attr(attrs, key.as_slice()) {
        Some(i) => {
            attrs.set(i, (name, value));
            assert(attrs_view(attrs@) =~= attrs_view(a0).update(i as int, (name@, value@)));
        },
        None => {
            attrs.push((name, value));
            assert(attrs_view(attrs@) =~= attrs_view(a0).push((name@, value@)));
        },
    }
}

fn remove_attr_pairs(attrs: &Vec<(String, String)>, name: &[char]) -> (r: Vec<(String, String)>)
    ensures
        attrs_view(r@) == attrs_remove(attrs_view(attrs@), name@),
{
    let mut out: Vec<(String, String)> = Vec::new();
    let mut i: usize = 0;
    assert(attrs_view(attrs@.take(0)) =~= Seq::<(Seq<char>, Seq<char>)>::empty());
    while i < attrs.len()
        invariant
            i <= attrs@.len(),
            attrs_view(out@) == attrs_remove(attrs_view(attrs@.take(i as int)), name@),
        decreases attrs@.len() - i,
    {
        let ghost before = out@;
        assert(attrs_view(attrs@.take(i + 1)).drop_last() =~= attrs_view(attrs@.take(i as int)));
        assert(attrs_view(attrs@.take(i + 1)).last() == (attrs@[i as int].0@, attrs@[i as int].1@));
        let k = chars_of(attrs[i].0.as_str());
        if !chars_eq(k.as_slice(), name) {
            out.push((attrs[i].0.clone(), attrs[i].1.clone()));
            assert(attrs_view(out@) =~= attrs_view(before).push((attrs@[i as int].0@, attrs@[i as int].1@)));
        }
        i = i + 1;
    }
    assert(attrs@.take(attrs@.len() as int) =~= attrs@);
    out
}

fn without_word_exec(ws: &Vec<Vec<char>>, w: &[char]) -> (r: Vec<Vec<char>>)
    ensures
        char_seqs(r@) == without_word(char_seqs(ws@), w@),
{
    let mut out: Vec<Vec<char>> = Vec::new();
    let mut i: usize = 0;
    assert(char_seqs(ws@.take(0)) =~= Seq::<Seq<char>>::empty());
    while i < ws.len()
        invariant
            i <= ws@.len(),
            char_seqs(out@) == without_word(char_seqs(ws@.take(i as int)), w@),
        decreases ws@.len() - i,
    {
        let ghost before = out@;
        assert(char_seqs(ws@.take(i + 1)).drop_last() =~= char_seqs(ws@.take(i as int)));
        assert(char_seqs(ws@.take(i + 1)).last() == ws@[i as int]@);
        if !chars_eq(ws[i].as_slice(), w) {
            let c = copy_chars(&ws[i]);
            out.push(c);
            assert(char_seqs(out@) =~= char_seqs(before).push(ws@[i as int]@));
        }
        i = i + 1;
    }
    assert(ws@.take(ws@.len() as int) =~= ws@);
    out
}

/// The current class list: the value of the first `class` attribute, or
/// nothing.
fn class_chars(attrs: &Vec<(String, String)>) -> (r: Option<Vec<char>>)
    ensures
        match r {
            Some(v) => attr_lookup(attrs_view(attrs@), "class"@) == Some(v@),
            None => attr_lookup(attrs_view(attrs@), "class"@) is None,
        },
{
    proof {
        lemma_attrs_view(attrs@, "class"@);
        crate::dom::lemma_attr_index(attrs@, "class"@);
    }
    let key = chars_of("class");
    match find_attr(attrs, key.as_slice()) {
        Some(i) => Some(chars_of(attrs[i].1.as_str())),
        None => None,
    }
}

fn add_class(attrs: &mut Vec<(String, String)>, class: &str)
    ensures
        attrs_view(final(attrs)@) == with_class(attrs_view(old(attrs)@), class@),
{
    let cur = match class_chars(attrs) {
        Some(v) => v,
        None => Vec::new(),
    };
    let cls = chars_of(class);
    let ws = split_words(cur.as_slice());
    if contains_word(&ws, cls.as_slice()) {
        return;
    }
    let mut value = copy_chars(&cur);
    if cur.len() > 0 {
        value.push(' ');
    }
    crate::text::push_chars(&mut value, cls.as_slice());
    assert(value@ =~= (if cur@.len() == 0 { class@ } else { cur@ + seq![' '] + class@ }));
    set_attr_pair(attrs, string_from_chars(chars_of("class").as_slice()), string_from_chars(value.as_slice()));
}

fn remove_class(attrs: &mut Vec<(String, String)>, class: &str)
    ensures
        attrs_view(final(attrs)@) == without_class(attrs_view(old(attrs)@), class@),
{
    let cur = match class_chars(attrs) {
        Some(v) => v,
        None => {
            return;
        },
    };
    let cls = chars_of(class);
    let ws = split_words(cur.as_slice());
    let rest = without_word_exec(&ws, cls.as_slice());
    if rest.len() == 0 {
        let key = chars_of("class");
        let kept = remove_attr_pairs(attrs, key.as_slice());
        *attrs = kept;
    } else {
        let sep = vec![' '];
        assert(sep@ =~= seq![' ']);
        let joined = join_chars(&rest, sep.as_slice());
        set_attr_pair(attrs, string_from_chars(chars_of("class").as_slice()), string_from_chars(joined.as_slice()));
    }
}


/// Apply an in-place action to an element: the new node, and the report
/// entry when the action applied.
fn apply_in_place(node: Node, t: &DomTransformSpec) -> (r: (Node, Option<TransformHit>))
    ensures
        match in_place(node@, t@) {
            Some(d) => r.0@ == d && (r.1 matches Some(h) && h@ == hit(t@, tag_of(node@))),
            None => r.0@ == node@ && r.1 is None,
        },
{
    match node.kind {
        NodeKind::Element(el) => {
            let Element { tag, mut attrs, mut children } = el;
            let arg = match &t.arg {
                Some(a) => a,
                None => {
                    return (Node { kind: NodeKind::Element(Element { tag, attrs, children }) }, None);
                },
            };
            match t.action {
                DomAction::AddClass => add_class(&mut attrs, arg.as_str()),
                DomAction::RemoveClass => remove_class(&mut attrs, arg.as_str()),
                DomAction::SetAttr => {
                    let ac = chars_of(arg.as_str());
                    match find_char_exec(ac.as_slice(), '=') {
                        Some(i) => {
                            let n = ac.len();
                            assert(i < n);
                            let k = slice_chars(ac.as_slice(), 0, i);
                            let v = slice_chars(ac.as_slice(), i + 1, n);
                            set_attr_pair(
                                &mut attrs,
                                string_from_chars(k.as_slice()),
                                string_from_chars(v.as_slice()),
                            );
                        },
                        None => {
                            return (
                                Node { kind: NodeKind::Element(Element { tag, attrs, children }) },
                                None,
                            );
                        },
                    }
                },
                DomAction::RemoveAttr => {
                    let key = chars_of(arg.as_str());
                    attrs = remove_attr_pairs(&attrs, key.as_slice());
                },
                DomAction::SetText => {
                    let text = Node { kind: NodeKind::Text(arg.clone()) };
                    children = vec![text];
                    proof {
                        lemma_nodes_view(children@);
                        assert(nodes_view(children@) =~= seq![NodeView::Text(arg@)]);
                    }
                },
                _ => {
                    return (Node { kind: NodeKind::Element(Element { tag, attrs, children }) }, None);
                },
            }
            let h = TransformHit { transform: t.name.clone(), action: t.action, tag: tag.clone() };
            (Node { kind: NodeKind::Element(Element { tag, attrs, children }) }, Some(h))
        },
        NodeKind::Text(x) => (Node { kind: NodeKind::Text(x) }, None),
        NodeKind::Comment(x) => (Node { kind: NodeKind::Comment(x) }, None),
    }
}


/// What transform `t` makes of one child of a node (already transformed
/// below): the nodes that take its place and the report entries.
pub open spec fn level_one(c: NodeView, t: SpecView) -> (Seq<NodeView>, Seq<HitView>) {
    if !selects(c, t.selector) {
        (seq![c], seq![])
    } else {
        match t.action {
            DomAction::Remove => (seq![], seq![hit(t, selector_tag(t.selector))]),
            DomAction::Unwrap => match c {
                NodeView::Element { tag, children, .. } => (children, seq![hit(t, tag)]),
                _ => (seq![], seq![hit(t, seq![])]),
            },
            _ => match in_place(c, t) {
                Some(d) => (seq![d], seq![hit(t, tag_of(c))]),
                None => (seq![c], seq![]),
            },
        }
    }
}

/// What transform `t` makes of the children of a node, in order.
pub open spec fn level_all(cs: Seq<NodeView>, t: SpecView) -> (Seq<NodeView>, Seq<HitView>)
    decreases cs.len(),
{
    if cs.len() == 0 {
        (seq![], seq![])
    } else {
        let p = level_all(cs.drop_last(), t);
        let q = level_one(cs.last(), t);
        (p.0 + q.0, p.1 + q.1)
    }
}

/// A node with transform `t` applied to its subtree: the subtrees of its
/// children first, then its children; with the report entries in that
/// order.
pub open spec fn transformed(n: NodeView, t: SpecView) -> (NodeView, Seq<HitView>)
    decreases n, 0nat,
{
    match n {
        NodeView::Element { tag, attrs, children } => {
            let inner = transformed_all(children, t);
            let lv = level_all(inner.0, t);
            (NodeView::Element { tag, attrs, children: lv.0 }, inner.1 + lv.1)
        },
        _ => (n, seq![]),
    }
}

/// The nodes `cs` each with transform `t` applied to its subtree.
pub open spec fn transformed_all(cs: Seq<NodeView>, t: SpecView) -> (Seq<NodeView>, Seq<HitView>)
    decreases cs, 1nat,
{
    if cs.len() == 0 {
        (seq![], seq![])
    } else {
        let p = transformed_all(cs.subrange(0, cs.len() - 1), t);
        let q = transformed(cs[cs.len() - 1], t);
        (p.0.push(q.0), p.1 + q.1)
    }
}

/// A tree with the transforms `ts` applied one after the other, with all
/// their report entries in order.
pub open spec fn apply_all(n: NodeView, ts: Seq<SpecView>) -> (NodeView, Seq<HitView>)
    decreases ts.len(),
{
    if ts.len() == 0 {
        (n, seq![])
    } else {
        let p = apply_all(n, ts.drop_last());
        let q = transformed(p.0, ts.last());
        (q.0, p.1 + q.1)
    }
}

proof fn lemma_push_node(out: Seq<Node>, c: Node)
    ensures
        nodes_view(out.push(c)) == nodes_view(out).push(node_view(c)),
{
    assert(out.push(c).subrange(0, out.len() as int) =~= out);
}

proof fn lemma_hits_add(a: Seq<TransformHit>, b: Seq<TransformHit>)
    ensures
        hits_view(a + b) == hits_view(a) + hits_view(b),
{
    assert(hits_view(a + b) =~= hits_view(a) + hits_view(b));
}

proof fn lemma_hits_push(a: Seq<TransformHit>, h: TransformHit)
    ensures
        hits_view(a.push(h)) == hits_view(a).push(h@),
{
    assert(hits_view(a.push(h)) =~= hits_view(a).push(h@));
}

/// Append to `out` and `hits` what transform `t` makes of child `c`.
fn level_one_exec(c: Node, t: &DomTransformSpec, out: &mut Vec<Node>, hits: &mut Vec<TransformHit>)
    ensures
        nodes_view(final(out)@) == nodes_view(old(out)@) + level_one(c@, t@).0,
        hits_view(final(hits)@) == hits_view(old(hits)@) + level_one(c@, t@).1,
{
    let ghost cv = c@;
    let ghost o0 = out@;
    let ghost h0 = hits@;
    if !matches_element(&c, t.selector.as_str()) {
        proof {
            lemma_push_node(out@, c);
        }
        out.push(c);
        assert(nodes_view(o0) + seq![cv] =~= nodes_view(o0).push(cv));
        assert(hits_view(h0) + seq![] =~= hits_view(h0));
        return;
    }
    match t.action {
        DomAction::Remove => {
            let h = TransformHit {
                transform: t.name.clone(),
                action: t.action,
                tag: selector_tag_exec(t.selector.as_str()),
            };
            proof {
                lemma_hits_push(hits@, h);
            }
            hits.push(h);
            assert(nodes_view(o0) + seq![] =~= nodes_view(o0));
            assert(hits_view(h0) + seq![h@] =~= hits_view(h0).push(h@));
        },
        DomAction::Unwrap => {
            match c.kind {
                NodeKind::Element(el) => {
                    let Element { tag, attrs: _, mut children } = el;
                    let h = TransformHit { transform: t.name.clone(), action: t.action, tag };
                    proof {
                        lemma_hits_push(hits@, h);
                        lemma_nodes_view_add(out@, children@);
                    }
                    hits.push(h);
                    out.append(&mut children);
                    assert(hits_view(h0) + seq![h@] =~= hits_view(h0).push(h@));
                },
                _ => {
                    let h = TransformHit { transform: t.name.clone(), action: t.action, tag: String::new() };
                    proof {
                        lemma_hits_push(hits@, h);
                    }
                    hits.push(h);
                    assert(nodes_view(o0) + seq![] =~= nodes_view(o0));
                    assert(hits_view(h0) + seq![h@] =~= hits_view(h0).push(h@));
                },
            }
        },
        _ => {
            let (d, oh) = apply_in_place(c, t);
            proof {
                lemma_push_node(out@, d);
            }
            out.push(d);
            match oh {
                Some(h) => {
                    proof {
                        lemma_hits_push(hits@, h);
                    }
                    hits.push(h);
                    assert(hits_view(h0) + seq![h@] =~= hits_view(h0).push(h@));
                },
                None => {
                    assert(hits_view(h0) + seq![] =~= hits_view(h0));
                },
            }
            assert(nodes_view(o0) + seq![d@] =~= nodes_view(o0).push(d@));
        },
    }
}


proof fn lemma_level_all_add(a: Seq<NodeView>, c: NodeView, t: SpecView)
    ensures
        level_all(a.push(c), t) == ((level_all(a, t).0 + level_one(c, t).0, level_all(a, t).1
            + level_one(c, t).1)),
{
    assert(a.push(c).drop_last() =~= a);
}

proof fn lemma_transformed_all_take(v: Seq<NodeView>, i: int, t: SpecView)
    requires
        0 <= i < v.len(),
    ensures
        transformed_all(v.take(i + 1), t) == ((transformed_all(v.take(i), t).0.push(
            transformed(v[i], t).0,
        ), transformed_all(v.take(i), t).1 + transformed(v[i], t).1)),
{
    assert(v.take(i + 1).subrange(0, i) =~= v.take(i));
}

/// Apply transform `t` to the subtree of `node`, appending the report
/// entries to `hits`.
fn apply_one(node: Node, t: &DomTransformSpec, hits: &mut Vec<TransformHit>) -> (r: Node)
    ensures
        r@ == transformed(node@, t@).0,
        hits_view(final(hits)@) == hits_view(old(hits)@) + transformed(node@, t@).1,
    decreases node,
{
    let ghost g = node;
    match node.kind {
        NodeKind::Element(el) => {
            let ghost ge = el;
            let Element { tag, attrs, mut children } = el;
            let ghost cs0 = children@;
            let ghost v = nodes_view(cs0);
            let ghost h0 = hits@;
            proof {
                lemma_nodes_view(cs0);
                assert(v.take(0) =~= Seq::<NodeView>::empty());
            }
            let mut out: Vec<Node> = Vec::new();
            let mut level_hits: Vec<TransformHit> = Vec::new();
            let mut i: usize = 0;
            while i < children.len()
                invariant
                    g == node,
                    g.kind == NodeKind::Element(ge),
                    ge.children@ == cs0,
                    v == nodes_view(cs0),
                    v.len() == cs0.len(),
                    forall|k: int| 0 <= k < cs0.len() ==> #[trigger] v[k] == node_view(cs0[k]),
                    children@.len() == cs0.len(),
                    i <= cs0.len(),
                    forall|k: int| i <= k < cs0.len() ==> children@[k] == cs0[k],
                    nodes_view(out@) == level_all(transformed_all(v.take(i as int), t@).0, t@).0,
                    hits_view(level_hits@) == level_all(transformed_all(v.take(i as int), t@).0, t@).1,
                    hits_view(hits@) == hits_view(h0) + transformed_all(v.take(i as int), t@).1,
                decreases cs0.len() - i,
            {
                let mut slot = Node { kind: NodeKind::Comment(String::new()) };
                children.set_and_swap(i, &mut slot);
                assert(slot == cs0[i as int]);
                assert(decreases_to!(g => slot)) by {
                    assert(decreases_to!(g => g.kind));
                    assert(decreases_to!(g.kind => g.kind->Element_0));
                    assert(decreases_to!(ge => ge.children));
                    assert(decreases_to!(ge.children => ge.children@));
                    assert(decreases_to!(cs0 => cs0[i as int]));
                }
                let c2 = apply_one(slot, t, hits);
                proof {
                    lemma_transformed_all_take(v, i as int, t@);
                    lemma_level_all_add(transformed_all(v.take(i as int), t@).0, c2@, t@);
                    assert(hits_view(h0) + transformed_all(v.take(i as int), t@).1 + transformed(v[i as int], t@).1
                        =~= hits_view(h0) + transformed_all(v.take(i + 1), t@).1);
                }
                level_one_exec(c2, t, &mut out, &mut level_hits);
                i = i + 1;
            }
            proof {
                assert(v.take(cs0.len() as int) =~= v);
                lemma_hits_add(hits@, level_hits@);
            }
            hits.append(&mut level_hits);
            let r = Node { kind: NodeKind::Element(Element { tag, attrs, children: out }) };
            assert(hits_view(h0) + transformed_all(v, t@).1 + level_all(transformed_all(v, t@).0, t@).1
                =~= hits_view(h0) + transformed(g@, t@).1);
            r
        },
        NodeKind::Text(x) => {
            assert(hits_view(hits@) =~= hits_view(hits@) + seq![]);
            Node { kind: NodeKind::Text(x) }
        },
        NodeKind::Comment(x) => {
            assert(hits_view(hits@) =~= hits_view(hits@) + seq![]);
            Node { kind: NodeKind::Comment(x) }
        },
    }
}


/// Apply the transforms to a document, one after the other, each to the
/// whole tree.
pub fn apply(doc: &mut Document, transforms: &[DomTransformSpec]) -> (r: TransformReport)
    ensures
        final(doc).root@ == apply_all(old(doc).root@, specs_view(transforms@)).0,
        hits_view(r.applied@) == apply_all(old(doc).root@, specs_view(transforms@)).1,
{
    let mut root = Node { kind: NodeKind::Comment(String::new()) };
    std::mem::swap(&mut root, &mut doc.root);
    let ghost r0 = root@;
    let ghost ts = specs_view(transforms@);
    let mut hits: Vec<TransformHit> = Vec::new();
    let mut i: usize = 0;
    assert(ts.take(0) =~= Seq::<SpecView>::empty());
    assert(hits_view(hits@) =~= Seq::<HitView>::empty());
    while i < transforms.len()
        invariant
            i <= transforms@.len(),
            ts == specs_view(transforms@),
            root@ == apply_all(r0, ts.take(i as int)).0,
            hits_view(hits@) == apply_all(r0, ts.take(i as int)).1,
        decreases transforms@.len() - i,
    {
        assert(ts.take(i + 1).drop_last() =~= ts.take(i as int));
        assert(ts.take(i + 1).last() == transforms@[i as int]@);
        root = apply_one(root, &transforms[i], &mut hits);
        i = i + 1;
    }
    assert(ts.take(transforms@.len() as int) =~= ts);
    doc.root = root;
    TransformReport { applied: hits }
}

/// A bundle of transforms, applied in order.
#[derive(Debug)]
pub struct TransformSet {
    pub specs: Vec<DomTransformSpec>,
}

impl Default for TransformSet {
    fn default() -> (r: Self)
        ensures
            r.specs@.len() == 0,
    {
        TransformSet { specs: Vec::new() }
    }
}

impl TransformSet {
    /// Apply every transform to a document, in order.
    pub fn apply(&self, doc: &mut Document) -> (r: TransformReport)
        ensures
            final(doc).root@ == apply_all(old(doc).root@, specs_view(self.specs@)).0,
            hits_view(r.applied@) == apply_all(old(doc).root@, specs_view(self.specs@)).1,
    {
        apply(doc, self.specs.as_slice())
    }

    /// The number of transforms.
    pub fn len(&self) -> (r: usize)
        ensures
            r == self.specs@.len(),
    {
        self.specs.len()
    }

    /// Whether there are no transforms.
    pub fn is_empty(&self) -> (r: bool)
        ensures
            r == (self.specs@.len() == 0),
    {
        self.specs.len() == 0
    }
}


// ---------------------------------------------------------------------------
// Adding a class twice
// ---------------------------------------------------------------------------

proof fn lemma_words_state_word(s: Seq<char>, w: Seq<char>, k: int)
    requires
        is_word(w),
        0 <= k <= w.len(),
    ensures
        words_state(s + seq![' '] + w.take(k)) == (words(s), w.take(k)),
    decreases k,
{
    if k == 0 {
        assert(s + seq![' '] + w.take(0) =~= s.push(' '));
        assert(s.push(' ').drop_last() =~= s);
    } else {
        lemma_words_state_word(s, w, k - 1);
        let x = s + seq![' '] + w.take(k);
        assert(x.drop_last() =~= s + seq![' '] + w.take(k - 1));
        assert(x.last() == w[k - 1]);
        assert(w.take(k - 1).push(w[k - 1]) =~= w.take(k));
    }
}

/// The words of a string followed by a space and a word.
proof fn lemma_words_append_word(s: Seq<char>, w: Seq<char>)
    requires
        is_word(w),
    ensures
        words(s + seq![' '] + w) == words(s).push(w),
{
    lemma_words_state_word(s, w, w.len() as int);
    assert(w.take(w.len() as int) =~= w);
}

proof fn lemma_words_state_alone(w: Seq<char>, k: int)
    requires
        is_word(w),
        0 <= k <= w.len(),
    ensures
        words_state(w.take(k)) == (Seq::<Seq<char>>::empty(), w.take(k)),
    decreases k,
{
    if k > 0 {
        lemma_words_state_alone(w, k - 1);
        assert(w.take(k).drop_last() =~= w.take(k - 1));
    }
}

/// A word's only word is itself.
proof fn lemma_words_of_word(w: Seq<char>)
    requires
        is_word(w),
    ensures
        words(w) == seq![w],
{
    lemma_words_state_alone(w, w.len() as int);
    assert(w.take(w.len() as int) =~= w);
    assert(Seq::<Seq<char>>::empty().push(w) =~= seq![w]);
}

proof fn lemma_lookup_first(b: Seq<(Seq<char>, Seq<char>)>, name: Seq<char>, j: int)
    requires
        0 <= j < b.len(),
        b[j].0 == name,
        forall|i: int| 0 <= i < j ==> b[i].0 != name,
    ensures
        attr_lookup(b, name) == Some(b[j].1),
    decreases j,
{
    if j > 0 {
        lemma_lookup_first(b.drop_first(), name, j - 1);
    }
}

proof fn lemma_lookup_absent(b: Seq<(Seq<char>, Seq<char>)>, name: Seq<char>)
    requires
        forall|i: int| 0 <= i < b.len() ==> b[i].0 != name,
    ensures
        attr_lookup(b, name) is None,
    decreases b.len(),
{
    if b.len() > 0 {
        lemma_lookup_absent(b.drop_first(), name);
    }
}

proof fn lemma_position(b: Seq<(Seq<char>, Seq<char>)>, name: Seq<char>)
    ensures
        match attr_position(b, name) {
            Some(i) => 0 <= i < b.len() && b[i].0 == name && forall|k: int|
                0 <= k < i ==> b[k].0 != name,
            None => forall|k: int| 0 <= k < b.len() ==> b[k].0 != name,
        },
    decreases b.len(),
{
    if b.len() > 0 && b[0].0 != name {
        lemma_position(b.drop_first(), name);
        assert forall|k: int| 1 <= k < b.len() implies b[k] == b.drop_first()[k - 1] by {}
    }
}

/// Setting an attribute: a lookup of it gives the new value, a lookup of
/// another name what it gave before.
proof fn lemma_attrs_set_lookup(a: Seq<(Seq<char>, Seq<char>)>, k: Seq<char>, v: Seq<char>, other: Seq<char>)
    ensures
        attr_lookup(attrs_set(a, k, v), k) == Some(v),
        other != k ==> attr_lookup(attrs_set(a, k, v), other) == attr_lookup(a, other),
{
    lemma_position(a, k);
    lemma_position(a, other);
    let b = attrs_set(a, k, v);
    match attr_position(a, k) {
        Some(i) => {
            lemma_lookup_first(b, k, i);
        },
        None => {
            lemma_lookup_first(b, k, a.len() as int);
        },
    }
    if other != k {
        match attr_position(a, other) {
            Some(j) => {
                lemma_lookup_first(a, other, j);
                lemma_lookup_first(b, other, j);
            },
            None => {
                lemma_lookup_absent(a, other);
                lemma_lookup_absent(b, other);
            },
        }
    }
}


/// A node with other attributes (elements only).
pub open spec fn with_attrs(n: NodeView, a: Seq<(Seq<char>, Seq<char>)>) -> NodeView {
    match n {
        NodeView::Element { tag, children, .. } => NodeView::Element { tag, attrs: a, children },
        _ => n,
    }
}

/// The attributes of a node (none for text and comments).
pub open spec fn attrs_of(n: NodeView) -> Seq<(Seq<char>, Seq<char>)> {
    match n {
        NodeView::Element { attrs, .. } => attrs,
        _ => seq![],
    }
}

/// What adding `class` to the elements `selector` matches makes of one
/// node, its subtree aside.
pub open spec fn class_added(n: NodeView, selector: Seq<char>, class: Seq<char>) -> NodeView {
    if selects(n, selector) {
        with_attrs(n, with_class(attrs_of(n), class))
    } else {
        n
    }
}

proof fn lemma_with_class_twice(a: Seq<(Seq<char>, Seq<char>)>, c: Seq<char>)
    requires
        is_word(c),
    ensures
        with_class(with_class(a, c), c) == with_class(a, c),
{
    let cur = match attr_lookup(a, "class"@) {
        Some(v) => v,
        None => seq![],
    };
    if !words(cur).contains(c) {
        let v = if cur.len() == 0 { c } else { cur + seq![' '] + c };
        lemma_attrs_set_lookup(a, "class"@, v, "class"@);
        if cur.len() == 0 {
            lemma_words_of_word(c);
            assert(words(v)[0] == c);
        } else {
            lemma_words_append_word(cur, c);
            assert(words(v)[words(v).len() - 1] == c);
        }
    }
}

proof fn lemma_selects_after_class(n: NodeView, sel: Seq<char>, c: Seq<char>)
    requires
        is_word(c),
        selects(n, sel),
    ensures
        selects(with_attrs(n, with_class(attrs_of(n), c)), sel),
{
    reveal_strlit("class");
    reveal_strlit("id");
    let a = attrs_of(n);
    let cur = match attr_lookup(a, "class"@) {
        Some(v) => v,
        None => seq![],
    };
    if !words(cur).contains(c) {
        let v = if cur.len() == 0 { c } else { cur + seq![' '] + c };
        let b = attrs_set(a, "class"@, v);
        assert("id"@ != "class"@) by {
            assert("id"@.len() == 2);
            assert("class"@.len() == 5);
        }
        lemma_attrs_set_lookup(a, "class"@, v, "id"@);
        let s = trim(sel);
        if s.len() > 0 && s[0] == '.' {
            let d = s.drop_first();
            let j = choose|j: int| 0 <= j < words(cur).len() && words(cur)[j] == d;
            assert(cur.len() > 0) by {
                if cur.len() == 0 {
                    assert(words(cur) =~= Seq::<Seq<char>>::empty());
                }
            }
            lemma_words_append_word(cur, c);
            assert(words(v)[j] == d);
            assert(words(v).contains(d));
        } else if s.len() > 0 && s[0] == '#' {
            assert(attr_lookup(b, "id"@) == attr_lookup(a, "id"@));
        }
    }
}

proof fn lemma_transformed_all_parts(cs: Seq<NodeView>, t: SpecView)
    ensures
        transformed_all(cs, t).0.len() == cs.len(),
        forall|i: int| 0 <= i < cs.len() ==> #[trigger] transformed_all(cs, t).0[i] == transformed(cs[i], t).0,
    decreases cs.len(),
{
    if cs.len() > 0 {
        lemma_transformed_all_parts(cs.subrange(0, cs.len() - 1), t);
    }
}

proof fn lemma_level_all_class(cs: Seq<NodeView>, t: SpecView, c: Seq<char>)
    requires
        t.action == DomAction::AddClass,
        t.arg == Some(c),
    ensures
        level_all(cs, t).0.len() == cs.len(),
        forall|i: int| 0 <= i < cs.len() ==> #[trigger] level_all(cs, t).0[i] == class_added(cs[i], t.selector, c),
    decreases cs.len(),
{
    if cs.len() > 0 {
        lemma_level_all_class(cs.drop_last(), t, c);
        let x = cs.last();
        assert(level_one(x, t).0 == seq![class_added(x, t.selector, c)]);
        assert forall|i: int| 0 <= i < cs.len() implies #[trigger] level_all(cs, t).0[i] == class_added(cs[i], t.selector, c) by {
            if i < cs.len() - 1 {
                assert(cs.drop_last()[i] == cs[i]);
            }
        }
    }
}

/// Adding a class (a single word) to the elements a selector matches, once
/// or twice, gives the same tree.
pub proof fn law_add_class_idempotent(n: NodeView, t: SpecView)
    requires
        t.action == DomAction::AddClass,
        t.arg matches Some(c) && is_word(c),
    ensures
        transformed(transformed(n, t).0, t).0 == transformed(n, t).0,
    decreases n,
{
    let c = t.arg->0;
    match n {
        NodeView::Element { tag, attrs, children } => {
            let cs = children;
            let tt = transformed_all(cs, t).0;
            let m = level_all(tt, t).0;
            lemma_transformed_all_parts(cs, t);
            lemma_level_all_class(tt, t, c);
            assert forall|i: int| 0 <= i < cs.len() implies transformed(#[trigger] tt[i], t).0 == tt[i] by {
                law_add_class_idempotent(cs[i], t);
            }
            assert forall|i: int| 0 <= i < m.len() implies transformed(#[trigger] m[i], t).0 == m[i] by {
                assert(transformed(tt[i], t).0 == tt[i]);
            }
            lemma_transformed_all_parts(m, t);
            assert(transformed_all(m, t).0 =~= m);
            lemma_level_all_class(m, t, c);
            assert forall|i: int| 0 <= i < m.len() implies class_added(#[trigger] m[i], t.selector, c) == m[i] by {
                if selects(tt[i], t.selector) {
                    lemma_selects_after_class(tt[i], t.selector, c);
                    lemma_with_class_twice(attrs_of(tt[i]), c);
                }
            }
            assert(level_all(m, t).0 =~= m);
        },
        _ => {},
    }
}


// ---------------------------------------------------------------------------
// Removing and unwrapping leave nothing matched
// ---------------------------------------------------------------------------

/// No element under `n` (`n` aside) matches the selector.
pub open spec fn clear_below(n: NodeView, selector: Seq<char>) -> bool
    decreases n, 0nat,
{
    match n {
        NodeView::Element { children, .. } => clear_all(children, selector),
        _ => true,
    }
}

/// None of the nodes `cs`, nor any element under them, matches the
/// selector.
pub open spec fn clear_all(cs: Seq<NodeView>, selector: Seq<char>) -> bool
    decreases cs, 1nat,
{
    if cs.len() == 0 {
        true
    } else {
        let last = cs[cs.len() - 1];
        clear_all(cs.subrange(0, cs.len() - 1), selector) && !selects(last, selector) && clear_below(
            last,
            selector,
        )
    }
}

proof fn lemma_clear_all(cs: Seq<NodeView>, sel: Seq<char>)
    ensures
        clear_all(cs, sel) <==> forall|i: int|
            0 <= i < cs.len() ==> !selects(#[trigger] cs[i], sel) && clear_below(cs[i], sel),
    decreases cs.len(),
{
    if cs.len() > 0 {
        let p = cs.subrange(0, cs.len() - 1);
        lemma_clear_all(p, sel);
        let all = forall|i: int| 0 <= i < cs.len() ==> !selects(#[trigger] cs[i], sel) && clear_below(cs[i], sel);
        if clear_all(cs, sel) {
            assert forall|i: int| 0 <= i < cs.len() implies !selects(#[trigger] cs[i], sel) && clear_below(cs[i], sel) by {
                if i < cs.len() - 1 {
                    assert(p[i] == cs[i]);
                }
            }
        }
        if all {
            assert forall|i: int| 0 <= i < p.len() implies !selects(#[trigger] p[i], sel) && clear_below(p[i], sel) by {
                assert(p[i] == cs[i]);
            }
            assert(!selects(cs[cs.len() - 1], sel));
        }
    }
}

proof fn lemma_level_all_clears(cs: Seq<NodeView>, t: SpecView)
    requires
        t.action == DomAction::Remove || t.action == DomAction::Unwrap,
        forall|i: int| 0 <= i < cs.len() ==> clear_below(#[trigger] cs[i], t.selector),
    ensures
        forall|j: int|
            0 <= j < level_all(cs, t).0.len() ==> !selects(#[trigger] level_all(cs, t).0[j], t.selector)
                && clear_below(level_all(cs, t).0[j], t.selector),
    decreases cs.len(),
{
    if cs.len() > 0 {
        let p = cs.drop_last();
        assert forall|i: int| 0 <= i < p.len() implies clear_below(#[trigger] p[i], t.selector) by {
            assert(p[i] == cs[i]);
        }
        lemma_level_all_clears(p, t);
        let a = level_all(p, t).0;
        let x = cs.last();
        let b = level_one(x, t).0;
        assert(clear_below(x, t.selector));
        if selects(x, t.selector) && t.action == DomAction::Unwrap {
            match x {
                NodeView::Element { children, .. } => {
                    lemma_clear_all(children, t.selector);
                },
                _ => {},
            }
        }
        assert forall|j: int| 0 <= j < b.len() implies !selects(#[trigger] b[j], t.selector) && clear_below(
            b[j],
            t.selector,
        ) by {}
        assert forall|j: int| 0 <= j < (a + b).len() implies !selects(#[trigger] (a + b)[j], t.selector)
            && clear_below((a + b)[j], t.selector) by {
            if j < a.len() {
                assert((a + b)[j] == a[j]);
            } else {
                assert((a + b)[j] == b[j - a.len()]);
            }
        }
    }
}

/// After removing, or unwrapping, the elements a selector matches, no
/// element under the root matches it.
pub proof fn law_removal_leaves_no_match(n: NodeView, t: SpecView)
    requires
        t.action == DomAction::Remove || t.action == DomAction::Unwrap,
    ensures
        clear_below(transformed(n, t).0, t.selector),
    decreases n,
{
    match n {
        NodeView::Element { tag, attrs, children } => {
            let cs = children;
            let tt = transformed_all(cs, t).0;
            lemma_transformed_all_parts(cs, t);
            assert forall|i: int| 0 <= i < tt.len() implies clear_below(#[trigger] tt[i], t.selector) by {
                law_removal_leaves_no_match(cs[i], t);
            }
            lemma_level_all_clears(tt, t);
            lemma_clear_all(level_all(tt, t).0, t.selector);
        },
        _ => {},
    }
}

} // verus!
