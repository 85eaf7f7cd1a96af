//! The node arena that the HTML tree builder fills.
//!
//! The parser creates nodes one at a time and links each to a parent by
//! index; index 0 is the document node. `finish` turns the arena into a
//! tree: it visits the nodes from the last created down to the document,
//! and gives each element the nodes linked to it, in creation order, that
//! are still free. A node taken by its parent before its own turn loses the
//! nodes linked to it.
use vstd::prelude::*;
use crate::dom::{Element, Node, NodeKind, NodeView, attr_position, attrs_view, lemma_attrs_view, find_attr};
use crate::text::chars_of;

verus! {

/// Nodes in creation order, with the parent link of each.
#[derive(Debug)]
pub struct DomSink {
    nodes: Vec<Node>,
    parents: Vec<Option<usize>>,
}

/// A parent link that names a node of an arena of `len` nodes, or none.
pub open spec fn valid_link(p: Option<usize>, len: nat) -> bool {
    p matches Some(i) ==> i < len
}

/// The children that `finish` gives node `i`: the nodes after the document
/// node, among the first `upto`, linked to `i`, in creation order.
pub open spec fn kids(parents: Seq<Option<usize>>, i: int, upto: int) -> Seq<usize>
    decreases upto,
{
    if upto <= 1 {
        seq![]
    } else {
        let r = kids(parents, i, upto - 1);
        if parents[upto - 1] matches Some(p) && p == i {
            r.push((upto - 1) as usize)
        } else {
            r
        }
    }
}

/// The nodes still free at the positions `ks`, in order.
pub open spec fn gathered(st: Seq<Option<NodeView>>, ks: Seq<usize>) -> Seq<NodeView>
    decreases ks.len(),
{
    if ks.len() == 0 {
        seq![]
    } else {
        let r = gathered(st, ks.drop_last());
        match st[ks.last() as int] {
            Some(n) => r.push(n),
            None => r,
        }
    }
}

/// The state with the positions `ks` emptied.
pub open spec fn cleared(st: Seq<Option<NodeView>>, ks: Seq<usize>) -> Seq<Option<NodeView>> {
    Seq::new(st.len(), |x: int| if ks.contains(x as usize) { None } else { st[x] })
}

/// One turn of `finish`, for node `i`: its linked nodes are taken, and if it
/// is still free and an element, they become its children.
pub open spec fn turn(st: Seq<Option<NodeView>>, parents: Seq<Option<usize>>, i: int) -> Seq<Option<NodeView>> {
    let ks = kids(parents, i, parents.len() as int);
    if ks.len() == 0 {
        st
    } else {
        let got = gathered(st, ks);
        let st1 = cleared(st, ks);
        match st1[i] {
            Some(NodeView::Element { tag, attrs, .. }) => st1.update(
                i,
                Some(NodeView::Element { tag, attrs, children: got }),
            ),
            _ => st1,
        }
    }
}

/// The state after the turns of the nodes from the last down to `k`.
pub open spec fn turns_from(st: Seq<Option<NodeView>>, parents: Seq<Option<usize>>, k: int) -> Seq<Option<NodeView>>
    decreases parents.len() - k,
{
    if k >= parents.len() || k < 0 {
        st
    } else {
        turn(turns_from(st, parents, k + 1), parents, k)
    }
}

/// The document node of an empty document.
pub open spec fn document_view() -> NodeView {
    NodeView::Element { tag: "#document"@, attrs: seq![], children: seq![] }
}

/// Every node in its own slot, before any turn.
pub open spec fn initial_slots(nodes: Seq<NodeView>) -> Seq<Option<NodeView>> {
    nodes.map_values(|n: NodeView| Some(n))
}

/// The tree that `finish` builds from nodes and parent links.
pub open spec fn built_tree(nodes: Seq<NodeView>, parents: Seq<Option<usize>>) -> NodeView {
    let st = turns_from(initial_slots(nodes), parents, 0);
    match st[0] {
        Some(n) => n,
        None => document_view(),
    }
}

/// The attributes with those of `news` added whose names are missing, in
/// order.
pub open spec fn add_missing(a: Seq<(Seq<char>, Seq<char>)>, news: Seq<(Seq<char>, Seq<char>)>) -> Seq<
    (Seq<char>, Seq<char>),
>
    decreases news.len(),
{
    if news.len() == 0 {
        a
    } else {
        let r = add_missing(a, news.drop_last());
        if attr_position(r, news.last().0) is Some {
            r
        } else {
            r.push(news.last())
        }
    }
}

/// The parent links with every link to `node` moved to `new_parent`.
pub open spec fn relinked(parents: Seq<Option<usize>>, node: usize, new_parent: usize) -> Seq<Option<usize>> {
    parents.map_values(|p: Option<usize>| if p == Some(node) { Some(new_parent) } else { p })
}

fn document_node() -> (r: Node)
    ensures
        r@ == document_view(),
{
    let r = Node {
        kind: NodeKind::Element(Element {
            tag: crate::text::string_from_chars(chars_of("#document").as_slice()),
            attrs: Vec::new(),
            children: Vec::new(),
        }),
    };
    proof {
        crate::dom::lemma_nodes_view(Seq::<Node>::empty());
        assert(attrs_view(Seq::<(String, String)>::empty()) =~= seq![]);
    }
    r
}

impl DomSink {
    /// The nodes, as values.
    pub closed spec fn node_views(&self) -> Seq<NodeView> {
        self.nodes@.map_values(|n: Node| n@)
    }

    /// The parent links.
    pub closed spec fn links(&self) -> Seq<Option<usize>> {
        self.parents@
    }

    /// As many links as nodes, the document node first, every link naming
    /// a node.
    pub closed spec fn wf(&self) -> bool {
        &&& self.nodes@.len() == self.parents@.len()
        &&& self.nodes@.len() >= 1
        &&& forall|j: int| 0 <= j < self.parents@.len() ==> valid_link(#[trigger] self.parents@[j], self.parents@.len())
    }

    /// The number of nodes.
    pub fn len(&self) -> (r: usize)
        requires
            self.wf(),
        ensures
            r == self.node_views().len(),
            r == self.links().len(),
    {
        self.nodes.len()
    }

    /// An arena holding the document node alone.
    pub fn new() -> (r: Self)
        ensures
            r.wf(),
            r.node_views() == seq![document_view()],
            r.links() == seq![None::<usize>],
    {
        let d = document_node();
        let r = DomSink { nodes: vec![d], parents: vec![None] };
        assert(r.node_views() =~= seq![document_view()]);
        assert(r.links() =~= seq![None::<usize>]);
        r
    }

    /// Add a node linked to `parent`; its index comes back.
    pub fn push_node(&mut self, node: Node, parent: Option<usize>) -> (r: usize)
        requires
            old(self).wf(),
            valid_link(parent, old(self).links().len()),
        ensures
            final(self).wf(),
            r == old(self).node_views().len(),
            final(self).node_views() == old(self).node_views().push(node@),
            final(self).links() == old(self).links().push(parent),
    {
        let idx = self.nodes.len();
        let ghost v0 = self.node_views();
        self.nodes.push(node);
        self.parents.push(parent);
        assert(self.node_views() =~= v0.push(node@));
        idx
    }

    /// The parent link of node `idx`.
    pub fn parent_of(&self, idx: usize) -> (r: Option<usize>)
        requires
            self.wf(),
            idx < self.links().len(),
        ensures
            r == self.links()[idx as int],
    {
        self.parents[idx]
    }

    /// Link node `idx` to `parent`, or unlink it.
    pub fn set_parent(&mut self, idx: usize, parent: Option<usize>)
        requires
            old(self).wf(),
            idx < old(self).links().len(),
            valid_link(parent, old(self).links().len()),
        ensures
            final(self).wf(),
            final(self).node_views() == old(self).node_views(),
            final(self).links() == old(self).links().update(idx as int, parent),
    {
        self.parents.set(idx, parent);
    }

    /// Move every node linked to `node` to `new_parent`.
    pub fn reparent_children(&mut self, node: usize, new_parent: usize)
        requires
            old(self).wf(),
            new_parent < old(self).links().len(),
        ensures
            final(self).wf(),
            final(self).node_views() == old(self).node_views(),
            final(self).links() == relinked(old(self).links(), node, new_parent),
    {
        let ghost p0 = self.parents@;
        let mut i: usize = 0;
        while i < self.parents.len()
            invariant
                self.wf(),
                new_parent < p0.len(),
                self.parents@.len() == p0.len(),
                self.node_views() == old(self).node_views(),
                p0 == old(self).links(),
                i <= p0.len(),
                forall|j: int| 0 <= j < i ==> self.parents@[j] == relinked(p0, node, new_parent)[j],
                forall|j: int| i <= j < p0.len() ==> self.parents@[j] == p0[j],
            decreases p0.len() - i,
        {
            if self.parents[i] == Some(node) {
                self.parents.set(i, Some(new_parent));
            }
            i = i + 1;
        }
        assert(self.parents@ =~= relinked(p0, node, new_parent));
    }

    /// Add to element `target` the attributes of `attrs` whose names it
    /// lacks, in order; other nodes stay as they are.
    pub fn add_attrs_if_missing(&mut self, target: usize, attrs: Vec<(String, String)>)
        requires
            old(self).wf(),
            target < old(self).node_views().len(),
        ensures
            final(self).wf(),
            final(self).links() == old(self).links(),
            final(self).node_views() == old(self).node_views().update(
                target as int,
                match old(self).node_views()[target as int] {
                    NodeView::Element { tag, attrs: a, children } => NodeView::Element {
                        tag,
                        attrs: add_missing(a, attrs_view(attrs@)),
                        children,
                    },
                    other => other,
                },
            ),
    {
        let ghost v0 = self.node_views();
        let mut slot = Node { kind: NodeKind::Comment(String::new()) };
        self.nodes.set_and_swap(target, &mut slot);
        assert(slot@ == v0[target as int]);
        let node = match slot.kind {
            NodeKind::Element(el) => {
                let Element { tag, attrs: mut own, children } = el;
                let ghost own0 = own@;
                let mut k: usize = 0;
                assert(attrs_view(attrs@).take(0) =~= Seq::<(Seq<char>, Seq<char>)>::empty());
                while k < attrs.len()
                    invariant
                        k <= attrs@.len(),
                        attrs_view(own@) == add_missing(attrs_view(own0), attrs_view(attrs@).take(k as int)),
                    decreases attrs@.len() - k,
                {
                    let ghost before = own@;
                    proof {
                        lemma_attrs_view(own@, attrs@[k as int].0@);
                        crate::dom::lemma_attr_index(own@, attrs@[k as int].0@);
                        assert(attrs_view(attrs@).take(k + 1).drop_last() =~= attrs_view(attrs@).take(k as int));
                    }
                    let name = chars_of(attrs[k].0.as_str());
                    if find_attr(&own, name.as_slice()).is_none() {
                        own.push((attrs[k].0.clone(), attrs[k].1.clone()));
                        assert(attrs_view(own@) =~= attrs_view(before).push((attrs@[k as int].0@, attrs@[k as int].1@)));
                    }
                    k = k + 1;
                }
                assert(attrs_view(attrs@).take(attrs@.len() as int) =~= attrs_view(attrs@));
                Node { kind: NodeKind::Element(Element { tag, attrs: own, children }) }
            },
            NodeKind::Text(t) => Node { kind: NodeKind::Text(t) },
            NodeKind::Comment(c) => Node { kind: NodeKind::Comment(c) },
        };
        self.nodes.set(target, node);
        assert(self.node_views() =~= v0.update(target as int, node@));
    }
}


/// The states of the slots of `finish`, as values.
pub open spec fn slot_views(t: Seq<Option<Node>>) -> Seq<Option<NodeView>> {
    t.map_values(|o: Option<Node>| match o {
        Some(n) => Some(n@),
        None => None,
    })
}

proof fn lemma_kids(parents: Seq<Option<usize>>, i: int, upto: int)
    requires
        upto <= parents.len(),
        parents.len() <= usize::MAX,
    ensures
        forall|a: int, b: int|
            0 <= a < b < kids(parents, i, upto).len() ==> #[trigger] kids(parents, i, upto)[a] < #[trigger] kids(
                parents,
                i,
                upto,
            )[b],
        forall|a: int| 0 <= a < kids(parents, i, upto).len() ==> 1 <= #[trigger] kids(parents, i, upto)[a] < upto,
    decreases upto,
{
    if upto > 1 {
        lemma_kids(parents, i, upto - 1);
        let r = kids(parents, i, upto - 1);
        assert forall|a: int| 0 <= a < r.len() implies #[trigger] r.push((upto - 1) as usize)[a] == r[a] by {}
    }
}

proof fn lemma_cleared_step(st: Seq<Option<NodeView>>, kv: Seq<usize>, k: int)
    requires
        0 <= k < kv.len(),
        kv[k] < st.len(),
        st.len() <= usize::MAX,
    ensures
        cleared(st, kv.take(k + 1)) == cleared(st, kv.take(k)).update(kv[k] as int, None),
{
    let a = cleared(st, kv.take(k + 1));
    let b = cleared(st, kv.take(k)).update(kv[k] as int, None);
    assert forall|x: int| 0 <= x < st.len() implies a[x] == b[x] by {
        assert((x as usize) as int == x);
        if kv.take(k + 1).contains(x as usize) {
            let w = choose|w: int| 0 <= w < k + 1 && #[trigger] kv.take(k + 1)[w] == x as usize;
            if w < k {
                assert(kv.take(k)[w] == x as usize);
            }
        }
        if kv.take(k).contains(x as usize) {
            let w = choose|w: int| 0 <= w < k && #[trigger] kv.take(k)[w] == x as usize;
            assert(kv.take(k + 1)[w] == x as usize);
        }
        if x == kv[k] as int {
            assert(kv.take(k + 1)[k] == x as usize);
        }
    }
    assert(a =~= b);
}

impl DomSink {
    /// Turn the arena into a tree and return the document node.
    pub fn finish(self) -> (r: Node)
        requires
            self.wf(),
        ensures
            r@ == built_tree(self.node_views(), self.links()),
    {
        let ghost nv = self.node_views();
        let ghost ps = self.links();
        let ghost init = initial_slots(nv);
        let DomSink { mut nodes, parents } = self;
        let ghost nodes0 = nodes@;
        let len = nodes.len();
        assert(forall|q: int| 0 <= q < ps.len() ==> valid_link(#[trigger] ps[q], ps.len()));
        let mut children_map: Vec<Vec<usize>> = Vec::new();
        let mut i: usize = 0;
        while i < len
            invariant
                i <= len,
                children_map@.len() == i,
                forall|k: int| 0 <= k < i ==> (#[trigger] children_map@[k])@ == Seq::<usize>::empty(),
            decreases len - i,
        {
            children_map.push(Vec::new());
            i = i + 1;
        }
        let mut j: usize = 1;
        while j < len
            invariant
                1 <= j <= len,
                len == ps.len(),
                parents@ == ps,
                forall|q: int| 0 <= q < ps.len() ==> valid_link(#[trigger] ps[q], ps.len()),
                children_map@.len() == len,
                forall|k: int| 0 <= k < len ==> (#[trigger] children_map@[k])@ == kids(ps, k, j as int),
            decreases len - j,
        {
            let ghost cm0 = children_map@;
            assert(valid_link(ps[j as int], ps.len()));
            match parents[j] {
                Some(p) => {
                    let mut tmp: Vec<usize> = Vec::new();
                    children_map.set_and_swap(p, &mut tmp);
                    tmp.push(j);
                    children_map.set(p, tmp);
                },
                None => {},
            }
            assert forall|k: int| 0 <= k < len implies (#[trigger] children_map@[k])@ == kids(ps, k, j + 1) by {
                if ps[j as int] matches Some(p) && p == k {
                } else {
                    assert(children_map@[k] == cm0[k]);
                }
            }
            j = j + 1;
        }
        let mut taken: Vec<Option<Node>> = Vec::new();
        let mut i: usize = 0;
        while i < len
            invariant
                i <= len,
                len == nodes@.len(),
                nodes0.len() == len,
                nv == nodes0.map_values(|n: Node| n@),
                init == initial_slots(nv),
                slot_views(taken@) == init.take(i as int),
                forall|k: int| i <= k < len ==> nodes@[k] == nodes0[k],
            decreases len - i,
        {
            let mut slot = Node { kind: NodeKind::Comment(String::new()) };
            nodes.set_and_swap(i, &mut slot);
            assert(slot == nodes0[i as int]);
            let ghost before = taken@;
            taken.push(Some(slot));
            assert(slot_views(taken@) =~= slot_views(before).push(Some(slot@)));
            assert(init[i as int] == Some(slot@));
            assert(slot_views(taken@) =~= init.take(i + 1));
            i = i + 1;
        }
        assert(init.take(len as int) =~= init);
        let mut i: usize = len;
        while i > 0
            invariant
                i <= len,
                len == ps.len(),
                taken@.len() == len,
                children_map@.len() == len,
                forall|k: int| 0 <= k < len ==> (#[trigger] children_map@[k])@ == kids(ps, k, len as int),
                slot_views(taken@) == turns_from(init, ps, i as int),
            decreases i,
        {
            i = i - 1;
            let ghost st = slot_views(taken@);
            let ks = &children_map[i];
            let ghost kv = ks@;
            assert(kv == kids(ps, i as int, len as int));
            if ks.len() > 0 {
                proof {
                    lemma_kids(ps, i as int, len as int);
                }
                let mut got: Vec<Node> = Vec::new();
                let mut k: usize = 0;
                assert(kv.take(0) =~= Seq::<usize>::empty());
                assert(cleared(st, kv.take(0)) =~= st);
                while k < ks.len()
                    invariant
                        k <= kv.len(),
                        *ks == children_map@[i as int],
                        ks@ == kv,
                        taken@.len() == len,
                        st.len() == len,
                        forall|a: int, b: int| 0 <= a < b < kv.len() ==> kv[a] < kv[b],
                        forall|a: int| 0 <= a < kv.len() ==> 1 <= #[trigger] kv[a] < len,
                        crate::dom::nodes_view(got@) == gathered(st, kv.take(k as int)),
                        slot_views(taken@) == cleared(st, kv.take(k as int)),
                    decreases kv.len() - k,
                {
                    let idx = ks[k];
                    assert(!kv.take(k as int).contains(idx)) by {
                        if kv.take(k as int).contains(idx) {
                            let a = choose|a: int| 0 <= a < k && kv.take(k as int)[a] == idx;
                            assert(kv[a] < kv[k as int]);
                        }
                    }
                    assert(kv.take(k + 1).drop_last() =~= kv.take(k as int));
                    assert(kv.take(k + 1).last() == idx);
                    let mut t: Option<Node> = None;
                    let ghost gb = got@;
                    let ghost tb = taken@;
                    assert(slot_views(tb)[idx as int] == st[idx as int]);
                    taken.set_and_swap(idx, &mut t);
                    assert(t == tb[idx as int]);
                    match t {
                        Some(n) => {
                            got.push(n);
                            proof {
                                assert(gb.push(n).subrange(0, gb.len() as int) =~= gb);
                                assert(st[idx as int] == Some(n@));
                            }
                        },
                        None => {
                            assert(st[idx as int] is None);
                        },
                    }
                    proof {
                        lemma_cleared_step(st, kv, k as int);
                    }
                    assert(slot_views(taken@) =~= slot_views(tb).update(idx as int, None));
                    k = k + 1;
                }
                assert(kv.take(kv.len() as int) =~= kv);
                let mut cur: Option<Node> = None;
                taken.set_and_swap(i, &mut cur);
                match cur {
                    Some(n) => match n.kind {
                        NodeKind::Element(e) => {
                            let Element { tag, attrs, children: _ } = e;
                            let built = Node { kind: NodeKind::Element(Element { tag, attrs, children: got }) };
                            taken.set(i, Some(built));
                        },
                        NodeKind::Text(x) => {
                            taken.set(i, Some(Node { kind: NodeKind::Text(x) }));
                        },
                        NodeKind::Comment(x) => {
                            taken.set(i, Some(Node { kind: NodeKind::Comment(x) }));
                        },
                    },
                    None => {},
                }
                assert(slot_views(taken@) =~= turn(st, ps, i as int));
            }
        }
        let mut first: Option<Node> = None;
        taken.set_and_swap(0, &mut first);
        match first {
            Some(n) => n,
            None => document_node(),
        }
    }
}


/// Attributes as the parser lists them, one per name: a later value for a
/// name replaces the earlier one, the name keeping its first place.
pub open spec fn collected_attrs(list: Seq<(Seq<char>, Seq<char>)>) -> Seq<(Seq<char>, Seq<char>)>
    decreases list.len(),
{
    if list.len() == 0 {
        seq![]
    } else {
        crate::transform::attrs_set(collected_attrs(list.drop_last()), list.last().0, list.last().1)
    }
}

/// The attributes of an element from the parser's list.
pub fn collect_attrs(list: Vec<(String, String)>) -> (r: Vec<(String, String)>)
    ensures
        attrs_view(r@) == collected_attrs(attrs_view(list@)),
{
    let mut out: Vec<(String, String)> = Vec::new();
    let mut k: usize = 0;
    assert(attrs_view(list@).take(0) =~= Seq::<(Seq<char>, Seq<char>)>::empty());
    assert(attrs_view(out@) =~= Seq::<(Seq<char>, Seq<char>)>::empty());
    while k < list.len()
        invariant
            k <= list@.len(),
            attrs_view(out@) == collected_attrs(attrs_view(list@).take(k as int)),
        decreases list@.len() - k,
    {
        assert(attrs_view(list@).take(k + 1).drop_last() =~= attrs_view(list@).take(k as int));
        crate::transform::set_attr_pair(&mut out, list[k].0.clone(), list[k].1.clone());
        k = k + 1;
    }
    assert(attrs_view(list@).take(list@.len() as int) =~= attrs_view(list@));
    out
}


// ---------------------------------------------------------------------------
// Arenas in creation order
// ---------------------------------------------------------------------------

/// Every node after the document node comes after its parent.
pub open spec fn parents_first(parents: Seq<Option<usize>>) -> bool {
    forall|j: int|
        1 <= j < parents.len() ==> match #[trigger] parents[j] {
            Some(p) => p < j,
            None => true,
        }
}

/// The tree that the links describe under node `i`: an element with
/// linked nodes gets them as children, in creation order.
pub open spec fn linked_tree(nodes: Seq<NodeView>, parents: Seq<Option<usize>>, i: int) -> NodeView
    decreases nodes.len() - i, 1int, 0int,
{
    let ks = kids(parents, i, parents.len() as int);
    if ks.len() == 0 || i < 0 {
        nodes[i]
    } else {
        match nodes[i] {
            NodeView::Element { tag, attrs, .. } => NodeView::Element {
                tag,
                attrs,
                children: linked_all(nodes, parents, i, ks, ks.len() as int),
            },
            other => other,
        }
    }
}

/// The trees under the first `k` of the nodes `ks` linked to node `i`.
pub open spec fn linked_all(nodes: Seq<NodeView>, parents: Seq<Option<usize>>, i: int, ks: Seq<usize>, k: int) -> Seq<NodeView>
    decreases nodes.len() - i, 0int, k,
{
    if k <= 0 || k > ks.len() {
        seq![]
    } else {
        let j = ks[k - 1] as int;
        let t = if i < j && j < nodes.len() { linked_tree(nodes, parents, j) } else { nodes[j] };
        linked_all(nodes, parents, i, ks, k - 1).push(t)
    }
}

/// The slot of node `x` once the turns from the last node down to `k`
/// are done, in an arena in creation order.
pub open spec fn slot_after(nodes: Seq<NodeView>, parents: Seq<Option<usize>>, k: int, x: int) -> Option<NodeView> {
    if x < k {
        Some(nodes[x])
    } else if x >= 1 && (parents[x] matches Some(p) && p >= k) {
        None
    } else {
        Some(linked_tree(nodes, parents, x))
    }
}

proof fn lemma_kids_of(parents: Seq<Option<usize>>, i: int, upto: int, x: int)
    requires
        upto <= parents.len(),
        parents.len() <= usize::MAX,
        1 <= x < upto,
        parents[x] == Some(i as usize),
        0 <= i < parents.len(),
    ensures
        kids(parents, i, upto).contains(x as usize),
    decreases upto,
{
    if x < upto - 1 {
        lemma_kids_of(parents, i, upto - 1, x);
        let r = kids(parents, i, upto - 1);
        let w = choose|w: int| 0 <= w < r.len() && #[trigger] r[w] == x as usize;
        if parents[upto - 1] matches Some(p) && p == i {
            assert(r.push((upto - 1) as usize)[w] == x as usize);
        }
    } else {
        let r = kids(parents, i, upto - 1);
        assert(((upto - 1) as usize) as int == upto - 1);
        assert(kids(parents, i, upto) == r.push((upto - 1) as usize));
        assert(kids(parents, i, upto)[r.len() as int] == x as usize);
    }
}

proof fn lemma_kids_linked(parents: Seq<Option<usize>>, i: int, upto: int)
    requires
        upto <= parents.len(),
        parents.len() <= usize::MAX,
        0 <= i < parents.len(),
    ensures
        forall|a: int| 0 <= a < kids(parents, i, upto).len() ==> parents[#[trigger] kids(parents, i, upto)[a] as int]
            == Some(i as usize),
    decreases upto,
{
    if upto > 1 {
        lemma_kids_linked(parents, i, upto - 1);
        let r = kids(parents, i, upto - 1);
        assert(((upto - 1) as usize) as int == upto - 1);
        assert forall|a: int| 0 <= a < r.len() implies #[trigger] r.push((upto - 1) as usize)[a] == r[a] by {}
    }
}

proof fn lemma_gathered_linked(nodes: Seq<NodeView>, parents: Seq<Option<usize>>, st: Seq<Option<NodeView>>, i: int, ks: Seq<usize>, k: int)
    requires
        0 <= k <= ks.len(),
        forall|a: int| 0 <= a < ks.len() ==> i < #[trigger] ks[a] < nodes.len(),
        forall|a: int| 0 <= a < ks.len() ==> st[#[trigger] ks[a] as int] == Some(linked_tree(nodes, parents, ks[a] as int)),
    ensures
        gathered(st, ks.take(k)) == linked_all(nodes, parents, i, ks, k),
    decreases k,
{
    if k > 0 {
        lemma_gathered_linked(nodes, parents, st, i, ks, k - 1);
        assert(ks.take(k).drop_last() =~= ks.take(k - 1));
        assert(ks.take(k).last() == ks[k - 1]);
    }
}

proof fn lemma_slots(nodes: Seq<NodeView>, parents: Seq<Option<usize>>, k: int)
    requires
        nodes.len() == parents.len(),
        parents.len() <= usize::MAX,
        parents_first(parents),
        0 <= k <= parents.len(),
    ensures
        turns_from(initial_slots(nodes), parents, k).len() == nodes.len(),
        forall|x: int|
            0 <= x < nodes.len() ==> #[trigger] turns_from(initial_slots(nodes), parents, k)[x]
                == slot_after(nodes, parents, k, x),
    decreases parents.len() - k,
{
    let init = initial_slots(nodes);
    if k == parents.len() {
        assert forall|x: int| 0 <= x < nodes.len() implies #[trigger] turns_from(init, parents, k)[x] == slot_after(nodes, parents, k, x) by {}
    } else {
        lemma_slots(nodes, parents, k + 1);
        let st = turns_from(init, parents, k + 1);
        let ks = kids(parents, k, parents.len() as int);
        lemma_kids(parents, k, parents.len() as int);
        lemma_kids_linked(parents, k, parents.len() as int);
        assert forall|a: int| 0 <= a < ks.len() implies k < #[trigger] ks[a] < nodes.len() by {
            let j = ks[a] as int;
            assert(parents[j] == Some(k as usize));
        }
        assert forall|a: int| 0 <= a < ks.len() implies st[#[trigger] ks[a] as int] == Some(linked_tree(nodes, parents, ks[a] as int)) by {
            let j = ks[a] as int;
            assert(parents[j] == Some(k as usize));
            assert(st[j] == slot_after(nodes, parents, k + 1, j));
        }
        if ks.len() > 0 {
            lemma_gathered_linked(nodes, parents, st, k, ks, ks.len() as int);
            assert(ks.take(ks.len() as int) =~= ks);
        }
        let nt = turns_from(init, parents, k);
        assert forall|x: int| 0 <= x < nodes.len() implies #[trigger] nt[x] == slot_after(nodes, parents, k, x) by {
            assert(st[x] == slot_after(nodes, parents, k + 1, x));
            if x >= 1 && parents[x] == Some(k as usize) {
                lemma_kids_of(parents, k, parents.len() as int, x);
            }
            if ks.contains(x as usize) {
                let a = choose|a: int| 0 <= a < ks.len() && #[trigger] ks[a] == x as usize;
                assert(parents[x] == Some(k as usize));
            }
        }
    }
}

/// Finishing an arena in which every node comes after its parent gives the
/// tree that the parent links describe under the document node.
pub proof fn law_finish_builds_linked_tree(nodes: Seq<NodeView>, parents: Seq<Option<usize>>)
    requires
        nodes.len() == parents.len(),
        nodes.len() >= 1,
        parents.len() <= usize::MAX,
        parents_first(parents),
    ensures
        built_tree(nodes, parents) == linked_tree(nodes, parents, 0),
{
    lemma_slots(nodes, parents, 0);
}

} // verus!
