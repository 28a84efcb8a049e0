//! The arena that owns the nodes of a document, keyed by their ids.

use vstd::prelude::*;
use std::collections::HashMap;
use crate::html5_parser::node::{Node, NodeView};

verus! {

broadcast use vstd::std_specs::hash::group_hash_axioms;

/// The nodes of a document, keyed by id. Ids are handed out in increasing
/// order and never reused.
pub struct NodeArena {
    /// Current nodes
    nodes: HashMap<usize, Node>,
    /// next id to use
    next_id: usize,
}

/// `node` with its parent set.
pub open spec fn with_parent(node: NodeView, parent_id: usize) -> NodeView {
    NodeView { parent: Some(parent_id), ..node }
}

/// `node` with one more child at the end.
pub open spec fn with_child(node: NodeView, child_id: usize) -> NodeView {
    NodeView { children: node.children.push(child_id), ..node }
}

/// The nodes after `node_id` is attached under `parent_id`: the parent, if
/// present, gets the node as its last child, then the node, if present, gets
/// the parent.
pub open spec fn attached(m: Map<usize, NodeView>, parent_id: usize, node_id: usize) -> Map<
    usize,
    NodeView,
> {
    let m1 = if m.contains_key(parent_id) {
        m.insert(parent_id, with_child(m[parent_id], node_id))
    } else {
        m
    };
    if m1.contains_key(node_id) {
        m1.insert(node_id, with_parent(m1[node_id], parent_id))
    } else {
        m1
    }
}

/// The nodes after `node_id` is taken out of the children of its parent,
/// when it has a parent that is present; nothing else changes.
pub open spec fn detached(m: Map<usize, NodeView>, node_id: usize) -> Map<usize, NodeView> {
    if m.contains_key(node_id) {
        match m[node_id].parent {
            Some(p) => if m.contains_key(p) {
                m.insert(p, NodeView { children: m[p].children.filter(other_than(node_id)), ..m[p] })
            } else {
                m
            },
            None => m,
        }
    } else {
        m
    }
}

/// The nodes after `node_id` is moved under `parent_id`: taken out of the
/// children of its old parent, then attached under the new one.
pub open spec fn moved(m: Map<usize, NodeView>, node_id: usize, parent_id: usize) -> Map<
    usize,
    NodeView,
> {
    attached(detached(m, node_id), parent_id, node_id)
}

/// Whether an id is other than `id`.
pub open spec fn other_than(id: usize) -> spec_fn(usize) -> bool {
    |c: usize| c != id
}

/// The nodes after `node_id` is removed: it leaves the map, and its parent,
/// if present, no longer lists it as a child.
pub open spec fn removed(m: Map<usize, NodeView>, node_id: usize) -> Map<usize, NodeView> {
    if !m.contains_key(node_id) {
        m
    } else {
        let m1 = m.remove(node_id);
        match m[node_id].parent {
            Some(p) => if m1.contains_key(p) {
                m1.insert(
                    p,
                    NodeView { children: m1[p].children.filter(other_than(node_id)), ..m1[p] },
                )
            } else {
                m1
            },
            None => m1,
        }
    }
}

impl View for NodeArena {
    type V = Map<usize, NodeView>;

    closed spec fn view(&self) -> Map<usize, NodeView> {
        self.nodes@.map_values(|n: Node| n@)
    }
}

impl NodeArena {
    /// The id that the next added node gets.
    pub closed spec fn next_id(&self) -> nat {
        self.next_id as nat
    }

    /// Every node in the arena has an id below the next one.
    pub open spec fn wf(&self) -> bool {
        forall|k: usize| #[trigger] self@.contains_key(k) ==> k < self.next_id()
    }

    /// Whether one more node can be numbered.
    pub fn can_add_node(&self) -> (r: bool)
        ensures
            r == (self.next_id() < usize::MAX),
    {
        self.next_id < usize::MAX
    }

    /// Creates an empty arena.
    pub fn new() -> (r: Self)
        ensures
            r.wf(),
            r@ == Map::<usize, NodeView>::empty(),
            r.next_id() == 0,
    {
        let r = Self { nodes: HashMap::new(), next_id: 0 };
        assert(r@ =~= Map::<usize, NodeView>::empty());
        r
    }

    /// The node with the given id, if there is one.
    pub fn get_node(&self, node_id: usize) -> (r: Option<&Node>)
        ensures
            match r {
                Some(n) => self@.contains_key(node_id) && n@ == self@[node_id],
                None => !self@.contains_key(node_id),
            },
    {
        self.nodes.get(&node_id)
    }

    /// A mutable reference to the node with the given id, if there is one;
    /// what is written through it is what the arena then holds for that id.
    pub fn get_mut_node(&mut self, node_id: usize) -> (r: Option<&mut Node>)
        ensures
            final(self).next_id() == old(self).next_id(),
            match r {
                Some(n) => {
                    &&& old(self)@.contains_key(node_id)
                    &&& n@ == old(self)@[node_id]
                    &&& final(self)@ == old(self)@.insert(node_id, final(n)@)
                },
                None => {
                    &&& !old(self)@.contains_key(node_id)
                    &&& final(self)@ == old(self)@
                },
            },
    {
        match self.nodes.entry(node_id) {
            std::collections::hash_map::Entry::Occupied(o) => Some(o.into_mut()),
            std::collections::hash_map::Entry::Vacant(_) => None,
        }
    }

    /// Adds a node under a fresh id, which it returns; the node's own `id`
    /// is set to it.
    pub fn add_node(&mut self, node: Node) -> (r: usize)
        requires
            old(self).wf(),
            old(self).next_id() < usize::MAX,
        ensures
            final(self).wf(),
            r == old(self).next_id(),
            !old(self)@.contains_key(r),
            final(self).next_id() == old(self).next_id() + 1,
            final(self)@ == old(self)@.insert(r, NodeView { id: r, ..node@ }),
    {
        let mut node = node;
        let id = self.next_id;
        self.next_id += 1;
        node.id = id;
        self.nodes.insert(id, node);
        proof {
            assert(self@ =~= old(self)@.insert(id, NodeView { id: id, ..node@ }));
        }
        id
    }

    /// Attaches `node_id` under `parent_id`: the parent, if present, gets it
    /// as its last child, and the node, if present, gets the parent.
    pub fn attach_node(&mut self, parent_id: usize, node_id: usize)
        requires
            old(self).wf(),
        ensures
            final(self).wf(),
            final(self).next_id() == old(self).next_id(),
            final(self)@ == attached(old(self)@, parent_id, node_id),
    {
        let ghost m = self@;
        if let Some(parent_node) = self.get_mut_node(parent_id) {
            parent_node.children.push(node_id);
        }
        let ghost m1 = self@;
        proof {
            if m.contains_key(parent_id) {
                assert(m1 =~= m.insert(parent_id, with_child(m[parent_id], node_id)));
            }
        }
        if let Some(node) = self.get_mut_node(node_id) {
            node.parent = Some(parent_id);
        }
        proof {
            if m1.contains_key(node_id) {
                assert(self@ =~= m1.insert(node_id, with_parent(m1[node_id], parent_id)));
            }
        }
    }

    /// Takes a node out of the children of its parent.
    pub fn detach_node(&mut self, node_id: usize)
        requires
            old(self).wf(),
        ensures
            final(self).wf(),
            final(self).next_id() == old(self).next_id(),
            final(self)@ == detached(old(self)@, node_id),
    {
        let ghost m = self@;
        let parent = match self.get_node(node_id) {
            Some(node) => node.parent,
            None => None,
        };
        if let Some(parent_id) = parent {
            if let Some(parent_node) = self.get_mut_node(parent_id) {
                let kept = without(&parent_node.children, node_id);
                parent_node.children = kept;
            }
            proof {
                if m.contains_key(parent_id) {
                    assert(self@ =~= m.insert(
                        parent_id,
                        NodeView {
                            children: m[parent_id].children.filter(other_than(node_id)),
                            ..m[parent_id]
                        },
                    ));
                }
            }
        }
    }

    /// Removes a node, and takes it out of the children of its parent.
    fn remove_node(&mut self, node_id: usize)
        requires
            old(self).wf(),
        ensures
            final(self).wf(),
            final(self).next_id() == old(self).next_id(),
            final(self)@ == removed(old(self)@, node_id),
    {
        let ghost m = self@;
        let removed_node = self.nodes.remove(&node_id);
        let ghost m1 = self@;
        proof {
            assert(m1 =~= if m.contains_key(node_id) { m.remove(node_id) } else { m });
        }
        if let Some(node) = removed_node {
            assert(m.contains_key(node_id) && m[node_id] == node@);
            if let Some(parent_id) = node.parent {
                if let Some(parent_node) = self.get_mut_node(parent_id) {
                    let kept = without(&parent_node.children, node_id);
                    parent_node.children = kept;
                }
                proof {
                    if m1.contains_key(parent_id) {
                        assert(self@ =~= m1.insert(
                            parent_id,
                            NodeView {
                                children: m1[parent_id].children.filter(other_than(node_id)),
                                ..m1[parent_id]
                            },
                        ));
                    }
                }
            }
        }
    }
}

/// The ids of `v` other than `id`, in order.
fn without(v: &Vec<usize>, id: usize) -> (r: Vec<usize>)
    ensures
        r@ == v@.filter(other_than(id)),
{
    let mut r: Vec<usize> = Vec::new();
    let mut i: usize = 0;
    while i < v.len()
        invariant
            i <= v.len(),
            r@ == v@.take(i as int).filter(other_than(id)),
        decreases v.len() - i,
    {
        proof {
            assert(v@.take(i + 1) =~= v@.take(i as int).push(v@[i as int]));
            v@.take(i as int).lemma_filter_push(v@[i as int], other_than(id));
        }
        if v[i] != id {
            r.push(v[i]);
        }
        i += 1;
    }
    assert(v@.take(v.len() as int) =~= v@);
    r
}


/// Attaching a new node under an existing parent makes it the parent's last
/// child and gives it that parent; every other node stays as it was.
pub proof fn lemma_attach_new_node(m: Map<usize, NodeView>, r: usize, n: NodeView, parent_id: usize)
    requires
        !m.contains_key(r),
        m.contains_key(parent_id),
    ensures
        ({
            let m2 = attached(m.insert(r, n), parent_id, r);
            &&& m2.dom() == m.dom().insert(r)
            &&& m2[r] == with_parent(n, parent_id)
            &&& m2[parent_id] == with_child(m[parent_id], r)
            &&& forall|k: usize| m.contains_key(k) && k != parent_id ==> m2[k] == m[k]
        }),
{
    let m2 = attached(m.insert(r, n), parent_id, r);
    assert(m2.dom() =~= m.dom().insert(r));
}

/// Attaching twice under the same parent lists both children in the order
/// in which they were attached.
pub proof fn lemma_attach_order(m: Map<usize, NodeView>, parent_id: usize, a: usize, b: usize)
    requires
        m.contains_key(parent_id),
        a != parent_id,
        b != parent_id,
    ensures
        attached(attached(m, parent_id, a), parent_id, b)[parent_id].children == m[parent_id].children.push(
            a,
        ).push(b),
{
}

} // verus!

verus! {

/// Every node is stored under its own id.
pub open spec fn ids_ok(m: Map<usize, NodeView>) -> bool {
    forall|k: usize| #[trigger] m.contains_key(k) ==> m[k].id == k
}

/// Parents and children agree: every child that a node lists is a node
/// whose parent is that node, no node lists a child twice, and a node with
/// a parent is listed among that parent's children.
pub open spec fn tree_ok(m: Map<usize, NodeView>) -> bool {
    &&& forall|p: usize, i: int|
        #![trigger m[p].children[i]]
        m.contains_key(p) && 0 <= i < m[p].children.len() ==> m.contains_key(m[p].children[i])
            && m[m[p].children[i]].parent == Some(p)
    &&& forall|p: usize, i: int, j: int|
        #![trigger m[p].children[i], m[p].children[j]]
        m.contains_key(p) && 0 <= i < j < m[p].children.len() ==> m[p].children[i]
            != m[p].children[j]
    &&& forall|c: usize|
        #![trigger m[c].parent]
        m.contains_key(c) && m[c].parent is Some ==> m.contains_key(m[c].parent->0)
            && m[m[c].parent->0].children.contains(c)
}

/// Adding a new node without parent or children and attaching it under a
/// node of the arena keeps parents and children in agreement, and keeps
/// every node under its own id.
pub proof fn lemma_attach_keeps_tree(m: Map<usize, NodeView>, r: usize, n: NodeView, p: usize)
    requires
        tree_ok(m),
        ids_ok(m),
        !m.contains_key(r),
        m.contains_key(p),
        n.parent is None,
        n.children.len() == 0,
    ensures
        tree_ok(attached(m.insert(r, NodeView { id: r, ..n }), p, r)),
        ids_ok(attached(m.insert(r, NodeView { id: r, ..n }), p, r)),
        attached(m.insert(r, NodeView { id: r, ..n }), p, r).dom() == m.dom().insert(r),
{
    let n2 = NodeView { id: r, ..n };
    let m2 = attached(m.insert(r, n2), p, r);
    lemma_attach_new_node(m, r, n2, p);
    assert(m2[p].children == m[p].children.push(r));
    assert forall|q: usize, i: int|
        #![trigger m2[q].children[i]]
        m2.contains_key(q) && 0 <= i < m2[q].children.len() implies m2.contains_key(m2[q].children[i])
            && m2[m2[q].children[i]].parent == Some(q) by {
        if q == p {
            if i < m[p].children.len() {
                assert(m2[q].children[i] == m[p].children[i]);
            }
        } else if q != r {
            assert(m2[q] == m[q]);
        }
    }
    assert forall|q: usize, i: int, j: int|
        #![trigger m2[q].children[i], m2[q].children[j]]
        m2.contains_key(q) && 0 <= i < j < m2[q].children.len() implies m2[q].children[i]
            != m2[q].children[j] by {
        if q == p {
            assert(m2[q].children[i] == m[p].children[i]);
            if j < m[p].children.len() {
                assert(m2[q].children[j] == m[p].children[j]);
            }
        } else if q != r {
            assert(m2[q] == m[q]);
        }
    }
    assert forall|c: usize|
        #![trigger m2[c].parent]
        m2.contains_key(c) && m2[c].parent is Some implies m2.contains_key(m2[c].parent->0)
            && m2[m2[c].parent->0].children.contains(c) by {
        if c == r {
            assert(m2[p].children[m[p].children.len() as int] == r);
        } else {
            let q = m[c].parent->0;
            if c == p {
                assert(m2[c].parent == m[c].parent);
            } else {
                assert(m2[c] == m[c]);
            }
            let k = choose|k: int| 0 <= k < m[q].children.len() && m[q].children[k] == c;
            if q == p {
                assert(m2[q].children[k] == c);
            } else {
                assert(m2[q] == m[q]);
            }
        }
    }
    assert forall|k: usize| #[trigger] m2.contains_key(k) implies m2[k].id == k by {
        if k != r && k != p {
            assert(m2[k] == m[k]);
        }
    }
}

} // verus!

verus! {

/// Dropping the copies of one id keeps a list free of repeats.
proof fn lemma_filter_distinct(s: Seq<usize>, x: usize)
    requires
        forall|i: int, j: int| 0 <= i < j < s.len() ==> s[i] != s[j],
    ensures
        forall|i: int, j: int|
            0 <= i < j < s.filter(other_than(x)).len() ==> s.filter(other_than(x))[i] != s.filter(
                other_than(x),
            )[j],
    decreases s.len(),
{
    broadcast use vstd::seq_lib::group_filter_ensures;

    let f = s.filter(other_than(x));
    if s.len() > 0 {
        let d = s.drop_last();
        lemma_filter_distinct(d, x);
        assert(s =~= d.push(s.last()));
        d.lemma_filter_push(s.last(), other_than(x));
        let fd = d.filter(other_than(x));
        if other_than(x)(s.last()) {
            assert(f == fd.push(s.last()));
            assert forall|i: int, j: int| 0 <= i < j < f.len() implies f[i] != f[j] by {
                if j == fd.len() {
                    if f[i] == s.last() {
                        assert(fd.contains(s.last()));
                        d.lemma_filter_contains_rev(other_than(x), s.last());
                        let k = choose|k: int| 0 <= k < d.len() && d[k] == s.last();
                        assert(s[k] == s[s.len() - 1]);
                    }
                }
            }
        } else {
            assert(f == fd);
        }
    }
}

/// Moving a node of the arena under another node of the arena keeps parents
/// and children in agreement, and every node under its own id.
pub proof fn lemma_move_keeps_tree(m: Map<usize, NodeView>, c: usize, p: usize)
    requires
        tree_ok(m),
        ids_ok(m),
        m.contains_key(c),
        m.contains_key(p),
        c != p,
    ensures
        tree_ok(moved(m, c, p)),
        ids_ok(moved(m, c, p)),
        moved(m, c, p).dom() == m.dom(),
{
    broadcast use vstd::seq_lib::group_filter_ensures;

    let d = detached(m, c);
    let m2 = moved(m, c, p);
    assert(d.dom() =~= m.dom());
    assert(m2.dom() =~= m.dom());
    // the children of every node in `d`: those of `m`, without `c` for its old parent
    assert forall|x: usize| #[trigger] d.contains_key(x) implies d[x].id == m[x].id && d[x].parent
        == m[x].parent && (d[x].children == m[x].children || (m[c].parent == Some(x)
        && d[x].children == m[x].children.filter(other_than(c)))) by {}
    assert forall|x: usize| #[trigger] m.contains_key(x) && x != c && x != p implies m2[x] == d[x] by {}
    assert(m2[c].parent == Some(p));
    assert(m2[c].children == d[c].children);
    assert(m2[p].children == d[p].children.push(c));
    assert(m2[p].parent == d[p].parent);
    // `c` is no child of `p` in `d`
    assert(!d[p].children.contains(c)) by {
        if d[p].children.contains(c) {
            let k = choose|k: int| 0 <= k < d[p].children.len() && d[p].children[k] == c;
            if d[p].children == m[p].children {
                assert(m[m[p].children[k]].parent == Some(p));
                if m[c].parent == Some(p) {
                    assert(d[p].children == m[p].children.filter(other_than(c)));
                }
            } else {
                assert(other_than(c)(d[p].children[k]));
            }
        }
    }
    // every child listed in `d` is a child listed in `m`, other than `c` when its parent filtered it
    assert forall|x: usize, i: int|
        #![trigger d[x].children[i]]
        d.contains_key(x) && 0 <= i < d[x].children.len() implies m[x].children.contains(
            d[x].children[i],
        ) && (m[c].parent == Some(x) ==> d[x].children[i] != c) by {
        if d[x].children != m[x].children {
            m[x].children.lemma_filter_contains_rev(other_than(c), d[x].children[i]);
            assert(other_than(c)(d[x].children[i]));
        } else {
            assert(m[x].children[i] == d[x].children[i]);
            if m[c].parent == Some(x) && d[x].children[i] == c {
                assert(d[x].children == m[x].children.filter(other_than(c)));
            }
        }
    }
    assert forall|q: usize, i: int|
        #![trigger m2[q].children[i]]
        m2.contains_key(q) && 0 <= i < m2[q].children.len() implies m2.contains_key(m2[q].children[i])
            && m2[m2[q].children[i]].parent == Some(q) by {
        if q == p && i == d[p].children.len() {
        } else {
            let y = m2[q].children[i];
            if q == p {
                assert(y == d[p].children[i]);
            } else if q == c {
                assert(y == d[c].children[i]);
            } else {
                assert(y == d[q].children[i]);
            }
            assert(m[q].children.contains(y));
            let k = choose|k: int| 0 <= k < m[q].children.len() && m[q].children[k] == y;
            assert(m[m[q].children[k]].parent == Some(q));
            if y == c {
                assert(m[c].parent == Some(q));
            }
        }
    }
    assert forall|q: usize, i: int, j: int|
        #![trigger m2[q].children[i], m2[q].children[j]]
        m2.contains_key(q) && 0 <= i < j < m2[q].children.len() implies m2[q].children[i]
            != m2[q].children[j] by {
        lemma_filter_distinct(m[q].children, c);
        if q == p {
            if j == d[p].children.len() {
                assert(m2[q].children[i] == d[p].children[i]);
            } else {
                assert(m2[q].children[i] == d[p].children[i]);
                assert(m2[q].children[j] == d[p].children[j]);
            }
        } else {
            assert(m2[q].children == d[q].children);
        }
    }
    assert forall|y: usize|
        #![trigger m2[y].parent]
        m2.contains_key(y) && m2[y].parent is Some implies m2.contains_key(m2[y].parent->0)
            && m2[m2[y].parent->0].children.contains(y) by {
        if y == c {
            assert(m2[p].children[d[p].children.len() as int] == c);
        } else {
            let q = m[y].parent->0;
            assert(m2[y].parent == m[y].parent);
            let k = choose|k: int| 0 <= k < m[q].children.len() && m[q].children[k] == y;
            if d[q].children != m[q].children {
                m[q].children.lemma_filter_contains(other_than(c), k);
                assert(other_than(c)(m[q].children[k]));
            }
            let dc = d[q].children;
            assert(dc.contains(y));
            let k2 = choose|k2: int| 0 <= k2 < dc.len() && dc[k2] == y;
            if q == p {
                assert(m2[q].children[k2] == y);
            } else {
                assert(m2[q].children == dc);
            }
        }
    }
    assert forall|k: usize| #[trigger] m2.contains_key(k) implies m2[k].id == k by {}
}

} // verus!

verus! {

/// A tree rooted at id 0: parents and children agree, every node is stored
/// under its own id, the root has no parent, and every other node has a
/// parent with a smaller id (so that following parents always ends at the
/// root).
pub open spec fn rooted_tree(m: Map<usize, NodeView>) -> bool {
    &&& tree_ok(m)
    &&& ids_ok(m)
    &&& m.contains_key(0)
    &&& m[0].parent is None
    &&& forall|k: usize|
        #![trigger m[k].parent]
        m.contains_key(k) && k != 0 ==> (m[k].parent matches Some(p) && p < k)
}

/// In a tree rooted at 0, every node but the root has a parent that lists it
/// exactly once among its children, and no node is listed by two parents.
pub proof fn lemma_rooted_tree_shape(m: Map<usize, NodeView>)
    requires
        rooted_tree(m),
    ensures
        forall|k: usize|
            #![trigger m[k].parent]
            m.contains_key(k) && k != 0 ==> (m[k].parent matches Some(q) && m.contains_key(q)
                && m[q].children.contains(k)),
        forall|q: usize, i: int, j: int|
            #![trigger m[q].children[i], m[q].children[j]]
            m.contains_key(q) && 0 <= i < j < m[q].children.len() ==> m[q].children[i]
                != m[q].children[j],
        forall|q1: usize, q2: usize, i: int, j: int|
            #![trigger m[q1].children[i], m[q2].children[j]]
            m.contains_key(q1) && m.contains_key(q2) && 0 <= i < m[q1].children.len() && 0 <= j
                < m[q2].children.len() && m[q1].children[i] == m[q2].children[j] ==> q1 == q2,
{
    assert forall|q1: usize, q2: usize, i: int, j: int|
        #![trigger m[q1].children[i], m[q2].children[j]]
        m.contains_key(q1) && m.contains_key(q2) && 0 <= i < m[q1].children.len() && 0 <= j
            < m[q2].children.len() && m[q1].children[i] == m[q2].children[j] implies q1 == q2 by {
        assert(m[m[q1].children[i]].parent == Some(q1));
        assert(m[m[q2].children[j]].parent == Some(q2));
    }
}

/// Adding a new node, with an id above every id of the arena and without
/// parent or children, under a node of the arena keeps a rooted tree.
pub proof fn lemma_attach_keeps_rooted(m: Map<usize, NodeView>, r: usize, n: NodeView, p: usize)
    requires
        rooted_tree(m),
        forall|k: usize| #[trigger] m.contains_key(k) ==> k < r,
        m.contains_key(p),
        n.parent is None,
        n.children.len() == 0,
    ensures
        rooted_tree(attached(m.insert(r, NodeView { id: r, ..n }), p, r)),
{
    let n2 = NodeView { id: r, ..n };
    let m2 = attached(m.insert(r, n2), p, r);
    lemma_attach_keeps_tree(m, r, n, p);
    lemma_attach_new_node(m, r, n2, p);
    assert(r != 0);
    assert(m2[0].parent == m[0].parent);
    assert forall|k: usize|
        #![trigger m2[k].parent]
        m2.contains_key(k) && k != 0 implies (m2[k].parent matches Some(q) && q < k) by {
        if k != r {
            assert(m2[k].parent == m[k].parent);
        }
    }
}

/// A map with the same ids as a rooted tree, whose nodes keep their ids,
/// parents and children, is a rooted tree too.
pub proof fn lemma_same_shape_rooted(m: Map<usize, NodeView>, m2: Map<usize, NodeView>)
    requires
        rooted_tree(m),
        m2.dom() == m.dom(),
        forall|k: usize|
            #[trigger] m.contains_key(k) ==> m2[k].id == m[k].id && m2[k].parent == m[k].parent
                && m2[k].children == m[k].children,
    ensures
        rooted_tree(m2),
{
    assert forall|p: usize, i: int|
        #![trigger m2[p].children[i]]
        m2.contains_key(p) && 0 <= i < m2[p].children.len() implies m2.contains_key(m2[p].children[i])
            && m2[m2[p].children[i]].parent == Some(p) by {
        assert(m.contains_key(p));
        assert(m2[p].children[i] == m[p].children[i]);
        assert(m.contains_key(m[p].children[i]));
    }
    assert forall|p: usize, i: int, j: int|
        #![trigger m2[p].children[i], m2[p].children[j]]
        m2.contains_key(p) && 0 <= i < j < m2[p].children.len() implies m2[p].children[i]
            != m2[p].children[j] by {
        assert(m.contains_key(p));
        assert(m2[p].children[i] == m[p].children[i]);
        assert(m2[p].children[j] == m[p].children[j]);
    }
    assert forall|c: usize|
        #![trigger m2[c].parent]
        m2.contains_key(c) && m2[c].parent is Some implies m2.contains_key(m2[c].parent->0)
            && m2[m2[c].parent->0].children.contains(c) by {
        assert(m.contains_key(c));
        let q = m[c].parent->0;
        assert(m.contains_key(q));
        assert(m2[q].children == m[q].children);
    }
    assert forall|k: usize| #[trigger] m2.contains_key(k) implies m2[k].id == k by {
        assert(m.contains_key(k));
    }
    assert forall|k: usize|
        #![trigger m2[k].parent]
        m2.contains_key(k) && k != 0 implies (m2[k].parent matches Some(q) && q < k) by {
        assert(m.contains_key(k));
    }
    assert(m.contains_key(0));
}

} // verus!
