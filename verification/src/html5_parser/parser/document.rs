//! A document: the arena of its nodes, its type and its quirks mode.

use vstd::prelude::*;
use crate::html5_parser::node::{str_list, Node, NodeView};
use crate::html5_parser::node::{NodeData, NodeDataView};
use crate::html5_parser::node_arena::{
    attached, ids_ok, lemma_attach_keeps_rooted, lemma_attach_keeps_tree, lemma_move_keeps_tree,
    moved, other_than, rooted_tree, tree_ok, NodeArena,
};
use crate::html5_parser::parser::quirks::QuirksMode;
use crate::html5_parser::text::{str_eq, string_from_str};

verus! {

/// The type of a document.
#[derive(PartialEq, Eq, Structural, Debug, Copy, Clone)]
pub enum DocumentType {
    HTML,
    IframeSrcDoc,
}

/// A document and its nodes.
pub struct Document {
    /// The nodes of the document
    pub arena: NodeArena,
    /// Document type
    pub doctype: DocumentType,
    /// Quirks mode
    pub quirks_mode: QuirksMode,
}

impl View for Document {
    type V = Map<usize, NodeView>;

    open spec fn view(&self) -> Map<usize, NodeView> {
        self.arena@
    }
}

impl Document {
    /// The id that the next added node gets.
    pub open spec fn next_id(&self) -> nat {
        self.arena.next_id()
    }

    /// Every node of the document has an id below the next one.
    pub open spec fn wf(&self) -> bool {
        self.arena.wf()
    }

    /// Creates a new document, holding its document node, the root, as id 0.
    pub fn new() -> (r: Self)
        ensures
            r.wf(),
            r@ == Map::<usize, NodeView>::empty().insert(0, root_node()),
            tree_ok(r@),
            ids_ok(r@),
            rooted_tree(r@),
            r.next_id() == 1,
            r.doctype == DocumentType::IframeSrcDoc,
            r.quirks_mode == QuirksMode::NoQuirks,
    {
        let mut arena = NodeArena::new();
        arena.add_node(Node::new_document());
        let r = Self { arena, doctype: DocumentType::IframeSrcDoc, quirks_mode: QuirksMode::NoQuirks };
        assert(r@[0].children.len() == 0);
        r
    }

    /// Whether one more node can be added.
    pub fn can_add_node(&self) -> (r: bool)
        ensures
            r == (self.next_id() < usize::MAX),
    {
        self.arena.can_add_node()
    }

    /// Fetches a node by id, or `None` when no node has this id.
    pub fn get_node_by_id(&self, node_id: usize) -> (r: Option<&Node>)
        ensures
            match r {
                Some(n) => self@.contains_key(node_id) && n@ == self@[node_id],
                None => !self@.contains_key(node_id),
            },
    {
        self.arena.get_node(node_id)
    }

    /// A mutable reference to a node, or `None` when no node has this id;
    /// what is written through it is what the document then holds.
    pub fn get_mut_node_by_id(&mut self, node_id: usize) -> (r: Option<&mut Node>)
        ensures
            final(self).next_id() == old(self).next_id(),
            final(self).doctype == old(self).doctype,
            final(self).quirks_mode == old(self).quirks_mode,
            match r {
                Some(n) => {
                    &&& old(self)@.contains_key(node_id)
                    &&& n@ == old(self)@[node_id]
                    &&& final(self)@ == old(self)@.insert(node_id, final(n)@)
                },
                None => {
                    &&& !old(self)@.contains_key(node_id)
                    &&& final(self)@ == old(self)@
                },
            },
    {
        self.arena.get_mut_node(node_id)
    }

    /// Adds a node under a fresh id and attaches it to `parent_id`; returns
    /// the new id.
    pub fn add_node(&mut self, node: Node, parent_id: usize) -> (r: usize)
        requires
            old(self).wf(),
            old(self).next_id() < usize::MAX,
        ensures
            final(self).wf(),
            r == old(self).next_id(),
            !old(self)@.contains_key(r),
            final(self).next_id() == old(self).next_id() + 1,
            final(self)@ == attached(old(self)@.insert(r, NodeView { id: r, ..node@ }), parent_id, r),
            final(self).doctype == old(self).doctype,
            final(self).quirks_mode == old(self).quirks_mode,
            tree_ok(old(self)@) && ids_ok(old(self)@) && old(self)@.contains_key(parent_id)
                && node@.parent is None && node@.children.len() == 0 ==> tree_ok(final(self)@)
                && ids_ok(final(self)@),
            rooted_tree(old(self)@) && old(self)@.contains_key(parent_id) && node@.parent is None
                && node@.children.len() == 0 ==> rooted_tree(final(self)@),
    {
        let ghost n = node@;
        let node_id = self.arena.add_node(node);
        self.arena.attach_node(parent_id, node_id);
        proof {
            if tree_ok(old(self)@) && ids_ok(old(self)@) && old(self)@.contains_key(parent_id)
                && n.parent is None && n.children.len() == 0 {
                lemma_attach_keeps_tree(old(self)@, node_id, n, parent_id);
            }
            if rooted_tree(old(self)@) && old(self)@.contains_key(parent_id) && n.parent is None
                && n.children.len() == 0 {
                lemma_attach_keeps_rooted(old(self)@, node_id, n, parent_id);
            }
        }
        node_id
    }

    /// Moves a node to another parent: it leaves the children of its old
    /// parent and becomes the last child of `parent_id`.
    pub fn reattach(&mut self, node_id: usize, parent_id: usize)
        requires
            old(self).wf(),
        ensures
            final(self).wf(),
            final(self).next_id() == old(self).next_id(),
            final(self)@ == moved(old(self)@, node_id, parent_id),
            final(self).doctype == old(self).doctype,
            final(self).quirks_mode == old(self).quirks_mode,
            old(self)@.contains_key(node_id) ==> final(self)@[node_id].parent == Some(parent_id),
            old(self)@.contains_key(parent_id) ==> final(self)@[parent_id].children.last() == node_id,
            tree_ok(old(self)@) && ids_ok(old(self)@) && old(self)@.contains_key(node_id)
                && old(self)@.contains_key(parent_id) && node_id != parent_id ==> tree_ok(final(self)@)
                && ids_ok(final(self)@),
            ({
                let old_parent = old(self)@[node_id].parent;
                old(self)@.contains_key(node_id) && old_parent is Some && old_parent->0 != parent_id
                    && old(self)@.contains_key(old_parent->0)
                    ==> !final(self)@[old_parent->0].children.contains(node_id)
            }),
    {
        self.arena.detach_node(node_id);
        self.arena.attach_node(parent_id, node_id);
        proof {
            if tree_ok(old(self)@) && ids_ok(old(self)@) && old(self)@.contains_key(node_id)
                && old(self)@.contains_key(parent_id) && node_id != parent_id {
                lemma_move_keeps_tree(old(self)@, node_id, parent_id);
            }
            broadcast use vstd::seq_lib::group_filter_ensures;

            let m = old(self)@;
            if m.contains_key(node_id) && m[node_id].parent is Some {
                let p = m[node_id].parent->0;
                if m.contains_key(p) && p != parent_id {
                    let f = m[p].children.filter(other_than(node_id));
                    if f.contains(node_id) {
                        let i = choose|i: int| 0 <= i < f.len() && f[i] == node_id;
                        assert(other_than(node_id)(f[i]));
                    }
                }
            }
        }
    }

    /// The root node: the node with id 0, when the document has one.
    pub fn get_root(&self) -> (r: Option<&Node>)
        ensures
            match r {
                Some(n) => self@.contains_key(0) && n@ == self@[0],
                None => !self@.contains_key(0),
            },
    {
        self.arena.get_node(0)
    }
}


/// The document node that a new document holds as its root.
pub open spec fn root_node() -> NodeView {
    NodeView {
        id: 0,
        parent: None,
        children: Seq::empty(),
        name: Seq::empty(),
        namespace: None,
        data: NodeDataView::Document,
    }
}

/// The id of the first of `children`, from index `i` on, that is a node of
/// the document named `name`.
pub open spec fn first_named(
    doc: Map<usize, NodeView>,
    children: Seq<usize>,
    name: Seq<char>,
    i: int,
) -> Option<usize>
    decreases children.len() - i,
{
    if i < 0 || i >= children.len() {
        None
    } else if doc.contains_key(children[i]) && doc[children[i]].name == name {
        Some(children[i])
    } else {
        first_named(doc, children, name, i + 1)
    }
}

/// The node reached from `start` by following, for each name of the path,
/// the first child with that name.
pub open spec fn follow_path(doc: Map<usize, NodeView>, start: usize, path: Seq<Seq<char>>) -> Option<
    usize,
>
    decreases path.len(),
{
    if path.len() == 0 {
        Some(start)
    } else {
        match first_named(doc, doc[start].children, path[0], 0) {
            Some(next) => follow_path(doc, next, path.drop_first()),
            None => None,
        }
    }
}

/// The first child of `parent` that is named `name`.
pub fn get_node<'a>(document: &'a Document, parent: &'a Node, name: &str) -> (r: Option<&'a Node>)
    ensures
        match r {
            Some(n) => first_named(document@, parent.children@, name@, 0) matches Some(id)
                && document@.contains_key(id) && n@ == document@[id],
            None => first_named(document@, parent.children@, name@, 0) is None,
        },
{
    let mut i: usize = 0;
    while i < parent.children.len()
        invariant
            i <= parent.children@.len(),
            first_named(document@, parent.children@, name@, i as int) == first_named(
                document@,
                parent.children@,
                name@,
                0,
            ),
        decreases parent.children@.len() - i,
    {
        let id = parent.children[i];
        match document.get_node_by_id(id) {
            None => {},
            Some(node) => {
                if str_eq(node.name.as_str(), name) {
                    return Some(node);
                }
            },
        }
        i += 1;
    }
    None
}

/// The node reached from the first child of the root by following the names
/// of `path` (see `follow_path`).
pub fn get_node_by_path<'a>(document: &'a Document, path: Vec<&str>) -> (r: Option<&'a Node>)
    requires
        document@.contains_key(0),
        document@[0].children.len() > 0,
    ensures
        ({
            let first = document@[0].children[0];
            match r {
                Some(n) => {
                    &&& document@.contains_key(first)
                    &&& follow_path(document@, first, str_list(path@)) matches Some(id)
                        && document@.contains_key(id) && n@ == document@[id]
                },
                None => !document@.contains_key(first) || follow_path(
                    document@,
                    first,
                    str_list(path@),
                ) is None,
            }
        }),
{
    let ghost names = str_list(path@);
    let root = document.get_root().unwrap();
    let ghost first = document@[0].children[0];
    let mut node = match document.get_node_by_id(root.children[0]) {
        None => {
            return None;
        },
        Some(child) => child,
    };
    let ghost mut cur: usize = first;
    assert(names.skip(0) =~= names);
    let mut i: usize = 0;
    while i < path.len()
        invariant
            i <= path@.len(),
            names == str_list(path@),
            first == document@[0].children[0],
            document@.contains_key(first),
            document@.contains_key(cur),
            node@ == document@[cur],
            follow_path(document@, first, names) == follow_path(document@, cur, names.skip(i as int)),
        decreases path@.len() - i,
    {
        assert(names.skip(i as int)[0] == path@[i as int]@);
        assert(names.skip(i as int).drop_first() =~= names.skip(i + 1));
        match get_node(document, node, path[i]) {
            Some(new_node) => {
                proof {
                    cur = first_named(document@, document@[cur].children, path@[i as int]@, 0)->0;
                }
                node = new_node;
            },
            None => {
                return None;
            },
        }
        i += 1;
    }
    assert(names.skip(path@.len() as int) =~= Seq::<Seq<char>>::empty());
    Some(node)
}


/// The text lines that a node gives itself: its text, for a text node whose
/// text is not a lone newline.
pub open spec fn own_lines(n: NodeView) -> Seq<Seq<char>> {
    match n.data {
        NodeDataView::Text { value } => if value != "\n"@ {
            seq![value]
        } else {
            Seq::empty()
        },
        _ => Seq::empty(),
    }
}

/// The text lines of a node and, in order, of the nodes below it, going at
/// most `fuel` levels down.
pub open spec fn node_lines(doc: Map<usize, NodeView>, id: usize, fuel: nat) -> Seq<Seq<char>>
    decreases fuel, 0nat,
{
    if fuel == 0 || !doc.contains_key(id) {
        Seq::empty()
    } else {
        own_lines(doc[id]) + children_lines(
            doc,
            doc[id].children,
            doc[id].children.len(),
            (fuel - 1) as nat,
        )
    }
}

/// The text lines of the first `n` of `children` (those that are nodes of
/// the document), in order.
pub open spec fn children_lines(
    doc: Map<usize, NodeView>,
    children: Seq<usize>,
    n: nat,
    fuel: nat,
) -> Seq<Seq<char>>
    decreases fuel, n,
{
    if n == 0 || n > children.len() {
        Seq::empty()
    } else {
        children_lines(doc, children, (n - 1) as nat, fuel) + node_lines(
            doc,
            children[n - 1],
            fuel,
        )
    }
}

/// The text lines of `node` and of the nodes below it, depth first: each
/// text node whose text is not a lone newline gives its text.
pub fn display_node(document: &Document, node: &Node) -> (r: Vec<String>)
    ensures
        r@.map_values(|l: String| l@) == own_lines(node@) + children_lines(
            document@,
            node@.children,
            node@.children.len(),
            usize::MAX as nat,
        ),
{
    lines_of(document, node, usize::MAX)
}

/// The text lines of `node` and of the nodes below it, going at most `fuel`
/// levels further down (see `node_lines`).
fn lines_of(document: &Document, node: &Node, fuel: usize) -> (r: Vec<String>)
    ensures
        r@.map_values(|l: String| l@) == own_lines(node@) + children_lines(
            document@,
            node@.children,
            node@.children.len(),
            fuel as nat,
        ),
    decreases fuel,
{
    let mut out: Vec<String> = Vec::new();
    if let NodeData::Text { value } = &node.data {
        if !str_eq(value.as_str(), "\n") {
            out.push(string_from_str(value.as_str()));
        }
    }
    let ghost doc = document@;
    let ghost cs = node@.children;
    assert(out@.map_values(|l: String| l@) =~= own_lines(node@));
    let mut i: usize = 0;
    while i < node.children.len()
        invariant
            doc == document@,
            cs == node@.children,
            cs == node.children@,
            i <= cs.len(),
            out@.map_values(|l: String| l@) == own_lines(node@) + children_lines(
                doc,
                cs,
                i as nat,
                fuel as nat,
            ),
        decreases cs.len() - i,
    {
        let below: Vec<String> = if fuel == 0 {
            Vec::new()
        } else {
            match document.get_node_by_id(node.children[i]) {
                Some(child) => lines_of(document, child, fuel - 1),
                None => Vec::new(),
            }
        };
        assert(below@.map_values(|l: String| l@) == node_lines(doc, cs[i as int], fuel as nat));
        let ghost before = out@.map_values(|l: String| l@);
        let mut k: usize = 0;
        while k < below.len()
            invariant
                k <= below@.len(),
                out@.map_values(|l: String| l@) == before + below@.map_values(|l: String| l@).take(
                    k as int,
                ),
            decreases below@.len() - k,
        {
            let line = string_from_str(below[k].as_str());
            let ghost prev = out@;
            out.push(line);
            assert(out@.map_values(|l: String| l@) =~= prev.map_values(|l: String| l@).push(line@));
            assert(below@.map_values(|l: String| l@).take(k as int + 1) =~= below@.map_values(
                |l: String| l@,
            ).take(k as int).push(below@[k as int]@));
            k += 1;
        }
        assert(below@.map_values(|l: String| l@).take(below@.len() as int) =~= below@.map_values(
            |l: String| l@,
        ));
        i += 1;
        assert(own_lines(node@) + children_lines(doc, cs, i as nat, fuel as nat) =~= (own_lines(
            node@,
        ) + children_lines(doc, cs, (i - 1) as nat, fuel as nat)) + node_lines(
            doc,
            cs[i - 1],
            fuel as nat,
        ));
    }
    out
}

} // verus!
