use gosub_engine::html5_parser::node::{
    Node, NodeData, NodeTrait, NodeType, HTML_NAMESPACE, MATHML_NAMESPACE, SVG_NAMESPACE,
};
use gosub_engine::html5_parser::node_arena::NodeArena;
use gosub_engine::html5_parser::parser::document::{display_node, Document, DocumentType};
use gosub_engine::html5_parser::parser::quirks::QuirksMode;

#[test]
fn test_nodes() {
    let mut arena = NodeArena::new();
    let n = arena.add_node(Node::new_element("foo", Vec::new(), HTML_NAMESPACE));
    assert_eq!(arena.get_node(n).unwrap().name, "foo");
    assert_eq!(arena.get_node(n).unwrap().children.len(), 0);

    let n2 = arena.add_node(Node::new_element("bar", Vec::new(), HTML_NAMESPACE));
    let n3 = arena.add_node(Node::new_element("baz", Vec::new(), HTML_NAMESPACE));
    arena.attach_node(n, n2);
    arena.attach_node(n, n3);
    let node = arena.get_node(n).unwrap();
    assert_eq!(node.children.len(), 2);

    assert_eq!(arena.get_node(node.children[0]).unwrap().name, "bar");
    assert_eq!(arena.get_node(node.children[0]).unwrap().children.len(), 0);

    assert_eq!(arena.get_node(node.children[1]).unwrap().name, "baz");
    assert_eq!(arena.get_node(node.children[1]).unwrap().children.len(), 0);
}

#[test]
fn constructors() {
    let d = Node::new_document();
    assert_eq!(d.type_of(), NodeType::Document);
    assert_eq!(d.id, 0);
    assert!(d.parent.is_none());
    assert_eq!(d.name, "");

    let c = Node::new_comment("hello");
    assert_eq!(c.type_of(), NodeType::Comment);
    match &c.data {
        NodeData::Comment { value } => assert_eq!(value, "hello"),
        _ => panic!("not a comment"),
    }

    let t = Node::new_text("body text");
    assert_eq!(t.type_of(), NodeType::Text);
    match &t.data {
        NodeData::Text { value } => assert_eq!(value, "body text"),
        _ => panic!("not a text"),
    }

    let e = Node::new_element("div", Vec::new(), HTML_NAMESPACE);
    assert_eq!(e.type_of(), NodeType::Element);
    assert_eq!(e.namespace.as_deref(), Some(HTML_NAMESPACE));
}

#[test]
fn special_elements() {
    assert!(Node::new_element("td", Vec::new(), HTML_NAMESPACE).is_special());
    assert!(Node::new_element("xmp", Vec::new(), HTML_NAMESPACE).is_special());
    assert!(!Node::new_element("span", Vec::new(), HTML_NAMESPACE).is_special());
    assert!(Node::new_element("mi", Vec::new(), MATHML_NAMESPACE).is_special());
    assert!(!Node::new_element("td", Vec::new(), MATHML_NAMESPACE).is_special());
    assert!(Node::new_element("foreignObject", Vec::new(), SVG_NAMESPACE).is_special());
    assert!(Node::new_element("title", Vec::new(), SVG_NAMESPACE).is_special());
    assert!(!Node::new_text("td").is_special());
}

#[test]
fn arena_ids_are_fresh_and_set() {
    let mut arena = NodeArena::new();
    assert!(arena.get_node(0).is_none());
    let a = arena.add_node(Node::new_text("a"));
    let b = arena.add_node(Node::new_text("b"));
    assert_eq!(a, 0);
    assert_eq!(b, 1);
    assert_eq!(arena.get_node(b).unwrap().id, 1);
    assert!(arena.get_node(2).is_none());
}

#[test]
fn arena_attach_sets_parent() {
    let mut arena = NodeArena::new();
    let p = arena.add_node(Node::new_document());
    let c = arena.add_node(Node::new_text("x"));
    arena.attach_node(p, c);
    assert_eq!(arena.get_node(c).unwrap().parent, Some(p));
    assert_eq!(arena.get_node(p).unwrap().children, vec![c]);
    // attaching to a missing parent only sets the parent of the node
    arena.attach_node(7, c);
    assert_eq!(arena.get_node(c).unwrap().parent, Some(7));
    assert_eq!(arena.get_node(p).unwrap().children, vec![c]);
}

#[test]
fn arena_get_mut_writes_through() {
    let mut arena = NodeArena::new();
    let a = arena.add_node(Node::new_text("a"));
    arena.get_mut_node(a).unwrap().name = "renamed".to_string();
    assert_eq!(arena.get_node(a).unwrap().name, "renamed");
    assert!(arena.get_mut_node(9).is_none());
}

#[test]
fn document_add_and_reattach() {
    let mut doc = Document::new();
    assert_eq!(doc.doctype, DocumentType::IframeSrcDoc);
    assert_eq!(doc.quirks_mode, QuirksMode::NoQuirks);
    let root = doc.get_root().unwrap();
    assert_eq!(root.id, 0);
    assert_eq!(root.type_of(), NodeType::Document);
    assert!(root.parent.is_none());
    assert!(root.children.is_empty());
    let html = doc.add_node(Node::new_element("html", Vec::new(), HTML_NAMESPACE), 0);
    let body = doc.add_node(Node::new_element("body", Vec::new(), HTML_NAMESPACE), 0);
    assert_eq!((html, body), (1, 2));
    assert_eq!(doc.get_node_by_id(0).unwrap().children, vec![html, body]);
    doc.reattach(body, html);
    assert_eq!(doc.get_node_by_id(body).unwrap().parent, Some(html));
    assert_eq!(doc.get_node_by_id(html).unwrap().children, vec![body]);
    // the body left the children of its old parent
    assert_eq!(doc.get_node_by_id(0).unwrap().children, vec![html]);
}

#[test]
fn display_node_lists_text_in_document_order() {
    let mut doc = Document::new();
    let body = doc.add_node(Node::new_element("body", Vec::new(), HTML_NAMESPACE), 0);
    let p = doc.add_node(Node::new_element("p", Vec::new(), HTML_NAMESPACE), body);
    doc.add_node(Node::new_text("one"), p);
    doc.add_node(Node::new_text("\n"), body);
    doc.add_node(Node::new_text("two"), body);
    let lines = display_node(&doc, doc.get_node_by_id(body).unwrap());
    assert_eq!(lines, vec!["one".to_string(), "two".to_string()]);
}
