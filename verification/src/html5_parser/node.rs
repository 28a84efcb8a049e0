//! The nodes of the document tree.

use vstd::prelude::*;
use crate::html5_parser::text::{str_eq, string_from_str};
use crate::html5_parser::token::Attribute;

verus! {

pub const HTML_NAMESPACE: &'static str = "http://www.w3.org/1999/xhtml";

pub const MATHML_NAMESPACE: &'static str = "http://www.w3.org/1998/Math/MathML";

pub const SVG_NAMESPACE: &'static str = "http://www.w3.org/2000/svg";

pub const XLINK_NAMESPACE: &'static str = "http://www.w3.org/1999/xlink";

pub const XML_NAMESPACE: &'static str = "http://www.w3.org/XML/1998/namespace";

pub const XMLNS_NAMESPACE: &'static str = "http://www.w3.org/2000/xmlns/";

/// The HTML elements that are "special" in the tree construction rules.
pub const SPECIAL_HTML_ELEMENTS: [&'static str; 81] = [
    "applet", "area", "article", "aside", "base", "basefont", "bgsound", "blockquote", "body",
    "br", "button", "caption", "center", "col", "colgroup", "dd", "details", "dir", "div", "dl",
    "dt", "embed", "fieldset", "figcaption", "figure", "footer", "form", "frame", "frameset",
    "h1", "h2", "h3", "h4", "h5", "h6", "head", "header", "hgroup", "hr", "html", "iframe",
    "img", "input", "keygen", "li", "link", "listing", "main", "marquee", "menu", "meta", "nav",
    "noembed", "noframes", "noscript", "object", "ol", "p", "param", "plaintext", "pre", "script",
    "section", "select", "source", "style", "summary", "table", "tbody", "td", "template",
    "textarea", "tfoot", "th", "thead", "title", "tr", "track", "ul", "wbr", "xmp",
];

/// The MathML elements that are "special".
pub const SPECIAL_MATHML_ELEMENTS: [&'static str; 6] = ["mi", "mo", "mn", "ms", "mtext", "annotation-xml"];

/// The SVG elements that are "special".
pub const SPECIAL_SVG_ELEMENTS: [&'static str; 3] = ["foreignObject", "desc", "title"];

/// The kind of a node.
#[derive(Debug, PartialEq, Eq, Structural, Clone, Copy)]
pub enum NodeType {
    Document,
    Text,
    Comment,
    Element,
}

/// What a node holds besides its place in the tree.
#[derive(Debug, Clone)]
pub enum NodeData {
    Document,
    Text { value: String },
    Comment { value: String },
    Element { name: String, attributes: Vec<Attribute> },
}

/// A node of the document tree.
#[derive(Debug, Clone)]
pub struct Node {
    /// ID of the node, 0 is always the root / document node
    pub id: usize,
    /// parent of the node, if any
    pub parent: Option<usize>,
    /// children of the node
    pub children: Vec<usize>,
    /// name of the node, or empty when its not a tag
    pub name: String,
    /// namespace of the node
    pub namespace: Option<String>,
    /// actual data of the node
    pub data: NodeData,
}

/// What a node holds, with its strings taken as character sequences.
#[verifier::ext_equal]
pub enum NodeDataView {
    Document,
    Text { value: Seq<char> },
    Comment { value: Seq<char> },
    Element { name: Seq<char>, attributes: Seq<(Seq<char>, Seq<char>)> },
}

/// A node, with its strings and vectors taken as sequences.
#[verifier::ext_equal]
pub struct NodeView {
    pub id: usize,
    pub parent: Option<usize>,
    pub children: Seq<usize>,
    pub name: Seq<char>,
    pub namespace: Option<Seq<char>>,
    pub data: NodeDataView,
}

impl View for NodeData {
    type V = NodeDataView;

    open spec fn view(&self) -> NodeDataView {
        match self {
            NodeData::Document => NodeDataView::Document,
            NodeData::Text { value } => NodeDataView::Text { value: value@ },
            NodeData::Comment { value } => NodeDataView::Comment { value: value@ },
            NodeData::Element { name, attributes } => NodeDataView::Element {
                name: name@,
                attributes: attributes@.map_values(|a: Attribute| a@),
            },
        }
    }
}

impl View for Node {
    type V = NodeView;

    open spec fn view(&self) -> NodeView {
        NodeView {
            id: self.id,
            parent: self.parent,
            children: self.children@,
            name: self.name@,
            namespace: opt_view(self.namespace),
            data: self.data@,
        }
    }
}

/// The characters of each string of a list.
pub open spec fn str_list(l: Seq<&str>) -> Seq<Seq<char>> {
    l.map_values(|s: &str| s@)
}

/// Whether `name` is one of the strings of `l`.
pub open spec fn in_list(l: Seq<&str>, name: Seq<char>) -> bool {
    str_list(l).contains(name)
}

/// Whether a node with this namespace and name is special.
pub open spec fn special(namespace: Option<Seq<char>>, name: Seq<char>) -> bool {
    ||| namespace == Some(HTML_NAMESPACE@) && in_list(SPECIAL_HTML_ELEMENTS@, name)
    ||| namespace == Some(MATHML_NAMESPACE@) && in_list(SPECIAL_MATHML_ELEMENTS@, name)
    ||| namespace == Some(SVG_NAMESPACE@) && in_list(SPECIAL_SVG_ELEMENTS@, name)
}

/// The characters of an optional string.
pub open spec fn opt_view(s: Option<String>) -> Option<Seq<char>> {
    match s {
        Some(v) => Some(v@),
        None => None,
    }
}

/// The type of a node, by its data.
pub open spec fn data_type(d: NodeDataView) -> NodeType {
    match d {
        NodeDataView::Document => NodeType::Document,
        NodeDataView::Text { .. } => NodeType::Text,
        NodeDataView::Comment { .. } => NodeType::Comment,
        NodeDataView::Element { .. } => NodeType::Element,
    }
}

/// Whether `name` is one of the strings of `l`.
pub fn list_contains(l: &[&str], name: &str) -> (r: bool)
    ensures
        r == in_list(l@, name@),
{
    let mut i: usize = 0;
    while i < l.len()
        invariant
            i <= l.len(),
            forall|j: int| 0 <= j < i ==> #[trigger] l@[j]@ != name@,
        decreases l.len() - i,
    {
        if str_eq(l[i], name) {
            proof {
                assert(str_list(l@)[i as int] == name@);
            }
            return true;
        }
        i += 1;
    }
    proof {
        if str_list(l@).contains(name@) {
            let k = choose|k: int| 0 <= k < str_list(l@).len() && str_list(l@)[k] == name@;
            assert(l@[k]@ == name@);
        }
    }
    false
}

/// Whether an optional namespace is the given one.
fn namespace_is(namespace: &Option<String>, ns: &str) -> (r: bool)
    ensures
        r == (opt_view(*namespace) == Some(ns@)),
{
    match namespace {
        Some(n) => str_eq(n.as_str(), ns),
        None => false,
    }
}

impl Node {
    /// A new document node.
    pub fn new_document() -> (r: Self)
        ensures
            r@ == (NodeView {
                id: 0,
                parent: None,
                children: Seq::empty(),
                name: Seq::empty(),
                namespace: None,
                data: NodeDataView::Document,
            }),
    {
        Node {
            id: 0,
            parent: None,
            children: Vec::new(),
            data: NodeData::Document,
            name: String::new(),
            namespace: None,
        }
    }

    /// A new element node with the given name, attributes and namespace.
    pub fn new_element(name: &str, attributes: Vec<Attribute>, namespace: &str) -> (r: Self)
        ensures
            r@ == (NodeView {
                id: 0,
                parent: None,
                children: Seq::empty(),
                name: name@,
                namespace: Some(namespace@),
                data: NodeDataView::Element {
                    name: name@,
                    attributes: attributes@.map_values(|a: Attribute| a@),
                },
            }),
    {
        Node {
            id: 0,
            parent: None,
            children: Vec::new(),
            data: NodeData::Element { name: string_from_str(name), attributes },
            name: string_from_str(name),
            namespace: Some(string_from_str(namespace)),
        }
    }

    /// A new comment node with the given text.
    pub fn new_comment(value: &str) -> (r: Self)
        ensures
            r@ == (NodeView {
                id: 0,
                parent: None,
                children: Seq::empty(),
                name: Seq::empty(),
                namespace: None,
                data: NodeDataView::Comment { value: value@ },
            }),
    {
        Node {
            id: 0,
            parent: None,
            children: Vec::new(),
            data: NodeData::Comment { value: string_from_str(value) },
            name: String::new(),
            namespace: None,
        }
    }

    /// A new text node with the given text.
    pub fn new_text(value: &str) -> (r: Self)
        ensures
            r@ == (NodeView {
                id: 0,
                parent: None,
                children: Seq::empty(),
                name: Seq::empty(),
                namespace: None,
                data: NodeDataView::Text { value: value@ },
            }),
    {
        Node {
            id: 0,
            parent: None,
            children: Vec::new(),
            data: NodeData::Text { value: string_from_str(value) },
            name: String::new(),
            namespace: None,
        }
    }

    /// Whether the node is one of the special elements of its namespace.
    pub fn is_special(&self) -> (r: bool)
        ensures
            r == special(self@.namespace, self@.name),
    {
        if namespace_is(&self.namespace, HTML_NAMESPACE) {
            if list_contains(&SPECIAL_HTML_ELEMENTS, self.name.as_str()) {
                return true;
            }
        }
        if namespace_is(&self.namespace, MATHML_NAMESPACE) {
            if list_contains(&SPECIAL_MATHML_ELEMENTS, self.name.as_str()) {
                return true;
            }
        }
        if namespace_is(&self.namespace, SVG_NAMESPACE) {
            if list_contains(&SPECIAL_SVG_ELEMENTS, self.name.as_str()) {
                return true;
            }
        }
        false
    }
}

/// The kind of a node.
pub trait NodeTrait {
    /// Return the node type of the given node
    fn type_of(&self) -> NodeType;
}

impl NodeTrait for Node {
    fn type_of(&self) -> (r: NodeType)
        ensures
            r == data_type(self@.data),
    {
        match self.data {
            NodeData::Document => NodeType::Document,
            NodeData::Text { .. } => NodeType::Text,
            NodeData::Comment { .. } => NodeType::Comment,
            NodeData::Element { .. } => NodeType::Element,
        }
    }
}

} // verus!
