//! The tree builder: turns the tokens of the tokenizer into a document.

pub mod document;
pub mod quirks;
pub mod tree_builder;
pub mod tree_laws;
pub mod tree_spec;

use vstd::prelude::*;
use crate::html5_parser::input_stream::InputStream;
use crate::html5_parser::node::{
    in_list, list_contains, Node, NodeView, NodeDataView, HTML_NAMESPACE,
};
use crate::html5_parser::node_arena::attached;
use crate::html5_parser::input_stream::Position;
use crate::html5_parser::parser::document::{Document, DocumentType};
use crate::html5_parser::parser::quirks::QuirksMode;
use crate::html5_parser::text::{push_str, str_eq, string_from_str};
use crate::html5_parser::token::{opt_chars, Attribute, SpecToken, Token};
use crate::html5_parser::tokenizer::{ParseError, Tokenizer};
use crate::html5_parser::tokenizer_spec::SpecError;
use crate::html5_parser::node_arena::{ids_ok, rooted_tree, tree_ok};
use crate::html5_parser::parser::tree_laws::doc_ok;
use crate::html5_parser::parser::tree_spec::{
    clear_marker, clear_row, clear_table, clear_table_body, close_cell_v, err, implied, marker, pop_until_v,
    has_open, vnames, with_mode,
};

verus! {

/// Insertion modes as defined in 13.2.4.1
#[derive(Debug, PartialEq, Eq, Structural, Copy, Clone)]
pub enum InsertionMode {
    Initial,
    BeforeHtml,
    BeforeHead,
    InHead,
    InHeadNoscript,
    AfterHead,
    InBody,
    Text,
    InTable,
    InTableText,
    InCaption,
    InColumnGroup,
    InTableBody,
    InRow,
    InCell,
    InSelect,
    InSelectInTable,
    InTemplate,
    AfterBody,
    InFrameset,
    AfterFrameset,
    AfterAfterBody,
    AfterAfterFrameset,
}

/// Active formatting elements, which could be a regular node (id), or a marker
#[derive(Debug, PartialEq, Eq, Structural, Copy, Clone)]
pub enum ActiveElement {
    Node(usize),
    Marker,
}

/// The scopes that `in_scope` can check.
#[derive(Debug, PartialEq, Eq, Structural, Copy, Clone)]
pub enum Scope {
    Regular,
    ListItem,
    Button,
    Table,
    Select,
}

/// The elements whose end tags are implied.
pub const IMPLIED_END_TAGS: [&'static str; 10] = [
    "dd", "dt", "li", "option", "optgroup", "p", "rb", "rp", "rt", "rtc",
];

/// The table elements whose end tags are also implied when closing
/// thoroughly.
pub const THOROUGH_END_TAGS: [&'static str; 8] = [
    "caption", "colgroup", "tbody", "td", "tfoot", "th", "thead", "tr",
];

/// The elements that end a clear back to a table context.
pub const TABLE_CONTEXT: [&'static str; 3] = ["table", "template", "html"];

/// The elements that end a clear back to a table body context.
pub const TABLE_BODY_CONTEXT: [&'static str; 5] = ["tbody", "tfoot", "thead", "template", "html"];

/// The elements that end a clear back to a table row context.
pub const TABLE_ROW_CONTEXT: [&'static str; 3] = ["tr", "template", "html"];

/// The elements that bound the default scope.
pub const REGULAR_SCOPE: [&'static str; 8] = [
    "applet", "caption", "html", "table", "td", "th", "marquee", "object",
];

/// The elements that bound the list item scope.
pub const LIST_ITEM_SCOPE: [&'static str; 10] = [
    "applet", "caption", "html", "table", "td", "th", "marquee", "object", "ol", "ul",
];

/// The elements that bound the button scope.
pub const BUTTON_SCOPE: [&'static str; 9] = [
    "applet", "caption", "html", "table", "td", "th", "marquee", "object", "button",
];

/// The elements that bound the table scope.
pub const TABLE_SCOPE: [&'static str; 3] = ["html", "table", "template"];

/// The elements that do not bound the select scope.
pub const SELECT_SCOPE: [&'static str; 2] = ["optgroup", "option"];

/// The cell elements.
pub const CELL_TAGS: [&'static str; 2] = ["td", "th"];

/// The table section elements.
pub const TABLE_SECTIONS: [&'static str; 3] = ["tbody", "thead", "tfoot"];

// ---------------------------------------------------------------------------
// The model of the stack of open elements
// ---------------------------------------------------------------------------

/// The name of the node with the given id.
pub open spec fn name_of(doc: Map<usize, NodeView>, id: usize) -> Seq<char> {
    doc[id].name
}

/// The id of the current node: the top of the stack, or the root (0) when
/// the stack is empty.
pub open spec fn current_id(stack: Seq<usize>) -> usize {
    if stack.len() == 0 {
        0
    } else {
        stack.last()
    }
}

/// The document has a root, and every open element is one of its nodes.
pub open spec fn stack_ok(doc: Map<usize, NodeView>, stack: Seq<usize>) -> bool {
    &&& doc.contains_key(0)
    &&& forall|i: int| 0 <= i < stack.len() ==> doc.contains_key(#[trigger] stack[i])
}

/// The stack, popped until it is empty or its top satisfies `stop`.
pub open spec fn pop_while(
    doc: Map<usize, NodeView>,
    stack: Seq<usize>,
    stop: spec_fn(Seq<char>) -> bool,
) -> Seq<usize>
    decreases stack.len(),
{
    if stack.len() == 0 {
        stack
    } else if stop(name_of(doc, stack.last())) {
        stack
    } else {
        pop_while(doc, stack.drop_last(), stop)
    }
}

/// A name is the given one.
pub open spec fn is_name(name: Seq<char>) -> spec_fn(Seq<char>) -> bool {
    |n: Seq<char>| n == name
}

/// A name is one of a list.
pub open spec fn in_names(l: Seq<&str>) -> spec_fn(Seq<char>) -> bool {
    |n: Seq<char>| in_list(l, n)
}

/// Where generating implied end tags stops: at the excepted name, at a name
/// that closing thoroughly does not imply, or at a name that is not implied.
pub open spec fn implied_stop(except: Option<Seq<char>>, thoroughly: bool) -> spec_fn(
    Seq<char>,
) -> bool {
    |n: Seq<char>|
        except == Some(n) || !(in_list(IMPLIED_END_TAGS@, n) || (thoroughly && in_list(
            THOROUGH_END_TAGS@,
            n,
        )))
}

/// The stack without its top element (if any).
pub open spec fn drop_top(s: Seq<usize>) -> Seq<usize> {
    if s.len() > 0 {
        s.drop_last()
    } else {
        s
    }
}

/// Popping only removes elements from the top of the stack, and stops at
/// an element that satisfies `stop` (or at the bottom).
pub proof fn lemma_pop_while(
    doc: Map<usize, NodeView>,
    stack: Seq<usize>,
    stop: spec_fn(Seq<char>) -> bool,
)
    ensures
        pop_while(doc, stack, stop).len() <= stack.len(),
        pop_while(doc, stack, stop) == stack.take(pop_while(doc, stack, stop).len() as int),
        pop_while(doc, stack, stop).len() == 0 || stop(
            name_of(doc, pop_while(doc, stack, stop).last()),
        ),
        forall|i: int|
            pop_while(doc, stack, stop).len() <= i < stack.len() ==> !stop(
                #[trigger] name_of(doc, stack[i]),
            ),
    decreases stack.len(),
{
    if stack.len() > 0 && !stop(name_of(doc, stack.last())) {
        lemma_pop_while(doc, stack.drop_last(), stop);
        let r = pop_while(doc, stack.drop_last(), stop);
        assert(stack.drop_last().take(r.len() as int) =~= stack.take(r.len() as int));
        assert forall|i: int| r.len() <= i < stack.len() implies !stop(
            #[trigger] name_of(doc, stack[i]),
        ) by {
            if i < stack.len() - 1 {
                assert(stack.drop_last()[i] == stack[i]);
            }
        }
    } else {
        assert(stack.take(stack.len() as int) =~= stack);
    }
}

/// Popping with a condition that stops less often pops at least as much:
/// what is left is a prefix of what the other condition leaves.
pub proof fn lemma_pop_while_more(
    doc: Map<usize, NodeView>,
    stack: Seq<usize>,
    less: spec_fn(Seq<char>) -> bool,
    more: spec_fn(Seq<char>) -> bool,
)
    requires
        forall|n: Seq<char>| #[trigger] less(n) ==> more(n),
    ensures
        pop_while(doc, stack, less).len() <= pop_while(doc, stack, more).len(),
        pop_while(doc, stack, less) == pop_while(doc, stack, more).take(
            pop_while(doc, stack, less).len() as int,
        ),
    decreases stack.len(),
{
    lemma_pop_while(doc, stack, less);
    lemma_pop_while(doc, stack, more);
    if stack.len() > 0 && !less(name_of(doc, stack.last())) {
        lemma_pop_while_more(doc, stack.drop_last(), less, more);
        lemma_pop_while(doc, stack.drop_last(), less);
    }
    let a = pop_while(doc, stack, less);
    let b = pop_while(doc, stack, more);
    assert(a =~= b.take(a.len() as int));
}

/// Generating implied end tags thoroughly pops a superset of what it pops
/// otherwise: from the same stack, what is left thoroughly is a prefix of
/// what is left without the flag.
pub proof fn lemma_thorough_pops_more(
    doc: Map<usize, NodeView>,
    stack: Seq<usize>,
    except: Option<Seq<char>>,
)
    ensures
        pop_while(doc, stack, implied_stop(except, true)).len() <= pop_while(
            doc,
            stack,
            implied_stop(except, false),
        ).len(),
        pop_while(doc, stack, implied_stop(except, true)) == pop_while(
            doc,
            stack,
            implied_stop(except, false),
        ).take(pop_while(doc, stack, implied_stop(except, true)).len() as int),
{
    lemma_pop_while_more(doc, stack, implied_stop(except, true), implied_stop(except, false));
}

/// Whether a name bounds the given scope.
pub open spec fn scope_bound(scope: Scope, n: Seq<char>) -> bool {
    match scope {
        Scope::Regular => in_list(REGULAR_SCOPE@, n),
        Scope::ListItem => in_list(LIST_ITEM_SCOPE@, n),
        Scope::Button => in_list(BUTTON_SCOPE@, n),
        Scope::Table => in_list(TABLE_SCOPE@, n),
        Scope::Select => !in_list(SELECT_SCOPE@, n),
    }
}

/// Searching the names from index `idx` down: `Some(true)` when `tag` comes
/// first, `Some(false)` when a bound of the scope comes first, `None` when
/// neither comes before the bottom of the stack.
pub open spec fn scope_search(names: Seq<Seq<char>>, idx: int, tag: Seq<char>, scope: Scope) -> Option<
    bool,
>
    decreases idx + 1,
{
    if idx < 0 {
        None
    } else if names[idx] == tag {
        Some(true)
    } else if scope_bound(scope, names[idx]) {
        Some(false)
    } else {
        scope_search(names, idx - 1, tag, scope)
    }
}

/// The names of the open elements.
pub open spec fn stack_names(doc: Map<usize, NodeView>, stack: Seq<usize>) -> Seq<Seq<char>> {
    stack.map_values(|id: usize| name_of(doc, id))
}

/// The insertion mode that the select rule gives: searching the ancestors
/// below index `idx` for a template or a table.
pub open spec fn select_mode(names: Seq<Seq<char>>, idx: int) -> InsertionMode
    decreases idx,
{
    if idx <= 0 {
        InsertionMode::InSelect
    } else if names[idx - 1] == "template"@ {
        InsertionMode::InSelect
    } else if names[idx - 1] == "table"@ {
        InsertionMode::InSelectInTable
    } else {
        select_mode(names, idx - 1)
    }
}

/// The insertion mode that resetting gives, searching the open elements from
/// index `idx` down; `None` where the rules ask for the current template
/// insertion mode and there is none.
pub open spec fn reset_mode(
    names: Seq<Seq<char>>,
    idx: int,
    head_is_none: bool,
    template_mode: Option<InsertionMode>,
) -> Option<InsertionMode>
    decreases idx,
{
    let last = idx <= 0;
    let n = names[idx];
    if n == "select"@ {
        if last {
            Some(InsertionMode::InSelect)
        } else {
            Some(select_mode(names, idx))
        }
    } else if (n == "td"@ || n == "th"@) && !last {
        Some(InsertionMode::InCell)
    } else if n == "tr"@ {
        Some(InsertionMode::InRow)
    } else if in_list(TABLE_SECTIONS@, n) {
        Some(InsertionMode::InTableBody)
    } else if n == "caption"@ {
        Some(InsertionMode::InCaption)
    } else if n == "colgroup"@ {
        Some(InsertionMode::InColumnGroup)
    } else if n == "table"@ {
        Some(InsertionMode::InTable)
    } else if n == "template"@ {
        template_mode
    } else if n == "head"@ && !last {
        Some(InsertionMode::InHead)
    } else if n == "body"@ {
        Some(InsertionMode::InBody)
    } else if n == "frameset"@ {
        Some(InsertionMode::InFrameset)
    } else if n == "html"@ {
        if head_is_none {
            Some(InsertionMode::BeforeHead)
        } else {
            Some(InsertionMode::AfterHead)
        }
    } else if last {
        Some(InsertionMode::InBody)
    } else {
        reset_mode(names, idx - 1, head_is_none, template_mode)
    }
}

/// The active formatting elements after clearing up to and including the
/// last marker (all of them when there is none).
pub open spec fn clear_to_marker(list: Seq<ActiveElement>) -> Seq<ActiveElement>
    decreases list.len(),
{
    if list.len() == 0 {
        list
    } else if list.last() == ActiveElement::Marker {
        list.drop_last()
    } else {
        clear_to_marker(list.drop_last())
    }
}

/// Clearing to the last marker undoes adding a marker and any elements added
/// after it: what came before the marker is left as it was. (This is
/// `clear_active_formatting_elements_until_marker` after `add_marker` and
/// pushes of nodes: their contracts give `clear_to_marker` and a push of
/// `ActiveElement::Marker`.)
pub proof fn lemma_clear_undoes_marker(list: Seq<ActiveElement>, ids: Seq<usize>)
    ensures
        clear_to_marker(list.push(ActiveElement::Marker) + ids.map_values(|id: usize| ActiveElement::Node(id)))
            == list,
    decreases ids.len(),
{
    let f = |id: usize| ActiveElement::Node(id);
    let whole = list.push(ActiveElement::Marker) + ids.map_values(f);
    if ids.len() == 0 {
        assert(whole =~= list.push(ActiveElement::Marker));
    } else {
        lemma_clear_undoes_marker(list, ids.drop_last());
        assert(whole.drop_last() =~= list.push(ActiveElement::Marker) + ids.drop_last().map_values(f));
        assert(whole.last() == ActiveElement::Node(ids.last()));
    }
}

/// With no marker in the list, clearing to the last marker empties it.
pub proof fn lemma_clear_without_marker(list: Seq<ActiveElement>)
    requires
        forall|i: int| 0 <= i < list.len() ==> list[i] != ActiveElement::Marker,
    ensures
        clear_to_marker(list) == Seq::<ActiveElement>::empty(),
    decreases list.len(),
{
    if list.len() > 0 {
        lemma_clear_without_marker(list.drop_last());
    }
}

/// The text of a boolean, as `Display` writes it.
pub open spec fn bool_text(b: bool) -> Seq<char> {
    if b {
        "true"@
    } else {
        "false"@
    }
}

/// The text of an optional string: empty when there is none.
pub open spec fn opt_text(o: Option<Seq<char>>) -> Seq<char> {
    match o {
        Some(s) => s,
        None => Seq::empty(),
    }
}

/// The label of the element made for a token that has no node kind of its
/// own (a doctype, or an end tag).
pub open spec fn token_label(t: SpecToken) -> Seq<char> {
    match t {
        SpecToken::DocType { name, force_quirks, pub_identifier, sys_identifier } => "doctype["@
            + opt_text(name) + " "@ + opt_text(pub_identifier) + " "@ + opt_text(sys_identifier)
            + " "@ + bool_text(force_quirks) + "]"@,
        SpecToken::EndTag { name } => "end_tag["@ + name + "]"@,
        _ => Seq::empty(),
    }
}

/// A detached HTML element node.
pub open spec fn element_node(name: Seq<char>, attributes: Seq<(Seq<char>, Seq<char>)>) -> NodeView {
    NodeView {
        id: 0,
        parent: None,
        children: Seq::empty(),
        name: name,
        namespace: Some(HTML_NAMESPACE@),
        data: NodeDataView::Element { name: name, attributes: attributes },
    }
}

/// The detached node that is made for a token: an element named by a start
/// tag, with its attributes; a comment or text node with the token's text.
pub open spec fn token_node(t: SpecToken) -> NodeView {
    match t {
        SpecToken::StartTag { name, attributes, .. } => element_node(name, attributes),
        SpecToken::Comment { value } => NodeView {
            id: 0,
            parent: None,
            children: Seq::empty(),
            name: Seq::empty(),
            namespace: None,
            data: NodeDataView::Comment { value: value },
        },
        SpecToken::Text { value } => NodeView {
            id: 0,
            parent: None,
            children: Seq::empty(),
            name: Seq::empty(),
            namespace: None,
            data: NodeDataView::Text { value: value },
        },
        _ => element_node(token_label(t), Seq::empty()),
    }
}

/// The text of a boolean.
fn bool_string(b: bool) -> (r: &'static str)
    ensures
        r@ == bool_text(b),
{
    if b {
        "true"
    } else {
        "false"
    }
}

/// The text of an optional string.
fn opt_str(o: &Option<String>) -> (r: &str)
    ensures
        r@ == opt_text(opt_chars(*o)),
{
    match o {
        Some(s) => s.as_str(),
        None => {
            proof {
                reveal_strlit("");
            }
            ""
        },
    }
}

/// A copy of a list of attributes.
fn copy_attributes(v: &Vec<Attribute>) -> (r: Vec<Attribute>)
    ensures
        r@.map_values(|a: Attribute| a@) == v@.map_values(|a: Attribute| a@),
{
    let mut r: Vec<Attribute> = Vec::new();
    let mut i: usize = 0;
    while i < v.len()
        invariant
            i <= v.len(),
            r@.len() == i,
            forall|j: int| 0 <= j < i ==> #[trigger] r@[j]@ == v@[j]@,
        decreases v.len() - i,
    {
        let a = Attribute {
            name: string_from_str(v[i].name.as_str()),
            value: string_from_str(v[i].value.as_str()),
        };
        r.push(a);
        i += 1;
    }
    assert(r@.map_values(|a: Attribute| a@) =~= v@.map_values(|a: Attribute| a@));
    r
}

/// The characters of an optional string slice.
pub open spec fn opt_str_view(o: Option<&str>) -> Option<Seq<char>> {
    match o {
        Some(s) => Some(s@),
        None => None,
    }
}

/// The current template insertion mode, if any.
pub open spec fn template_last(s: Seq<InsertionMode>) -> Option<InsertionMode> {
    if s.len() > 0 {
        Some(s.last())
    } else {
        None
    }
}

/// The tokenizer can run.
#[verifier::opaque]
pub open spec fn tokenizer_ok(t: &Tokenizer) -> bool {
    t.inv()
}

/// The main parser object
pub struct Html5Parser<'a> {
    /// tokenizer object
    pub tokenizer: Tokenizer<'a>,
    /// current insertion mode
    pub insertion_mode: InsertionMode,
    /// original insertion mode (used for text mode)
    pub original_insertion_mode: InsertionMode,
    /// template insertion mode stack
    pub template_insertion_mode: Vec<InsertionMode>,
    /// whether the parser may change the document's quirks mode
    pub parser_cannot_change_mode: bool,
    /// Current token from the tokenizer
    pub current_token: Token,
    /// If true, the current token should be processed again
    pub reprocess_token: bool,
    /// Stack of open elements
    pub open_elements: Vec<usize>,
    /// Current head element
    pub head_element: Option<usize>,
    /// Current form element
    pub form_element: Option<usize>,
    /// If true, scripting is enabled
    pub scripting_enabled: bool,
    /// if true, we can insert a frameset
    pub frameset_ok: bool,
    /// Foster parenting flag
    pub foster_parenting: bool,
    /// If true, the script engine has already started
    pub script_already_started: bool,
    /// Pending table character tokens
    pub pending_table_character_tokens: Vec<char>,
    /// Acknowledge self closing tags
    pub ack_self_closing: bool,
    /// List of active formatting elements or markers
    pub active_formatting_elements: Vec<ActiveElement>,
    /// Is the current parsing a fragment case
    pub is_fragment_case: bool,
    /// The parse errors found so far
    pub errors: Vec<ParseError>,
    /// A reference to the document we are parsing
    pub document: &'a mut Document,
}

/// The state of the tree builder, as values.
pub struct BuildView {
    /// The nodes of the document
    pub doc: Map<usize, NodeView>,
    /// The id the next node gets
    pub next_id: nat,
    /// The open elements, bottom first
    pub stack: Seq<usize>,
    pub mode: InsertionMode,
    pub original_mode: InsertionMode,
    pub template_modes: Seq<InsertionMode>,
    pub head: Option<usize>,
    pub form: Option<usize>,
    pub frameset_ok: bool,
    pub foster_parenting: bool,
    pub ack_self_closing: bool,
    pub active: Seq<ActiveElement>,
    pub pending: Seq<char>,
    pub reprocess: bool,
    /// The parse errors recorded so far
    pub errors: Seq<SpecError>,
    pub doctype: DocumentType,
    pub quirks: QuirksMode,
    /// The token being processed
    pub token: SpecToken,
    /// Where the tokenizer is: where errors are reported
    pub pos: Position,
    pub scripting: bool,
    pub cannot_change_mode: bool,
    pub fragment: bool,
}

impl<'a> View for Html5Parser<'a> {
    type V = BuildView;

    open spec fn view(&self) -> BuildView {
        BuildView {
            doc: self.document@,
            next_id: self.document.next_id(),
            stack: self.open_elements@,
            mode: self.insertion_mode,
            original_mode: self.original_insertion_mode,
            template_modes: self.template_insertion_mode@,
            head: self.head_element,
            form: self.form_element,
            frameset_ok: self.frameset_ok,
            foster_parenting: self.foster_parenting,
            ack_self_closing: self.ack_self_closing,
            active: self.active_formatting_elements@,
            pending: self.pending_table_character_tokens@,
            reprocess: self.reprocess_token,
            errors: self.errors@.map_values(|e: ParseError| e@),
            doctype: self.document.doctype,
            quirks: self.document.quirks_mode,
            token: self.current_token@,
            pos: self.tokenizer.stream.position,
            scripting: self.scripting_enabled,
            cannot_change_mode: self.parser_cannot_change_mode,
            fragment: self.is_fragment_case,
        }
    }
}

impl<'a> Html5Parser<'a> {
    /// The parser's invariant: the tokenizer can run, the document is well
    /// formed, has a root, and holds every open element.
    pub open spec fn inv(&self) -> bool {
        &&& tokenizer_ok(&self.tokenizer)
        &&& self.document.wf()
        &&& stack_ok(self.document@, self.open_elements@)
        &&& (self.head_element matches Some(h) ==> self.document@.contains_key(h))
        &&& (self.form_element matches Some(f) ==> self.document@.contains_key(f))
    }

    /// What every step of the tree builder keeps: the invariant, the current
    /// token, the tokenizer, and a document that is a tree rooted at id 0.
    pub open spec fn step_ok(&self, o: &Self) -> bool {
        &&& self.inv()
        &&& self.current_token == o.current_token
        &&& self.tokenizer@ == o.tokenizer@
        &&& self.tokenizer.stream.position == o.tokenizer.stream.position
        &&& (rooted_tree(o.document@) ==> rooted_tree(self.document@))
    }

    /// The nodes of the document being built.
    pub open spec fn doc(&self) -> Map<usize, NodeView> {
        self.document@
    }

    /// The names of the open elements, bottom first.
    pub open spec fn names(&self) -> Seq<Seq<char>> {
        stack_names(self.document@, self.open_elements@)
    }

    /// Creates a new parser object with the given input stream and document.
    pub fn new(stream: &'a mut InputStream, document: &'a mut Document) -> (r: Self)
        requires
            old(stream).wf(),
            old(document).wf(),
            old(document)@.contains_key(0),
        ensures
            r.inv(),
            *r.document == *old(document),
            *r.tokenizer.stream == *old(stream),
            r.insertion_mode == InsertionMode::Initial,
            r.open_elements@.len() == 0,
            r.active_formatting_elements@.len() == 0,
            r.template_insertion_mode@.len() == 0,
            r.errors@.len() == 0,
            r.head_element is None,
            r.form_element is None,
            r.scripting_enabled,
            r.frameset_ok,
            !r.reprocess_token,
            tree_ok(old(document)@) && ids_ok(old(document)@) ==> doc_ok(r@),
    {
        proof {
            reveal(tokenizer_ok);
        }
        Html5Parser {
            tokenizer: Tokenizer::new(stream, None),
            insertion_mode: InsertionMode::Initial,
            original_insertion_mode: InsertionMode::Initial,
            template_insertion_mode: Vec::new(),
            parser_cannot_change_mode: false,
            current_token: Token::EofToken,
            reprocess_token: false,
            open_elements: Vec::new(),
            head_element: None,
            form_element: None,
            scripting_enabled: true,
            frameset_ok: true,
            foster_parenting: false,
            script_already_started: false,
            pending_table_character_tokens: Vec::new(),
            ack_self_closing: false,
            active_formatting_elements: Vec::new(),
            is_fragment_case: false,
            errors: Vec::new(),
            document: document,
        }
    }

    /// The id of the current node: the last open element, or the root.
    fn current_node_id(&self) -> (r: usize)
        requires
            self.inv(),
        ensures
            r == current_id(self.open_elements@),
            self.doc().contains_key(r),
    {
        let len = self.open_elements.len();
        if len == 0 {
            0
        } else {
            self.open_elements[len - 1]
        }
    }

    /// The current node: the last open element, or the root.
    fn current_node(&self) -> (r: &Node)
        requires
            self.inv(),
        ensures
            r@ == self.doc()[current_id(self.open_elements@)],
    {
        let id = self.current_node_id();
        self.document.get_node_by_id(id).unwrap()
    }

    /// The name of the open element at index `idx`.
    fn open_element_name(&self, idx: usize) -> (r: &str)
        requires
            self.inv(),
            idx < self.open_elements@.len(),
        ensures
            r@ == self.names()[idx as int],
            r@ == vnames(self@)[idx as int],
    {
        let id = self.open_elements[idx];
        assert(self.document@.contains_key(self.open_elements@[idx as int]));
        self.document.get_node_by_id(id).unwrap().name.as_str()
    }

    /// Creates the node for a token, not yet attached to the document.
    fn create_node(&self, token: &Token) -> (r: Node)
        requires
            !(token@ is Eof),
        ensures
            r@ == token_node(token@),
    {
        proof {
            reveal_strlit("doctype[");
        }
        match token {
            Token::DocTypeToken { name, pub_identifier, sys_identifier, force_quirks } => {
                let mut val = string_from_str("doctype[");
                push_str(&mut val, opt_str(name));
                push_str(&mut val, " ");
                push_str(&mut val, opt_str(pub_identifier));
                push_str(&mut val, " ");
                push_str(&mut val, opt_str(sys_identifier));
                push_str(&mut val, " ");
                push_str(&mut val, bool_string(*force_quirks));
                push_str(&mut val, "]");
                Node::new_element(val.as_str(), Vec::new(), HTML_NAMESPACE)
            },
            Token::StartTagToken { name, attributes, .. } => {
                Node::new_element(name.as_str(), copy_attributes(attributes), HTML_NAMESPACE)
            },
            Token::EndTagToken { name } => {
                let mut val = string_from_str("end_tag[");
                push_str(&mut val, name.as_str());
                push_str(&mut val, "]");
                Node::new_element(val.as_str(), Vec::new(), HTML_NAMESPACE)
            },
            Token::CommentToken { value } => Node::new_comment(value.as_str()),
            Token::TextToken { value } => Node::new_text(value.as_str()),
            Token::EofToken => Node::new_document(),
        }
    }

    /// Acknowledges the self-closing flag of a start tag.
    fn acknowledge_self_closing_tag(&mut self, _token: &Token)
        ensures
            *final(self) == (Html5Parser { ack_self_closing: true, ..*old(self) }),
            final(self)@ == (BuildView { ack_self_closing: true, ..old(self)@ }),
    {
        self.ack_self_closing = true;
    }

    /// Pops open elements while the current node is not one of `names`.
    fn pop_until_any(&mut self, names: &[&str])
        requires
            old(self).inv(),
        ensures
            final(self).inv(),
            final(self).open_elements@ == pop_while(
                old(self).doc(),
                old(self).open_elements@,
                in_names(names@),
            ),
            *final(self) == (Html5Parser { open_elements: final(self).open_elements, ..*old(self) }),
    {
        let ghost stop = in_names(names@);
        while self.open_elements.len() > 0
            invariant
                self.inv(),
                stop == in_names(names@),
                self.doc() == old(self).doc(),
                pop_while(self.doc(), self.open_elements@, stop) == pop_while(
                    old(self).doc(),
                    old(self).open_elements@,
                    stop,
                ),
                *self == (Html5Parser { open_elements: self.open_elements, ..*old(self) }),
            decreases self.open_elements@.len(),
        {
            let ghost s0 = self.open_elements@;
            let name = self.open_element_name(self.open_elements.len() - 1);
            assert(name@ == name_of(self.doc(), s0.last()));
            let found = list_contains(names, name);
            if found {
                return;
            }
            self.open_elements.pop();
            assert(self.open_elements@ == s0.drop_last());
        }
    }

    /// Pops open elements while the current node is not named `name`.
    fn pop_to(&mut self, name: &str)
        requires
            old(self).inv(),
        ensures
            final(self).inv(),
            final(self).open_elements@ == pop_while(
                old(self).doc(),
                old(self).open_elements@,
                is_name(name@),
            ),
            *final(self) == (Html5Parser { open_elements: final(self).open_elements, ..*old(self) }),
    {
        let ghost stop = is_name(name@);
        while self.open_elements.len() > 0
            invariant
                self.inv(),
                stop == is_name(name@),
                self.doc() == old(self).doc(),
                pop_while(self.doc(), self.open_elements@, stop) == pop_while(
                    old(self).doc(),
                    old(self).open_elements@,
                    stop,
                ),
                *self == (Html5Parser { open_elements: self.open_elements, ..*old(self) }),
            decreases self.open_elements@.len(),
        {
            let ghost s0 = self.open_elements@;
            let top = self.open_element_name(self.open_elements.len() - 1);
            assert(top@ == name_of(self.doc(), s0.last()));
            if str_eq(top, name) {
                return;
            }
            self.open_elements.pop();
            assert(self.open_elements@ == s0.drop_last());
        }
    }

    /// Pops open elements until one named `name` has been popped.
    fn pop_until(&mut self, name: &str)
        requires
            old(self).inv(),
        ensures
            final(self).inv(),
            final(self).open_elements@ == drop_top(
                pop_while(old(self).doc(), old(self).open_elements@, is_name(name@)),
            ),
            *final(self) == (Html5Parser { open_elements: final(self).open_elements, ..*old(self) }),
            final(self)@ == pop_until_v(old(self)@, name@),
    {
        proof {
            reveal(pop_until_v);
        }
        self.pop_to(name);
        if self.open_elements.len() > 0 {
            self.open_elements.pop();
        }
    }

    /// Pops the current node; tells whether there was one and it was named
    /// `name`.
    fn pop_check(&mut self, name: &str) -> (r: bool)
        requires
            old(self).inv(),
        ensures
            final(self).inv(),
            r == (old(self).open_elements@.len() > 0 && old(self).names().last() == name@),
            final(self).open_elements@ == if old(self).open_elements@.len() > 0 {
                old(self).open_elements@.drop_last()
            } else {
                old(self).open_elements@
            },
            *final(self) == (Html5Parser { open_elements: final(self).open_elements, ..*old(self) }),
    {
        let len = self.open_elements.len();
        if len == 0 {
            return false;
        }
        let same = str_eq(self.open_element_name(len - 1), name);
        self.open_elements.pop();
        same
    }

    /// Whether an open element is named `name`.
    fn open_elements_has(&self, name: &str) -> (r: bool)
        requires
            self.inv(),
        ensures
            r == self.names().contains(name@),
            r == has_open(self@, name@),
    {
        let mut i: usize = self.open_elements.len();
        while i > 0
            invariant
                self.inv(),
                i <= self.open_elements@.len(),
                forall|j: int| i <= j < self.open_elements@.len() ==> #[trigger] self.names()[j]
                    != name@,
            decreases i,
        {
            i -= 1;
            if str_eq(self.open_element_name(i), name) {
                return true;
            }
        }
        false
    }

    /// Generates implied end tags: pops the current node while it is one
    /// whose end tag is implied (when closing thoroughly, table elements
    /// too), stopping at `except`.
    #[verifier::rlimit(50)]
    fn generate_all_implied_end_tags(&mut self, except: Option<&str>, thoroughly: bool)
        requires
            old(self).inv(),
        ensures
            final(self).inv(),
            final(self).open_elements@ == pop_while(
                old(self).doc(),
                old(self).open_elements@,
                implied_stop(opt_str_view(except), thoroughly),
            ),
            *final(self) == (Html5Parser { open_elements: final(self).open_elements, ..*old(self) }),
            final(self)@ == implied(old(self)@, opt_str_view(except), thoroughly),
    {
        proof {
            reveal(implied);
        }
        let ghost stop = implied_stop(opt_str_view(except), thoroughly);
        while self.open_elements.len() > 0
            invariant
                self.inv(),
                stop == implied_stop(opt_str_view(except), thoroughly),
                self.doc() == old(self).doc(),
                pop_while(self.doc(), self.open_elements@, stop) == pop_while(
                    old(self).doc(),
                    old(self).open_elements@,
                    stop,
                ),
                *self == (Html5Parser { open_elements: self.open_elements, ..*old(self) }),
            decreases self.open_elements@.len(),
        {
            proof {
                reveal(implied);
            }
            let ghost s0 = self.open_elements@;
            let val = self.open_element_name(self.open_elements.len() - 1);
            assert(val@ == name_of(self.doc(), s0.last()));
            let excepted = match except {
                Some(e) => str_eq(e, val),
                None => false,
            };
            if excepted {
                return;
            }
            let implied_tag = list_contains(&IMPLIED_END_TAGS, val) || (thoroughly
                && list_contains(&THOROUGH_END_TAGS, val));
            if !implied_tag {
                return;
            }
            self.open_elements.pop();
            assert(self.open_elements@ == s0.drop_last());
        }
    }

    /// Pops all elements back to a table context.
    fn clear_stack_back_to_table_context(&mut self)
        requires
            old(self).inv(),
        ensures
            final(self).inv(),
            final(self).open_elements@ == pop_while(
                old(self).doc(),
                old(self).open_elements@,
                in_names(TABLE_CONTEXT@),
            ),
            *final(self) == (Html5Parser { open_elements: final(self).open_elements, ..*old(self) }),
            final(self)@ == clear_table(old(self)@),
    {
        proof {
            reveal(clear_table);
        }
        self.pop_until_any(&TABLE_CONTEXT);
    }

    /// Pops all elements back to a table body context.
    fn clear_stack_back_to_table_body_context(&mut self)
        requires
            old(self).inv(),
        ensures
            final(self).inv(),
            final(self).open_elements@ == pop_while(
                old(self).doc(),
                old(self).open_elements@,
                in_names(TABLE_BODY_CONTEXT@),
            ),
            *final(self) == (Html5Parser { open_elements: final(self).open_elements, ..*old(self) }),
            final(self)@ == clear_table_body(old(self)@),
    {
        proof {
            reveal(clear_table_body);
        }
        self.pop_until_any(&TABLE_BODY_CONTEXT);
    }

    /// Pops all elements back to a table row context.
    fn clear_stack_back_to_table_row_context(&mut self)
        requires
            old(self).inv(),
        ensures
            final(self).inv(),
            final(self).open_elements@ == pop_while(
                old(self).doc(),
                old(self).open_elements@,
                in_names(TABLE_ROW_CONTEXT@),
            ),
            *final(self) == (Html5Parser { open_elements: final(self).open_elements, ..*old(self) }),
            final(self)@ == clear_row(old(self)@),
    {
        proof {
            reveal(clear_row);
        }
        self.pop_until_any(&TABLE_ROW_CONTEXT);
    }

    /// Clears the active formatting elements up to and including the last
    /// marker.
    fn clear_active_formatting_elements_until_marker(&mut self)
        ensures
            final(self).active_formatting_elements@ == clear_to_marker(
                old(self).active_formatting_elements@,
            ),
            *final(self) == (Html5Parser {
                active_formatting_elements: final(self).active_formatting_elements,
                ..*old(self)
            }),
            final(self)@ == clear_marker(old(self)@),
    {
        proof {
            reveal(clear_marker);
        }
        loop
            invariant
                clear_to_marker(self.active_formatting_elements@) == clear_to_marker(
                    old(self).active_formatting_elements@,
                ),
                *self == (Html5Parser {
                    active_formatting_elements: self.active_formatting_elements,
                    ..*old(self)
                }),
            decreases self.active_formatting_elements@.len(),
        {
            proof {
                reveal(clear_marker);
            }
            let active_elem = self.active_formatting_elements.pop();
            match active_elem {
                None => return ,
                Some(ActiveElement::Marker) => return ,
                Some(ActiveElement::Node(_)) => {},
            }
        }
    }

    /// Adds a marker to the active formatting elements.
    fn add_marker(&mut self)
        ensures
            final(self).active_formatting_elements@ == old(
                self,
            ).active_formatting_elements@.push(ActiveElement::Marker),
            *final(self) == (Html5Parser {
                active_formatting_elements: final(self).active_formatting_elements,
                ..*old(self)
            }),
            final(self)@ == marker(old(self)@),
    {
        proof {
            reveal(marker);
        }
        self.active_formatting_elements.push(ActiveElement::Marker);
    }

    /// Searches the open elements from the current node down for `tag`
    /// (see `scope_search`).
    fn scope_check(&self, tag: &str, scope: Scope) -> (r: Option<bool>)
        requires
            self.inv(),
            self.open_elements@.len() > 0,
        ensures
            r == scope_search(self.names(), self.open_elements@.len() - 1, tag@, scope),
    {
        let mut idx = self.open_elements.len() - 1;
        loop
            invariant
                self.inv(),
                idx < self.open_elements@.len(),
                scope_search(self.names(), idx as int, tag@, scope) == scope_search(
                    self.names(),
                    self.open_elements@.len() - 1,
                    tag@,
                    scope,
                ),
            decreases idx,
        {
            let name = self.open_element_name(idx);
            assert(name@ == self.names()[idx as int]);
            if str_eq(name, tag) {
                return Some(true);
            }
            let bound = match scope {
                Scope::Regular => list_contains(&REGULAR_SCOPE, name),
                Scope::ListItem => list_contains(&LIST_ITEM_SCOPE, name),
                Scope::Button => list_contains(&BUTTON_SCOPE, name),
                Scope::Table => list_contains(&TABLE_SCOPE, name),
                Scope::Select => !list_contains(&SELECT_SCOPE, name),
            };
            assert(bound == scope_bound(scope, name@));
            if bound {
                return Some(false);
            }
            if idx == 0 {
                assert(scope_search(self.names(), -1, tag@, scope) is None);
                return None;
            }
            idx -= 1;
        }
    }

    /// Whether `tag` is in the given scope: searching the open elements from
    /// the current node down, `tag` comes before any bound of the scope.
    fn in_scope(&self, tag: &str, scope: Scope) -> (r: bool)
        requires
            self.inv(),
            self.open_elements@.len() > 0,
            scope_search(self.names(), self.open_elements@.len() - 1, tag@, scope) is Some,
        ensures
            r == scope_search(self.names(), self.open_elements@.len() - 1, tag@, scope)->0,
    {
        self.scope_check(tag, scope).unwrap()
    }

    /// The insertion mode that resetting gives here (see `reset_mode`).
    fn find_reset_mode(&self) -> (r: Option<InsertionMode>)
        requires
            self.inv(),
            self.open_elements@.len() > 0,
        ensures
            r == reset_mode(
                self.names(),
                self.open_elements@.len() - 1,
                self.head_element is None,
                template_last(self.template_insertion_mode@),
            ),
    {
        let ghost names = self.names();
        let ghost h = self.head_element is None;
        let ghost t = template_last(self.template_insertion_mode@);
        let ghost top = self.open_elements@.len() - 1;
        let mut idx = self.open_elements.len() - 1;
        loop
            invariant
                self.inv(),
                names == self.names(),
                h == (self.head_element is None),
                t == template_last(self.template_insertion_mode@),
                top == self.open_elements@.len() - 1,
                idx < self.open_elements@.len(),
                reset_mode(names, idx as int, h, t) == reset_mode(names, top, h, t),
            decreases idx,
        {
            let last = idx == 0;
            let name = self.open_element_name(idx);
            if str_eq(name, "select") {
                if last {
                    return Some(InsertionMode::InSelect);
                }
                let mut ancestor_idx = idx;
                loop
                    invariant
                        self.inv(),
                        names == self.names(),
                        0 < idx < self.open_elements@.len(),
                        ancestor_idx <= idx,
                        select_mode(names, ancestor_idx as int) == select_mode(names, idx as int),
                        names[idx as int] == "select"@,
                        h == (self.head_element is None),
                        t == template_last(self.template_insertion_mode@),
                        top == self.open_elements@.len() - 1,
                        reset_mode(names, idx as int, h, t) == reset_mode(names, top, h, t),
                    decreases ancestor_idx,
                {
                    if ancestor_idx == 0 {
                        return Some(InsertionMode::InSelect);
                    }
                    ancestor_idx -= 1;
                    let ancestor = self.open_element_name(ancestor_idx);
                    assert(ancestor@ == names[ancestor_idx as int]);
                    if str_eq(ancestor, "template") {
                        return Some(InsertionMode::InSelect);
                    }
                    if str_eq(ancestor, "table") {
                        return Some(InsertionMode::InSelectInTable);
                    }
                }
            }
            if (str_eq(name, "td") || str_eq(name, "th")) && !last {
                return Some(InsertionMode::InCell);
            }
            if str_eq(name, "tr") {
                return Some(InsertionMode::InRow);
            }
            if list_contains(&TABLE_SECTIONS, name) {
                return Some(InsertionMode::InTableBody);
            }
            if str_eq(name, "caption") {
                return Some(InsertionMode::InCaption);
            }
            if str_eq(name, "colgroup") {
                return Some(InsertionMode::InColumnGroup);
            }
            if str_eq(name, "table") {
                return Some(InsertionMode::InTable);
            }
            if str_eq(name, "template") {
                let n = self.template_insertion_mode.len();
                if n == 0 {
                    return None;
                }
                return Some(self.template_insertion_mode[n - 1]);
            }
            if str_eq(name, "head") && !last {
                return Some(InsertionMode::InHead);
            }
            if str_eq(name, "body") {
                return Some(InsertionMode::InBody);
            }
            if str_eq(name, "frameset") {
                return Some(InsertionMode::InFrameset);
            }
            if str_eq(name, "html") {
                if self.head_element.is_none() {
                    return Some(InsertionMode::BeforeHead);
                }
                return Some(InsertionMode::AfterHead);
            }
            if last {
                return Some(InsertionMode::InBody);
            }
            idx -= 1;
        }
    }

    /// Resets the insertion mode from the open elements (see `reset_mode`).
    fn reset_insertion_mode(&mut self)
        requires
            old(self).inv(),
            old(self).open_elements@.len() > 0,
            reset_mode(
                old(self).names(),
                old(self).open_elements@.len() - 1,
                old(self).head_element is None,
                template_last(old(self).template_insertion_mode@),
            ) is Some,
        ensures
            final(self).inv(),
            *final(self) == (Html5Parser {
                insertion_mode: reset_mode(
                    old(self).names(),
                    old(self).open_elements@.len() - 1,
                    old(self).head_element is None,
                    template_last(old(self).template_insertion_mode@),
                )->0,
                ..*old(self)
            }),
    {
        let mode = self.find_reset_mode();
        self.insertion_mode = mode.unwrap();
    }

    /// Closes the current cell: generates implied end tags, then, if the
    /// current node is a cell, pops back to it, clears the active formatting
    /// elements to the last marker and moves to the "in row" mode; otherwise
    /// records a parse error.
    fn close_cell(&mut self)
        requires
            old(self).inv(),
        ensures
            final(self).step_ok(old(self)),
            final(self)@ == close_cell_v(old(self)@),
            final(self).reprocess_token == old(self).reprocess_token,
            ({
                let s1 = pop_while(
                    old(self).doc(),
                    old(self).open_elements@,
                    implied_stop(None, false),
                );
                let cur = name_of(old(self).doc(), current_id(s1));
                if cur == "td"@ || cur == "th"@ {
                    *final(self) == (Html5Parser {
                        open_elements: final(self).open_elements,
                        active_formatting_elements: final(self).active_formatting_elements,
                        insertion_mode: InsertionMode::InRow,
                        ..*old(self)
                    })
                    && final(self).open_elements@ == drop_top(
                        pop_while(old(self).doc(), s1, in_names(CELL_TAGS@)),
                    )
                    && final(self).active_formatting_elements@ == clear_to_marker(
                        old(self).active_formatting_elements@,
                    )
                } else {
                    &&& final(self).open_elements@ == s1
                    &&& final(self).errors@.drop_last() == old(self).errors@
                    &&& final(self).errors@.len() == old(self).errors@.len() + 1
                    &&& final(self).tokenizer@ == old(self).tokenizer@
                    &&& *final(self).document == *old(self).document
                    &&& final(self).active_formatting_elements == old(self).active_formatting_elements
                    &&& final(self).insertion_mode == old(self).insertion_mode
                }
            }),

    {
        proof {
            reveal(close_cell_v);
            reveal(implied);
            reveal(clear_marker);
            reveal(err);
            reveal(with_mode);
        }
        self.generate_all_implied_end_tags(None, false);
        let id = self.current_node_id();
        let is_cell = {
            let tag = self.document.get_node_by_id(id).unwrap().name.as_str();
            str_eq(tag, "td") || str_eq(tag, "th")
        };
        if !is_cell {
            self.parse_error("current node should be td or th");
            return ;
        }
        self.pop_until_any(&CELL_TAGS);
        if self.open_elements.len() > 0 {
            self.open_elements.pop();
        }
        self.clear_active_formatting_elements_until_marker();
        self.insertion_mode = InsertionMode::InRow;
    }

    /// Records a parse error at the tokenizer's current position.
    fn parse_error(&mut self, message: &str)
        requires
            old(self).inv(),
        ensures
            final(self).inv(),
            final(self).errors@.len() == old(self).errors@.len() + 1,
            final(self).errors@.last().message@ == message@,
            final(self).errors@.drop_last() == old(self).errors@,
            final(self).tokenizer@ == old(self).tokenizer@,
            final(self).tokenizer.stream.position == old(self).tokenizer.stream.position,
            *final(self).document == *old(self).document,
            final(self).open_elements == old(self).open_elements,
            final(self).active_formatting_elements == old(self).active_formatting_elements,
            final(self).insertion_mode == old(self).insertion_mode,
            final(self).template_insertion_mode == old(self).template_insertion_mode,
            final(self).head_element == old(self).head_element,
            final(self).form_element == old(self).form_element,
            final(self).current_token == old(self).current_token,
            final(self).reprocess_token == old(self).reprocess_token,
            final(self)@ == err(old(self)@, message@),
    {
        proof {
            reveal(tokenizer_ok);
            reveal(err);
        }
        let pos = self.tokenizer.get_position();
        let ghost before = self.errors@;
        self.errors.push(
            ParseError {
                message: string_from_str(message),
                line: pos.line,
                col: pos.col,
                offset: pos.offset,
            },
        );
        assert(self.errors@.drop_last() =~= before);
        assert(self.errors@.map_values(|e: ParseError| e@) =~= old(self).errors@.map_values(
            |e: ParseError| e@,
        ).push(
            SpecError {
                message: message@,
                line: old(self).tokenizer.stream.position.line,
                col: old(self).tokenizer.stream.position.col,
                offset: old(self).tokenizer.stream.position.offset,
            },
        ));
    }
}

} // verus!
