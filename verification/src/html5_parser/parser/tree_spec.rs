//! What each insertion mode does with the current token, stated over the
//! tree builder's state as values (`BuildView`).

use vstd::prelude::*;
use crate::html5_parser::node::NodeView;
use crate::html5_parser::node_arena::attached;
use crate::html5_parser::parser::document::DocumentType;
use crate::html5_parser::parser::quirks::QuirksMode;
use crate::html5_parser::parser::tree_builder::{
    end_tag_named, merge_attrs, start_tag_named, BuildError, BODY_HTML_BR, CELL_AND_ROW_TAGS, CELL_IGNORED_END_TAGS, HEAD_BODY_HTML_BR, HEAD_ELEMENTS, HEAD_ELEMENTS_IN_BODY, HEAD_LINK_TAGS, HEAD_NOSCRIPT, INPUT_KEYGEN_TEXTAREA, NOFRAMES_STYLE, NOSCRIPT_HEAD_TAGS, ROW_ENDING_TAGS, SCRIPT_TEMPLATE, SECTION_AND_ROW_TAGS, SECTION_TAGS, SELECT_IN_TABLE_ENDS, STYLE_SCRIPT_TEMPLATE, TABLE_BODY_ENDING_TAGS, TABLE_BODY_IGNORED_END_TAGS, TABLE_IGNORED_END_TAGS, TABLE_PARTS, TEMPLATE_TABLE_TAGS,
};
use crate::html5_parser::parser::{
    clear_to_marker, current_id, drop_top, implied_stop, in_names, is_name, pop_while, reset_mode,
    scope_search, stack_names, template_last, token_node, ActiveElement, BuildView,
    InsertionMode, Scope, CELL_TAGS, TABLE_BODY_CONTEXT, TABLE_CONTEXT, TABLE_ROW_CONTEXT,
};
use crate::html5_parser::node::NodeDataView;
use crate::html5_parser::token::{empty_or_white, SpecToken};
use crate::html5_parser::input_stream::position_at;
use crate::html5_parser::tokenizer_spec::{run, SpecError, TokView};

verus! {

// ---------------------------------------------------------------------------
// Reading the state
// ---------------------------------------------------------------------------

/// The id of the current node.
pub open spec fn cur(v: BuildView) -> usize {
    current_id(v.stack)
}

/// The name of the current node.
pub open spec fn cur_name(v: BuildView) -> Seq<char> {
    v.doc[cur(v)].name
}

/// The names of the open elements.
pub open spec fn vnames(v: BuildView) -> Seq<Seq<char>> {
    stack_names(v.doc, v.stack)
}

/// Whether a token is a start tag named `name`.
pub open spec fn start_named(t: SpecToken, name: Seq<char>) -> bool {
    t matches SpecToken::StartTag { name: n, .. } && n == name
}

/// Whether a token is an end tag named `name`.
pub open spec fn end_named(t: SpecToken, name: Seq<char>) -> bool {
    t matches SpecToken::EndTag { name: n } && n == name
}

/// Whether the token is a start tag named by one of `names`.
pub open spec fn st(v: BuildView, names: Seq<&str>) -> bool {
    start_tag_named(v.token, names)
}

/// Whether the token is an end tag named by one of `names`.
pub open spec fn et(v: BuildView, names: Seq<&str>) -> bool {
    end_tag_named(v.token, names)
}

/// Whether the token is a start tag named `name`.
pub open spec fn st1(v: BuildView, name: Seq<char>) -> bool {
    start_named(v.token, name)
}

/// Whether the token is an end tag named `name`.
pub open spec fn et1(v: BuildView, name: Seq<char>) -> bool {
    end_named(v.token, name)
}

/// The name of the current tag (empty for other tokens).
pub open spec fn tag(v: BuildView) -> Seq<char> {
    match v.token {
        SpecToken::StartTag { name, .. } => name,
        SpecToken::EndTag { name } => name,
        _ => Seq::empty(),
    }
}

/// Whether the token is text that is empty or all white space.
pub open spec fn white(v: BuildView) -> bool {
    empty_or_white(v.token)
}

/// Whether the token is a self-closing start tag.
pub open spec fn self_closing(v: BuildView) -> bool {
    v.token matches SpecToken::StartTag { is_self_closing, .. } && is_self_closing
}

/// Whether the token is text made of one NUL character.
pub open spec fn null_text(v: BuildView) -> bool {
    v.token matches SpecToken::Text { value } && value == seq!['\0']
}

/// Whether an open element is named `name`.
pub open spec fn has_open(v: BuildView, name: Seq<char>) -> bool {
    vnames(v).contains(name)
}

// ---------------------------------------------------------------------------
// Changing the state
// ---------------------------------------------------------------------------

/// The state with a parse error recorded at the tokenizer's position.
#[verifier::opaque]
pub open spec fn err(v: BuildView, msg: Seq<char>) -> BuildView {
    BuildView {
        errors: v.errors.push(
            SpecError { message: msg, line: v.pos.line, col: v.pos.col, offset: v.pos.offset },
        ),
        ..v
    }
}

/// The state in the given insertion mode.
#[verifier::opaque]
pub open spec fn with_mode(v: BuildView, m: InsertionMode) -> BuildView {
    BuildView { mode: m, ..v }
}

/// The state, marked to process the token again.
#[verifier::opaque]
pub open spec fn again(v: BuildView) -> BuildView {
    BuildView { reprocess: true, ..v }
}

/// The state with the current node popped (if any).
#[verifier::opaque]
pub open spec fn pop(v: BuildView) -> BuildView {
    BuildView {
        stack: if v.stack.len() > 0 {
            v.stack.drop_last()
        } else {
            v.stack
        },
        ..v
    }
}

/// The state with `id` pushed on the open elements.
#[verifier::opaque]
pub open spec fn push(v: BuildView, id: usize) -> BuildView {
    BuildView { stack: v.stack.push(id), ..v }
}

/// The state with `m` pushed on the template insertion modes.
#[verifier::opaque]
pub open spec fn template_push(v: BuildView, m: InsertionMode) -> BuildView {
    BuildView { template_modes: v.template_modes.push(m), ..v }
}

/// The state with the second open element removed.
#[verifier::opaque]
pub open spec fn remove_second(v: BuildView) -> BuildView {
    BuildView { stack: v.stack.remove(1), ..v }
}

/// The state with `id` as the head element.
#[verifier::opaque]
pub open spec fn with_head(v: BuildView, id: usize) -> BuildView {
    BuildView { head: Some(id), ..v }
}

/// The state with `id` as the form element.
#[verifier::opaque]
pub open spec fn with_form(v: BuildView, id: usize) -> BuildView {
    BuildView { form: Some(id), ..v }
}

/// The state with the frameset-ok flag set to `b`.
#[verifier::opaque]
pub open spec fn with_frameset_ok(v: BuildView, b: bool) -> BuildView {
    BuildView { frameset_ok: b, ..v }
}

/// The state with foster parenting set to `b`.
#[verifier::opaque]
pub open spec fn with_foster(v: BuildView, b: bool) -> BuildView {
    BuildView { foster_parenting: b, ..v }
}

/// The state with the document in quirks mode.
#[verifier::opaque]
pub open spec fn with_quirks(v: BuildView) -> BuildView {
    BuildView { quirks: QuirksMode::Quirks, ..v }
}

/// The state with one more pending table character.
#[verifier::opaque]
pub open spec fn pending_push(v: BuildView, c: char) -> BuildView {
    BuildView { pending: v.pending.push(c), ..v }
}

/// The state collecting table text: no pending characters, the current mode
/// remembered, and the "in table text" mode.
#[verifier::opaque]
pub open spec fn to_table_text(v: BuildView) -> BuildView {
    BuildView {
        pending: Seq::empty(),
        original_mode: v.mode,
        mode: InsertionMode::InTableText,
        ..v
    }
}

/// The state back in the remembered insertion mode.
#[verifier::opaque]
pub open spec fn restore_mode(v: BuildView) -> BuildView {
    BuildView { mode: v.original_mode, ..v }
}

/// A node added under the current node (by the current node's own id), with
/// the next id; the new id comes with the new state.
#[verifier::opaque]
pub open spec fn insert_node(v: BuildView, n: NodeView) -> Result<(BuildView, usize), BuildError> {
    if v.next_id >= usize::MAX {
        Err(BuildError::OutOfIds)
    } else {
        let id = v.next_id as usize;
        Ok(
            (
                BuildView {
                    doc: attached(v.doc.insert(id, NodeView { id: id, ..n }), v.doc[cur(v)].id, id),
                    next_id: v.next_id + 1,
                    ..v
                },
                id,
            ),
        )
    }
}

/// The element that a start tag named `name` (without attributes) makes.
pub open spec fn named_node(name: Seq<char>) -> NodeView {
    token_node(
        SpecToken::StartTag { name: name, is_self_closing: false, attributes: Seq::empty() },
    )
}

/// The node for the current token, added under the current node.
#[verifier::opaque]
pub open spec fn ins(v: BuildView) -> Result<BuildView, BuildError> {
    match insert_node(v, token_node(v.token)) {
        Ok((w, _)) => Ok(w),
        Err(e) => Err(e),
    }
}

/// The node for the current token, added and pushed on the open elements.
#[verifier::opaque]
pub open spec fn ins_push(v: BuildView) -> Result<BuildView, BuildError> {
    match insert_node(v, token_node(v.token)) {
        Ok((w, id)) => Ok(push(w, id)),
        Err(e) => Err(e),
    }
}

/// An element named `name`, added under the current node.
#[verifier::opaque]
pub open spec fn ins_named(v: BuildView, name: Seq<char>) -> Result<BuildView, BuildError> {
    match insert_node(v, named_node(name)) {
        Ok((w, _)) => Ok(w),
        Err(e) => Err(e),
    }
}

/// An element named `name`, added and pushed on the open elements.
#[verifier::opaque]
pub open spec fn ins_named_push(v: BuildView, name: Seq<char>) -> Result<BuildView, BuildError> {
    match insert_node(v, named_node(name)) {
        Ok((w, id)) => Ok(push(w, id)),
        Err(e) => Err(e),
    }
}

/// The self-closing flag acknowledged, when the token has it.
#[verifier::opaque]
pub open spec fn ack_if(v: BuildView) -> BuildView {
    if self_closing(v) {
        BuildView { ack_self_closing: true, ..v }
    } else {
        v
    }
}

/// The current node popped, which must be named `name`.
pub open spec fn pop_expect(v: BuildView, name: Seq<char>) -> Result<BuildView, BuildError> {
    if v.stack.len() > 0 && vnames(v).last() == name {
        Ok(pop(v))
    } else {
        Err(BuildError::BadOpenElements)
    }
}

/// The state, when the current node is named `name`.
pub open spec fn expect_last(v: BuildView, name: Seq<char>) -> Result<BuildView, BuildError> {
    if cur_name(v) == name {
        Ok(v)
    } else {
        Err(BuildError::BadOpenElements)
    }
}

/// Whether `tag` is in scope; an error where the search runs off the bottom
/// of the open elements.
#[verifier::opaque]
pub open spec fn scope_r(v: BuildView, t: Seq<char>, scope: Scope) -> Result<bool, BuildError> {
    if v.stack.len() == 0 {
        Err(BuildError::BadOpenElements)
    } else {
        match scope_search(vnames(v), v.stack.len() - 1, t, scope) {
            Some(b) => Ok(b),
            None => Err(BuildError::BadOpenElements),
        }
    }
}

/// The insertion mode reset from the open elements; an error where the rules
/// cannot decide.
#[verifier::opaque]
pub open spec fn reset(v: BuildView) -> Result<BuildView, BuildError> {
    if v.stack.len() == 0 {
        Err(BuildError::BadOpenElements)
    } else {
        match reset_mode(vnames(v), v.stack.len() - 1, v.head is None, template_last(v.template_modes)) {
            Some(m) => Ok(with_mode(v, m)),
            None => Err(BuildError::BadOpenElements),
        }
    }
}

/// The open elements after generating implied end tags.
#[verifier::opaque]
pub open spec fn implied(v: BuildView, except: Option<Seq<char>>, thoroughly: bool) -> BuildView {
    BuildView { stack: pop_while(v.doc, v.stack, implied_stop(except, thoroughly)), ..v }
}

/// The open elements popped until an element named `name` has been popped.
#[verifier::opaque]
pub open spec fn pop_until_v(v: BuildView, name: Seq<char>) -> BuildView {
    BuildView { stack: drop_top(pop_while(v.doc, v.stack, is_name(name))), ..v }
}

/// The open elements cleared back to a table context.
#[verifier::opaque]
pub open spec fn clear_table(v: BuildView) -> BuildView {
    BuildView { stack: pop_while(v.doc, v.stack, in_names(TABLE_CONTEXT@)), ..v }
}

/// The open elements cleared back to a table body context.
#[verifier::opaque]
pub open spec fn clear_table_body(v: BuildView) -> BuildView {
    BuildView { stack: pop_while(v.doc, v.stack, in_names(TABLE_BODY_CONTEXT@)), ..v }
}

/// The open elements cleared back to a table row context.
#[verifier::opaque]
pub open spec fn clear_row(v: BuildView) -> BuildView {
    BuildView { stack: pop_while(v.doc, v.stack, in_names(TABLE_ROW_CONTEXT@)), ..v }
}

/// The active formatting elements cleared to the last marker.
#[verifier::opaque]
pub open spec fn clear_marker(v: BuildView) -> BuildView {
    BuildView { active: clear_to_marker(v.active), ..v }
}

/// A marker added to the active formatting elements.
#[verifier::opaque]
pub open spec fn marker(v: BuildView) -> BuildView {
    BuildView { active: v.active.push(ActiveElement::Marker), ..v }
}

/// The head element pushed back on the open elements (if any).
#[verifier::opaque]
pub open spec fn head_push(v: BuildView) -> BuildView {
    match v.head {
        Some(h) => push(v, h),
        None => v,
    }
}

/// The current template insertion mode dropped.
#[verifier::opaque]
pub open spec fn template_pop(v: BuildView) -> BuildView {
    BuildView {
        template_modes: if v.template_modes.len() > 0 {
            v.template_modes.drop_last()
        } else {
            v.template_modes
        },
        ..v
    }
}

/// The current template insertion mode replaced by `m`, switched to, and the
/// token marked to be processed again.
pub open spec fn switch_template(v: BuildView, m: InsertionMode) -> BuildView {
    again(with_mode(template_push(template_pop(v), m), m))
}

/// Closing a cell.
#[verifier::opaque]
pub open spec fn close_cell_v(v: BuildView) -> BuildView {
    let w = implied(v, None, false);
    if cur_name(w) == "td"@ || cur_name(w) == "th"@ {
        with_mode(
            clear_marker(
                BuildView { stack: drop_top(pop_while(w.doc, w.stack, in_names(CELL_TAGS@))), ..w },
            ),
            InsertionMode::InRow,
        )
    } else {
        err(w, "current node should be td or th"@)
    }
}

/// Closing a select: popping to it and resetting the insertion mode.
#[verifier::opaque]
pub open spec fn close_select_v(v: BuildView) -> Result<BuildView, BuildError> {
    reset(pop_until_v(v, "select"@))
}

/// The attributes of the `html` start tag merged into the current node.
#[verifier::opaque]
pub open spec fn merge_html(v: BuildView) -> BuildView {
    let id = cur(v);
    match (v.doc[id].data, v.token) {
        (
            NodeDataView::Element { name, attributes },
            SpecToken::StartTag { attributes: incoming, .. },
        ) => BuildView {
            doc: v.doc.insert(
                id,
                NodeView {
                    data: NodeDataView::Element {
                        name: name,
                        attributes: merge_attrs(attributes, incoming),
                    },
                    ..v.doc[id]
                },
            ),
            ..v
        },
        _ => v,
    }
}

/// Whether the current start tag has an attribute named both `a` and `b`.
pub open spec fn attr_both(v: BuildView, a: Seq<char>, b: Seq<char>) -> bool {
    v.token matches SpecToken::StartTag { attributes, .. } && a == b && exists|i: int|
        0 <= i < attributes.len() && #[trigger] attributes[i].0 == a
}

/// Whether the current doctype is one that the "initial" rules report.
pub open spec fn doctype_reported(v: BuildView) -> bool {
    match v.token {
        SpecToken::DocType { name, pub_identifier, sys_identifier, .. } => {
            ||| (name is Some && name->0 != "html"@)
            ||| pub_identifier is Some
            ||| (sys_identifier is Some && sys_identifier->0 != "about:legacy-compat"@)
        },
        _ => false,
    }
}

// ---------------------------------------------------------------------------
// The insertion modes
// ---------------------------------------------------------------------------

/// The "anything else" rule of "in head".
pub open spec fn in_head_else(v: BuildView) -> BuildView {
    again(with_mode(pop(v), InsertionMode::AfterHead))
}

/// The "in head" insertion mode.
#[verifier::opaque]
pub open spec fn in_head(v: BuildView) -> Result<BuildView, BuildError> {
    if white(v) {
        ins(v)
    } else if v.token is Comment {
        ins(v)
    } else if v.token is DocType {
        Ok(err(v, "doctype not allowed in before head insertion mode"@))
    } else if st(v, HEAD_LINK_TAGS@) || st1(v, "meta"@) {
        match ins(v) {
            Ok(w) => Ok(ack_if(pop(w))),
            Err(e) => Err(e),
        }
    } else if st1(v, "title"@) {
        Ok(v)
    } else if st1(v, "noscript"@) && v.scripting {
        Ok(v)
    } else if st(v, NOFRAMES_STYLE@) {
        Ok(v)
    } else if st1(v, "noscript"@) && !v.scripting {
        match ins_push(v) {
            Ok(w) => Ok(with_mode(w, InsertionMode::InHeadNoscript)),
            Err(e) => Err(e),
        }
    } else if st1(v, "script"@) {
        Ok(v)
    } else if et1(v, "head"@) {
        Ok(with_mode(pop(v), InsertionMode::AfterHead))
    } else if et(v, BODY_HTML_BR@) {
        Ok(in_head_else(v))
    } else if st1(v, "template"@) {
        match ins_push(v) {
            Ok(w) => Ok(
                template_push(
                    with_mode(with_frameset_ok(marker(w), false), InsertionMode::InTemplate),
                    InsertionMode::InTemplate,
                ),
            ),
            Err(e) => Err(e),
        }
    } else if et1(v, "template"@) {
        if !has_open(v, "template"@) {
            Ok(err(v, "could not find template tag in open element stack"@))
        } else {
            let w = implied(v, None, true);
            let w2 = if cur_name(w) != "template"@ {
                err(w, "template end tag not at top of stack"@)
            } else {
                w
            };
            reset(template_pop(clear_marker(pop_until_v(w2, "template"@))))
        }
    } else if st1(v, "head"@) {
        Ok(err(v, "head tag not allowed in in head insertion mode"@))
    } else if v.token is EndTag {
        Ok(err(v, "end tag not allowed in in head insertion mode"@))
    } else {
        Ok(in_head_else(v))
    }
}

/// The "in body" insertion mode.
#[verifier::opaque]
pub open spec fn in_body(v: BuildView) -> Result<BuildView, BuildError> {
    if null_text(v) {
        Ok(err(v, "null character not allowed in in body insertion mode"@))
    } else if v.token is Text {
        Err(BuildError::NotImplemented)
    } else if v.token is Comment {
        ins(v)
    } else if v.token is DocType {
        Ok(err(v, "doctype not allowed in in body insertion mode"@))
    } else if st1(v, "html"@) {
        let w = err(v, "html tag not allowed in in body insertion mode"@);
        if has_open(w, "template"@) || w.stack.len() == 0 {
            Ok(w)
        } else {
            Ok(merge_html(w))
        }
    } else if st(v, HEAD_ELEMENTS_IN_BODY@) || et1(v, "template"@) {
        in_head(v)
    } else if st1(v, "body"@) {
        let w = err(v, "body tag not allowed in in body insertion mode"@);
        if w.stack.len() == 1 || !(w.stack.len() > 1 && vnames(w)[1] == "body"@) || !w.frameset_ok {
            Ok(w)
        } else {
            Ok(with_mode(remove_second(w), InsertionMode::InFrameset))
        }
    } else {
        Ok(v)
    }
}

/// The "anything else" rule of "in table": the "in body" rules, with foster
/// parenting on.
pub open spec fn in_table_else(v: BuildView) -> Result<BuildView, BuildError> {
    let w = err(v, "anything else not allowed in in table insertion mode"@);
    match in_body(with_foster(w, true)) {
        Ok(x) => Ok(with_foster(x, false)),
        Err(e) => Err(e),
    }
}

/// Whether the current node is one under which text goes to the table text
/// rules.
pub open spec fn table_text_node(v: BuildView) -> bool {
    let n = cur_name(v);
    n == "table"@ || n == "tbody"@ || n == "template"@ || n == "tfoot"@ || n == "tr"@
}

/// The "in table" insertion mode.
#[verifier::opaque]
pub open spec fn in_table(v: BuildView) -> Result<BuildView, BuildError> {
    if v.token is Text && table_text_node(v) {
        Ok(again(to_table_text(v)))
    } else if v.token is Comment {
        ins_push(v)
    } else if v.token is DocType {
        Ok(err(v, "doctype not allowed in in table insertion mode"@))
    } else if st1(v, "caption"@) {
        match ins_push(marker(clear_table(v))) {
            Ok(w) => Ok(with_mode(w, InsertionMode::InCaption)),
            Err(e) => Err(e),
        }
    } else if st1(v, "colgroup"@) {
        match ins_push(clear_table(v)) {
            Ok(w) => Ok(with_mode(w, InsertionMode::InColumnGroup)),
            Err(e) => Err(e),
        }
    } else if st1(v, "col"@) {
        match ins_named_push(clear_table(v), "colgroup"@) {
            Ok(w) => Ok(again(with_mode(w, InsertionMode::InColumnGroup))),
            Err(e) => Err(e),
        }
    } else if st(v, SECTION_TAGS@) {
        match ins_push(clear_table(v)) {
            Ok(w) => Ok(with_mode(w, InsertionMode::InTableBody)),
            Err(e) => Err(e),
        }
    } else if st(v, CELL_AND_ROW_TAGS@) {
        match ins_named_push(clear_table(v), "tbody"@) {
            Ok(w) => Ok(again(with_mode(w, InsertionMode::InTableBody))),
            Err(e) => Err(e),
        }
    } else {
        in_table_tail(v)
    }
}

/// The "in table" rules from the `table` start tag on.
#[verifier::opaque]
pub open spec fn in_table_tail(v: BuildView) -> Result<BuildView, BuildError> {
    if st1(v, "table"@) {
        let w = err(v, "table tag not allowed in in table insertion mode"@);
        if !has_open(w, "table"@) {
            Ok(w)
        } else {
            match reset(pop_until_v(w, "table"@)) {
                Ok(x) => Ok(again(x)),
                Err(e) => Err(e),
            }
        }
    } else if et1(v, "table"@) {
        if !has_open(v, "table"@) {
            Ok(err(v, "table end tag not allowed in in table insertion mode"@))
        } else {
            reset(pop_until_v(v, "table"@))
        }
    } else if et(v, TABLE_IGNORED_END_TAGS@) {
        Ok(err(v, "end tag not allowed in in table insertion mode"@))
    } else if st(v, STYLE_SCRIPT_TEMPLATE@) || et1(v, "template"@) {
        in_head(v)
    } else if st1(v, "input"@) {
        if !attr_both(v, "type"@, "hidden"@) {
            in_table_else(v)
        } else {
            let w = err(v, "input tag not allowed in in table insertion mode"@);
            match ins(w) {
                Ok(x) => match pop_expect(x, "input"@) {
                    Ok(y) => Ok(ack_if(y)),
                    Err(e) => Err(e),
                },
                Err(e) => Err(e),
            }
        }
    } else if st1(v, "form"@) {
        let w = err(v, "form tag not allowed in in table insertion mode"@);
        if !attr_both(w, "template"@, "template"@) || w.form is None {
            Ok(w)
        } else {
            match insert_node(w, token_node(w.token)) {
                Ok((x, id)) => pop_expect(with_form(x, id), "form"@),
                Err(e) => Err(e),
            }
        }
    } else if v.token is Eof {
        in_body(v)
    } else {
        in_table_else(v)
    }
}

/// The "initial" insertion mode.
#[verifier::opaque]
pub open spec fn initial(v: BuildView) -> Result<BuildView, BuildError> {
    if white(v) {
        Ok(v)
    } else if v.token is Comment {
        ins(v)
    } else if v.token is DocType {
        let w = if doctype_reported(v) {
            err(v, "doctype not allowed in initial insertion mode"@)
        } else {
            v
        };
        match ins(w) {
            Ok(x) => if x.doctype != DocumentType::IframeSrcDoc && x.cannot_change_mode {
                Err(BuildError::NotImplemented)
            } else {
                Ok(with_mode(x, InsertionMode::BeforeHtml))
            },
            Err(e) => Err(e),
        }
    } else {
        let w = if v.doctype != DocumentType::IframeSrcDoc {
            err(v, "not an iframe doc src"@)
        } else {
            v
        };
        let w2 = if w.cannot_change_mode {
            with_quirks(w)
        } else {
            w
        };
        Ok(again(with_mode(w2, InsertionMode::BeforeHtml)))
    }
}

/// The "before html" insertion mode.
#[verifier::opaque]
pub open spec fn before_html(v: BuildView) -> Result<BuildView, BuildError> {
    if v.token is DocType {
        Ok(err(v, "doctype not allowed in before html insertion mode"@))
    } else if v.token is Comment {
        ins(v)
    } else if white(v) {
        Ok(v)
    } else if st1(v, "html"@) {
        match ins_push(v) {
            Ok(w) => Ok(with_mode(w, InsertionMode::BeforeHead)),
            Err(e) => Err(e),
        }
    } else if v.token is EndTag && !et(v, HEAD_BODY_HTML_BR@) {
        Ok(err(v, "end tag not allowed in before html insertion mode"@))
    } else {
        match ins_named_push(v, "html"@) {
            Ok(w) => Ok(again(with_mode(w, InsertionMode::BeforeHead))),
            Err(e) => Err(e),
        }
    }
}

/// The "before head" insertion mode.
#[verifier::opaque]
pub open spec fn before_head(v: BuildView) -> Result<BuildView, BuildError> {
    if white(v) {
        Ok(v)
    } else if v.token is Comment {
        ins(v)
    } else if v.token is DocType {
        Ok(err(v, "doctype not allowed in before head insertion mode"@))
    } else if st1(v, "html"@) {
        in_body(v)
    } else if st1(v, "head"@) {
        match insert_node(v, token_node(v.token)) {
            Ok((w, id)) => Ok(with_mode(with_head(w, id), InsertionMode::InHead)),
            Err(e) => Err(e),
        }
    } else if v.token is EndTag && !et(v, HEAD_BODY_HTML_BR@) {
        Ok(err(v, "end tag not allowed in before head insertion mode"@))
    } else {
        match insert_node(v, named_node("head"@)) {
            Ok((w, id)) => Ok(
                again(with_mode(with_head(w, id), InsertionMode::InHead)),
            ),
            Err(e) => Err(e),
        }
    }
}

/// The "anything else" rule of "in head noscript".
pub open spec fn in_head_noscript_else(v: BuildView) -> Result<BuildView, BuildError> {
    let w = err(v, "anything else not allowed in after head insertion mode"@);
    match pop_expect(w, "noscript"@) {
        Ok(x) => match expect_last(x, "head"@) {
            Ok(y) => Ok(again(with_mode(y, InsertionMode::InHead))),
            Err(e) => Err(e),
        },
        Err(e) => Err(e),
    }
}

/// The "in head noscript" insertion mode.
#[verifier::opaque]
pub open spec fn in_head_noscript(v: BuildView) -> Result<BuildView, BuildError> {
    if v.token is DocType {
        Ok(err(v, "doctype not allowed in 'head no script' insertion mode"@))
    } else if st1(v, "html"@) {
        in_body(v)
    } else if et1(v, "noscript"@) {
        match pop_expect(v, "noscript"@) {
            Ok(x) => match expect_last(x, "head"@) {
                Ok(y) => Ok(with_mode(y, InsertionMode::InHead)),
                Err(e) => Err(e),
            },
            Err(e) => Err(e),
        }
    } else if white(v) || v.token is Comment || st(v, NOSCRIPT_HEAD_TAGS@) {
        in_head(v)
    } else if et1(v, "br"@) {
        in_head_noscript_else(v)
    } else if st(v, HEAD_NOSCRIPT@) {
        Ok(err(v, "head or noscript tag not allowed in after head insertion mode"@))
    } else if v.token is EndTag {
        Ok(err(v, "end tag not allowed in after head insertion mode"@))
    } else {
        in_head_noscript_else(v)
    }
}

/// The "anything else" rule of "after head" and "in column group": a body
/// element, then the "in body" rules for the token.
pub open spec fn body_else(v: BuildView) -> Result<BuildView, BuildError> {
    match ins_named(v, "body"@) {
        Ok(w) => Ok(again(with_mode(w, InsertionMode::InBody))),
        Err(e) => Err(e),
    }
}

/// The "after head" insertion mode.
#[verifier::opaque]
pub open spec fn after_head(v: BuildView) -> Result<BuildView, BuildError> {
    if white(v) || v.token is Comment {
        ins_push(v)
    } else if v.token is DocType {
        Ok(err(v, "doctype not allowed in after head insertion mode"@))
    } else if st1(v, "html"@) {
        in_body(v)
    } else if st1(v, "body"@) {
        match ins_push(v) {
            Ok(w) => Ok(with_mode(with_frameset_ok(w, true), InsertionMode::InBody)),
            Err(e) => Err(e),
        }
    } else if st1(v, "frameset"@) {
        match ins_push(v) {
            Ok(w) => Ok(with_mode(w, InsertionMode::InFrameset)),
            Err(e) => Err(e),
        }
    } else if st(v, HEAD_ELEMENTS@) {
        in_head(head_push(err(v, "invalid start tag in after head insertion mode"@)))
    } else if et1(v, "template"@) {
        in_head(v)
    } else if et(v, BODY_HTML_BR@) {
        body_else(v)
    } else if st1(v, "head"@) {
        Ok(err(v, "head tag not allowed in after head insertion mode"@))
    } else if v.token is EndTag {
        Ok(err(v, "end tag not allowed in after head insertion mode"@))
    } else {
        body_else(v)
    }
}

/// The "text" insertion mode.
#[verifier::opaque]
pub open spec fn text_mode(v: BuildView) -> Result<BuildView, BuildError> {
    if v.token is Text {
        ins_push(v)
    } else if et1(v, "script"@) {
        Ok(v)
    } else {
        Ok(restore_mode(pop(v)))
    }
}

/// The table text rules over the characters of `s`: NUL is reported, every
/// other character is kept pending.
pub open spec fn table_chars(v: BuildView, s: Seq<char>) -> BuildView
    decreases s.len(),
{
    if s.len() == 0 {
        v
    } else {
        let w = table_chars(v, s.drop_last());
        if s.last() == '\0' {
            err(w, "null character not allowed in in table insertion mode"@)
        } else {
            pending_push(w, s.last())
        }
    }
}

/// The "in table text" insertion mode.
#[verifier::opaque]
pub open spec fn in_table_text(v: BuildView) -> Result<BuildView, BuildError> {
    match v.token {
        SpecToken::Text { value } => Ok(table_chars(v, value)),
        _ => Err(BuildError::NotImplemented),
    }
}

/// The "in caption" insertion mode.
#[verifier::opaque]
pub open spec fn in_caption(v: BuildView) -> Result<BuildView, BuildError> {
    let w = if et1(v, "caption"@) {
        v
    } else {
        again(v)
    };
    if !(et1(v, "caption"@) || st(v, TABLE_PARTS@) || et1(v, "table"@)) {
        Ok(v)
    } else if !has_open(w, "caption"@) {
        Ok(err(w, "caption end tag not allowed in in caption insertion mode"@))
    } else {
        let x = implied(w, None, false);
        if cur_name(x) != "caption"@ {
            Ok(err(x, "caption end tag not at top of stack"@))
        } else {
            Ok(with_mode(clear_marker(pop_until_v(x, "caption"@)), InsertionMode::InTable))
        }
    }
}

/// The "in column group" insertion mode.
#[verifier::opaque]
pub open spec fn in_column_group(v: BuildView) -> Result<BuildView, BuildError> {
    if white(v) || v.token is Comment {
        ins_push(v)
    } else if v.token is DocType {
        Ok(err(v, "doctype not allowed in column group insertion mode"@))
    } else if st1(v, "html"@) {
        in_body(v)
    } else if st1(v, "col"@) {
        match ins(v) {
            Ok(w) => Ok(ack_if(pop(w))),
            Err(e) => Err(e),
        }
    } else if st1(v, "frameset"@) {
        match ins_push(v) {
            Ok(w) => Ok(with_mode(w, InsertionMode::InFrameset)),
            Err(e) => Err(e),
        }
    } else if st(v, HEAD_ELEMENTS@) {
        in_head(head_push(err(v, "invalid start tag in after head insertion mode"@)))
    } else if et1(v, "template"@) {
        in_head(v)
    } else if et(v, BODY_HTML_BR@) {
        body_else(v)
    } else if st1(v, "head"@) {
        Ok(err(v, "head tag not allowed in after head insertion mode"@))
    } else if v.token is EndTag {
        Ok(err(v, "end tag not allowed in after head insertion mode"@))
    } else {
        body_else(v)
    }
}

/// Whether none of tbody, tfoot and thead is in table scope (asking in that
/// order, and stopping at the first that is).
pub open spec fn no_section_in_scope(v: BuildView) -> Result<bool, BuildError> {
    match scope_r(v, "tbody"@, Scope::Table) {
        Err(e) => Err(e),
        Ok(true) => Ok(false),
        Ok(false) => match scope_r(v, "tfoot"@, Scope::Table) {
            Err(e) => Err(e),
            Ok(true) => Ok(false),
            Ok(false) => match scope_r(v, "thead"@, Scope::Table) {
                Err(e) => Err(e),
                Ok(b) => Ok(!b),
            },
        },
    }
}

/// Leaving a table body back to the table.
pub open spec fn leave_table_body(v: BuildView) -> BuildView {
    with_mode(pop(clear_table_body(v)), InsertionMode::InTable)
}

/// The "in table body" insertion mode.
#[verifier::opaque]
pub open spec fn in_table_body(v: BuildView) -> Result<BuildView, BuildError> {
    if st1(v, "tr"@) {
        match ins(clear_table_body(v)) {
            Ok(w) => Ok(with_mode(w, InsertionMode::InRow)),
            Err(e) => Err(e),
        }
    } else if st(v, CELL_TAGS@) {
        let w = err(v, "th or td tag not allowed in in table body insertion mode"@);
        match ins_named(clear_table_body(w), "tr"@) {
            Ok(x) => Ok(again(with_mode(x, InsertionMode::InRow))),
            Err(e) => Err(e),
        }
    } else if st(v, SECTION_TAGS@) {
        match scope_r(v, tag(v), Scope::Table) {
            Err(e) => Err(e),
            Ok(false) => Ok(
                err(v, "tbody, tfoot or thead tag not allowed in in table body insertion mode"@),
            ),
            Ok(true) => Ok(leave_table_body(v)),
        }
    } else if st(v, TABLE_BODY_ENDING_TAGS@) || et1(v, "table"@) {
        match no_section_in_scope(v) {
            Err(e) => Err(e),
            Ok(true) => Ok(
                err(
                    v,
                    "caption, col, colgroup, tbody, tfoot or thead tag not allowed in in table body insertion mode"@,
                ),
            ),
            Ok(false) => Ok(leave_table_body(v)),
        }
    } else if et(v, TABLE_BODY_IGNORED_END_TAGS@) {
        Ok(err(v, "end tag not allowed in in table body insertion mode"@))
    } else {
        in_table(v)
    }
}

/// Leaving a row back to the table body.
pub open spec fn leave_row(v: BuildView) -> Result<BuildView, BuildError> {
    match pop_expect(clear_row(v), "tr"@) {
        Ok(w) => Ok(with_mode(w, InsertionMode::InTableBody)),
        Err(e) => Err(e),
    }
}

/// The "in row" insertion mode.
#[verifier::opaque]
pub open spec fn in_row(v: BuildView) -> Result<BuildView, BuildError> {
    if st(v, CELL_TAGS@) {
        let w = err(v, "th or td tag not allowed in in table body insertion mode"@);
        match ins(clear_row(w)) {
            Ok(x) => Ok(marker(with_mode(x, InsertionMode::InCell))),
            Err(e) => Err(e),
        }
    } else if et1(v, "tr"@) {
        match scope_r(v, "tr"@, Scope::Table) {
            Err(e) => Err(e),
            Ok(false) => Ok(err(v, "tr tag not allowed in in row insertion mode"@)),
            Ok(true) => leave_row(v),
        }
    } else if st(v, ROW_ENDING_TAGS@) {
        match scope_r(v, "tr"@, Scope::Table) {
            Err(e) => Err(e),
            Ok(false) => Ok(
                err(
                    v,
                    "caption, col, colgroup, tbody, tfoot or thead tag not allowed in in row insertion mode"@,
                ),
            ),
            Ok(true) => match leave_row(v) {
                Ok(w) => Ok(again(w)),
                Err(e) => Err(e),
            },
        }
    } else if et(v, SECTION_TAGS@) {
        match scope_r(v, tag(v), Scope::Table) {
            Err(e) => Err(e),
            Ok(false) => Ok(
                err(v, "tbody, tfoot or thead tag not allowed in in table body insertion mode"@),
            ),
            Ok(true) => match scope_r(v, "tr"@, Scope::Table) {
                Err(e) => Err(e),
                Ok(false) => Ok(v),
                Ok(true) => leave_row(v),
            },
        }
    } else {
        Ok(v)
    }
}

/// Whether neither td nor th is in table scope (asking for td first, and for
/// th only when td is not).
pub open spec fn no_cell_in_scope(v: BuildView) -> Result<bool, BuildError> {
    match scope_r(v, "td"@, Scope::Table) {
        Err(e) => Err(e),
        Ok(true) => Ok(false),
        Ok(false) => match scope_r(v, "th"@, Scope::Table) {
            Err(e) => Err(e),
            Ok(b) => Ok(!b),
        },
    }
}

/// The "in cell" insertion mode.
#[verifier::opaque]
pub open spec fn in_cell(v: BuildView) -> Result<BuildView, BuildError> {
    if st(v, CELL_TAGS@) {
        let w = implied(err(v, "th or td tag not allowed in in table body insertion mode"@), None, false);
        let x = if cur_name(w) != tag(v) {
            err(w, "current node should be th or td"@)
        } else {
            w
        };
        Ok(with_mode(clear_marker(pop_until_v(x, tag(v))), InsertionMode::InRow))
    } else if st(v, TABLE_PARTS@) {
        match no_cell_in_scope(v) {
            Err(e) => Err(e),
            Ok(true) => Ok(
                err(
                    v,
                    "caption, col, colgroup, tbody, tfoot or thead tag not allowed in in cell insertion mode"@,
                ),
            ),
            Ok(false) => Ok(again(close_cell_v(v))),
        }
    } else if et(v, CELL_IGNORED_END_TAGS@) {
        Ok(err(v, "end tag not allowed in in cell insertion mode"@))
    } else if et(v, SECTION_AND_ROW_TAGS@) {
        match scope_r(v, tag(v), Scope::Table) {
            Err(e) => Err(e),
            Ok(false) => Ok(
                err(v, "tbody, tfoot or thead tag not allowed in in table body insertion mode"@),
            ),
            Ok(true) => Ok(again(close_cell_v(v))),
        }
    } else {
        in_body(v)
    }
}

/// The "in select" insertion mode.
#[verifier::opaque]
pub open spec fn in_select(v: BuildView) -> Result<BuildView, BuildError> {
    if null_text(v) {
        Ok(err(v, "null character not allowed in in select insertion mode"@))
    } else if v.token is Text || v.token is Comment {
        ins(v)
    } else if v.token is DocType {
        Ok(err(v, "doctype not allowed in in select insertion mode"@))
    } else if st1(v, "html"@) {
        in_body(v)
    } else if st1(v, "option"@) {
        ins(
            if cur_name(v) == "option"@ {
                pop(v)
            } else {
                v
            },
        )
    } else if st1(v, "optgroup"@) {
        let w = if cur_name(v) == "optgroup"@ || cur_name(v) == "option"@ {
            pop(v)
        } else {
            v
        };
        match ins(w) {
            Ok(x) => Ok(ack_if(pop(x))),
            Err(e) => Err(e),
        }
    } else if et1(v, "optgroup"@) {
        let w = if cur_name(v) == "option"@ && v.stack.len() > 1 && vnames(v)[v.stack.len() - 1]
            == "optgroup"@ {
            pop(v)
        } else {
            v
        };
        if cur_name(w) == "optgroup"@ {
            Ok(pop(w))
        } else {
            Ok(err(w, "optgroup end tag not allowed in in select insertion mode"@))
        }
    } else if et1(v, "option"@) {
        if cur_name(v) == "option"@ {
            Ok(pop(v))
        } else {
            Ok(err(v, "option end tag not allowed in in select insertion mode"@))
        }
    } else if et1(v, "select"@) {
        match scope_r(v, "select"@, Scope::Select) {
            Err(e) => Err(e),
            Ok(false) => Ok(err(v, "select end tag not allowed in in select insertion mode"@)),
            Ok(true) => close_select_v(v),
        }
    } else if st1(v, "select"@) {
        let w = err(v, "select tag not allowed in in select insertion mode"@);
        match scope_r(w, "select"@, Scope::Select) {
            Err(e) => Err(e),
            Ok(false) => Ok(w),
            Ok(true) => close_select_v(w),
        }
    } else if st(v, INPUT_KEYGEN_TEXTAREA@) {
        let w = err(v, "input, keygen or textarea tag not allowed in in select insertion mode"@);
        match scope_r(w, "select"@, Scope::Select) {
            Err(e) => Err(e),
            Ok(false) => Ok(w),
            Ok(true) => match close_select_v(w) {
                Ok(x) => Ok(again(x)),
                Err(e) => Err(e),
            },
        }
    } else if st(v, SCRIPT_TEMPLATE@) || et1(v, "template"@) {
        in_head(v)
    } else if v.token is Eof {
        in_body(v)
    } else {
        Ok(err(v, "anything else not allowed in in select insertion mode"@))
    }
}

/// The "in select in table" insertion mode.
#[verifier::opaque]
pub open spec fn in_select_in_table(v: BuildView) -> Result<BuildView, BuildError> {
    if st(v, SELECT_IN_TABLE_ENDS@) {
        let w = err(
            v,
            "caption, table, tbody, tfoot, thead, tr, td or th tag not allowed in in select in table insertion mode"@,
        );
        match close_select_v(w) {
            Ok(x) => Ok(again(x)),
            Err(e) => Err(e),
        }
    } else if et(v, SELECT_IN_TABLE_ENDS@) {
        let w = err(
            v,
            "caption, table, tbody, tfoot, thead, tr, td or th tag not allowed in in select in table insertion mode"@,
        );
        match scope_r(w, "select"@, Scope::Select) {
            Err(e) => Err(e),
            Ok(false) => Ok(w),
            Ok(true) => match close_select_v(w) {
                Ok(x) => Ok(again(x)),
                Err(e) => Err(e),
            },
        }
    } else {
        Err(BuildError::NotImplemented)
    }
}

/// The "in template" insertion mode.
#[verifier::opaque]
pub open spec fn in_template(v: BuildView) -> Result<BuildView, BuildError> {
    if v.token is Text || v.token is Comment || v.token is DocType {
        in_body(v)
    } else if st(v, HEAD_ELEMENTS_IN_BODY@) || et1(v, "template"@) {
        in_head(v)
    } else if st(v, TEMPLATE_TABLE_TAGS@) {
        Ok(switch_template(v, InsertionMode::InTable))
    } else if st1(v, "col"@) {
        Ok(switch_template(v, InsertionMode::InColumnGroup))
    } else if st1(v, "tr"@) {
        Ok(switch_template(v, InsertionMode::InTableBody))
    } else if st(v, CELL_TAGS@) {
        Ok(switch_template(v, InsertionMode::InRow))
    } else if v.token is StartTag {
        Ok(switch_template(v, InsertionMode::InBody))
    } else if v.token is EndTag {
        Ok(err(v, "end tag not allowed in in template insertion mode"@))
    } else if has_open(v, "template"@) {
        Err(BuildError::NotImplemented)
    } else {
        let w = err(v, "eof not allowed in in template insertion mode"@);
        match reset(template_pop(clear_marker(pop_until_v(w, "template"@)))) {
            Ok(x) => Ok(again(x)),
            Err(e) => Err(e),
        }
    }
}

/// The "after body" insertion mode.
#[verifier::opaque]
pub open spec fn after_body(v: BuildView) -> Result<BuildView, BuildError> {
    if white(v) {
        in_body(v)
    } else if v.token is Comment {
        ins(v)
    } else if v.token is DocType {
        Ok(err(v, "doctype not allowed in after body insertion mode"@))
    } else if st1(v, "html"@) {
        in_body(v)
    } else if et1(v, "html"@) {
        Ok(with_mode(v, InsertionMode::AfterAfterBody))
    } else if v.token is Eof {
        Err(BuildError::NotImplemented)
    } else {
        Ok(
            again(
                with_mode(
                    err(v, "anything else not allowed in after body insertion mode"@),
                    InsertionMode::InBody,
                ),
            ),
        )
    }
}

/// The "in frameset" insertion mode.
#[verifier::opaque]
pub open spec fn in_frameset(v: BuildView) -> Result<BuildView, BuildError> {
    if white(v) || v.token is Comment {
        ins(v)
    } else if v.token is DocType {
        Ok(err(v, "doctype not allowed in frameset insertion mode"@))
    } else if st1(v, "html"@) {
        in_body(v)
    } else if st1(v, "frameset"@) {
        if cur_name(v) == "html"@ {
            Ok(err(v, "frameset tag not allowed in frameset insertion mode"@))
        } else {
            let w = pop(v);
            if !w.fragment && cur_name(w) != "frameset"@ {
                Ok(with_mode(w, InsertionMode::AfterFrameset))
            } else {
                Ok(w)
            }
        }
    } else if st1(v, "frame"@) {
        match ins(v) {
            Ok(w) => Ok(ack_if(pop(w))),
            Err(e) => Err(e),
        }
    } else if st1(v, "noframes"@) {
        in_head(v)
    } else if v.token is Eof {
        Err(BuildError::NotImplemented)
    } else {
        Ok(err(v, "anything else not allowed in frameset insertion mode"@))
    }
}

/// The "after frameset" insertion mode.
#[verifier::opaque]
pub open spec fn after_frameset(v: BuildView) -> Result<BuildView, BuildError> {
    if white(v) || v.token is Comment {
        ins(v)
    } else if v.token is DocType {
        Ok(err(v, "doctype not allowed in frameset insertion mode"@))
    } else if st1(v, "html"@) {
        in_body(v)
    } else if et1(v, "html"@) {
        in_head(v)
    } else if v.token is Eof {
        Ok(v)
    } else {
        Ok(err(v, "anything else not allowed in after frameset insertion mode"@))
    }
}

/// The "after after body" insertion mode.
#[verifier::opaque]
pub open spec fn after_after_body(v: BuildView) -> Result<BuildView, BuildError> {
    if v.token is Comment {
        ins(v)
    } else if v.token is DocType || white(v) || st1(v, "html"@) {
        in_body(v)
    } else if v.token is Eof {
        Ok(v)
    } else {
        Ok(
            again(
                with_mode(
                    err(v, "anything else not allowed in after after body insertion mode"@),
                    InsertionMode::InBody,
                ),
            ),
        )
    }
}

/// The "after after frameset" insertion mode.
#[verifier::opaque]
pub open spec fn after_after_frameset(v: BuildView) -> Result<BuildView, BuildError> {
    if v.token is Comment {
        ins(v)
    } else if v.token is DocType || white(v) || st1(v, "html"@) {
        in_body(v)
    } else if v.token is Eof {
        Ok(v)
    } else if st1(v, "noframes"@) {
        in_head(v)
    } else {
        Ok(err(v, "anything else not allowed in after after frameset insertion mode"@))
    }
}

/// What the tree builder does with the current token in the current
/// insertion mode.
#[verifier::opaque]
pub open spec fn process(v: BuildView) -> Result<BuildView, BuildError> {
    match v.mode {
        InsertionMode::Initial => initial(v),
        InsertionMode::BeforeHtml => before_html(v),
        InsertionMode::BeforeHead => before_head(v),
        InsertionMode::InHead => in_head(v),
        InsertionMode::InHeadNoscript => in_head_noscript(v),
        InsertionMode::AfterHead => after_head(v),
        InsertionMode::InBody => in_body(v),
        InsertionMode::Text => text_mode(v),
        InsertionMode::InTable => in_table(v),
        InsertionMode::InTableText => in_table_text(v),
        InsertionMode::InCaption => in_caption(v),
        InsertionMode::InColumnGroup => in_column_group(v),
        InsertionMode::InTableBody => in_table_body(v),
        InsertionMode::InRow => in_row(v),
        InsertionMode::InCell => in_cell(v),
        InsertionMode::InSelect => in_select(v),
        InsertionMode::InSelectInTable => in_select_in_table(v),
        InsertionMode::InTemplate => in_template(v),
        InsertionMode::AfterBody => after_body(v),
        InsertionMode::InFrameset => in_frameset(v),
        InsertionMode::AfterFrameset => after_frameset(v),
        InsertionMode::AfterAfterBody => after_after_body(v),
        InsertionMode::AfterAfterFrameset => after_after_frameset(v),
    }
}

/// How a step of the tree builder ended: `Ok` with the final state as the
/// spec gives it, or the same error.
pub open spec fn outcome(r: Result<(), BuildError>, s: Result<BuildView, BuildError>, fin: BuildView) -> bool {
    match r {
        Ok(_) => s == Ok::<BuildView, BuildError>(fin),
        Err(e) => s == Err::<BuildView, BuildError>(e),
    }
}


// ---------------------------------------------------------------------------
// Parsing: steps over the tokens of the tokenizer
// ---------------------------------------------------------------------------

/// The state of a parse: the tree builder's state and the tokenizer's.
pub struct ParseState {
    pub builder: BuildView,
    pub tokenizer: TokView,
}

/// How one parse step ends: at the end of the input, with a token
/// processed, or with the tree builder stopping on an error.
pub enum StepOutcome {
    End(ParseState),
    Next(ParseState),
    Fail(BuildError),
}

/// The state once the next token is taken from the tokenizer (or, when the
/// current token is to be processed again, kept), with the position of the
/// tokenizer as where errors are reported.
pub open spec fn fetched(s: ParseState) -> ParseState {
    let t = if s.builder.reprocess {
        s.tokenizer
    } else {
        TokView { queue: run(s.tokenizer).queue.drop_first(), ..run(s.tokenizer) }
    };
    let token = if s.builder.reprocess {
        s.builder.token
    } else {
        run(s.tokenizer).queue[0]
    };
    ParseState {
        builder: BuildView {
            token: token,
            reprocess: false,
            pos: position_at(t.elems, t.offset),
            ..s.builder
        },
        tokenizer: t,
    }
}

/// One parse step: the token is fetched and, unless it is the end of the
/// input, processed in the current insertion mode.
pub open spec fn parse_step_spec(s: ParseState) -> StepOutcome {
    let f = fetched(s);
    if f.builder.token is Eof {
        StepOutcome::End(f)
    } else {
        match process(f.builder) {
            Ok(w) => StepOutcome::Next(ParseState { builder: w, tokenizer: f.tokenizer }),
            Err(e) => StepOutcome::Fail(e),
        }
    }
}

/// At most `k` parse steps from `s`: the state reached and whether the end
/// of the input was reached (after which no more steps are taken), or the
/// error that stopped the tree builder.
pub open spec fn parse_steps(s: ParseState, k: nat) -> Result<(ParseState, bool), BuildError>
    decreases k,
{
    if k == 0 {
        Ok((s, false))
    } else {
        match parse_steps(s, (k - 1) as nat) {
            Ok((x, true)) => Ok((x, true)),
            Ok((x, false)) => match parse_step_spec(x) {
                StepOutcome::End(y) => Ok((y, true)),
                StepOutcome::Next(y) => Ok((y, false)),
                StepOutcome::Fail(e) => Err(e),
            },
            Err(e) => Err(e),
        }
    }
}

/// Once the end of the input is reached or the tree builder has stopped,
/// more steps change nothing.
pub proof fn lemma_parse_steps_settled(s: ParseState, k: nat, k2: nat)
    requires
        k <= k2,
        parse_steps(s, k) is Err || parse_steps(s, k) matches Ok((_, true)),
    ensures
        parse_steps(s, k2) == parse_steps(s, k),
    decreases k2 - k,
{
    if k < k2 {
        lemma_parse_steps_settled(s, k, (k2 - 1) as nat);
    }
}

} // verus!
