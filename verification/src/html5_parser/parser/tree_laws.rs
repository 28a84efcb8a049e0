//! What every step of the tree builder keeps: the nodes of the document and
//! the parse errors recorded so far.

use vstd::prelude::*;
use crate::html5_parser::node::{NodeDataView, NodeView};
use crate::html5_parser::token::SpecToken;
use crate::html5_parser::node_arena::{attached, ids_ok, lemma_attach_keeps_tree, lemma_attach_new_node, tree_ok};
use crate::html5_parser::parser::{
    drop_top, implied_stop, in_names, is_name, lemma_pop_while, pop_while, stack_ok, token_node, BuildView,
    InsertionMode, CELL_TAGS, TABLE_BODY_CONTEXT, TABLE_CONTEXT, TABLE_ROW_CONTEXT,
};
use crate::html5_parser::parser::tree_spec::{
    ack_if, cur, after_after_body, after_after_frameset, after_body, after_frameset, after_head, again,
    before_head, before_html, clear_marker, clear_row, clear_table, clear_table_body, close_cell_v, close_select_v,
    err, head_push, implied, in_body, in_caption, in_cell, in_column_group, in_frameset, in_head,
    in_head_noscript, in_row, in_select, in_select_in_table, in_table, in_table_body,
    in_table_tail, in_table_text, in_template, initial, ins, ins_named, ins_named_push, ins_push,
    insert_node, marker, merge_html, pending_push, pop, pop_until_v, process, push, remove_second,
    reset, restore_mode, table_chars, template_pop, template_push, text_mode, to_table_text,
    with_foster, with_form, with_frameset_ok, with_head, with_mode, with_quirks,
};

verus! {

/// `w` keeps what `v` had: every node of the document is still there, and
/// every recorded parse error is still there, in its place.
pub open spec fn keeps(v: BuildView, w: BuildView) -> bool {
    &&& v.doc.dom().subset_of(w.doc.dom())
    &&& v.errors.len() <= w.errors.len()
    &&& forall|i: int| 0 <= i < v.errors.len() ==> #[trigger] w.errors[i] == v.errors[i]
}

/// Attaching a node keeps the ids of the document.
pub broadcast proof fn lemma_attached_dom(m: Map<usize, NodeView>, p: usize, n: usize)
    ensures
        #[trigger] attached(m, p, n).dom() == m.dom(),
{
    assert(attached(m, p, n).dom() =~= m.dom());
}

// ---------------------------------------------------------------------------
// The single changes
// ---------------------------------------------------------------------------

pub broadcast proof fn lemma_err_keeps(v: BuildView, msg: Seq<char>)
    ensures
        keeps(v, #[trigger] err(v, msg)),
{
    reveal(err);
}

pub broadcast proof fn lemma_with_mode_keeps(v: BuildView, m: InsertionMode)
    ensures
        keeps(v, #[trigger] with_mode(v, m)),
{
    reveal(with_mode);
}

pub broadcast proof fn lemma_again_keeps(v: BuildView)
    ensures
        keeps(v, #[trigger] again(v)),
{
    reveal(again);
}

pub broadcast proof fn lemma_pop_keeps(v: BuildView)
    ensures
        keeps(v, #[trigger] pop(v)),
{
    reveal(pop);
}

pub broadcast proof fn lemma_push_keeps(v: BuildView, id: usize)
    ensures
        keeps(v, #[trigger] push(v, id)),
{
    reveal(push);
}

pub broadcast proof fn lemma_template_push_keeps(v: BuildView, m: InsertionMode)
    ensures
        keeps(v, #[trigger] template_push(v, m)),
{
    reveal(template_push);
}

pub broadcast proof fn lemma_template_pop_keeps(v: BuildView)
    ensures
        keeps(v, #[trigger] template_pop(v)),
{
    reveal(template_pop);
}

pub broadcast proof fn lemma_remove_second_keeps(v: BuildView)
    ensures
        keeps(v, #[trigger] remove_second(v)),
{
    reveal(remove_second);
}

pub broadcast proof fn lemma_with_head_keeps(v: BuildView, id: usize)
    ensures
        keeps(v, #[trigger] with_head(v, id)),
{
    reveal(with_head);
}

pub broadcast proof fn lemma_with_form_keeps(v: BuildView, id: usize)
    ensures
        keeps(v, #[trigger] with_form(v, id)),
{
    reveal(with_form);
}

pub broadcast proof fn lemma_with_frameset_ok_keeps(v: BuildView, b: bool)
    ensures
        keeps(v, #[trigger] with_frameset_ok(v, b)),
{
    reveal(with_frameset_ok);
}

pub broadcast proof fn lemma_with_foster_keeps(v: BuildView, b: bool)
    ensures
        keeps(v, #[trigger] with_foster(v, b)),
{
    reveal(with_foster);
}

pub broadcast proof fn lemma_with_quirks_keeps(v: BuildView)
    ensures
        keeps(v, #[trigger] with_quirks(v)),
{
    reveal(with_quirks);
}

pub broadcast proof fn lemma_pending_push_keeps(v: BuildView, c: char)
    ensures
        keeps(v, #[trigger] pending_push(v, c)),
{
    reveal(pending_push);
}

pub broadcast proof fn lemma_to_table_text_keeps(v: BuildView)
    ensures
        keeps(v, #[trigger] to_table_text(v)),
{
    reveal(to_table_text);
}

pub broadcast proof fn lemma_restore_mode_keeps(v: BuildView)
    ensures
        keeps(v, #[trigger] restore_mode(v)),
{
    reveal(restore_mode);
}

pub broadcast proof fn lemma_ack_if_keeps(v: BuildView)
    ensures
        keeps(v, #[trigger] ack_if(v)),
{
    reveal(ack_if);
}

pub broadcast proof fn lemma_head_push_keeps(v: BuildView)
    ensures
        keeps(v, #[trigger] head_push(v)),
{
    reveal(head_push);
    reveal(push);
}

pub broadcast proof fn lemma_implied_keeps(v: BuildView, e: Option<Seq<char>>, t: bool)
    ensures
        keeps(v, #[trigger] implied(v, e, t)),
{
    reveal(implied);
}

pub broadcast proof fn lemma_pop_until_keeps(v: BuildView, name: Seq<char>)
    ensures
        keeps(v, #[trigger] pop_until_v(v, name)),
{
    reveal(pop_until_v);
}

pub broadcast proof fn lemma_clear_table_keeps(v: BuildView)
    ensures
        keeps(v, #[trigger] clear_table(v)),
{
    reveal(clear_table);
}

pub broadcast proof fn lemma_clear_table_body_keeps(v: BuildView)
    ensures
        keeps(v, #[trigger] clear_table_body(v)),
{
    reveal(clear_table_body);
}

pub broadcast proof fn lemma_clear_row_keeps(v: BuildView)
    ensures
        keeps(v, #[trigger] clear_row(v)),
{
    reveal(clear_row);
}

pub broadcast proof fn lemma_clear_marker_keeps(v: BuildView)
    ensures
        keeps(v, #[trigger] clear_marker(v)),
{
    reveal(clear_marker);
}

pub broadcast proof fn lemma_marker_keeps(v: BuildView)
    ensures
        keeps(v, #[trigger] marker(v)),
{
    reveal(marker);
}

pub broadcast proof fn lemma_merge_html_keeps(v: BuildView)
    ensures
        keeps(v, #[trigger] merge_html(v)),
{
    reveal(merge_html);
}

pub broadcast proof fn lemma_close_cell_keeps(v: BuildView)
    ensures
        keeps(v, #[trigger] close_cell_v(v)),
{
    reveal(close_cell_v);
    reveal(implied);
    reveal(clear_marker);
    reveal(err);
    reveal(with_mode);
}

pub broadcast proof fn lemma_insert_node_keeps(v: BuildView, n: NodeView)
    ensures
        (#[trigger] insert_node(v, n)) matches Ok((w, _)) ==> keeps(v, w),
{
    reveal(insert_node);
    broadcast use lemma_attached_dom;

}

pub broadcast proof fn lemma_ins_keeps(v: BuildView)
    ensures
        (#[trigger] ins(v)) matches Ok(w) ==> keeps(v, w),
{
    reveal(ins);
    broadcast use lemma_insert_node_keeps;

}

pub broadcast proof fn lemma_ins_push_keeps(v: BuildView)
    ensures
        (#[trigger] ins_push(v)) matches Ok(w) ==> keeps(v, w),
{
    reveal(ins_push);
    broadcast use {lemma_insert_node_keeps, lemma_push_keeps};

}

pub broadcast proof fn lemma_ins_named_keeps(v: BuildView, name: Seq<char>)
    ensures
        (#[trigger] ins_named(v, name)) matches Ok(w) ==> keeps(v, w),
{
    reveal(ins_named);
    broadcast use lemma_insert_node_keeps;

}

pub broadcast proof fn lemma_ins_named_push_keeps(v: BuildView, name: Seq<char>)
    ensures
        (#[trigger] ins_named_push(v, name)) matches Ok(w) ==> keeps(v, w),
{
    reveal(ins_named_push);
    broadcast use {lemma_insert_node_keeps, lemma_push_keeps};

}

pub broadcast proof fn lemma_reset_keeps(v: BuildView)
    ensures
        (#[trigger] reset(v)) matches Ok(w) ==> keeps(v, w),
{
    reveal(reset);
    broadcast use lemma_with_mode_keeps;

}

pub broadcast proof fn lemma_close_select_keeps(v: BuildView)
    ensures
        (#[trigger] close_select_v(v)) matches Ok(w) ==> keeps(v, w),
{
    reveal(close_select_v);
    broadcast use {lemma_reset_keeps, lemma_pop_until_keeps};

}

/// The table text rules keep what the state had.
pub proof fn lemma_table_chars_keeps(v: BuildView, s: Seq<char>)
    ensures
        keeps(v, table_chars(v, s)),
    decreases s.len(),
{
    broadcast use {lemma_err_keeps, lemma_pending_push_keeps};

    if s.len() > 0 {
        lemma_table_chars_keeps(v, s.drop_last());
    }
}


/// The single changes of the state, each of which keeps what the state had.
pub broadcast group group_change_keeps {
    lemma_err_keeps,
    lemma_with_mode_keeps,
    lemma_again_keeps,
    lemma_pop_keeps,
    lemma_push_keeps,
    lemma_template_push_keeps,
    lemma_template_pop_keeps,
    lemma_remove_second_keeps,
    lemma_with_head_keeps,
    lemma_with_form_keeps,
    lemma_with_frameset_ok_keeps,
    lemma_with_foster_keeps,
    lemma_with_quirks_keeps,
    lemma_pending_push_keeps,
    lemma_to_table_text_keeps,
    lemma_restore_mode_keeps,
    lemma_ack_if_keeps,
    lemma_head_push_keeps,
    lemma_implied_keeps,
    lemma_pop_until_keeps,
    lemma_clear_table_keeps,
    lemma_clear_table_body_keeps,
    lemma_clear_row_keeps,
    lemma_clear_marker_keeps,
    lemma_marker_keeps,
    lemma_merge_html_keeps,
    lemma_close_cell_keeps,
    lemma_insert_node_keeps,
    lemma_ins_keeps,
    lemma_ins_push_keeps,
    lemma_ins_named_keeps,
    lemma_ins_named_push_keeps,
    lemma_reset_keeps,
    lemma_close_select_keeps,
}

// ---------------------------------------------------------------------------
// The insertion modes
// ---------------------------------------------------------------------------

pub broadcast proof fn lemma_in_head_keeps(v: BuildView)
    ensures
        (#[trigger] in_head(v)) matches Ok(w) ==> keeps(v, w),
{
    reveal(in_head);
    broadcast use {group_change_keeps};

}

pub broadcast proof fn lemma_in_body_keeps(v: BuildView)
    ensures
        (#[trigger] in_body(v)) matches Ok(w) ==> keeps(v, w),
{
    reveal(in_body);
    broadcast use {group_change_keeps, lemma_in_head_keeps};

}

pub broadcast proof fn lemma_in_table_tail_keeps(v: BuildView)
    ensures
        (#[trigger] in_table_tail(v)) matches Ok(w) ==> keeps(v, w),
{
    reveal(in_table_tail);
    broadcast use {group_change_keeps, lemma_in_head_keeps, lemma_in_body_keeps};

}

pub broadcast proof fn lemma_in_table_keeps(v: BuildView)
    ensures
        (#[trigger] in_table(v)) matches Ok(w) ==> keeps(v, w),
{
    reveal(in_table);
    broadcast use {group_change_keeps, lemma_in_table_tail_keeps};

}

pub broadcast proof fn lemma_initial_keeps(v: BuildView)
    ensures
        (#[trigger] initial(v)) matches Ok(w) ==> keeps(v, w),
{
    reveal(initial);
    broadcast use {group_change_keeps};

}

pub broadcast proof fn lemma_before_html_keeps(v: BuildView)
    ensures
        (#[trigger] before_html(v)) matches Ok(w) ==> keeps(v, w),
{
    reveal(before_html);
    broadcast use {group_change_keeps};

}

pub broadcast proof fn lemma_before_head_keeps(v: BuildView)
    ensures
        (#[trigger] before_head(v)) matches Ok(w) ==> keeps(v, w),
{
    reveal(before_head);
    broadcast use {group_change_keeps, lemma_in_body_keeps};

}

pub broadcast proof fn lemma_in_head_noscript_keeps(v: BuildView)
    ensures
        (#[trigger] in_head_noscript(v)) matches Ok(w) ==> keeps(v, w),
{
    reveal(in_head_noscript);
    broadcast use {group_change_keeps, lemma_in_head_keeps, lemma_in_body_keeps};

}

pub broadcast proof fn lemma_after_head_keeps(v: BuildView)
    ensures
        (#[trigger] after_head(v)) matches Ok(w) ==> keeps(v, w),
{
    reveal(after_head);
    broadcast use {group_change_keeps, lemma_in_head_keeps, lemma_in_body_keeps};

}

pub broadcast proof fn lemma_text_mode_keeps(v: BuildView)
    ensures
        (#[trigger] text_mode(v)) matches Ok(w) ==> keeps(v, w),
{
    reveal(text_mode);
    broadcast use {group_change_keeps};

}

pub broadcast proof fn lemma_in_table_text_keeps(v: BuildView)
    ensures
        (#[trigger] in_table_text(v)) matches Ok(w) ==> keeps(v, w),
{
    reveal(in_table_text);
    match v.token {
        SpecToken::Text { value } => lemma_table_chars_keeps(v, value),
        _ => {},
    }
}

pub broadcast proof fn lemma_in_caption_keeps(v: BuildView)
    ensures
        (#[trigger] in_caption(v)) matches Ok(w) ==> keeps(v, w),
{
    reveal(in_caption);
    broadcast use {group_change_keeps};

}

pub broadcast proof fn lemma_in_column_group_keeps(v: BuildView)
    ensures
        (#[trigger] in_column_group(v)) matches Ok(w) ==> keeps(v, w),
{
    reveal(in_column_group);
    broadcast use {group_change_keeps, lemma_in_head_keeps, lemma_in_body_keeps};

}

pub broadcast proof fn lemma_in_table_body_keeps(v: BuildView)
    ensures
        (#[trigger] in_table_body(v)) matches Ok(w) ==> keeps(v, w),
{
    reveal(in_table_body);
    broadcast use {group_change_keeps, lemma_in_table_keeps};

}

pub broadcast proof fn lemma_in_row_keeps(v: BuildView)
    ensures
        (#[trigger] in_row(v)) matches Ok(w) ==> keeps(v, w),
{
    reveal(in_row);
    broadcast use {group_change_keeps};

}

pub broadcast proof fn lemma_in_cell_keeps(v: BuildView)
    ensures
        (#[trigger] in_cell(v)) matches Ok(w) ==> keeps(v, w),
{
    reveal(in_cell);
    broadcast use {group_change_keeps, lemma_in_body_keeps};

}

pub broadcast proof fn lemma_in_select_keeps(v: BuildView)
    ensures
        (#[trigger] in_select(v)) matches Ok(w) ==> keeps(v, w),
{
    reveal(in_select);
    broadcast use {group_change_keeps, lemma_in_head_keeps, lemma_in_body_keeps};

}

pub broadcast proof fn lemma_in_select_in_table_keeps(v: BuildView)
    ensures
        (#[trigger] in_select_in_table(v)) matches Ok(w) ==> keeps(v, w),
{
    reveal(in_select_in_table);
    broadcast use {group_change_keeps};

}

pub broadcast proof fn lemma_in_template_keeps(v: BuildView)
    ensures
        (#[trigger] in_template(v)) matches Ok(w) ==> keeps(v, w),
{
    reveal(in_template);
    broadcast use {group_change_keeps, lemma_in_head_keeps, lemma_in_body_keeps};

}

pub broadcast proof fn lemma_after_body_keeps(v: BuildView)
    ensures
        (#[trigger] after_body(v)) matches Ok(w) ==> keeps(v, w),
{
    reveal(after_body);
    broadcast use {group_change_keeps, lemma_in_body_keeps};

}

pub broadcast proof fn lemma_in_frameset_keeps(v: BuildView)
    ensures
        (#[trigger] in_frameset(v)) matches Ok(w) ==> keeps(v, w),
{
    reveal(in_frameset);
    broadcast use {group_change_keeps, lemma_in_head_keeps, lemma_in_body_keeps};

}

pub broadcast proof fn lemma_after_frameset_keeps(v: BuildView)
    ensures
        (#[trigger] after_frameset(v)) matches Ok(w) ==> keeps(v, w),
{
    reveal(after_frameset);
    broadcast use {group_change_keeps, lemma_in_head_keeps, lemma_in_body_keeps};

}

pub broadcast proof fn lemma_after_after_body_keeps(v: BuildView)
    ensures
        (#[trigger] after_after_body(v)) matches Ok(w) ==> keeps(v, w),
{
    reveal(after_after_body);
    broadcast use {group_change_keeps, lemma_in_body_keeps};

}

pub broadcast proof fn lemma_after_after_frameset_keeps(v: BuildView)
    ensures
        (#[trigger] after_after_frameset(v)) matches Ok(w) ==> keeps(v, w),
{
    reveal(after_after_frameset);
    broadcast use {group_change_keeps, lemma_in_head_keeps, lemma_in_body_keeps};

}

/// A step of the tree builder that succeeds, in whatever insertion mode and
/// with whatever token, keeps every node of the document and every parse
/// error recorded so far, in its place.
pub proof fn lemma_step_keeps(v: BuildView)
    ensures
        process(v) matches Ok(w) ==> keeps(v, w),
{
    reveal(process);
    broadcast use {
        lemma_initial_keeps,
        lemma_before_html_keeps,
        lemma_before_head_keeps,
        lemma_in_head_keeps,
        lemma_in_head_noscript_keeps,
        lemma_after_head_keeps,
        lemma_in_body_keeps,
        lemma_text_mode_keeps,
        lemma_in_table_keeps,
        lemma_in_table_text_keeps,
        lemma_in_caption_keeps,
        lemma_in_column_group_keeps,
        lemma_in_table_body_keeps,
        lemma_in_row_keeps,
        lemma_in_cell_keeps,
        lemma_in_select_keeps,
        lemma_in_select_in_table_keeps,
        lemma_in_template_keeps,
        lemma_after_body_keeps,
        lemma_in_frameset_keeps,
        lemma_after_frameset_keeps,
        lemma_after_after_body_keeps,
        lemma_after_after_frameset_keeps,
    };

}


// ---------------------------------------------------------------------------
// The document stays a sound tree
// ---------------------------------------------------------------------------

/// The document of a tree builder state is sound: every node is stored under
/// its own id, below the next id; parents and children agree; the root and
/// every open element are nodes of it, and so is the head element.
pub open spec fn doc_ok(v: BuildView) -> bool {
    &&& ids_ok(v.doc)
    &&& tree_ok(v.doc)
    &&& forall|k: usize| #[trigger] v.doc.contains_key(k) ==> k < v.next_id
    &&& stack_ok(v.doc, v.stack)
    &&& (v.head matches Some(h) ==> v.doc.contains_key(h))
}

/// A stack popped while a condition holds, and then once more, still holds
/// nodes of the document only.
proof fn lemma_pop_while_ok(doc: Map<usize, NodeView>, stack: Seq<usize>, stop: spec_fn(Seq<char>) -> bool)
    requires
        stack_ok(doc, stack),
    ensures
        stack_ok(doc, pop_while(doc, stack, stop)),
        stack_ok(doc, drop_top(pop_while(doc, stack, stop))),
{
    lemma_pop_while(doc, stack, stop);
    let s = pop_while(doc, stack, stop);
    assert forall|i: int| 0 <= i < s.len() implies doc.contains_key(#[trigger] s[i]) by {
        assert(s[i] == stack[i]);
    }
    assert forall|i: int| 0 <= i < drop_top(s).len() implies doc.contains_key(#[trigger] drop_top(s)[i]) by {
        assert(drop_top(s)[i] == stack[i]);
    }
}

/// A document whose nodes keep their ids, parents and children is as sound
/// as before.
proof fn lemma_same_shape(m: Map<usize, NodeView>, m2: Map<usize, NodeView>)
    requires
        ids_ok(m),
        tree_ok(m),
        m2.dom() == m.dom(),
        forall|k: usize|
            #[trigger] m.contains_key(k) ==> m2[k].id == m[k].id && m2[k].parent == m[k].parent
                && m2[k].children == m[k].children,
    ensures
        ids_ok(m2),
        tree_ok(m2),
{
    assert forall|p: usize, i: int|
        #![trigger m2[p].children[i]]
        m2.contains_key(p) && 0 <= i < m2[p].children.len() implies m2.contains_key(m2[p].children[i])
            && m2[m2[p].children[i]].parent == Some(p) by {
        assert(m.contains_key(p));
        assert(m2[p].children[i] == m[p].children[i]);
        assert(m.contains_key(m[p].children[i]));
    }
    assert forall|p: usize, i: int, j: int|
        #![trigger m2[p].children[i], m2[p].children[j]]
        m2.contains_key(p) && 0 <= i < j < m2[p].children.len() implies m2[p].children[i]
            != m2[p].children[j] by {
        assert(m.contains_key(p));
        assert(m2[p].children[i] == m[p].children[i]);
        assert(m2[p].children[j] == m[p].children[j]);
    }
    assert forall|c: usize|
        #![trigger m2[c].parent]
        m2.contains_key(c) && m2[c].parent is Some implies m2.contains_key(m2[c].parent->0)
            && m2[m2[c].parent->0].children.contains(c) by {
        assert(m.contains_key(c));
        let q = m[c].parent->0;
        assert(m.contains_key(q));
        assert(m2[q].children == m[q].children);
    }
    assert forall|k: usize| #[trigger] m2.contains_key(k) implies m2[k].id == k by {
        assert(m.contains_key(k));
    }
}

pub broadcast proof fn lemma_err_sound(v: BuildView, msg: Seq<char>)
    ensures
        doc_ok(v) ==> doc_ok(#[trigger] err(v, msg)),
{
    reveal(err);
}

pub broadcast proof fn lemma_with_mode_sound(v: BuildView, m: InsertionMode)
    ensures
        doc_ok(v) ==> doc_ok(#[trigger] with_mode(v, m)),
{
    reveal(with_mode);
}

pub broadcast proof fn lemma_again_sound(v: BuildView)
    ensures
        doc_ok(v) ==> doc_ok(#[trigger] again(v)),
{
    reveal(again);
}

pub broadcast proof fn lemma_template_push_sound(v: BuildView, m: InsertionMode)
    ensures
        doc_ok(v) ==> doc_ok(#[trigger] template_push(v, m)),
{
    reveal(template_push);
}

pub broadcast proof fn lemma_template_pop_sound(v: BuildView)
    ensures
        doc_ok(v) ==> doc_ok(#[trigger] template_pop(v)),
{
    reveal(template_pop);
}

pub broadcast proof fn lemma_with_form_sound(v: BuildView, id: usize)
    ensures
        doc_ok(v) ==> doc_ok(#[trigger] with_form(v, id)),
{
    reveal(with_form);
}

pub broadcast proof fn lemma_with_frameset_ok_sound(v: BuildView, b: bool)
    ensures
        doc_ok(v) ==> doc_ok(#[trigger] with_frameset_ok(v, b)),
{
    reveal(with_frameset_ok);
}

pub broadcast proof fn lemma_with_foster_sound(v: BuildView, b: bool)
    ensures
        doc_ok(v) ==> doc_ok(#[trigger] with_foster(v, b)),
{
    reveal(with_foster);
}

pub broadcast proof fn lemma_with_quirks_sound(v: BuildView)
    ensures
        doc_ok(v) ==> doc_ok(#[trigger] with_quirks(v)),
{
    reveal(with_quirks);
}

pub broadcast proof fn lemma_pending_push_sound(v: BuildView, c: char)
    ensures
        doc_ok(v) ==> doc_ok(#[trigger] pending_push(v, c)),
{
    reveal(pending_push);
}

pub broadcast proof fn lemma_to_table_text_sound(v: BuildView)
    ensures
        doc_ok(v) ==> doc_ok(#[trigger] to_table_text(v)),
{
    reveal(to_table_text);
}

pub broadcast proof fn lemma_restore_mode_sound(v: BuildView)
    ensures
        doc_ok(v) ==> doc_ok(#[trigger] restore_mode(v)),
{
    reveal(restore_mode);
}

pub broadcast proof fn lemma_ack_if_sound(v: BuildView)
    ensures
        doc_ok(v) ==> doc_ok(#[trigger] ack_if(v)),
{
    reveal(ack_if);
}

pub broadcast proof fn lemma_clear_marker_sound(v: BuildView)
    ensures
        doc_ok(v) ==> doc_ok(#[trigger] clear_marker(v)),
{
    reveal(clear_marker);
}

pub broadcast proof fn lemma_marker_sound(v: BuildView)
    ensures
        doc_ok(v) ==> doc_ok(#[trigger] marker(v)),
{
    reveal(marker);
}

pub broadcast proof fn lemma_implied_sound(v: BuildView, e: Option<Seq<char>>, t: bool)
    ensures
        doc_ok(v) ==> doc_ok(#[trigger] implied(v, e, t)),
{
    reveal(implied);
    if doc_ok(v) {
        lemma_pop_while_ok(v.doc, v.stack, implied_stop(e, t));
    }
}

pub broadcast proof fn lemma_pop_until_v_sound(v: BuildView, name: Seq<char>)
    ensures
        doc_ok(v) ==> doc_ok(#[trigger] pop_until_v(v, name)),
{
    reveal(pop_until_v);
    if doc_ok(v) {
        lemma_pop_while_ok(v.doc, v.stack, is_name(name));
    }
}

pub broadcast proof fn lemma_clear_table_sound(v: BuildView)
    ensures
        doc_ok(v) ==> doc_ok(#[trigger] clear_table(v)),
{
    reveal(clear_table);
    if doc_ok(v) {
        lemma_pop_while_ok(v.doc, v.stack, in_names(TABLE_CONTEXT@));
    }
}

pub broadcast proof fn lemma_clear_table_body_sound(v: BuildView)
    ensures
        doc_ok(v) ==> doc_ok(#[trigger] clear_table_body(v)),
{
    reveal(clear_table_body);
    if doc_ok(v) {
        lemma_pop_while_ok(v.doc, v.stack, in_names(TABLE_BODY_CONTEXT@));
    }
}

pub broadcast proof fn lemma_clear_row_sound(v: BuildView)
    ensures
        doc_ok(v) ==> doc_ok(#[trigger] clear_row(v)),
{
    reveal(clear_row);
    if doc_ok(v) {
        lemma_pop_while_ok(v.doc, v.stack, in_names(TABLE_ROW_CONTEXT@));
    }
}

pub broadcast proof fn lemma_pop_sound(v: BuildView)
    ensures
        doc_ok(v) ==> doc_ok(#[trigger] pop(v)),
{
    reveal(pop);
    if doc_ok(v) && v.stack.len() > 0 {
        let s = v.stack.drop_last();
        assert forall|i: int| 0 <= i < s.len() implies v.doc.contains_key(#[trigger] s[i]) by {
            assert(s[i] == v.stack[i]);
        }
    }
}

pub broadcast proof fn lemma_remove_second_sound(v: BuildView)
    ensures
        doc_ok(v) && v.stack.len() > 1 ==> doc_ok(#[trigger] remove_second(v)),
{
    reveal(remove_second);
    if doc_ok(v) && v.stack.len() > 1 {
        let s = v.stack.remove(1);
        assert forall|i: int| 0 <= i < s.len() implies v.doc.contains_key(#[trigger] s[i]) by {
            if i < 1 {
                assert(s[i] == v.stack[i]);
            } else {
                assert(s[i] == v.stack[i + 1]);
            }
        }
    }
}

pub broadcast proof fn lemma_push_sound(v: BuildView, id: usize)
    ensures
        doc_ok(v) && v.doc.contains_key(id) ==> doc_ok(#[trigger] push(v, id)),
{
    reveal(push);
    if doc_ok(v) && v.doc.contains_key(id) {
        let s = v.stack.push(id);
        assert forall|i: int| 0 <= i < s.len() implies v.doc.contains_key(#[trigger] s[i]) by {
            if i < v.stack.len() {
                assert(s[i] == v.stack[i]);
            }
        }
    }
}

pub broadcast proof fn lemma_head_push_sound(v: BuildView)
    ensures
        doc_ok(v) ==> doc_ok(#[trigger] head_push(v)),
{
    reveal(head_push);
    broadcast use lemma_push_sound;

}

pub broadcast proof fn lemma_with_head_sound(v: BuildView, id: usize)
    ensures
        doc_ok(v) && v.doc.contains_key(id) ==> doc_ok(#[trigger] with_head(v, id)),
{
    reveal(with_head);
}

pub broadcast proof fn lemma_merge_html_sound(v: BuildView)
    ensures
        doc_ok(v) ==> doc_ok(#[trigger] merge_html(v)),
{
    reveal(merge_html);
    if doc_ok(v) {
        let w = merge_html(v);
        let id = cur(v);
        assert(v.doc.contains_key(id));
        assert(w.doc.dom() =~= v.doc.dom());
        lemma_same_shape(v.doc, w.doc);
    }
}

pub broadcast proof fn lemma_insert_node_sound(v: BuildView, n: NodeView)
    ensures
        (#[trigger] insert_node(v, n)) matches Ok((w, id)) ==> (doc_ok(v) && n.parent is None
            && n.children.len() == 0 ==> doc_ok(w) && w.doc.contains_key(id)),
{
    reveal(insert_node);
    if doc_ok(v) && n.parent is None && n.children.len() == 0 && v.next_id < usize::MAX {
        let id = v.next_id as usize;
        let p = v.doc[cur(v)].id;
        assert(v.doc.contains_key(cur(v)));
        assert(p == cur(v));
        assert(!v.doc.contains_key(id));
        lemma_attach_keeps_tree(v.doc, id, n, p);
        let (w, _) = insert_node(v, n)->Ok_0;
        assert(w.doc.dom() == v.doc.dom().insert(id));
        assert forall|i: int| 0 <= i < w.stack.len() implies w.doc.contains_key(#[trigger] w.stack[i]) by {
            assert(v.doc.contains_key(v.stack[i]));
        }
    }
}

proof fn lemma_token_node_fresh(t: SpecToken)
    ensures
        token_node(t).parent is None,
        token_node(t).children.len() == 0,
{
}

pub broadcast proof fn lemma_ins_sound(v: BuildView)
    ensures
        (#[trigger] ins(v)) matches Ok(w) ==> (doc_ok(v) ==> doc_ok(w)),
{
    reveal(ins);
    lemma_token_node_fresh(v.token);
    broadcast use lemma_insert_node_sound;

}

pub broadcast proof fn lemma_ins_push_sound(v: BuildView)
    ensures
        (#[trigger] ins_push(v)) matches Ok(w) ==> (doc_ok(v) ==> doc_ok(w)),
{
    reveal(ins_push);
    lemma_token_node_fresh(v.token);
    broadcast use {lemma_insert_node_sound, lemma_push_sound};

}

pub broadcast proof fn lemma_ins_named_sound(v: BuildView, name: Seq<char>)
    ensures
        (#[trigger] ins_named(v, name)) matches Ok(w) ==> (doc_ok(v) ==> doc_ok(w)),
{
    reveal(ins_named);
    lemma_token_node_fresh(
        SpecToken::StartTag { name: name, is_self_closing: false, attributes: Seq::empty() },
    );
    broadcast use lemma_insert_node_sound;

}

pub broadcast proof fn lemma_ins_named_push_sound(v: BuildView, name: Seq<char>)
    ensures
        (#[trigger] ins_named_push(v, name)) matches Ok(w) ==> (doc_ok(v) ==> doc_ok(w)),
{
    reveal(ins_named_push);
    lemma_token_node_fresh(
        SpecToken::StartTag { name: name, is_self_closing: false, attributes: Seq::empty() },
    );
    broadcast use {lemma_insert_node_sound, lemma_push_sound};

}

pub broadcast proof fn lemma_reset_sound(v: BuildView)
    ensures
        (#[trigger] reset(v)) matches Ok(w) ==> (doc_ok(v) ==> doc_ok(w)),
{
    reveal(reset);
    broadcast use lemma_with_mode_sound;

}

pub broadcast proof fn lemma_close_select_sound(v: BuildView)
    ensures
        (#[trigger] close_select_v(v)) matches Ok(w) ==> (doc_ok(v) ==> doc_ok(w)),
{
    reveal(close_select_v);
    broadcast use {lemma_reset_sound, lemma_pop_until_v_sound};

}

pub broadcast proof fn lemma_close_cell_sound(v: BuildView)
    ensures
        doc_ok(v) ==> doc_ok(#[trigger] close_cell_v(v)),
{
    reveal(close_cell_v);
    broadcast use {lemma_implied_sound, lemma_err_sound, lemma_with_mode_sound, lemma_clear_marker_sound};

    if doc_ok(v) {
        let w = implied(v, None, false);
        lemma_pop_while_ok(w.doc, w.stack, in_names(CELL_TAGS@));
    }
}

/// The table text rules keep the document sound.
pub proof fn lemma_table_chars_sound(v: BuildView, s: Seq<char>)
    ensures
        doc_ok(v) ==> doc_ok(table_chars(v, s)),
    decreases s.len(),
{
    broadcast use {lemma_err_sound, lemma_pending_push_sound};

    if s.len() > 0 {
        lemma_table_chars_sound(v, s.drop_last());
    }
}

/// The single changes of the state, each of which keeps its document sound.
pub broadcast group group_change_sound {
    lemma_err_sound,
    lemma_with_mode_sound,
    lemma_again_sound,
    lemma_template_push_sound,
    lemma_template_pop_sound,
    lemma_with_form_sound,
    lemma_with_frameset_ok_sound,
    lemma_with_foster_sound,
    lemma_with_quirks_sound,
    lemma_pending_push_sound,
    lemma_to_table_text_sound,
    lemma_restore_mode_sound,
    lemma_ack_if_sound,
    lemma_clear_marker_sound,
    lemma_marker_sound,
    lemma_implied_sound,
    lemma_pop_until_v_sound,
    lemma_clear_table_sound,
    lemma_clear_table_body_sound,
    lemma_clear_row_sound,
    lemma_pop_sound,
    lemma_remove_second_sound,
    lemma_push_sound,
    lemma_head_push_sound,
    lemma_with_head_sound,
    lemma_merge_html_sound,
    lemma_insert_node_sound,
    lemma_ins_sound,
    lemma_ins_push_sound,
    lemma_ins_named_sound,
    lemma_ins_named_push_sound,
    lemma_reset_sound,
    lemma_close_select_sound,
    lemma_close_cell_sound,
}

pub broadcast proof fn lemma_in_head_sound(v: BuildView)
    ensures
        (#[trigger] in_head(v)) matches Ok(w) ==> (doc_ok(v) ==> doc_ok(w)),
{
    reveal(in_head);
    broadcast use {group_change_sound};

}

pub broadcast proof fn lemma_in_body_sound(v: BuildView)
    ensures
        (#[trigger] in_body(v)) matches Ok(w) ==> (doc_ok(v) ==> doc_ok(w)),
{
    reveal(in_body);
    broadcast use {group_change_sound, lemma_in_head_sound};

}

pub broadcast proof fn lemma_in_table_tail_sound(v: BuildView)
    ensures
        (#[trigger] in_table_tail(v)) matches Ok(w) ==> (doc_ok(v) ==> doc_ok(w)),
{
    reveal(in_table_tail);
    broadcast use {group_change_sound, lemma_in_head_sound, lemma_in_body_sound};

}

pub broadcast proof fn lemma_in_table_sound(v: BuildView)
    ensures
        (#[trigger] in_table(v)) matches Ok(w) ==> (doc_ok(v) ==> doc_ok(w)),
{
    reveal(in_table);
    broadcast use {group_change_sound, lemma_in_table_tail_sound};

}

pub broadcast proof fn lemma_initial_sound(v: BuildView)
    ensures
        (#[trigger] initial(v)) matches Ok(w) ==> (doc_ok(v) ==> doc_ok(w)),
{
    reveal(initial);
    broadcast use {group_change_sound};

}

pub broadcast proof fn lemma_before_html_sound(v: BuildView)
    ensures
        (#[trigger] before_html(v)) matches Ok(w) ==> (doc_ok(v) ==> doc_ok(w)),
{
    reveal(before_html);
    broadcast use {group_change_sound};

}

pub broadcast proof fn lemma_before_head_sound(v: BuildView)
    ensures
        (#[trigger] before_head(v)) matches Ok(w) ==> (doc_ok(v) ==> doc_ok(w)),
{
    reveal(before_head);
    broadcast use {group_change_sound, lemma_in_body_sound};

}

pub broadcast proof fn lemma_in_head_noscript_sound(v: BuildView)
    ensures
        (#[trigger] in_head_noscript(v)) matches Ok(w) ==> (doc_ok(v) ==> doc_ok(w)),
{
    reveal(in_head_noscript);
    broadcast use {group_change_sound, lemma_in_head_sound, lemma_in_body_sound};

}

pub broadcast proof fn lemma_after_head_sound(v: BuildView)
    ensures
        (#[trigger] after_head(v)) matches Ok(w) ==> (doc_ok(v) ==> doc_ok(w)),
{
    reveal(after_head);
    broadcast use {group_change_sound, lemma_in_head_sound, lemma_in_body_sound};

}

pub broadcast proof fn lemma_text_mode_sound(v: BuildView)
    ensures
        (#[trigger] text_mode(v)) matches Ok(w) ==> (doc_ok(v) ==> doc_ok(w)),
{
    reveal(text_mode);
    broadcast use {group_change_sound};

}

pub broadcast proof fn lemma_in_table_text_sound(v: BuildView)
    ensures
        (#[trigger] in_table_text(v)) matches Ok(w) ==> (doc_ok(v) ==> doc_ok(w)),
{
    reveal(in_table_text);
    match v.token {
        SpecToken::Text { value } => lemma_table_chars_sound(v, value),
        _ => {},
    }
}

pub broadcast proof fn lemma_in_caption_sound(v: BuildView)
    ensures
        (#[trigger] in_caption(v)) matches Ok(w) ==> (doc_ok(v) ==> doc_ok(w)),
{
    reveal(in_caption);
    broadcast use {group_change_sound};

}

pub broadcast proof fn lemma_in_column_group_sound(v: BuildView)
    ensures
        (#[trigger] in_column_group(v)) matches Ok(w) ==> (doc_ok(v) ==> doc_ok(w)),
{
    reveal(in_column_group);
    broadcast use {group_change_sound, lemma_in_head_sound, lemma_in_body_sound};

}

pub broadcast proof fn lemma_in_table_body_sound(v: BuildView)
    ensures
        (#[trigger] in_table_body(v)) matches Ok(w) ==> (doc_ok(v) ==> doc_ok(w)),
{
    reveal(in_table_body);
    broadcast use {group_change_sound, lemma_in_table_sound};

}

pub broadcast proof fn lemma_in_row_sound(v: BuildView)
    ensures
        (#[trigger] in_row(v)) matches Ok(w) ==> (doc_ok(v) ==> doc_ok(w)),
{
    reveal(in_row);
    broadcast use {group_change_sound};

}

pub broadcast proof fn lemma_in_cell_sound(v: BuildView)
    ensures
        (#[trigger] in_cell(v)) matches Ok(w) ==> (doc_ok(v) ==> doc_ok(w)),
{
    reveal(in_cell);
    broadcast use {group_change_sound, lemma_in_body_sound};

}

pub broadcast proof fn lemma_in_select_sound(v: BuildView)
    ensures
        (#[trigger] in_select(v)) matches Ok(w) ==> (doc_ok(v) ==> doc_ok(w)),
{
    reveal(in_select);
    broadcast use {group_change_sound, lemma_in_head_sound, lemma_in_body_sound};

}

pub broadcast proof fn lemma_in_select_in_table_sound(v: BuildView)
    ensures
        (#[trigger] in_select_in_table(v)) matches Ok(w) ==> (doc_ok(v) ==> doc_ok(w)),
{
    reveal(in_select_in_table);
    broadcast use {group_change_sound};

}

pub broadcast proof fn lemma_in_template_sound(v: BuildView)
    ensures
        (#[trigger] in_template(v)) matches Ok(w) ==> (doc_ok(v) ==> doc_ok(w)),
{
    reveal(in_template);
    broadcast use {group_change_sound, lemma_in_head_sound, lemma_in_body_sound};

}

pub broadcast proof fn lemma_after_body_sound(v: BuildView)
    ensures
        (#[trigger] after_body(v)) matches Ok(w) ==> (doc_ok(v) ==> doc_ok(w)),
{
    reveal(after_body);
    broadcast use {group_change_sound, lemma_in_body_sound};

}

pub broadcast proof fn lemma_in_frameset_sound(v: BuildView)
    ensures
        (#[trigger] in_frameset(v)) matches Ok(w) ==> (doc_ok(v) ==> doc_ok(w)),
{
    reveal(in_frameset);
    broadcast use {group_change_sound, lemma_in_head_sound, lemma_in_body_sound};

}

pub broadcast proof fn lemma_after_frameset_sound(v: BuildView)
    ensures
        (#[trigger] after_frameset(v)) matches Ok(w) ==> (doc_ok(v) ==> doc_ok(w)),
{
    reveal(after_frameset);
    broadcast use {group_change_sound, lemma_in_head_sound, lemma_in_body_sound};

}

pub broadcast proof fn lemma_after_after_body_sound(v: BuildView)
    ensures
        (#[trigger] after_after_body(v)) matches Ok(w) ==> (doc_ok(v) ==> doc_ok(w)),
{
    reveal(after_after_body);
    broadcast use {group_change_sound, lemma_in_body_sound};

}

pub broadcast proof fn lemma_after_after_frameset_sound(v: BuildView)
    ensures
        (#[trigger] after_after_frameset(v)) matches Ok(w) ==> (doc_ok(v) ==> doc_ok(w)),
{
    reveal(after_after_frameset);
    broadcast use {group_change_sound, lemma_in_head_sound, lemma_in_body_sound};

}

/// A step of the tree builder that succeeds, in whatever insertion mode and
/// with whatever token, keeps the document a sound tree: nodes stay under
/// their own ids, every child that a node lists has that node as its parent
/// and is listed once, every node with a parent is listed by it, and the
/// open elements and the head element stay nodes of the document.
pub proof fn lemma_step_keeps_tree(v: BuildView)
    ensures
        process(v) matches Ok(w) ==> (doc_ok(v) ==> doc_ok(w)),
{
    reveal(process);
    broadcast use {
        lemma_initial_sound,
        lemma_before_html_sound,
        lemma_before_head_sound,
        lemma_in_head_sound,
        lemma_in_head_noscript_sound,
        lemma_after_head_sound,
        lemma_in_body_sound,
        lemma_text_mode_sound,
        lemma_in_table_sound,
        lemma_in_table_text_sound,
        lemma_in_caption_sound,
        lemma_in_column_group_sound,
        lemma_in_table_body_sound,
        lemma_in_row_sound,
        lemma_in_cell_sound,
        lemma_in_select_sound,
        lemma_in_select_in_table_sound,
        lemma_in_template_sound,
        lemma_after_body_sound,
        lemma_in_frameset_sound,
        lemma_after_frameset_sound,
        lemma_after_after_body_sound,
        lemma_after_after_frameset_sound,
    };

}


// ---------------------------------------------------------------------------
// The head element
// ---------------------------------------------------------------------------

/// In the "before head" insertion mode a start tag named `head` adds exactly
/// one node to the document, under the next id: the element `head` with the
/// tag's attributes and no children, attached under the current node as its
/// last child. No other node changes; that node becomes the head element, the
/// open elements stay as they were, and the tree builder goes on in the
/// "in head" mode.
pub proof fn lemma_head_start_tag_makes_head(
    v: BuildView,
    attributes: Seq<(Seq<char>, Seq<char>)>,
    is_self_closing: bool,
)
    requires
        doc_ok(v),
        v.mode == InsertionMode::BeforeHead,
        v.token == (SpecToken::StartTag { name: "head"@, is_self_closing, attributes }),
        v.next_id < usize::MAX,
    ensures
        ({
            let id = v.next_id as usize;
            let p = cur(v);
            match process(v) {
                Ok(w) => {
                    &&& !v.doc.contains_key(id)
                    &&& v.doc.contains_key(p)
                    &&& w.doc.dom() == v.doc.dom().insert(id)
                    &&& w.doc[id].id == id
                    &&& w.doc[id].name == "head"@
                    &&& w.doc[id].data == (NodeDataView::Element { name: "head"@, attributes })
                    &&& w.doc[id].parent == Some(p)
                    &&& w.doc[id].children.len() == 0
                    &&& w.doc[p].children == v.doc[p].children.push(id)
                    &&& forall|k: usize| v.doc.contains_key(k) && k != p ==> #[trigger] w.doc[k] == v.doc[k]
                    &&& w.head == Some(id)
                    &&& w.mode == InsertionMode::InHead
                    &&& w.stack == v.stack
                    &&& w.next_id == v.next_id + 1
                },
                Err(_) => false,
            }
        }),
{
    reveal(process);
    reveal(before_head);
    reveal(insert_node);
    reveal(with_head);
    reveal(with_mode);
    reveal_strlit("head");
    reveal_strlit("html");
    assert("head"@ != "html"@) by {
        assert("head"@[1] != "html"@[1]);
    }
    let id = v.next_id as usize;
    let p = cur(v);
    if v.stack.len() > 0 {
        assert(v.doc.contains_key(v.stack[v.stack.len() - 1]));
    }
    assert(v.doc.contains_key(p));
    assert(!v.doc.contains_key(id));
    assert(v.doc[p].id == p);
    let n = NodeView { id: id, ..token_node(v.token) };
    lemma_attach_new_node(v.doc, id, n, p);
}

} // verus!
