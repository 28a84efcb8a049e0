//! The insertion modes: what the tree builder does with the current token.

use vstd::prelude::*;
use crate::html5_parser::node::{in_list, list_contains, NodeData};
use crate::html5_parser::parser::document::DocumentType;
use crate::html5_parser::parser::quirks::QuirksMode;
use crate::html5_parser::parser::{
    tokenizer_ok, CELL_TAGS, current_id, scope_search, token_node, ActiveElement, BuildView, Html5Parser, InsertionMode,
    Scope,
};
use crate::html5_parser::text::{chars_of, push_char, str_eq, string_from_str};
use crate::html5_parser::token::{empty_or_white, Attribute, SpecToken, Token};
use crate::html5_parser::tokenizer::CHAR_NUL;
use crate::html5_parser::node_arena::rooted_tree;
use crate::html5_parser::tokenizer_spec::{run, TokView};
use crate::html5_parser::parser::tree_laws::{doc_ok, keeps, lemma_step_keeps, lemma_step_keeps_tree};
use crate::html5_parser::parser::tree_spec::{
    fetched, lemma_parse_steps_settled, parse_step_spec, parse_steps, ParseState, StepOutcome,
};
use crate::html5_parser::parser::tree_spec::{
    ack_if, after_after_body, after_after_frameset, after_body, after_frameset, after_head, again,
    attr_both, before_head, before_html, close_select_v, doctype_reported, end_named, err, et1,
    expect_last, head_push, in_body, in_caption, in_cell, in_column_group, in_frameset, in_head,
    in_head_noscript, in_row, in_select, in_select_in_table, in_table, in_table_body,
    in_table_tail, in_table_text, in_template, initial, ins, ins_named, ins_named_push, ins_push, insert_node,
    cur_name, has_open, merge_html, named_node, no_section_in_scope, outcome, pending_push, pop, pop_expect,
    pop_until_v, process, push, remove_second, reset, restore_mode, scope_r, st1, start_named,
    switch_template, table_chars, tag, template_pop, template_push, text_mode, to_table_text, white,
    with_form, with_foster, with_frameset_ok, with_head, with_mode, with_quirks,
};

verus! {

/// Why the tree builder could not go on with a token.
#[derive(Debug, PartialEq, Eq, Structural, Clone, Copy)]
pub enum BuildError {
    /// The rules for this token are not written yet.
    NotImplemented,
    /// The open elements are not what the rules for this token expect.
    BadOpenElements,
    /// No more nodes can be numbered.
    OutOfIds,
}

/// The start tags that "in head noscript" hands to the "in head" rules.
pub const NOSCRIPT_HEAD_TAGS: [&'static str; 6] = [
    "basefont", "bgsound", "link", "meta", "noframes", "style",
];

/// The start tags of elements that "in head" adds and pops at once.
pub const HEAD_LINK_TAGS: [&'static str; 4] = [
    "base", "basefont", "bgsound", "link",
];

/// The start tags that "in body" and "in template" hand to the "in head" rules.
pub const HEAD_ELEMENTS_IN_BODY: [&'static str; 10] = [
    "base", "basefont", "bgsound", "link", "meta", "noframes", "script", "style", "template", "title",
];

/// The start tags that "after head" and "in column group" hand back to the "in head" rules.
pub const HEAD_ELEMENTS: [&'static str; 10] = [
    "base", "basefront", "bgsound", "link", "meta", "noframes", "script", "style", "template", "title",
];

/// The end tags that "in cell" reports and ignores.
pub const CELL_IGNORED_END_TAGS: [&'static str; 5] = [
    "body", "caption", "col", "colgroup", "html",
];

/// The end tags that "in table" reports and ignores.
pub const TABLE_IGNORED_END_TAGS: [&'static str; 11] = [
    "body", "caption", "col", "colgroup", "html", "tbody", "td", "tfoot", "th", "thead", "tr",
];

/// The end tags that "in table body" reports and ignores.
pub const TABLE_BODY_IGNORED_END_TAGS: [&'static str; 8] = [
    "body", "caption", "col", "colgroup", "html", "td", "th", "tr",
];

/// The end tags that the head modes treat as "anything else".
pub const BODY_HTML_BR: [&'static str; 3] = [
    "body", "html", "br",
];

/// The start tags that switch a template to the "in table" mode.
pub const TEMPLATE_TABLE_TAGS: [&'static str; 5] = [
    "caption", "colgroup", "tbody", "tfoot", "thead",
];

/// The table parts whose start tags end a caption or a cell.
pub const TABLE_PARTS: [&'static str; 9] = [
    "caption", "col", "colgroup", "tbody", "td", "tfoot", "th", "thead", "tr",
];

/// The start tags that end a table body.
pub const TABLE_BODY_ENDING_TAGS: [&'static str; 6] = [
    "caption", "col", "colgroup", "tbody", "tfoot", "thead",
];

/// The start tags that end a row.
pub const ROW_ENDING_TAGS: [&'static str; 7] = [
    "caption", "col", "colgroup", "tbody", "tfoot", "thead", "tr",
];

/// The table tags that end a select inside a table.
pub const SELECT_IN_TABLE_ENDS: [&'static str; 8] = [
    "caption", "table", "tbody", "tfoot", "thead", "tr", "td", "th",
];

/// The end tags that the "before html" and "before head" modes treat as "anything else".
pub const HEAD_BODY_HTML_BR: [&'static str; 4] = [
    "head", "body", "html", "br",
];

/// The start tags that "in head noscript" reports.
pub const HEAD_NOSCRIPT: [&'static str; 2] = [
    "head", "noscript",
];

/// The start tags that end a select and are processed again.
pub const INPUT_KEYGEN_TEXTAREA: [&'static str; 3] = [
    "input", "keygen", "textarea",
];

/// The start tags whose raw text rules "in head" does not apply.
pub const NOFRAMES_STYLE: [&'static str; 2] = [
    "noframes", "style",
];

/// The start tags that "in select" hands to the "in head" rules.
pub const SCRIPT_TEMPLATE: [&'static str; 2] = [
    "script", "template",
];

/// The start tags that "in table" hands to the "in head" rules.
pub const STYLE_SCRIPT_TEMPLATE: [&'static str; 3] = [
    "style", "script", "template",
];

/// The table section tags.
pub const SECTION_TAGS: [&'static str; 3] = [
    "tbody", "tfoot", "thead",
];

/// The table section and row tags.
pub const SECTION_AND_ROW_TAGS: [&'static str; 4] = [
    "tbody", "tfoot", "thead", "tr",
];

/// The cell and row tags.
pub const CELL_AND_ROW_TAGS: [&'static str; 3] = [
    "td", "th", "tr",
];

/// Whether a token is a start tag named by one of `names`.
#[verifier::opaque]
pub open spec fn start_tag_named(t: SpecToken, names: Seq<&str>) -> bool {
    t matches SpecToken::StartTag { name, .. } && in_list(names, name)
}

/// Whether a token is an end tag named by one of `names`.
#[verifier::opaque]
pub open spec fn end_tag_named(t: SpecToken, names: Seq<&str>) -> bool {
    t matches SpecToken::EndTag { name } && in_list(names, name)
}

/// `acc` with the attributes of `inc` added in order, each only when no
/// attribute of that name is there yet.
pub open spec fn merge_attrs(acc: Seq<(Seq<char>, Seq<char>)>, inc: Seq<(Seq<char>, Seq<char>)>) -> Seq<
    (Seq<char>, Seq<char>),
>
    decreases inc.len(),
{
    if inc.len() == 0 {
        acc
    } else {
        let a = inc[0];
        let acc2 = if exists|i: int| 0 <= i < acc.len() && #[trigger] acc[i].0 == a.0 {
            acc
        } else {
            acc.push(a)
        };
        merge_attrs(acc2, inc.drop_first())
    }
}

/// Whether an attribute of the list is named `name`.
fn has_attribute(list: &Vec<Attribute>, name: &str) -> (r: bool)
    ensures
        r == exists|i: int| 0 <= i < list@.len() && #[trigger] list@[i].name@ == name@,
{
    let mut i: usize = 0;
    while i < list.len()
        invariant
            i <= list@.len(),
            forall|j: int| 0 <= j < i ==> #[trigger] list@[j].name@ != name@,
        decreases list@.len() - i,
    {
        if str_eq(list[i].name.as_str(), name) {
            return true;
        }
        i += 1;
    }
    false
}

/// The attributes of `existing` with those of `incoming` added (see
/// `merge_attrs`).
fn merge_attributes(existing: &Vec<Attribute>, incoming: &Vec<Attribute>) -> (r: Vec<Attribute>)
    ensures
        r@.map_values(|a: Attribute| a@) == merge_attrs(
            existing@.map_values(|a: Attribute| a@),
            incoming@.map_values(|a: Attribute| a@),
        ),
{
    let ghost inc = incoming@.map_values(|a: Attribute| a@);
    let ghost target = merge_attrs(existing@.map_values(|a: Attribute| a@), inc);
    let mut r: Vec<Attribute> = Vec::new();
    let mut k: usize = 0;
    while k < existing.len()
        invariant
            k <= existing@.len(),
            r@.len() == k,
            forall|j: int| 0 <= j < k ==> #[trigger] r@[j]@ == existing@[j]@,
        decreases existing@.len() - k,
    {
        r.push(Attribute {
            name: string_from_str(existing[k].name.as_str()),
            value: string_from_str(existing[k].value.as_str()),
        });
        k += 1;
    }
    assert(r@.map_values(|a: Attribute| a@) =~= existing@.map_values(|a: Attribute| a@));
    assert(inc.skip(0) =~= inc);
    let mut i: usize = 0;
    while i < incoming.len()
        invariant
            i <= incoming@.len(),
            inc == incoming@.map_values(|a: Attribute| a@),
            merge_attrs(r@.map_values(|a: Attribute| a@), inc.skip(i as int)) == target,
        decreases incoming@.len() - i,
    {
        let ghost acc = r@.map_values(|a: Attribute| a@);
        assert(inc.skip(i as int)[0] == incoming@[i as int]@);
        assert(inc.skip(i as int).drop_first() =~= inc.skip(i + 1));
        let present = has_attribute(&r, incoming[i].name.as_str());
        proof {
            if present {
                let j = choose|j: int| 0 <= j < r@.len() && #[trigger] r@[j].name@
                    == incoming@[i as int].name@;
                assert(acc[j].0 == inc.skip(i as int)[0].0);
            } else {
                assert forall|j: int| 0 <= j < acc.len() implies #[trigger] acc[j].0
                    != inc.skip(i as int)[0].0 by {
                    assert(acc[j] == r@[j]@);
                }
            }
        }
        if !present {
            r.push(Attribute {
                name: string_from_str(incoming[i].name.as_str()),
                value: string_from_str(incoming[i].value.as_str()),
            });
            assert(r@.map_values(|a: Attribute| a@) =~= acc.push(inc.skip(i as int)[0]));
        }
        i += 1;
    }
    assert(inc.skip(incoming@.len() as int) =~= Seq::<(Seq<char>, Seq<char>)>::empty());
    r
}

impl<'a> Html5Parser<'a> {
    /// Whether the current token is a start tag named by one of `names`.
    fn start_tag_in(&self, names: &[&str]) -> (r: bool)
        ensures
            r == start_tag_named(self.current_token@, names@),
    {
        proof {
            reveal(start_tag_named);
        }
        match &self.current_token {
            Token::StartTagToken { name, .. } => list_contains(names, name.as_str()),
            _ => false,
        }
    }

    /// Whether the current token is an end tag named by one of `names`.
    fn end_tag_in(&self, names: &[&str]) -> (r: bool)
        ensures
            r == end_tag_named(self.current_token@, names@),
    {
        proof {
            reveal(end_tag_named);
        }
        match &self.current_token {
            Token::EndTagToken { name } => list_contains(names, name.as_str()),
            _ => false,
        }
    }

    /// Whether the current token is a start tag named `name`.
    fn start_tag_is(&self, name: &str) -> (r: bool)
        ensures
            r == start_named(self.current_token@, name@),
    {
        match &self.current_token {
            Token::StartTagToken { name: n, .. } => str_eq(n.as_str(), name),
            _ => false,
        }
    }

    /// Whether the current token is an end tag named `name`.
    fn end_tag_is(&self, name: &str) -> (r: bool)
        ensures
            r == end_named(self.current_token@, name@),
    {
        match &self.current_token {
            Token::EndTagToken { name: n } => str_eq(n.as_str(), name),
            _ => false,
        }
    }

    /// Whether the current token is a start tag.
    fn is_start_tag(&self) -> (r: bool)
        ensures
            r == (self.current_token@ is StartTag),
    {
        match &self.current_token {
            Token::StartTagToken { .. } => true,
            _ => false,
        }
    }

    /// Whether the current token is an end tag.
    fn is_end_tag(&self) -> (r: bool)
        ensures
            r == (self.current_token@ is EndTag),
    {
        match &self.current_token {
            Token::EndTagToken { .. } => true,
            _ => false,
        }
    }

    /// Whether the current token is a comment.
    fn is_comment(&self) -> (r: bool)
        ensures
            r == (self.current_token@ is Comment),
    {
        match &self.current_token {
            Token::CommentToken { .. } => true,
            _ => false,
        }
    }

    /// Whether the current token is a doctype.
    fn is_doctype(&self) -> (r: bool)
        ensures
            r == (self.current_token@ is DocType),
    {
        match &self.current_token {
            Token::DocTypeToken { .. } => true,
            _ => false,
        }
    }

    /// Whether the current token is text.
    fn is_text(&self) -> (r: bool)
        ensures
            r == (self.current_token@ is Text),
    {
        match &self.current_token {
            Token::TextToken { .. } => true,
            _ => false,
        }
    }

    /// Whether the current token is text that is empty or all white space.
    fn is_white_text(&self) -> (r: bool)
        ensures
            r == empty_or_white(self.current_token@),
    {
        self.current_token.is_empty_or_white()
    }

    /// Whether the current token is text made of one NUL character.
    fn is_null_text(&self) -> (r: bool)
        ensures
            r == (self.current_token@ matches SpecToken::Text { value } && value == seq!['\0']),
    {
        match &self.current_token {
            Token::TextToken { value } => {
                let mut one = String::new();
                push_char(&mut one, CHAR_NUL);
                str_eq(value.as_str(), one.as_str())
            },
            _ => false,
        }
    }

    /// Whether the current token is the end of the input.
    fn is_eof_token(&self) -> (r: bool)
        ensures
            r == (self.current_token@ is Eof),
    {
        self.current_token.is_eof()
    }

    /// Whether the current token is a self-closing start tag.
    fn is_self_closing(&self) -> (r: bool)
        ensures
            r == (self.current_token@ matches SpecToken::StartTag { is_self_closing, .. }
                && is_self_closing),
    {
        match &self.current_token {
            Token::StartTagToken { is_self_closing, .. } => *is_self_closing,
            _ => false,
        }
    }

    /// The name of the current start or end tag (empty for other tokens).
    fn tag_name(&self) -> (r: String)
        ensures
            r@ == (match self.current_token@ {
                SpecToken::StartTag { name, .. } => name,
                SpecToken::EndTag { name } => name,
                _ => Seq::empty(),
            }),
    {
        match &self.current_token {
            Token::StartTagToken { name, .. } => string_from_str(name.as_str()),
            Token::EndTagToken { name } => string_from_str(name.as_str()),
            _ => String::new(),
        }
    }

    /// Whether the current node's name is `name`.
    fn current_is(&self, name: &str) -> (r: bool)
        requires
            self.inv(),
        ensures
            r == (self.doc()[current_id(self.open_elements@)].name == name@),
            r == (cur_name(self@) == name@),
    {
        str_eq(self.current_node().name.as_str(), name)
    }

    /// Adds a node for the current token under the current node; returns
    /// its id.
    fn insert_current(&mut self) -> (r: Result<usize, BuildError>)
        requires
            old(self).inv(),
            !(old(self).current_token@ is Eof),
        ensures
            final(self).step_ok(old(self)),
            final(self).open_elements == old(self).open_elements,
            final(self).insertion_mode == old(self).insertion_mode,
            final(self).reprocess_token == old(self).reprocess_token,
            match r {
                Ok(id) => final(self).doc().contains_key(id),
                Err(e) => e == BuildError::OutOfIds,
            },
            match r {
                Ok(id) => insert_node(old(self)@, token_node(old(self)@.token)) == Ok::<
                    (BuildView, usize),
                    BuildError,
                >((final(self)@, id)),
                Err(e) => insert_node(old(self)@, token_node(old(self)@.token)) == Err::<
                    (BuildView, usize),
                    BuildError,
                >(e),
            },
            match r {
                Ok(_) => ins(old(self)@) == Ok::<BuildView, BuildError>(final(self)@),
                Err(e) => ins(old(self)@) == Err::<BuildView, BuildError>(e),
            },
    {
        proof {
            reveal(insert_node);
            reveal(ins);
        }
        if !self.document.can_add_node() {
            return Err(BuildError::OutOfIds);
        }
        let parent = self.current_node().id;
        let node = self.create_node(&self.current_token);
        let id = self.document.add_node(node, parent);
        Ok(id)
    }

    /// Adds an element for a start tag named `name` (with no attributes)
    /// under the current node; returns its id.
    fn insert_element_named(&mut self, name: &str) -> (r: Result<usize, BuildError>)
        requires
            old(self).inv(),
        ensures
            final(self).step_ok(old(self)),
            final(self).open_elements == old(self).open_elements,
            final(self).insertion_mode == old(self).insertion_mode,
            final(self).reprocess_token == old(self).reprocess_token,
            match r {
                Ok(id) => final(self).doc().contains_key(id),
                Err(e) => e == BuildError::OutOfIds,
            },
            match r {
                Ok(id) => insert_node(old(self)@, named_node(name@)) == Ok::<
                    (BuildView, usize),
                    BuildError,
                >((final(self)@, id)),
                Err(e) => insert_node(old(self)@, named_node(name@)) == Err::<
                    (BuildView, usize),
                    BuildError,
                >(e),
            },
            match r {
                Ok(_) => ins_named(old(self)@, name@) == Ok::<BuildView, BuildError>(final(self)@),
                Err(e) => ins_named(old(self)@, name@) == Err::<BuildView, BuildError>(e),
            },
    {
        proof {
            reveal(insert_node);
            reveal(ins_named);
        }
        if !self.document.can_add_node() {
            return Err(BuildError::OutOfIds);
        }
        let parent = self.current_node().id;
        let attributes: Vec<Attribute> = Vec::new();
        assert(attributes@.map_values(|a: Attribute| a@) =~= Seq::<(Seq<char>, Seq<char>)>::empty());
        let token = Token::StartTagToken {
            name: string_from_str(name),
            is_self_closing: false,
            attributes,
        };
        let node = self.create_node(&token);
        let id = self.document.add_node(node, parent);
        Ok(id)
    }

    /// Adds a node for the current token and pushes it on the open elements.
    fn insert_current_and_push(&mut self) -> (r: Result<(), BuildError>)
        requires
            old(self).inv(),
            !(old(self).current_token@ is Eof),
        ensures
            final(self).step_ok(old(self)),
            final(self).insertion_mode == old(self).insertion_mode,
            final(self).reprocess_token == old(self).reprocess_token,
            outcome(r, ins_push(old(self)@), final(self)@),
    {
        proof {
            reveal(ins_push);
            reveal(push);
        }
        let id = match self.insert_current() {
            Ok(x) => x,
            Err(e) => {
                return Err(e);
            },
        };
        self.open_elements.push(id);
        Ok(())
    }

    /// Pops the current node, which must be named `name`.
    fn pop_expecting(&mut self, name: &str) -> (r: Result<(), BuildError>)
        requires
            old(self).inv(),
        ensures
            final(self).step_ok(old(self)),
            final(self).insertion_mode == old(self).insertion_mode,
            final(self).reprocess_token == old(self).reprocess_token,
            outcome(r, pop_expect(old(self)@, name@), final(self)@),
    {
        proof {
            reveal(pop);
        }
        if self.pop_check(name) {
            Ok(())
        } else {
            Err(BuildError::BadOpenElements)
        }
    }

    /// Checks that the current node is named `name`.
    fn expect_last_element(&self, name: &str) -> (r: Result<(), BuildError>)
        requires
            self.inv(),
        ensures
            match r {
                Ok(_) => expect_last(self@, name@) == Ok::<BuildView, BuildError>(self@),
                Err(e) => expect_last(self@, name@) == Err::<BuildView, BuildError>(e),
            },
    {
        if self.current_is(name) {
            Ok(())
        } else {
            Err(BuildError::BadOpenElements)
        }
    }

    /// Whether `tag` is in the given scope; an error where the search runs
    /// off the bottom of the open elements.
    fn checked_scope(&self, tag: &str, scope: Scope) -> (r: Result<bool, BuildError>)
        requires
            self.inv(),
        ensures
            r == scope_r(self@, tag@, scope),
    {
        proof {
            reveal(scope_r);
        }
        if self.open_elements.len() == 0 {
            return Err(BuildError::BadOpenElements);
        }
        match self.scope_check(tag, scope) {
            Some(b) => Ok(b),
            None => Err(BuildError::BadOpenElements),
        }
    }

    /// Resets the insertion mode; an error where the rules cannot decide.
    fn checked_reset(&mut self) -> (r: Result<(), BuildError>)
        requires
            old(self).inv(),
        ensures
            final(self).step_ok(old(self)),
            final(self).reprocess_token == old(self).reprocess_token,
            outcome(r, reset(old(self)@), final(self)@),
    {
        proof {
            reveal(reset);
            reveal(with_mode);
        }
        if self.open_elements.len() == 0 {
            return Err(BuildError::BadOpenElements);
        }
        match self.find_reset_mode() {
            Some(m) => {
                self.insertion_mode = m;
                Ok(())
            },
            None => Err(BuildError::BadOpenElements),
        }
    }

    /// Pushes the head element (if any) back on the open elements.
    fn push_head_element(&mut self)
        requires
            old(self).inv(),
        ensures
            final(self).step_ok(old(self)),
            final(self).insertion_mode == old(self).insertion_mode,
            final(self).reprocess_token == old(self).reprocess_token,
            final(self)@ == head_push(old(self)@),
    {
        proof {
            reveal(head_push);
            reveal(push);
        }
        if let Some(node_id) = self.head_element {
            self.open_elements.push(node_id);
        }
    }

    /// Pops the current node, if any.
    fn pop_current(&mut self)
        requires
            old(self).inv(),
        ensures
            final(self).step_ok(old(self)),
            final(self).insertion_mode == old(self).insertion_mode,
            final(self).reprocess_token == old(self).reprocess_token,
            final(self)@ == pop(old(self)@),
    {
        proof {
            reveal(pop);
        }
        self.open_elements.pop();
    }

    /// Switches to the insertion mode `m`.
    fn set_mode(&mut self, m: InsertionMode)
        requires
            old(self).inv(),
        ensures
            final(self).step_ok(old(self)),
            final(self)@ == with_mode(old(self)@, m),
    {
        proof {
            reveal(with_mode);
        }
        self.insertion_mode = m;
    }

    /// Marks the current token to be processed again.
    fn set_reprocess(&mut self)
        requires
            old(self).inv(),
        ensures
            final(self).step_ok(old(self)),
            final(self)@ == again(old(self)@),
    {
        proof {
            reveal(again);
        }
        self.reprocess_token = true;
    }

    /// Acknowledges the self-closing flag, when the current token has it.
    fn ack_if_self_closing(&mut self)
        requires
            old(self).inv(),
        ensures
            final(self).step_ok(old(self)),
            final(self)@ == ack_if(old(self)@),
    {
        proof {
            reveal(ack_if);
        }
        if self.is_self_closing() {
            self.acknowledge_self_closing_tag(&Token::EofToken);
        }
    }

    /// Drops the current template insertion mode.
    fn pop_template_mode(&mut self)
        requires
            old(self).inv(),
        ensures
            final(self).step_ok(old(self)),
            final(self)@ == template_pop(old(self)@),
    {
        proof {
            reveal(template_pop);
        }
        self.template_insertion_mode.pop();
    }

    /// Pushes a template insertion mode.
    fn push_template_mode(&mut self, m: InsertionMode)
        requires
            old(self).inv(),
        ensures
            final(self).step_ok(old(self)),
            final(self)@ == template_push(old(self)@, m),
    {
        proof {
            reveal(template_push);
        }
        self.template_insertion_mode.push(m);
    }

    /// Pushes a node of the document on the open elements.
    fn push_open(&mut self, id: usize)
        requires
            old(self).inv(),
            old(self).doc().contains_key(id),
        ensures
            final(self).step_ok(old(self)),
            final(self)@ == push(old(self)@, id),
    {
        proof {
            reveal(push);
        }
        self.open_elements.push(id);
    }

    /// Removes the second open element.
    fn remove_second_open(&mut self)
        requires
            old(self).inv(),
            old(self).open_elements@.len() > 1,
        ensures
            final(self).step_ok(old(self)),
            final(self)@ == remove_second(old(self)@),
    {
        proof {
            reveal(remove_second);
        }
        let ghost before = self.open_elements@;
        self.open_elements.remove(1);
        assert forall|i: int| 0 <= i < self.open_elements@.len() implies self.doc().contains_key(
            #[trigger] self.open_elements@[i],
        ) by {
            if i >= 1 {
                assert(self.open_elements@[i] == before[i + 1]);
            } else {
                assert(self.open_elements@[i] == before[i]);
            }
        }
    }

    /// Sets the head element.
    fn set_head(&mut self, id: usize)
        requires
            old(self).inv(),
            old(self).doc().contains_key(id),
        ensures
            final(self).step_ok(old(self)),
            final(self)@ == with_head(old(self)@, id),
    {
        proof {
            reveal(with_head);
        }
        self.head_element = Some(id);
    }

    /// Sets the form element.
    fn set_form(&mut self, id: usize)
        requires
            old(self).inv(),
            old(self).doc().contains_key(id),
        ensures
            final(self).step_ok(old(self)),
            final(self)@ == with_form(old(self)@, id),
    {
        proof {
            reveal(with_form);
        }
        self.form_element = Some(id);
    }

    /// Sets whether a frameset may still be inserted.
    fn set_frameset_ok(&mut self, b: bool)
        requires
            old(self).inv(),
        ensures
            final(self).step_ok(old(self)),
            final(self)@ == with_frameset_ok(old(self)@, b),
    {
        proof {
            reveal(with_frameset_ok);
        }
        self.frameset_ok = b;
    }

    /// Sets foster parenting.
    fn set_foster(&mut self, b: bool)
        requires
            old(self).inv(),
        ensures
            final(self).step_ok(old(self)),
            final(self)@ == with_foster(old(self)@, b),
    {
        proof {
            reveal(with_foster);
        }
        self.foster_parenting = b;
    }

    /// Puts the document in quirks mode.
    fn set_quirks(&mut self)
        requires
            old(self).inv(),
        ensures
            final(self).step_ok(old(self)),
            final(self)@ == with_quirks(old(self)@),
    {
        proof {
            reveal(with_quirks);
        }
        self.document.quirks_mode = QuirksMode::Quirks;
    }

    /// Keeps one more pending table character.
    fn push_pending(&mut self, c: char)
        requires
            old(self).inv(),
        ensures
            final(self).step_ok(old(self)),
            final(self)@ == pending_push(old(self)@, c),
    {
        proof {
            reveal(pending_push);
        }
        self.pending_table_character_tokens.push(c);
    }

    /// Starts collecting table text: no pending characters, the current mode
    /// remembered, and the "in table text" mode.
    fn enter_table_text(&mut self)
        requires
            old(self).inv(),
        ensures
            final(self).step_ok(old(self)),
            final(self)@ == to_table_text(old(self)@),
    {
        proof {
            reveal(to_table_text);
        }
        self.pending_table_character_tokens = Vec::new();
        self.original_insertion_mode = self.insertion_mode;
        self.insertion_mode = InsertionMode::InTableText;
    }

    /// Goes back to the remembered insertion mode.
    fn restore_original_mode(&mut self)
        requires
            old(self).inv(),
        ensures
            final(self).step_ok(old(self)),
            final(self)@ == restore_mode(old(self)@),
    {
        proof {
            reveal(restore_mode);
        }
        self.insertion_mode = self.original_insertion_mode;
    }

    /// Adds an element for a start tag named `name` and pushes it on the open
    /// elements.
    fn insert_element_named_and_push(&mut self, name: &str) -> (r: Result<(), BuildError>)
        requires
            old(self).inv(),
        ensures
            final(self).step_ok(old(self)),
            outcome(r, ins_named_push(old(self)@, name@), final(self)@),
    {
        proof {
            reveal(ins_named_push);
        }
        let id = match self.insert_element_named(name) {
            Ok(x) => x,
            Err(e) => {
                return Err(e);
            },
        };
        self.push_open(id);
        Ok(())
    }

    /// The "in head" insertion mode.
    #[verifier::spinoff_prover]
    #[verifier::rlimit(100)]
    fn handle_in_head(&mut self) -> (r: Result<(), BuildError>)
        requires
            old(self).inv(),
            !(old(self).current_token@ is Eof),
        ensures
            final(self).step_ok(old(self)),
            outcome(r, in_head(old(self)@), final(self)@),
    {
        proof {
            reveal(in_head);
        }
        let mut anything_else = false;
        if self.is_white_text() {
            match self.insert_current() {
                Ok(_) => {},
                Err(e) => {
                    return Err(e);
                },
            }
        } else if self.is_comment() {
            match self.insert_current() {
                Ok(_) => {},
                Err(e) => {
                    return Err(e);
                },
            }
        } else if self.is_doctype() {
            self.parse_error("doctype not allowed in before head insertion mode");
        } else if self.start_tag_in(&HEAD_LINK_TAGS) {
            match self.insert_current() {
                Ok(_) => {},
                Err(e) => {
                    return Err(e);
                },
            }
            self.pop_current();
            self.ack_if_self_closing();
        } else if self.start_tag_is("meta") {
            match self.insert_current() {
                Ok(_) => {},
                Err(e) => {
                    return Err(e);
                },
            }
            self.pop_current();
            self.ack_if_self_closing();
        } else if self.start_tag_is("title") {
            // the generic RCDATA rules are not applied here
        } else if self.start_tag_is("noscript") && self.scripting_enabled {
            // the generic raw text rules are not applied here
        } else if self.start_tag_in(&NOFRAMES_STYLE) {
            // the generic RCDATA rules are not applied here
        } else if self.start_tag_is("noscript") && !self.scripting_enabled {
            match self.insert_current_and_push() {
                Ok(_) => {},
                Err(e) => {
                    return Err(e);
                },
            }
            self.set_mode(InsertionMode::InHeadNoscript);
        } else if self.start_tag_is("script") {
            // the script rules are not applied here
        } else if self.end_tag_is("head") {
            self.pop_current();
            self.set_mode(InsertionMode::AfterHead);
        } else if self.end_tag_in(&BODY_HTML_BR) {
            anything_else = true;
        } else if self.start_tag_is("template") {
            match self.insert_current_and_push() {
                Ok(_) => {},
                Err(e) => {
                    return Err(e);
                },
            }
            self.add_marker();
            self.set_frameset_ok(false);
            self.set_mode(InsertionMode::InTemplate);
            self.push_template_mode(InsertionMode::InTemplate);
        } else if self.end_tag_is("template") {
            if !self.open_elements_has("template") {
                self.parse_error("could not find template tag in open element stack");
                return Ok(());
            }
            self.generate_all_implied_end_tags(None, true);
            if !self.current_is("template") {
                self.parse_error("template end tag not at top of stack");
            }
            self.pop_until("template");
            self.clear_active_formatting_elements_until_marker();
            self.pop_template_mode();
            match self.checked_reset() {
                Ok(_) => {},
                Err(e) => {
                    return Err(e);
                },
            }
        } else if self.start_tag_is("head") {
            self.parse_error("head tag not allowed in in head insertion mode");
        } else if self.is_end_tag() {
            self.parse_error("end tag not allowed in in head insertion mode");
        } else {
            anything_else = true;
        }
        if anything_else {
            self.pop_current();
            self.set_mode(InsertionMode::AfterHead);
            self.set_reprocess();
        }
        Ok(())
    }

    /// Adds the attributes of the current `html` start tag that the current
    /// node does not have yet.
    fn merge_html_attributes(&mut self)
        requires
            old(self).inv(),
            !(old(self).current_token@ is Eof),
        ensures
            final(self).step_ok(old(self)),
            final(self)@ == merge_html(old(self)@),
    {
        proof {
            reveal(merge_html);
        }
        let id = self.current_node_id();
        let merged = match (&self.current_node().data, &self.current_token) {
            (
                NodeData::Element { name, attributes },
                Token::StartTagToken { attributes: incoming, .. },
            ) => Some((string_from_str(name.as_str()), merge_attributes(attributes, incoming))),
            _ => None,
        };
        if let Some((name, attributes)) = merged {
            if let Some(node) = self.document.get_mut_node_by_id(id) {
                node.data = NodeData::Element { name, attributes };
            }
        }
    }

    /// The "in body" insertion mode.
    fn handle_in_body(&mut self) -> (r: Result<(), BuildError>)
        requires
            old(self).inv(),
            !(old(self).current_token@ is Eof),
        ensures
            final(self).step_ok(old(self)),
            outcome(r, in_body(old(self)@), final(self)@),
    {
        proof {
            reveal(in_body);
        }
        if self.is_null_text() {
            self.parse_error("null character not allowed in in body insertion mode");
        } else if self.is_text() {
            // reconstructing the active formatting elements is not written yet
            return Err(BuildError::NotImplemented);
        } else if self.is_comment() {
            match self.insert_current() {
                Ok(_) => {},
                Err(e) => {
                    return Err(e);
                },
            }
        } else if self.is_doctype() {
            self.parse_error("doctype not allowed in in body insertion mode");
        } else if self.start_tag_is("html") {
            self.parse_error("html tag not allowed in in body insertion mode");
            if self.open_elements_has("template") {
                return Ok(());
            }
            if self.open_elements.len() == 0 {
                return Ok(());
            }
            self.merge_html_attributes();
        } else if self.start_tag_in(&HEAD_ELEMENTS_IN_BODY) {
            match self.handle_in_head() {
                Ok(_) => {},
                Err(e) => {
                    return Err(e);
                },
            }
        } else if self.end_tag_is("template") {
            match self.handle_in_head() {
                Ok(_) => {},
                Err(e) => {
                    return Err(e);
                },
            }
        } else if self.start_tag_is("body") {
            self.parse_error("body tag not allowed in in body insertion mode");
            let second_is_body = if self.open_elements.len() > 1 {
                str_eq(self.open_element_name(1), "body")
            } else {
                false
            };
            if self.open_elements.len() == 1 || !second_is_body {
                return Ok(());
            }
            if !self.frameset_ok {
                return Ok(());
            }
            self.remove_second_open();
            self.set_mode(InsertionMode::InFrameset);
        }
        Ok(())
    }

    /// The "in table" insertion mode.
    #[verifier::spinoff_prover]
    #[verifier::rlimit(100)]
    fn handle_in_table(&mut self) -> (r: Result<(), BuildError>)
        requires
            old(self).inv(),
            !(old(self).current_token@ is Eof),
        ensures
            final(self).step_ok(old(self)),
            outcome(r, in_table(old(self)@), final(self)@),
    {
        proof {
            reveal(in_table);
        }
        let table_text = self.is_text() && (self.current_is("table") || self.current_is("tbody")
            || self.current_is("template") || self.current_is("tfoot") || self.current_is("tr"));
        if table_text {
            self.enter_table_text();
            self.set_reprocess();
        } else if self.is_comment() {
            match self.insert_current_and_push() {
                Ok(_) => {},
                Err(e) => {
                    return Err(e);
                },
            }
        } else if self.is_doctype() {
            self.parse_error("doctype not allowed in in table insertion mode");
        } else if self.start_tag_is("caption") {
            self.clear_stack_back_to_table_context();
            self.add_marker();
            match self.insert_current_and_push() {
                Ok(_) => {},
                Err(e) => {
                    return Err(e);
                },
            }
            self.set_mode(InsertionMode::InCaption);
        } else if self.start_tag_is("colgroup") {
            self.clear_stack_back_to_table_context();
            match self.insert_current_and_push() {
                Ok(_) => {},
                Err(e) => {
                    return Err(e);
                },
            }
            self.set_mode(InsertionMode::InColumnGroup);
        } else if self.start_tag_is("col") {
            self.clear_stack_back_to_table_context();
            match self.insert_element_named_and_push("colgroup") {
                Ok(_) => {},
                Err(e) => {
                    return Err(e);
                },
            }
            self.set_mode(InsertionMode::InColumnGroup);
            self.set_reprocess();
        } else if self.start_tag_in(&SECTION_TAGS) {
            self.clear_stack_back_to_table_context();
            match self.insert_current_and_push() {
                Ok(_) => {},
                Err(e) => {
                    return Err(e);
                },
            }
            self.set_mode(InsertionMode::InTableBody);
        } else if self.start_tag_in(&CELL_AND_ROW_TAGS) {
            self.clear_stack_back_to_table_context();
            match self.insert_element_named_and_push("tbody") {
                Ok(_) => {},
                Err(e) => {
                    return Err(e);
                },
            }
            self.set_mode(InsertionMode::InTableBody);
            self.set_reprocess();
        } else {
            match self.handle_in_table_tail() {
                Ok(_) => {},
                Err(e) => {
                    return Err(e);
                },
            }
        }
        Ok(())
    }

    /// The "in table" rules from the `table` start tag on.
    #[verifier::spinoff_prover]
    #[verifier::rlimit(100)]
    fn handle_in_table_tail(&mut self) -> (r: Result<(), BuildError>)
        requires
            old(self).inv(),
            !(old(self).current_token@ is Eof),
        ensures
            final(self).step_ok(old(self)),
            outcome(r, in_table_tail(old(self)@), final(self)@),
    {
        proof {
            reveal(in_table_tail);
        }
        let mut anything_else = false;
        if self.start_tag_is("table") {
            self.parse_error("table tag not allowed in in table insertion mode");
            if !self.open_elements_has("table") {
                return Ok(());
            }
            self.pop_until("table");
            match self.checked_reset() {
                Ok(_) => {},
                Err(e) => {
                    return Err(e);
                },
            }
            self.set_reprocess();
        } else if self.end_tag_is("table") {
            if !self.open_elements_has("table") {
                self.parse_error("table end tag not allowed in in table insertion mode");
                return Ok(());
            }
            self.pop_until("table");
            match self.checked_reset() {
                Ok(_) => {},
                Err(e) => {
                    return Err(e);
                },
            }
        } else if self.end_tag_in(&TABLE_IGNORED_END_TAGS) {
            self.parse_error("end tag not allowed in in table insertion mode");
            return Ok(());
        } else if self.start_tag_in(&STYLE_SCRIPT_TEMPLATE) {
            match self.handle_in_head() {
                Ok(_) => {},
                Err(e) => {
                    return Err(e);
                },
            }
        } else if self.end_tag_is("template") {
            match self.handle_in_head() {
                Ok(_) => {},
                Err(e) => {
                    return Err(e);
                },
            }
        } else if self.start_tag_is("input") {
            // the attribute test asks for one attribute named both "type" and
            // "hidden", which no attribute is
            let hidden = self.attribute_named_both("type", "hidden");
            if !hidden {
                anything_else = true;
            } else {
                self.parse_error("input tag not allowed in in table insertion mode");
                match self.insert_current() {
                    Ok(_) => {},
                    Err(e) => {
                        return Err(e);
                    },
                }
                match self.pop_expecting("input") {
                    Ok(_) => {},
                    Err(e) => {
                        return Err(e);
                    },
                }
                self.ack_if_self_closing();
            }
        } else if self.start_tag_is("form") {
            self.parse_error("form tag not allowed in in table insertion mode");
            if !self.attribute_named_both("template", "template") || self.form_element.is_none() {
                return Ok(());
            }
            let id = match self.insert_current() {
                Ok(x) => x,
                Err(e) => {
                    return Err(e);
                },
            };
            self.set_form(id);
            match self.pop_expecting("form") {
                Ok(_) => {},
                Err(e) => {
                    return Err(e);
                },
            }
        } else if self.is_eof_token() {
            match self.handle_in_body() {
                Ok(_) => {},
                Err(e) => {
                    return Err(e);
                },
            }
        } else {
            anything_else = true;
        }
        if anything_else {
            self.parse_error("anything else not allowed in in table insertion mode");
            self.set_foster(true);
            match self.handle_in_body() {
                Ok(_) => {},
                Err(e) => {
                    return Err(e);
                },
            }
            self.set_foster(false);
        }
        Ok(())
    }

    /// Whether the current start tag has an attribute whose name is both
    /// `a` and `b`.
    fn attribute_named_both(&self, a: &str, b: &str) -> (r: bool)
        ensures
            r == attr_both(self@, a@, b@),
    {
        match &self.current_token {
            Token::StartTagToken { attributes, .. } => {
                let both = str_eq(a, b);
                let has = has_attribute(attributes, a);
                proof {
                    let v = attributes@.map_values(|x: Attribute| x@);
                    assert(self@.token matches SpecToken::StartTag { attributes: at, .. } && at == v);
                    if has {
                        let i = choose|i: int| 0 <= i < attributes@.len() && #[trigger] attributes@[i].name@
                            == a@;
                        assert(v[i] == attributes@[i]@);
                        assert(v[i].0 == a@);
                    } else {
                        assert forall|i: int| 0 <= i < v.len() implies #[trigger] v[i].0 != a@ by {
                            assert(v[i] == attributes@[i]@);
                        }
                    }
                }
                both && has
            },
            _ => false,
        }
    }


    /// Whether the current doctype is one that the "initial" rules report:
    /// a name other than `html`, a public identifier, or a system identifier
    /// other than `about:legacy-compat`.
    fn doctype_not_allowed(&self) -> (r: bool)
        ensures
            r == doctype_reported(self@),
    {
        match &self.current_token {
            Token::DocTypeToken { name, pub_identifier, sys_identifier, .. } => {
                let bad_name = match name {
                    Some(n) => !str_eq(n.as_str(), "html"),
                    None => false,
                };
                let bad_sys = match sys_identifier {
                    Some(s) => !str_eq(s.as_str(), "about:legacy-compat"),
                    None => false,
                };
                bad_name || pub_identifier.is_some() || bad_sys
            },
            _ => false,
        }
    }

    /// The "initial" insertion mode.
    #[verifier::spinoff_prover]
    #[verifier::rlimit(100)]
    fn mode_initial(&mut self) -> (r: Result<(), BuildError>)
        requires
            old(self).inv(),
            !(old(self).current_token@ is Eof),
        ensures
            final(self).step_ok(old(self)),
            outcome(r, initial(old(self)@), final(self)@),
    {
        proof {
            reveal(initial);
        }
        if self.is_white_text() {
            // ignore token
        } else if self.is_comment() {
            match self.insert_current() {
                Ok(_) => {},
                Err(e) => {
                    return Err(e);
                },
            }
        } else if self.is_doctype() {
            if self.doctype_not_allowed() {
                self.parse_error("doctype not allowed in initial insertion mode");
            }
            match self.insert_current() {
                Ok(_) => {},
                Err(e) => {
                    return Err(e);
                },
            }
            if self.document.doctype != DocumentType::IframeSrcDoc && self.parser_cannot_change_mode {
                // the rules that pick a quirks mode from the doctype are not written yet
                return Err(BuildError::NotImplemented);
            }
            self.set_mode(InsertionMode::BeforeHtml);
        } else {
            if self.document.doctype != DocumentType::IframeSrcDoc {
                self.parse_error("not an iframe doc src");
            }
            if self.parser_cannot_change_mode {
                self.set_quirks();
            }
            self.set_mode(InsertionMode::BeforeHtml);
            self.set_reprocess();
        }
        Ok(())
    }

    /// The "before html" insertion mode.
    fn mode_before_html(&mut self) -> (r: Result<(), BuildError>)
        requires
            old(self).inv(),
            !(old(self).current_token@ is Eof),
        ensures
            final(self).step_ok(old(self)),
            outcome(r, before_html(old(self)@), final(self)@),
    {
        proof {
            reveal(before_html);
        }
        let mut anything_else = false;
        if self.is_doctype() {
            self.parse_error("doctype not allowed in before html insertion mode");
        } else if self.is_comment() {
            match self.insert_current() {
                Ok(_) => {},
                Err(e) => {
                    return Err(e);
                },
            }
        } else if self.is_white_text() {
            // ignore token
        } else if self.start_tag_is("html") {
            match self.insert_current_and_push() {
                Ok(_) => {},
                Err(e) => {
                    return Err(e);
                },
            }
            self.set_mode(InsertionMode::BeforeHead);
        } else if self.end_tag_in(&HEAD_BODY_HTML_BR) {
            anything_else = true;
        } else if self.is_end_tag() {
            self.parse_error("end tag not allowed in before html insertion mode");
        } else {
            anything_else = true;
        }
        if anything_else {
            match self.insert_element_named_and_push("html") {
                Ok(_) => {},
                Err(e) => {
                    return Err(e);
                },
            }
            self.set_mode(InsertionMode::BeforeHead);
            self.set_reprocess();
        }
        Ok(())
    }

    /// The "before head" insertion mode.
    fn mode_before_head(&mut self) -> (r: Result<(), BuildError>)
        requires
            old(self).inv(),
            !(old(self).current_token@ is Eof),
        ensures
            final(self).step_ok(old(self)),
            outcome(r, before_head(old(self)@), final(self)@),
    {
        proof {
            reveal(before_head);
        }
        let mut anything_else = false;
        if self.is_white_text() {
            // ignore token
        } else if self.is_comment() {
            match self.insert_current() {
                Ok(_) => {},
                Err(e) => {
                    return Err(e);
                },
            }
        } else if self.is_doctype() {
            self.parse_error("doctype not allowed in before head insertion mode");
        } else if self.start_tag_is("html") {
            match self.handle_in_body() {
                Ok(_) => {},
                Err(e) => {
                    return Err(e);
                },
            }
        } else if self.start_tag_is("head") {
            let id = match self.insert_current() {
                Ok(x) => x,
                Err(e) => {
                    return Err(e);
                },
            };
            self.set_head(id);
            self.set_mode(InsertionMode::InHead);
        } else if self.end_tag_in(&HEAD_BODY_HTML_BR) {
            anything_else = true;
        } else if self.is_end_tag() {
            self.parse_error("end tag not allowed in before head insertion mode");
        } else {
            anything_else = true;
        }
        if anything_else {
            let id = match self.insert_element_named("head") {
                Ok(x) => x,
                Err(e) => {
                    return Err(e);
                },
            };
            self.set_head(id);
            self.set_mode(InsertionMode::InHead);
            self.set_reprocess();
        }
        Ok(())
    }

    /// The "in head noscript" insertion mode.
    #[verifier::spinoff_prover]
    #[verifier::rlimit(100)]
    fn mode_in_head_noscript(&mut self) -> (r: Result<(), BuildError>)
        requires
            old(self).inv(),
            !(old(self).current_token@ is Eof),
        ensures
            final(self).step_ok(old(self)),
            outcome(r, in_head_noscript(old(self)@), final(self)@),
    {
        proof {
            reveal(in_head_noscript);
        }
        let mut anything_else = false;
        if self.is_doctype() {
            self.parse_error("doctype not allowed in 'head no script' insertion mode");
        } else if self.start_tag_is("html") {
            match self.handle_in_body() {
                Ok(_) => {},
                Err(e) => {
                    return Err(e);
                },
            }
        } else if self.end_tag_is("noscript") {
            match self.pop_expecting("noscript") {
                Ok(_) => {},
                Err(e) => {
                    return Err(e);
                },
            }
            match self.expect_last_element("head") {
                Ok(_) => {},
                Err(e) => {
                    return Err(e);
                },
            }
            self.set_mode(InsertionMode::InHead);
        } else if self.is_white_text() {
            match self.handle_in_head() {
                Ok(_) => {},
                Err(e) => {
                    return Err(e);
                },
            }
        } else if self.is_comment() {
            match self.handle_in_head() {
                Ok(_) => {},
                Err(e) => {
                    return Err(e);
                },
            }
        } else if self.start_tag_in(&NOSCRIPT_HEAD_TAGS) {
            match self.handle_in_head() {
                Ok(_) => {},
                Err(e) => {
                    return Err(e);
                },
            }
        } else if self.end_tag_is("br") {
            anything_else = true;
        } else if self.start_tag_in(&HEAD_NOSCRIPT) {
            self.parse_error("head or noscript tag not allowed in after head insertion mode");
        } else if self.is_end_tag() {
            self.parse_error("end tag not allowed in after head insertion mode");
        } else {
            anything_else = true;
        }
        if anything_else {
            self.parse_error("anything else not allowed in after head insertion mode");
            match self.pop_expecting("noscript") {
                Ok(_) => {},
                Err(e) => {
                    return Err(e);
                },
            }
            match self.expect_last_element("head") {
                Ok(_) => {},
                Err(e) => {
                    return Err(e);
                },
            }
            self.set_mode(InsertionMode::InHead);
            self.set_reprocess();
        }
        Ok(())
    }

    /// The "after head" insertion mode.
    #[verifier::spinoff_prover]
    #[verifier::rlimit(100)]
    fn mode_after_head(&mut self) -> (r: Result<(), BuildError>)
        requires
            old(self).inv(),
            !(old(self).current_token@ is Eof),
        ensures
            final(self).step_ok(old(self)),
            outcome(r, after_head(old(self)@), final(self)@),
    {
        proof {
            reveal(after_head);
        }
        let mut anything_else = false;
        if self.is_white_text() {
            match self.insert_current_and_push() {
                Ok(_) => {},
                Err(e) => {
                    return Err(e);
                },
            }
        } else if self.is_comment() {
            match self.insert_current_and_push() {
                Ok(_) => {},
                Err(e) => {
                    return Err(e);
                },
            }
        } else if self.is_doctype() {
            self.parse_error("doctype not allowed in after head insertion mode");
        } else if self.start_tag_is("html") {
            match self.handle_in_body() {
                Ok(_) => {},
                Err(e) => {
                    return Err(e);
                },
            }
        } else if self.start_tag_is("body") {
            match self.insert_current_and_push() {
                Ok(_) => {},
                Err(e) => {
                    return Err(e);
                },
            }
            self.set_frameset_ok(true);
            self.set_mode(InsertionMode::InBody);
        } else if self.start_tag_is("frameset") {
            match self.insert_current_and_push() {
                Ok(_) => {},
                Err(e) => {
                    return Err(e);
                },
            }
            self.set_mode(InsertionMode::InFrameset);
        } else if self.start_tag_in(&HEAD_ELEMENTS) {
            self.parse_error("invalid start tag in after head insertion mode");
            self.push_head_element();
            match self.handle_in_head() {
                Ok(_) => {},
                Err(e) => {
                    return Err(e);
                },
            }
        } else if self.end_tag_is("template") {
            match self.handle_in_head() {
                Ok(_) => {},
                Err(e) => {
                    return Err(e);
                },
            }
        } else if self.end_tag_in(&BODY_HTML_BR) {
            anything_else = true;
        } else if self.start_tag_is("head") {
            self.parse_error("head tag not allowed in after head insertion mode");
        } else if self.is_end_tag() {
            self.parse_error("end tag not allowed in after head insertion mode");
        } else {
            anything_else = true;
        }
        if anything_else {
            match self.insert_element_named("body") {
                Ok(_) => {},
                Err(e) => {
                    return Err(e);
                },
            }
            self.set_mode(InsertionMode::InBody);
            self.set_reprocess();
        }
        Ok(())
    }

    /// The "text" insertion mode.
    fn mode_text(&mut self) -> (r: Result<(), BuildError>)
        requires
            old(self).inv(),
            !(old(self).current_token@ is Eof),
        ensures
            final(self).step_ok(old(self)),
            outcome(r, text_mode(old(self)@), final(self)@),
    {
        proof {
            reveal(text_mode);
        }
        if self.is_text() {
            match self.insert_current_and_push() {
                Ok(_) => {},
                Err(e) => {
                    return Err(e);
                },
            }
        } else if self.end_tag_is("script") {
            // the script rules are not applied here
        } else {
            self.pop_current();
            self.restore_original_mode();
        }
        Ok(())
    }

    /// The "in table text" insertion mode.
    fn mode_in_table_text(&mut self) -> (r: Result<(), BuildError>)
        requires
            old(self).inv(),
            !(old(self).current_token@ is Eof),
        ensures
            final(self).step_ok(old(self)),
            outcome(r, in_table_text(old(self)@), final(self)@),
    {
        proof {
            reveal(in_table_text);
        }
        let value = match &self.current_token {
            Token::TextToken { value } => Some(chars_of(value.as_str())),
            _ => None,
        };
        match value {
            Some(cs) => {
                let ghost v0 = old(self)@;
                let mut i: usize = 0;
                while i < cs.len()
                    invariant
                        self.step_ok(old(self)),
                        i <= cs@.len(),
                        v0 == old(self)@,
                        v0.token == (SpecToken::Text { value: cs@ }),
                        self@ == table_chars(v0, cs@.take(i as int)),
                    decreases cs@.len() - i,
                {
                    let c = cs[i];
                    proof {
                        assert(cs@.take(i as int + 1).drop_last() =~= cs@.take(i as int));
                    }
                    if c == CHAR_NUL {
                        self.parse_error("null character not allowed in in table insertion mode");
                    } else {
                        self.push_pending(c);
                    }
                    i = i + 1;
                }
                proof {
                    assert(cs@.take(cs@.len() as int) =~= cs@);
                }
                Ok(())
            },
            None => {
                // flushing the pending table characters is not written yet
                Err(BuildError::NotImplemented)
            },
        }
    }

    /// The "in caption" insertion mode.
    fn mode_in_caption(&mut self) -> (r: Result<(), BuildError>)
        requires
            old(self).inv(),
            !(old(self).current_token@ is Eof),
        ensures
            final(self).step_ok(old(self)),
            outcome(r, in_caption(old(self)@), final(self)@),
    {
        proof {
            reveal(in_caption);
        }
        if self.end_tag_is("caption") {
        } else if self.start_tag_in(&TABLE_PARTS) {
            self.set_reprocess();
        } else if self.end_tag_is("table") {
            self.set_reprocess();
        } else {
            // the "in body" rules are not applied here
            return Ok(());
        }
        if !self.open_elements_has("caption") {
            self.parse_error("caption end tag not allowed in in caption insertion mode");
            return Ok(());
        }
        self.generate_all_implied_end_tags(None, false);
        if !self.current_is("caption") {
            self.parse_error("caption end tag not at top of stack");
            return Ok(());
        }
        self.pop_until("caption");
        self.clear_active_formatting_elements_until_marker();
        self.set_mode(InsertionMode::InTable);
        Ok(())
    }

    /// The "in column group" insertion mode.
    #[verifier::spinoff_prover]
    #[verifier::rlimit(100)]
    fn mode_in_column_group(&mut self) -> (r: Result<(), BuildError>)
        requires
            old(self).inv(),
            !(old(self).current_token@ is Eof),
        ensures
            final(self).step_ok(old(self)),
            outcome(r, in_column_group(old(self)@), final(self)@),
    {
        proof {
            reveal(in_column_group);
        }
        let mut anything_else = false;
        if self.is_white_text() {
            match self.insert_current_and_push() {
                Ok(_) => {},
                Err(e) => {
                    return Err(e);
                },
            }
        } else if self.is_comment() {
            match self.insert_current_and_push() {
                Ok(_) => {},
                Err(e) => {
                    return Err(e);
                },
            }
        } else if self.is_doctype() {
            self.parse_error("doctype not allowed in column group insertion mode");
        } else if self.start_tag_is("html") {
            match self.handle_in_body() {
                Ok(_) => {},
                Err(e) => {
                    return Err(e);
                },
            }
        } else if self.start_tag_is("col") {
            match self.insert_current() {
                Ok(_) => {},
                Err(e) => {
                    return Err(e);
                },
            }
            self.pop_current();
            self.ack_if_self_closing();
        } else if self.start_tag_is("frameset") {
            match self.insert_current_and_push() {
                Ok(_) => {},
                Err(e) => {
                    return Err(e);
                },
            }
            self.set_mode(InsertionMode::InFrameset);
        } else if self.start_tag_in(&HEAD_ELEMENTS) {
            self.parse_error("invalid start tag in after head insertion mode");
            self.push_head_element();
            match self.handle_in_head() {
                Ok(_) => {},
                Err(e) => {
                    return Err(e);
                },
            }
        } else if self.end_tag_is("template") {
            match self.handle_in_head() {
                Ok(_) => {},
                Err(e) => {
                    return Err(e);
                },
            }
        } else if self.end_tag_in(&BODY_HTML_BR) {
            anything_else = true;
        } else if self.start_tag_is("head") {
            self.parse_error("head tag not allowed in after head insertion mode");
        } else if self.is_end_tag() {
            self.parse_error("end tag not allowed in after head insertion mode");
        } else {
            anything_else = true;
        }
        if anything_else {
            match self.insert_element_named("body") {
                Ok(_) => {},
                Err(e) => {
                    return Err(e);
                },
            }
            self.set_mode(InsertionMode::InBody);
            self.set_reprocess();
        }
        Ok(())
    }

    /// Whether none of tbody, tfoot and thead is in table scope.
    fn no_table_section_in_scope(&self) -> (r: Result<bool, BuildError>)
        requires
            self.inv(),
        ensures
            r == no_section_in_scope(self@),
    {
        let found = match self.checked_scope("tbody", Scope::Table) {
            Ok(b) => b,
            Err(e) => {
                return Err(e);
            },
        };
        if found {
            return Ok(false);
        }
        let found = match self.checked_scope("tfoot", Scope::Table) {
            Ok(b) => b,
            Err(e) => {
                return Err(e);
            },
        };
        if found {
            return Ok(false);
        }
        let found = match self.checked_scope("thead", Scope::Table) {
            Ok(b) => b,
            Err(e) => {
                return Err(e);
            },
        };
        if found {
            return Ok(false);
        }
        Ok(true)
    }

    /// The "in table body" insertion mode.
    #[verifier::spinoff_prover]
    #[verifier::rlimit(100)]
    fn mode_in_table_body(&mut self) -> (r: Result<(), BuildError>)
        requires
            old(self).inv(),
            !(old(self).current_token@ is Eof),
        ensures
            final(self).step_ok(old(self)),
            outcome(r, in_table_body(old(self)@), final(self)@),
    {
        proof {
            reveal(in_table_body);
        }
        if self.start_tag_is("tr") {
            self.clear_stack_back_to_table_body_context();
            match self.insert_current() {
                Ok(_) => {},
                Err(e) => {
                    return Err(e);
                },
            }
            self.set_mode(InsertionMode::InRow);
        } else if self.start_tag_in(&CELL_TAGS) {
            self.parse_error("th or td tag not allowed in in table body insertion mode");
            self.clear_stack_back_to_table_body_context();
            match self.insert_element_named("tr") {
                Ok(_) => {},
                Err(e) => {
                    return Err(e);
                },
            }
            self.set_mode(InsertionMode::InRow);
            self.set_reprocess();
        } else if self.start_tag_in(&SECTION_TAGS) {
            let name = self.tag_name();
            let found = match self.checked_scope(name.as_str(), Scope::Table) {
                Ok(b) => b,
                Err(e) => {
                    return Err(e);
                },
            };
            if !found {
                self.parse_error(
                    "tbody, tfoot or thead tag not allowed in in table body insertion mode",
                );
                return Ok(());
            }
            self.clear_stack_back_to_table_body_context();
            self.pop_current();
            self.set_mode(InsertionMode::InTable);
        } else if self.start_tag_in(&TABLE_BODY_ENDING_TAGS)
            || self.end_tag_is("table") {
            let found = match self.no_table_section_in_scope() {
                Ok(b) => b,
                Err(e) => {
                    return Err(e);
                },
            };
            if found {
                self.parse_error(
                    "caption, col, colgroup, tbody, tfoot or thead tag not allowed in in table body insertion mode",
                );
                return Ok(());
            }
            self.clear_stack_back_to_table_body_context();
            self.pop_current();
            self.set_mode(InsertionMode::InTable);
        } else if self.end_tag_in(&TABLE_BODY_IGNORED_END_TAGS) {
            self.parse_error("end tag not allowed in in table body insertion mode");
        } else {
            match self.handle_in_table() {
                Ok(_) => {},
                Err(e) => {
                    return Err(e);
                },
            }
        }
        Ok(())
    }

    /// The "in row" insertion mode.
    #[verifier::spinoff_prover]
    #[verifier::rlimit(100)]
    fn mode_in_row(&mut self) -> (r: Result<(), BuildError>)
        requires
            old(self).inv(),
            !(old(self).current_token@ is Eof),
        ensures
            final(self).step_ok(old(self)),
            outcome(r, in_row(old(self)@), final(self)@),
    {
        proof {
            reveal(in_row);
        }
        if self.start_tag_in(&CELL_TAGS) {
            self.parse_error("th or td tag not allowed in in table body insertion mode");
            self.clear_stack_back_to_table_row_context();
            match self.insert_current() {
                Ok(_) => {},
                Err(e) => {
                    return Err(e);
                },
            }
            self.set_mode(InsertionMode::InCell);
            self.add_marker();
        } else if self.end_tag_is("tr") {
            let found = match self.checked_scope("tr", Scope::Table) {
                Ok(b) => b,
                Err(e) => {
                    return Err(e);
                },
            };
            if !found {
                self.parse_error("tr tag not allowed in in row insertion mode");
                return Ok(());
            }
            self.clear_stack_back_to_table_row_context();
            match self.pop_expecting("tr") {
                Ok(_) => {},
                Err(e) => {
                    return Err(e);
                },
            }
            self.set_mode(InsertionMode::InTableBody);
        } else if self.start_tag_in(&ROW_ENDING_TAGS) {
            let found = match self.checked_scope("tr", Scope::Table) {
                Ok(b) => b,
                Err(e) => {
                    return Err(e);
                },
            };
            if !found {
                self.parse_error(
                    "caption, col, colgroup, tbody, tfoot or thead tag not allowed in in row insertion mode",
                );
                return Ok(());
            }
            self.clear_stack_back_to_table_row_context();
            match self.pop_expecting("tr") {
                Ok(_) => {},
                Err(e) => {
                    return Err(e);
                },
            }
            self.set_mode(InsertionMode::InTableBody);
            self.set_reprocess();
        } else if self.end_tag_in(&SECTION_TAGS) {
            let name = self.tag_name();
            let found = match self.checked_scope(name.as_str(), Scope::Table) {
                Ok(b) => b,
                Err(e) => {
                    return Err(e);
                },
            };
            if !found {
                self.parse_error(
                    "tbody, tfoot or thead tag not allowed in in table body insertion mode",
                );
                return Ok(());
            }
            let found = match self.checked_scope("tr", Scope::Table) {
                Ok(b) => b,
                Err(e) => {
                    return Err(e);
                },
            };
            if !found {
                return Ok(());
            }
            self.clear_stack_back_to_table_row_context();
            match self.pop_expecting("tr") {
                Ok(_) => {},
                Err(e) => {
                    return Err(e);
                },
            }
            self.set_mode(InsertionMode::InTableBody);
        }
        Ok(())
    }

    /// The "in cell" insertion mode.
    #[verifier::spinoff_prover]
    #[verifier::rlimit(100)]
    fn mode_in_cell(&mut self) -> (r: Result<(), BuildError>)
        requires
            old(self).inv(),
            !(old(self).current_token@ is Eof),
        ensures
            final(self).step_ok(old(self)),
            outcome(r, in_cell(old(self)@), final(self)@),
    {
        proof {
            reveal(in_cell);
        }
        if self.start_tag_in(&CELL_TAGS) {
            self.parse_error("th or td tag not allowed in in table body insertion mode");
            self.generate_all_implied_end_tags(None, false);
            let name = self.tag_name();
            if !self.current_is(name.as_str()) {
                self.parse_error("current node should be th or td");
            }
            self.pop_until(name.as_str());
            self.clear_active_formatting_elements_until_marker();
            self.set_mode(InsertionMode::InRow);
        } else if self.start_tag_in(&TABLE_PARTS) {
            let td = match self.checked_scope("td", Scope::Table) {
                Ok(b) => b,
                Err(e) => {
                    return Err(e);
                },
            };
            let no_cell = if td {
                false
            } else {
                let th = match self.checked_scope("th", Scope::Table) {
                    Ok(b) => b,
                    Err(e) => {
                        return Err(e);
                    },
                };
                !th
            };
            if no_cell {
                self.parse_error(
                    "caption, col, colgroup, tbody, tfoot or thead tag not allowed in in cell insertion mode",
                );
                return Ok(());
            }
            self.close_cell();
            self.set_reprocess();
        } else if self.end_tag_in(&CELL_IGNORED_END_TAGS) {
            self.parse_error("end tag not allowed in in cell insertion mode");
        } else if self.end_tag_in(&SECTION_AND_ROW_TAGS) {
            let name = self.tag_name();
            let found = match self.checked_scope(name.as_str(), Scope::Table) {
                Ok(b) => b,
                Err(e) => {
                    return Err(e);
                },
            };
            if !found {
                self.parse_error(
                    "tbody, tfoot or thead tag not allowed in in table body insertion mode",
                );
                return Ok(());
            }
            self.close_cell();
            self.set_reprocess();
        } else {
            match self.handle_in_body() {
                Ok(_) => {},
                Err(e) => {
                    return Err(e);
                },
            }
        }
        Ok(())
    }

    /// Pops to the `select` element and resets the insertion mode.
    fn close_select(&mut self) -> (r: Result<(), BuildError>)
        requires
            old(self).inv(),
        ensures
            final(self).step_ok(old(self)),
            final(self).reprocess_token == old(self).reprocess_token,
            outcome(r, close_select_v(old(self)@), final(self)@),
    {
        proof {
            reveal(close_select_v);
            reveal(pop_until_v);
        }
        self.pop_until("select");
        self.checked_reset()
    }

    /// The "in select" insertion mode.
    #[verifier::spinoff_prover]
    #[verifier::rlimit(100)]
    fn mode_in_select(&mut self) -> (r: Result<(), BuildError>)
        requires
            old(self).inv(),
            !(old(self).current_token@ is Eof),
        ensures
            final(self).step_ok(old(self)),
            outcome(r, in_select(old(self)@), final(self)@),
    {
        proof {
            reveal(in_select);
        }
        if self.is_null_text() {
            self.parse_error("null character not allowed in in select insertion mode");
        } else if self.is_text() {
            match self.insert_current() {
                Ok(_) => {},
                Err(e) => {
                    return Err(e);
                },
            }
        } else if self.is_comment() {
            match self.insert_current() {
                Ok(_) => {},
                Err(e) => {
                    return Err(e);
                },
            }
        } else if self.is_doctype() {
            self.parse_error("doctype not allowed in in select insertion mode");
        } else if self.start_tag_is("html") {
            match self.handle_in_body() {
                Ok(_) => {},
                Err(e) => {
                    return Err(e);
                },
            }
        } else if self.start_tag_is("option") {
            if self.current_is("option") {
                self.pop_current();
            }
            match self.insert_current() {
                Ok(_) => {},
                Err(e) => {
                    return Err(e);
                },
            }
        } else if self.start_tag_is("optgroup") {
            if self.current_is("optgroup") || self.current_is("option") {
                self.pop_current();
            }
            match self.insert_current() {
                Ok(_) => {},
                Err(e) => {
                    return Err(e);
                },
            }
            self.pop_current();
            self.ack_if_self_closing();
        } else if self.end_tag_is("optgroup") {
            let len = self.open_elements.len();
            if self.current_is("option") && len > 1 && str_eq(
                self.open_element_name(len - 1),
                "optgroup",
            ) {
                self.pop_current();
            }
            if self.current_is("optgroup") {
                self.pop_current();
            } else {
                self.parse_error("optgroup end tag not allowed in in select insertion mode");
            }
        } else if self.end_tag_is("option") {
            if self.current_is("option") {
                self.pop_current();
            } else {
                self.parse_error("option end tag not allowed in in select insertion mode");
            }
        } else if self.end_tag_is("select") {
            let found = match self.checked_scope("select", Scope::Select) {
                Ok(b) => b,
                Err(e) => {
                    return Err(e);
                },
            };
            if !found {
                self.parse_error("select end tag not allowed in in select insertion mode");
                return Ok(());
            }
            match self.close_select() {
                Ok(_) => {},
                Err(e) => {
                    return Err(e);
                },
            }
        } else if self.start_tag_is("select") {
            self.parse_error("select tag not allowed in in select insertion mode");
            let found = match self.checked_scope("select", Scope::Select) {
                Ok(b) => b,
                Err(e) => {
                    return Err(e);
                },
            };
            if !found {
                return Ok(());
            }
            match self.close_select() {
                Ok(_) => {},
                Err(e) => {
                    return Err(e);
                },
            }
        } else if self.start_tag_in(&INPUT_KEYGEN_TEXTAREA) {
            self.parse_error("input, keygen or textarea tag not allowed in in select insertion mode");
            let found = match self.checked_scope("select", Scope::Select) {
                Ok(b) => b,
                Err(e) => {
                    return Err(e);
                },
            };
            if !found {
                return Ok(());
            }
            match self.close_select() {
                Ok(_) => {},
                Err(e) => {
                    return Err(e);
                },
            }
            self.set_reprocess();
        } else if self.start_tag_in(&SCRIPT_TEMPLATE) {
            match self.handle_in_head() {
                Ok(_) => {},
                Err(e) => {
                    return Err(e);
                },
            }
        } else if self.end_tag_is("template") {
            match self.handle_in_head() {
                Ok(_) => {},
                Err(e) => {
                    return Err(e);
                },
            }
        } else if self.is_eof_token() {
            match self.handle_in_body() {
                Ok(_) => {},
                Err(e) => {
                    return Err(e);
                },
            }
        } else {
            self.parse_error("anything else not allowed in in select insertion mode");
        }
        Ok(())
    }

    /// The "in select in table" insertion mode.
    fn mode_in_select_in_table(&mut self) -> (r: Result<(), BuildError>)
        requires
            old(self).inv(),
            !(old(self).current_token@ is Eof),
        ensures
            final(self).step_ok(old(self)),
            outcome(r, in_select_in_table(old(self)@), final(self)@),
    {
        proof {
            reveal(in_select_in_table);
        }
        if self.start_tag_in(&SELECT_IN_TABLE_ENDS) {
            self.parse_error(
                "caption, table, tbody, tfoot, thead, tr, td or th tag not allowed in in select in table insertion mode",
            );
            match self.close_select() {
                Ok(_) => {},
                Err(e) => {
                    return Err(e);
                },
            }
            self.set_reprocess();
        } else if self.end_tag_in(&SELECT_IN_TABLE_ENDS) {
            self.parse_error(
                "caption, table, tbody, tfoot, thead, tr, td or th tag not allowed in in select in table insertion mode",
            );
            let found = match self.checked_scope("select", Scope::Select) {
                Ok(b) => b,
                Err(e) => {
                    return Err(e);
                },
            };
            if !found {
                return Ok(());
            }
            match self.close_select() {
                Ok(_) => {},
                Err(e) => {
                    return Err(e);
                },
            }
            self.set_reprocess();
        } else {
            // the "in select" rules for the other tokens are not written yet
            return Err(BuildError::NotImplemented);
        }
        Ok(())
    }

    /// Replaces the current template insertion mode and switches to it.
    fn switch_template_mode(&mut self, mode: InsertionMode)
        requires
            old(self).inv(),
        ensures
            final(self).step_ok(old(self)),
            final(self)@ == switch_template(old(self)@, mode),
    {
        self.pop_template_mode();
        self.push_template_mode(mode);
        self.set_mode(mode);
        self.set_reprocess();
    }

    /// The "in template" insertion mode.
    fn mode_in_template(&mut self) -> (r: Result<(), BuildError>)
        requires
            old(self).inv(),
            !(old(self).current_token@ is Eof),
        ensures
            final(self).step_ok(old(self)),
            outcome(r, in_template(old(self)@), final(self)@),
    {
        proof {
            reveal(in_template);
        }
        if self.is_text() || self.is_comment() || self.is_doctype() {
            match self.handle_in_body() {
                Ok(_) => {},
                Err(e) => {
                    return Err(e);
                },
            }
        } else if self.start_tag_in(&HEAD_ELEMENTS_IN_BODY) {
            match self.handle_in_head() {
                Ok(_) => {},
                Err(e) => {
                    return Err(e);
                },
            }
        } else if self.end_tag_is("template") {
            match self.handle_in_head() {
                Ok(_) => {},
                Err(e) => {
                    return Err(e);
                },
            }
        } else if self.start_tag_in(&TEMPLATE_TABLE_TAGS) {
            self.switch_template_mode(InsertionMode::InTable);
        } else if self.start_tag_is("col") {
            self.switch_template_mode(InsertionMode::InColumnGroup);
        } else if self.start_tag_is("tr") {
            self.switch_template_mode(InsertionMode::InTableBody);
        } else if self.start_tag_in(&CELL_TAGS) {
            self.switch_template_mode(InsertionMode::InRow);
        } else if self.is_start_tag() {
            self.switch_template_mode(InsertionMode::InBody);
        } else if self.is_end_tag() {
            self.parse_error("end tag not allowed in in template insertion mode");
        } else {
            if self.open_elements_has("template") {
                // stopping the parser is not written yet
                return Err(BuildError::NotImplemented);
            }
            self.parse_error("eof not allowed in in template insertion mode");
            self.pop_until("template");
            self.clear_active_formatting_elements_until_marker();
            self.pop_template_mode();
            match self.checked_reset() {
                Ok(_) => {},
                Err(e) => {
                    return Err(e);
                },
            }
            self.set_reprocess();
        }
        Ok(())
    }

    /// The "after body" insertion mode.
    fn mode_after_body(&mut self) -> (r: Result<(), BuildError>)
        requires
            old(self).inv(),
            !(old(self).current_token@ is Eof),
        ensures
            final(self).step_ok(old(self)),
            outcome(r, after_body(old(self)@), final(self)@),
    {
        proof {
            reveal(after_body);
        }
        if self.is_white_text() {
            match self.handle_in_body() {
                Ok(_) => {},
                Err(e) => {
                    return Err(e);
                },
            }
        } else if self.is_comment() {
            match self.insert_current() {
                Ok(_) => {},
                Err(e) => {
                    return Err(e);
                },
            }
        } else if self.is_doctype() {
            self.parse_error("doctype not allowed in after body insertion mode");
        } else if self.start_tag_is("html") {
            match self.handle_in_body() {
                Ok(_) => {},
                Err(e) => {
                    return Err(e);
                },
            }
        } else if self.end_tag_is("html") {
            self.set_mode(InsertionMode::AfterAfterBody);
        } else if self.is_eof_token() {
            // stopping the parser is not written yet
            return Err(BuildError::NotImplemented);
        } else {
            self.parse_error("anything else not allowed in after body insertion mode");
            self.set_mode(InsertionMode::InBody);
            self.set_reprocess();
        }
        Ok(())
    }

    /// The "in frameset" insertion mode.
    fn mode_in_frameset(&mut self) -> (r: Result<(), BuildError>)
        requires
            old(self).inv(),
            !(old(self).current_token@ is Eof),
        ensures
            final(self).step_ok(old(self)),
            outcome(r, in_frameset(old(self)@), final(self)@),
    {
        proof {
            reveal(in_frameset);
        }
        if self.is_white_text() {
            match self.insert_current() {
                Ok(_) => {},
                Err(e) => {
                    return Err(e);
                },
            }
        } else if self.is_comment() {
            match self.insert_current() {
                Ok(_) => {},
                Err(e) => {
                    return Err(e);
                },
            }
        } else if self.is_doctype() {
            self.parse_error("doctype not allowed in frameset insertion mode");
        } else if self.start_tag_is("html") {
            match self.handle_in_body() {
                Ok(_) => {},
                Err(e) => {
                    return Err(e);
                },
            }
        } else if self.start_tag_is("frameset") {
            if self.current_is("html") {
                self.parse_error("frameset tag not allowed in frameset insertion mode");
                return Ok(());
            }
            self.pop_current();
            if !self.is_fragment_case && !self.current_is("frameset") {
                self.set_mode(InsertionMode::AfterFrameset);
            }
        } else if self.start_tag_is("frame") {
            match self.insert_current() {
                Ok(_) => {},
                Err(e) => {
                    return Err(e);
                },
            }
            self.pop_current();
            self.ack_if_self_closing();
        } else if self.start_tag_is("noframes") {
            match self.handle_in_head() {
                Ok(_) => {},
                Err(e) => {
                    return Err(e);
                },
            }
        } else if self.is_eof_token() {
            if !self.current_is("html") {
                self.parse_error("eof not allowed in frameset insertion mode");
            }
            // stopping the parser is not written yet
            return Err(BuildError::NotImplemented);
        } else {
            self.parse_error("anything else not allowed in frameset insertion mode");
        }
        Ok(())
    }

    /// The "after frameset" insertion mode.
    fn mode_after_frameset(&mut self) -> (r: Result<(), BuildError>)
        requires
            old(self).inv(),
            !(old(self).current_token@ is Eof),
        ensures
            final(self).step_ok(old(self)),
            outcome(r, after_frameset(old(self)@), final(self)@),
    {
        proof {
            reveal(after_frameset);
        }
        if self.is_white_text() {
            match self.insert_current() {
                Ok(_) => {},
                Err(e) => {
                    return Err(e);
                },
            }
        } else if self.is_comment() {
            match self.insert_current() {
                Ok(_) => {},
                Err(e) => {
                    return Err(e);
                },
            }
        } else if self.is_doctype() {
            self.parse_error("doctype not allowed in frameset insertion mode");
        } else if self.start_tag_is("html") {
            match self.handle_in_body() {
                Ok(_) => {},
                Err(e) => {
                    return Err(e);
                },
            }
        } else if self.end_tag_is("html") {
            match self.handle_in_head() {
                Ok(_) => {},
                Err(e) => {
                    return Err(e);
                },
            }
        } else if self.is_eof_token() {
            // STOP parsing
        } else {
            self.parse_error("anything else not allowed in after frameset insertion mode");
        }
        Ok(())
    }

    /// The "after after body" insertion mode.
    fn mode_after_after_body(&mut self) -> (r: Result<(), BuildError>)
        requires
            old(self).inv(),
            !(old(self).current_token@ is Eof),
        ensures
            final(self).step_ok(old(self)),
            outcome(r, after_after_body(old(self)@), final(self)@),
    {
        proof {
            reveal(after_after_body);
        }
        if self.is_comment() {
            match self.insert_current() {
                Ok(_) => {},
                Err(e) => {
                    return Err(e);
                },
            }
        } else if self.is_doctype() {
            match self.handle_in_body() {
                Ok(_) => {},
                Err(e) => {
                    return Err(e);
                },
            }
        } else if self.is_white_text() {
            match self.handle_in_body() {
                Ok(_) => {},
                Err(e) => {
                    return Err(e);
                },
            }
        } else if self.start_tag_is("html") {
            match self.handle_in_body() {
                Ok(_) => {},
                Err(e) => {
                    return Err(e);
                },
            }
        } else if self.is_eof_token() {
            // STOP parsing
        } else {
            self.parse_error("anything else not allowed in after after body insertion mode");
            self.set_mode(InsertionMode::InBody);
            self.set_reprocess();
        }
        Ok(())
    }

    /// The "after after frameset" insertion mode.
    fn mode_after_after_frameset(&mut self) -> (r: Result<(), BuildError>)
        requires
            old(self).inv(),
            !(old(self).current_token@ is Eof),
        ensures
            final(self).step_ok(old(self)),
            outcome(r, after_after_frameset(old(self)@), final(self)@),
    {
        proof {
            reveal(after_after_frameset);
        }
        if self.is_comment() {
            match self.insert_current() {
                Ok(_) => {},
                Err(e) => {
                    return Err(e);
                },
            }
        } else if self.is_doctype() {
            match self.handle_in_body() {
                Ok(_) => {},
                Err(e) => {
                    return Err(e);
                },
            }
        } else if self.is_white_text() {
            match self.handle_in_body() {
                Ok(_) => {},
                Err(e) => {
                    return Err(e);
                },
            }
        } else if self.start_tag_is("html") {
            match self.handle_in_body() {
                Ok(_) => {},
                Err(e) => {
                    return Err(e);
                },
            }
        } else if self.is_eof_token() {
            // STOP parsing
        } else if self.start_tag_is("noframes") {
            match self.handle_in_head() {
                Ok(_) => {},
                Err(e) => {
                    return Err(e);
                },
            }
        } else {
            self.parse_error("anything else not allowed in after after frameset insertion mode");
        }
        Ok(())
    }

    /// Processes the current token in the current insertion mode.
    pub fn process_token(&mut self) -> (r: Result<(), BuildError>)
        requires
            old(self).inv(),
            !(old(self).current_token@ is Eof),
        ensures
            final(self).step_ok(old(self)),
            outcome(r, process(old(self)@), final(self)@),
    {
        proof {
            reveal(process);
        }
        match self.insertion_mode {
            InsertionMode::Initial => self.mode_initial(),
            InsertionMode::BeforeHtml => self.mode_before_html(),
            InsertionMode::BeforeHead => self.mode_before_head(),
            InsertionMode::InHead => self.handle_in_head(),
            InsertionMode::InHeadNoscript => self.mode_in_head_noscript(),
            InsertionMode::AfterHead => self.mode_after_head(),
            InsertionMode::InBody => self.handle_in_body(),
            InsertionMode::Text => self.mode_text(),
            InsertionMode::InTable => self.handle_in_table(),
            InsertionMode::InTableText => self.mode_in_table_text(),
            InsertionMode::InCaption => self.mode_in_caption(),
            InsertionMode::InColumnGroup => self.mode_in_column_group(),
            InsertionMode::InTableBody => self.mode_in_table_body(),
            InsertionMode::InRow => self.mode_in_row(),
            InsertionMode::InCell => self.mode_in_cell(),
            InsertionMode::InSelect => self.mode_in_select(),
            InsertionMode::InSelectInTable => self.mode_in_select_in_table(),
            InsertionMode::InTemplate => self.mode_in_template(),
            InsertionMode::AfterBody => self.mode_after_body(),
            InsertionMode::InFrameset => self.mode_in_frameset(),
            InsertionMode::AfterFrameset => self.mode_after_frameset(),
            InsertionMode::AfterAfterBody => self.mode_after_after_body(),
            InsertionMode::AfterAfterFrameset => self.mode_after_after_frameset(),
        }
    }

    /// The parse state: the tree builder's state and the tokenizer's.
    pub open spec fn state(&self) -> ParseState {
        ParseState { builder: self@, tokenizer: self.tokenizer@ }
    }

    /// One step of parsing: takes the next token from the tokenizer (unless
    /// the current one is to be processed again) and, unless it is the end of
    /// the input, processes it. Gives `Ok(false)` at the end of the input,
    /// `Ok(true)` after a token was processed.
    pub fn parse_step(&mut self) -> (r: Result<bool, BuildError>)
        requires
            old(self).inv(),
        ensures
            final(self).inv(),
            !old(self).reprocess_token ==> final(self).current_token@ == run(
                old(self).tokenizer@,
            ).queue[0],
            old(self).reprocess_token ==> final(self).current_token == old(self).current_token,
            r == Ok::<bool, BuildError>(false) <==> final(self).current_token@ is Eof,
            r == Ok::<bool, BuildError>(false) ==> final(self)@ == (BuildView {
                token: final(self)@.token,
                reprocess: false,
                pos: final(self)@.pos,
                ..old(self)@
            }),
            !(final(self).current_token@ is Eof) ==> ({
                let mid = BuildView {
                    token: final(self)@.token,
                    reprocess: false,
                    pos: final(self)@.pos,
                    ..old(self)@
                };
                match r {
                    Ok(b) => b && process(mid) == Ok::<BuildView, BuildError>(final(self)@),
                    Err(e) => process(mid) == Err::<BuildView, BuildError>(e),
                }
            }),
            !old(self).reprocess_token ==> final(self).tokenizer@ == (TokView {
                queue: run(old(self).tokenizer@).queue.drop_first(),
                ..run(old(self).tokenizer@)
            }),
            old(self).reprocess_token ==> final(self).tokenizer@ == old(self).tokenizer@,
            rooted_tree(old(self).document@) ==> rooted_tree(final(self).document@),
            match r {
                Ok(false) => parse_step_spec(old(self).state()) == StepOutcome::End(final(self).state()),
                Ok(true) => parse_step_spec(old(self).state()) == StepOutcome::Next(final(self).state()),
                Err(e) => parse_step_spec(old(self).state()) == StepOutcome::Fail(e),
            },
    {
        proof {
            reveal(tokenizer_ok);
        }
        if !self.reprocess_token {
            self.current_token = self.tokenizer.next_token();
        }
        self.reprocess_token = false;
        proof {
            reveal(tokenizer_ok);
            assert(self.state() == fetched(old(self).state()));
        }
        if self.current_token.is_eof() {
            return Ok(false);
        }
        let ghost mid = self@;
        assert(mid == BuildView {
            token: mid.token,
            reprocess: false,
            pos: mid.pos,
            ..old(self)@
        });
        match self.process_token() {
            Ok(_) => {},
            Err(e) => {
                return Err(e);
            },
        }
        Ok(true)
    }



    /// Parses the input: runs `parse_step` until the end of the input, until
    /// the tree builder stops with an error, or for `max_steps` steps,
    /// whichever comes first. Gives `Ok(true)` at the end of the input and
    /// `Ok(false)` when the steps ran out.
    pub fn parse(&mut self, max_steps: usize) -> (r: Result<bool, BuildError>)
        requires
            old(self).inv(),
        ensures
            final(self).inv(),
            r == Ok::<bool, BuildError>(true) ==> final(self).current_token@ is Eof,
            r is Ok ==> keeps(old(self)@, final(self)@),
            r is Ok ==> (doc_ok(old(self)@) ==> doc_ok(final(self)@)),
            rooted_tree(old(self).document@) ==> rooted_tree(final(self).document@),
            match r {
                Ok(ended) => parse_steps(old(self).state(), max_steps as nat) == Ok::<
                    (ParseState, bool),
                    BuildError,
                >((final(self).state(), ended)),
                Err(e) => parse_steps(old(self).state(), max_steps as nat) == Err::<
                    (ParseState, bool),
                    BuildError,
                >(e),
            },
    {
        let mut n: usize = 0;
        while n < max_steps
            invariant
                self.inv(),
                n <= max_steps,
                keeps(old(self)@, self@),
                doc_ok(old(self)@) ==> doc_ok(self@),
                rooted_tree(old(self).document@) ==> rooted_tree(self.document@),
                parse_steps(old(self).state(), n as nat) == Ok::<(ParseState, bool), BuildError>(
                    (self.state(), false),
                ),
            decreases max_steps - n,
        {
            let ghost before = self@;
            let ghost before_state = self.state();
            let step = self.parse_step();
            let ghost mid = BuildView {
                token: self@.token,
                reprocess: false,
                pos: self@.pos,
                ..before
            };
            match step {
                Ok(true) => {
                    proof {
                        lemma_step_keeps(mid);
                        lemma_step_keeps_tree(mid);
                        assert(keeps(old(self)@, self@));
                    }
                },
                Ok(false) => {
                    proof {
                        assert(parse_steps(old(self).state(), (n + 1) as nat) == Ok::<
                            (ParseState, bool),
                            BuildError,
                        >((self.state(), true)));
                        lemma_parse_steps_settled(old(self).state(), (n + 1) as nat, max_steps as nat);
                    }
                    return Ok(true);
                },
                Err(e) => {
                    proof {
                        assert(parse_steps(old(self).state(), (n + 1) as nat) == Err::<
                            (ParseState, bool),
                            BuildError,
                        >(e));
                        lemma_parse_steps_settled(old(self).state(), (n + 1) as nat, max_steps as nat);
                    }
                    return Err(e);
                },
            }
            n += 1;
        }
        Ok(false)
    }

}

} // verus!
