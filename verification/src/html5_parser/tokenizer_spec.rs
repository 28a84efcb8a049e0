//! The tokenizer as a mathematical state machine: the state it keeps, what
//! one step of each tokenizer state does to it, and what reading up to the
//! next token does. The executable tokenizer is proved to follow it.

use vstd::prelude::*;
use crate::html5_parser::input_stream::{
    all_chars,
    clamp_offset, element_text, elements_text, position_at, Confidence, Element, Encoding, Position,
};
use crate::html5_parser::parse_errors::{error_code, ParserError};
use crate::html5_parser::text::{ascii_lower, is_ascii_alpha, is_ascii_upper, lower_ascii, lower_ascii_char, unicode_uppercase};
use crate::html5_parser::token::SpecToken;
use crate::html5_parser::token_states::State;

verus! {

/// A parse error: its code and where in the stream it was found.
pub struct SpecError {
    pub message: Seq<char>,
    pub line: i64,
    pub col: i64,
    pub offset: i64,
}

/// The state of a tokenizer.
pub struct TokView {
    /// The elements of the input stream
    pub elems: Seq<Element>,
    /// The read offset in the stream
    pub offset: int,
    /// Whether the stream just read an EOF
    pub eof_read: bool,
    /// The tokenizer state
    pub state: State,
    /// Characters consumed for the next text token
    pub consumed: Seq<char>,
    /// The attribute name being read
    pub attr_name: Seq<char>,
    /// The attribute value being read
    pub attr_value: Seq<char>,
    /// Whether the attribute being read is to be ignored
    pub ignore_attribute: bool,
    /// The token being built
    pub current: Option<SpecToken>,
    /// The temporary buffer
    pub temp: Seq<char>,
    /// Emitted tokens, oldest first
    pub queue: Seq<SpecToken>,
    /// Parse errors, oldest first
    pub errors: Seq<SpecError>,
    /// The name of the last emitted start tag
    pub last_start: Seq<char>,
    /// The encoding of the input stream
    pub encoding: Encoding,
    /// How certain the input stream is of its encoding
    pub confidence: Confidence,
    /// The bytes of the input stream
    pub bytes: Seq<u8>,
}

/// The states that the tokenizer can be in and step from: all but the
/// character reference in attribute value state, which has no behaviour.
pub open spec fn runnable_state(s: State) -> bool {
    s != State::CharacterReferenceInAttributeValueState
}

/// What every tokenizer state satisfies.
pub open spec fn view_ok(v: TokView) -> bool {
    &&& 0 <= v.offset <= v.elems.len()
    &&& (v.eof_read ==> v.offset == v.elems.len())
    &&& all_chars(v.elems)
    &&& runnable_state(v.state)
}

pub open spec fn is_ws(c: char) -> bool {
    c == '\t' || c == '\n' || c == '\x0C' || c == ' '
}

pub open spec fn elem_char(e: Element) -> char {
    match e {
        Element::Utf8(c) => c,
        _ => '\0',
    }
}

// ---------------------------------------------------------------------------
// Primitive steps
// ---------------------------------------------------------------------------
pub open spec fn goto(v: TokView, s: State) -> TokView {
    TokView { state: s, ..v }
}

/// Reads the next character: `None` at the end of the stream.
pub open spec fn read(v: TokView) -> (TokView, Option<char>) {
    if !v.eof_read && v.offset < v.elems.len() {
        (TokView { offset: v.offset + 1, ..v }, Some(elem_char(v.elems[v.offset])))
    } else {
        (TokView { eof_read: true, ..v }, None)
    }
}

/// Steps back over the last read character (or the EOF just read).
pub open spec fn unread(v: TokView) -> TokView {
    if v.eof_read {
        TokView { eof_read: false, ..v }
    } else if v.offset > 0 {
        TokView { offset: v.offset - 1, ..v }
    } else {
        v
    }
}

/// Moves the stream to the given offset.
pub open spec fn seek(v: TokView, off: int) -> TokView {
    TokView { offset: clamp_offset(off, v.elems.len() as int), eof_read: false, ..v }
}

/// The text of (at most) the next `n` elements.
pub open spec fn look_ahead_text(v: TokView, n: int) -> Seq<char> {
    elements_text(
        v.elems,
        v.offset,
        if n < v.elems.len() - v.offset {
            v.offset + n
        } else {
            v.elems.len() as int
        },
    )
}

pub open spec fn chars_left(v: TokView) -> int {
    v.elems.len() - v.offset
}

/// Adds a character to the pending text.
pub open spec fn consume(v: TokView, c: char) -> TokView {
    TokView { consumed: v.consumed.push(c), ..v }
}

/// The offset at which an error is reported: that of the character just
/// read, or the current one at the end of the stream.
pub open spec fn error_offset(v: TokView) -> int {
    if v.eof_read || v.offset >= v.elems.len() {
        clamp_offset(v.offset, v.elems.len() as int)
    } else {
        clamp_offset(v.offset - 1, v.elems.len() as int)
    }
}

pub open spec fn error_record(v: TokView, e: ParserError) -> SpecError {
    let p: Position = position_at(v.elems, error_offset(v));
    SpecError { message: error_code(e), line: p.line, col: p.col, offset: p.offset }
}

/// Records a parse error.
pub open spec fn report(v: TokView, e: ParserError) -> TokView {
    TokView { errors: v.errors.push(error_record(v, e)), ..v }
}

/// Emits a token: pending text goes out first as a text token, and the name
/// of a start tag is remembered.
pub open spec fn emit(v: TokView, t: SpecToken) -> TokView {
    let v1 = match t {
        SpecToken::StartTag { name, .. } => TokView { last_start: name, ..v },
        _ => v,
    };
    let v2 = if v1.consumed.len() > 0 {
        TokView {
            queue: v1.queue.push(SpecToken::Text { value: v1.consumed }),
            consumed: Seq::empty(),
            ..v1
        }
    } else {
        v1
    };
    TokView { queue: v2.queue.push(t), ..v2 }
}

/// Emits the token being built, if any, and forgets it.
pub open spec fn emit_current(v: TokView) -> TokView {
    match v.current {
        Some(t) => TokView { current: None, ..emit(v, t) },
        None => v,
    }
}

pub open spec fn set_current(v: TokView, t: SpecToken) -> TokView {
    TokView { current: Some(t), ..v }
}

pub open spec fn new_start_tag() -> SpecToken {
    SpecToken::StartTag { name: Seq::empty(), is_self_closing: false, attributes: Seq::empty() }
}

pub open spec fn new_end_tag() -> SpecToken {
    SpecToken::EndTag { name: Seq::empty() }
}

pub open spec fn new_comment(value: Seq<char>) -> SpecToken {
    SpecToken::Comment { value }
}

pub open spec fn new_doctype(force_quirks: bool) -> SpecToken {
    SpecToken::DocType { name: None, force_quirks, pub_identifier: None, sys_identifier: None }
}

/// Adds a character to the name of the token being built.
pub open spec fn add_name(v: TokView, c: char) -> TokView {
    match v.current {
        Some(SpecToken::StartTag { name, is_self_closing, attributes }) => set_current(
            v,
            SpecToken::StartTag { name: name.push(c), is_self_closing, attributes },
        ),
        Some(SpecToken::EndTag { name }) => set_current(v, SpecToken::EndTag { name: name.push(c) }),
        Some(SpecToken::DocType { name, force_quirks, pub_identifier, sys_identifier }) => set_current(
            v,
            SpecToken::DocType {
                name: Some(
                    match name {
                        Some(n) => n.push(c),
                        None => Seq::empty().push(c),
                    },
                ),
                force_quirks,
                pub_identifier,
                sys_identifier,
            },
        ),
        _ => v,
    }
}

/// Adds a character to the value of the comment being built.
pub open spec fn add_value(v: TokView, c: char) -> TokView {
    match v.current {
        Some(SpecToken::Comment { value }) => set_current(v, SpecToken::Comment { value: value.push(c) }),
        _ => v,
    }
}

/// Sets the public identifier of the doctype being built.
pub open spec fn set_public(v: TokView, s: Seq<char>) -> TokView {
    match v.current {
        Some(SpecToken::DocType { name, force_quirks, pub_identifier, sys_identifier }) => set_current(
            v,
            SpecToken::DocType { name, force_quirks, pub_identifier: Some(s), sys_identifier },
        ),
        _ => v,
    }
}

/// Adds a character to the public identifier of the doctype being built.
pub open spec fn add_public(v: TokView, c: char) -> TokView {
    match v.current {
        Some(SpecToken::DocType { name, force_quirks, pub_identifier: Some(p), sys_identifier }) =>
            set_current(
            v,
            SpecToken::DocType { name, force_quirks, pub_identifier: Some(p.push(c)), sys_identifier },
        ),
        _ => v,
    }
}

/// Sets the system identifier of the doctype being built.
pub open spec fn set_system(v: TokView, s: Seq<char>) -> TokView {
    match v.current {
        Some(SpecToken::DocType { name, force_quirks, pub_identifier, sys_identifier }) => set_current(
            v,
            SpecToken::DocType { name, force_quirks, pub_identifier, sys_identifier: Some(s) },
        ),
        _ => v,
    }
}

/// Adds a character to the system identifier of the doctype being built.
pub open spec fn add_system(v: TokView, c: char) -> TokView {
    match v.current {
        Some(SpecToken::DocType { name, force_quirks, pub_identifier, sys_identifier: Some(s) }) =>
            set_current(
            v,
            SpecToken::DocType { name, force_quirks, pub_identifier, sys_identifier: Some(s.push(c)) },
        ),
        _ => v,
    }
}

/// Sets the force-quirks flag of the doctype being built.
pub open spec fn set_quirks(v: TokView, q: bool) -> TokView {
    match v.current {
        Some(SpecToken::DocType { name, force_quirks, pub_identifier, sys_identifier }) => set_current(
            v,
            SpecToken::DocType { name, force_quirks: q, pub_identifier, sys_identifier },
        ),
        _ => v,
    }
}

/// Sets the self-closing flag of the start tag being built.
pub open spec fn set_self_closing(v: TokView, b: bool) -> TokView {
    match v.current {
        Some(SpecToken::StartTag { name, is_self_closing, attributes }) => set_current(
            v,
            SpecToken::StartTag { name, is_self_closing: b, attributes },
        ),
        _ => v,
    }
}

/// Sets the name of the tag being built.
pub open spec fn set_name(v: TokView, n: Seq<char>) -> TokView {
    match v.current {
        Some(SpecToken::StartTag { name, is_self_closing, attributes }) => set_current(
            v,
            SpecToken::StartTag { name: n, is_self_closing, attributes },
        ),
        Some(SpecToken::EndTag { name }) => set_current(v, SpecToken::EndTag { name: n }),
        _ => v,
    }
}

/// Whether the temporary buffer names the last start tag.
pub open spec fn appropriate_end(v: TokView) -> bool {
    v.last_start == v.temp
}

pub open spec fn lower_if_upper(c: char) -> char {
    if is_ascii_upper(c) {
        ascii_lower(c)
    } else {
        c
    }
}

pub open spec fn set_temp(v: TokView, t: Seq<char>) -> TokView {
    TokView { temp: t, ..v }
}

/// Whether the start tag being built already has an attribute named like
/// the attribute being read.
pub open spec fn attr_exists(v: TokView) -> bool {
    match v.current {
        Some(SpecToken::StartTag { attributes, .. }) => exists|i: int|
            0 <= i < attributes.len() && #[trigger] attributes[i].0 == v.attr_name,
        _ => false,
    }
}

/// The start tag being built with the attribute being read added to it.
pub open spec fn with_attr(v: TokView) -> TokView {
    TokView {
        current: match v.current {
            Some(SpecToken::StartTag { name, is_self_closing, attributes }) => Some(
                SpecToken::StartTag {
                    name,
                    is_self_closing,
                    attributes: attributes.push((v.attr_name, v.attr_value)),
                },
            ),
            other => other,
        },
        ..v
    }
}

/// Finishes the attribute being read, if it has a name: a start tag gets it
/// unless it already has one of that name (a duplicate is reported and
/// dropped); then no attribute is being read.
pub open spec fn flush_attr(v: TokView) -> TokView {
    let v0 = TokView { ignore_attribute: false, ..v };
    let w = if v0.attr_name.len() == 0 {
        v0
    } else if attr_exists(v0) {
        report(v0, ParserError::DuplicateAttribute)
    } else {
        with_attr(v0)
    };
    TokView { attr_name: Seq::empty(), attr_value: Seq::empty(), ignore_attribute: false, ..w }
}

/// Consumes `<`, `/` and the temporary buffer as text, empties the buffer,
/// steps back and returns to state `s`.
pub open spec fn abandon_end_tag(v: TokView, s: State) -> TokView {
    let w = TokView { consumed: v.consumed + seq!['<', '/'] + v.temp, temp: Seq::empty(), ..v };
    goto(unread(w), s)
}

// ---------------------------------------------------------------------------
// The states
// ---------------------------------------------------------------------------
/// A text state: `&` and `<` (where `lt` is given) lead elsewhere, NUL is
/// replaced (or kept, in the data state), EOF emits the pending text and EOF.
pub open spec fn text_state_eof(v: TokView) -> TokView {
    emit(v, SpecToken::Eof)
}

#[verifier::opaque]
pub open spec fn step_data(v: TokView) -> TokView {
    let (w, c) = read(v);
    match c {
        Some('&') => goto(w, State::CharacterReferenceInDataState),
        Some('<') => goto(w, State::TagOpenState),
        Some('\0') => report(consume(w, '\0'), ParserError::UnexpectedNullCharacter),
        None => text_state_eof(w),
        Some(ch) => consume(w, ch),
    }
}

/// A character reference is not resolved: the `&` stays as text.
#[verifier::opaque]
pub open spec fn step_char_ref_in_data(v: TokView) -> TokView {
    goto(consume(v, '&'), State::DataState)
}

#[verifier::opaque]
pub open spec fn step_rcdata(v: TokView) -> TokView {
    let (w, c) = read(v);
    match c {
        Some('&') => goto(w, State::CharacterReferenceInRcDataState),
        Some('<') => goto(w, State::RcDataLessThanSignState),
        None => text_state_eof(w),
        Some('\0') => report(consume(w, '\u{FFFD}'), ParserError::UnexpectedNullCharacter),
        Some(ch) => consume(w, ch),
    }
}

#[verifier::opaque]
pub open spec fn step_char_ref_in_rcdata(v: TokView) -> TokView {
    goto(consume(v, '&'), State::RcDataState)
}

#[verifier::opaque]
pub open spec fn step_rawtext(v: TokView) -> TokView {
    let (w, c) = read(v);
    match c {
        Some('<') => goto(w, State::RawTextLessThanSignState),
        Some('\0') => report(consume(w, '\u{FFFD}'), ParserError::UnexpectedNullCharacter),
        None => text_state_eof(w),
        Some(ch) => consume(w, ch),
    }
}

#[verifier::opaque]
pub open spec fn step_script_data(v: TokView) -> TokView {
    let (w, c) = read(v);
    match c {
        Some('<') => goto(w, State::ScriptDataLessThenSignState),
        Some('\0') => consume(report(w, ParserError::UnexpectedNullCharacter), '\u{FFFD}'),
        None => text_state_eof(w),
        Some(ch) => consume(w, ch),
    }
}

#[verifier::opaque]
pub open spec fn step_plaintext(v: TokView) -> TokView {
    let (w, c) = read(v);
    match c {
        Some('\0') => report(consume(w, '\u{FFFD}'), ParserError::UnexpectedNullCharacter),
        None => text_state_eof(w),
        Some(ch) => consume(w, ch),
    }
}

#[verifier::opaque]
pub open spec fn step_tag_open(v: TokView) -> TokView {
    let (w, c) = read(v);
    match c {
        Some('!') => goto(w, State::MarkupDeclarationOpenState),
        Some('/') => goto(w, State::EndTagOpenState),
        Some(ch) => if is_ascii_alpha(ch) {
            goto(add_name(set_current(w, new_start_tag()), lower_if_upper(ch)), State::TagNameState)
        } else if ch == '?' {
            goto(
                unread(report(set_current(w, new_comment(Seq::empty())), ParserError::UnexpectedQuestionMarkInsteadOfTagName)),
                State::BogusCommentState,
            )
        } else {
            goto(
                unread(consume(report(w, ParserError::InvalidFirstCharacterOfTagName), '<')),
                State::DataState,
            )
        },
        None => goto(consume(report(w, ParserError::EofBeforeTagName), '<'), State::DataState),
    }
}

#[verifier::opaque]
pub open spec fn step_end_tag_open(v: TokView) -> TokView {
    let (w, c) = read(v);
    match c {
        Some('>') => goto(report(w, ParserError::MissingEndTagName), State::DataState),
        Some(ch) => if is_ascii_alpha(ch) {
            goto(add_name(set_current(w, new_end_tag()), lower_if_upper(ch)), State::TagNameState)
        } else {
            goto(
                unread(set_current(report(w, ParserError::InvalidFirstCharacterOfTagName), new_comment(Seq::empty()))),
                State::BogusCommentState,
            )
        },
        None => goto(
            consume(consume(report(w, ParserError::EofBeforeTagName), '<'), '/'),
            State::DataState,
        ),
    }
}

#[verifier::opaque]
pub open spec fn step_tag_name(v: TokView) -> TokView {
    let (w, c) = read(v);
    match c {
        Some(ch) => if is_ws(ch) {
            goto(w, State::BeforeAttributeNameState)
        } else if ch == '/' {
            goto(w, State::SelfClosingStartState)
        } else if ch == '>' {
            goto(emit_current(w), State::DataState)
        } else if is_ascii_upper(ch) {
            add_name(w, ascii_lower(ch))
        } else if ch == '\0' {
            report(add_name(w, '\u{FFFD}'), ParserError::UnexpectedNullCharacter)
        } else {
            add_name(w, ch)
        },
        None => emit(report(w, ParserError::EofInTag), SpecToken::Eof),
    }
}

/// The `<` states of RCDATA, RAWTEXT and script data: `/` starts an end tag,
/// anything else is text.
#[verifier::opaque]
pub open spec fn less_than_sign(v: TokView, end_tag_open: State, back: State) -> TokView {
    let (w, c) = read(v);
    match c {
        Some('/') => goto(set_temp(w, Seq::empty()), end_tag_open),
        _ => goto(unread(consume(w, '<')), back),
    }
}

/// The end tag open states of RCDATA and RAWTEXT.
#[verifier::opaque]
pub open spec fn end_tag_open(v: TokView, name_state: State, back: State) -> TokView {
    let (w, c) = read(v);
    match c {
        Some(ch) => if is_ascii_alpha(ch) {
            goto(set_temp(set_current(w, new_end_tag()), w.temp.push(lower_if_upper(ch))), name_state)
        } else {
            goto(unread(consume(consume(w, '<'), '/')), back)
        },
        None => goto(unread(consume(consume(w, '<'), '/')), back),
    }
}

/// The end tag name states: an appropriate end tag closes, letters collect,
/// anything else returns to state `back` as text.
#[verifier::opaque]
pub open spec fn end_tag_name(v: TokView, back: State) -> TokView {
    let (w, c) = read(v);
    match c {
        Some(ch) => if is_ws(ch) {
            if appropriate_end(w) {
                goto(w, State::BeforeAttributeNameState)
            } else {
                abandon_end_tag(w, back)
            }
        } else if ch == '/' {
            if appropriate_end(w) {
                goto(w, State::SelfClosingStartState)
            } else {
                abandon_end_tag(w, back)
            }
        } else if ch == '>' {
            if appropriate_end(w) {
                let x = set_name(w, w.temp);
                goto(emit_current(TokView { last_start: Seq::empty(), ..x }), State::DataState)
            } else {
                abandon_end_tag(w, back)
            }
        } else if is_ascii_alpha(ch) {
            set_temp(w, w.temp.push(lower_if_upper(ch)))
        } else {
            abandon_end_tag(w, back)
        },
        None => abandon_end_tag(w, back),
    }
}

#[verifier::opaque]
pub open spec fn step_script_data_less_than_sign(v: TokView) -> TokView {
    let (w, c) = read(v);
    match c {
        Some('/') => goto(set_temp(w, Seq::empty()), State::ScriptDataEndTagOpenState),
        Some('!') => goto(consume(consume(w, '<'), '!'), State::ScriptDataEscapeStartState),
        _ => goto(unread(consume(w, '<')), State::ScriptDataState),
    }
}

/// The script data end tag open states: a letter starts an end tag (and is
/// read again), anything else is text.
#[verifier::opaque]
pub open spec fn script_end_tag_open(v: TokView, name_state: State, back: State) -> TokView {
    let (w, c) = read(v);
    match c {
        Some(ch) => if is_ascii_alpha(ch) {
            goto(unread(set_current(w, new_end_tag())), name_state)
        } else {
            goto(unread(consume(consume(w, '<'), '/')), back)
        },
        None => goto(unread(consume(consume(w, '<'), '/')), back),
    }
}

/// The states after `<!` and `<!-` in script data.
#[verifier::opaque]
pub open spec fn escape_start(v: TokView, next: State) -> TokView {
    let (w, c) = read(v);
    match c {
        Some('-') => goto(consume(w, '-'), next),
        _ => goto(unread(w), State::ScriptDataState),
    }
}

#[verifier::opaque]
pub open spec fn step_script_data_escaped(v: TokView) -> TokView {
    let (w, c) = read(v);
    match c {
        Some('-') => goto(consume(w, '-'), State::ScriptDataEscapedDashState),
        Some('<') => goto(w, State::ScriptDataEscapedLessThanSignState),
        Some('\0') => consume(report(w, ParserError::UnexpectedNullCharacter), '\u{FFFD}'),
        None => goto(report(w, ParserError::EofInScriptHtmlCommentLikeText), State::DataState),
        Some(ch) => consume(w, ch),
    }
}

#[verifier::opaque]
pub open spec fn step_script_data_escaped_dash(v: TokView) -> TokView {
    let (w, c) = read(v);
    match c {
        Some('-') => goto(consume(w, '-'), State::ScriptDataEscapedDashDashState),
        Some('<') => goto(w, State::ScriptDataEscapedLessThanSignState),
        Some('\0') => goto(
            consume(report(w, ParserError::UnexpectedNullCharacter), '\u{FFFD}'),
            State::ScriptDataEscapedState,
        ),
        None => goto(report(w, ParserError::EofInScriptHtmlCommentLikeText), State::DataState),
        Some(_) => goto(unread(w), State::ScriptDataEscapedState),
    }
}

#[verifier::opaque]
pub open spec fn step_script_data_escaped_dash_dash(v: TokView) -> TokView {
    let (w, c) = read(v);
    match c {
        Some('-') => consume(w, '-'),
        Some('<') => goto(w, State::ScriptDataEscapedLessThanSignState),
        Some('>') => goto(consume(w, '>'), State::ScriptDataState),
        Some('\0') => goto(
            consume(report(w, ParserError::UnexpectedNullCharacter), '\u{FFFD}'),
            State::ScriptDataEscapedState,
        ),
        None => goto(report(w, ParserError::EofInScriptHtmlCommentLikeText), State::DataState),
        Some(_) => goto(unread(w), State::ScriptDataEscapedState),
    }
}

#[verifier::opaque]
pub open spec fn step_script_data_escaped_less_than_sign(v: TokView) -> TokView {
    let (w, c) = read(v);
    match c {
        Some('/') => goto(set_temp(w, Seq::empty()), State::ScriptDataEscapedEndTagOpenState),
        Some(ch) => if is_ascii_alpha(ch) {
            goto(unread(consume(set_temp(w, Seq::empty()), '<')), State::ScriptDataDoubleEscapeStartState)
        } else {
            goto(unread(consume(w, '<')), State::ScriptDataEscapedState)
        },
        None => goto(unread(consume(w, '<')), State::ScriptDataEscapedState),
    }
}

/// The double escape start and end states: a delimiter decides on the
/// temporary buffer being `script`, letters collect, anything else goes back.
#[verifier::opaque]
pub open spec fn double_escape(v: TokView, if_script: State, otherwise: State, back: State) -> TokView {
    let (w, c) = read(v);
    match c {
        Some(ch) => if is_ws(ch) || ch == '/' || ch == '>' {
            consume(goto(w, if w.temp == "script"@ { if_script } else { otherwise }), ch)
        } else if is_ascii_alpha(ch) {
            consume(set_temp(w, w.temp.push(lower_if_upper(ch))), ch)
        } else {
            goto(unread(w), back)
        },
        None => goto(unread(w), back),
    }
}

#[verifier::opaque]
pub open spec fn step_script_data_double_escaped(v: TokView) -> TokView {
    let (w, c) = read(v);
    match c {
        Some('-') => goto(consume(w, '-'), State::ScriptDataDoubleEscapedDashState),
        Some('<') => goto(consume(w, '<'), State::ScriptDataDoubleEscapedLessThanSignState),
        Some('\0') => consume(report(w, ParserError::UnexpectedNullCharacter), '\u{FFFD}'),
        None => goto(report(w, ParserError::EofInScriptHtmlCommentLikeText), State::DataState),
        Some(ch) => consume(w, ch),
    }
}

#[verifier::opaque]
pub open spec fn step_script_data_double_escaped_dash(v: TokView) -> TokView {
    let (w, c) = read(v);
    match c {
        Some('-') => consume(goto(w, State::ScriptDataDoubleEscapedDashDashState), '-'),
        Some('<') => consume(goto(w, State::ScriptDataDoubleEscapedLessThanSignState), '<'),
        Some('\0') => goto(
            consume(report(w, ParserError::UnexpectedNullCharacter), '\u{FFFD}'),
            State::ScriptDataDoubleEscapedState,
        ),
        None => goto(report(w, ParserError::EofInScriptHtmlCommentLikeText), State::DataState),
        Some(ch) => goto(consume(w, ch), State::ScriptDataDoubleEscapedState),
    }
}

#[verifier::opaque]
pub open spec fn step_script_data_double_escaped_dash_dash(v: TokView) -> TokView {
    let (w, c) = read(v);
    match c {
        Some('-') => consume(w, '-'),
        Some('<') => goto(consume(w, '<'), State::ScriptDataDoubleEscapedLessThanSignState),
        Some('>') => goto(consume(w, '>'), State::ScriptDataState),
        Some('\0') => goto(
            consume(report(w, ParserError::UnexpectedNullCharacter), '\u{FFFD}'),
            State::ScriptDataDoubleEscapedState,
        ),
        None => goto(report(w, ParserError::EofInScriptHtmlCommentLikeText), State::DataState),
        Some(ch) => goto(consume(w, ch), State::ScriptDataDoubleEscapedState),
    }
}

#[verifier::opaque]
pub open spec fn step_script_data_double_escaped_less_than_sign(v: TokView) -> TokView {
    let (w, c) = read(v);
    match c {
        Some('/') => goto(consume(set_temp(w, Seq::empty()), '/'), State::ScriptDataDoubleEscapeEndState),
        _ => goto(unread(w), State::ScriptDataDoubleEscapedState),
    }
}

#[verifier::opaque]
pub open spec fn step_before_attribute_name(v: TokView) -> TokView {
    let (w, c) = read(v);
    match c {
        Some(ch) => if is_ws(ch) {
            w
        } else if ch == '/' || ch == '>' {
            goto(unread(w), State::AfterAttributeNameState)
        } else if ch == '=' {
            goto(
                unread(flush_attr(report(w, ParserError::UnexpectedEqualsSignBeforeAttributeName))),
                State::AttributeNameState,
            )
        } else {
            goto(unread(flush_attr(w)), State::AttributeNameState)
        },
        None => goto(unread(w), State::AfterAttributeNameState),
    }
}

#[verifier::opaque]
pub open spec fn step_attribute_name(v: TokView) -> TokView {
    let (w, c) = read(v);
    match c {
        Some(ch) => if is_ws(ch) || ch == '>' {
            goto(unread(w), State::AfterAttributeNameState)
        } else if ch == '=' {
            goto(w, State::BeforeAttributeValueState)
        } else if is_ascii_upper(ch) {
            TokView { attr_name: w.attr_name.push(ascii_lower(ch)), ..w }
        } else if ch == '\0' {
            report(TokView { attr_name: w.attr_name.push('\u{FFFD}'), ..w }, ParserError::UnexpectedNullCharacter)
        } else if ch == '"' || ch == '\'' || ch == '<' {
            let x = report(w, ParserError::UnexpectedCharacterInAttributeName);
            TokView { attr_name: x.attr_name.push(ch), ..x }
        } else {
            TokView { attr_name: w.attr_name.push(ch), ..w }
        },
        None => goto(unread(w), State::AfterAttributeNameState),
    }
}

#[verifier::opaque]
pub open spec fn step_after_attribute_name(v: TokView) -> TokView {
    let (w, c) = read(v);
    match c {
        Some(ch) => if is_ws(ch) {
            w
        } else if ch == '/' {
            goto(w, State::SelfClosingStartState)
        } else if ch == '=' {
            goto(w, State::BeforeAttributeValueState)
        } else if ch == '>' {
            emit_current(flush_attr(goto(w, State::DataState)))
        } else {
            goto(flush_attr(w), State::AttributeNameState)
        },
        None => goto(report(w, ParserError::EofInTag), State::DataState),
    }
}

#[verifier::opaque]
pub open spec fn step_before_attribute_value(v: TokView) -> TokView {
    let (w, c) = read(v);
    match c {
        Some(ch) => if is_ws(ch) {
            w
        } else if ch == '"' {
            goto(w, State::AttributeValueDoubleQuotedState)
        } else if ch == '&' {
            goto(w, State::AttributeValueUnquotedState)
        } else if ch == '\'' {
            goto(w, State::AttributeValueSingleQuotedState)
        } else if ch == '>' {
            goto(emit_current(flush_attr(report(w, ParserError::MissingAttributeValue))), State::DataState)
        } else {
            goto(unread(w), State::AttributeValueUnquotedState)
        },
        None => goto(unread(w), State::AttributeValueUnquotedState),
    }
}

pub open spec fn push_value(v: TokView, c: char) -> TokView {
    TokView { attr_value: v.attr_value.push(c), ..v }
}

/// The quoted attribute value states; a character reference is not resolved:
/// the `&` stays in the value.
#[verifier::opaque]
pub open spec fn quoted_value(v: TokView, quote: char) -> TokView {
    let (w, c) = read(v);
    match c {
        Some(ch) => if ch == quote {
            goto(w, State::AfterAttributeValueQuotedState)
        } else if ch == '\0' {
            report(push_value(w, '\u{FFFD}'), ParserError::UnexpectedNullCharacter)
        } else {
            push_value(w, ch)
        },
        None => goto(report(w, ParserError::EofInTag), State::DataState),
    }
}

#[verifier::opaque]
pub open spec fn step_attribute_value_unquoted(v: TokView) -> TokView {
    let (w, c) = read(v);
    match c {
        Some(ch) => if is_ws(ch) {
            goto(w, State::BeforeAttributeNameState)
        } else if ch == '>' {
            goto(emit_current(flush_attr(w)), State::DataState)
        } else if ch == '\0' {
            report(push_value(w, '\u{FFFD}'), ParserError::UnexpectedNullCharacter)
        } else if ch == '"' || ch == '\'' || ch == '<' || ch == '=' || ch == '`' {
            push_value(report(w, ParserError::UnexpectedCharacterInUnquotedAttributeValue), ch)
        } else {
            push_value(w, ch)
        },
        None => goto(report(w, ParserError::EofInTag), State::DataState),
    }
}

#[verifier::opaque]
pub open spec fn step_after_attribute_value_quoted(v: TokView) -> TokView {
    let (w, c) = read(v);
    match c {
        Some(ch) => if is_ws(ch) {
            goto(w, State::BeforeAttributeNameState)
        } else if ch == '/' {
            goto(w, State::SelfClosingStartState)
        } else if ch == '>' {
            goto(emit_current(flush_attr(w)), State::DataState)
        } else {
            goto(unread(report(w, ParserError::MissingWhitespaceBetweenAttributes)), State::BeforeAttributeNameState)
        },
        None => goto(report(w, ParserError::EofInTag), State::DataState),
    }
}

#[verifier::opaque]
pub open spec fn step_self_closing_start(v: TokView) -> TokView {
    let (w, c) = read(v);
    match c {
        Some('>') => goto(emit_current(flush_attr(set_self_closing(w, true))), State::DataState),
        None => goto(report(w, ParserError::EofInTag), State::DataState),
        Some(_) => goto(unread(report(w, ParserError::UnexpectedSolidusInTag)), State::BeforeAttributeNameState),
    }
}

#[verifier::opaque]
pub open spec fn step_bogus_comment(v: TokView) -> TokView {
    let (w, c) = read(v);
    match c {
        Some('>') => goto(emit_current(w), State::DataState),
        None => goto(emit_current(report(w, ParserError::EofInTag)), State::DataState),
        Some('\0') => report(add_value(w, '\u{FFFD}'), ParserError::UnexpectedNullCharacter),
        Some(ch) => add_value(w, ch),
    }
}

#[verifier::opaque]
pub open spec fn step_markup_declaration_open(v: TokView) -> TokView {
    if chars_left(v) >= 2 && look_ahead_text(v, 2) == "--"@ {
        goto(seek(set_current(v, new_comment(Seq::empty())), v.offset + 2), State::CommentStartState)
    } else if chars_left(v) >= 7 && lower_ascii(look_ahead_text(v, 7)) == "doctype"@ {
        goto(seek(v, v.offset + 7), State::DocTypeState)
    } else if chars_left(v) >= 7 && look_ahead_text(v, 7) == "[CDATA["@ {
        let w = report(seek(v, v.offset + 7), ParserError::CdataInHtmlContent);
        goto(set_current(w, new_comment("[CDATA["@)), State::BogusCommentState)
    } else {
        goto(set_current(report(v, ParserError::IncorrectlyOpenedComment), new_comment(Seq::empty())), State::BogusCommentState)
    }
}

#[verifier::opaque]
pub open spec fn step_comment_start(v: TokView) -> TokView {
    let (w, c) = read(v);
    match c {
        Some('-') => goto(w, State::CommentStartDashState),
        Some('>') => goto(emit_current(report(w, ParserError::AbruptClosingOfEmptyComment)), State::DataState),
        _ => goto(unread(w), State::CommentState),
    }
}

#[verifier::opaque]
pub open spec fn step_comment_start_dash(v: TokView) -> TokView {
    let (w, c) = read(v);
    match c {
        Some('-') => goto(w, State::CommentEndState),
        Some('>') => goto(emit_current(report(w, ParserError::AbruptClosingOfEmptyComment)), State::DataState),
        None => goto(emit_current(report(w, ParserError::EofInTag)), State::DataState),
        Some(_) => goto(unread(add_value(w, '-')), State::CommentState),
    }
}

#[verifier::opaque]
pub open spec fn step_comment(v: TokView) -> TokView {
    let (w, c) = read(v);
    match c {
        Some('<') => goto(add_value(w, '<'), State::CommentLessThanSignState),
        Some('-') => goto(w, State::CommentEndDashState),
        Some('\0') => add_value(report(w, ParserError::UnexpectedNullCharacter), '\u{FFFD}'),
        None => goto(emit_current(report(w, ParserError::EofInComment)), State::DataState),
        Some(ch) => add_value(w, ch),
    }
}

#[verifier::opaque]
pub open spec fn step_comment_less_than_sign(v: TokView) -> TokView {
    let (w, c) = read(v);
    match c {
        Some('!') => goto(add_value(w, '!'), State::CommentLessThanSignBangState),
        Some('<') => add_value(w, '<'),
        _ => goto(unread(w), State::CommentState),
    }
}

/// The states after `<!` and `<!-` in a comment.
#[verifier::opaque]
pub open spec fn comment_bang(v: TokView, next: State, back: State) -> TokView {
    let (w, c) = read(v);
    match c {
        Some('-') => goto(w, next),
        _ => goto(unread(w), back),
    }
}

#[verifier::opaque]
pub open spec fn step_comment_less_than_sign_bang_dash_dash(v: TokView) -> TokView {
    let (w, c) = read(v);
    match c {
        None => goto(unread(w), State::CommentEndState),
        Some('>') => goto(unread(w), State::CommentEndState),
        Some(_) => goto(unread(report(w, ParserError::NestedComment)), State::CommentEndState),
    }
}

#[verifier::opaque]
pub open spec fn step_comment_end_dash(v: TokView) -> TokView {
    let (w, c) = read(v);
    match c {
        Some('-') => goto(w, State::CommentEndState),
        None => goto(emit_current(report(w, ParserError::EofInComment)), State::DataState),
        Some(_) => goto(unread(add_value(w, '-')), State::CommentState),
    }
}

#[verifier::opaque]
pub open spec fn step_comment_end(v: TokView) -> TokView {
    let (w, c) = read(v);
    match c {
        Some('>') => goto(emit_current(w), State::DataState),
        Some('!') => goto(w, State::CommentEndBangState),
        Some('-') => add_value(w, '-'),
        None => goto(emit_current(report(w, ParserError::EofInComment)), State::DataState),
        Some(_) => goto(unread(add_value(add_value(w, '-'), '-')), State::CommentState),
    }
}

#[verifier::opaque]
pub open spec fn step_comment_end_bang(v: TokView) -> TokView {
    let (w, c) = read(v);
    match c {
        Some('-') => goto(add_value(add_value(add_value(w, '-'), '-'), '!'), State::CommentEndDashState),
        Some('>') => goto(emit_current(report(w, ParserError::IncorrectlyClosedComment)), State::DataState),
        None => goto(emit_current(report(w, ParserError::EofInComment)), State::DataState),
        Some(_) => goto(unread(add_value(add_value(add_value(w, '-'), '-'), '!')), State::CommentState),
    }
}

#[verifier::opaque]
pub open spec fn step_doctype(v: TokView) -> TokView {
    let (w, c) = read(v);
    match c {
        Some(ch) => if is_ws(ch) {
            goto(w, State::BeforeDocTypeNameState)
        } else if ch == '>' {
            goto(unread(w), State::BeforeDocTypeNameState)
        } else {
            goto(unread(report(w, ParserError::MissingWhitespaceBeforeDoctypeName)), State::BeforeDocTypeNameState)
        },
        None => goto(emit(report(w, ParserError::EofInDoctype), new_doctype(true)), State::DataState),
    }
}

#[verifier::opaque]
pub open spec fn step_before_doctype_name(v: TokView) -> TokView {
    let (w, c) = read(v);
    match c {
        Some(ch) => if is_ws(ch) {
            w
        } else if is_ascii_upper(ch) {
            goto(add_name(set_current(w, new_doctype(false)), ascii_lower(ch)), State::DocTypeNameState)
        } else if ch == '\0' {
            goto(
                add_name(set_current(report(w, ParserError::UnexpectedNullCharacter), new_doctype(false)), '\u{FFFD}'),
                State::DocTypeNameState,
            )
        } else if ch == '>' {
            goto(emit(report(w, ParserError::MissingDoctypeName), new_doctype(true)), State::DataState)
        } else {
            goto(add_name(set_current(w, new_doctype(false)), ch), State::DocTypeNameState)
        },
        None => goto(emit(report(w, ParserError::EofInDoctype), new_doctype(true)), State::DataState),
    }
}

#[verifier::opaque]
pub open spec fn step_doctype_name(v: TokView) -> TokView {
    let (w, c) = read(v);
    match c {
        Some(ch) => if is_ws(ch) {
            goto(w, State::AfterDocTypeNameState)
        } else if ch == '>' {
            goto(emit_current(w), State::DataState)
        } else if is_ascii_upper(ch) {
            add_name(w, ascii_lower(ch))
        } else if ch == '\0' {
            add_name(report(w, ParserError::UnexpectedNullCharacter), '\u{FFFD}')
        } else {
            add_name(w, ch)
        },
        None => goto(emit_current(set_quirks(report(w, ParserError::EofInDoctype), true)), State::DataState),
    }
}

/// At the end of a doctype: EOF sets quirks mode and emits the doctype.
pub open spec fn doctype_eof(w: TokView) -> TokView {
    goto(emit_current(set_quirks(report(w, ParserError::EofInDoctype), true)), State::DataState)
}

/// Anything unexpected in a doctype: quirks mode, and the rest is bogus.
pub open spec fn doctype_bogus(w: TokView, e: ParserError) -> TokView {
    goto(unread(set_quirks(report(w, e), true)), State::BogusDocTypeState)
}

#[verifier::opaque]
pub open spec fn step_after_doctype_name(v: TokView) -> TokView {
    let (w, c) = read(v);
    match c {
        Some(ch) => if is_ws(ch) {
            w
        } else if ch == '>' {
            goto(emit_current(w), State::DataState)
        } else {
            let x = unread(w);
            let word = unicode_uppercase(look_ahead_text(x, 6));
            if chars_left(x) >= 2 && word == "PUBLIC"@ {
                goto(seek(x, x.offset + 6), State::AfterDocTypePublicKeywordState)
            } else if chars_left(x) >= 2 && word == "SYSTEM"@ {
                goto(seek(x, x.offset + 6), State::AfterDocTypeSystemKeywordState)
            } else {
                goto(
                    set_quirks(report(x, ParserError::InvalidCharacterSequenceAfterDoctypeName), true),
                    State::BogusDocTypeState,
                )
            }
        },
        None => doctype_eof(w),
    }
}

/// The states after the PUBLIC and SYSTEM keywords.
#[verifier::opaque]
pub open spec fn after_keyword(
    v: TokView,
    public: bool,
    before_state: State,
    dq: State,
    sq: State,
    missing_ws: ParserError,
    missing_id: ParserError,
    missing_quote: ParserError,
) -> TokView {
    let (w, c) = read(v);
    match c {
        Some(ch) => if is_ws(ch) {
            goto(w, before_state)
        } else if ch == '"' || ch == '\'' {
            let x = report(w, missing_ws);
            let y = if public {
                set_public(x, Seq::empty())
            } else {
                set_system(x, Seq::empty())
            };
            goto(y, if ch == '"' { dq } else { sq })
        } else if ch == '>' {
            goto(emit_current(set_quirks(report(w, missing_id), true)), State::DataState)
        } else {
            doctype_bogus(w, missing_quote)
        },
        None => doctype_eof(w),
    }
}

/// The states before a public or system identifier.
#[verifier::opaque]
pub open spec fn before_identifier(
    v: TokView,
    public: bool,
    dq: State,
    sq: State,
    missing_id: ParserError,
    missing_quote: ParserError,
) -> TokView {
    let (w, c) = read(v);
    match c {
        Some(ch) => if is_ws(ch) {
            w
        } else if ch == '"' || ch == '\'' {
            let y = if public {
                set_public(w, Seq::empty())
            } else {
                set_system(w, Seq::empty())
            };
            goto(y, if ch == '"' { dq } else { sq })
        } else if ch == '>' {
            goto(emit_current(set_quirks(report(w, missing_id), true)), State::DataState)
        } else {
            doctype_bogus(w, missing_quote)
        },
        None => doctype_eof(w),
    }
}

/// The quoted identifier states.
#[verifier::opaque]
pub open spec fn quoted_identifier(
    v: TokView,
    public: bool,
    quote: char,
    after: State,
    abrupt: ParserError,
) -> TokView {
    let (w, c) = read(v);
    match c {
        Some(ch) => if ch == quote {
            goto(w, after)
        } else if ch == '\0' {
            let x = report(w, ParserError::UnexpectedNullCharacter);
            if public {
                add_public(x, '\u{FFFD}')
            } else {
                add_system(x, '\u{FFFD}')
            }
        } else if ch == '>' {
            goto(emit_current(set_quirks(report(w, abrupt), true)), State::DataState)
        } else if public {
            add_public(w, ch)
        } else {
            add_system(w, ch)
        },
        None => doctype_eof(w),
    }
}

#[verifier::opaque]
pub open spec fn step_after_doctype_public_identifier(v: TokView) -> TokView {
    let (w, c) = read(v);
    match c {
        Some(ch) => if is_ws(ch) {
            goto(w, State::BetweenDocTypePublicAndSystemIdentifiersState)
        } else if ch == '>' {
            goto(emit_current(w), State::DataState)
        } else if ch == '"' || ch == '\'' {
            let x = set_system(
                report(w, ParserError::MissingWhitespaceBetweenDoctypePublicAndSystemIdentifiers),
                Seq::empty(),
            );
            goto(
                x,
                if ch == '"' {
                    State::DocTypeSystemIdentifierDoubleQuotedState
                } else {
                    State::DocTypeSystemIdentifierSingleQuotedState
                },
            )
        } else {
            doctype_bogus(w, ParserError::MissingQuoteBeforeDoctypeSystemIdentifier)
        },
        None => doctype_eof(w),
    }
}

#[verifier::opaque]
pub open spec fn step_between_doctype_identifiers(v: TokView) -> TokView {
    let (w, c) = read(v);
    match c {
        Some(ch) => if is_ws(ch) {
            w
        } else if ch == '>' {
            goto(emit_current(w), State::DataState)
        } else if ch == '"' || ch == '\'' {
            goto(
                set_system(w, Seq::empty()),
                if ch == '"' {
                    State::DocTypeSystemIdentifierDoubleQuotedState
                } else {
                    State::DocTypeSystemIdentifierSingleQuotedState
                },
            )
        } else {
            doctype_bogus(w, ParserError::MissingQuoteBeforeDoctypeSystemIdentifier)
        },
        None => doctype_eof(w),
    }
}

#[verifier::opaque]
pub open spec fn step_after_doctype_system_identifier(v: TokView) -> TokView {
    let (w, c) = read(v);
    match c {
        Some(ch) => if is_ws(ch) {
            w
        } else if ch == '>' {
            goto(emit_current(w), State::DataState)
        } else {
            goto(
                unread(report(w, ParserError::UnexpectedCharacterAfterDoctypeSystemIdentifier)),
                State::BogusDocTypeState,
            )
        },
        None => doctype_eof(w),
    }
}

#[verifier::opaque]
pub open spec fn step_bogus_doctype(v: TokView) -> TokView {
    let (w, c) = read(v);
    match c {
        Some('>') => goto(emit_current(w), State::DataState),
        Some('\0') => report(w, ParserError::UnexpectedNullCharacter),
        None => goto(emit_current(w), State::DataState),
        Some(_) => w,
    }
}

#[verifier::opaque]
pub open spec fn step_cdata_section(v: TokView) -> TokView {
    let (w, c) = read(v);
    match c {
        Some(']') => goto(w, State::CDataSectionBracketState),
        None => goto(emit_current(report(w, ParserError::EofInCdata)), State::DataState),
        Some(ch) => consume(w, ch),
    }
}

#[verifier::opaque]
pub open spec fn step_cdata_section_bracket(v: TokView) -> TokView {
    let (w, c) = read(v);
    match c {
        Some(']') => goto(w, State::CDataSectionEndState),
        _ => goto(unread(consume(w, ']')), State::CDataSectionState),
    }
}

#[verifier::opaque]
pub open spec fn step_cdata_section_end(v: TokView) -> TokView {
    let (w, c) = read(v);
    match c {
        Some(']') => consume(w, ']'),
        Some('>') => goto(w, State::DataState),
        _ => goto(unread(consume(consume(w, ']'), ']')), State::CDataSectionState),
    }
}

/// One step of the tokenizer: what its current state does with the input.
pub open spec fn step(v: TokView) -> TokView {
    match v.state {
        State::DataState => step_data(v),
        State::CharacterReferenceInDataState => step_char_ref_in_data(v),
        State::RcDataState => step_rcdata(v),
        State::CharacterReferenceInRcDataState => step_char_ref_in_rcdata(v),
        State::RawTextState => step_rawtext(v),
        State::ScriptDataState => step_script_data(v),
        State::PlaintextState => step_plaintext(v),
        State::TagOpenState => step_tag_open(v),
        State::EndTagOpenState => step_end_tag_open(v),
        State::TagNameState => step_tag_name(v),
        State::RcDataLessThanSignState => less_than_sign(
            v,
            State::RcDataEndTagOpenState,
            State::RcDataState,
        ),
        State::RcDataEndTagOpenState => end_tag_open(
            v,
            State::RcDataEndTagNameState,
            State::RcDataState,
        ),
        State::RcDataEndTagNameState => end_tag_name(v, State::RcDataState),
        State::RawTextLessThanSignState => less_than_sign(
            v,
            State::RawTextEndTagOpenState,
            State::RawTextState,
        ),
        State::RawTextEndTagOpenState => end_tag_open(
            v,
            State::RawTextEndTagNameState,
            State::RawTextState,
        ),
        State::RawTextEndTagNameState => end_tag_name(v, State::RawTextState),
        State::ScriptDataLessThenSignState => step_script_data_less_than_sign(v),
        State::ScriptDataEndTagOpenState => script_end_tag_open(
            v,
            State::ScriptDataEndTagNameState,
            State::ScriptDataState,
        ),
        State::ScriptDataEndTagNameState => end_tag_name(v, State::ScriptDataState),
        State::ScriptDataEscapeStartState => escape_start(v, State::ScriptDataEscapeStartDashState),
        State::ScriptDataEscapeStartDashState => escape_start(
            v,
            State::ScriptDataEscapedDashDashState,
        ),
        State::ScriptDataEscapedState => step_script_data_escaped(v),
        State::ScriptDataEscapedDashState => step_script_data_escaped_dash(v),
        State::ScriptDataEscapedDashDashState => step_script_data_escaped_dash_dash(v),
        State::ScriptDataEscapedLessThanSignState => step_script_data_escaped_less_than_sign(v),
        State::ScriptDataEscapedEndTagOpenState => script_end_tag_open(
            v,
            State::ScriptDataEscapedEndTagNameState,
            State::ScriptDataEscapedState,
        ),
        State::ScriptDataEscapedEndTagNameState => end_tag_name(v, State::ScriptDataEscapedState),
        State::ScriptDataDoubleEscapeStartState => double_escape(
            v,
            State::ScriptDataDoubleEscapedState,
            State::ScriptDataEscapedState,
            State::ScriptDataEscapedState,
        ),
        State::ScriptDataDoubleEscapedState => step_script_data_double_escaped(v),
        State::ScriptDataDoubleEscapedDashState => step_script_data_double_escaped_dash(v),
        State::ScriptDataDoubleEscapedDashDashState => step_script_data_double_escaped_dash_dash(v),
        State::ScriptDataDoubleEscapedLessThanSignState =>
            step_script_data_double_escaped_less_than_sign(v),
        State::ScriptDataDoubleEscapeEndState => double_escape(
            v,
            State::ScriptDataEscapedState,
            State::ScriptDataDoubleEscapedState,
            State::ScriptDataDoubleEscapedState,
        ),
        State::BeforeAttributeNameState => step_before_attribute_name(v),
        State::AttributeNameState => step_attribute_name(v),
        State::AfterAttributeNameState => step_after_attribute_name(v),
        State::BeforeAttributeValueState => step_before_attribute_value(v),
        State::AttributeValueDoubleQuotedState => quoted_value(v, '"'),
        State::AttributeValueSingleQuotedState => quoted_value(v, '\''),
        State::AttributeValueUnquotedState => step_attribute_value_unquoted(v),
        State::CharacterReferenceInAttributeValueState => v,
        State::AfterAttributeValueQuotedState => step_after_attribute_value_quoted(v),
        State::SelfClosingStartState => step_self_closing_start(v),
        State::BogusCommentState => step_bogus_comment(v),
        State::MarkupDeclarationOpenState => step_markup_declaration_open(v),
        State::CommentStartState => step_comment_start(v),
        State::CommentStartDashState => step_comment_start_dash(v),
        State::CommentState => step_comment(v),
        State::CommentLessThanSignState => step_comment_less_than_sign(v),
        State::CommentLessThanSignBangState => comment_bang(
            v,
            State::CommentLessThanSignBangDashState,
            State::CommentState,
        ),
        State::CommentLessThanSignBangDashState => comment_bang(
            v,
            State::CommentLessThanSignBangDashDashState,
            State::CommentEndDashState,
        ),
        State::CommentLessThanSignBangDashDashState => step_comment_less_than_sign_bang_dash_dash(v),
        State::CommentEndDashState => step_comment_end_dash(v),
        State::CommentEndState => step_comment_end(v),
        State::CommentEndBangState => step_comment_end_bang(v),
        State::DocTypeState => step_doctype(v),
        State::BeforeDocTypeNameState => step_before_doctype_name(v),
        State::DocTypeNameState => step_doctype_name(v),
        State::AfterDocTypeNameState => step_after_doctype_name(v),
        State::AfterDocTypePublicKeywordState => after_keyword(
            v,
            true,
            State::BeforeDocTypePublicIdentifierState,
            State::DocTypePublicIdentifierDoubleQuotedState,
            State::DocTypePublicIdentifierSingleQuotedState,
            ParserError::MissingWhitespaceAfterDoctypePublicKeyword,
            ParserError::MissingDoctypePublicIdentifier,
            ParserError::MissingQuoteBeforeDoctypePublicIdentifier,
        ),
        State::BeforeDocTypePublicIdentifierState => before_identifier(
            v,
            true,
            State::DocTypePublicIdentifierDoubleQuotedState,
            State::DocTypePublicIdentifierSingleQuotedState,
            ParserError::MissingDoctypePublicIdentifier,
            ParserError::MissingQuoteBeforeDoctypePublicIdentifier,
        ),
        State::DocTypePublicIdentifierDoubleQuotedState => quoted_identifier(
            v,
            true,
            '"',
            State::AfterDoctypePublicIdentifierState,
            ParserError::AbruptDoctypePublicIdentifier,
        ),
        State::DocTypePublicIdentifierSingleQuotedState => quoted_identifier(
            v,
            true,
            '\'',
            State::AfterDoctypePublicIdentifierState,
            ParserError::AbruptDoctypePublicIdentifier,
        ),
        State::AfterDoctypePublicIdentifierState => step_after_doctype_public_identifier(v),
        State::BetweenDocTypePublicAndSystemIdentifiersState => step_between_doctype_identifiers(v),
        State::AfterDocTypeSystemKeywordState => after_keyword(
            v,
            false,
            State::BeforeDocTypeSystemIdentifierState,
            State::DocTypeSystemIdentifierDoubleQuotedState,
            State::DocTypeSystemIdentifierSingleQuotedState,
            ParserError::MissingWhitespaceAfterDoctypeSystemKeyword,
            ParserError::MissingDoctypeSystemIdentifier,
            ParserError::MissingQuoteBeforeDoctypeSystemIdentifier,
        ),
        State::BeforeDocTypeSystemIdentifierState => before_identifier(
            v,
            false,
            State::DocTypeSystemIdentifierDoubleQuotedState,
            State::DocTypeSystemIdentifierSingleQuotedState,
            ParserError::MissingDoctypeSystemIdentifier,
            ParserError::MissingQuoteBeforeDoctypeSystemIdentifier,
        ),
        State::DocTypeSystemIdentifierDoubleQuotedState => quoted_identifier(
            v,
            false,
            '"',
            State::AfterDocTypeSystemIdentifierState,
            ParserError::AbruptDoctypeSystemIdentifier,
        ),
        State::DocTypeSystemIdentifierSingleQuotedState => quoted_identifier(
            v,
            false,
            '\'',
            State::AfterDocTypeSystemIdentifierState,
            ParserError::AbruptDoctypeSystemIdentifier,
        ),
        State::AfterDocTypeSystemIdentifierState => step_after_doctype_system_identifier(v),
        State::BogusDocTypeState => step_bogus_doctype(v),
        State::CDataSectionState => step_cdata_section(v),
        State::CDataSectionBracketState => step_cdata_section_bracket(v),
        State::CDataSectionEndState => step_cdata_section_end(v),
    }
}


// ---------------------------------------------------------------------------
// Reading up to the next token
// ---------------------------------------------------------------------------
/// How far the stream still has to go.
pub open spec fn progress(v: TokView) -> int {
    v.elems.len() - v.offset
}

/// An order on the states such that each step that neither emits a token
/// nor makes progress in the stream moves to a lower state.
pub open spec fn rank(s: State) -> int {
    match s {
        State::DataState => 0,
        State::CharacterReferenceInDataState => 1,
        State::RcDataState => 0,
        State::CharacterReferenceInRcDataState => 1,
        State::RawTextState => 0,
        State::ScriptDataState => 0,
        State::PlaintextState => 0,
        State::TagOpenState => 2,
        State::EndTagOpenState => 2,
        State::TagNameState => 1,
        State::RcDataLessThanSignState => 1,
        State::RcDataEndTagOpenState => 1,
        State::RcDataEndTagNameState => 1,
        State::RawTextLessThanSignState => 1,
        State::RawTextEndTagOpenState => 1,
        State::RawTextEndTagNameState => 1,
        State::ScriptDataLessThenSignState => 1,
        State::ScriptDataEndTagOpenState => 2,
        State::ScriptDataEndTagNameState => 1,
        State::ScriptDataEscapeStartState => 1,
        State::ScriptDataEscapeStartDashState => 1,
        State::ScriptDataEscapedState => 1,
        State::ScriptDataEscapedDashState => 2,
        State::ScriptDataEscapedDashDashState => 2,
        State::ScriptDataEscapedLessThanSignState => 3,
        State::ScriptDataEscapedEndTagOpenState => 3,
        State::ScriptDataEscapedEndTagNameState => 2,
        State::ScriptDataDoubleEscapeStartState => 2,
        State::ScriptDataDoubleEscapedState => 1,
        State::ScriptDataDoubleEscapedDashState => 1,
        State::ScriptDataDoubleEscapedDashDashState => 1,
        State::ScriptDataDoubleEscapedLessThanSignState => 2,
        State::ScriptDataDoubleEscapeEndState => 2,
        State::BeforeAttributeNameState => 3,
        State::AttributeNameState => 2,
        State::AfterAttributeNameState => 1,
        State::BeforeAttributeValueState => 2,
        State::AttributeValueDoubleQuotedState => 1,
        State::AttributeValueSingleQuotedState => 1,
        State::AttributeValueUnquotedState => 1,
        State::CharacterReferenceInAttributeValueState => 0,
        State::AfterAttributeValueQuotedState => 4,
        State::SelfClosingStartState => 4,
        State::BogusCommentState => 1,
        State::MarkupDeclarationOpenState => 2,
        State::CommentStartState => 2,
        State::CommentStartDashState => 2,
        State::CommentState => 1,
        State::CommentLessThanSignState => 2,
        State::CommentLessThanSignBangState => 2,
        State::CommentLessThanSignBangDashState => 3,
        State::CommentLessThanSignBangDashDashState => 3,
        State::CommentEndDashState => 2,
        State::CommentEndState => 2,
        State::CommentEndBangState => 2,
        State::DocTypeState => 2,
        State::BeforeDocTypeNameState => 1,
        State::DocTypeNameState => 1,
        State::AfterDocTypeNameState => 2,
        State::AfterDocTypePublicKeywordState => 2,
        State::BeforeDocTypePublicIdentifierState => 2,
        State::DocTypePublicIdentifierDoubleQuotedState => 1,
        State::DocTypePublicIdentifierSingleQuotedState => 1,
        State::AfterDoctypePublicIdentifierState => 2,
        State::BetweenDocTypePublicAndSystemIdentifiersState => 2,
        State::AfterDocTypeSystemKeywordState => 2,
        State::BeforeDocTypeSystemIdentifierState => 2,
        State::DocTypeSystemIdentifierDoubleQuotedState => 1,
        State::DocTypeSystemIdentifierSingleQuotedState => 1,
        State::AfterDocTypeSystemIdentifierState => 2,
        State::BogusDocTypeState => 1,
        State::CDataSectionState => 1,
        State::CDataSectionBracketState => 2,
        State::CDataSectionEndState => 2,
    }
}

/// `w` keeps the tokenizer's invariant and, if no token was emitted, is
/// further along than `v` (see `progress` and `rank`).
pub open spec fn step_ok(v: TokView, w: TokView) -> bool {
    &&& view_ok(w)
    &&& (w.queue.len() == 0 ==> progress(w) < progress(v) || (progress(w) == progress(v) && rank(
        w.state,
    ) < rank(v.state)))
}

proof fn lemma_step_data(v: TokView)
    requires
        view_ok(v),
        v.queue.len() == 0,
        v.state == State::DataState,
    ensures
        step_ok(v, step(v)),
{
    reveal(step_data);
}

proof fn lemma_step_character_reference_in_data(v: TokView)
    requires
        view_ok(v),
        v.queue.len() == 0,
        v.state == State::CharacterReferenceInDataState,
    ensures
        step_ok(v, step(v)),
{
    reveal(step_char_ref_in_data);
}

proof fn lemma_step_rc_data(v: TokView)
    requires
        view_ok(v),
        v.queue.len() == 0,
        v.state == State::RcDataState,
    ensures
        step_ok(v, step(v)),
{
    reveal(step_rcdata);
}

proof fn lemma_step_character_reference_in_rc_data(v: TokView)
    requires
        view_ok(v),
        v.queue.len() == 0,
        v.state == State::CharacterReferenceInRcDataState,
    ensures
        step_ok(v, step(v)),
{
    reveal(step_char_ref_in_rcdata);
}

proof fn lemma_step_raw_text(v: TokView)
    requires
        view_ok(v),
        v.queue.len() == 0,
        v.state == State::RawTextState,
    ensures
        step_ok(v, step(v)),
{
    reveal(step_rawtext);
}

proof fn lemma_step_script_data(v: TokView)
    requires
        view_ok(v),
        v.queue.len() == 0,
        v.state == State::ScriptDataState,
    ensures
        step_ok(v, step(v)),
{
    reveal(step_script_data);
}

proof fn lemma_step_plaintext(v: TokView)
    requires
        view_ok(v),
        v.queue.len() == 0,
        v.state == State::PlaintextState,
    ensures
        step_ok(v, step(v)),
{
    reveal(step_plaintext);
}

proof fn lemma_step_tag_open(v: TokView)
    requires
        view_ok(v),
        v.queue.len() == 0,
        v.state == State::TagOpenState,
    ensures
        step_ok(v, step(v)),
{
    reveal(step_tag_open);
}

proof fn lemma_step_end_tag_open(v: TokView)
    requires
        view_ok(v),
        v.queue.len() == 0,
        v.state == State::EndTagOpenState,
    ensures
        step_ok(v, step(v)),
{
    reveal(step_end_tag_open);
}

proof fn lemma_step_tag_name(v: TokView)
    requires
        view_ok(v),
        v.queue.len() == 0,
        v.state == State::TagNameState,
    ensures
        step_ok(v, step(v)),
{
    reveal(step_tag_name);
}

proof fn lemma_step_rc_data_less_than_sign(v: TokView)
    requires
        view_ok(v),
        v.queue.len() == 0,
        v.state == State::RcDataLessThanSignState,
    ensures
        step_ok(v, step(v)),
{
    reveal(less_than_sign);
}

proof fn lemma_step_rc_data_end_tag_open(v: TokView)
    requires
        view_ok(v),
        v.queue.len() == 0,
        v.state == State::RcDataEndTagOpenState,
    ensures
        step_ok(v, step(v)),
{
    reveal(end_tag_open);
}

proof fn lemma_step_rc_data_end_tag_name(v: TokView)
    requires
        view_ok(v),
        v.queue.len() == 0,
        v.state == State::RcDataEndTagNameState,
    ensures
        step_ok(v, step(v)),
{
    reveal(end_tag_name);
}

proof fn lemma_step_raw_text_less_than_sign(v: TokView)
    requires
        view_ok(v),
        v.queue.len() == 0,
        v.state == State::RawTextLessThanSignState,
    ensures
        step_ok(v, step(v)),
{
    reveal(less_than_sign);
}

proof fn lemma_step_raw_text_end_tag_open(v: TokView)
    requires
        view_ok(v),
        v.queue.len() == 0,
        v.state == State::RawTextEndTagOpenState,
    ensures
        step_ok(v, step(v)),
{
    reveal(end_tag_open);
}

proof fn lemma_step_raw_text_end_tag_name(v: TokView)
    requires
        view_ok(v),
        v.queue.len() == 0,
        v.state == State::RawTextEndTagNameState,
    ensures
        step_ok(v, step(v)),
{
    reveal(end_tag_name);
}

proof fn lemma_step_script_data_less_then_sign(v: TokView)
    requires
        view_ok(v),
        v.queue.len() == 0,
        v.state == State::ScriptDataLessThenSignState,
    ensures
        step_ok(v, step(v)),
{
    reveal(step_script_data_less_than_sign);
}

proof fn lemma_step_script_data_end_tag_open(v: TokView)
    requires
        view_ok(v),
        v.queue.len() == 0,
        v.state == State::ScriptDataEndTagOpenState,
    ensures
        step_ok(v, step(v)),
{
    reveal(script_end_tag_open);
}

proof fn lemma_step_script_data_end_tag_name(v: TokView)
    requires
        view_ok(v),
        v.queue.len() == 0,
        v.state == State::ScriptDataEndTagNameState,
    ensures
        step_ok(v, step(v)),
{
    reveal(end_tag_name);
}

proof fn lemma_step_script_data_escape_start(v: TokView)
    requires
        view_ok(v),
        v.queue.len() == 0,
        v.state == State::ScriptDataEscapeStartState,
    ensures
        step_ok(v, step(v)),
{
    reveal(escape_start);
}

proof fn lemma_step_script_data_escape_start_dash(v: TokView)
    requires
        view_ok(v),
        v.queue.len() == 0,
        v.state == State::ScriptDataEscapeStartDashState,
    ensures
        step_ok(v, step(v)),
{
    reveal(escape_start);
}

proof fn lemma_step_script_data_escaped(v: TokView)
    requires
        view_ok(v),
        v.queue.len() == 0,
        v.state == State::ScriptDataEscapedState,
    ensures
        step_ok(v, step(v)),
{
    reveal(step_script_data_escaped);
}

proof fn lemma_step_script_data_escaped_dash(v: TokView)
    requires
        view_ok(v),
        v.queue.len() == 0,
        v.state == State::ScriptDataEscapedDashState,
    ensures
        step_ok(v, step(v)),
{
    reveal(step_script_data_escaped_dash);
}

proof fn lemma_step_script_data_escaped_dash_dash(v: TokView)
    requires
        view_ok(v),
        v.queue.len() == 0,
        v.state == State::ScriptDataEscapedDashDashState,
    ensures
        step_ok(v, step(v)),
{
    reveal(step_script_data_escaped_dash_dash);
}

proof fn lemma_step_script_data_escaped_less_than_sign(v: TokView)
    requires
        view_ok(v),
        v.queue.len() == 0,
        v.state == State::ScriptDataEscapedLessThanSignState,
    ensures
        step_ok(v, step(v)),
{
    reveal(step_script_data_escaped_less_than_sign);
}

proof fn lemma_step_script_data_escaped_end_tag_open(v: TokView)
    requires
        view_ok(v),
        v.queue.len() == 0,
        v.state == State::ScriptDataEscapedEndTagOpenState,
    ensures
        step_ok(v, step(v)),
{
    reveal(script_end_tag_open);
}

proof fn lemma_step_script_data_escaped_end_tag_name(v: TokView)
    requires
        view_ok(v),
        v.queue.len() == 0,
        v.state == State::ScriptDataEscapedEndTagNameState,
    ensures
        step_ok(v, step(v)),
{
    reveal(end_tag_name);
}

proof fn lemma_step_script_data_double_escape_start(v: TokView)
    requires
        view_ok(v),
        v.queue.len() == 0,
        v.state == State::ScriptDataDoubleEscapeStartState,
    ensures
        step_ok(v, step(v)),
{
    reveal(double_escape);
}

proof fn lemma_step_script_data_double_escaped(v: TokView)
    requires
        view_ok(v),
        v.queue.len() == 0,
        v.state == State::ScriptDataDoubleEscapedState,
    ensures
        step_ok(v, step(v)),
{
    reveal(step_script_data_double_escaped);
}

proof fn lemma_step_script_data_double_escaped_dash(v: TokView)
    requires
        view_ok(v),
        v.queue.len() == 0,
        v.state == State::ScriptDataDoubleEscapedDashState,
    ensures
        step_ok(v, step(v)),
{
    reveal(step_script_data_double_escaped_dash);
}

proof fn lemma_step_script_data_double_escaped_dash_dash(v: TokView)
    requires
        view_ok(v),
        v.queue.len() == 0,
        v.state == State::ScriptDataDoubleEscapedDashDashState,
    ensures
        step_ok(v, step(v)),
{
    reveal(step_script_data_double_escaped_dash_dash);
}

proof fn lemma_step_script_data_double_escaped_less_than_sign(v: TokView)
    requires
        view_ok(v),
        v.queue.len() == 0,
        v.state == State::ScriptDataDoubleEscapedLessThanSignState,
    ensures
        step_ok(v, step(v)),
{
    reveal(step_script_data_double_escaped_less_than_sign);
}

proof fn lemma_step_script_data_double_escape_end(v: TokView)
    requires
        view_ok(v),
        v.queue.len() == 0,
        v.state == State::ScriptDataDoubleEscapeEndState,
    ensures
        step_ok(v, step(v)),
{
    reveal(double_escape);
}

proof fn lemma_step_before_attribute_name(v: TokView)
    requires
        view_ok(v),
        v.queue.len() == 0,
        v.state == State::BeforeAttributeNameState,
    ensures
        step_ok(v, step(v)),
{
    reveal(step_before_attribute_name);
}

proof fn lemma_step_attribute_name(v: TokView)
    requires
        view_ok(v),
        v.queue.len() == 0,
        v.state == State::AttributeNameState,
    ensures
        step_ok(v, step(v)),
{
    reveal(step_attribute_name);
}

proof fn lemma_step_after_attribute_name(v: TokView)
    requires
        view_ok(v),
        v.queue.len() == 0,
        v.state == State::AfterAttributeNameState,
    ensures
        step_ok(v, step(v)),
{
    reveal(step_after_attribute_name);
}

proof fn lemma_step_before_attribute_value(v: TokView)
    requires
        view_ok(v),
        v.queue.len() == 0,
        v.state == State::BeforeAttributeValueState,
    ensures
        step_ok(v, step(v)),
{
    reveal(step_before_attribute_value);
}

proof fn lemma_step_attribute_value_double_quoted(v: TokView)
    requires
        view_ok(v),
        v.queue.len() == 0,
        v.state == State::AttributeValueDoubleQuotedState,
    ensures
        step_ok(v, step(v)),
{
    reveal(quoted_value);
}

proof fn lemma_step_attribute_value_single_quoted(v: TokView)
    requires
        view_ok(v),
        v.queue.len() == 0,
        v.state == State::AttributeValueSingleQuotedState,
    ensures
        step_ok(v, step(v)),
{
    reveal(quoted_value);
}

proof fn lemma_step_attribute_value_unquoted(v: TokView)
    requires
        view_ok(v),
        v.queue.len() == 0,
        v.state == State::AttributeValueUnquotedState,
    ensures
        step_ok(v, step(v)),
{
    reveal(step_attribute_value_unquoted);
}

proof fn lemma_step_after_attribute_value_quoted(v: TokView)
    requires
        view_ok(v),
        v.queue.len() == 0,
        v.state == State::AfterAttributeValueQuotedState,
    ensures
        step_ok(v, step(v)),
{
    reveal(step_after_attribute_value_quoted);
}

proof fn lemma_step_self_closing_start(v: TokView)
    requires
        view_ok(v),
        v.queue.len() == 0,
        v.state == State::SelfClosingStartState,
    ensures
        step_ok(v, step(v)),
{
    reveal(step_self_closing_start);
}

proof fn lemma_step_bogus_comment(v: TokView)
    requires
        view_ok(v),
        v.queue.len() == 0,
        v.state == State::BogusCommentState,
    ensures
        step_ok(v, step(v)),
{
    reveal(step_bogus_comment);
}

proof fn lemma_step_markup_declaration_open(v: TokView)
    requires
        view_ok(v),
        v.queue.len() == 0,
        v.state == State::MarkupDeclarationOpenState,
    ensures
        step_ok(v, step(v)),
{
    reveal(step_markup_declaration_open);
}

proof fn lemma_step_comment_start(v: TokView)
    requires
        view_ok(v),
        v.queue.len() == 0,
        v.state == State::CommentStartState,
    ensures
        step_ok(v, step(v)),
{
    reveal(step_comment_start);
}

proof fn lemma_step_comment_start_dash(v: TokView)
    requires
        view_ok(v),
        v.queue.len() == 0,
        v.state == State::CommentStartDashState,
    ensures
        step_ok(v, step(v)),
{
    reveal(step_comment_start_dash);
}

proof fn lemma_step_comment(v: TokView)
    requires
        view_ok(v),
        v.queue.len() == 0,
        v.state == State::CommentState,
    ensures
        step_ok(v, step(v)),
{
    reveal(step_comment);
}

proof fn lemma_step_comment_less_than_sign(v: TokView)
    requires
        view_ok(v),
        v.queue.len() == 0,
        v.state == State::CommentLessThanSignState,
    ensures
        step_ok(v, step(v)),
{
    reveal(step_comment_less_than_sign);
}

proof fn lemma_step_comment_less_than_sign_bang(v: TokView)
    requires
        view_ok(v),
        v.queue.len() == 0,
        v.state == State::CommentLessThanSignBangState,
    ensures
        step_ok(v, step(v)),
{
    reveal(comment_bang);
}

proof fn lemma_step_comment_less_than_sign_bang_dash(v: TokView)
    requires
        view_ok(v),
        v.queue.len() == 0,
        v.state == State::CommentLessThanSignBangDashState,
    ensures
        step_ok(v, step(v)),
{
    reveal(comment_bang);
}

proof fn lemma_step_comment_less_than_sign_bang_dash_dash(v: TokView)
    requires
        view_ok(v),
        v.queue.len() == 0,
        v.state == State::CommentLessThanSignBangDashDashState,
    ensures
        step_ok(v, step(v)),
{
    reveal(step_comment_less_than_sign_bang_dash_dash);
}

proof fn lemma_step_comment_end_dash(v: TokView)
    requires
        view_ok(v),
        v.queue.len() == 0,
        v.state == State::CommentEndDashState,
    ensures
        step_ok(v, step(v)),
{
    reveal(step_comment_end_dash);
}

proof fn lemma_step_comment_end(v: TokView)
    requires
        view_ok(v),
        v.queue.len() == 0,
        v.state == State::CommentEndState,
    ensures
        step_ok(v, step(v)),
{
    reveal(step_comment_end);
}

proof fn lemma_step_comment_end_bang(v: TokView)
    requires
        view_ok(v),
        v.queue.len() == 0,
        v.state == State::CommentEndBangState,
    ensures
        step_ok(v, step(v)),
{
    reveal(step_comment_end_bang);
}

proof fn lemma_step_doc_type(v: TokView)
    requires
        view_ok(v),
        v.queue.len() == 0,
        v.state == State::DocTypeState,
    ensures
        step_ok(v, step(v)),
{
    reveal(step_doctype);
}

proof fn lemma_step_before_doc_type_name(v: TokView)
    requires
        view_ok(v),
        v.queue.len() == 0,
        v.state == State::BeforeDocTypeNameState,
    ensures
        step_ok(v, step(v)),
{
    reveal(step_before_doctype_name);
}

proof fn lemma_step_doc_type_name(v: TokView)
    requires
        view_ok(v),
        v.queue.len() == 0,
        v.state == State::DocTypeNameState,
    ensures
        step_ok(v, step(v)),
{
    reveal(step_doctype_name);
}

proof fn lemma_step_after_doc_type_name(v: TokView)
    requires
        view_ok(v),
        v.queue.len() == 0,
        v.state == State::AfterDocTypeNameState,
    ensures
        step_ok(v, step(v)),
{
    reveal(step_after_doctype_name);
}

proof fn lemma_step_after_doc_type_public_keyword(v: TokView)
    requires
        view_ok(v),
        v.queue.len() == 0,
        v.state == State::AfterDocTypePublicKeywordState,
    ensures
        step_ok(v, step(v)),
{
    reveal(after_keyword);
}

proof fn lemma_step_before_doc_type_public_identifier(v: TokView)
    requires
        view_ok(v),
        v.queue.len() == 0,
        v.state == State::BeforeDocTypePublicIdentifierState,
    ensures
        step_ok(v, step(v)),
{
    reveal(before_identifier);
}

proof fn lemma_step_doc_type_public_identifier_double_quoted(v: TokView)
    requires
        view_ok(v),
        v.queue.len() == 0,
        v.state == State::DocTypePublicIdentifierDoubleQuotedState,
    ensures
        step_ok(v, step(v)),
{
    reveal(quoted_identifier);
}

proof fn lemma_step_doc_type_public_identifier_single_quoted(v: TokView)
    requires
        view_ok(v),
        v.queue.len() == 0,
        v.state == State::DocTypePublicIdentifierSingleQuotedState,
    ensures
        step_ok(v, step(v)),
{
    reveal(quoted_identifier);
}

proof fn lemma_step_after_doctype_public_identifier(v: TokView)
    requires
        view_ok(v),
        v.queue.len() == 0,
        v.state == State::AfterDoctypePublicIdentifierState,
    ensures
        step_ok(v, step(v)),
{
    reveal(step_after_doctype_public_identifier);
}

proof fn lemma_step_between_doc_type_public_and_system_identifiers(v: TokView)
    requires
        view_ok(v),
        v.queue.len() == 0,
        v.state == State::BetweenDocTypePublicAndSystemIdentifiersState,
    ensures
        step_ok(v, step(v)),
{
    reveal(step_between_doctype_identifiers);
}

proof fn lemma_step_after_doc_type_system_keyword(v: TokView)
    requires
        view_ok(v),
        v.queue.len() == 0,
        v.state == State::AfterDocTypeSystemKeywordState,
    ensures
        step_ok(v, step(v)),
{
    reveal(after_keyword);
}

proof fn lemma_step_before_doc_type_system_identifier(v: TokView)
    requires
        view_ok(v),
        v.queue.len() == 0,
        v.state == State::BeforeDocTypeSystemIdentifierState,
    ensures
        step_ok(v, step(v)),
{
    reveal(before_identifier);
}

proof fn lemma_step_doc_type_system_identifier_double_quoted(v: TokView)
    requires
        view_ok(v),
        v.queue.len() == 0,
        v.state == State::DocTypeSystemIdentifierDoubleQuotedState,
    ensures
        step_ok(v, step(v)),
{
    reveal(quoted_identifier);
}

proof fn lemma_step_doc_type_system_identifier_single_quoted(v: TokView)
    requires
        view_ok(v),
        v.queue.len() == 0,
        v.state == State::DocTypeSystemIdentifierSingleQuotedState,
    ensures
        step_ok(v, step(v)),
{
    reveal(quoted_identifier);
}

proof fn lemma_step_after_doc_type_system_identifier(v: TokView)
    requires
        view_ok(v),
        v.queue.len() == 0,
        v.state == State::AfterDocTypeSystemIdentifierState,
    ensures
        step_ok(v, step(v)),
{
    reveal(step_after_doctype_system_identifier);
}

proof fn lemma_step_bogus_doc_type(v: TokView)
    requires
        view_ok(v),
        v.queue.len() == 0,
        v.state == State::BogusDocTypeState,
    ensures
        step_ok(v, step(v)),
{
    reveal(step_bogus_doctype);
}

proof fn lemma_step_c_data_section(v: TokView)
    requires
        view_ok(v),
        v.queue.len() == 0,
        v.state == State::CDataSectionState,
    ensures
        step_ok(v, step(v)),
{
    reveal(step_cdata_section);
}

proof fn lemma_step_c_data_section_bracket(v: TokView)
    requires
        view_ok(v),
        v.queue.len() == 0,
        v.state == State::CDataSectionBracketState,
    ensures
        step_ok(v, step(v)),
{
    reveal(step_cdata_section_bracket);
}

proof fn lemma_step_c_data_section_end(v: TokView)
    requires
        view_ok(v),
        v.queue.len() == 0,
        v.state == State::CDataSectionEndState,
    ensures
        step_ok(v, step(v)),
{
    reveal(step_cdata_section_end);
}

/// One step keeps the tokenizer's invariant, and a step that emits no token
/// makes progress in the stream or moves to a lower state.
pub proof fn lemma_step(v: TokView)
    requires
        view_ok(v),
        v.queue.len() == 0,
    ensures
        step_ok(v, step(v)),
{
    match v.state {
        State::DataState => lemma_step_data(v),
        State::CharacterReferenceInDataState => lemma_step_character_reference_in_data(v),
        State::RcDataState => lemma_step_rc_data(v),
        State::CharacterReferenceInRcDataState => lemma_step_character_reference_in_rc_data(v),
        State::RawTextState => lemma_step_raw_text(v),
        State::ScriptDataState => lemma_step_script_data(v),
        State::PlaintextState => lemma_step_plaintext(v),
        State::TagOpenState => lemma_step_tag_open(v),
        State::EndTagOpenState => lemma_step_end_tag_open(v),
        State::TagNameState => lemma_step_tag_name(v),
        State::RcDataLessThanSignState => lemma_step_rc_data_less_than_sign(v),
        State::RcDataEndTagOpenState => lemma_step_rc_data_end_tag_open(v),
        State::RcDataEndTagNameState => lemma_step_rc_data_end_tag_name(v),
        State::RawTextLessThanSignState => lemma_step_raw_text_less_than_sign(v),
        State::RawTextEndTagOpenState => lemma_step_raw_text_end_tag_open(v),
        State::RawTextEndTagNameState => lemma_step_raw_text_end_tag_name(v),
        State::ScriptDataLessThenSignState => lemma_step_script_data_less_then_sign(v),
        State::ScriptDataEndTagOpenState => lemma_step_script_data_end_tag_open(v),
        State::ScriptDataEndTagNameState => lemma_step_script_data_end_tag_name(v),
        State::ScriptDataEscapeStartState => lemma_step_script_data_escape_start(v),
        State::ScriptDataEscapeStartDashState => lemma_step_script_data_escape_start_dash(v),
        State::ScriptDataEscapedState => lemma_step_script_data_escaped(v),
        State::ScriptDataEscapedDashState => lemma_step_script_data_escaped_dash(v),
        State::ScriptDataEscapedDashDashState => lemma_step_script_data_escaped_dash_dash(v),
        State::ScriptDataEscapedLessThanSignState => lemma_step_script_data_escaped_less_than_sign(v),
        State::ScriptDataEscapedEndTagOpenState => lemma_step_script_data_escaped_end_tag_open(v),
        State::ScriptDataEscapedEndTagNameState => lemma_step_script_data_escaped_end_tag_name(v),
        State::ScriptDataDoubleEscapeStartState => lemma_step_script_data_double_escape_start(v),
        State::ScriptDataDoubleEscapedState => lemma_step_script_data_double_escaped(v),
        State::ScriptDataDoubleEscapedDashState => lemma_step_script_data_double_escaped_dash(v),
        State::ScriptDataDoubleEscapedDashDashState => lemma_step_script_data_double_escaped_dash_dash(v),
        State::ScriptDataDoubleEscapedLessThanSignState => lemma_step_script_data_double_escaped_less_than_sign(v),
        State::ScriptDataDoubleEscapeEndState => lemma_step_script_data_double_escape_end(v),
        State::BeforeAttributeNameState => lemma_step_before_attribute_name(v),
        State::AttributeNameState => lemma_step_attribute_name(v),
        State::AfterAttributeNameState => lemma_step_after_attribute_name(v),
        State::BeforeAttributeValueState => lemma_step_before_attribute_value(v),
        State::AttributeValueDoubleQuotedState => lemma_step_attribute_value_double_quoted(v),
        State::AttributeValueSingleQuotedState => lemma_step_attribute_value_single_quoted(v),
        State::AttributeValueUnquotedState => lemma_step_attribute_value_unquoted(v),
        State::CharacterReferenceInAttributeValueState => {},
        State::AfterAttributeValueQuotedState => lemma_step_after_attribute_value_quoted(v),
        State::SelfClosingStartState => lemma_step_self_closing_start(v),
        State::BogusCommentState => lemma_step_bogus_comment(v),
        State::MarkupDeclarationOpenState => lemma_step_markup_declaration_open(v),
        State::CommentStartState => lemma_step_comment_start(v),
        State::CommentStartDashState => lemma_step_comment_start_dash(v),
        State::CommentState => lemma_step_comment(v),
        State::CommentLessThanSignState => lemma_step_comment_less_than_sign(v),
        State::CommentLessThanSignBangState => lemma_step_comment_less_than_sign_bang(v),
        State::CommentLessThanSignBangDashState => lemma_step_comment_less_than_sign_bang_dash(v),
        State::CommentLessThanSignBangDashDashState => lemma_step_comment_less_than_sign_bang_dash_dash(v),
        State::CommentEndDashState => lemma_step_comment_end_dash(v),
        State::CommentEndState => lemma_step_comment_end(v),
        State::CommentEndBangState => lemma_step_comment_end_bang(v),
        State::DocTypeState => lemma_step_doc_type(v),
        State::BeforeDocTypeNameState => lemma_step_before_doc_type_name(v),
        State::DocTypeNameState => lemma_step_doc_type_name(v),
        State::AfterDocTypeNameState => lemma_step_after_doc_type_name(v),
        State::AfterDocTypePublicKeywordState => lemma_step_after_doc_type_public_keyword(v),
        State::BeforeDocTypePublicIdentifierState => lemma_step_before_doc_type_public_identifier(v),
        State::DocTypePublicIdentifierDoubleQuotedState => lemma_step_doc_type_public_identifier_double_quoted(v),
        State::DocTypePublicIdentifierSingleQuotedState => lemma_step_doc_type_public_identifier_single_quoted(v),
        State::AfterDoctypePublicIdentifierState => lemma_step_after_doctype_public_identifier(v),
        State::BetweenDocTypePublicAndSystemIdentifiersState => lemma_step_between_doc_type_public_and_system_identifiers(v),
        State::AfterDocTypeSystemKeywordState => lemma_step_after_doc_type_system_keyword(v),
        State::BeforeDocTypeSystemIdentifierState => lemma_step_before_doc_type_system_identifier(v),
        State::DocTypeSystemIdentifierDoubleQuotedState => lemma_step_doc_type_system_identifier_double_quoted(v),
        State::DocTypeSystemIdentifierSingleQuotedState => lemma_step_doc_type_system_identifier_single_quoted(v),
        State::AfterDocTypeSystemIdentifierState => lemma_step_after_doc_type_system_identifier(v),
        State::BogusDocTypeState => lemma_step_bogus_doc_type(v),
        State::CDataSectionState => lemma_step_c_data_section(v),
        State::CDataSectionBracketState => lemma_step_c_data_section_bracket(v),
        State::CDataSectionEndState => lemma_step_c_data_section_end(v),
    }
}

#[via_fn]
proof fn run_decreases(v: TokView) {
    if view_ok(v) && v.queue.len() == 0 {
        lemma_step(v);
    }
}

/// The tokenizer run from `v` until a token has been emitted.
pub open spec fn run(v: TokView) -> TokView
    decreases progress(v), rank(v.state),
    when view_ok(v)
    via run_decreases
{
    if v.queue.len() > 0 {
        v
    } else {
        let w = step(v);
        if w.queue.len() > 0 {
            w
        } else {
            run(w)
        }
    }
}

/// A run ends with a token in the queue, and keeps the invariant.
pub proof fn lemma_run(v: TokView)
    requires
        view_ok(v),
    ensures
        view_ok(run(v)),
        run(v).queue.len() > 0,
    decreases progress(v), rank(v.state),
{
    if v.queue.len() == 0 {
        lemma_step(v);
        let w = step(v);
        if w.queue.len() == 0 {
            lemma_run(w);
        }
    }
}


/// Whether the elements from `start` on are all characters other than `&`,
/// `<` and NUL: text that the data state takes over as it is.
pub open spec fn plain_from(elems: Seq<Element>, start: int) -> bool {
    forall|i: int|
        start <= i < elems.len() ==> (#[trigger] elems[i] matches Element::Utf8(c) && c != '&'
            && c != '<' && c != '\0')
}

/// The tokens that end the input: the pending text as one text token (when
/// there is any), then EOF.
pub open spec fn text_then_eof(text: Seq<char>) -> Seq<SpecToken> {
    if text.len() > 0 {
        seq![SpecToken::Text { value: text }, SpecToken::Eof]
    } else {
        seq![SpecToken::Eof]
    }
}

proof fn lemma_elements_text_prepend(elems: Seq<Element>, a: int, b: int)
    requires
        0 <= a < b <= elems.len(),
    ensures
        elements_text(elems, a, b) == element_text(elems[a]) + elements_text(elems, a + 1, b),
    decreases b - a,
{
    if b == a + 1 {
        assert(elements_text(elems, a, a) =~= Seq::<char>::empty());
        assert(elements_text(elems, a, a + 1) =~= element_text(elems[a]));
        assert(elements_text(elems, a + 1, b) =~= Seq::<char>::empty());
        assert(element_text(elems[a]) + Seq::<char>::empty() =~= element_text(elems[a]));
    } else {
        lemma_elements_text_prepend(elems, a, b - 1);
        assert(elements_text(elems, a, b) =~= element_text(elems[a]) + elements_text(
            elems,
            a + 1,
            b,
        ));
    }
}

/// From the data state, plain text up to the end of the input (no `&`, `<`
/// or NUL) comes out as one text token, holding what was pending and the
/// rest of the input, followed by EOF; the tokenizer stays in the data state.
pub proof fn lemma_plain_text(v: TokView)
    requires
        view_ok(v),
        v.queue.len() == 0,
        v.state == State::DataState,
        plain_from(v.elems, v.offset),
    ensures
        run(v).queue == text_then_eof(
            v.consumed + elements_text(v.elems, v.offset, v.elems.len() as int),
        ),
        run(v).state == State::DataState,
        run(v).offset == v.elems.len(),
        run(v).eof_read,
        run(v).consumed.len() == 0,
    decreases progress(v),
{
    reveal(step_data);
    let len = v.elems.len() as int;
    if !v.eof_read && v.offset < len {
        let w = step(v);
        assert(v.elems[v.offset] matches Element::Utf8(c) && c != '&' && c != '<' && c != '\0');
        lemma_elements_text_prepend(v.elems, v.offset, len);
        lemma_step(v);
        lemma_plain_text(w);
        assert(w.consumed + elements_text(w.elems, w.offset, len) =~= v.consumed + elements_text(
            v.elems,
            v.offset,
            len,
        ));
    } else {
        assert(elements_text(v.elems, v.offset, len) =~= Seq::<char>::empty());
        assert(v.consumed + elements_text(v.elems, v.offset, len) =~= v.consumed);
    }
}

/// Once the data state has reached the end of the input with nothing
/// pending, every run gives EOF and nothing else, and leaves the tokenizer
/// where it was.
pub proof fn lemma_eof_repeats(v: TokView)
    requires
        view_ok(v),
        v.queue.len() == 0,
        v.state == State::DataState,
        v.offset == v.elems.len(),
        v.consumed.len() == 0,
    ensures
        run(v).queue == seq![SpecToken::Eof],
        run(v).state == State::DataState,
        run(v).offset == v.offset,
        run(v).consumed.len() == 0,
{
    lemma_plain_text(v);
    assert(v.consumed + elements_text(v.elems, v.offset, v.elems.len() as int) =~= Seq::<char>::empty());
}

// ---------------------------------------------------------------------------
// Comments
// ---------------------------------------------------------------------------

/// Whether the elements from `start` on begin with the characters of `t`.
pub open spec fn chars_from(elems: Seq<Element>, start: int, t: Seq<char>) -> bool {
    &&& 0 <= start
    &&& start + t.len() <= elems.len()
    &&& forall|i: int| 0 <= i < t.len() ==> #[trigger] elems[start + i] == Element::Utf8(t[i])
}

/// Text that a comment keeps as it is: no `<`, no NUL, and every `-` is
/// followed by a character other than `-`.
pub open spec fn plain_comment_text(s: Seq<char>) -> bool {
    forall|i: int|
        0 <= i < s.len() ==> #[trigger] s[i] != '<' && s[i] != '\0' && (s[i] == '-' ==> i + 1
            < s.len() && s[i + 1] != '-')
}

/// In the comment state, plain comment text followed by `-->` is added to
/// the comment being built, character for character, single dashes
/// included; then the comment is emitted and the tokenizer is back in the
/// data state, just after the `>`.
pub proof fn lemma_comment_body(v: TokView, x: Seq<char>, s: Seq<char>)
    requires
        view_ok(v),
        v.queue.len() == 0,
        v.consumed.len() == 0,
        v.state == State::CommentState,
        v.current == Some(SpecToken::Comment { value: x }),
        !v.eof_read,
        chars_from(v.elems, v.offset, s + "-->"@),
        plain_comment_text(s),
    ensures
        run(v).queue == seq![SpecToken::Comment { value: x + s }],
        run(v).state == State::DataState,
        run(v).offset == v.offset + s.len() + 3,
    decreases s.len(),
{
    reveal(step_comment);
    reveal(step_comment_end_dash);
    reveal(step_comment_end);
    reveal_strlit("-->");
    let t = s + "-->"@;
    let off = v.offset;
    assert(v.elems[off + 0] == Element::Utf8(t[0]));
    lemma_step(v);
    let w1 = step(v);
    if s.len() == 0 {
        assert(t[0] == '-' && t[1] == '-' && t[2] == '>');
        assert(v.elems[off + 1] == Element::Utf8(t[1]));
        assert(v.elems[off + 2] == Element::Utf8(t[2]));
        assert(w1.state == State::CommentEndDashState && w1.offset == off + 1 && w1.queue.len() == 0);
        lemma_step(w1);
        let w2 = step(w1);
        assert(w2.state == State::CommentEndState && w2.offset == off + 2 && w2.queue.len() == 0);
        assert(w2.current == v.current);
        lemma_step(w2);
        let w3 = step(w2);
        assert(x + s =~= x);
        assert(w3.queue =~= seq![SpecToken::Comment { value: x + s }]);
        assert(run(w2) == w3);
        assert(run(w1) == run(w2));
        assert(run(v) == run(w1));
    } else if s[0] == '-' {
        assert(1 < s.len() && s[1] != '-');
        assert(t[1] == s[1]);
        assert(v.elems[off + 1] == Element::Utf8(t[1]));
        assert(w1.state == State::CommentEndDashState && w1.offset == off + 1 && w1.queue.len() == 0);
        lemma_step(w1);
        let w2 = step(w1);
        assert(w2.state == State::CommentState && w2.offset == off + 1 && w2.queue.len() == 0);
        assert(w2.current == Some(SpecToken::Comment { value: x.push('-') }));
        let s2 = s.drop_first();
        assert forall|i: int| 0 <= i < s2.len() implies #[trigger] s2[i] != '<' && s2[i] != '\0' && (s2[i]
            == '-' ==> i + 1 < s2.len() && s2[i + 1] != '-') by {
            assert(s2[i] == s[i + 1]);
            assert(s[i + 1] != '<' && s[i + 1] != '\0' && (s[i + 1] == '-' ==> i + 1 + 1 < s.len() && s[i + 1 + 1] != '-'));
        }
        assert forall|i: int| 0 <= i < (s2 + "-->"@).len() implies #[trigger] w2.elems[w2.offset + i]
            == Element::Utf8((s2 + "-->"@)[i]) by {
            assert((s2 + "-->"@)[i] == t[i + 1]);
            assert(v.elems[off + (i + 1)] == Element::Utf8(t[i + 1]));
        }
        lemma_comment_body(w2, x.push('-'), s2);
        assert(x.push('-') + s2 =~= x + s);
        assert(run(w1) == run(w2));
        assert(run(v) == run(w1));
    } else {
        assert(s[0] != '<' && s[0] != '\0');
        assert(t[0] == s[0]);
        assert(w1.state == State::CommentState && w1.offset == off + 1 && w1.queue.len() == 0);
        assert(w1.current == Some(SpecToken::Comment { value: x.push(s[0]) }));
        let s2 = s.drop_first();
        assert forall|i: int| 0 <= i < s2.len() implies #[trigger] s2[i] != '<' && s2[i] != '\0' && (s2[i]
            == '-' ==> i + 1 < s2.len() && s2[i + 1] != '-') by {
            assert(s2[i] == s[i + 1]);
            assert(s[i + 1] != '<' && s[i + 1] != '\0' && (s[i + 1] == '-' ==> i + 1 + 1 < s.len() && s[i + 1 + 1] != '-'));
        }
        assert forall|i: int| 0 <= i < (s2 + "-->"@).len() implies #[trigger] w1.elems[w1.offset + i]
            == Element::Utf8((s2 + "-->"@)[i]) by {
            assert((s2 + "-->"@)[i] == t[i + 1]);
            assert(v.elems[off + (i + 1)] == Element::Utf8(t[i + 1]));
        }
        lemma_comment_body(w1, x.push(s[0]), s2);
        assert(x.push(s[0]) + s2 =~= x + s);
        assert(run(v) == run(w1));
    }
}

/// From the data state with nothing pending, `<!--` opens an empty comment:
/// three steps later the tokenizer is in the comment start state just after
/// it, with nothing emitted.
proof fn lemma_comment_open(v: TokView)
    requires
        view_ok(v),
        v.queue.len() == 0,
        v.consumed.len() == 0,
        v.state == State::DataState,
        !v.eof_read,
        chars_from(v.elems, v.offset, "<!--"@),
    ensures
        ({
            let w = step(step(step(v)));
            &&& view_ok(w)
            &&& w.state == State::CommentStartState
            &&& w.offset == v.offset + 4
            &&& w.elems == v.elems
            &&& !w.eof_read
            &&& w.queue.len() == 0
            &&& w.consumed.len() == 0
            &&& w.current == Some(SpecToken::Comment { value: Seq::<char>::empty() })
            &&& run(v) == run(w)
        }),
{
    reveal(step_data);
    reveal(step_tag_open);
    reveal(step_markup_declaration_open);
    reveal_strlit("<!--");
    reveal_strlit("--");
    let t = "<!--"@;
    let off = v.offset;
    assert(v.elems[off + 0] == Element::Utf8(t[0]));
    assert(v.elems[off + 1] == Element::Utf8(t[1]));
    assert(v.elems[off + 2] == Element::Utf8(t[2]));
    assert(v.elems[off + 3] == Element::Utf8(t[3]));
    lemma_step(v);
    let w1 = step(v);
    assert(w1.state == State::TagOpenState && w1.offset == off + 1 && w1.queue.len() == 0);
    lemma_step(w1);
    let w2 = step(w1);
    assert(w2.state == State::MarkupDeclarationOpenState && w2.offset == off + 2 && w2.queue.len() == 0);
    assert(look_ahead_text(w2, 2) =~= "--"@) by {
        lemma_elements_text_prepend(w2.elems, off + 2, off + 4);
        lemma_elements_text_prepend(w2.elems, off + 3, off + 4);
        assert(elements_text(w2.elems, off + 4, off + 4) =~= Seq::<char>::empty());
    }
    lemma_step(w2);
    let w3 = step(w2);
    assert(w3.state == State::CommentStartState && w3.offset == off + 4);
    assert(run(w1) == run(w2));
    assert(run(v) == run(w1));
}

/// From the data state with nothing pending, `<!--`, then comment text that
/// neither starts with `-` or `>` nor holds `<`, NUL or `--` nor ends with
/// `-`, then `-->`, gives one token: the comment whose value is exactly that
/// text. The tokenizer is back in the data state just after the `>`.
pub proof fn lemma_comment_token(v: TokView, s: Seq<char>)
    requires
        view_ok(v),
        v.queue.len() == 0,
        v.consumed.len() == 0,
        v.state == State::DataState,
        !v.eof_read,
        chars_from(v.elems, v.offset, "<!--"@ + s + "-->"@),
        plain_comment_text(s),
        s.len() > 0 ==> s[0] != '-' && s[0] != '>',
    ensures
        run(v).queue == seq![SpecToken::Comment { value: s }],
        run(v).state == State::DataState,
        run(v).offset == v.offset + s.len() + 7,
{
    reveal_strlit("<!--");
    reveal_strlit("-->");
    let t = "<!--"@ + s + "-->"@;
    let off = v.offset;
    assert forall|i: int| 0 <= i < "<!--"@.len() implies #[trigger] v.elems[off + i] == Element::Utf8(("<!--"@)[i]) by {
        assert(t[i] == ("<!--"@)[i]);
    }
    lemma_comment_open(v);
    let w3 = step(step(step(v)));
    assert(v.elems[off + 4] == Element::Utf8(t[4]));
    lemma_step(w3);
    let w4 = step(w3);
    if s.len() == 0 {
        assert(s =~= Seq::<char>::empty());
        assert(t =~= "<!--"@ + "-->"@);
        lemma_empty_comment_end(w3, t, off);
    } else {
        reveal(step_comment_start);
        assert(t[4] == s[0]);
        assert(w4.state == State::CommentState && w4.offset == off + 4 && w4.queue.len() == 0);
        assert(w4.elems == v.elems);
        assert forall|i: int| 0 <= i < (s + "-->"@).len() implies #[trigger] w4.elems[w4.offset + i]
            == Element::Utf8((s + "-->"@)[i]) by {
            assert((s + "-->"@)[i] == t[i + 4]);
            assert(v.elems[off + (i + 4)] == Element::Utf8(t[i + 4]));
        }
        assert(w4.current == w3.current);
        lemma_comment_body(w4, Seq::empty(), s);
        assert(Seq::<char>::empty() + s =~= s);
        assert(run(w3) == run(w4));
    }
}

/// `-->` right after `<!--` closes an empty comment.
proof fn lemma_empty_comment_end(w3: TokView, t: Seq<char>, off: int)
    requires
        view_ok(w3),
        w3.state == State::CommentStartState,
        w3.offset == off + 4,
        !w3.eof_read,
        w3.queue.len() == 0,
        w3.consumed.len() == 0,
        w3.current == Some(SpecToken::Comment { value: Seq::<char>::empty() }),
        t == "<!--"@ + "-->"@,
        chars_from(w3.elems, off, t),
    ensures
        run(w3).queue == seq![SpecToken::Comment { value: Seq::<char>::empty() }],
        run(w3).state == State::DataState,
        run(w3).offset == off + 7,
{
    reveal(step_comment_start);
    reveal(step_comment_start_dash);
    reveal(step_comment_end);
    reveal_strlit("<!--");
    reveal_strlit("-->");
    assert(t[4] == '-' && t[5] == '-' && t[6] == '>');
    assert(w3.elems[off + 4] == Element::Utf8(t[4]));
    assert(w3.elems[off + 5] == Element::Utf8(t[5]));
    assert(w3.elems[off + 6] == Element::Utf8(t[6]));
    lemma_step(w3);
    let w4 = step(w3);
    assert(w4.state == State::CommentStartDashState && w4.offset == off + 5 && w4.queue.len() == 0);
    lemma_step(w4);
    let w5 = step(w4);
    assert(w5.state == State::CommentEndState && w5.offset == off + 6 && w5.queue.len() == 0);
    lemma_step(w5);
    let w6 = step(w5);
    assert(w6.queue =~= seq![SpecToken::Comment { value: Seq::<char>::empty() }]);
    assert(run(w5) == w6);
    assert(run(w4) == run(w5));
    assert(run(w3) == run(w4));
}

// ---------------------------------------------------------------------------
// Doctypes
// ---------------------------------------------------------------------------

/// The elements from `start + k` on begin with any piece of `t` from `k` on.
proof fn lemma_chars_from_sub(elems: Seq<Element>, start: int, t: Seq<char>, k: int, u: Seq<char>)
    requires
        chars_from(elems, start, t),
        0 <= k,
        k + u.len() <= t.len(),
        u == t.subrange(k, k + u.len()),
    ensures
        chars_from(elems, start + k, u),
{
    assert forall|i: int| 0 <= i < u.len() implies #[trigger] elems[start + k + i] == Element::Utf8(u[i]) by {
        assert(u[i] == t[k + i]);
        assert(elems[start + (k + i)] == Element::Utf8(t[k + i]));
    }
}

/// The text of elements that are the characters of `t` is `t`.
proof fn lemma_chars_text(elems: Seq<Element>, start: int, t: Seq<char>)
    requires
        chars_from(elems, start, t),
    ensures
        elements_text(elems, start, start + t.len()) == t,
    decreases t.len(),
{
    if t.len() == 0 {
        assert(elements_text(elems, start, start) =~= t);
    } else {
        let t2 = t.drop_last();
        lemma_chars_from_sub(elems, start, t, 0, t2);
        lemma_chars_text(elems, start, t2);
        assert(elems[start + (t.len() - 1)] == Element::Utf8(t[t.len() - 1]));
        assert(elements_text(elems, start, start + t.len()) =~= t2 + seq![t[t.len() - 1]]);
        assert(t2 + seq![t[t.len() - 1]] =~= t);
    }
}

/// Text that a double-quoted doctype identifier keeps as it is: no `"`, no
/// `>` and no NUL.
pub open spec fn plain_identifier_text(s: Seq<char>) -> bool {
    forall|i: int| 0 <= i < s.len() ==> #[trigger] s[i] != '"' && s[i] != '>' && s[i] != '\0'
}

/// In the double-quoted system identifier state, plain identifier text
/// followed by `">` is added to the system identifier, character for
/// character; then the doctype is emitted, its other fields as they were,
/// and the tokenizer is back in the data state just after the `>`.
pub proof fn lemma_system_identifier_body(
    v: TokView,
    name: Option<Seq<char>>,
    force_quirks: bool,
    pub_identifier: Option<Seq<char>>,
    x: Seq<char>,
    s: Seq<char>,
)
    requires
        view_ok(v),
        v.queue.len() == 0,
        v.consumed.len() == 0,
        v.state == State::DocTypeSystemIdentifierDoubleQuotedState,
        v.current == Some(
            SpecToken::DocType { name, force_quirks, pub_identifier, sys_identifier: Some(x) },
        ),
        !v.eof_read,
        chars_from(v.elems, v.offset, s + "\">"@),
        plain_identifier_text(s),
    ensures
        run(v).queue == seq![
            SpecToken::DocType { name, force_quirks, pub_identifier, sys_identifier: Some(x + s) },
        ],
        run(v).state == State::DataState,
        run(v).offset == v.offset + s.len() + 2,
    decreases s.len(),
{
    reveal(quoted_identifier);
    reveal(step_after_doctype_system_identifier);
    reveal_strlit("\">");
    let t = s + "\">"@;
    let off = v.offset;
    assert(v.elems[off + 0] == Element::Utf8(t[0]));
    lemma_step(v);
    let w1 = step(v);
    if s.len() == 0 {
        assert(t[0] == '"' && t[1] == '>');
        assert(v.elems[off + 1] == Element::Utf8(t[1]));
        assert(w1.state == State::AfterDocTypeSystemIdentifierState && w1.offset == off + 1);
        assert(w1.queue.len() == 0 && w1.current == v.current);
        lemma_step(w1);
        let w2 = step(w1);
        assert(x + s =~= x);
        assert(w2.queue =~= seq![
            SpecToken::DocType { name, force_quirks, pub_identifier, sys_identifier: Some(x + s) },
        ]);
        assert(run(w1) == w2);
        assert(run(v) == run(w1));
    } else {
        assert(s[0] != '"' && s[0] != '>' && s[0] != '\0');
        assert(t[0] == s[0]);
        assert(w1.state == State::DocTypeSystemIdentifierDoubleQuotedState && w1.offset == off + 1);
        assert(w1.queue.len() == 0);
        assert(w1.current == Some(
            SpecToken::DocType { name, force_quirks, pub_identifier, sys_identifier: Some(x.push(s[0])) },
        ));
        let s2 = s.drop_first();
        assert forall|i: int| 0 <= i < s2.len() implies #[trigger] s2[i] != '"' && s2[i] != '>' && s2[i] != '\0' by {
            assert(s2[i] == s[i + 1]);
        }
        assert(s2 + "\">"@ =~= t.subrange(1, t.len() as int));
        lemma_chars_from_sub(v.elems, off, t, 1, s2 + "\">"@);
        lemma_system_identifier_body(w1, name, force_quirks, pub_identifier, x.push(s[0]), s2);
        assert(x.push(s[0]) + s2 =~= x + s);
        assert(run(v) == run(w1));
    }
}

/// After the doctype name, a keyword that upper-cases to `SYSTEM`, a space,
/// `"`, plain identifier text and `">` give the doctype with that name, no
/// public identifier, and the text as its system identifier.
proof fn lemma_system_keyword_rest(v: TokView, nm: Seq<char>, kw: Seq<char>, s: Seq<char>)
    requires
        view_ok(v),
        v.queue.len() == 0,
        v.consumed.len() == 0,
        v.state == State::AfterDocTypeNameState,
        v.current == Some(
            SpecToken::DocType { name: Some(nm), force_quirks: false, pub_identifier: None, sys_identifier: None },
        ),
        !v.eof_read,
        chars_from(v.elems, v.offset, kw + " \""@ + s + "\">"@),
        kw.len() == 6,
        unicode_uppercase(kw) == "SYSTEM"@,
        !is_ws(kw[0]),
        kw[0] != '>',
        plain_identifier_text(s),
    ensures
        run(v).queue == seq![
            SpecToken::DocType { name: Some(nm), force_quirks: false, pub_identifier: None, sys_identifier: Some(s) },
        ],
        run(v).state == State::DataState,
{
    reveal(step_after_doctype_name);
    reveal(after_keyword);
    reveal(before_identifier);
    reveal_strlit(" \"");
    reveal_strlit("\">");
    reveal_strlit("SYSTEM");
    reveal_strlit("PUBLIC");
    let t = kw + " \""@ + s + "\">"@;
    let off = v.offset;
    assert(v.elems[off + 0] == Element::Utf8(t[0]));
    assert(t[0] == kw[0]);
    assert(kw =~= t.subrange(0, 6));
    lemma_chars_from_sub(v.elems, off, t, 0, kw);
    lemma_chars_text(v.elems, off, kw);
    assert("SYSTEM"@ != "PUBLIC"@) by {
        assert("SYSTEM"@[0] != "PUBLIC"@[0]);
    }
    lemma_step(v);
    let w1 = step(v);
    assert(look_ahead_text(unread(read(v).0), 6) == kw);
    assert(w1.state == State::AfterDocTypeSystemKeywordState && w1.offset == off + 6 && !w1.eof_read);
    assert(w1.queue.len() == 0 && w1.current == v.current && w1.elems == v.elems);
    assert(t[6] == ' ' && t[7] == '"');
    assert(v.elems[off + 6] == Element::Utf8(t[6]));
    assert(v.elems[off + 7] == Element::Utf8(t[7]));
    lemma_step(w1);
    let w2 = step(w1);
    assert(w2.state == State::BeforeDocTypeSystemIdentifierState && w2.offset == off + 7);
    assert(w2.queue.len() == 0 && w2.current == v.current);
    lemma_step(w2);
    let w3 = step(w2);
    assert(w3.state == State::DocTypeSystemIdentifierDoubleQuotedState && w3.offset == off + 8);
    assert(w3.queue.len() == 0);
    assert(w3.current == Some(
        SpecToken::DocType {
            name: Some(nm),
            force_quirks: false,
            pub_identifier: None,
            sys_identifier: Some(Seq::<char>::empty()),
        },
    ));
    assert(s + "\">"@ =~= t.subrange(8, t.len() as int));
    lemma_chars_from_sub(v.elems, off, t, 8, s + "\">"@);
    lemma_system_identifier_body(w3, Some(nm), false, None, Seq::empty(), s);
    assert(Seq::<char>::empty() + s =~= s);
    assert(run(w2) == run(w3));
    assert(run(w1) == run(w2));
    assert(run(v) == run(w1));
}

/// Characters that the doctype name state adds to the name as they are:
/// none is white space, `>`, NUL or an ASCII upper case letter.
pub open spec fn plain_name_text(n: Seq<char>) -> bool {
    forall|i: int|
        0 <= i < n.len() ==> !is_ws(#[trigger] n[i]) && n[i] != '>' && n[i] != '\0' && !is_ascii_upper(n[i])
}

/// In the doctype name state, the rest of the name, a space and a system
/// identifier as above give the doctype with the whole name.
proof fn lemma_doctype_name_rest(v: TokView, nm: Seq<char>, n: Seq<char>, kw: Seq<char>, s: Seq<char>)
    requires
        view_ok(v),
        v.queue.len() == 0,
        v.consumed.len() == 0,
        v.state == State::DocTypeNameState,
        v.current == Some(
            SpecToken::DocType { name: Some(nm), force_quirks: false, pub_identifier: None, sys_identifier: None },
        ),
        !v.eof_read,
        chars_from(v.elems, v.offset, n + " "@ + kw + " \""@ + s + "\">"@),
        plain_name_text(n),
        kw.len() == 6,
        unicode_uppercase(kw) == "SYSTEM"@,
        !is_ws(kw[0]),
        kw[0] != '>',
        plain_identifier_text(s),
    ensures
        run(v).queue == seq![
            SpecToken::DocType {
                name: Some(nm + n),
                force_quirks: false,
                pub_identifier: None,
                sys_identifier: Some(s),
            },
        ],
        run(v).state == State::DataState,
    decreases n.len(),
{
    reveal(step_doctype_name);
    reveal_strlit(" ");
    let t = n + " "@ + kw + " \""@ + s + "\">"@;
    let rest = kw + " \""@ + s + "\">"@;
    let off = v.offset;
    assert(v.elems[off + 0] == Element::Utf8(t[0]));
    lemma_step(v);
    let w1 = step(v);
    if n.len() == 0 {
        assert(t[0] == ' ');
        assert(w1.state == State::AfterDocTypeNameState && w1.offset == off + 1);
        assert(w1.queue.len() == 0 && w1.current == v.current);
        assert(rest =~= t.subrange(1, t.len() as int));
        lemma_chars_from_sub(v.elems, off, t, 1, rest);
        lemma_system_keyword_rest(w1, nm, kw, s);
        assert(nm + n =~= nm);
    } else {
        assert(!is_ws(n[0]) && n[0] != '>' && n[0] != '\0' && !is_ascii_upper(n[0]));
        assert(t[0] == n[0]);
        assert(w1.state == State::DocTypeNameState && w1.offset == off + 1);
        assert(w1.queue.len() == 0);
        assert(w1.current == Some(
            SpecToken::DocType {
                name: Some(nm.push(n[0])),
                force_quirks: false,
                pub_identifier: None,
                sys_identifier: None,
            },
        ));
        let n2 = n.drop_first();
        assert forall|i: int| 0 <= i < n2.len() implies !is_ws(#[trigger] n2[i]) && n2[i] != '>' && n2[i] != '\0'
            && !is_ascii_upper(n2[i]) by {
            assert(n2[i] == n[i + 1]);
        }
        assert(n2 + " "@ + rest =~= t.subrange(1, t.len() as int));
        lemma_chars_from_sub(v.elems, off, t, 1, n2 + " "@ + rest);
        assert(n2 + " "@ + kw + " \""@ + s + "\">"@ =~= n2 + " "@ + rest);
        lemma_doctype_name_rest(w1, nm.push(n[0]), n2, kw, s);
        assert(nm.push(n[0]) + n2 =~= nm + n);
    }
    assert(run(v) == run(w1));
}

/// What the stream holds at `<!`, a keyword that lowers to `doctype` and a
/// space: the markup declaration sees no `--` but the `doctype` keyword.
proof fn lemma_doctype_keyword_text(elems: Seq<Element>, off: int, d: Seq<char>)
    requires
        chars_from(elems, off, "<!"@ + d + " "@),
        d.len() == 7,
        lower_ascii(d) == "doctype"@,
    ensures
        elems[off] == Element::Utf8('<'),
        elems[off + 1] == Element::Utf8('!'),
        elems[off + 9] == Element::Utf8(' '),
        elements_text(elems, off + 2, off + 4) != "--"@,
        lower_ascii(elements_text(elems, off + 2, off + 9)) == "doctype"@,
{
    reveal_strlit("<!");
    reveal_strlit(" ");
    reveal_strlit("--");
    reveal_strlit("doctype");
    let t = "<!"@ + d + " "@;
    assert(t[0] == '<' && t[1] == '!' && t[9] == ' ');
    assert(elems[off + 0] == Element::Utf8(t[0]));
    assert(elems[off + 1] == Element::Utf8(t[1]));
    assert(elems[off + 9] == Element::Utf8(t[9]));
    assert(d =~= t.subrange(2, 9));
    lemma_chars_from_sub(elems, off, t, 2, d);
    lemma_chars_text(elems, off + 2, d);
    assert(d.subrange(0, 2) =~= t.subrange(2, 4));
    lemma_chars_from_sub(elems, off, t, 2, d.subrange(0, 2));
    lemma_chars_text(elems, off + 2, d.subrange(0, 2));
    assert(lower_ascii(d)[0] == lower_ascii_char(d[0]));
    assert(d[0] != '-');
    assert(elements_text(elems, off + 2, off + 4)[0] == d[0]);
}

/// From the data state with nothing pending, `<!`, a keyword that lowers to
/// `doctype` and a space lead, four steps later, to the before doctype name
/// state just after them, with nothing emitted.
proof fn lemma_doctype_open(v: TokView, d: Seq<char>)
    requires
        view_ok(v),
        v.queue.len() == 0,
        v.consumed.len() == 0,
        v.state == State::DataState,
        !v.eof_read,
        chars_from(v.elems, v.offset, "<!"@ + d + " "@),
        d.len() == 7,
        lower_ascii(d) == "doctype"@,
        v.offset + 11 <= v.elems.len(),
    ensures
        ({
            let w = step(step(step(step(v))));
            &&& view_ok(w)
            &&& w.state == State::BeforeDocTypeNameState
            &&& w.offset == v.offset + 10
            &&& w.elems == v.elems
            &&& !w.eof_read
            &&& w.queue.len() == 0
            &&& w.consumed.len() == 0
            &&& run(v) == run(w)
        }),
{
    let off = v.offset;
    lemma_doctype_keyword_text(v.elems, off, d);
    lemma_step(v);
    let w1 = step(v);
    assert(w1.state == State::TagOpenState && w1.offset == off + 1 && w1.queue.len() == 0
        && w1.elems == v.elems && !w1.eof_read && w1.consumed.len() == 0) by {
        reveal(step_data);
    }
    lemma_step(w1);
    let w2 = step(w1);
    assert(w2.state == State::MarkupDeclarationOpenState && w2.offset == off + 2 && w2.queue.len() == 0
        && w2.elems == v.elems && !w2.eof_read && w2.consumed.len() == 0) by {
        reveal(step_tag_open);
    }
    lemma_step(w2);
    let w3 = step(w2);
    assert(w3.state == State::DocTypeState && w3.offset == off + 9 && w3.queue.len() == 0
        && w3.elems == v.elems && !w3.eof_read && w3.consumed.len() == 0) by {
        reveal(step_markup_declaration_open);
        reveal_strlit("doctype");
        assert(look_ahead_text(w2, 2) == elements_text(v.elems, off + 2, off + 4));
        assert(look_ahead_text(w2, 7) == elements_text(v.elems, off + 2, off + 9));
    }
    lemma_step(w3);
    let w4 = step(w3);
    assert(w4.state == State::BeforeDocTypeNameState && w4.offset == off + 10 && w4.queue.len() == 0
        && w4.elems == v.elems && !w4.eof_read && w4.consumed.len() == 0) by {
        reveal(step_doctype);
    }
    assert(run(w2) == run(w3));
    assert(run(w1) == run(w2));
    assert(run(v) == run(w1));
}

/// From the data state with nothing pending, a doctype with a system
/// identifier and no public one, `<!DOCTYPE name SYSTEM "text">` (the
/// `DOCTYPE` keyword in any ASCII case, the `SYSTEM` keyword as anything that
/// upper-cases to it, the name with no upper case letter, white space, `>`
/// or NUL, the text with no `"`, `>` or NUL), gives one token: the doctype
/// with that name, not forcing quirks mode, without a public identifier, and
/// with exactly that text as its system identifier.
pub proof fn lemma_doctype_system_token(
    v: TokView,
    d: Seq<char>,
    n: Seq<char>,
    kw: Seq<char>,
    s: Seq<char>,
)
    requires
        view_ok(v),
        v.queue.len() == 0,
        v.consumed.len() == 0,
        v.state == State::DataState,
        !v.eof_read,
        chars_from(v.elems, v.offset, "<!"@ + d + " "@ + n + " "@ + kw + " \""@ + s + "\">"@),
        d.len() == 7,
        lower_ascii(d) == "doctype"@,
        n.len() > 0,
        plain_name_text(n),
        kw.len() == 6,
        unicode_uppercase(kw) == "SYSTEM"@,
        !is_ws(kw[0]),
        kw[0] != '>',
        plain_identifier_text(s),
    ensures
        run(v).queue == seq![
            SpecToken::DocType {
                name: Some(n),
                force_quirks: false,
                pub_identifier: None,
                sys_identifier: Some(s),
            },
        ],
        run(v).state == State::DataState,
{
    reveal(step_before_doctype_name);
    reveal_strlit("<!");
    reveal_strlit(" ");
    let t = "<!"@ + d + " "@ + n + " "@ + kw + " \""@ + s + "\">"@;
    let off = v.offset;
    assert("<!"@ + d + " "@ =~= t.subrange(0, 10));
    lemma_chars_from_sub(v.elems, off, t, 0, "<!"@ + d + " "@);
    lemma_doctype_open(v, d);
    let w4 = step(step(step(step(v))));
    assert(t[10] == n[0]);
    assert(v.elems[off + 10] == Element::Utf8(t[10]));
    assert(!is_ws(n[0]) && n[0] != '>' && n[0] != '\0' && !is_ascii_upper(n[0]));
    lemma_step(w4);
    let w5 = step(w4);
    assert(w5.state == State::DocTypeNameState && w5.offset == off + 11 && w5.queue.len() == 0);
    assert(w5.current == Some(
        SpecToken::DocType {
            name: Some(seq![n[0]]),
            force_quirks: false,
            pub_identifier: None,
            sys_identifier: None,
        },
    ));
    let n2 = n.drop_first();
    assert forall|i: int| 0 <= i < n2.len() implies !is_ws(#[trigger] n2[i]) && n2[i] != '>' && n2[i] != '\0'
        && !is_ascii_upper(n2[i]) by {
        assert(n2[i] == n[i + 1]);
    }
    let rest = n2 + " "@ + kw + " \""@ + s + "\">"@;
    assert(rest =~= t.subrange(11, t.len() as int));
    lemma_chars_from_sub(v.elems, off, t, 11, rest);
    lemma_doctype_name_rest(w5, seq![n[0]], n2, kw, s);
    assert(seq![n[0]] + n2 =~= n);
    assert(run(w4) == run(w5));
}

} // verus!
