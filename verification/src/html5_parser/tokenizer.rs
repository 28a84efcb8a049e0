//! The tokenizer: reads the input stream and emits tokens for the parser.
//! Each tokenizer state is proved to do what `tokenizer_spec` says it does.

use vstd::prelude::*;
use crate::html5_parser::input_stream::{Element, InputStream, Position, position_at, clamp_offset};
use crate::html5_parser::parse_errors::ParserError;
use crate::html5_parser::text::{
    is_ascii_alpha, is_ascii_upper, push_char, str_eq, str_to_uppercase, string_from_chars,
    string_from_str, to_ascii_lower, to_ascii_lowercase,
};
use crate::html5_parser::token::{Attribute, SpecToken, Token, opt_chars};
use crate::html5_parser::token_states::State;
use crate::html5_parser::tokenizer_spec::{
    step_char_ref_in_data, step_char_ref_in_rcdata,
    SpecError, TokView, abandon_end_tag, add_name, add_public, add_system, add_value,
    after_keyword, before_identifier, chars_left, comment_bang, consume, doctype_bogus,
    doctype_eof, double_escape, emit, emit_current, end_tag_name, end_tag_open, error_record,
    escape_start, is_ws, lemma_run, lemma_step, less_than_sign, lower_if_upper, new_comment,
    new_doctype, new_end_tag, new_start_tag, progress, push_value, quoted_identifier,
    quoted_value, rank, read, report, run, runnable_state, script_end_tag_open, seek, flush_attr,
    set_current, set_name, set_public, set_quirks, set_self_closing, set_system, step,
    step_after_attribute_name, step_after_attribute_value_quoted, step_after_doctype_name,
    step_after_doctype_public_identifier, step_after_doctype_system_identifier,
    step_attribute_name, step_attribute_value_unquoted, step_before_attribute_name,
    step_before_attribute_value, step_before_doctype_name, step_between_doctype_identifiers,
    step_bogus_comment, step_bogus_doctype, step_cdata_section, step_cdata_section_bracket,
    step_cdata_section_end, step_comment, step_comment_end, step_comment_end_bang,
    step_comment_end_dash, step_comment_less_than_sign,
    step_comment_less_than_sign_bang_dash_dash, step_comment_start, step_comment_start_dash,
    step_data, step_doctype, step_doctype_name, step_end_tag_open, step_markup_declaration_open,
    step_plaintext, step_rawtext, step_rcdata, step_script_data,
    step_script_data_double_escaped, step_script_data_double_escaped_dash,
    step_script_data_double_escaped_dash_dash, step_script_data_double_escaped_less_than_sign,
    step_script_data_escaped, step_script_data_escaped_dash, step_script_data_escaped_dash_dash,
    step_script_data_escaped_less_than_sign, step_script_data_less_than_sign,
    step_self_closing_start, step_tag_name, step_tag_open, unread, view_ok,
};

verus! {

// Constants that are not directly captured as visible chars
pub const CHAR_NUL: char = '\u{0000}';

pub const CHAR_TAB: char = '\u{0009}';

pub const CHAR_LF: char = '\u{000A}';

pub const CHAR_CR: char = '\u{000D}';

pub const CHAR_FF: char = '\u{000C}';

pub const CHAR_SPACE: char = '\u{0020}';

pub const CHAR_REPLACEMENT: char = '\u{FFFD}';

/// A parse error, with the position in the stream where it was found.
#[derive(Debug, PartialEq, Eq)]
pub struct ParseError {
    /// Parse message
    pub message: String,
    /// Line number of the error
    pub line: i64,
    /// Offset on line of the error
    pub col: i64,
    /// Position of the error in the stream
    pub offset: i64,
}

impl View for ParseError {
    type V = SpecError;

    open spec fn view(&self) -> SpecError {
        SpecError { message: self.message@, line: self.line, col: self.col, offset: self.offset }
    }
}

/// Options to start a tokenizer with.
pub struct Options {
    /// The initial state of the tokenizer. Normally only needed when dealing with tests
    pub initial_state: State,
    /// The last starting tag. Normally only needed when dealing with tests
    pub last_start_tag: String,
}

/// The tokenizer reads the input stream and emits tokens for the parser.
pub struct Tokenizer<'a> {
    /// HTML character input stream
    pub stream: &'a mut InputStream,
    /// Current state of the tokenizer
    pub state: State,
    /// Current consumed characters for current token
    pub consumed: Vec<char>,
    /// Current attribute name that we need to store temporary in case we are parsing attributes
    pub current_attr_name: String,
    /// Current attribute value that we need to store temporary in case we are parsing attributes
    pub current_attr_value: String,
    /// The currently parsed attribute is to be ignored once completed (because it already exists on the current token)
    pub ignore_attribute: bool,
    /// Token that is currently in the making (if any)
    pub current_token: Option<Token>,
    /// Temporary buffer
    pub temporary_buffer: Vec<char>,
    /// Queue of emitted tokens. Needed because we can generate multiple tokens during iteration
    pub token_queue: Vec<Token>,
    /// Parse errors (if any)
    pub errors: Vec<ParseError>,
    /// The last emitted start token (or empty if none)
    pub last_start_token: String,
}

pub open spec fn opt_token(t: Option<Token>) -> Option<SpecToken> {
    match t {
        Some(x) => Some(x@),
        None => None,
    }
}

impl<'a> View for Tokenizer<'a> {
    type V = TokView;

    open spec fn view(&self) -> TokView {
        TokView {
            elems: self.stream.elements(),
            offset: self.stream.position.offset as int,
            eof_read: self.stream.has_read_eof,
            state: self.state,
            consumed: self.consumed@,
            attr_name: self.current_attr_name@,
            attr_value: self.current_attr_value@,
            ignore_attribute: self.ignore_attribute,
            current: opt_token(self.current_token),
            temp: self.temporary_buffer@,
            queue: self.token_queue@.map_values(|t: Token| t@),
            errors: self.errors@.map_values(|e: ParseError| e@),
            last_start: self.last_start_token@,
            encoding: self.stream.encoding,
            confidence: self.stream.confidence,
            bytes: self.stream.bytes(),
        }
    }
}

/// A copy of a string.
fn copy_string(s: &String) -> (r: String)
    ensures
        r@ == s@,
{
    string_from_str(s.as_str())
}

/// A copy of a vector of characters.
fn copy_chars(v: &Vec<char>) -> (r: Vec<char>)
    ensures
        r@ == v@,
{
    let mut out: Vec<char> = Vec::new();
    let mut i: usize = 0;
    while i < v.len()
        invariant
            i <= v.len(),
            out@ == v@.take(i as int),
        decreases v.len() - i,
    {
        out.push(v[i]);
        i += 1;
        assert(out@ =~= v@.take(i as int));
    }
    assert(v@.take(v.len() as int) =~= v@);
    out
}

fn is_ws_char(c: char) -> (r: bool)
    ensures
        r == is_ws(c),
{
    c == CHAR_TAB || c == CHAR_LF || c == CHAR_FF || c == CHAR_SPACE
}

fn is_alpha_char(c: char) -> (r: bool)
    ensures
        r == is_ascii_alpha(c),
{
    ('a' <= c && c <= 'z') || ('A' <= c && c <= 'Z')
}

fn is_upper_char(c: char) -> (r: bool)
    ensures
        r == is_ascii_upper(c),
{
    'A' <= c && c <= 'Z'
}

fn lower_if_upper_char(c: char) -> (r: char)
    ensures
        r == lower_if_upper(c),
{
    if is_upper_char(c) {
        to_ascii_lower(c)
    } else {
        c
    }
}

impl<'a> Tokenizer<'a> {
    /// The tokenizer's invariant: its stream is well formed and it is in a
    /// state that it can step from.
    pub open spec fn inv(&self) -> bool {
        &&& self.stream.wf()
        &&& view_ok(self@)
    }

    /// Creates a new tokenizer with the given input stream and additional
    /// options, if any.
    pub fn new(input: &'a mut InputStream, opts: Option<Options>) -> (r: Self)
        requires
            input.wf(),
            opts matches Some(o) ==> runnable_state(o.initial_state),
        ensures
            r.inv(),
            *r.stream == *old(input),
            r.state == (match opts {
                Some(o) => o.initial_state,
                None => State::DataState,
            }),
            r.last_start_token@ == (match opts {
                Some(o) => o.last_start_tag@,
                None => Seq::<char>::empty(),
            }),
            r@.consumed.len() == 0,
            r@.current is None,
            r@.temp.len() == 0,
            r@.queue.len() == 0,
            r@.errors.len() == 0,
            r@.attr_name.len() == 0,
            r@.attr_value.len() == 0,
            !r.ignore_attribute,
    {
        let (state, last) = match opts {
            Some(o) => (o.initial_state, o.last_start_tag),
            None => (State::DataState, String::new()),
        };
        let r = Tokenizer {
            stream: input,
            state,
            last_start_token: last,
            consumed: Vec::new(),
            current_token: None,
            token_queue: Vec::new(),
            current_attr_name: String::new(),
            current_attr_value: String::new(),
            temporary_buffer: Vec::new(),
            errors: Vec::new(),
            ignore_attribute: false,
        };
        proof {
            assert(r@.queue =~= Seq::<SpecToken>::empty());
            assert(r@.errors =~= Seq::<SpecError>::empty());
        }
        r
    }

    /// Retrieves the next token from the input stream: the first token that
    /// the tokenizer emits from here (see `run`).
    pub fn next_token(&mut self) -> (r: Token)
        requires
            old(self).inv(),
        ensures
            final(self).inv(),
            run(old(self)@).queue.len() > 0,
            r@ == run(old(self)@).queue[0],
            final(self)@ == (TokView { queue: run(old(self)@).queue.drop_first(), ..run(old(self)@) }),
    {
        self.consume_stream();
        proof {
            lemma_run(old(self)@);
        }
        if self.token_queue.len() == 0 {
            return Token::EofToken;
        }
        let ghost before = self@;
        let t = self.token_queue.remove(0);
        proof {
            assert(self@.queue =~= before.queue.drop_first());
        }
        t
    }

    /// Runs the tokenizer until a token has been emitted (see `run`).
    pub fn consume_stream(&mut self)
        requires
            old(self).inv(),
        ensures
            final(self).inv(),
            final(self)@ == run(old(self)@),
    {
        loop
            invariant
                self.inv(),
                run(self@) == run(old(self)@),
            decreases progress(self@), rank(self.state),
        {
            // Something is already in the token buffer, so we can return it.
            if self.token_queue.len() > 0 {
                return ;
            }
            let ghost before = self@;
            proof {
                lemma_step(before);
            }
            self.step();
            if self.token_queue.len() > 0 {
                return ;
            }
        }
    }

    /// Performs one step of the current tokenizer state (see `step`).
    fn step(&mut self)
        requires
            old(self).inv(),
            old(self)@.queue.len() == 0,
        ensures
            final(self).inv(),
            final(self)@ == step(old(self)@),
    {
        match self.state {
            State::DataState => self.state_data(),
            State::CharacterReferenceInDataState => {
                proof {
                    reveal(step_char_ref_in_data);
                }
                self.consume('&');
                self.state = State::DataState;
            },
            State::RcDataState => self.state_rcdata(),
            State::CharacterReferenceInRcDataState => {
                proof {
                    reveal(step_char_ref_in_rcdata);
                }
                self.consume('&');
                self.state = State::RcDataState;
            },
            State::RawTextState => self.state_rawtext(),
            State::ScriptDataState => self.state_script_data(),
            State::PlaintextState => self.state_plaintext(),
            State::TagOpenState => self.state_tag_open(),
            State::EndTagOpenState => self.state_end_tag_open(),
            State::TagNameState => self.state_tag_name(),
            State::RcDataLessThanSignState => self.state_less_than_sign(
                State::RcDataEndTagOpenState,
                State::RcDataState,
            ),
            State::RcDataEndTagOpenState => self.state_end_tag_open_in(
                State::RcDataEndTagNameState,
                State::RcDataState,
            ),
            State::RcDataEndTagNameState => self.state_end_tag_name(State::RcDataState),
            State::RawTextLessThanSignState => self.state_less_than_sign(
                State::RawTextEndTagOpenState,
                State::RawTextState,
            ),
            State::RawTextEndTagOpenState => self.state_end_tag_open_in(
                State::RawTextEndTagNameState,
                State::RawTextState,
            ),
            State::RawTextEndTagNameState => self.state_end_tag_name(State::RawTextState),
            State::ScriptDataLessThenSignState => self.state_script_data_less_than_sign(),
            State::ScriptDataEndTagOpenState => self.state_script_end_tag_open(
                State::ScriptDataEndTagNameState,
                State::ScriptDataState,
            ),
            State::ScriptDataEndTagNameState => self.state_end_tag_name(State::ScriptDataState),
            State::ScriptDataEscapeStartState => self.state_escape_start(
                State::ScriptDataEscapeStartDashState,
            ),
            State::ScriptDataEscapeStartDashState => self.state_escape_start(
                State::ScriptDataEscapedDashDashState,
            ),
            State::ScriptDataEscapedState => self.state_script_data_escaped(),
            State::ScriptDataEscapedDashState => self.state_script_data_escaped_dash(),
            State::ScriptDataEscapedDashDashState => self.state_script_data_escaped_dash_dash(),
            State::ScriptDataEscapedLessThanSignState =>
                self.state_script_data_escaped_less_than_sign(),
            State::ScriptDataEscapedEndTagOpenState => self.state_script_end_tag_open(
                State::ScriptDataEscapedEndTagNameState,
                State::ScriptDataEscapedState,
            ),
            State::ScriptDataEscapedEndTagNameState => self.state_end_tag_name(
                State::ScriptDataEscapedState,
            ),
            State::ScriptDataDoubleEscapeStartState => self.state_double_escape(
                State::ScriptDataDoubleEscapedState,
                State::ScriptDataEscapedState,
                State::ScriptDataEscapedState,
            ),
            State::ScriptDataDoubleEscapedState => self.state_script_data_double_escaped(),
            State::ScriptDataDoubleEscapedDashState => self.state_script_data_double_escaped_dash(),
            State::ScriptDataDoubleEscapedDashDashState =>
                self.state_script_data_double_escaped_dash_dash(),
            State::ScriptDataDoubleEscapedLessThanSignState =>
                self.state_script_data_double_escaped_less_than_sign(),
            State::ScriptDataDoubleEscapeEndState => self.state_double_escape(
                State::ScriptDataEscapedState,
                State::ScriptDataDoubleEscapedState,
                State::ScriptDataDoubleEscapedState,
            ),
            State::BeforeAttributeNameState => self.state_before_attribute_name(),
            State::AttributeNameState => self.state_attribute_name(),
            State::AfterAttributeNameState => self.state_after_attribute_name(),
            State::BeforeAttributeValueState => self.state_before_attribute_value(),
            State::AttributeValueDoubleQuotedState => self.state_quoted_value('"'),
            State::AttributeValueSingleQuotedState => self.state_quoted_value('\''),
            State::AttributeValueUnquotedState => self.state_attribute_value_unquoted(),
            State::CharacterReferenceInAttributeValueState => {},
            State::AfterAttributeValueQuotedState => self.state_after_attribute_value_quoted(),
            State::SelfClosingStartState => self.state_self_closing_start(),
            State::BogusCommentState => self.state_bogus_comment(),
            State::MarkupDeclarationOpenState => self.state_markup_declaration_open(),
            State::CommentStartState => self.state_comment_start(),
            State::CommentStartDashState => self.state_comment_start_dash(),
            State::CommentState => self.state_comment(),
            State::CommentLessThanSignState => self.state_comment_less_than_sign(),
            State::CommentLessThanSignBangState => self.state_comment_bang(
                State::CommentLessThanSignBangDashState,
                State::CommentState,
            ),
            State::CommentLessThanSignBangDashState => self.state_comment_bang(
                State::CommentLessThanSignBangDashDashState,
                State::CommentEndDashState,
            ),
            State::CommentLessThanSignBangDashDashState =>
                self.state_comment_less_than_sign_bang_dash_dash(),
            State::CommentEndDashState => self.state_comment_end_dash(),
            State::CommentEndState => self.state_comment_end(),
            State::CommentEndBangState => self.state_comment_end_bang(),
            State::DocTypeState => self.state_doctype(),
            State::BeforeDocTypeNameState => self.state_before_doctype_name(),
            State::DocTypeNameState => self.state_doctype_name(),
            State::AfterDocTypeNameState => self.state_after_doctype_name(),
            State::AfterDocTypePublicKeywordState => self.state_after_keyword(
                true,
                State::BeforeDocTypePublicIdentifierState,
                State::DocTypePublicIdentifierDoubleQuotedState,
                State::DocTypePublicIdentifierSingleQuotedState,
                ParserError::MissingWhitespaceAfterDoctypePublicKeyword,
                ParserError::MissingDoctypePublicIdentifier,
                ParserError::MissingQuoteBeforeDoctypePublicIdentifier,
            ),
            State::BeforeDocTypePublicIdentifierState => self.state_before_identifier(
                true,
                State::DocTypePublicIdentifierDoubleQuotedState,
                State::DocTypePublicIdentifierSingleQuotedState,
                ParserError::MissingDoctypePublicIdentifier,
                ParserError::MissingQuoteBeforeDoctypePublicIdentifier,
            ),
            State::DocTypePublicIdentifierDoubleQuotedState => self.state_quoted_identifier(
                true,
                '"',
                State::AfterDoctypePublicIdentifierState,
                ParserError::AbruptDoctypePublicIdentifier,
            ),
            State::DocTypePublicIdentifierSingleQuotedState => self.state_quoted_identifier(
                true,
                '\'',
                State::AfterDoctypePublicIdentifierState,
                ParserError::AbruptDoctypePublicIdentifier,
            ),
            State::AfterDoctypePublicIdentifierState =>
                self.state_after_doctype_public_identifier(),
            State::BetweenDocTypePublicAndSystemIdentifiersState =>
                self.state_between_doctype_identifiers(),
            State::AfterDocTypeSystemKeywordState => self.state_after_keyword(
                false,
                State::BeforeDocTypeSystemIdentifierState,
                State::DocTypeSystemIdentifierDoubleQuotedState,
                State::DocTypeSystemIdentifierSingleQuotedState,
                ParserError::MissingWhitespaceAfterDoctypeSystemKeyword,
                ParserError::MissingDoctypeSystemIdentifier,
                ParserError::MissingQuoteBeforeDoctypeSystemIdentifier,
            ),
            State::BeforeDocTypeSystemIdentifierState => self.state_before_identifier(
                false,
                State::DocTypeSystemIdentifierDoubleQuotedState,
                State::DocTypeSystemIdentifierSingleQuotedState,
                ParserError::MissingDoctypeSystemIdentifier,
                ParserError::MissingQuoteBeforeDoctypeSystemIdentifier,
            ),
            State::DocTypeSystemIdentifierDoubleQuotedState => self.state_quoted_identifier(
                false,
                '"',
                State::AfterDocTypeSystemIdentifierState,
                ParserError::AbruptDoctypeSystemIdentifier,
            ),
            State::DocTypeSystemIdentifierSingleQuotedState => self.state_quoted_identifier(
                false,
                '\'',
                State::AfterDocTypeSystemIdentifierState,
                ParserError::AbruptDoctypeSystemIdentifier,
            ),
            State::AfterDocTypeSystemIdentifierState =>
                self.state_after_doctype_system_identifier(),
            State::BogusDocTypeState => self.state_bogus_doctype(),
            State::CDataSectionState => self.state_cdata_section(),
            State::CDataSectionBracketState => self.state_cdata_section_bracket(),
            State::CDataSectionEndState => self.state_cdata_section_end(),
        }
    }

    // -----------------------------------------------------------------------
    // Primitive steps
    // -----------------------------------------------------------------------
    /// Reads the next character from the stream (see `read`).
    fn read(&mut self) -> (r: Option<char>)
        requires
            old(self).inv(),
        ensures
            final(self).inv(),
            final(self)@ == read(old(self)@).0,
            r == read(old(self)@).1,
    {
        let e = self.stream.read_char();
        match e {
            Element::Utf8(c) => Some(c),
            _ => None,
        }
    }

    /// Steps back over the last character read (see `unread`).
    fn unread(&mut self)
        requires
            old(self).inv(),
        ensures
            final(self).inv(),
            final(self)@ == unread(old(self)@),
    {
        self.stream.unread();
    }

    /// Moves the stream to the given offset (see `seek`).
    fn seek(&mut self, off: i64)
        requires
            old(self).inv(),
        ensures
            final(self).inv(),
            final(self)@ == seek(old(self)@, off as int),
    {
        self.stream.seek(off);
    }

    /// Consumes the given char
    pub fn consume(&mut self, c: char)
        requires
            old(self).inv(),
        ensures
            final(self).inv(),
            final(self)@ == consume(old(self)@, c),
    {
        // Add c to the current token data
        self.consumed.push(c)
    }

    /// Consumes the given string
    pub fn consume_string(&mut self, s: &str)
        requires
            old(self).inv(),
        ensures
            final(self).inv(),
            final(self)@ == (TokView { consumed: old(self)@.consumed + s@, ..old(self)@ }),
    {
        let ghost seq = s@;
        let ghost start = self@;
        for c in it: s.chars()
            invariant
                it.seq() == seq,
                self.inv(),
                self@ == (TokView { consumed: start.consumed + seq.take(it.index()), ..start }),
        {
            self.consumed.push(c);
            assert(self.consumed@ =~= start.consumed + seq.take(it.index() + 1));
        }
        assert(seq.take(seq.len() as int) =~= seq);
    }

    /// Returns true when the given end token matches the stored start token
    /// (ie: 'table' matches when last_start_token = 'table').
    pub fn is_appropriate_end_token(&self, end_token: &Vec<char>) -> (r: bool)
        ensures
            r == (self.last_start_token@ == end_token@),
    {
        let s = string_from_chars(end_token);
        str_eq(self.last_start_token.as_str(), s.as_str())
    }

    /// Returns the consumed characters as a String.
    pub fn get_consumed_str(&self) -> (r: String)
        ensures
            r@ == self.consumed@,
    {
        string_from_chars(&self.consumed)
    }

    /// Returns true if there is anything in the consume buffer.
    pub fn has_consumed_data(&self) -> (r: bool)
        ensures
            r == (self.consumed@.len() > 0),
    {
        self.consumed.len() > 0
    }

    /// Clears the current consume buffer.
    pub fn clear_consume_buffer(&mut self)
        requires
            old(self).inv(),
        ensures
            final(self).inv(),
            final(self)@ == (TokView { consumed: Seq::empty(), ..old(self)@ }),
    {
        self.consumed.clear()
    }

    /// Returns the list of current parse errors.
    pub fn get_errors(&self) -> (r: &Vec<ParseError>)
        ensures
            r == &self.errors,
    {
        &self.errors
    }

    /// The current position in the stream.
    pub fn get_position(&mut self) -> (r: Position)
        requires
            old(self).inv(),
        ensures
            final(self).inv(),
            final(self)@ == old(self)@,
            r == old(self).stream.position,
    {
        let off = self.stream.position.offset;
        self.stream.get_position(off)
    }

    /// Records a parse error at the current position (see `report`).
    pub fn parse_error(&mut self, error: ParserError)
        requires
            old(self).inv(),
        ensures
            final(self).inv(),
            final(self)@ == report(old(self)@, error),
    {
        // When at the end of the stream, report the current position; else
        // that of the character just read.
        let off = self.stream.position.offset;
        let pos = if self.stream.eof() {
            self.stream.get_position(off)
        } else {
            self.stream.get_position(off - 1)
        };
        let message = string_from_str(error.as_str());
        let ghost before = self.errors@.map_values(|e: ParseError| e@);
        self.errors.push(ParseError { message, line: pos.line, col: pos.col, offset: pos.offset });
        proof {
            assert(self.errors@.map_values(|e: ParseError| e@) =~= before.push(
                error_record(old(self)@, error),
            ));
        }
    }

    /// Emits the given token (see `emit`).
    fn emit_token(&mut self, token: Token)
        requires
            old(self).inv(),
        ensures
            final(self).inv(),
            final(self)@ == emit(old(self)@, token@),
    {
        // Save the start token name if we are pushing it. This helps us in
        // detecting matching tags.
        if let Token::StartTagToken { name, .. } = &token {
            self.last_start_token = copy_string(name);
        }
        // If there is any consumed data, emit this first as a text token
        if self.has_consumed_data() {
            let value = self.get_consumed_str();
            let ghost q = self.token_queue@.map_values(|t: Token| t@);
            self.token_queue.push(Token::TextToken { value });
            assert(self.token_queue@.map_values(|t: Token| t@) =~= q.push(
                SpecToken::Text { value: self.consumed@ },
            ));
            self.clear_consume_buffer();
        }
        let ghost q = self.token_queue@.map_values(|t: Token| t@);
        self.token_queue.push(token);
        assert(self.token_queue@.map_values(|t: Token| t@) =~= q.push(token@));
    }

    /// Emits the token being built, if any, and forgets it (see
    /// `emit_current`).
    fn emit_current_token(&mut self)
        requires
            old(self).inv(),
        ensures
            final(self).inv(),
            final(self)@ == emit_current(old(self)@),
    {
        let t = self.current_token.take();
        match t {
            Some(token) => self.emit_token(token),
            None => {},
        }
    }

    fn set_current(&mut self, t: Token)
        requires
            old(self).inv(),
        ensures
            final(self).inv(),
            final(self)@ == set_current(old(self)@, t@),
    {
        self.current_token = Some(t);
    }

    /// Adds a character to the name of the token being built (see
    /// `add_name`).
    fn add_to_token_name(&mut self, c: char)
        requires
            old(self).inv(),
        ensures
            final(self).inv(),
            final(self)@ == add_name(old(self)@, c),
    {
        let t = self.current_token.take();
        self.current_token = match t {
            Some(Token::StartTagToken { name, is_self_closing, attributes }) => {
                let mut name = name;
                push_char(&mut name, c);
                Some(Token::StartTagToken { name, is_self_closing, attributes })
            },
            Some(Token::EndTagToken { name }) => {
                let mut name = name;
                push_char(&mut name, c);
                Some(Token::EndTagToken { name })
            },
            Some(Token::DocTypeToken { name, force_quirks, pub_identifier, sys_identifier }) => {
                // Doctype can have an optional name
                let mut n = match name {
                    Some(s) => s,
                    None => String::new(),
                };
                push_char(&mut n, c);
                Some(
                    Token::DocTypeToken {
                        name: Some(n),
                        force_quirks,
                        pub_identifier,
                        sys_identifier,
                    },
                )
            },
            other => other,
        };
    }

    /// Adds a character to the value of the comment being built (see
    /// `add_value`).
    fn add_to_token_value(&mut self, c: char)
        requires
            old(self).inv(),
        ensures
            final(self).inv(),
            final(self)@ == add_value(old(self)@, c),
    {
        let t = self.current_token.take();
        self.current_token = match t {
            Some(Token::CommentToken { value }) => {
                let mut value = value;
                push_char(&mut value, c);
                Some(Token::CommentToken { value })
            },
            other => other,
        };
    }

    /// Sets the public identifier of the doctype being built.
    fn set_public_identifier(&mut self, s: String)
        requires
            old(self).inv(),
        ensures
            final(self).inv(),
            final(self)@ == set_public(old(self)@, s@),
    {
        let t = self.current_token.take();
        self.current_token = match t {
            Some(Token::DocTypeToken { name, force_quirks, pub_identifier, sys_identifier }) => {
                Some(
                    Token::DocTypeToken {
                        name,
                        force_quirks,
                        pub_identifier: Some(s),
                        sys_identifier,
                    },
                )
            },
            other => other,
        };
    }

    /// Adds a character to the public identifier of the doctype being built.
    fn add_public_identifier(&mut self, c: char)
        requires
            old(self).inv(),
        ensures
            final(self).inv(),
            final(self)@ == add_public(old(self)@, c),
    {
        let t = self.current_token.take();
        self.current_token = match t {
            Some(
                Token::DocTypeToken { name, force_quirks, pub_identifier: Some(p), sys_identifier },
            ) => {
                let mut p = p;
                push_char(&mut p, c);
                Some(
                    Token::DocTypeToken {
                        name,
                        force_quirks,
                        pub_identifier: Some(p),
                        sys_identifier,
                    },
                )
            },
            other => other,
        };
    }

    /// Sets the system identifier of the doctype being built.
    fn set_system_identifier(&mut self, s: String)
        requires
            old(self).inv(),
        ensures
            final(self).inv(),
            final(self)@ == set_system(old(self)@, s@),
    {
        let t = self.current_token.take();
        self.current_token = match t {
            Some(Token::DocTypeToken { name, force_quirks, pub_identifier, sys_identifier }) => {
                Some(
                    Token::DocTypeToken {
                        name,
                        force_quirks,
                        pub_identifier,
                        sys_identifier: Some(s),
                    },
                )
            },
            other => other,
        };
    }

    /// Adds a character to the system identifier of the doctype being built.
    fn add_system_identifier(&mut self, c: char)
        requires
            old(self).inv(),
        ensures
            final(self).inv(),
            final(self)@ == add_system(old(self)@, c),
    {
        let t = self.current_token.take();
        self.current_token = match t {
            Some(
                Token::DocTypeToken { name, force_quirks, pub_identifier, sys_identifier: Some(p) },
            ) => {
                let mut p = p;
                push_char(&mut p, c);
                Some(
                    Token::DocTypeToken {
                        name,
                        force_quirks,
                        pub_identifier,
                        sys_identifier: Some(p),
                    },
                )
            },
            other => other,
        };
    }

    /// Sets the self-closing flag of the start tag being built.
    pub fn set_is_closing_in_current_token(&mut self, is_closing: bool)
        requires
            old(self).inv(),
        ensures
            final(self).inv(),
            final(self)@ == set_self_closing(old(self)@, is_closing),
    {
        let t = self.current_token.take();
        self.current_token = match t {
            Some(Token::StartTagToken { name, is_self_closing, attributes }) => {
                Some(Token::StartTagToken { name, is_self_closing: is_closing, attributes })
            },
            other => other,
        };
    }

    /// Sets the force-quirks flag of the doctype being built.
    pub fn set_quirks_mode(&mut self, quirky: bool)
        requires
            old(self).inv(),
        ensures
            final(self).inv(),
            final(self)@ == set_quirks(old(self)@, quirky),
    {
        let t = self.current_token.take();
        self.current_token = match t {
            Some(Token::DocTypeToken { name, force_quirks, pub_identifier, sys_identifier }) => {
                Some(
                    Token::DocTypeToken {
                        name,
                        force_quirks: quirky,
                        pub_identifier,
                        sys_identifier,
                    },
                )
            },
            other => other,
        };
    }

    /// Adds a new attribute to the current token (when it is a start tag),
    /// and clears the attribute name being read.
    pub fn set_add_attribute_to_current_token(&mut self, name: String, value: String)
        requires
            old(self).inv(),
        ensures
            final(self).inv(),
            final(self)@ == (TokView {
                attr_name: Seq::empty(),
                current: match old(self)@.current {
                    Some(SpecToken::StartTag { name: n, is_self_closing, attributes }) => Some(
                        SpecToken::StartTag {
                            name: n,
                            is_self_closing,
                            attributes: attributes.push((name@, value@)),
                        },
                    ),
                    other => other,
                },
                ..old(self)@
            }),
    {
        let t = self.current_token.take();
        self.current_token = match t {
            Some(Token::StartTagToken { name: n, is_self_closing, attributes }) => {
                let mut attributes = attributes;
                let ghost before = attributes@.map_values(|a: Attribute| a@);
                attributes.push(Attribute { name, value });
                assert(attributes@.map_values(|a: Attribute| a@) =~= before.push(
                    (name@, value@),
                ));
                Some(Token::StartTagToken { name: n, is_self_closing, attributes })
            },
            other => other,
        };
        self.current_attr_name = String::new();
    }

    /// Sets the given name into the current token (when it is a tag).
    pub fn set_name_in_current_token(&mut self, new_name: String)
        requires
            old(self).inv(),
        ensures
            final(self).inv(),
            final(self)@ == set_name(old(self)@, new_name@),
    {
        let t = self.current_token.take();
        self.current_token = match t {
            Some(Token::StartTagToken { name, is_self_closing, attributes }) => {
                Some(Token::StartTagToken { name: new_name, is_self_closing, attributes })
            },
            Some(Token::EndTagToken { name }) => Some(Token::EndTagToken { name: new_name }),
            other => other,
        };
    }

    /// Checks whether the current start tag already has an attribute named
    /// like the one being read, and remembers the answer in
    /// `ignore_attribute`.
    pub fn check_if_attr_already_exists(&mut self)
        requires
            old(self).inv(),
        ensures
            final(self).inv(),
            final(self)@ == (TokView {
                ignore_attribute: match old(self)@.current {
                    Some(SpecToken::StartTag { attributes, .. }) => exists|i: int|
                        0 <= i < attributes.len() && #[trigger] attributes[i].0
                            == old(self)@.attr_name,
                    _ => false,
                },
                ..old(self)@
            }),
    {
        self.ignore_attribute = false;
        let mut found = false;
        match &self.current_token {
            Some(Token::StartTagToken { attributes, .. }) => {
                let ghost attrs = attributes@.map_values(|a: Attribute| a@);
                let mut i: usize = 0;
                while i < attributes.len()
                    invariant
                        i <= attributes.len(),
                        attrs == attributes@.map_values(|a: Attribute| a@),
                        found == exists|j: int|
                            0 <= j < i && #[trigger] attrs[j].0 == self.current_attr_name@,
                    decreases attributes.len() - i,
                {
                    let same = str_eq(attributes[i].name.as_str(), self.current_attr_name.as_str());
                    proof {
                        assert(attrs[i as int].0 == attributes@[i as int].name@);
                    }
                    if same {
                        found = true;
                    }
                    i += 1;
                }
            },
            _ => {},
        }
        self.ignore_attribute = found;
    }

    fn new_start_tag_token() -> (r: Token)
        ensures
            r@ == new_start_tag(),
    {
        let attributes: Vec<Attribute> = Vec::new();
        proof {
            assert(attributes@.map_values(|a: Attribute| a@) =~= Seq::<(Seq<char>, Seq<char>)>::empty());
        }
        Token::StartTagToken { name: String::new(), is_self_closing: false, attributes }
    }

    fn new_end_tag_token() -> (r: Token)
        ensures
            r@ == new_end_tag(),
    {
        Token::EndTagToken { name: String::new() }
    }

    fn new_comment_token(value: &str) -> (r: Token)
        ensures
            r@ == new_comment(value@),
    {
        Token::CommentToken { value: string_from_str(value) }
    }

    fn new_empty_comment_token() -> (r: Token)
        ensures
            r@ == new_comment(Seq::empty()),
    {
        Token::CommentToken { value: String::new() }
    }

    fn new_doctype_token(force_quirks: bool) -> (r: Token)
        ensures
            r@ == new_doctype(force_quirks),
    {
        Token::DocTypeToken {
            name: None,
            force_quirks,
            pub_identifier: None,
            sys_identifier: None,
        }
    }

    /// Finishes the attribute being read (see `flush_attr`).
    fn flush_attribute(&mut self)
        requires
            old(self).inv(),
        ensures
            final(self).inv(),
            final(self)@ == flush_attr(old(self)@),
    {
        let ghost v0 = TokView { ignore_attribute: false, ..old(self)@ };
        if self.current_attr_name.as_str().unicode_len() > 0 {
            self.check_if_attr_already_exists();
            let duplicate = self.ignore_attribute;
            self.ignore_attribute = false;
            assert(self@ == v0);
            if duplicate {
                self.parse_error(ParserError::DuplicateAttribute);
            } else {
                let name = string_from_str(self.current_attr_name.as_str());
                let value = string_from_str(self.current_attr_value.as_str());
                self.set_add_attribute_to_current_token(name, value);
            }
        }
        self.current_attr_name = String::new();
        self.current_attr_value = String::new();
        self.ignore_attribute = false;
    }

    fn push_attr_name(&mut self, c: char)
        requires
            old(self).inv(),
        ensures
            final(self).inv(),
            final(self)@ == (TokView { attr_name: old(self)@.attr_name.push(c), ..old(self)@ }),
    {
        push_char(&mut self.current_attr_name, c);
    }

    fn push_attr_value(&mut self, c: char)
        requires
            old(self).inv(),
        ensures
            final(self).inv(),
            final(self)@ == push_value(old(self)@, c),
    {
        push_char(&mut self.current_attr_value, c);
    }

    /// Consumes `<`, `/` and the temporary buffer as text, empties the
    /// buffer, steps back and returns to state `back`.
    fn abandon_end_tag(&mut self, back: State)
        requires
            old(self).inv(),
            runnable_state(back),
        ensures
            final(self).inv(),
            final(self)@ == abandon_end_tag(old(self)@, back),
    {
        let ghost start = self@;
        self.consume('<');
        self.consume('/');
        let buf = copy_chars(&self.temporary_buffer);
        assert(self@.consumed =~= start.consumed + seq!['<', '/'] + buf@.take(0));
        let mut i: usize = 0;
        while i < buf.len()
            invariant
                self.inv(),
                i <= buf.len(),
                buf@ == start.temp,
                self@ == (TokView {
                    consumed: start.consumed + seq!['<', '/'] + buf@.take(i as int),
                    ..start
                }),
            decreases buf.len() - i,
        {
            self.consume(buf[i]);
            i += 1;
            assert(self@.consumed =~= start.consumed + seq!['<', '/'] + buf@.take(i as int));
        }
        assert(buf@.take(buf.len() as int) =~= buf@);
        self.temporary_buffer.clear();
        self.unread();
        self.state = back;
    }

    /// The current offset as an `i64`.
    fn offset(&self) -> (r: i64)
        requires
            self.inv(),
        ensures
            r == self@.offset,
            r + 7 <= i64::MAX,
    {
        self.stream.position.offset
    }
}


impl<'a> Tokenizer<'a> {
    fn state_data(&mut self)
        requires
            old(self).inv(),
        ensures
            final(self).inv(),
            final(self)@ == step_data(old(self)@),
    {
        proof {
            reveal(step_data);
        }
        let c = self.read();
        match c {
            Some('&') => self.state = State::CharacterReferenceInDataState,
            Some('<') => self.state = State::TagOpenState,
            Some(CHAR_NUL) => {
                self.consume(CHAR_NUL);
                self.parse_error(ParserError::UnexpectedNullCharacter);
            },
            None => {
                // EOF: pending text goes out first, then the EOF token
                self.emit_token(Token::EofToken);
            },
            Some(ch) => self.consume(ch),
        }
    }

    fn state_rcdata(&mut self)
        requires
            old(self).inv(),
        ensures
            final(self).inv(),
            final(self)@ == step_rcdata(old(self)@),
    {
        proof {
            reveal(step_rcdata);
        }
        let c = self.read();
        match c {
            Some('&') => self.state = State::CharacterReferenceInRcDataState,
            Some('<') => self.state = State::RcDataLessThanSignState,
            None => self.emit_token(Token::EofToken),
            Some(CHAR_NUL) => {
                self.consume(CHAR_REPLACEMENT);
                self.parse_error(ParserError::UnexpectedNullCharacter);
            },
            Some(ch) => self.consume(ch),
        }
    }

    fn state_rawtext(&mut self)
        requires
            old(self).inv(),
        ensures
            final(self).inv(),
            final(self)@ == step_rawtext(old(self)@),
    {
        proof {
            reveal(step_rawtext);
        }
        let c = self.read();
        match c {
            Some('<') => self.state = State::RawTextLessThanSignState,
            Some(CHAR_NUL) => {
                self.consume(CHAR_REPLACEMENT);
                self.parse_error(ParserError::UnexpectedNullCharacter);
            },
            None => self.emit_token(Token::EofToken),
            Some(ch) => self.consume(ch),
        }
    }

    fn state_script_data(&mut self)
        requires
            old(self).inv(),
        ensures
            final(self).inv(),
            final(self)@ == step_script_data(old(self)@),
    {
        proof {
            reveal(step_script_data);
        }
        let c = self.read();
        match c {
            Some('<') => self.state = State::ScriptDataLessThenSignState,
            Some(CHAR_NUL) => {
                self.parse_error(ParserError::UnexpectedNullCharacter);
                self.consume(CHAR_REPLACEMENT);
            },
            None => self.emit_token(Token::EofToken),
            Some(ch) => self.consume(ch),
        }
    }

    fn state_plaintext(&mut self)
        requires
            old(self).inv(),
        ensures
            final(self).inv(),
            final(self)@ == step_plaintext(old(self)@),
    {
        proof {
            reveal(step_plaintext);
        }
        let c = self.read();
        match c {
            Some(CHAR_NUL) => {
                self.consume(CHAR_REPLACEMENT);
                self.parse_error(ParserError::UnexpectedNullCharacter);
            },
            None => self.emit_token(Token::EofToken),
            Some(ch) => self.consume(ch),
        }
    }

    fn state_tag_open(&mut self)
        requires
            old(self).inv(),
        ensures
            final(self).inv(),
            final(self)@ == step_tag_open(old(self)@),
    {
        proof {
            reveal(step_tag_open);
        }
        let c = self.read();
        match c {
            Some('!') => self.state = State::MarkupDeclarationOpenState,
            Some('/') => self.state = State::EndTagOpenState,
            Some(ch) => {
                if is_alpha_char(ch) {
                    self.set_current(Self::new_start_tag_token());
                    self.add_to_token_name(lower_if_upper_char(ch));
                    self.state = State::TagNameState;
                } else if ch == '?' {
                    self.set_current(Self::new_empty_comment_token());
                    self.parse_error(ParserError::UnexpectedQuestionMarkInsteadOfTagName);
                    self.unread();
                    self.state = State::BogusCommentState;
                } else {
                    self.parse_error(ParserError::InvalidFirstCharacterOfTagName);
                    self.consume('<');
                    self.unread();
                    self.state = State::DataState;
                }
            },
            None => {
                self.parse_error(ParserError::EofBeforeTagName);
                self.consume('<');
                self.state = State::DataState;
            },
        }
    }

    fn state_end_tag_open(&mut self)
        requires
            old(self).inv(),
        ensures
            final(self).inv(),
            final(self)@ == step_end_tag_open(old(self)@),
    {
        proof {
            reveal(step_end_tag_open);
        }
        let c = self.read();
        match c {
            Some('>') => {
                self.parse_error(ParserError::MissingEndTagName);
                self.state = State::DataState;
            },
            Some(ch) => {
                if is_alpha_char(ch) {
                    self.set_current(Self::new_end_tag_token());
                    self.add_to_token_name(lower_if_upper_char(ch));
                    self.state = State::TagNameState;
                } else {
                    self.parse_error(ParserError::InvalidFirstCharacterOfTagName);
                    self.set_current(Self::new_empty_comment_token());
                    self.unread();
                    self.state = State::BogusCommentState;
                }
            },
            None => {
                self.parse_error(ParserError::EofBeforeTagName);
                self.consume('<');
                self.consume('/');
                self.state = State::DataState;
            },
        }
    }

    fn state_tag_name(&mut self)
        requires
            old(self).inv(),
        ensures
            final(self).inv(),
            final(self)@ == step_tag_name(old(self)@),
    {
        proof {
            reveal(step_tag_name);
        }
        let c = self.read();
        match c {
            Some(ch) => {
                if is_ws_char(ch) {
                    self.state = State::BeforeAttributeNameState;
                } else if ch == '/' {
                    self.state = State::SelfClosingStartState;
                } else if ch == '>' {
                    self.emit_current_token();
                    self.state = State::DataState;
                } else if is_upper_char(ch) {
                    self.add_to_token_name(to_ascii_lower(ch));
                } else if ch == CHAR_NUL {
                    self.add_to_token_name(CHAR_REPLACEMENT);
                    self.parse_error(ParserError::UnexpectedNullCharacter);
                } else {
                    self.add_to_token_name(ch);
                }
            },
            None => {
                self.parse_error(ParserError::EofInTag);
                self.emit_token(Token::EofToken);
            },
        }
    }

    fn state_less_than_sign(&mut self, end_tag_open: State, back: State)
        requires
            old(self).inv(),
            runnable_state(end_tag_open),
            runnable_state(back),
        ensures
            final(self).inv(),
            final(self)@ == less_than_sign(old(self)@, end_tag_open, back),
    {
        proof {
            reveal(less_than_sign);
        }
        let c = self.read();
        match c {
            Some('/') => {
                self.temporary_buffer = Vec::new();
                self.state = end_tag_open;
            },
            _ => {
                self.consume('<');
                self.unread();
                self.state = back;
            },
        }
    }

    fn state_end_tag_open_in(&mut self, name_state: State, back: State)
        requires
            old(self).inv(),
            runnable_state(name_state),
            runnable_state(back),
        ensures
            final(self).inv(),
            final(self)@ == end_tag_open(old(self)@, name_state, back),
    {
        proof {
            reveal(end_tag_open);
        }
        let c = self.read();
        match c {
            Some(ch) => {
                if is_alpha_char(ch) {
                    self.set_current(Self::new_end_tag_token());
                    self.temporary_buffer.push(lower_if_upper_char(ch));
                    self.state = name_state;
                } else {
                    self.consume('<');
                    self.consume('/');
                    self.unread();
                    self.state = back;
                }
            },
            None => {
                self.consume('<');
                self.consume('/');
                self.unread();
                self.state = back;
            },
        }
    }

    fn state_end_tag_name(&mut self, back: State)
        requires
            old(self).inv(),
            runnable_state(back),
        ensures
            final(self).inv(),
            final(self)@ == end_tag_name(old(self)@, back),
    {
        proof {
            reveal(end_tag_name);
        }
        let c = self.read();
        match c {
            Some(ch) => {
                if is_ws_char(ch) {
                    if self.is_appropriate_end_token(&self.temporary_buffer) {
                        self.state = State::BeforeAttributeNameState;
                    } else {
                        self.abandon_end_tag(back);
                    }
                } else if ch == '/' {
                    if self.is_appropriate_end_token(&self.temporary_buffer) {
                        self.state = State::SelfClosingStartState;
                    } else {
                        self.abandon_end_tag(back);
                    }
                } else if ch == '>' {
                    if self.is_appropriate_end_token(&self.temporary_buffer) {
                        let s = string_from_chars(&self.temporary_buffer);
                        self.set_name_in_current_token(s);
                        self.last_start_token = String::new();
                        self.emit_current_token();
                        self.state = State::DataState;
                    } else {
                        self.abandon_end_tag(back);
                    }
                } else if is_alpha_char(ch) {
                    self.temporary_buffer.push(lower_if_upper_char(ch));
                } else {
                    self.abandon_end_tag(back);
                }
            },
            None => self.abandon_end_tag(back),
        }
    }

    fn state_script_data_less_than_sign(&mut self)
        requires
            old(self).inv(),
        ensures
            final(self).inv(),
            final(self)@ == step_script_data_less_than_sign(old(self)@),
    {
        proof {
            reveal(step_script_data_less_than_sign);
        }
        let c = self.read();
        match c {
            Some('/') => {
                self.temporary_buffer = Vec::new();
                self.state = State::ScriptDataEndTagOpenState;
            },
            Some('!') => {
                self.consume('<');
                self.consume('!');
                self.state = State::ScriptDataEscapeStartState;
            },
            _ => {
                self.consume('<');
                self.unread();
                self.state = State::ScriptDataState;
            },
        }
    }

    fn state_script_end_tag_open(&mut self, name_state: State, back: State)
        requires
            old(self).inv(),
            runnable_state(name_state),
            runnable_state(back),
        ensures
            final(self).inv(),
            final(self)@ == script_end_tag_open(old(self)@, name_state, back),
    {
        proof {
            reveal(script_end_tag_open);
        }
        let c = self.read();
        match c {
            Some(ch) => {
                if is_alpha_char(ch) {
                    self.set_current(Self::new_end_tag_token());
                    self.unread();
                    self.state = name_state;
                } else {
                    self.consume('<');
                    self.consume('/');
                    self.unread();
                    self.state = back;
                }
            },
            None => {
                self.consume('<');
                self.consume('/');
                self.unread();
                self.state = back;
            },
        }
    }

    fn state_escape_start(&mut self, next: State)
        requires
            old(self).inv(),
            runnable_state(next),
        ensures
            final(self).inv(),
            final(self)@ == escape_start(old(self)@, next),
    {
        proof {
            reveal(escape_start);
        }
        let c = self.read();
        match c {
            Some('-') => {
                self.consume('-');
                self.state = next;
            },
            _ => {
                self.unread();
                self.state = State::ScriptDataState;
            },
        }
    }

    fn state_script_data_escaped(&mut self)
        requires
            old(self).inv(),
        ensures
            final(self).inv(),
            final(self)@ == step_script_data_escaped(old(self)@),
    {
        proof {
            reveal(step_script_data_escaped);
        }
        let c = self.read();
        match c {
            Some('-') => {
                self.consume('-');
                self.state = State::ScriptDataEscapedDashState;
            },
            Some('<') => self.state = State::ScriptDataEscapedLessThanSignState,
            Some(CHAR_NUL) => {
                self.parse_error(ParserError::UnexpectedNullCharacter);
                self.consume(CHAR_REPLACEMENT);
            },
            None => {
                self.parse_error(ParserError::EofInScriptHtmlCommentLikeText);
                self.state = State::DataState;
            },
            Some(ch) => self.consume(ch),
        }
    }

    fn state_script_data_escaped_dash(&mut self)
        requires
            old(self).inv(),
        ensures
            final(self).inv(),
            final(self)@ == step_script_data_escaped_dash(old(self)@),
    {
        proof {
            reveal(step_script_data_escaped_dash);
        }
        let c = self.read();
        match c {
            Some('-') => {
                self.consume('-');
                self.state = State::ScriptDataEscapedDashDashState;
            },
            Some('<') => self.state = State::ScriptDataEscapedLessThanSignState,
            Some(CHAR_NUL) => {
                self.parse_error(ParserError::UnexpectedNullCharacter);
                self.consume(CHAR_REPLACEMENT);
                self.state = State::ScriptDataEscapedState;
            },
            None => {
                self.parse_error(ParserError::EofInScriptHtmlCommentLikeText);
                self.state = State::DataState;
            },
            Some(_) => {
                self.unread();
                self.state = State::ScriptDataEscapedState;
            },
        }
    }

    fn state_script_data_escaped_dash_dash(&mut self)
        requires
            old(self).inv(),
        ensures
            final(self).inv(),
            final(self)@ == step_script_data_escaped_dash_dash(old(self)@),
    {
        proof {
            reveal(step_script_data_escaped_dash_dash);
        }
        let c = self.read();
        match c {
            Some('-') => self.consume('-'),
            Some('<') => self.state = State::ScriptDataEscapedLessThanSignState,
            Some('>') => {
                self.consume('>');
                self.state = State::ScriptDataState;
            },
            Some(CHAR_NUL) => {
                self.parse_error(ParserError::UnexpectedNullCharacter);
                self.consume(CHAR_REPLACEMENT);
                self.state = State::ScriptDataEscapedState;
            },
            None => {
                self.parse_error(ParserError::EofInScriptHtmlCommentLikeText);
                self.state = State::DataState;
            },
            Some(_) => {
                self.unread();
                self.state = State::ScriptDataEscapedState;
            },
        }
    }

    fn state_script_data_escaped_less_than_sign(&mut self)
        requires
            old(self).inv(),
        ensures
            final(self).inv(),
            final(self)@ == step_script_data_escaped_less_than_sign(old(self)@),
    {
        proof {
            reveal(step_script_data_escaped_less_than_sign);
        }
        let c = self.read();
        match c {
            Some('/') => {
                self.temporary_buffer = Vec::new();
                self.state = State::ScriptDataEscapedEndTagOpenState;
            },
            Some(ch) => {
                if is_alpha_char(ch) {
                    self.temporary_buffer = Vec::new();
                    self.consume('<');
                    self.unread();
                    self.state = State::ScriptDataDoubleEscapeStartState;
                } else {
                    // anything else
                    self.consume('<');
                    self.unread();
                    self.state = State::ScriptDataEscapedState;
                }
            },
            None => {
                self.consume('<');
                self.unread();
                self.state = State::ScriptDataEscapedState;
            },
        }
    }

    fn state_double_escape(&mut self, if_script: State, otherwise: State, back: State)
        requires
            old(self).inv(),
            runnable_state(if_script),
            runnable_state(otherwise),
            runnable_state(back),
        ensures
            final(self).inv(),
            final(self)@ == double_escape(old(self)@, if_script, otherwise, back),
    {
        proof {
            reveal(double_escape);
        }
        let c = self.read();
        match c {
            Some(ch) => {
                if is_ws_char(ch) || ch == '/' || ch == '>' {
                    let s = string_from_chars(&self.temporary_buffer);
                    if str_eq(s.as_str(), "script") {
                        self.state = if_script;
                    } else {
                        self.state = otherwise;
                    }
                    self.consume(ch);
                } else if is_alpha_char(ch) {
                    self.temporary_buffer.push(lower_if_upper_char(ch));
                    self.consume(ch);
                } else {
                    self.unread();
                    self.state = back;
                }
            },
            None => {
                self.unread();
                self.state = back;
            },
        }
    }

    fn state_script_data_double_escaped(&mut self)
        requires
            old(self).inv(),
        ensures
            final(self).inv(),
            final(self)@ == step_script_data_double_escaped(old(self)@),
    {
        proof {
            reveal(step_script_data_double_escaped);
        }
        let c = self.read();
        match c {
            Some('-') => {
                self.consume('-');
                self.state = State::ScriptDataDoubleEscapedDashState;
            },
            Some('<') => {
                self.consume('<');
                self.state = State::ScriptDataDoubleEscapedLessThanSignState;
            },
            Some(CHAR_NUL) => {
                self.parse_error(ParserError::UnexpectedNullCharacter);
                self.consume(CHAR_REPLACEMENT);
            },
            None => {
                self.parse_error(ParserError::EofInScriptHtmlCommentLikeText);
                self.state = State::DataState;
            },
            Some(ch) => self.consume(ch),
        }
    }

    fn state_script_data_double_escaped_dash(&mut self)
        requires
            old(self).inv(),
        ensures
            final(self).inv(),
            final(self)@ == step_script_data_double_escaped_dash(old(self)@),
    {
        proof {
            reveal(step_script_data_double_escaped_dash);
        }
        let c = self.read();
        match c {
            Some('-') => {
                self.state = State::ScriptDataDoubleEscapedDashDashState;
                self.consume('-');
            },
            Some('<') => {
                self.state = State::ScriptDataDoubleEscapedLessThanSignState;
                self.consume('<');
            },
            Some(CHAR_NUL) => {
                self.parse_error(ParserError::UnexpectedNullCharacter);
                self.consume(CHAR_REPLACEMENT);
                self.state = State::ScriptDataDoubleEscapedState;
            },
            None => {
                self.parse_error(ParserError::EofInScriptHtmlCommentLikeText);
                self.state = State::DataState;
            },
            Some(ch) => {
                self.consume(ch);
                self.state = State::ScriptDataDoubleEscapedState;
            },
        }
    }

    fn state_script_data_double_escaped_dash_dash(&mut self)
        requires
            old(self).inv(),
        ensures
            final(self).inv(),
            final(self)@ == step_script_data_double_escaped_dash_dash(old(self)@),
    {
        proof {
            reveal(step_script_data_double_escaped_dash_dash);
        }
        let c = self.read();
        match c {
            Some('-') => self.consume('-'),
            Some('<') => {
                self.consume('<');
                self.state = State::ScriptDataDoubleEscapedLessThanSignState;
            },
            Some('>') => {
                self.consume('>');
                self.state = State::ScriptDataState;
            },
            Some(CHAR_NUL) => {
                self.parse_error(ParserError::UnexpectedNullCharacter);
                self.consume(CHAR_REPLACEMENT);
                self.state = State::ScriptDataDoubleEscapedState;
            },
            None => {
                self.parse_error(ParserError::EofInScriptHtmlCommentLikeText);
                self.state = State::DataState;
            },
            Some(ch) => {
                self.consume(ch);
                self.state = State::ScriptDataDoubleEscapedState;
            },
        }
    }

    fn state_script_data_double_escaped_less_than_sign(&mut self)
        requires
            old(self).inv(),
        ensures
            final(self).inv(),
            final(self)@ == step_script_data_double_escaped_less_than_sign(old(self)@),
    {
        proof {
            reveal(step_script_data_double_escaped_less_than_sign);
        }
        let c = self.read();
        match c {
            Some('/') => {
                self.temporary_buffer = Vec::new();
                self.consume('/');
                self.state = State::ScriptDataDoubleEscapeEndState;
            },
            _ => {
                self.unread();
                self.state = State::ScriptDataDoubleEscapedState;
            },
        }
    }

    fn state_before_attribute_name(&mut self)
        requires
            old(self).inv(),
        ensures
            final(self).inv(),
            final(self)@ == step_before_attribute_name(old(self)@),
    {
        proof {
            reveal(step_before_attribute_name);
        }
        let c = self.read();
        match c {
            Some(ch) => {
                if is_ws_char(ch) {
                    // Ignore character
                } else if ch == '/' || ch == '>' {
                    self.unread();
                    self.state = State::AfterAttributeNameState;
                } else if ch == '=' {
                    self.parse_error(ParserError::UnexpectedEqualsSignBeforeAttributeName);
                    self.flush_attribute();
                    self.unread();
                    self.state = State::AttributeNameState;
                } else {
                    self.flush_attribute();
                    self.unread();
                    self.state = State::AttributeNameState;
                }
            },
            None => {
                self.unread();
                self.state = State::AfterAttributeNameState;
            },
        }
    }

    fn state_attribute_name(&mut self)
        requires
            old(self).inv(),
        ensures
            final(self).inv(),
            final(self)@ == step_attribute_name(old(self)@),
    {
        proof {
            reveal(step_attribute_name);
        }
        let c = self.read();
        match c {
            Some(ch) => {
                if is_ws_char(ch) || ch == '>' {
                    self.unread();
                    self.state = State::AfterAttributeNameState;
                } else if ch == '=' {
                    self.state = State::BeforeAttributeValueState;
                } else if is_upper_char(ch) {
                    self.push_attr_name(to_ascii_lower(ch));
                } else if ch == CHAR_NUL {
                    self.push_attr_name(CHAR_REPLACEMENT);
                    self.parse_error(ParserError::UnexpectedNullCharacter);
                } else if ch == '"' || ch == '\'' || ch == '<' {
                    self.parse_error(ParserError::UnexpectedCharacterInAttributeName);
                    self.push_attr_name(ch);
                } else {
                    self.push_attr_name(ch);
                }
            },
            None => {
                self.unread();
                self.state = State::AfterAttributeNameState;
            },
        }
    }

    fn state_after_attribute_name(&mut self)
        requires
            old(self).inv(),
        ensures
            final(self).inv(),
            final(self)@ == step_after_attribute_name(old(self)@),
    {
        proof {
            reveal(step_after_attribute_name);
        }
        let c = self.read();
        match c {
            Some(ch) => {
                if is_ws_char(ch) {
                    // Ignore
                } else if ch == '/' {
                    self.state = State::SelfClosingStartState;
                } else if ch == '=' {
                    self.state = State::BeforeAttributeValueState;
                } else if ch == '>' {
                    self.state = State::DataState;
                    self.flush_attribute();
                    self.emit_current_token();
                } else {
                    self.flush_attribute();
                    self.state = State::AttributeNameState;
                }
            },
            None => {
                self.parse_error(ParserError::EofInTag);
                self.state = State::DataState;
            },
        }
    }

    fn state_before_attribute_value(&mut self)
        requires
            old(self).inv(),
        ensures
            final(self).inv(),
            final(self)@ == step_before_attribute_value(old(self)@),
    {
        proof {
            reveal(step_before_attribute_value);
        }
        let c = self.read();
        match c {
            Some(ch) => {
                if is_ws_char(ch) {
                    // Ignore
                } else if ch == '"' {
                    self.state = State::AttributeValueDoubleQuotedState;
                } else if ch == '&' {
                    self.state = State::AttributeValueUnquotedState;
                } else if ch == '\'' {
                    self.state = State::AttributeValueSingleQuotedState;
                } else if ch == '>' {
                    self.parse_error(ParserError::MissingAttributeValue);
                    self.flush_attribute();
                    self.emit_current_token();
                    self.state = State::DataState;
                } else {
                    self.unread();
                    self.state = State::AttributeValueUnquotedState;
                }
            },
            None => {
                self.unread();
                self.state = State::AttributeValueUnquotedState;
            },
        }
    }

    fn state_quoted_value(&mut self, quote: char)
        requires
            old(self).inv(),
        ensures
            final(self).inv(),
            final(self)@ == quoted_value(old(self)@, quote),
    {
        proof {
            reveal(quoted_value);
        }
        let c = self.read();
        match c {
            Some(ch) => {
                if ch == quote {
                    self.state = State::AfterAttributeValueQuotedState;
                } else if ch == CHAR_NUL {
                    self.push_attr_value(CHAR_REPLACEMENT);
                    self.parse_error(ParserError::UnexpectedNullCharacter);
                } else {
                    self.push_attr_value(ch);
                }
            },
            None => {
                self.parse_error(ParserError::EofInTag);
                self.state = State::DataState;
            },
        }
    }

    fn state_attribute_value_unquoted(&mut self)
        requires
            old(self).inv(),
        ensures
            final(self).inv(),
            final(self)@ == step_attribute_value_unquoted(old(self)@),
    {
        proof {
            reveal(step_attribute_value_unquoted);
        }
        let c = self.read();
        match c {
            Some(ch) => {
                if is_ws_char(ch) {
                    self.state = State::BeforeAttributeNameState;
                } else if ch == '>' {
                    self.flush_attribute();
                    self.emit_current_token();
                    self.state = State::DataState;
                } else if ch == CHAR_NUL {
                    self.push_attr_value(CHAR_REPLACEMENT);
                    self.parse_error(ParserError::UnexpectedNullCharacter);
                } else if ch == '"' || ch == '\'' || ch == '<' || ch == '=' || ch == '`' {
                    self.parse_error(ParserError::UnexpectedCharacterInUnquotedAttributeValue);
                    self.push_attr_value(ch);
                } else {
                    self.push_attr_value(ch);
                }
            },
            None => {
                self.parse_error(ParserError::EofInTag);
                self.state = State::DataState;
            },
        }
    }

    fn state_after_attribute_value_quoted(&mut self)
        requires
            old(self).inv(),
        ensures
            final(self).inv(),
            final(self)@ == step_after_attribute_value_quoted(old(self)@),
    {
        proof {
            reveal(step_after_attribute_value_quoted);
        }
        let c = self.read();
        match c {
            Some(ch) => {
                if is_ws_char(ch) {
                    self.state = State::BeforeAttributeNameState;
                } else if ch == '/' {
                    self.state = State::SelfClosingStartState;
                } else if ch == '>' {
                    self.flush_attribute();
                    self.emit_current_token();
                    self.state = State::DataState;
                } else {
                    self.parse_error(ParserError::MissingWhitespaceBetweenAttributes);
                    self.unread();
                    self.state = State::BeforeAttributeNameState;
                }
            },
            None => {
                self.parse_error(ParserError::EofInTag);
                self.state = State::DataState;
            },
        }
    }

    fn state_self_closing_start(&mut self)
        requires
            old(self).inv(),
        ensures
            final(self).inv(),
            final(self)@ == step_self_closing_start(old(self)@),
    {
        proof {
            reveal(step_self_closing_start);
        }
        let c = self.read();
        match c {
            Some('>') => {
                self.set_is_closing_in_current_token(true);
                self.flush_attribute();
                self.emit_current_token();
                self.state = State::DataState;
            },
            None => {
                self.parse_error(ParserError::EofInTag);
                self.state = State::DataState;
            },
            Some(_) => {
                self.parse_error(ParserError::UnexpectedSolidusInTag);
                self.unread();
                self.state = State::BeforeAttributeNameState;
            },
        }
    }

    fn state_bogus_comment(&mut self)
        requires
            old(self).inv(),
        ensures
            final(self).inv(),
            final(self)@ == step_bogus_comment(old(self)@),
    {
        proof {
            reveal(step_bogus_comment);
        }
        let c = self.read();
        match c {
            Some('>') => {
                self.emit_current_token();
                self.state = State::DataState;
            },
            None => {
                self.parse_error(ParserError::EofInTag);
                self.emit_current_token();
                self.state = State::DataState;
            },
            Some(CHAR_NUL) => {
                self.add_to_token_value(CHAR_REPLACEMENT);
                self.parse_error(ParserError::UnexpectedNullCharacter);
            },
            Some(ch) => self.add_to_token_value(ch),
        }
    }

    fn state_markup_declaration_open(&mut self)
        requires
            old(self).inv(),
        ensures
            final(self).inv(),
            final(self)@ == step_markup_declaration_open(old(self)@),
    {
        proof {
            reveal(step_markup_declaration_open);
        }
        let left = self.stream.chars_left();
        if left >= 2 && str_eq(self.stream.look_ahead_slice(2).as_str(), "--") {
            self.set_current(Self::new_empty_comment_token());
            // Skip the two -- signs
            let off = self.offset();
            self.seek(off + 2);
            self.state = State::CommentStartState;
            return ;
        }
        if left >= 7 && str_eq(
            to_ascii_lowercase(self.stream.look_ahead_slice(7).as_str()).as_str(),
            "doctype",
        ) {
            let off = self.offset();
            self.seek(off + 7);
            self.state = State::DocTypeState;
            return ;
        }
        if left >= 7 && str_eq(self.stream.look_ahead_slice(7).as_str(), "[CDATA[") {
            let off = self.offset();
            self.seek(off + 7);
            // The adjusted current node is not known here: this is
            // cdata-in-html-content, and the rest is a bogus comment.
            self.parse_error(ParserError::CdataInHtmlContent);
            self.set_current(Self::new_comment_token("[CDATA["));
            self.state = State::BogusCommentState;
            return ;
        }
        self.parse_error(ParserError::IncorrectlyOpenedComment);
        self.set_current(Self::new_empty_comment_token());
        self.state = State::BogusCommentState;
    }

    fn state_comment_start(&mut self)
        requires
            old(self).inv(),
        ensures
            final(self).inv(),
            final(self)@ == step_comment_start(old(self)@),
    {
        proof {
            reveal(step_comment_start);
        }
        let c = self.read();
        match c {
            Some('-') => self.state = State::CommentStartDashState,
            Some('>') => {
                self.parse_error(ParserError::AbruptClosingOfEmptyComment);
                self.emit_current_token();
                self.state = State::DataState;
            },
            _ => {
                self.unread();
                self.state = State::CommentState;
            },
        }
    }

    fn state_comment_start_dash(&mut self)
        requires
            old(self).inv(),
        ensures
            final(self).inv(),
            final(self)@ == step_comment_start_dash(old(self)@),
    {
        proof {
            reveal(step_comment_start_dash);
        }
        let c = self.read();
        match c {
            Some('-') => self.state = State::CommentEndState,
            Some('>') => {
                self.parse_error(ParserError::AbruptClosingOfEmptyComment);
                self.emit_current_token();
                self.state = State::DataState;
            },
            None => {
                self.parse_error(ParserError::EofInTag);
                self.emit_current_token();
                self.state = State::DataState;
            },
            Some(_) => {
                self.add_to_token_value('-');
                self.unread();
                self.state = State::CommentState;
            },
        }
    }

    fn state_comment(&mut self)
        requires
            old(self).inv(),
        ensures
            final(self).inv(),
            final(self)@ == step_comment(old(self)@),
    {
        proof {
            reveal(step_comment);
        }
        let c = self.read();
        match c {
            Some('<') => {
                self.add_to_token_value('<');
                self.state = State::CommentLessThanSignState;
            },
            Some('-') => self.state = State::CommentEndDashState,
            Some(CHAR_NUL) => {
                self.parse_error(ParserError::UnexpectedNullCharacter);
                self.add_to_token_value(CHAR_REPLACEMENT);
            },
            None => {
                self.parse_error(ParserError::EofInComment);
                self.emit_current_token();
                self.state = State::DataState;
            },
            Some(ch) => self.add_to_token_value(ch),
        }
    }

    fn state_comment_less_than_sign(&mut self)
        requires
            old(self).inv(),
        ensures
            final(self).inv(),
            final(self)@ == step_comment_less_than_sign(old(self)@),
    {
        proof {
            reveal(step_comment_less_than_sign);
        }
        let c = self.read();
        match c {
            Some('!') => {
                self.add_to_token_value('!');
                self.state = State::CommentLessThanSignBangState;
            },
            Some('<') => self.add_to_token_value('<'),
            _ => {
                self.unread();
                self.state = State::CommentState;
            },
        }
    }

    fn state_comment_bang(&mut self, next: State, back: State)
        requires
            old(self).inv(),
            runnable_state(next),
            runnable_state(back),
        ensures
            final(self).inv(),
            final(self)@ == comment_bang(old(self)@, next, back),
    {
        proof {
            reveal(comment_bang);
        }
        let c = self.read();
        match c {
            Some('-') => self.state = next,
            _ => {
                self.unread();
                self.state = back;
            },
        }
    }

    fn state_comment_less_than_sign_bang_dash_dash(&mut self)
        requires
            old(self).inv(),
        ensures
            final(self).inv(),
            final(self)@ == step_comment_less_than_sign_bang_dash_dash(old(self)@),
    {
        proof {
            reveal(step_comment_less_than_sign_bang_dash_dash);
        }
        let c = self.read();
        match c {
            None => {
                self.unread();
                self.state = State::CommentEndState;
            },
            Some('>') => {
                self.unread();
                self.state = State::CommentEndState;
            },
            Some(_) => {
                self.parse_error(ParserError::NestedComment);
                self.unread();
                self.state = State::CommentEndState;
            },
        }
    }

    fn state_comment_end_dash(&mut self)
        requires
            old(self).inv(),
        ensures
            final(self).inv(),
            final(self)@ == step_comment_end_dash(old(self)@),
    {
        proof {
            reveal(step_comment_end_dash);
        }
        let c = self.read();
        match c {
            Some('-') => self.state = State::CommentEndState,
            None => {
                self.parse_error(ParserError::EofInComment);
                self.emit_current_token();
                self.state = State::DataState;
            },
            Some(_) => {
                self.add_to_token_value('-');
                self.unread();
                self.state = State::CommentState;
            },
        }
    }

    fn state_comment_end(&mut self)
        requires
            old(self).inv(),
        ensures
            final(self).inv(),
            final(self)@ == step_comment_end(old(self)@),
    {
        proof {
            reveal(step_comment_end);
        }
        let c = self.read();
        match c {
            Some('>') => {
                self.emit_current_token();
                self.state = State::DataState;
            },
            Some('!') => self.state = State::CommentEndBangState,
            Some('-') => self.add_to_token_value('-'),
            None => {
                self.parse_error(ParserError::EofInComment);
                self.emit_current_token();
                self.state = State::DataState;
            },
            Some(_) => {
                self.add_to_token_value('-');
                self.add_to_token_value('-');
                self.unread();
                self.state = State::CommentState;
            },
        }
    }

    fn state_comment_end_bang(&mut self)
        requires
            old(self).inv(),
        ensures
            final(self).inv(),
            final(self)@ == step_comment_end_bang(old(self)@),
    {
        proof {
            reveal(step_comment_end_bang);
        }
        let c = self.read();
        match c {
            Some('-') => {
                self.add_to_token_value('-');
                self.add_to_token_value('-');
                self.add_to_token_value('!');
                self.state = State::CommentEndDashState;
            },
            Some('>') => {
                self.parse_error(ParserError::IncorrectlyClosedComment);
                self.emit_current_token();
                self.state = State::DataState;
            },
            None => {
                self.parse_error(ParserError::EofInComment);
                self.emit_current_token();
                self.state = State::DataState;
            },
            Some(_) => {
                self.add_to_token_value('-');
                self.add_to_token_value('-');
                self.add_to_token_value('!');
                self.unread();
                self.state = State::CommentState;
            },
        }
    }

    fn state_doctype(&mut self)
        requires
            old(self).inv(),
        ensures
            final(self).inv(),
            final(self)@ == step_doctype(old(self)@),
    {
        proof {
            reveal(step_doctype);
        }
        let c = self.read();
        match c {
            Some(ch) => {
                if is_ws_char(ch) {
                    self.state = State::BeforeDocTypeNameState;
                } else if ch == '>' {
                    self.unread();
                    self.state = State::BeforeDocTypeNameState;
                } else {
                    self.parse_error(ParserError::MissingWhitespaceBeforeDoctypeName);
                    self.unread();
                    self.state = State::BeforeDocTypeNameState;
                }
            },
            None => {
                self.parse_error(ParserError::EofInDoctype);
                self.emit_token(Self::new_doctype_token(true));
                self.state = State::DataState;
            },
        }
    }

    fn state_before_doctype_name(&mut self)
        requires
            old(self).inv(),
        ensures
            final(self).inv(),
            final(self)@ == step_before_doctype_name(old(self)@),
    {
        proof {
            reveal(step_before_doctype_name);
        }
        let c = self.read();
        match c {
            Some(ch) => {
                if is_ws_char(ch) {
                    // ignore
                } else if is_upper_char(ch) {
                    self.set_current(Self::new_doctype_token(false));
                    self.add_to_token_name(to_ascii_lower(ch));
                    self.state = State::DocTypeNameState;
                } else if ch == CHAR_NUL {
                    self.parse_error(ParserError::UnexpectedNullCharacter);
                    self.set_current(Self::new_doctype_token(false));
                    self.add_to_token_name(CHAR_REPLACEMENT);
                    self.state = State::DocTypeNameState;
                } else if ch == '>' {
                    self.parse_error(ParserError::MissingDoctypeName);
                    self.emit_token(Self::new_doctype_token(true));
                    self.state = State::DataState;
                } else {
                    self.set_current(Self::new_doctype_token(false));
                    self.add_to_token_name(ch);
                    self.state = State::DocTypeNameState;
                }
            },
            None => {
                self.parse_error(ParserError::EofInDoctype);
                self.emit_token(Self::new_doctype_token(true));
                self.state = State::DataState;
            },
        }
    }

    fn state_doctype_name(&mut self)
        requires
            old(self).inv(),
        ensures
            final(self).inv(),
            final(self)@ == step_doctype_name(old(self)@),
    {
        proof {
            reveal(step_doctype_name);
        }
        let c = self.read();
        match c {
            Some(ch) => {
                if is_ws_char(ch) {
                    self.state = State::AfterDocTypeNameState;
                } else if ch == '>' {
                    self.emit_current_token();
                    self.state = State::DataState;
                } else if is_upper_char(ch) {
                    self.add_to_token_name(to_ascii_lower(ch));
                } else if ch == CHAR_NUL {
                    self.parse_error(ParserError::UnexpectedNullCharacter);
                    self.add_to_token_name(CHAR_REPLACEMENT);
                } else {
                    self.add_to_token_name(ch);
                }
            },
            None => {
                self.parse_error(ParserError::EofInDoctype);
                self.set_quirks_mode(true);
                self.emit_current_token();
                self.state = State::DataState;
            },
        }
    }

    /// EOF in a doctype: quirks mode, and the doctype is emitted.
    fn doctype_eof(&mut self)
        requires
            old(self).inv(),
        ensures
            final(self).inv(),
            final(self)@ == doctype_eof(old(self)@),
    {
        self.parse_error(ParserError::EofInDoctype);
        self.set_quirks_mode(true);
        self.emit_current_token();
        self.state = State::DataState;
    }

    /// Something unexpected in a doctype: quirks mode, and the rest is bogus.
    fn doctype_bogus(&mut self, e: ParserError)
        requires
            old(self).inv(),
        ensures
            final(self).inv(),
            final(self)@ == doctype_bogus(old(self)@, e),
    {
        self.parse_error(e);
        self.set_quirks_mode(true);
        self.unread();
        self.state = State::BogusDocTypeState;
    }

    fn state_after_doctype_name(&mut self)
        requires
            old(self).inv(),
        ensures
            final(self).inv(),
            final(self)@ == step_after_doctype_name(old(self)@),
    {
        proof {
            reveal(step_after_doctype_name);
        }
        let c = self.read();
        match c {
            Some(ch) => {
                if is_ws_char(ch) {
                    // ignore
                } else if ch == '>' {
                    self.emit_current_token();
                    self.state = State::DataState;
                } else {
                    self.unread();
                    let left = self.stream.chars_left();
                    let word = str_to_uppercase(self.stream.look_ahead_slice(6).as_str());
                    if left >= 2 && str_eq(word.as_str(), "PUBLIC") {
                        let off = self.offset();
                        self.seek(off + 6);
                        self.state = State::AfterDocTypePublicKeywordState;
                        return ;
                    }
                    if left >= 2 && str_eq(word.as_str(), "SYSTEM") {
                        let off = self.offset();
                        self.seek(off + 6);
                        self.state = State::AfterDocTypeSystemKeywordState;
                        return ;
                    }
                    self.parse_error(ParserError::InvalidCharacterSequenceAfterDoctypeName);
                    self.set_quirks_mode(true);
                    self.state = State::BogusDocTypeState;
                }
            },
            None => self.doctype_eof(),
        }
    }

    fn state_after_keyword(
        &mut self,
        public: bool,
        before_state: State,
        dq: State,
        sq: State,
        missing_ws: ParserError,
        missing_id: ParserError,
        missing_quote: ParserError,
    )
        requires
            old(self).inv(),
            runnable_state(before_state),
            runnable_state(dq),
            runnable_state(sq),
        ensures
            final(self).inv(),
            final(self)@ == after_keyword(
                old(self)@,
                public,
                before_state,
                dq,
                sq,
                missing_ws,
                missing_id,
                missing_quote,
            ),
    {
        proof {
            reveal(after_keyword);
        }
        let c = self.read();
        match c {
            Some(ch) => {
                if is_ws_char(ch) {
                    self.state = before_state;
                } else if ch == '"' || ch == '\'' {
                    self.parse_error(missing_ws);
                    if public {
                        self.set_public_identifier(String::new());
                    } else {
                        self.set_system_identifier(String::new());
                    }
                    self.state = if ch == '"' {
                        dq
                    } else {
                        sq
                    };
                } else if ch == '>' {
                    self.parse_error(missing_id);
                    self.set_quirks_mode(true);
                    self.emit_current_token();
                    self.state = State::DataState;
                } else {
                    self.doctype_bogus(missing_quote);
                }
            },
            None => self.doctype_eof(),
        }
    }

    fn state_before_identifier(
        &mut self,
        public: bool,
        dq: State,
        sq: State,
        missing_id: ParserError,
        missing_quote: ParserError,
    )
        requires
            old(self).inv(),
            runnable_state(dq),
            runnable_state(sq),
        ensures
            final(self).inv(),
            final(self)@ == before_identifier(old(self)@, public, dq, sq, missing_id, missing_quote),
    {
        proof {
            reveal(before_identifier);
        }
        let c = self.read();
        match c {
            Some(ch) => {
                if is_ws_char(ch) {
                    // ignore
                } else if ch == '"' || ch == '\'' {
                    if public {
                        self.set_public_identifier(String::new());
                    } else {
                        self.set_system_identifier(String::new());
                    }
                    self.state = if ch == '"' {
                        dq
                    } else {
                        sq
                    };
                } else if ch == '>' {
                    self.parse_error(missing_id);
                    self.set_quirks_mode(true);
                    self.emit_current_token();
                    self.state = State::DataState;
                } else {
                    self.doctype_bogus(missing_quote);
                }
            },
            None => self.doctype_eof(),
        }
    }

    fn state_quoted_identifier(
        &mut self,
        public: bool,
        quote: char,
        after: State,
        abrupt: ParserError,
    )
        requires
            old(self).inv(),
            runnable_state(after),
        ensures
            final(self).inv(),
            final(self)@ == quoted_identifier(old(self)@, public, quote, after, abrupt),
    {
        proof {
            reveal(quoted_identifier);
        }
        let c = self.read();
        match c {
            Some(ch) => {
                if ch == quote {
                    self.state = after;
                } else if ch == CHAR_NUL {
                    self.parse_error(ParserError::UnexpectedNullCharacter);
                    if public {
                        self.add_public_identifier(CHAR_REPLACEMENT);
                    } else {
                        self.add_system_identifier(CHAR_REPLACEMENT);
                    }
                } else if ch == '>' {
                    self.parse_error(abrupt);
                    self.set_quirks_mode(true);
                    self.emit_current_token();
                    self.state = State::DataState;
                } else if public {
                    self.add_public_identifier(ch);
                } else {
                    self.add_system_identifier(ch);
                }
            },
            None => self.doctype_eof(),
        }
    }

    fn state_after_doctype_public_identifier(&mut self)
        requires
            old(self).inv(),
        ensures
            final(self).inv(),
            final(self)@ == step_after_doctype_public_identifier(old(self)@),
    {
        proof {
            reveal(step_after_doctype_public_identifier);
        }
        let c = self.read();
        match c {
            Some(ch) => {
                if is_ws_char(ch) {
                    self.state = State::BetweenDocTypePublicAndSystemIdentifiersState;
                } else if ch == '>' {
                    self.emit_current_token();
                    self.state = State::DataState;
                } else if ch == '"' || ch == '\'' {
                    self.parse_error(
                        ParserError::MissingWhitespaceBetweenDoctypePublicAndSystemIdentifiers,
                    );
                    self.set_system_identifier(String::new());
                    self.state = if ch == '"' {
                        State::DocTypeSystemIdentifierDoubleQuotedState
                    } else {
                        State::DocTypeSystemIdentifierSingleQuotedState
                    };
                } else {
                    self.doctype_bogus(ParserError::MissingQuoteBeforeDoctypeSystemIdentifier);
                }
            },
            None => self.doctype_eof(),
        }
    }

    fn state_between_doctype_identifiers(&mut self)
        requires
            old(self).inv(),
        ensures
            final(self).inv(),
            final(self)@ == step_between_doctype_identifiers(old(self)@),
    {
        proof {
            reveal(step_between_doctype_identifiers);
        }
        let c = self.read();
        match c {
            Some(ch) => {
                if is_ws_char(ch) {
                    // ignore
                } else if ch == '>' {
                    self.emit_current_token();
                    self.state = State::DataState;
                } else if ch == '"' || ch == '\'' {
                    self.set_system_identifier(String::new());
                    self.state = if ch == '"' {
                        State::DocTypeSystemIdentifierDoubleQuotedState
                    } else {
                        State::DocTypeSystemIdentifierSingleQuotedState
                    };
                } else {
                    self.doctype_bogus(ParserError::MissingQuoteBeforeDoctypeSystemIdentifier);
                }
            },
            None => self.doctype_eof(),
        }
    }

    fn state_after_doctype_system_identifier(&mut self)
        requires
            old(self).inv(),
        ensures
            final(self).inv(),
            final(self)@ == step_after_doctype_system_identifier(old(self)@),
    {
        proof {
            reveal(step_after_doctype_system_identifier);
        }
        let c = self.read();
        match c {
            Some(ch) => {
                if is_ws_char(ch) {
                    // ignore
                } else if ch == '>' {
                    self.emit_current_token();
                    self.state = State::DataState;
                } else {
                    self.parse_error(ParserError::UnexpectedCharacterAfterDoctypeSystemIdentifier);
                    self.unread();
                    self.state = State::BogusDocTypeState;
                }
            },
            None => self.doctype_eof(),
        }
    }

    fn state_bogus_doctype(&mut self)
        requires
            old(self).inv(),
        ensures
            final(self).inv(),
            final(self)@ == step_bogus_doctype(old(self)@),
    {
        proof {
            reveal(step_bogus_doctype);
        }
        let c = self.read();
        match c {
            Some('>') => {
                self.emit_current_token();
                self.state = State::DataState;
            },
            Some(CHAR_NUL) => self.parse_error(ParserError::UnexpectedNullCharacter),
            None => {
                self.emit_current_token();
                self.state = State::DataState;
            },
            Some(_) => {
                // ignore
            },
        }
    }

    fn state_cdata_section(&mut self)
        requires
            old(self).inv(),
        ensures
            final(self).inv(),
            final(self)@ == step_cdata_section(old(self)@),
    {
        proof {
            reveal(step_cdata_section);
        }
        let c = self.read();
        match c {
            Some(']') => self.state = State::CDataSectionBracketState,
            None => {
                self.parse_error(ParserError::EofInCdata);
                self.emit_current_token();
                self.state = State::DataState;
            },
            Some(ch) => self.consume(ch),
        }
    }

    fn state_cdata_section_bracket(&mut self)
        requires
            old(self).inv(),
        ensures
            final(self).inv(),
            final(self)@ == step_cdata_section_bracket(old(self)@),
    {
        proof {
            reveal(step_cdata_section_bracket);
        }
        let c = self.read();
        match c {
            Some(']') => self.state = State::CDataSectionEndState,
            _ => {
                self.consume(']');
                self.unread();
                self.state = State::CDataSectionState;
            },
        }
    }

    fn state_cdata_section_end(&mut self)
        requires
            old(self).inv(),
        ensures
            final(self).inv(),
            final(self)@ == step_cdata_section_end(old(self)@),
    {
        proof {
            reveal(step_cdata_section_end);
        }
        let c = self.read();
        match c {
            Some(']') => self.consume(']'),
            Some('>') => self.state = State::DataState,
            _ => {
                self.consume(']');
                self.consume(']');
                self.unread();
                self.state = State::CDataSectionState;
            },
        }
    }
}

} // verus!
