//! Checking the tokenizer against the expectations of the html5lib tokenizer
//! tests: which token was expected, which parse errors, and the tallies.

use vstd::prelude::*;
use vstd::string::StrSliceExecFns;
use crate::html5_parser::text::{push_char, push_str, starts_with, str_eq, string_from_str};
use crate::html5_parser::token::{opt_chars, token_type, SpecToken, Token, TokenTrait, TokenType};
use crate::html5_parser::token_states::State;
use crate::html5_parser::tokenizer::{ParseError, Tokenizer};
use crate::html5_parser::tokenizer_spec::SpecError;

verus! {

/// A parse error that a test expects.
pub struct Error {
    pub code: String,
    pub line: i64,
    pub col: i64,
}

/// The tallies of a test run.
pub struct TestResults {
    /// Number of tests (as defined in the suite)
    pub tests: usize,
    /// Number of assertions (different combinations of input/output per test)
    pub assertions: usize,
    /// How many succeeded assertions
    pub succeeded: usize,
    /// How many failed assertions
    pub failed: usize,
    /// How many failed assertions where position is not correct
    pub failed_position: usize,
}

/// How the parse errors of a tokenizer compare with those a test expects.
#[derive(Debug, PartialEq, Eq, Structural, Clone, Copy)]
pub enum ErrorResult {
    Success,
    Failure,
    PositionFailure,
}

/// One value of an expected token, as the test files write it: a string, a
/// boolean, null, or anything else.
pub enum ExpectedValue {
    Str(String),
    Bool(bool),
    Null,
    Other,
}

/// An expected value, with its string taken as a character sequence.
pub enum ExpectedSpec {
    Str(Seq<char>),
    Bool(bool),
    Null,
    Other,
}

impl View for ExpectedValue {
    type V = ExpectedSpec;

    open spec fn view(&self) -> ExpectedSpec {
        match self {
            ExpectedValue::Str(s) => ExpectedSpec::Str(s@),
            ExpectedValue::Bool(b) => ExpectedSpec::Bool(*b),
            ExpectedValue::Null => ExpectedSpec::Null,
            ExpectedValue::Other => ExpectedSpec::Other,
        }
    }
}

/// An expected error, with its code taken as a character sequence.
pub struct ErrorSpec {
    pub code: Seq<char>,
    pub line: i64,
    pub col: i64,
}

impl View for Error {
    type V = ErrorSpec;

    open spec fn view(&self) -> ErrorSpec {
        ErrorSpec { code: self.code@, line: self.line, col: self.col }
    }
}


/// The value of a hexadecimal digit.
pub open spec fn hex_value(c: char) -> Option<u32> {
    if '0' <= c && c <= '9' {
        Some((c as u32 - '0' as u32) as u32)
    } else if 'a' <= c && c <= 'f' {
        Some((c as u32 - 'a' as u32 + 10) as u32)
    } else if 'A' <= c && c <= 'F' {
        Some((c as u32 - 'A' as u32 + 10) as u32)
    } else {
        None
    }
}

/// The value of four hexadecimal digits.
pub open spec fn hex4_value(s: Seq<char>) -> Option<u32> {
    if s.len() == 4 && hex_value(s[0]) is Some && hex_value(s[1]) is Some && hex_value(s[2]) is Some
        && hex_value(s[3]) is Some {
        Some(
            (hex_value(s[0])->0 * 4096 + hex_value(s[1])->0 * 256 + hex_value(s[2])->0 * 16
                + hex_value(s[3])->0) as u32,
        )
    } else {
        None
    }
}

/// Whether `u` is the code of a character (a Unicode scalar value).
pub open spec fn is_scalar(u: u32) -> bool {
    u <= 0xD7FF || (0xE000 <= u && u <= 0x10FFFF)
}

/// The replacement for the digits of one `\uXXXX` escape: the character
/// with that code, or the digits themselves for a surrogate code.
pub open spec fn unescaped(digits: Seq<char>) -> Seq<char> {
    match hex4_value(digits) {
        Some(v) => if 0xD800 <= v && v <= 0xDFFF {
            digits
        } else {
            seq![v as char]
        },
        None => digits,
    }
}

/// What `regex::Regex::replace_all` gives for the pattern
/// `\\u([0-9a-fA-F]{4})`, each match replaced by `unescaped` of its four
/// hexadecimal digits: scanning from the left, a backslash followed by `u`
/// and four hexadecimal digits is replaced and the scan goes on after it;
/// every other character is kept.
pub open spec fn unicode_escapes_replaced(input: Seq<char>) -> Seq<char>
    decreases input.len(),
{
    if input.len() == 0 {
        input
    } else if input.len() >= 6 && input[0] == '\\' && input[1] == 'u' && hex4_value(
        input.subrange(2, 6),
    ) is Some {
        unescaped(input.subrange(2, 6)) + unicode_escapes_replaced(
            input.subrange(6, input.len() as int),
        )
    } else {
        seq![input[0]] + unicode_escapes_replaced(input.drop_first())
    }
}

/// `char::from_u32`: the character with code `u`, when `u` is a Unicode
/// scalar value, and `None` otherwise.
#[verifier::external_body]
fn char_from_u32(u: u32) -> (r: Option<char>)
    ensures
        r == (if is_scalar(u) {
            Some(u as char)
        } else {
            None
        }),
{
    char::from_u32(u)
}

/// The value of a hexadecimal digit.
fn hex_digit_value(c: char) -> (r: Option<u32>)
    ensures
        r == hex_value(c),
{
    if '0' <= c && c <= '9' {
        Some(c as u32 - '0' as u32)
    } else if 'a' <= c && c <= 'f' {
        Some(c as u32 - 'a' as u32 + 10)
    } else if 'A' <= c && c <= 'F' {
        Some(c as u32 - 'A' as u32 + 10)
    } else {
        None
    }
}

/// The replacement for the digits of one `\uXXXX` escape (see `unescaped`).
pub fn unescape_code(digits: &str) -> (r: String)
    ensures
        r@ == unescaped(digits@),
{
    let n = digits.unicode_len();
    if n != 4 {
        return string_from_str(digits);
    }
    let mut value: u32 = 0;
    let mut i: usize = 0;
    while i < 4
        invariant
            digits@.len() == 4,
            i <= 4,
            forall|j: int| 0 <= j < i ==> hex_value(#[trigger] digits@[j]) is Some,
            value == (if i == 0 {
                0
            } else if i == 1 {
                hex_value(digits@[0])->0 as int
            } else if i == 2 {
                hex_value(digits@[0])->0 * 16 + hex_value(digits@[1])->0
            } else if i == 3 {
                hex_value(digits@[0])->0 * 256 + hex_value(digits@[1])->0 * 16 + hex_value(
                    digits@[2],
                )->0
            } else {
                hex_value(digits@[0])->0 * 4096 + hex_value(digits@[1])->0 * 256 + hex_value(
                    digits@[2],
                )->0 * 16 + hex_value(digits@[3])->0
            }),
        decreases 4 - i,
    {
        let c = digits.get_char(i);
        match hex_digit_value(c) {
            Some(d) => {
                value = value * 16 + d;
            },
            None => {
                return string_from_str(digits);
            },
        }
        i += 1;
    }
    if 0xD800 <= value && value <= 0xDFFF {
        return string_from_str(digits);
    }
    match char_from_u32(value) {
        Some(c) => {
            let mut r = String::new();
            push_char(&mut r, c);
            r
        },
        None => string_from_str(digits),
    }
}

/// `regex::Regex::new` and `Regex::replace_all` with the pattern
/// `\\u([0-9a-fA-F]{4})`: the contract claims that every leftmost,
/// non-overlapping match is replaced by `unescape_code` of its digits, as
/// `unicode_escapes_replaced` states.
#[verifier::external_body]
fn escape(input: &str) -> (r: String)
    ensures
        r@ == unicode_escapes_replaced(input@),
{
    let re = regex::Regex::new(r"\\u([0-9a-fA-F]{4})").unwrap();
    re.replace_all(input, |caps: &regex::Captures| unescape_code(&caps[1])).into_owned()
}


/// The string at index `i` of an expected token, if that value is a string;
/// `None` also past the end.
pub open spec fn str_at(e: Seq<ExpectedSpec>, i: int) -> Option<Seq<char>> {
    if 0 <= i < e.len() {
        match e[i] {
            ExpectedSpec::Str(s) => Some(s),
            _ => None,
        }
    } else {
        None
    }
}

/// The boolean at index `i` of an expected token, if that value is one.
pub open spec fn bool_at(e: Seq<ExpectedSpec>, i: int) -> Option<bool> {
    if 0 <= i < e.len() {
        match e[i] {
            ExpectedSpec::Bool(b) => Some(b),
            _ => None,
        }
    } else {
        None
    }
}

/// The token type that an expected token names.
pub open spec fn expected_type(name: Seq<char>) -> Option<TokenType> {
    if name == "DOCTYPE"@ {
        Some(TokenType::DocTypeToken)
    } else if name == "StartTag"@ {
        Some(TokenType::StartTagToken)
    } else if name == "EndTag"@ {
        Some(TokenType::EndTagToken)
    } else if name == "Comment"@ {
        Some(TokenType::CommentToken)
    } else if name == "Character"@ {
        Some(TokenType::TextToken)
    } else {
        None
    }
}

/// The expected text, unescaped when the test is double escaped.
pub open spec fn expected_text(s: Seq<char>, double_escaped: bool) -> Seq<char> {
    if double_escaped {
        unicode_escapes_replaced(s)
    } else {
        s
    }
}

/// Whether an expected token can be read for a token of the given kind:
/// it has a type that names a token kind, and the values that the check of
/// that kind reads are there (a string name for tags, comments and text,
/// four values for a doctype, and a name for a doctype that expects one).
pub open spec fn expectation_ok(have: SpecToken, e: Seq<ExpectedSpec>) -> bool {
    &&& str_at(e, 0) is Some
    &&& expected_type(str_at(e, 0)->0) is Some
    &&& (expected_type(str_at(e, 0)->0)->0 == token_type(have) ==> match have {
        SpecToken::DocType { name, .. } => e.len() >= 5 && (str_at(e, 1) is Some ==> name is Some),
        SpecToken::StartTag { .. } => str_at(e, 1) is Some,
        SpecToken::EndTag { .. } => str_at(e, 1) is Some,
        SpecToken::Comment { .. } => str_at(e, 1) is Some,
        SpecToken::Text { .. } => str_at(e, 1) is Some,
        SpecToken::Eof => true,
    })
}

/// Whether a token meets an expected token: the same kind, and for a
/// doctype the expected name and identifiers and the expected correctness
/// (the fifth value of an expected doctype, which is true exactly when the
/// force-quirks flag is off); for tags the expected name, and for comments
/// and text the expected text.
pub open spec fn token_matches(have: SpecToken, e: Seq<ExpectedSpec>, double_escaped: bool) -> bool {
    let kind = expected_type(str_at(e, 0)->0)->0;
    if token_type(have) != kind {
        false
    } else {
        match have {
            SpecToken::DocType { name, force_quirks, pub_identifier, sys_identifier } => {
                &&& !(str_at(e, 1) is None && name is Some)
                &&& !(str_at(e, 1) is Some && str_at(e, 1) != name)
                &&& !(bool_at(e, 4) is Some && bool_at(e, 4)->0 == force_quirks)
                &&& str_at(e, 2) == pub_identifier
                &&& str_at(e, 3) == sys_identifier
            },
            SpecToken::StartTag { name, .. } => name == str_at(e, 1)->0,
            SpecToken::EndTag { name } => name == expected_text(str_at(e, 1)->0, double_escaped),
            SpecToken::Comment { value } => value == expected_text(
                str_at(e, 1)->0,
                double_escaped,
            ),
            SpecToken::Text { value } => value == expected_text(str_at(e, 1)->0, double_escaped),
            SpecToken::Eof => false,
        }
    }
}

/// The string at index `i` of an expected token, if that value is a string.
fn expected_str(expected: &[ExpectedValue], i: usize) -> (r: Option<&str>)
    ensures
        match r {
            Some(s) => str_at(expected@.map_values(|v: ExpectedValue| v@), i as int) == Some(s@),
            None => str_at(expected@.map_values(|v: ExpectedValue| v@), i as int) is None,
        },
{
    if i < expected.len() {
        match &expected[i] {
            ExpectedValue::Str(s) => Some(s.as_str()),
            _ => None,
        }
    } else {
        None
    }
}

/// The boolean at index `i` of an expected token, if that value is one.
fn expected_bool(expected: &[ExpectedValue], i: usize) -> (r: Option<bool>)
    ensures
        r == bool_at(expected@.map_values(|v: ExpectedValue| v@), i as int),
{
    if i < expected.len() {
        match &expected[i] {
            ExpectedValue::Bool(b) => Some(*b),
            _ => None,
        }
    } else {
        None
    }
}

/// Whether two optional strings are the same.
fn same_opt(a: Option<&str>, b: &Option<String>) -> (r: bool)
    ensures
        r == (match a {
            Some(s) => Some(s@),
            None => None,
        } == opt_chars(*b)),
{
    match (a, b) {
        (Some(x), Some(y)) => str_eq(x, y.as_str()),
        (None, None) => true,
        _ => false,
    }
}

/// The text, with its `\uXXXX` escapes replaced when the test is double
/// escaped.
pub fn unescape_if(s: &str, double_escaped: bool) -> (r: String)
    ensures
        r@ == expected_text(s@, double_escaped),
{
    if double_escaped {
        escape(s)
    } else {
        string_from_str(s)
    }
}

/// Whether `match_token` can read the expected token for this token (see
/// `expectation_ok`).
pub fn can_match(have: &Token, expected: &[ExpectedValue]) -> (r: bool)
    ensures
        r == expectation_ok(have@, expected@.map_values(|v: ExpectedValue| v@)),
{
    let tp = match expected_str(expected, 0) {
        Some(t) => t,
        None => {
            return false;
        },
    };
    let kind = if str_eq(tp, "DOCTYPE") {
        TokenType::DocTypeToken
    } else if str_eq(tp, "StartTag") {
        TokenType::StartTagToken
    } else if str_eq(tp, "EndTag") {
        TokenType::EndTagToken
    } else if str_eq(tp, "Comment") {
        TokenType::CommentToken
    } else if str_eq(tp, "Character") {
        TokenType::TextToken
    } else {
        return false;
    };
    if have.type_of() != kind {
        return true;
    }
    match have {
        Token::DocTypeToken { name, .. } => expected.len() >= 5 && (expected_str(expected, 1).is_none()
            || name.is_some()),
        Token::EofToken => true,
        _ => expected_str(expected, 1).is_some(),
    }
}

/// Whether the token meets the expected token (see `token_matches`).
pub fn match_token(have: Token, expected: &[ExpectedValue], double_escaped: bool) -> (r: bool)
    requires
        expectation_ok(have@, expected@.map_values(|v: ExpectedValue| v@)),
    ensures
        r == token_matches(have@, expected@.map_values(|v: ExpectedValue| v@), double_escaped),
{
    let ghost e = expected@.map_values(|v: ExpectedValue| v@);
    let tp = expected_str(expected, 0).unwrap();
    let expected_token_type = if str_eq(tp, "DOCTYPE") {
        TokenType::DocTypeToken
    } else if str_eq(tp, "StartTag") {
        TokenType::StartTagToken
    } else if str_eq(tp, "EndTag") {
        TokenType::EndTagToken
    } else if str_eq(tp, "Comment") {
        TokenType::CommentToken
    } else {
        TokenType::TextToken
    };
    if have.type_of() != expected_token_type {
        return false;
    }
    match have {
        Token::DocTypeToken { name, force_quirks, pub_identifier, sys_identifier } => {
            let expected_name = expected_str(expected, 1);
            let expected_pub = expected_str(expected, 2);
            let expected_sys = expected_str(expected, 3);
            let expected_quirk = expected_bool(expected, 4);
            if expected_name.is_none() && name.is_some() {
                return false;
            }
            if let Some(n) = expected_name {
                if !str_eq(n, name.as_ref().unwrap().as_str()) {
                    return false;
                }
            }
            if let Some(q) = expected_quirk {
                if q == force_quirks {
                    return false;
                }
            }
            if !same_opt(expected_pub, &pub_identifier) {
                return false;
            }
            if !same_opt(expected_sys, &sys_identifier) {
                return false;
            }
        },
        Token::StartTagToken { name, .. } => {
            let output = expected_str(expected, 1).unwrap();
            if !str_eq(name.as_str(), output) {
                return false;
            }
        },
        Token::EndTagToken { name } => {
            let output = unescape_if(expected_str(expected, 1).unwrap(), double_escaped);
            if !str_eq(name.as_str(), output.as_str()) {
                return false;
            }
        },
        Token::CommentToken { value } => {
            let output = unescape_if(expected_str(expected, 1).unwrap(), double_escaped);
            if !str_eq(value.as_str(), output.as_str()) {
                return false;
            }
        },
        Token::TextToken { value } => {
            let output = unescape_if(expected_str(expected, 1).unwrap(), double_escaped);
            if !str_eq(value.as_str(), output.as_str()) {
                return false;
            }
        },
        Token::EofToken => {
            return false;
        },
    }
    true
}

/// How one reported error compares with an expected one: a different code
/// is a failure, the same code at another line or column a position
/// failure.
pub open spec fn error_mismatch(got: SpecError, want: ErrorSpec) -> Option<ErrorResult> {
    if got.message != want.code {
        Some(ErrorResult::Failure)
    } else if got.line != want.line || got.col != want.col {
        Some(ErrorResult::PositionFailure)
    } else {
        None
    }
}

/// The first mismatch of the reported errors from index `j` on with one
/// expected error.
pub open spec fn first_mismatch(got: Seq<SpecError>, want: ErrorSpec, j: int) -> Option<ErrorResult>
    decreases got.len() - j,
{
    if j < 0 || j >= got.len() {
        None
    } else if error_mismatch(got[j], want) is Some {
        error_mismatch(got[j], want)
    } else {
        first_mismatch(got, want, j + 1)
    }
}

/// The result of comparing the reported errors with the expected ones from
/// index `i` on: each expected error is compared with every reported one,
/// and the first mismatch decides.
pub open spec fn errors_result(got: Seq<SpecError>, want: Seq<ErrorSpec>, i: int) -> ErrorResult
    decreases want.len() - i,
{
    if i < 0 || i >= want.len() {
        ErrorResult::Success
    } else {
        match first_mismatch(got, want[i], 0) {
            Some(r) => r,
            None => errors_result(got, want, i + 1),
        }
    }
}

/// The reported errors, as values.
pub open spec fn reported(v: Seq<ParseError>) -> Seq<SpecError> {
    v.map_values(|e: ParseError| e@)
}

/// The expected errors, as values.
pub open spec fn expected_errors(v: Seq<Error>) -> Seq<ErrorSpec> {
    v.map_values(|e: Error| e@)
}

/// Compares the parse errors of the tokenizer with the expected ones (see
/// `errors_result`).
pub fn match_errors(tokenizer: &Tokenizer, errors: &Vec<Error>) -> (r: ErrorResult)
    ensures
        r == errors_result(reported(tokenizer.errors@), expected_errors(errors@), 0),
{
    let ghost got = reported(tokenizer.errors@);
    let ghost want = expected_errors(errors@);
    let got_errors = tokenizer.get_errors();
    let mut i: usize = 0;
    while i < errors.len()
        invariant
            i <= errors@.len(),
            got == reported(got_errors@),
            got == reported(tokenizer.errors@),
            want == expected_errors(errors@),
            errors_result(got, want, i as int) == errors_result(got, want, 0),
        decreases errors@.len() - i,
    {
        let want_err = &errors[i];
        let mut j: usize = 0;
        while j < got_errors.len()
            invariant
                i < errors@.len(),
                j <= got_errors@.len(),
                got == reported(got_errors@),
            got == reported(tokenizer.errors@),
                want == expected_errors(errors@),
                want[i as int] == want_err@,
                first_mismatch(got, want[i as int], j as int) == first_mismatch(
                    got,
                    want[i as int],
                    0,
                ),
                errors_result(got, want, i as int) == errors_result(got, want, 0),
            decreases got_errors@.len() - j,
        {
            let got_err = &got_errors[j];
            assert(got[j as int] == got_err@);
            if !str_eq(got_err.message.as_str(), want_err.code.as_str()) {
                assert(error_mismatch(got[j as int], want[i as int]) == Some(ErrorResult::Failure));
                assert(first_mismatch(got, want[i as int], j as int) == Some(ErrorResult::Failure));
                assert(errors_result(got, want, i as int) == ErrorResult::Failure);
                return ErrorResult::Failure;
            } else if got_err.line != want_err.line || got_err.col != want_err.col {
                assert(error_mismatch(got[j as int], want[i as int]) == Some(
                    ErrorResult::PositionFailure,
                ));
                assert(first_mismatch(got, want[i as int], j as int) == Some(
                    ErrorResult::PositionFailure,
                ));
                assert(errors_result(got, want, i as int) == ErrorResult::PositionFailure);
                return ErrorResult::PositionFailure;
            }
            j += 1;
        }
        i += 1;
    }
    ErrorResult::Success
}

/// The tokenizer state that a test names as an initial state.
pub open spec fn state_named(name: Seq<char>) -> Option<State> {
    if name == "PLAINTEXT state"@ {
        Some(State::PlaintextState)
    } else if name == "RAWTEXT state"@ {
        Some(State::RawTextState)
    } else if name == "RCDATA state"@ {
        Some(State::RcDataState)
    } else if name == "Script data state"@ {
        Some(State::ScriptDataState)
    } else if name == "CDATA section state"@ {
        Some(State::CDataSectionState)
    } else if name == "Data state"@ {
        Some(State::DataState)
    } else {
        None
    }
}

/// The tokenizer state that a test names as an initial state, if it is one
/// of those the tests use.
pub fn state_for_name(name: &str) -> (r: Option<State>)
    ensures
        r == state_named(name@),
{
    if str_eq(name, "PLAINTEXT state") {
        Some(State::PlaintextState)
    } else if str_eq(name, "RAWTEXT state") {
        Some(State::RawTextState)
    } else if str_eq(name, "RCDATA state") {
        Some(State::RcDataState)
    } else if str_eq(name, "Script data state") {
        Some(State::ScriptDataState)
    } else if str_eq(name, "CDATA section state") {
        Some(State::CDataSectionState)
    } else if str_eq(name, "Data state") {
        Some(State::DataState)
    } else {
        None
    }
}

impl TestResults {
    /// Empty tallies.
    pub fn new() -> (r: Self)
        ensures
            r.tests == 0 && r.assertions == 0 && r.succeeded == 0 && r.failed == 0
                && r.failed_position == 0,
    {
        TestResults { tests: 0, assertions: 0, succeeded: 0, failed: 0, failed_position: 0 }
    }

    /// Counts the outcome of comparing errors: one more assertion, which
    /// succeeded or failed (and failed on its position).
    pub fn record_errors(&mut self, result: ErrorResult)
        requires
            old(self).assertions < usize::MAX,
            old(self).succeeded < usize::MAX,
            old(self).failed < usize::MAX,
            old(self).failed_position < usize::MAX,
        ensures
            final(self).tests == old(self).tests,
            final(self).assertions == old(self).assertions + 1,
            final(self).succeeded == old(self).succeeded + (if result == ErrorResult::Success {
                1int
            } else {
                0
            }),
            final(self).failed == old(self).failed + (if result != ErrorResult::Success {
                1int
            } else {
                0
            }),
            final(self).failed_position == old(self).failed_position + (if result
                == ErrorResult::PositionFailure {
                1int
            } else {
                0
            }),
    {
        match result {
            ErrorResult::Failure => {
                self.assertions += 1;
                self.failed += 1;
            },
            ErrorResult::PositionFailure => {
                self.assertions += 1;
                self.failed += 1;
                self.failed_position += 1;
            },
            ErrorResult::Success => {
                self.assertions += 1;
                self.succeeded += 1;
            },
        }
    }

    /// Counts a token that did not meet its expectation: one more failed
    /// assertion.
    pub fn record_token_failure(&mut self)
        requires
            old(self).assertions < usize::MAX,
            old(self).failed < usize::MAX,
        ensures
            final(self).tests == old(self).tests,
            final(self).assertions == old(self).assertions + 1,
            final(self).succeeded == old(self).succeeded,
            final(self).failed == old(self).failed + 1,
            final(self).failed_position == old(self).failed_position,
    {
        self.assertions += 1;
        self.failed += 1;
    }
}


/// A tree construction test: where it was read, its input, and what it
/// expects.
pub struct TreeTest {
    /// Filename of the test
    pub file_path: String,
    /// Line number of the test
    pub line: usize,
    /// input stream
    pub data: String,
    /// errors
    pub errors: Vec<String>,
    /// document tree
    pub document: Vec<String>,
    /// fragment
    pub document_fragment: Vec<String>,
}

/// A tree construction test, with its strings taken as sequences.
pub struct TreeTestView {
    pub file_path: Seq<char>,
    pub line: int,
    pub data: Seq<char>,
    pub errors: Seq<Seq<char>>,
    pub document: Seq<Seq<char>>,
    pub document_fragment: Seq<Seq<char>>,
}

/// The characters of each string of a list.
pub open spec fn strings(v: Seq<String>) -> Seq<Seq<char>> {
    v.map_values(|s: String| s@)
}

impl View for TreeTest {
    type V = TreeTestView;

    open spec fn view(&self) -> TreeTestView {
        TreeTestView {
            file_path: self.file_path@,
            line: self.line as int,
            data: self.data@,
            errors: strings(self.errors@),
            document: strings(self.document@),
            document_fragment: strings(self.document_fragment@),
        }
    }
}

/// The section of a test file that a line belongs to.
#[derive(Debug, PartialEq, Eq, Structural, Clone, Copy)]
pub enum Section {
    Data,
    Errors,
    Document,
}

/// An empty test that starts at the given line.
pub open spec fn empty_test(file_path: Seq<char>, line: int) -> TreeTestView {
    TreeTestView {
        file_path,
        line,
        data: Seq::empty(),
        errors: Seq::empty(),
        document: Seq::empty(),
        document_fragment: Seq::empty(),
    }
}

/// Whether a test has anything in it worth keeping.
pub open spec fn has_content(t: TreeTestView) -> bool {
    t.data.len() > 0 || t.errors.len() > 0 || t.document.len() > 0
}

/// What reading the tests has gathered: the finished tests, the test being
/// read, and the section being read.
pub struct ReadState {
    pub tests: Seq<TreeTestView>,
    pub current: TreeTestView,
    pub section: Option<Section>,
}

/// The state after reading one more line, the line with number `num`.
pub open spec fn read_line(st: ReadState, line: Seq<char>, num: int) -> ReadState {
    if line.len() >= 5 && line.subrange(0, 5) == "#data"@ {
        let (tests, current) = if has_content(st.current) {
            (st.tests.push(st.current), empty_test(st.current.file_path, num))
        } else {
            (st.tests, st.current)
        };
        ReadState { tests, current, section: Some(Section::Data) }
    } else if line.len() >= 1 && line[0] == '#' {
        let section = if line == "#errors"@ {
            Some(Section::Errors)
        } else if line == "#document"@ {
            Some(Section::Document)
        } else {
            None
        };
        ReadState { section, ..st }
    } else {
        match st.section {
            Some(Section::Data) => ReadState {
                current: TreeTestView { data: st.current.data + line, ..st.current },
                ..st
            },
            Some(Section::Errors) => ReadState {
                current: TreeTestView { errors: st.current.errors.push(line), ..st.current },
                ..st
            },
            Some(Section::Document) => ReadState {
                current: TreeTestView { document: st.current.document.push(line), ..st.current },
                ..st
            },
            None => st,
        }
    }
}

/// The state after reading the first `n` lines.
pub open spec fn read_lines(file_path: Seq<char>, lines: Seq<Seq<char>>, n: int) -> ReadState
    decreases n,
{
    if n <= 0 {
        ReadState { tests: Seq::empty(), current: empty_test(file_path, 1), section: None }
    } else {
        read_line(read_lines(file_path, lines, n - 1), lines[n - 1], n)
    }
}

/// The tests of a file with the given lines: those finished when reading
/// ends, and the last one if it has anything in it.
pub open spec fn tests_of(file_path: Seq<char>, lines: Seq<Seq<char>>) -> Seq<TreeTestView> {
    let st = read_lines(file_path, lines, lines.len() as int);
    if has_content(st.current) {
        st.tests.push(st.current)
    } else {
        st.tests
    }
}

/// An empty test of the given file, starting at `line`.
fn new_tree_test(file_path: &str, line: usize) -> (r: TreeTest)
    ensures
        r@ == empty_test(file_path@, line as int),
{
    let r = TreeTest {
        file_path: string_from_str(file_path),
        line,
        data: String::new(),
        errors: Vec::new(),
        document: Vec::new(),
        document_fragment: Vec::new(),
    };
    assert(strings(r.errors@) =~= Seq::<Seq<char>>::empty());
    assert(strings(r.document@) =~= Seq::<Seq<char>>::empty());
    assert(strings(r.document_fragment@) =~= Seq::<Seq<char>>::empty());
    r
}

/// Whether a test has anything in it worth keeping.
fn test_has_content(t: &TreeTest) -> (r: bool)
    ensures
        r == has_content(t@),
{
    t.data.unicode_len() > 0 || t.errors.len() > 0 || t.document.len() > 0
}

/// The tests of a list, as values.
pub open spec fn test_views(v: Seq<TreeTest>) -> Seq<TreeTestView> {
    v.map_values(|t: TreeTest| t@)
}

/// Reads the tree construction tests of a file from its lines (see
/// `tests_of`).
pub fn read_tests(file_path: &str, lines: Vec<String>) -> (r: Vec<TreeTest>)
    requires
        lines@.len() < usize::MAX,
    ensures
        test_views(r@) == tests_of(file_path@, strings(lines@)),
{
    let ghost ls = strings(lines@);
    let mut tests: Vec<TreeTest> = Vec::new();
    let mut current = new_tree_test(file_path, 1);
    let mut section: Option<Section> = None;
    let mut line_num: usize = 0;
    while line_num < lines.len()
        invariant
            line_num <= lines@.len(),
            lines@.len() < usize::MAX,
            ls == strings(lines@),
            current@.file_path == file_path@,
            ({
                let st = read_lines(file_path@, ls, line_num as int);
                &&& test_views(tests@) == st.tests
                &&& current@ == st.current
                &&& section == st.section
            }),
        decreases lines@.len() - line_num,
    {
        let line = &lines[line_num];
        line_num += 1;
        let ghost before = test_views(tests@);
        assert(ls[line_num - 1] == line@);
        let is_data = starts_with(line.as_str(), "#data");
        let is_hash = starts_with(line.as_str(), "#");
        proof {
            reveal_strlit("#data");
            reveal_strlit("#");
            if line@.len() >= 1 {
                assert(line@.subrange(0, 1)[0] == line@[0]);
                if line@[0] == '#' {
                    assert(line@.subrange(0, 1) =~= "#"@);
                }
            }
        }
        if is_data {
            if test_has_content(&current) {
                let mut finished = new_tree_test(file_path, line_num);
                std::mem::swap(&mut current, &mut finished);
                tests.push(finished);
                assert(test_views(tests@) =~= before.push(
                    read_lines(file_path@, ls, line_num - 1).current,
                ));
            }
            section = Some(Section::Data);
        } else if is_hash {
            section = if str_eq(line.as_str(), "#errors") {
                Some(Section::Errors)
            } else if str_eq(line.as_str(), "#document") {
                Some(Section::Document)
            } else {
                None
            };
        } else {
            match section {
                Some(Section::Data) => push_str(&mut current.data, line.as_str()),
                Some(Section::Errors) => {
                    let ghost e = strings(current.errors@);
                    current.errors.push(string_from_str(line.as_str()));
                    assert(strings(current.errors@) =~= e.push(line@));
                },
                Some(Section::Document) => {
                    let ghost d = strings(current.document@);
                    current.document.push(string_from_str(line.as_str()));
                    assert(strings(current.document@) =~= d.push(line@));
                },
                None => {},
            }
        }
    }
    if test_has_content(&current) {
        let ghost before = test_views(tests@);
        tests.push(current);
        assert(test_views(tests@) =~= before.push(
            read_lines(file_path@, ls, lines@.len() as int).current,
        ));
    }
    tests
}


/// An end tag meets an expected `["EndTag", n, ..]` exactly when its name is
/// `n` (with the `\uXXXX` escapes of `n` replaced, for a double escaped
/// test); so two end tags with different names never both meet the same
/// expectation.
pub proof fn lemma_end_tag_matches_by_name(
    name: Seq<char>,
    other: Seq<char>,
    e: Seq<ExpectedSpec>,
    n: Seq<char>,
    double_escaped: bool,
)
    requires
        e.len() >= 2,
        e[0] == ExpectedSpec::Str("EndTag"@),
        e[1] == ExpectedSpec::Str(n),
    ensures
        token_matches(SpecToken::EndTag { name }, e, double_escaped) <==> name == (if double_escaped {
            unicode_escapes_replaced(n)
        } else {
            n
        }),
        token_matches(SpecToken::EndTag { name }, e, double_escaped) && token_matches(
            SpecToken::EndTag { name: other },
            e,
            double_escaped,
        ) ==> name == other,
{
    reveal_strlit("EndTag");
    reveal_strlit("DOCTYPE");
    reveal_strlit("StartTag");
    assert("EndTag"@.len() == 6);
    assert("DOCTYPE"@.len() == 7);
    assert("StartTag"@.len() == 8);
    assert(expected_type("EndTag"@) == Some(TokenType::EndTagToken));
}

/// A line that starts a section or a test (it begins with `#`).
pub open spec fn is_header(l: Seq<char>) -> bool {
    l.len() >= 1 && l[0] == '#'
}

/// Reading lines that are no headers, within a section, adds each of them,
/// in order, to that section of the current test and changes nothing else
/// (the data section's text aside).
proof fn lemma_section_lines(fp: Seq<char>, lines: Seq<Seq<char>>, start: int, end: int)
    requires
        0 <= start <= end <= lines.len(),
        read_lines(fp, lines, start).section is Some,
        forall|i: int| start <= i < end ==> !is_header(#[trigger] lines[i]),
    ensures
        ({
            let a = read_lines(fp, lines, start);
            let b = read_lines(fp, lines, end);
            &&& b.tests == a.tests
            &&& b.section == a.section
            &&& b.current.file_path == a.current.file_path
            &&& b.current.line == a.current.line
            &&& b.current.document_fragment == a.current.document_fragment
            &&& (a.section != Some(Section::Data) ==> b.current.data == a.current.data)
            &&& b.current.errors == (if a.section == Some(Section::Errors) {
                a.current.errors + lines.subrange(start, end)
            } else {
                a.current.errors
            })
            &&& b.current.document == (if a.section == Some(Section::Document) {
                a.current.document + lines.subrange(start, end)
            } else {
                a.current.document
            })
        }),
    decreases end - start,
{
    if end > start {
        lemma_section_lines(fp, lines, start, end - 1);
        let l = lines[end - 1];
        assert(!is_header(l));
        assert(!(l.len() >= 5 && l.subrange(0, 5) == "#data"@)) by {
            reveal_strlit("#data");
            if l.len() >= 5 && l.subrange(0, 5) == "#data"@ {
                assert(l[0] == l.subrange(0, 5)[0]);
            }
        }
        assert(lines.subrange(start, end) =~= lines.subrange(start, end - 1).push(l));
    } else {
        assert(lines.subrange(start, end) =~= Seq::<Seq<char>>::empty());
    }
}

/// A file of one test, written as `#data`, its data lines, `#errors`, its
/// error lines, `#document` and its document lines (none of these lines a
/// header), is read as exactly one test, starting at line 1, whose errors
/// are the error lines and whose document is the document lines, in order.
pub proof fn lemma_one_test_file(
    fp: Seq<char>,
    data: Seq<Seq<char>>,
    errs: Seq<Seq<char>>,
    doc: Seq<Seq<char>>,
)
    requires
        forall|i: int| 0 <= i < data.len() ==> !is_header(#[trigger] data[i]),
        forall|i: int| 0 <= i < errs.len() ==> !is_header(#[trigger] errs[i]),
        forall|i: int| 0 <= i < doc.len() ==> !is_header(#[trigger] doc[i]),
        doc.len() > 0,
    ensures
        ({
            let lines = seq!["#data"@] + data + seq!["#errors"@] + errs + seq!["#document"@] + doc;
            &&& tests_of(fp, lines).len() == 1
            &&& tests_of(fp, lines)[0].line == 1
            &&& tests_of(fp, lines)[0].errors == errs
            &&& tests_of(fp, lines)[0].document == doc
        }),
{
    reveal_strlit("#data");
    reveal_strlit("#errors");
    reveal_strlit("#document");
    let lines = seq!["#data"@] + data + seq!["#errors"@] + errs + seq!["#document"@] + doc;
    let de: int = (1 + data.len()) as int;
    let ee: int = de + 1 + errs.len();
    let n = lines.len() as int;
    assert(lines[0] == "#data"@);
    assert(lines[de] == "#errors"@);
    assert(lines[ee] == "#document"@);
    assert("#data"@.subrange(0, 5) =~= "#data"@);
    // "#data"
    let s0 = read_lines(fp, lines, 0);
    assert(s0.current == empty_test(fp, 1) && s0.tests.len() == 0 && !has_content(s0.current));
    let s1 = read_lines(fp, lines, 1);
    assert(s1.tests == Seq::<TreeTestView>::empty());
    assert(s1.current == empty_test(fp, 1));
    assert(s1.section == Some(Section::Data));
    // the data lines
    assert forall|i: int| 1 <= i < de implies !is_header(#[trigger] lines[i]) by {
        assert(lines[i] == data[i - 1]);
    }
    lemma_section_lines(fp, lines, 1, de);
    let s2 = read_lines(fp, lines, de);
    // "#errors"
    assert("#errors"@.subrange(0, 5) != "#data"@) by {
        assert("#errors"@.subrange(0, 5)[1] == 'e');
    }
    let s3 = read_lines(fp, lines, de + 1);
    assert(s3.section == Some(Section::Errors));
    assert(s3.current == s2.current);
    assert(s3.tests == s2.tests);
    assert forall|i: int| de + 1 <= i < ee implies !is_header(#[trigger] lines[i]) by {
        assert(lines[i] == errs[i - de - 1]);
    }
    lemma_section_lines(fp, lines, de + 1, ee);
    let s4 = read_lines(fp, lines, ee);
    assert(lines.subrange(de + 1, ee) =~= errs);
    // "#document"
    assert("#document"@.subrange(0, 5) != "#data"@) by {
        assert("#document"@.subrange(0, 5)[2] == 'o');
    }
    assert("#document"@ != "#errors"@) by {
        assert("#document"@.len() != "#errors"@.len());
    }
    let s5 = read_lines(fp, lines, ee + 1);
    assert(s5.section == Some(Section::Document));
    assert(s5.current == s4.current);
    assert forall|i: int| ee + 1 <= i < n implies !is_header(#[trigger] lines[i]) by {
        assert(lines[i] == doc[i - ee - 1]);
    }
    lemma_section_lines(fp, lines, ee + 1, n);
    assert(lines.subrange(ee + 1, n) =~= doc);
    let s6 = read_lines(fp, lines, n);
    assert(s6.current.document == doc);
    assert(s6.current.errors == errs);
    assert(has_content(s6.current));
}
} // verus!
