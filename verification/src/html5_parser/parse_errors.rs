//! The parse errors that the tokenizer reports.

use vstd::prelude::*;

verus! {

/// The kinds of parse error (WHATWG HTML, "Parse errors").
#[derive(PartialEq, Eq, Structural, Clone, Copy, Debug)]
pub enum ParserError {
    AbruptDoctypePublicIdentifier,
    AbruptDoctypeSystemIdentifier,
    AbruptClosingOfEmptyComment,
    AbsenceOfDigitsInNumericCharacterReference,
    CdataInHtmlContent,
    CharacterReferenceOutsideUnicodeRange,
    ControlCharacterInInputStream,
    ControlCharacterReference,
    EndTagWithAttributes,
    DuplicateAttribute,
    EndTagWithTrailingSolidus,
    EofBeforeTagName,
    EofInCdata,
    EofInComment,
    EofInDoctype,
    EofInScriptHtmlCommentLikeText,
    EofInTag,
    IncorrectlyClosedComment,
    IncorrectlyOpenedComment,
    InvalidCharacterSequenceAfterDoctypeName,
    InvalidFirstCharacterOfTagName,
    MissingAttributeValue,
    MissingDoctypeName,
    MissingDoctypePublicIdentifier,
    MissingDoctypeSystemIdentifier,
    MissingEndTagName,
    MissingQuoteBeforeDoctypePublicIdentifier,
    MissingQuoteBeforeDoctypeSystemIdentifier,
    MissingSemicolonAfterCharacterReference,
    MissingWhitespaceAfterDoctypePublicKeyword,
    MissingWhitespaceAfterDoctypeSystemKeyword,
    MissingWhitespaceBeforeDoctypeName,
    MissingWhitespaceBetweenAttributes,
    MissingWhitespaceBetweenDoctypePublicAndSystemIdentifiers,
    NestedComment,
    NoncharacterCharacterReference,
    NoncharacterInInputStream,
    NonVoidHtmlElementStartTagWithTrailingSolidus,
    NullCharacterReference,
    SurrogateCharacterReference,
    SurrogateInInputStream,
    UnexpectedCharacterAfterDoctypeSystemIdentifier,
    UnexpectedCharacterInAttributeName,
    UnexpectedCharacterInUnquotedAttributeValue,
    UnexpectedEqualsSignBeforeAttributeName,
    UnexpectedNullCharacter,
    UnexpectedQuestionMarkInsteadOfTagName,
    UnexpectedSolidusInTag,
    UnknownNamedCharacterReference,
}

/// The code of each parse error, as the HTML standard names it.
pub open spec fn error_code(e: ParserError) -> Seq<char> {
    match e {
        ParserError::AbruptDoctypePublicIdentifier => "abrupt-doctype-public-identifier"@,
        ParserError::AbruptDoctypeSystemIdentifier => "abrupt-doctype-system-identifier"@,
        ParserError::AbruptClosingOfEmptyComment => "abrupt-closing-of-empty-comment"@,
        ParserError::AbsenceOfDigitsInNumericCharacterReference => "absence-of-digits-in-numeric-character-reference"@,
        ParserError::CdataInHtmlContent => "cdata-in-html-content"@,
        ParserError::CharacterReferenceOutsideUnicodeRange => "character-reference-outside-unicode-range"@,
        ParserError::ControlCharacterInInputStream => "control-character-in-input-stream"@,
        ParserError::ControlCharacterReference => "control-character-reference"@,
        ParserError::EndTagWithAttributes => "end-tag-with-attributes"@,
        ParserError::DuplicateAttribute => "duplicate-attribute"@,
        ParserError::EndTagWithTrailingSolidus => "end-tag-with-trailing-solidus"@,
        ParserError::EofBeforeTagName => "eof-before-tag-name"@,
        ParserError::EofInCdata => "eof-in-cdata"@,
        ParserError::EofInComment => "eof-in-comment"@,
        ParserError::EofInDoctype => "eof-in-doctype"@,
        ParserError::EofInScriptHtmlCommentLikeText => "eof-in-script-html-comment-like-text"@,
        ParserError::EofInTag => "eof-in-tag"@,
        ParserError::IncorrectlyClosedComment => "incorrectly-closed-comment"@,
        ParserError::IncorrectlyOpenedComment => "incorrectly-opened-comment"@,
        ParserError::InvalidCharacterSequenceAfterDoctypeName => "invalid-character-sequence-after-doctype-name"@,
        ParserError::InvalidFirstCharacterOfTagName => "invalid-first-character-of-tag-name"@,
        ParserError::MissingAttributeValue => "missing-attribute-value"@,
        ParserError::MissingDoctypeName => "missing-doctype-name"@,
        ParserError::MissingDoctypePublicIdentifier => "missing-doctype-public-identifier"@,
        ParserError::MissingDoctypeSystemIdentifier => "missing-doctype-system-identifier"@,
        ParserError::MissingEndTagName => "missing-end-tag-name"@,
        ParserError::MissingQuoteBeforeDoctypePublicIdentifier => "missing-quote-before-doctype-public-identifier"@,
        ParserError::MissingQuoteBeforeDoctypeSystemIdentifier => "missing-quote-before-doctype-system-identifier"@,
        ParserError::MissingSemicolonAfterCharacterReference => "missing-semicolon-after-character-reference"@,
        ParserError::MissingWhitespaceAfterDoctypePublicKeyword => "missing-whitespace-after-doctype-public-keyword"@,
        ParserError::MissingWhitespaceAfterDoctypeSystemKeyword => "missing-whitespace-after-doctype-system-keyword"@,
        ParserError::MissingWhitespaceBeforeDoctypeName => "missing-whitespace-before-doctype-name"@,
        ParserError::MissingWhitespaceBetweenAttributes => "missing-whitespace-between-attributes"@,
        ParserError::MissingWhitespaceBetweenDoctypePublicAndSystemIdentifiers => "missing-whitespace-between-doctype-public-and-system-identifiers"@,
        ParserError::NestedComment => "nested-comment"@,
        ParserError::NoncharacterCharacterReference => "noncharacter-character-reference"@,
        ParserError::NoncharacterInInputStream => "noncharacter-in-input-stream"@,
        ParserError::NonVoidHtmlElementStartTagWithTrailingSolidus => "non-void-html-element-start-tag-with-trailing-solidus"@,
        ParserError::NullCharacterReference => "null-character-reference"@,
        ParserError::SurrogateCharacterReference => "surrogate-character-reference"@,
        ParserError::SurrogateInInputStream => "surrogate-in-input-stream"@,
        ParserError::UnexpectedCharacterAfterDoctypeSystemIdentifier => "unexpected-character-after-doctype-system-identifier"@,
        ParserError::UnexpectedCharacterInAttributeName => "unexpected-character-in-attribute-name"@,
        ParserError::UnexpectedCharacterInUnquotedAttributeValue => "unexpected-character-in-unquoted-attribute-value"@,
        ParserError::UnexpectedEqualsSignBeforeAttributeName => "unexpected-equals-sign-before-attribute-name"@,
        ParserError::UnexpectedNullCharacter => "unexpected-null-character"@,
        ParserError::UnexpectedQuestionMarkInsteadOfTagName => "unexpected-question-mark-instead-of-tag-name"@,
        ParserError::UnexpectedSolidusInTag => "unexpected-solidus-in-tag"@,
        ParserError::UnknownNamedCharacterReference => "unknown-named-character-reference"@,
    }
}

/// The error whose code is `s`, if any.
pub open spec fn error_of_code(s: Seq<char>) -> Option<ParserError> {
    if s == "abrupt-doctype-public-identifier"@ {
        Some(ParserError::AbruptDoctypePublicIdentifier)
    } else if s == "abrupt-doctype-system-identifier"@ {
        Some(ParserError::AbruptDoctypeSystemIdentifier)
    } else if s == "abrupt-closing-of-empty-comment"@ {
        Some(ParserError::AbruptClosingOfEmptyComment)
    } else if s == "absence-of-digits-in-numeric-character-reference"@ {
        Some(ParserError::AbsenceOfDigitsInNumericCharacterReference)
    } else if s == "cdata-in-html-content"@ {
        Some(ParserError::CdataInHtmlContent)
    } else if s == "character-reference-outside-unicode-range"@ {
        Some(ParserError::CharacterReferenceOutsideUnicodeRange)
    } else if s == "control-character-in-input-stream"@ {
        Some(ParserError::ControlCharacterInInputStream)
    } else if s == "control-character-reference"@ {
        Some(ParserError::ControlCharacterReference)
    } else if s == "end-tag-with-attributes"@ {
        Some(ParserError::EndTagWithAttributes)
    } else if s == "duplicate-attribute"@ {
        Some(ParserError::DuplicateAttribute)
    } else if s == "end-tag-with-trailing-solidus"@ {
        Some(ParserError::EndTagWithTrailingSolidus)
    } else if s == "eof-before-tag-name"@ {
        Some(ParserError::EofBeforeTagName)
    } else if s == "eof-in-cdata"@ {
        Some(ParserError::EofInCdata)
    } else if s == "eof-in-comment"@ {
        Some(ParserError::EofInComment)
    } else if s == "eof-in-doctype"@ {
        Some(ParserError::EofInDoctype)
    } else if s == "eof-in-script-html-comment-like-text"@ {
        Some(ParserError::EofInScriptHtmlCommentLikeText)
    } else if s == "eof-in-tag"@ {
        Some(ParserError::EofInTag)
    } else if s == "incorrectly-closed-comment"@ {
        Some(ParserError::IncorrectlyClosedComment)
    } else if s == "incorrectly-opened-comment"@ {
        Some(ParserError::IncorrectlyOpenedComment)
    } else if s == "invalid-character-sequence-after-doctype-name"@ {
        Some(ParserError::InvalidCharacterSequenceAfterDoctypeName)
    } else if s == "invalid-first-character-of-tag-name"@ {
        Some(ParserError::InvalidFirstCharacterOfTagName)
    } else if s == "missing-attribute-value"@ {
        Some(ParserError::MissingAttributeValue)
    } else if s == "missing-doctype-name"@ {
        Some(ParserError::MissingDoctypeName)
    } else if s == "missing-doctype-public-identifier"@ {
        Some(ParserError::MissingDoctypePublicIdentifier)
    } else if s == "missing-doctype-system-identifier"@ {
        Some(ParserError::MissingDoctypeSystemIdentifier)
    } else if s == "missing-end-tag-name"@ {
        Some(ParserError::MissingEndTagName)
    } else if s == "missing-quote-before-doctype-public-identifier"@ {
        Some(ParserError::MissingQuoteBeforeDoctypePublicIdentifier)
    } else if s == "missing-quote-before-doctype-system-identifier"@ {
        Some(ParserError::MissingQuoteBeforeDoctypeSystemIdentifier)
    } else if s == "missing-semicolon-after-character-reference"@ {
        Some(ParserError::MissingSemicolonAfterCharacterReference)
    } else if s == "missing-whitespace-after-doctype-public-keyword"@ {
        Some(ParserError::MissingWhitespaceAfterDoctypePublicKeyword)
    } else if s == "missing-whitespace-after-doctype-system-keyword"@ {
        Some(ParserError::MissingWhitespaceAfterDoctypeSystemKeyword)
    } else if s == "missing-whitespace-before-doctype-name"@ {
        Some(ParserError::MissingWhitespaceBeforeDoctypeName)
    } else if s == "missing-whitespace-between-attributes"@ {
        Some(ParserError::MissingWhitespaceBetweenAttributes)
    } else if s == "missing-whitespace-between-doctype-public-and-system-identifiers"@ {
        Some(ParserError::MissingWhitespaceBetweenDoctypePublicAndSystemIdentifiers)
    } else if s == "nested-comment"@ {
        Some(ParserError::NestedComment)
    } else if s == "noncharacter-character-reference"@ {
        Some(ParserError::NoncharacterCharacterReference)
    } else if s == "noncharacter-in-input-stream"@ {
        Some(ParserError::NoncharacterInInputStream)
    } else if s == "non-void-html-element-start-tag-with-trailing-solidus"@ {
        Some(ParserError::NonVoidHtmlElementStartTagWithTrailingSolidus)
    } else if s == "null-character-reference"@ {
        Some(ParserError::NullCharacterReference)
    } else if s == "surrogate-character-reference"@ {
        Some(ParserError::SurrogateCharacterReference)
    } else if s == "surrogate-in-input-stream"@ {
        Some(ParserError::SurrogateInInputStream)
    } else if s == "unexpected-character-after-doctype-system-identifier"@ {
        Some(ParserError::UnexpectedCharacterAfterDoctypeSystemIdentifier)
    } else if s == "unexpected-character-in-attribute-name"@ {
        Some(ParserError::UnexpectedCharacterInAttributeName)
    } else if s == "unexpected-character-in-unquoted-attribute-value"@ {
        Some(ParserError::UnexpectedCharacterInUnquotedAttributeValue)
    } else if s == "unexpected-equals-sign-before-attribute-name"@ {
        Some(ParserError::UnexpectedEqualsSignBeforeAttributeName)
    } else if s == "unexpected-null-character"@ {
        Some(ParserError::UnexpectedNullCharacter)
    } else if s == "unexpected-question-mark-instead-of-tag-name"@ {
        Some(ParserError::UnexpectedQuestionMarkInsteadOfTagName)
    } else if s == "unexpected-solidus-in-tag"@ {
        Some(ParserError::UnexpectedSolidusInTag)
    } else if s == "unknown-named-character-reference"@ {
        Some(ParserError::UnknownNamedCharacterReference)
    } else {
        None
    }
}

/// Different parse errors have different codes: each code names exactly one
/// error.
pub proof fn lemma_error_codes_differ(a: ParserError, b: ParserError)
    ensures
        error_code(a) == error_code(b) ==> a == b,
{
    lemma_code_names_error(a);
    lemma_code_names_error(b);
}

/// The code of an error names that error.
#[verifier::rlimit(50)]
proof fn lemma_code_names_error(e: ParserError)
    ensures
        error_of_code(error_code(e)) == Some(e),
{
    reveal_strlit("abrupt-doctype-public-identifier");
    reveal_strlit("abrupt-doctype-system-identifier");
    reveal_strlit("abrupt-closing-of-empty-comment");
    reveal_strlit("absence-of-digits-in-numeric-character-reference");
    reveal_strlit("cdata-in-html-content");
    reveal_strlit("character-reference-outside-unicode-range");
    reveal_strlit("control-character-in-input-stream");
    reveal_strlit("control-character-reference");
    reveal_strlit("end-tag-with-attributes");
    reveal_strlit("duplicate-attribute");
    reveal_strlit("end-tag-with-trailing-solidus");
    reveal_strlit("eof-before-tag-name");
    reveal_strlit("eof-in-cdata");
    reveal_strlit("eof-in-comment");
    reveal_strlit("eof-in-doctype");
    reveal_strlit("eof-in-script-html-comment-like-text");
    reveal_strlit("eof-in-tag");
    reveal_strlit("incorrectly-closed-comment");
    reveal_strlit("incorrectly-opened-comment");
    reveal_strlit("invalid-character-sequence-after-doctype-name");
    reveal_strlit("invalid-first-character-of-tag-name");
    reveal_strlit("missing-attribute-value");
    reveal_strlit("missing-doctype-name");
    reveal_strlit("missing-doctype-public-identifier");
    reveal_strlit("missing-doctype-system-identifier");
    reveal_strlit("missing-end-tag-name");
    reveal_strlit("missing-quote-before-doctype-public-identifier");
    reveal_strlit("missing-quote-before-doctype-system-identifier");
    reveal_strlit("missing-semicolon-after-character-reference");
    reveal_strlit("missing-whitespace-after-doctype-public-keyword");
    reveal_strlit("missing-whitespace-after-doctype-system-keyword");
    reveal_strlit("missing-whitespace-before-doctype-name");
    reveal_strlit("missing-whitespace-between-attributes");
    reveal_strlit("missing-whitespace-between-doctype-public-and-system-identifiers");
    reveal_strlit("nested-comment");
    reveal_strlit("noncharacter-character-reference");
    reveal_strlit("noncharacter-in-input-stream");
    reveal_strlit("non-void-html-element-start-tag-with-trailing-solidus");
    reveal_strlit("null-character-reference");
    reveal_strlit("surrogate-character-reference");
    reveal_strlit("surrogate-in-input-stream");
    reveal_strlit("unexpected-character-after-doctype-system-identifier");
    reveal_strlit("unexpected-character-in-attribute-name");
    reveal_strlit("unexpected-character-in-unquoted-attribute-value");
    reveal_strlit("unexpected-equals-sign-before-attribute-name");
    reveal_strlit("unexpected-null-character");
    reveal_strlit("unexpected-question-mark-instead-of-tag-name");
    reveal_strlit("unexpected-solidus-in-tag");
    reveal_strlit("unknown-named-character-reference");
    assert("abrupt-doctype-public-identifier"@.len() == 32);
    assert("abrupt-doctype-system-identifier"@.len() == 32);
    assert("abrupt-closing-of-empty-comment"@.len() == 31);
    assert("absence-of-digits-in-numeric-character-reference"@.len() == 48);
    assert("cdata-in-html-content"@.len() == 21);
    assert("character-reference-outside-unicode-range"@.len() == 41);
    assert("control-character-in-input-stream"@.len() == 33);
    assert("control-character-reference"@.len() == 27);
    assert("end-tag-with-attributes"@.len() == 23);
    assert("duplicate-attribute"@.len() == 19);
    assert("end-tag-with-trailing-solidus"@.len() == 29);
    assert("eof-before-tag-name"@.len() == 19);
    assert("eof-in-cdata"@.len() == 12);
    assert("eof-in-comment"@.len() == 14);
    assert("eof-in-doctype"@.len() == 14);
    assert("eof-in-script-html-comment-like-text"@.len() == 36);
    assert("eof-in-tag"@.len() == 10);
    assert("incorrectly-closed-comment"@.len() == 26);
    assert("incorrectly-opened-comment"@.len() == 26);
    assert("invalid-character-sequence-after-doctype-name"@.len() == 45);
    assert("invalid-first-character-of-tag-name"@.len() == 35);
    assert("missing-attribute-value"@.len() == 23);
    assert("missing-doctype-name"@.len() == 20);
    assert("missing-doctype-public-identifier"@.len() == 33);
    assert("missing-doctype-system-identifier"@.len() == 33);
    assert("missing-end-tag-name"@.len() == 20);
    assert("missing-quote-before-doctype-public-identifier"@.len() == 46);
    assert("missing-quote-before-doctype-system-identifier"@.len() == 46);
    assert("missing-semicolon-after-character-reference"@.len() == 43);
    assert("missing-whitespace-after-doctype-public-keyword"@.len() == 47);
    assert("missing-whitespace-after-doctype-system-keyword"@.len() == 47);
    assert("missing-whitespace-before-doctype-name"@.len() == 38);
    assert("missing-whitespace-between-attributes"@.len() == 37);
    assert("missing-whitespace-between-doctype-public-and-system-identifiers"@.len() == 64);
    assert("nested-comment"@.len() == 14);
    assert("noncharacter-character-reference"@.len() == 32);
    assert("noncharacter-in-input-stream"@.len() == 28);
    assert("non-void-html-element-start-tag-with-trailing-solidus"@.len() == 53);
    assert("null-character-reference"@.len() == 24);
    assert("surrogate-character-reference"@.len() == 29);
    assert("surrogate-in-input-stream"@.len() == 25);
    assert("unexpected-character-after-doctype-system-identifier"@.len() == 52);
    assert("unexpected-character-in-attribute-name"@.len() == 38);
    assert("unexpected-character-in-unquoted-attribute-value"@.len() == 48);
    assert("unexpected-equals-sign-before-attribute-name"@.len() == 44);
    assert("unexpected-null-character"@.len() == 25);
    assert("unexpected-question-mark-instead-of-tag-name"@.len() == 44);
    assert("unexpected-solidus-in-tag"@.len() == 25);
    assert("unknown-named-character-reference"@.len() == 33);
    match e {
        ParserError::AbruptDoctypePublicIdentifier => {},
        ParserError::AbruptDoctypeSystemIdentifier => {
            assert("abrupt-doctype-system-identifier"@[15] != "abrupt-doctype-public-identifier"@[15]);
        },
        ParserError::AbruptClosingOfEmptyComment => {},
        ParserError::AbsenceOfDigitsInNumericCharacterReference => {},
        ParserError::CdataInHtmlContent => {},
        ParserError::CharacterReferenceOutsideUnicodeRange => {},
        ParserError::ControlCharacterInInputStream => {},
        ParserError::ControlCharacterReference => {},
        ParserError::EndTagWithAttributes => {},
        ParserError::DuplicateAttribute => {},
        ParserError::EndTagWithTrailingSolidus => {},
        ParserError::EofBeforeTagName => {
            assert("eof-before-tag-name"@[0] != "duplicate-attribute"@[0]);
        },
        ParserError::EofInCdata => {},
        ParserError::EofInComment => {},
        ParserError::EofInDoctype => {
            assert("eof-in-doctype"@[7] != "eof-in-comment"@[7]);
        },
        ParserError::EofInScriptHtmlCommentLikeText => {},
        ParserError::EofInTag => {},
        ParserError::IncorrectlyClosedComment => {},
        ParserError::IncorrectlyOpenedComment => {
            assert("incorrectly-opened-comment"@[12] != "incorrectly-closed-comment"@[12]);
        },
        ParserError::InvalidCharacterSequenceAfterDoctypeName => {},
        ParserError::InvalidFirstCharacterOfTagName => {},
        ParserError::MissingAttributeValue => {
            assert("missing-attribute-value"@[0] != "end-tag-with-attributes"@[0]);
        },
        ParserError::MissingDoctypeName => {},
        ParserError::MissingDoctypePublicIdentifier => {
            assert("missing-doctype-public-identifier"@[0] != "control-character-in-input-stream"@[0]);
        },
        ParserError::MissingDoctypeSystemIdentifier => {
            assert("missing-doctype-system-identifier"@[0] != "control-character-in-input-stream"@[0]);
            assert("missing-doctype-system-identifier"@[16] != "missing-doctype-public-identifier"@[16]);
        },
        ParserError::MissingEndTagName => {
            assert("missing-end-tag-name"@[8] != "missing-doctype-name"@[8]);
        },
        ParserError::MissingQuoteBeforeDoctypePublicIdentifier => {},
        ParserError::MissingQuoteBeforeDoctypeSystemIdentifier => {
            assert("missing-quote-before-doctype-system-identifier"@[29] != "missing-quote-before-doctype-public-identifier"@[29]);
        },
        ParserError::MissingSemicolonAfterCharacterReference => {},
        ParserError::MissingWhitespaceAfterDoctypePublicKeyword => {},
        ParserError::MissingWhitespaceAfterDoctypeSystemKeyword => {
            assert("missing-whitespace-after-doctype-system-keyword"@[33] != "missing-whitespace-after-doctype-public-keyword"@[33]);
        },
        ParserError::MissingWhitespaceBeforeDoctypeName => {},
        ParserError::MissingWhitespaceBetweenAttributes => {},
        ParserError::MissingWhitespaceBetweenDoctypePublicAndSystemIdentifiers => {},
        ParserError::NestedComment => {
            assert("nested-comment"@[0] != "eof-in-comment"@[0]);
            assert("nested-comment"@[0] != "eof-in-doctype"@[0]);
        },
        ParserError::NoncharacterCharacterReference => {
            assert("noncharacter-character-reference"@[0] != "abrupt-doctype-public-identifier"@[0]);
            assert("noncharacter-character-reference"@[0] != "abrupt-doctype-system-identifier"@[0]);
        },
        ParserError::NoncharacterInInputStream => {},
        ParserError::NonVoidHtmlElementStartTagWithTrailingSolidus => {},
        ParserError::NullCharacterReference => {},
        ParserError::SurrogateCharacterReference => {
            assert("surrogate-character-reference"@[0] != "end-tag-with-trailing-solidus"@[0]);
        },
        ParserError::SurrogateInInputStream => {},
        ParserError::UnexpectedCharacterAfterDoctypeSystemIdentifier => {},
        ParserError::UnexpectedCharacterInAttributeName => {
            assert("unexpected-character-in-attribute-name"@[0] != "missing-whitespace-before-doctype-name"@[0]);
        },
        ParserError::UnexpectedCharacterInUnquotedAttributeValue => {
            assert("unexpected-character-in-unquoted-attribute-value"@[0] != "absence-of-digits-in-numeric-character-reference"@[0]);
        },
        ParserError::UnexpectedEqualsSignBeforeAttributeName => {},
        ParserError::UnexpectedNullCharacter => {
            assert("unexpected-null-character"@[0] != "surrogate-in-input-stream"@[0]);
        },
        ParserError::UnexpectedQuestionMarkInsteadOfTagName => {
            assert("unexpected-question-mark-instead-of-tag-name"@[11] != "unexpected-equals-sign-before-attribute-name"@[11]);
        },
        ParserError::UnexpectedSolidusInTag => {
            assert("unexpected-solidus-in-tag"@[0] != "surrogate-in-input-stream"@[0]);
            assert("unexpected-solidus-in-tag"@[11] != "unexpected-null-character"@[11]);
        },
        ParserError::UnknownNamedCharacterReference => {
            assert("unknown-named-character-reference"@[0] != "control-character-in-input-stream"@[0]);
            assert("unknown-named-character-reference"@[0] != "missing-doctype-public-identifier"@[0]);
            assert("unknown-named-character-reference"@[0] != "missing-doctype-system-identifier"@[0]);
        },
    }
}

impl ParserError {
    /// The code of the error (see `error_code`).
    pub fn as_str(&self) -> (r: &'static str)
        ensures
            r@ == error_code(*self),
    {
        match self {
            ParserError::AbruptDoctypePublicIdentifier => "abrupt-doctype-public-identifier",
            ParserError::AbruptDoctypeSystemIdentifier => "abrupt-doctype-system-identifier",
            ParserError::AbruptClosingOfEmptyComment => "abrupt-closing-of-empty-comment",
            ParserError::AbsenceOfDigitsInNumericCharacterReference => "absence-of-digits-in-numeric-character-reference",
            ParserError::CdataInHtmlContent => "cdata-in-html-content",
            ParserError::CharacterReferenceOutsideUnicodeRange => "character-reference-outside-unicode-range",
            ParserError::ControlCharacterInInputStream => "control-character-in-input-stream",
            ParserError::ControlCharacterReference => "control-character-reference",
            ParserError::EndTagWithAttributes => "end-tag-with-attributes",
            ParserError::DuplicateAttribute => "duplicate-attribute",
            ParserError::EndTagWithTrailingSolidus => "end-tag-with-trailing-solidus",
            ParserError::EofBeforeTagName => "eof-before-tag-name",
            ParserError::EofInCdata => "eof-in-cdata",
            ParserError::EofInComment => "eof-in-comment",
            ParserError::EofInDoctype => "eof-in-doctype",
            ParserError::EofInScriptHtmlCommentLikeText => "eof-in-script-html-comment-like-text",
            ParserError::EofInTag => "eof-in-tag",
            ParserError::IncorrectlyClosedComment => "incorrectly-closed-comment",
            ParserError::IncorrectlyOpenedComment => "incorrectly-opened-comment",
            ParserError::InvalidCharacterSequenceAfterDoctypeName => "invalid-character-sequence-after-doctype-name",
            ParserError::InvalidFirstCharacterOfTagName => "invalid-first-character-of-tag-name",
            ParserError::MissingAttributeValue => "missing-attribute-value",
            ParserError::MissingDoctypeName => "missing-doctype-name",
            ParserError::MissingDoctypePublicIdentifier => "missing-doctype-public-identifier",
            ParserError::MissingDoctypeSystemIdentifier => "missing-doctype-system-identifier",
            ParserError::MissingEndTagName => "missing-end-tag-name",
            ParserError::MissingQuoteBeforeDoctypePublicIdentifier => "missing-quote-before-doctype-public-identifier",
            ParserError::MissingQuoteBeforeDoctypeSystemIdentifier => "missing-quote-before-doctype-system-identifier",
            ParserError::MissingSemicolonAfterCharacterReference => "missing-semicolon-after-character-reference",
            ParserError::MissingWhitespaceAfterDoctypePublicKeyword => "missing-whitespace-after-doctype-public-keyword",
            ParserError::MissingWhitespaceAfterDoctypeSystemKeyword => "missing-whitespace-after-doctype-system-keyword",
            ParserError::MissingWhitespaceBeforeDoctypeName => "missing-whitespace-before-doctype-name",
            ParserError::MissingWhitespaceBetweenAttributes => "missing-whitespace-between-attributes",
            ParserError::MissingWhitespaceBetweenDoctypePublicAndSystemIdentifiers => "missing-whitespace-between-doctype-public-and-system-identifiers",
            ParserError::NestedComment => "nested-comment",
            ParserError::NoncharacterCharacterReference => "noncharacter-character-reference",
            ParserError::NoncharacterInInputStream => "noncharacter-in-input-stream",
            ParserError::NonVoidHtmlElementStartTagWithTrailingSolidus => "non-void-html-element-start-tag-with-trailing-solidus",
            ParserError::NullCharacterReference => "null-character-reference",
            ParserError::SurrogateCharacterReference => "surrogate-character-reference",
            ParserError::SurrogateInInputStream => "surrogate-in-input-stream",
            ParserError::UnexpectedCharacterAfterDoctypeSystemIdentifier => "unexpected-character-after-doctype-system-identifier",
            ParserError::UnexpectedCharacterInAttributeName => "unexpected-character-in-attribute-name",
            ParserError::UnexpectedCharacterInUnquotedAttributeValue => "unexpected-character-in-unquoted-attribute-value",
            ParserError::UnexpectedEqualsSignBeforeAttributeName => "unexpected-equals-sign-before-attribute-name",
            ParserError::UnexpectedNullCharacter => "unexpected-null-character",
            ParserError::UnexpectedQuestionMarkInsteadOfTagName => "unexpected-question-mark-instead-of-tag-name",
            ParserError::UnexpectedSolidusInTag => "unexpected-solidus-in-tag",
            ParserError::UnknownNamedCharacterReference => "unknown-named-character-reference",
        }
    }
}

} // verus!
