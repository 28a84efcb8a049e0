//! The states of the tokenizer's state machine.

use vstd::prelude::*;

verus! {

/// The tokenizer states (WHATWG HTML, "Tokenization").
#[derive(PartialEq, Eq, Structural, Clone, Copy, Debug)]
pub enum State {
    DataState,
    CharacterReferenceInDataState,
    RcDataState,
    CharacterReferenceInRcDataState,
    RawTextState,
    ScriptDataState,
    PlaintextState,
    TagOpenState,
    EndTagOpenState,
    TagNameState,
    RcDataLessThanSignState,
    RcDataEndTagOpenState,
    RcDataEndTagNameState,
    RawTextLessThanSignState,
    RawTextEndTagOpenState,
    RawTextEndTagNameState,
    ScriptDataLessThenSignState,
    ScriptDataEndTagOpenState,
    ScriptDataEndTagNameState,
    ScriptDataEscapeStartState,
    ScriptDataEscapeStartDashState,
    ScriptDataEscapedState,
    ScriptDataEscapedDashState,
    ScriptDataEscapedDashDashState,
    ScriptDataEscapedLessThanSignState,
    ScriptDataEscapedEndTagOpenState,
    ScriptDataEscapedEndTagNameState,
    ScriptDataDoubleEscapeStartState,
    ScriptDataDoubleEscapedState,
    ScriptDataDoubleEscapedDashState,
    ScriptDataDoubleEscapedDashDashState,
    ScriptDataDoubleEscapedLessThanSignState,
    ScriptDataDoubleEscapeEndState,
    BeforeAttributeNameState,
    AttributeNameState,
    AfterAttributeNameState,
    BeforeAttributeValueState,
    AttributeValueDoubleQuotedState,
    AttributeValueSingleQuotedState,
    AttributeValueUnquotedState,
    CharacterReferenceInAttributeValueState,
    AfterAttributeValueQuotedState,
    SelfClosingStartState,
    BogusCommentState,
    MarkupDeclarationOpenState,
    CommentStartState,
    CommentStartDashState,
    CommentState,
    CommentLessThanSignState,
    CommentLessThanSignBangState,
    CommentLessThanSignBangDashState,
    CommentLessThanSignBangDashDashState,
    CommentEndDashState,
    CommentEndState,
    CommentEndBangState,
    DocTypeState,
    BeforeDocTypeNameState,
    DocTypeNameState,
    AfterDocTypeNameState,
    AfterDocTypePublicKeywordState,
    BeforeDocTypePublicIdentifierState,
    DocTypePublicIdentifierDoubleQuotedState,
    DocTypePublicIdentifierSingleQuotedState,
    AfterDoctypePublicIdentifierState,
    BetweenDocTypePublicAndSystemIdentifiersState,
    AfterDocTypeSystemKeywordState,
    BeforeDocTypeSystemIdentifierState,
    DocTypeSystemIdentifierDoubleQuotedState,
    DocTypeSystemIdentifierSingleQuotedState,
    AfterDocTypeSystemIdentifierState,
    BogusDocTypeState,
    CDataSectionState,
    CDataSectionBracketState,
    CDataSectionEndState,
}

} // verus!
