//! The tokens that the tokenizer emits.

use vstd::prelude::*;
use crate::html5_parser::text::{is_all_whitespace, is_unicode_whitespace, push_char, push_str};

verus! {

/// The different tokens types that can be emitted by the tokenizer
#[derive(PartialEq, Eq, Structural, Clone, Copy, Debug)]
pub enum TokenType {
    DocTypeToken,
    StartTagToken,
    EndTagToken,
    CommentToken,
    TextToken,
    EofToken,
}

/// An attribute of a start tag.
#[derive(Debug, PartialEq, Eq, Clone)]
pub struct Attribute {
    pub name: String,
    pub value: String,
}

/// The different token structures that can be emitted by the tokenizer
#[derive(Debug, Clone, PartialEq, Eq)]
pub enum Token {
    DocTypeToken {
        name: Option<String>,
        force_quirks: bool,
        pub_identifier: Option<String>,
        sys_identifier: Option<String>,
    },
    StartTagToken { name: String, is_self_closing: bool, attributes: Vec<Attribute> },
    EndTagToken { name: String },
    CommentToken { value: String },
    TextToken { value: String },
    EofToken,
}

/// A token, with its strings taken as character sequences.
pub enum SpecToken {
    DocType {
        name: Option<Seq<char>>,
        force_quirks: bool,
        pub_identifier: Option<Seq<char>>,
        sys_identifier: Option<Seq<char>>,
    },
    StartTag { name: Seq<char>, is_self_closing: bool, attributes: Seq<(Seq<char>, Seq<char>)> },
    EndTag { name: Seq<char> },
    Comment { value: Seq<char> },
    Text { value: Seq<char> },
    Eof,
}

/// The characters of an optional string.
pub open spec fn opt_chars(s: Option<String>) -> Option<Seq<char>> {
    match s {
        Some(v) => Some(v@),
        None => None,
    }
}

impl View for Attribute {
    type V = (Seq<char>, Seq<char>);

    open spec fn view(&self) -> (Seq<char>, Seq<char>) {
        (self.name@, self.value@)
    }
}

impl View for Token {
    type V = SpecToken;

    open spec fn view(&self) -> SpecToken {
        match self {
            Token::DocTypeToken { name, force_quirks, pub_identifier, sys_identifier } =>
                SpecToken::DocType {
                name: opt_chars(*name),
                force_quirks: *force_quirks,
                pub_identifier: opt_chars(*pub_identifier),
                sys_identifier: opt_chars(*sys_identifier),
            },
            Token::StartTagToken { name, is_self_closing, attributes } => SpecToken::StartTag {
                name: name@,
                is_self_closing: *is_self_closing,
                attributes: attributes@.map_values(|a: Attribute| a@),
            },
            Token::EndTagToken { name } => SpecToken::EndTag { name: name@ },
            Token::CommentToken { value } => SpecToken::Comment { value: value@ },
            Token::TextToken { value } => SpecToken::Text { value: value@ },
            Token::EofToken => SpecToken::Eof,
        }
    }
}

/// The type of a token.
pub open spec fn token_type(t: SpecToken) -> TokenType {
    match t {
        SpecToken::DocType { .. } => TokenType::DocTypeToken,
        SpecToken::StartTag { .. } => TokenType::StartTagToken,
        SpecToken::EndTag { .. } => TokenType::EndTagToken,
        SpecToken::Comment { .. } => TokenType::CommentToken,
        SpecToken::Text { .. } => TokenType::TextToken,
        SpecToken::Eof => TokenType::EofToken,
    }
}

/// Whether a token is a text token whose text is empty or all white space.
pub open spec fn empty_or_white(t: SpecToken) -> bool {
    match t {
        SpecToken::Text { value } => forall|i: int|
            0 <= i < value.len() ==> is_unicode_whitespace(#[trigger] value[i]),
        _ => false,
    }
}

/// The characters of an optional string, or nothing.
pub open spec fn chars_or_empty(s: Option<Seq<char>>) -> Seq<char> {
    match s {
        Some(v) => v,
        None => Seq::empty(),
    }
}

/// The text of the attributes `attrs[0..n)`, each written as ` name="value"`.
pub open spec fn attributes_text(attrs: Seq<(Seq<char>, Seq<char>)>, n: int) -> Seq<char>
    decreases n,
{
    if n <= 0 {
        Seq::empty()
    } else {
        attributes_text(attrs, n - 1) + " "@ + attrs[n - 1].0 + "=\""@ + attrs[n - 1].1 + "\""@
    }
}

/// How a token is written out for display.
pub open spec fn token_text(t: SpecToken) -> Seq<char> {
    match t {
        SpecToken::DocType { name, force_quirks, pub_identifier, sys_identifier } => {
            "<!DOCTYPE "@ + chars_or_empty(name) + (if force_quirks {
                " FORCE_QUIRKS!"@
            } else {
                Seq::empty()
            }) + (match pub_identifier {
                Some(p) => " "@ + p,
                None => Seq::empty(),
            }) + (match sys_identifier {
                Some(s) => " "@ + s,
                None => Seq::empty(),
            }) + " />"@
        },
        SpecToken::Comment { value } => "Comment[<!-- "@ + value + " -->]"@,
        SpecToken::Text { value } => "Text["@ + value + "]"@,
        SpecToken::StartTag { name, is_self_closing, attributes } => "StartTag[<"@ + name
            + attributes_text(attributes, attributes.len() as int) + (if is_self_closing {
            " /"@
        } else {
            Seq::empty()
        }) + ">]"@,
        SpecToken::EndTag { name } => "EndTag[</"@ + name + ">]"@,
        SpecToken::Eof => "EOF"@,
    }
}

impl Token {
    pub fn is_eof(&self) -> (r: bool)
        ensures
            r == (self@ is Eof),
    {
        if let Token::EofToken = self {
            true
        } else {
            false
        }
    }

    /// Whether this is a text token whose text is empty or only white space.
    pub fn is_empty_or_white(&self) -> (r: bool)
        ensures
            r == empty_or_white(self@),
    {
        if let Token::TextToken { value } = self {
            let r = is_all_whitespace(value);
            proof {
                if let SpecToken::Text { value: v } = self@ {
                    assert(v == value@);
                }
            }
            r
        } else {
            false
        }
    }

    /// The token written out for display (see `token_text`).
    pub fn to_string(&self) -> (r: String)
        ensures
            r@ == token_text(self@),
    {
        let mut result = String::new();
        match self {
            Token::DocTypeToken { name, force_quirks, pub_identifier, sys_identifier } => {
                push_str(&mut result, "<!DOCTYPE ");
                match name {
                    Some(n) => push_str(&mut result, n.as_str()),
                    None => {},
                }
                proof {
                    assert(result@ =~= "<!DOCTYPE "@ + chars_or_empty(opt_chars(*name)));
                }
                if *force_quirks {
                    push_str(&mut result, " FORCE_QUIRKS!");
                }
                match pub_identifier {
                    Some(p) => {
                        push_str(&mut result, " ");
                        push_str(&mut result, p.as_str());
                    },
                    None => {},
                }
                match sys_identifier {
                    Some(s) => {
                        push_str(&mut result, " ");
                        push_str(&mut result, s.as_str());
                    },
                    None => {},
                }
                push_str(&mut result, " />");
            },
            Token::CommentToken { value } => {
                push_str(&mut result, "Comment[<!-- ");
                push_str(&mut result, value.as_str());
                push_str(&mut result, " -->]");
            },
            Token::TextToken { value } => {
                push_str(&mut result, "Text[");
                push_str(&mut result, value.as_str());
                push_str(&mut result, "]");
            },
            Token::StartTagToken { name, is_self_closing, attributes } => {
                push_str(&mut result, "StartTag[<");
                push_str(&mut result, name.as_str());
                let ghost attrs = attributes@.map_values(|a: Attribute| a@);
                let ghost prefix = result@;
                let mut i: usize = 0;
                while i < attributes.len()
                    invariant
                        i <= attributes.len(),
                        attrs == attributes@.map_values(|a: Attribute| a@),
                        result@ == prefix + attributes_text(attrs, i as int),
                    decreases attributes.len() - i,
                {
                    push_str(&mut result, " ");
                    push_str(&mut result, attributes[i].name.as_str());
                    push_str(&mut result, "=\"");
                    push_str(&mut result, attributes[i].value.as_str());
                    push_str(&mut result, "\"");
                    proof {
                        assert(attrs[i as int] == attributes@[i as int]@);
                        assert(result@ =~= prefix + attributes_text(attrs, i + 1));
                    }
                    i += 1;
                }
                if *is_self_closing {
                    push_str(&mut result, " /");
                }
                push_str(&mut result, ">]");
            },
            Token::EndTagToken { name } => {
                push_str(&mut result, "EndTag[</");
                push_str(&mut result, name.as_str());
                push_str(&mut result, ">]");
            },
            Token::EofToken => {
                push_str(&mut result, "EOF");
            },
        }
        proof {
            assert(result@ =~= token_text(self@));
        }
        result
    }
}

/// Gives the type of a token.
pub trait TokenTrait {
    /// Return the token type of the given token
    fn type_of(&self) -> TokenType;
}

impl TokenTrait for Token {
    fn type_of(&self) -> (r: TokenType)
        ensures
            r == token_type(self@),
    {
        match self {
            Token::DocTypeToken { .. } => TokenType::DocTypeToken,
            Token::StartTagToken { .. } => TokenType::StartTagToken,
            Token::EndTagToken { .. } => TokenType::EndTagToken,
            Token::CommentToken { .. } => TokenType::CommentToken,
            Token::TextToken { .. } => TokenType::TextToken,
            Token::EofToken => TokenType::EofToken,
        }
    }
}

} // verus!
