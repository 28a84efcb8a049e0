use gosub_engine::html5_parser::input_stream::InputStream;
use gosub_engine::html5_parser::parse_errors::ParserError;
use gosub_engine::html5_parser::token::{Attribute, Token, TokenTrait, TokenType};
use gosub_engine::html5_parser::token_states::State;
use gosub_engine::html5_parser::tokenizer::{Options, Tokenizer};

fn stream(s: &str) -> InputStream {
    let mut is = InputStream::new();
    is.read_from_str(s, None);
    is
}

fn text(s: &str) -> Token {
    Token::TextToken { value: s.to_string() }
}

#[test]
fn plain_text_then_eof_forever() {
    let mut is = stream("abc");
    let mut t = Tokenizer::new(&mut is, None);
    assert_eq!(t.next_token(), text("abc"));
    assert_eq!(t.next_token(), Token::EofToken);
    assert_eq!(t.next_token(), Token::EofToken);
    assert_eq!(t.next_token(), Token::EofToken);
}

#[test]
fn empty_input_gives_eof() {
    let mut is = stream("");
    let mut t = Tokenizer::new(&mut is, None);
    assert_eq!(t.next_token(), Token::EofToken);
    assert!(t.get_errors().is_empty());
}

#[test]
fn start_tag_is_lowercased() {
    let mut is = stream("<DiV>");
    let mut t = Tokenizer::new(&mut is, None);
    assert_eq!(
        t.next_token(),
        Token::StartTagToken { name: "div".to_string(), is_self_closing: false, attributes: Vec::<Attribute>::new() }
    );
    assert_eq!(t.next_token(), Token::EofToken);
}

#[test]
fn end_tag_and_text_in_order() {
    let mut is = stream("a<b>c</b>");
    let mut t = Tokenizer::new(&mut is, None);
    assert_eq!(t.next_token(), text("a"));
    assert_eq!(t.next_token().type_of(), TokenType::StartTagToken);
    assert_eq!(t.next_token(), text("c"));
    assert_eq!(t.next_token(), Token::EndTagToken { name: "b".to_string() });
    assert_eq!(t.next_token(), Token::EofToken);
}

#[test]
fn self_closing_tag() {
    let mut is = stream("<br/>");
    let mut t = Tokenizer::new(&mut is, None);
    assert_eq!(
        t.next_token(),
        Token::StartTagToken { name: "br".to_string(), is_self_closing: true, attributes: vec![] }
    );
}

#[test]
fn attributes_are_added_to_the_start_tag() {
    let mut is = stream("<a href=\"x\" id=y CLASS='z' href=w>");
    let mut t = Tokenizer::new(&mut is, None);
    match t.next_token() {
        Token::StartTagToken { name, attributes, .. } => {
            assert_eq!(name, "a");
            let pairs: Vec<(String, String)> =
                attributes.iter().map(|a| (a.name.clone(), a.value.clone())).collect();
            assert_eq!(
                pairs,
                vec![
                    ("href".to_string(), "x".to_string()),
                    ("id".to_string(), "y".to_string()),
                    ("class".to_string(), "z".to_string()),
                ]
            );
        }
        other => panic!("unexpected token {:?}", other),
    }
    // the second href is a duplicate: reported and dropped
    assert_eq!(t.get_errors().len(), 1);
    assert_eq!(t.get_errors()[0].message, ParserError::DuplicateAttribute.as_str());
    assert_eq!(t.next_token(), Token::EofToken);
}

#[test]
fn comment_token() {
    let mut is = stream("<!-- hi -->");
    let mut t = Tokenizer::new(&mut is, None);
    assert_eq!(t.next_token(), Token::CommentToken { value: " hi ".to_string() });
    assert_eq!(t.next_token(), Token::EofToken);
}

#[test]
fn doctype_token() {
    let mut is = stream("<!DOCTYPE html>");
    let mut t = Tokenizer::new(&mut is, None);
    assert_eq!(
        t.next_token(),
        Token::DocTypeToken {
            name: Some("html".to_string()),
            force_quirks: false,
            pub_identifier: None,
            sys_identifier: None,
        }
    );
}

#[test]
fn null_character_is_reported() {
    let mut is = stream("\0a");
    let mut t = Tokenizer::new(&mut is, None);
    assert_eq!(t.next_token(), text("\0a"));
    let errors = t.get_errors();
    assert_eq!(errors.len(), 1);
    assert_eq!(errors[0].message, ParserError::UnexpectedNullCharacter.as_str());
    assert_eq!(errors[0].line, 1);
    assert_eq!(errors[0].col, 1);
}

#[test]
fn error_at_the_end_reports_the_end_position() {
    let mut is = stream("\0");
    let mut t = Tokenizer::new(&mut is, None);
    assert_eq!(t.next_token(), text("\0"));
    let errors = t.get_errors();
    assert_eq!(errors.len(), 1);
    assert_eq!(errors[0].line, 1);
    assert_eq!(errors[0].col, 2);
}

#[test]
fn invalid_tag_start_is_text() {
    let mut is = stream("<>");
    let mut t = Tokenizer::new(&mut is, None);
    assert_eq!(t.next_token(), text("<>"));
    assert_eq!(t.get_errors()[0].message, "invalid-first-character-of-tag-name");
}

#[test]
fn eof_in_tag_name_ends_the_input() {
    let mut is = stream("<ab");
    let mut t = Tokenizer::new(&mut is, None);
    assert_eq!(t.next_token(), Token::EofToken);
}

#[test]
fn ampersand_stays_text() {
    let mut is = stream("a&b");
    let mut t = Tokenizer::new(&mut is, None);
    assert_eq!(t.next_token(), text("a&b"));
}

#[test]
fn plaintext_state_keeps_markup() {
    let mut is = stream("<b>x");
    let mut t = Tokenizer::new(
        &mut is,
        Some(Options { initial_state: State::PlaintextState, last_start_tag: String::new() }),
    );
    assert_eq!(t.next_token(), text("<b>x"));
}

#[test]
fn rcdata_appropriate_end_tag() {
    let mut is = stream("x</title>");
    let mut t = Tokenizer::new(
        &mut is,
        Some(Options { initial_state: State::RcDataState, last_start_tag: "title".to_string() }),
    );
    assert_eq!(t.next_token(), text("x"));
    assert_eq!(t.next_token(), Token::EndTagToken { name: "title".to_string() });
}

#[test]
fn consumed_data_helpers() {
    let mut is = stream("");
    let mut t = Tokenizer::new(&mut is, None);
    assert!(!t.has_consumed_data());
    assert_eq!(t.get_consumed_str(), "");
}

#[test]
fn token_text_forms() {
    assert_eq!(text("x").to_string(), "Text[x]");
    assert_eq!(Token::EofToken.to_string(), "EOF");
    assert_eq!(Token::EndTagToken { name: "p".to_string() }.to_string(), "EndTag[</p>]");
    assert_eq!(Token::CommentToken { value: "c".to_string() }.to_string(), "Comment[<!-- c -->]");
    let st = Token::StartTagToken {
        name: "a".to_string(),
        is_self_closing: true,
        attributes: vec![Attribute { name: "k".to_string(), value: "v".to_string() }],
    };
    assert_eq!(st.to_string(), "StartTag[<a k=\"v\" />]");
    let dt = Token::DocTypeToken {
        name: Some("html".to_string()),
        force_quirks: true,
        pub_identifier: Some("p".to_string()),
        sys_identifier: None,
    };
    assert_eq!(dt.to_string(), "<!DOCTYPE html FORCE_QUIRKS! p />");
}

#[test]
fn token_predicates() {
    assert!(Token::EofToken.is_eof());
    assert!(!text("a").is_eof());
    assert!(text(" \t\n").is_empty_or_white());
    assert!(text("").is_empty_or_white());
    assert!(!text(" a ").is_empty_or_white());
    assert!(!Token::EofToken.is_empty_or_white());
    assert_eq!(Token::EofToken.type_of(), TokenType::EofToken);
}

#[test]
fn error_codes() {
    assert_eq!(ParserError::EofInTag.as_str(), "eof-in-tag");
    assert_eq!(ParserError::CdataInHtmlContent.as_str(), "cdata-in-html-content");
}

#[test]
fn doctype_public_keyword_in_any_case() {
    let mut is = stream("<!DOCTYPE html public \"x\">");
    let mut t = Tokenizer::new(&mut is, None);
    assert_eq!(
        t.next_token(),
        Token::DocTypeToken {
            name: Some("html".to_string()),
            force_quirks: false,
            pub_identifier: Some("x".to_string()),
            sys_identifier: None,
        }
    );
}

#[test]
fn error_codes_are_distinct() {
    let errors = [
        ParserError::AbruptDoctypePublicIdentifier,
        ParserError::AbruptDoctypeSystemIdentifier,
        ParserError::EofInTag,
        ParserError::EofInCdata,
        ParserError::MissingDoctypePublicIdentifier,
        ParserError::MissingDoctypeSystemIdentifier,
        ParserError::SurrogateInInputStream,
        ParserError::NoncharacterInInputStream,
    ];
    for (i, a) in errors.iter().enumerate() {
        for (j, b) in errors.iter().enumerate() {
            assert_eq!(i == j, a.as_str() == b.as_str());
        }
    }
}

#[test]
fn self_closing_after_quoted_attribute() {
    let mut is = stream("<a b=\"c\"/>");
    let mut t = Tokenizer::new(&mut is, None);
    match t.next_token() {
        Token::StartTagToken { name, is_self_closing, .. } => {
            assert_eq!(name, "a");
            assert!(is_self_closing);
        }
        other => panic!("unexpected token {:?}", other),
    }
    assert!(t.get_errors().is_empty());
}
