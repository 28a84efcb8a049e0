use gosub_engine::html5_parser::input_stream::InputStream;
use gosub_engine::html5_parser::token::{Attribute, Token};
use gosub_engine::html5_parser::token_states::State;
use gosub_engine::html5_parser::tokenizer::Tokenizer;
use gosub_engine::html5test::{
    can_match, match_errors, match_token, read_tests, state_for_name, unescape_code, unescape_if,
    Error, ErrorResult, ExpectedValue, TestResults,
};

fn s(v: &str) -> ExpectedValue {
    ExpectedValue::Str(v.to_string())
}

#[test]
fn match_text_token() {
    let have = Token::TextToken { value: "abc".to_string() };
    let expected = vec![s("Character"), s("abc")];
    assert!(can_match(&have, &expected));
    assert!(match_token(have, &expected, false));
    let other = Token::TextToken { value: "abd".to_string() };
    assert!(!match_token(other, &expected, false));
}

#[test]
fn match_wrong_kind() {
    let have = Token::EndTagToken { name: "p".to_string() };
    let expected = vec![s("StartTag"), s("p")];
    assert!(can_match(&have, &expected));
    assert!(!match_token(have, &expected, false));
}

#[test]
fn match_start_tag_ignores_attributes() {
    let have = Token::StartTagToken {
        name: "a".to_string(),
        is_self_closing: false,
        attributes: vec![Attribute { name: "x".to_string(), value: "y".to_string() }],
    };
    assert!(match_token(have, &[s("StartTag"), s("a")], false));
}

#[test]
fn match_double_escaped_text() {
    let have = Token::TextToken { value: "a\u{0041}b".to_string() };
    assert!(match_token(have, &[s("Character"), s("a\\u0041b")], true));
    let raw = Token::TextToken { value: "a\\u0041b".to_string() };
    assert!(match_token(raw, &[s("Character"), s("a\\u0041b")], false));
    let surrogate = Token::TextToken { value: "D800".to_string() };
    assert!(match_token(surrogate, &[s("Character"), s("\\uD800")], true));
}

#[test]
fn match_doctype() {
    let have = Token::DocTypeToken {
        name: Some("html".to_string()),
        force_quirks: false,
        pub_identifier: None,
        sys_identifier: None,
    };
    let expected = vec![s("DOCTYPE"), s("html"), ExpectedValue::Null, ExpectedValue::Null, ExpectedValue::Bool(true)];
    assert!(can_match(&have, &expected));
    assert!(match_token(have, &expected, false));
    let same_quirks = Token::DocTypeToken {
        name: Some("html".to_string()),
        force_quirks: true,
        pub_identifier: None,
        sys_identifier: None,
    };
    assert!(!match_token(same_quirks, &expected, false));
}

#[test]
fn unreadable_expectations() {
    let have = Token::TextToken { value: "a".to_string() };
    assert!(!can_match(&have, &[]));
    assert!(!can_match(&have, &[s("Nonsense"), s("a")]));
    assert!(!can_match(&have, &[s("Character")]));
    let doctype = Token::DocTypeToken { name: None, force_quirks: false, pub_identifier: None, sys_identifier: None };
    assert!(!can_match(&doctype, &[s("DOCTYPE"), s("html"), ExpectedValue::Null, ExpectedValue::Null, ExpectedValue::Bool(false)]));
}

#[test]
fn unescape_codes() {
    assert_eq!(unescape_code("0041"), "A");
    assert_eq!(unescape_code("00e9"), "\u{e9}");
    assert_eq!(unescape_code("DFFF"), "DFFF");
    assert_eq!(unescape_code("12"), "12");
    assert_eq!(unescape_if("x\\u0042y", true), "xBy");
    assert_eq!(unescape_if("x\\u0042y", false), "x\\u0042y");
}

#[test]
fn state_names() {
    assert_eq!(state_for_name("Data state"), Some(State::DataState));
    assert_eq!(state_for_name("RCDATA state"), Some(State::RcDataState));
    assert_eq!(state_for_name("CDATA section state"), Some(State::CDataSectionState));
    assert_eq!(state_for_name("Nowhere state"), None);
}

#[test]
fn errors_compared() {
    let mut is = InputStream::new();
    is.read_from_str("\0a", None);
    let mut t = Tokenizer::new(&mut is, None);
    t.next_token();
    let right = vec![Error { code: "unexpected-null-character".to_string(), line: 1, col: 1 }];
    assert_eq!(match_errors(&t, &right), ErrorResult::Success);
    let moved = vec![Error { code: "unexpected-null-character".to_string(), line: 1, col: 2 }];
    assert_eq!(match_errors(&t, &moved), ErrorResult::PositionFailure);
    let other = vec![Error { code: "eof-in-tag".to_string(), line: 1, col: 1 }];
    assert_eq!(match_errors(&t, &other), ErrorResult::Failure);
    assert_eq!(match_errors(&t, &vec![]), ErrorResult::Success);
}

#[test]
fn results_are_tallied() {
    let mut r = TestResults::new();
    r.record_errors(ErrorResult::Success);
    r.record_errors(ErrorResult::PositionFailure);
    r.record_errors(ErrorResult::Failure);
    r.record_token_failure();
    assert_eq!(r.assertions, 4);
    assert_eq!(r.succeeded, 1);
    assert_eq!(r.failed, 3);
    assert_eq!(r.failed_position, 1);
    assert_eq!(r.tests, 0);
}

#[test]
fn tree_tests_are_read() {
    let lines: Vec<String> = [
        "#data", "<p>One", "#errors", "(1,3): expected-doctype", "#document", "| <html>",
        "#data", "Two", "#document", "| <body>",
    ]
    .iter()
    .map(|l| l.to_string())
    .collect();
    let tests = read_tests("tests1.dat", lines);
    assert_eq!(tests.len(), 2);
    assert_eq!(tests[0].line, 1);
    assert_eq!(tests[0].data, "<p>One");
    assert_eq!(tests[0].errors, vec!["(1,3): expected-doctype".to_string()]);
    assert_eq!(tests[0].document, vec!["| <html>".to_string()]);
    assert_eq!(tests[1].line, 7);
    assert_eq!(tests[1].data, "Two");
    assert_eq!(tests[1].file_path, "tests1.dat");
}

#[test]
fn empty_file_has_no_tests() {
    assert!(read_tests("x.dat", vec![]).is_empty());
}
