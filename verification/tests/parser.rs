use gosub_engine::html5_parser::input_stream::InputStream;
use gosub_engine::html5_parser::node::{NodeData, NodeTrait, NodeType};
use gosub_engine::html5_parser::parser::document::Document;
use gosub_engine::html5_parser::parser::tree_builder::BuildError;
use gosub_engine::html5_parser::parser::{ActiveElement, Html5Parser, InsertionMode};

/// Runs the parser over `html` on a document that has a root node, until the
/// end of the input or until the tree builder stops.
fn parse(html: &str, document: &mut Document) -> Result<(), BuildError> {
    let mut is = InputStream::new();
    is.read_from_str(html, None);
    let mut parser = Html5Parser::new(&mut is, document);
    match parser.parse(10_000) {
        Ok(true) => Ok(()),
        Ok(false) => panic!("the input did not end within the steps"),
        Err(e) => Err(e),
    }
}

fn document_with_root() -> Document {
    Document::new()
}

#[test]
fn empty_input_leaves_only_the_root() {
    let mut document = document_with_root();
    assert_eq!(parse("", &mut document), Ok(()));
    assert!(document.get_node_by_id(1).is_none());
}

#[test]
fn comment_goes_under_the_root() {
    let mut document = document_with_root();
    assert_eq!(parse("<!-- c -->", &mut document), Ok(()));
    let node = document.get_node_by_id(1).unwrap();
    assert_eq!(node.type_of(), NodeType::Comment);
    assert_eq!(node.parent, Some(0));
    match &node.data {
        NodeData::Comment { value } => assert_eq!(value, " c "),
        _ => panic!("not a comment"),
    }
}

#[test]
fn html_start_tag_becomes_an_element() {
    let mut document = document_with_root();
    assert_eq!(parse("<html>", &mut document), Ok(()));
    let node = document.get_node_by_id(1).unwrap();
    assert_eq!(node.type_of(), NodeType::Element);
    assert_eq!(node.name, "html");
    assert_eq!(node.parent, Some(0));
}

#[test]
fn doctype_node_label() {
    let mut document = document_with_root();
    assert_eq!(parse("<!DOCTYPE html>", &mut document), Ok(()));
    assert_eq!(document.get_node_by_id(1).unwrap().name, "doctype[html   false]");
}

#[test]
fn text_in_body_is_not_written_yet() {
    let mut document = document_with_root();
    assert_eq!(parse("x", &mut document), Err(BuildError::NotImplemented));
    // html, head and body were made on the way
    assert_eq!(document.get_node_by_id(1).unwrap().name, "html");
    assert_eq!(document.get_node_by_id(2).unwrap().name, "head");
    assert_eq!(document.get_node_by_id(2).unwrap().parent, Some(1));
    assert_eq!(document.get_node_by_id(3).unwrap().name, "body");
}

#[test]
fn parser_starts_in_initial_mode() {
    let mut document = document_with_root();
    let mut is = InputStream::new();
    is.read_from_str("", None);
    let parser = Html5Parser::new(&mut is, &mut document);
    assert_eq!(parser.insertion_mode, InsertionMode::Initial);
    assert!(parser.open_elements.is_empty());
    assert!(parser.errors.is_empty());
}

#[test]
fn every_step_keeps_nodes_and_errors() {
    let mut document = document_with_root();
    let mut is = InputStream::new();
    is.read_from_str("</foo><!-- a --></bar><html></baz><head></head><!DOCTYPE html><body>", None);
    let mut parser = Html5Parser::new(&mut is, &mut document);
    let mut steps = 0;
    loop {
        let errors_before: Vec<(String, i64, i64)> = parser
            .errors
            .iter()
            .map(|e| (e.message.clone(), e.line, e.col))
            .collect();
        let ids_before: Vec<usize> =
            (0..32).filter(|id| parser.document.get_node_by_id(*id).is_some()).collect();
        match parser.parse_step() {
            Ok(true) => {}
            Ok(false) => break,
            Err(e) => panic!("step failed: {:?}", e),
        }
        steps += 1;
        for id in ids_before {
            assert!(parser.document.get_node_by_id(id).is_some());
        }
        assert!(parser.errors.len() >= errors_before.len());
        for (i, (message, line, col)) in errors_before.iter().enumerate() {
            assert_eq!(&parser.errors[i].message, message);
            assert_eq!(parser.errors[i].line, *line);
            assert_eq!(parser.errors[i].col, *col);
        }
    }
    assert!(steps > 5);
    // the stray end tags and the doctype were reported
    assert!(parser.errors.len() >= 3);
    assert_eq!(parser.errors[0].message, "end tag not allowed in before html insertion mode");
}

#[test]
fn template_marker_is_cleared_at_its_end_tag() {
    let mut document = document_with_root();
    let mut is = InputStream::new();
    is.read_from_str("<template></template>", None);
    let mut parser = Html5Parser::new(&mut is, &mut document);
    let mut markers_seen = 0;
    loop {
        match parser.parse_step() {
            Ok(true) => {}
            Ok(false) => break,
            Err(e) => panic!("step failed: {:?}", e),
        }
        if parser.active_formatting_elements.len() == 1 {
            assert!(matches!(parser.active_formatting_elements[0], ActiveElement::Marker));
            markers_seen += 1;
        }
    }
    assert!(markers_seen > 0);
    // the end tag cleared the marker, popped the template itself and reset
    // the mode from the html element that is left
    assert!(parser.active_formatting_elements.is_empty());
    assert!(parser.template_insertion_mode.is_empty());
    assert_eq!(parser.insertion_mode, InsertionMode::AfterHead);
    assert_eq!(parser.open_elements.len(), 1);
}


/// Checks that the document is a tree rooted at 0: every other node has a
/// parent that lists it exactly once, and no node is listed twice.
fn assert_rooted_tree(document: &Document) {
    let mut seen: Vec<usize> = Vec::new();
    assert!(document.get_node_by_id(0).unwrap().parent.is_none());
    for id in 0..64 {
        if let Some(node) = document.get_node_by_id(id) {
            assert_eq!(node.id, id);
            if id != 0 {
                let p = node.parent.expect("a node without parent");
                assert!(p < id);
                let siblings = &document.get_node_by_id(p).unwrap().children;
                assert_eq!(siblings.iter().filter(|c| **c == id).count(), 1);
            }
            for child in &node.children {
                assert!(!seen.contains(child));
                seen.push(*child);
            }
        }
    }
}

#[test]
fn the_document_stays_a_tree_when_the_tree_builder_stops() {
    let mut document = document_with_root();
    assert_eq!(parse("<!-- a --><html><head></head>x", &mut document), Err(BuildError::NotImplemented));
    assert_rooted_tree(&document);
}

#[test]
fn parents_and_children_agree_after_a_parse() {
    let mut document = document_with_root();
    let r = parse("<!DOCTYPE html><html><head><title></head><!-- c --><body></body></html>", &mut document);
    assert!(r.is_ok());
    let mut count = 0;
    for id in 0..64 {
        if let Some(node) = document.get_node_by_id(id) {
            count += 1;
            assert_eq!(node.id, id);
            for (i, child) in node.children.iter().enumerate() {
                assert_eq!(document.get_node_by_id(*child).unwrap().parent, Some(id));
                assert!(!node.children[..i].contains(child));
            }
            if let Some(p) = node.parent {
                assert!(document.get_node_by_id(p).unwrap().children.contains(&id));
            }
        }
    }
    assert!(count > 3);
    assert_rooted_tree(&document);
}

#[test]
fn parse_stops_when_the_steps_run_out() {
    let mut document = document_with_root();
    let mut is = InputStream::new();
    is.read_from_str("<html><head></head>", None);
    let mut parser = Html5Parser::new(&mut is, &mut document);
    assert_eq!(parser.parse(1), Ok(false));
    assert_eq!(parser.parse(100), Ok(true));
}
