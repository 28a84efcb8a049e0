use gosub_engine::html5_parser::input_stream::{Confidence, Element, Encoding, InputStream, Position};

#[test]
fn test_stream() {
    let mut is = InputStream::new();
    assert_eq!(is.eof(), true);

    is.read_from_str("foo", Some(Encoding::ASCII));
    assert_eq!(is.length, 3);
    assert_eq!(is.eof(), false);
    assert_eq!(is.chars_left(), 3);

    is.read_from_str("f👽f", Some(Encoding::UTF8));
    assert_eq!(is.length, 3);
    assert_eq!(is.eof(), false);
    assert_eq!(is.chars_left(), 3);
    assert_eq!(is.read_char(), Element::Utf8('f'));
    assert_eq!(is.chars_left(), 2);
    assert_eq!(is.eof(), false);
    assert_eq!(is.read_char(), Element::Utf8('👽'));
    assert_eq!(is.eof(), false);
    assert_eq!(is.chars_left(), 1);
    assert_eq!(is.read_char(), Element::Utf8('f'));
    assert_eq!(is.eof(), true);
    assert_eq!(is.chars_left(), 0);

    is.reset();
    is.set_encoding(Encoding::ASCII);
    assert_eq!(is.length, 6);
    assert_eq!(is.read_char(), Element::Utf8('f'));
    assert_eq!(is.read_char(), Element::Utf8('?'));
    assert_eq!(is.read_char(), Element::Utf8('?'));
    assert_eq!(is.read_char(), Element::Utf8('?'));
    assert_eq!(is.read_char(), Element::Utf8('?'));
    assert_eq!(is.read_char(), Element::Utf8('f'));
    assert_eq!(is.read_char(), Element::Eof);

    is.unread(); // unread EOF
    is.unread(); // Unread 'f'
    assert_eq!(is.chars_left(), 1);
    is.unread();
    assert_eq!(is.chars_left(), 2);

    is.reset();
    assert_eq!(is.chars_left(), 6);
    is.unread();
    assert_eq!(is.chars_left(), 6);
}

#[test]
fn test_certainty() {
    let mut is = InputStream::new();
    assert_eq!(is.is_certain_encoding(), false);

    is.set_confidence(Confidence::Certain);
    assert_eq!(is.is_certain_encoding(), true);

    is.set_confidence(Confidence::Tentative);
    assert_eq!(is.is_certain_encoding(), false);
}

#[test]
fn test_offsets() {
    let mut is = InputStream::new();
    is.read_from_str("abc", Some(Encoding::UTF8));
    assert_eq!(is.position, Position { offset: 0, line: 1, col: 1 });
    assert_eq!(Element::Utf8('a'), is.read_char());
    assert_eq!(is.position, Position { offset: 1, line: 1, col: 2 });
    assert_eq!(Element::Utf8('b'), is.read_char());
    assert_eq!(is.position, Position { offset: 2, line: 1, col: 3 });
    assert_eq!(Element::Utf8('c'), is.read_char());
    assert_eq!(is.position, Position { offset: 3, line: 1, col: 4 });
    assert_eq!(is.read_char().is_eof(), true);
    assert_eq!(is.position, Position { offset: 3, line: 1, col: 4 });
    assert_eq!(is.read_char().is_eof(), true);
    assert_eq!(is.position, Position { offset: 3, line: 1, col: 4 });

    let mut is = InputStream::new();
    is.read_from_str(
        "abc\ndefg\n\nhi\njk\nlmno\n\n\npqrst\nu\nv\nw\n\nxy\nz",
        Some(Encoding::UTF8),
    );
    assert_eq!(is.length, 40);

    is.seek(0);
    assert_eq!(is.position, Position { offset: 0, line: 1, col: 1 });
    let c = is.read_char();
    assert_eq!(Element::Utf8('a'), c);
    assert_eq!(is.position, Position { offset: 1, line: 1, col: 2 });

    is.seek(7);
    assert_eq!(is.position, Position { offset: 7, line: 2, col: 4 });

    let c = is.read_char();
    assert_eq!(Element::Utf8('g'), c);
    assert_eq!(is.position, Position { offset: 8, line: 2, col: 5 });

    let c = is.read_char();
    assert_eq!(Element::Utf8('\n'), c);
    assert_eq!(is.position, Position { offset: 9, line: 3, col: 1 });

    let c = is.read_char();
    assert_eq!(Element::Utf8('\n'), c);
    assert_eq!(is.position, Position { offset: 10, line: 4, col: 1 });

    let c = is.read_char();
    assert_eq!(Element::Utf8('h'), c);
    assert_eq!(is.position, Position { offset: 11, line: 4, col: 2 });

    is.reset();
    assert_eq!(is.position, Position { offset: 0, line: 1, col: 1 });

    is.seek(100);
    assert_eq!(is.position, Position { offset: 39, line: 15, col: 1 });
}

#[test]
fn test_seek() {
    let mut is = InputStream::new();
    is.read_from_str("ab👽cd", Some(Encoding::UTF8));
    assert_eq!(is.length, 5);
    assert_eq!(is.chars_left(), 5);
    assert_eq!(is.read_char(), Element::Utf8('a'));
    assert_eq!(is.read_char(), Element::Utf8('b'));
    assert_eq!(is.chars_left(), 3);
    is.seek(0);
    assert_eq!(is.chars_left(), 5);
    assert_eq!(is.read_char(), Element::Utf8('a'));
    assert_eq!(is.read_char(), Element::Utf8('b'));
    assert_eq!(is.chars_left(), 3);
    is.seek(3);
    assert_eq!(is.chars_left(), 2);
    assert_eq!(is.read_char(), Element::Utf8('c'));
    assert_eq!(is.read_char(), Element::Utf8('d'));
    assert_eq!(is.chars_left(), 0);
    assert_eq!(is.eof(), true);

    is.reset();
    assert_eq!(is.look_ahead(0), Element::Utf8('a'));
    assert_eq!(is.look_ahead(3), Element::Utf8('c'));
    assert_eq!(is.look_ahead(1), Element::Utf8('b'));
    assert_eq!(is.look_ahead(100), Element::Eof);
    assert_eq!(is.look_ahead(-1), Element::Eof);
    is.seek(4);
    assert_eq!(is.look_ahead(-1), Element::Utf8('c'));

    is.seek(0);
    assert_eq!(is.look_ahead_slice(1), "a");
    assert_eq!(is.look_ahead_slice(2), "ab");
    assert_eq!(is.look_ahead_slice(3), "ab👽");
    assert_eq!(is.look_ahead_slice(4), "ab👽c");
    assert_eq!(is.look_ahead_slice(5), "ab👽cd");
    assert_eq!(is.look_ahead_slice(6), "ab👽cd");
    assert_eq!(is.look_ahead_slice(100), "ab👽cd");

    is.seek(3);
    assert_eq!(is.look_ahead_slice(1), "c");
    assert_eq!(is.look_ahead_slice(2), "cd");
}

#[test]
fn test_eof() {
    let mut is = InputStream::new();
    is.read_from_str("abc", Some(Encoding::UTF8));
    assert_eq!(is.length, 3);
    assert_eq!(is.chars_left(), 3);
    assert_eq!(is.read_char(), Element::Utf8('a'));
    assert_eq!(is.read_char(), Element::Utf8('b'));
    assert_eq!(is.read_char(), Element::Utf8('c'));
    assert_eq!(is.read_char().is_eof(), true);
    assert_eq!(is.read_char().is_eof(), true);
    assert_eq!(is.read_char().is_eof(), true);
    assert_eq!(is.read_char().is_eof(), true);
    is.unread();
    assert_eq!(is.read_char().is_eof(), true);
    is.unread();
    assert_eq!(is.read_char().is_eof(), true);
    is.unread();
    is.unread();
    assert_eq!(is.read_char(), Element::Utf8('c'));
    is.unread();
    assert_eq!(is.read_char(), Element::Utf8('c'));
    is.unread();
    is.unread();
    assert_eq!(is.read_char(), Element::Utf8('b'));
    is.unread();
    is.unread();
    is.unread();
    is.unread();
    is.unread();
    is.unread();
    assert_eq!(is.read_char(), Element::Utf8('a'));
    assert_eq!(is.read_char(), Element::Utf8('b'));
    assert_eq!(is.read_char(), Element::Utf8('c'));
    assert_eq!(is.read_char().is_eof(), true);
    is.unread();
    assert_eq!(is.read_char().is_eof(), true);
}

#[test]
fn ascii_bytes_need_not_be_utf8() {
    let mut is = InputStream::new();
    is.read_from_bytes(vec![b'a', 0xff, b'b'], Some(Encoding::ASCII));
    assert_eq!(is.chars_left(), 3);
    assert!(is.read_char().is_utf8());
}
