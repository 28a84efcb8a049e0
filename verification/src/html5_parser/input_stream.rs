//! The character stream that the tokenizer reads: the document's bytes,
//! decoded in one of the supported encodings, with a read position that knows
//! its line and column.

use vstd::prelude::*;
use vstd::utf8::*;
use vstd::string::StringSliceAdditionalSpecFns;
use crate::html5_parser::text::{push_char, push_str};

verus! {

broadcast use vstd::string::group_string_axioms;

/// Encoding defines the way the buffer stream is read, as what defines a
/// "character".
#[derive(PartialEq, Eq, Structural, Clone, Copy, Debug)]
pub enum Encoding {
    /// Stream is of UTF8 characters
    UTF8,
    /// Stream is of 8bit ASCII
    ASCII,
}

/// How confident we are that the input stream is of its encoding.
#[derive(PartialEq, Eq, Structural, Clone, Copy, Debug)]
pub enum Confidence {
    /// This encoding might be the one we need
    Tentative,
    /// We are certain to use this encoding
    Certain,
}

/// A place in the stream: the character offset, and the (1-based) line and
/// column of that character.
#[derive(PartialEq, Eq, Structural, Clone, Copy, Debug)]
pub struct Position {
    pub offset: i64,
    pub line: i64,
    pub col: i64,
}

/// One element of the decoded stream.
#[derive(PartialEq, Eq, Structural, Clone, Copy, Debug)]
pub enum Element {
    /// Standard UTF character
    Utf8(char),
    /// Surrogate character (since they cannot be stored in a `char`)
    Surrogate(u16),
    /// End of stream
    Eof,
}

/// The upper-case hexadecimal digit of `d` (which is below 16).
pub open spec fn hex_digit(d: u16) -> char {
    if d < 10 {
        (d + 48) as char
    } else {
        (d + 55) as char
    }
}

/// The text of an element: the character itself, `U+XXXX` (four upper-case
/// hexadecimal digits) for a surrogate, and `EOF` for the end of the stream.
pub open spec fn element_text(e: Element) -> Seq<char> {
    match e {
        Element::Utf8(c) => seq![c],
        Element::Surrogate(s) => seq![
            'U',
            '+',
            hex_digit(s / 4096),
            hex_digit((s / 256) % 16),
            hex_digit((s / 16) % 16),
            hex_digit(s % 16),
        ],
        Element::Eof => seq!['E', 'O', 'F'],
    }
}

/// The characters of `elems[start..end)`, each element written as its text.
pub open spec fn elements_text(elems: Seq<Element>, start: int, end: int) -> Seq<char>
    decreases end - start,
{
    if end <= start {
        Seq::empty()
    } else {
        elements_text(elems, start, end - 1) + element_text(elems[end - 1])
    }
}

fn hex_digit_char(d: u16) -> (r: char)
    requires
        d < 16,
    ensures
        r == hex_digit(d),
{
    if d < 10 {
        ((d as u8) + 48u8) as char
    } else {
        ((d as u8) + 55u8) as char
    }
}

impl Element {
    pub fn is_eof(&self) -> (r: bool)
        ensures
            r == (*self is Eof),
    {
        match self {
            Element::Eof => true,
            _ => false,
        }
    }

    pub fn is_utf8(&self) -> (r: bool)
        ensures
            r == (*self is Utf8),
    {
        match self {
            Element::Utf8(_) => true,
            _ => false,
        }
    }

    pub fn is_surrogate(&self) -> (r: bool)
        ensures
            r == (*self is Surrogate),
    {
        match self {
            Element::Surrogate(_) => true,
            _ => false,
        }
    }

    /// The code point of the element, or 0 for the end of the stream.
    pub fn u32(&self) -> (r: u32)
        ensures
            r == match *self {
                Element::Utf8(c) => c as u32,
                Element::Surrogate(s) => s as u32,
                Element::Eof => 0u32,
            },
    {
        match self {
            Element::Utf8(c) => *c as u32,
            Element::Surrogate(c) => *c as u32,
            Element::Eof => 0,
        }
    }

    /// The character of the element, or NUL for a surrogate or the end of
    /// the stream.
    pub fn utf8(&self) -> (r: char)
        ensures
            r == match *self {
                Element::Utf8(c) => c,
                _ => '\0',
            },
    {
        match self {
            Element::Utf8(c) => *c,
            Element::Surrogate(..) => '\0',
            Element::Eof => '\0',
        }
    }

    /// The element as text (see `element_text`).
    pub fn to_string(&self) -> (r: String)
        ensures
            r@ == element_text(*self),
    {
        let mut s = String::new();
        match self {
            Element::Utf8(ch) => {
                push_char(&mut s, *ch);
            },
            Element::Surrogate(surrogate) => {
                let v = *surrogate;
                push_char(&mut s, 'U');
                push_char(&mut s, '+');
                push_char(&mut s, hex_digit_char(v / 4096));
                push_char(&mut s, hex_digit_char((v / 256) % 16));
                push_char(&mut s, hex_digit_char((v / 16) % 16));
                push_char(&mut s, hex_digit_char(v % 16));
            },
            Element::Eof => {
                push_char(&mut s, 'E');
                push_char(&mut s, 'O');
                push_char(&mut s, 'F');
            },
        }
        proof {
            assert(s@ =~= element_text(*self));
        }
        s
    }
}

// ---------------------------------------------------------------------------
// Decoding
// ---------------------------------------------------------------------------
/// The elements that one input character at index `i` of `s` becomes: a
/// CR followed by LF disappears, any other CR becomes LF. (A `char` is never
/// in the surrogate range, so text never yields surrogate elements.)
pub open spec fn utf8_piece(s: Seq<char>, i: int) -> Seq<Element> {
    if s[i] == '\r' {
        if i + 1 < s.len() && s[i + 1] == '\n' {
            Seq::empty()
        } else {
            seq![Element::Utf8('\n')]
        }
    } else {
        // (the round trip through `u32` gives the solver the character's range)
        seq![Element::Utf8((s[i] as u32) as char)]
    }
}

/// The elements of the first `n` characters of `s` (see `utf8_piece`).
pub open spec fn utf8_elements_upto(s: Seq<char>, n: int) -> Seq<Element>
    decreases n,
{
    if n <= 0 {
        Seq::empty()
    } else {
        utf8_elements_upto(s, n - 1) + utf8_piece(s, n - 1)
    }
}

/// The elements of a character sequence read as UTF-8 text.
pub open spec fn utf8_elements(s: Seq<char>) -> Seq<Element> {
    utf8_elements_upto(s, s.len() as int)
}

/// The elements that byte `i` of `b` becomes when the bytes are read as
/// ASCII: CR LF and CR become LF, a byte of 0x80 or above becomes `?`.
pub open spec fn ascii_piece(b: Seq<u8>, i: int) -> Seq<Element> {
    if b[i] == 0x0Du8 {
        if i + 1 < b.len() && b[i + 1] == 0x0Au8 {
            Seq::empty()
        } else {
            seq![Element::Utf8('\n')]
        }
    } else if b[i] >= 0x80 {
        seq![Element::Utf8('?')]
    } else {
        seq![Element::Utf8(b[i] as char)]
    }
}

/// The elements of the first `n` bytes of `b` (see `ascii_piece`).
pub open spec fn ascii_elements_upto(b: Seq<u8>, n: int) -> Seq<Element>
    decreases n,
{
    if n <= 0 {
        Seq::empty()
    } else {
        ascii_elements_upto(b, n - 1) + ascii_piece(b, n - 1)
    }
}

/// The elements of a byte sequence read as ASCII.
pub open spec fn ascii_elements(b: Seq<u8>) -> Seq<Element> {
    ascii_elements_upto(b, b.len() as int)
}

/// Every element of the sequence is a character.
pub open spec fn all_chars(elems: Seq<Element>) -> bool {
    forall|i: int| 0 <= i < elems.len() ==> (#[trigger] elems[i]) is Utf8
}

/// The elements of the stream's bytes in the given encoding.
pub open spec fn decode_elements(e: Encoding, b: Seq<u8>) -> Seq<Element> {
    match e {
        Encoding::UTF8 => utf8_elements(decode_utf8(b)),
        Encoding::ASCII => ascii_elements(b),
    }
}

proof fn lemma_ascii_elements_len(b: Seq<u8>, n: int)
    requires
        0 <= n <= b.len(),
    ensures
        ascii_elements_upto(b, n).len() <= n,
    decreases n,
{
    if n > 0 {
        lemma_ascii_elements_len(b, n - 1);
        assert(ascii_piece(b, n - 1).len() <= 1);
    }
}

proof fn lemma_encode_utf8_len(chars: Seq<char>)
    ensures
        chars.len() <= encode_utf8(chars).len(),
    decreases chars.len(),
{
    if chars.len() > 0 {
        lemma_encode_utf8_len(chars.drop_first());
    }
}

/// `std::str::from_utf8`: decodes the bytes as UTF-8. As its documentation
/// says, it succeeds exactly when the bytes are well-formed UTF-8, and then
/// the text it gives back is made of exactly those bytes.
#[verifier::external_body]
fn str_from_utf8(bytes: &[u8]) -> (r: Option<&str>)
    ensures
        r is Some <==> valid_utf8(bytes@),
        r matches Some(s) ==> s.spec_bytes() == bytes@,
{
    std::str::from_utf8(bytes).ok()
}

/// Decodes UTF-8 bytes into stream elements (see `utf8_elements`).
fn decode_utf8_elements(bytes: &Vec<u8>) -> (r: Vec<Element>)
    requires
        valid_utf8(bytes@),
    ensures
        r@ == utf8_elements(decode_utf8(bytes@)),
        r@.len() <= bytes@.len(),
        all_chars(r@),
{
    let text = str_from_utf8(bytes.as_slice());
    let s = match text {
        Some(s) => s,
        None => {
            return Vec::new();
        },
    };
    let ghost chars = s@;
    proof {
        vstd::utf8::encode_utf8_decode_utf8(chars);
        lemma_encode_utf8_len(chars);
    }
    let blen = bytes.len();
    let mut result: Vec<Element> = Vec::new();
    // Whether the previous character was a CR whose element is still pending.
    let mut pending_cr = false;
    let mut idx: usize = 0;
    for c in it: s.chars()
        invariant
            it.seq() == chars,
            idx == it.index(),
            0 <= idx <= chars.len(),
            chars.len() <= bytes@.len(),
            blen == bytes@.len(),
            result@.len() + (if pending_cr { 1int } else { 0int }) <= idx,
            all_chars(result@),
            pending_cr == (idx > 0 && chars[idx - 1] == '\r'),
            pending_cr ==> result@ == utf8_elements_upto(chars, idx - 1),
            !pending_cr ==> result@ == utf8_elements_upto(chars, idx as int),
    {
        assert(idx < chars.len() && c == chars[idx as int]);
        proof {
            vstd::utf8::char_u32_cast(c, c as u32);
        }
        if pending_cr {
            if c != '\n' {
                result.push(Element::Utf8('\n'));
            }
            assert(result@ =~= utf8_elements_upto(chars, idx as int));
        }
        if c == '\r' {
            pending_cr = true;
        } else {
            pending_cr = false;
            result.push(Element::Utf8(c));
            assert(result@ =~= utf8_elements_upto(chars, idx + 1));
        }
        idx += 1;
    }
    if pending_cr {
        result.push(Element::Utf8('\n'));
        assert(result@ =~= utf8_elements_upto(chars, idx as int));
    }
    assert(idx == chars.len());
    result
}

// ---------------------------------------------------------------------------
// Lines
// ---------------------------------------------------------------------------
/// The offsets at which the lines that start at or before offset `n` begin:
/// offset 0, and every offset just after a newline.
pub open spec fn line_starts(buf: Seq<Element>, n: int) -> Seq<int>
    decreases n,
{
    if n <= 0 {
        seq![0int]
    } else if buf[n - 1] == Element::Utf8('\n') {
        line_starts(buf, n - 1).push(n)
    } else {
        line_starts(buf, n - 1)
    }
}

/// The (1-based) line of offset `off`.
pub open spec fn line_of(buf: Seq<Element>, off: int) -> int {
    line_starts(buf, off).len() as int
}

/// The (1-based) column of offset `off`.
pub open spec fn col_of(buf: Seq<Element>, off: int) -> int {
    off - line_starts(buf, off).last() + 1
}

/// The position of offset `off`.
pub open spec fn position_at(buf: Seq<Element>, off: int) -> Position {
    Position { offset: off as i64, line: line_of(buf, off) as i64, col: col_of(buf, off) as i64 }
}

/// The offset that a request for offset `off` lands on: offsets before the
/// start are the start, and an offset past the end of the stream is that of
/// the last character.
pub open spec fn clamp_offset(off: int, len: int) -> int {
    if off < 0 {
        0
    } else if off > len {
        if len == 0 {
            0
        } else {
            len - 1
        }
    } else {
        off
    }
}

/// The largest stream, in bytes, that the stream's `i64` offsets, lines and
/// columns can address.
pub open spec fn stream_limit() -> int {
    0x3fff_ffff_ffff_ffff
}

proof fn lemma_line_starts_basic(buf: Seq<Element>, n: int)
    requires
        0 <= n,
    ensures
        line_starts(buf, n).len() >= 1,
        line_starts(buf, n).len() <= n + 1,
        line_starts(buf, n)[0] == 0,
        line_starts(buf, n).last() <= n,
        forall|j: int| 0 <= j < line_starts(buf, n).len() ==> 0 <= #[trigger] line_starts(buf, n)[j] <= n,
        forall|i: int, j: int|
            0 <= i < j < line_starts(buf, n).len() ==> line_starts(buf, n)[i] < line_starts(buf, n)[j],
    decreases n,
{
    if n > 0 {
        lemma_line_starts_basic(buf, n - 1);
    }
}

proof fn lemma_line_starts_prefix(buf: Seq<Element>, t: int, m: int)
    requires
        0 <= t <= m,
    ensures
        line_starts(buf, t).len() <= line_starts(buf, m).len(),
        forall|j: int| 0 <= j < line_starts(buf, t).len() ==> #[trigger] line_starts(buf, m)[j] == line_starts(buf, t)[j],
        forall|j: int|
            line_starts(buf, t).len() <= j < line_starts(buf, m).len() ==> #[trigger] line_starts(buf, m)[j] > t,
    decreases m,
{
    if m > t {
        lemma_line_starts_prefix(buf, t, m - 1);
    }
}

// ---------------------------------------------------------------------------
// The stream
// ---------------------------------------------------------------------------
/// HTML(5) input stream structure.
pub struct InputStream {
    /// Current encoding
    pub encoding: Encoding,
    /// How confident are we that this is the correct encoding?
    pub confidence: Confidence,
    /// Current position
    pub position: Position,
    /// Length (in elements) of the buffer
    pub length: usize,
    /// Offsets at which the lines found so far start
    pub line_offsets: Vec<usize>,
    /// How far the buffer has been scanned for line starts
    pub lines_scanned: usize,
    /// The decoded stream
    pub buffer: Vec<Element>,
    /// The raw bytes of the stream
    pub u8_buffer: Vec<u8>,
    /// True when we just read an EOF
    pub has_read_eof: bool,
}

impl InputStream {
    /// The decoded elements of the stream.
    pub open spec fn elements(&self) -> Seq<Element> {
        self.buffer@
    }

    /// The raw bytes of the stream.
    pub open spec fn bytes(&self) -> Seq<u8> {
        self.u8_buffer@
    }

    pub open spec fn cache_ok(&self) -> bool {
        let ls = line_starts(self.buffer@, self.lines_scanned as int);
        &&& self.lines_scanned <= self.length
        &&& self.line_offsets@.len() == ls.len()
        &&& forall|i: int| 0 <= i < ls.len() ==> self.line_offsets@[i] as int == #[trigger] ls[i]
    }

    /// The stream's invariant: its elements are its bytes decoded in its
    /// encoding, the position lies within the stream and carries the line
    /// and column of its offset, and an EOF can only just have been read at
    /// the end.
    pub open spec fn wf(&self) -> bool {
        &&& (self.encoding == Encoding::UTF8 ==> valid_utf8(self.bytes()))
        &&& self.bytes().len() < stream_limit()
        &&& self.elements() == decode_elements(self.encoding, self.bytes())
        &&& self.length == self.elements().len()
        &&& all_chars(self.elements())
        &&& self.length < stream_limit()
        &&& 0 <= self.position.offset <= self.length
        &&& self.position == position_at(self.elements(), self.position.offset as int)
        &&& (self.has_read_eof ==> self.position.offset == self.length)
        &&& self.cache_ok()
    }

    /// The stream is the same as `other` but for the line cache.
    pub open spec fn same_stream(&self, other: &InputStream) -> bool {
        &&& self.encoding == other.encoding
        &&& self.confidence == other.confidence
        &&& self.position == other.position
        &&& self.length == other.length
        &&& self.has_read_eof == other.has_read_eof
        &&& self.elements() == other.elements()
        &&& self.bytes() == other.bytes()
    }

    proof fn lemma_position_bounds(&self, off: int)
        requires
            self.wf(),
            0 <= off <= self.length,
        ensures
            position_at(self.elements(), off).offset == off,
            1 <= line_of(self.elements(), off) <= off + 1,
            1 <= col_of(self.elements(), off) <= off + 1,
            position_at(self.elements(), off).line == line_of(self.elements(), off),
            position_at(self.elements(), off).col == col_of(self.elements(), off),
    {
        lemma_line_starts_basic(self.elements(), off);
    }

    /// Creates a new, empty input stream.
    pub fn new() -> (r: Self)
        ensures
            r.wf(),
            r.encoding == Encoding::UTF8,
            r.confidence == Confidence::Tentative,
            r.position == (Position { offset: 0, line: 1, col: 1 }),
            r.length == 0,
            r.elements() == Seq::<Element>::empty(),
            r.bytes() == Seq::<u8>::empty(),
            !r.has_read_eof,
    {
        let mut line_offsets: Vec<usize> = Vec::new();
        line_offsets.push(0);
        let r = InputStream {
            encoding: Encoding::UTF8,
            confidence: Confidence::Tentative,
            position: Position { offset: 0, line: 1, col: 1 },
            length: 0,
            line_offsets,
            lines_scanned: 0,
            buffer: Vec::new(),
            u8_buffer: Vec::new(),
            has_read_eof: false,
        };
        proof {
            assert(r.bytes() =~= Seq::<u8>::empty());
            assert(decode_utf8(r.bytes()) =~= Seq::<char>::empty());
            assert(r.elements() =~= decode_elements(r.encoding, r.bytes()));
        }
        r
    }

    /// Returns true when the encoding of the stream is certain.
    pub fn is_certain_encoding(&self) -> (r: bool)
        ensures
            r == (self.confidence == Confidence::Certain),
    {
        match self.confidence {
            Confidence::Certain => true,
            Confidence::Tentative => false,
        }
    }

    /// Returns true when the stream is at its end, or has just read EOF.
    pub fn eof(&self) -> (r: bool)
        requires
            self.wf(),
        ensures
            r == (self.has_read_eof || self.position.offset >= self.length),
    {
        self.has_read_eof || self.position.offset as usize >= self.length
    }

    /// Resets the stream reader back to the start.
    pub fn reset(&mut self)
        requires
            old(self).wf(),
        ensures
            final(self).wf(),
            final(self).position == (Position { offset: 0, line: 1, col: 1 }),
            !final(self).has_read_eof,
            final(self).encoding == old(self).encoding,
            final(self).confidence == old(self).confidence,
            final(self).length == old(self).length,
            final(self).elements() == old(self).elements(),
            final(self).bytes() == old(self).bytes(),
    {
        self.position.offset = 0;
        self.position.line = 1;
        self.position.col = 1;
        self.has_read_eof = false;
        proof {
            assert(line_starts(self.elements(), 0) =~= seq![0int]);
        }
    }

    /// Moves to the given character offset (see `clamp_offset`).
    pub fn seek(&mut self, off: i64)
        requires
            old(self).wf(),
        ensures
            final(self).wf(),
            final(self).position == position_at(
                old(self).elements(),
                clamp_offset(off as int, old(self).length as int),
            ),
            !final(self).has_read_eof,
            final(self).encoding == old(self).encoding,
            final(self).confidence == old(self).confidence,
            final(self).length == old(self).length,
            final(self).elements() == old(self).elements(),
            final(self).bytes() == old(self).bytes(),
    {
        let p = self.get_position(off);
        self.position = p;
        self.has_read_eof = false;
    }

    /// Skips `off` characters forward.
    pub fn skip(&mut self, off: usize)
        requires
            old(self).wf(),
            old(self).position.offset + off <= i64::MAX,
        ensures
            final(self).wf(),
            final(self).position == position_at(
                old(self).elements(),
                clamp_offset(old(self).position.offset + off, old(self).length as int),
            ),
            !final(self).has_read_eof,
            final(self).encoding == old(self).encoding,
            final(self).confidence == old(self).confidence,
            final(self).length == old(self).length,
            final(self).elements() == old(self).elements(),
            final(self).bytes() == old(self).bytes(),
    {
        let target = self.position.offset + off as i64;
        self.seek(target);
    }

    /// Retrieves the position of the given offset (see `clamp_offset`).
    pub fn get_position(&mut self, seek_offset: i64) -> (r: Position)
        requires
            old(self).wf(),
        ensures
            final(self).wf(),
            final(self).same_stream(&*old(self)),
            r == position_at(
                old(self).elements(),
                clamp_offset(seek_offset as int, old(self).length as int),
            ),
    {
        let target: usize = if seek_offset < 0 {
            0
        } else if seek_offset > self.length as i64 {
            if self.length == 0 {
                0
            } else {
                self.length - 1
            }
        } else {
            seek_offset as usize
        };
        assert(target as int == clamp_offset(seek_offset as int, self.length as int));
        // Detect lines (if needed)
        self.read_line_endings_until(target);

        let ghost buf = self.elements();
        let ghost scanned = self.lines_scanned as int;
        proof {
            lemma_line_starts_prefix(buf, target as int, scanned);
            lemma_line_starts_basic(buf, target as int);
            lemma_line_starts_basic(buf, scanned);
        }
        let ghost lt = line_starts(buf, target as int);
        let mut last_line: usize = 0;
        let mut i: usize = 1;
        while i < self.line_offsets.len() && self.line_offsets[i] <= target
            invariant
                self.wf(),
                buf == self.elements(),
                scanned == self.lines_scanned,
                target <= scanned,
                lt == line_starts(buf, target as int),
                1 <= i <= lt.len(),
                last_line == i - 1,
                self.line_offsets@.len() == line_starts(buf, scanned).len(),
                lt.len() <= line_starts(buf, scanned).len(),
                forall|j: int| 0 <= j < lt.len() ==> #[trigger] line_starts(buf, scanned)[j] == lt[j],
                forall|j: int|
                    lt.len() <= j < line_starts(buf, scanned).len() ==> #[trigger] line_starts(
                        buf,
                        scanned,
                    )[j] > target,
                forall|j: int| 0 <= j < lt.len() ==> 0 <= #[trigger] lt[j] <= target,
            decreases self.line_offsets.len() - i,
        {
            proof {
                assert(self.line_offsets@[i as int] as int == line_starts(buf, scanned)[i as int]);
            }
            last_line = i;
            i += 1;
        }
        proof {
            if i < self.line_offsets.len() {
                assert(self.line_offsets@[i as int] as int == line_starts(buf, scanned)[i as int]);
            }
            assert(last_line + 1 == lt.len());
            assert(self.line_offsets@[last_line as int] as int == line_starts(buf, scanned)[last_line as int]);
            self.lemma_position_bounds(target as int);
        }
        let last_offset = self.line_offsets[last_line];
        // Set position values
        Position {
            offset: target as i64,
            line: (last_line + 1) as i64,
            col: (target - last_offset) as i64 + 1,
        }
    }

    /// The current offset.
    pub fn tell(&self) -> (r: usize)
        requires
            self.wf(),
        ensures
            r == self.position.offset,
    {
        self.position.offset as usize
    }

    /// Sets the given confidence of the input stream encoding.
    pub fn set_confidence(&mut self, c: Confidence)
        ensures
            final(self).confidence == c,
            final(self).encoding == old(self).encoding,
            final(self).position == old(self).position,
            final(self).length == old(self).length,
            final(self).has_read_eof == old(self).has_read_eof,
            final(self).elements() == old(self).elements(),
            final(self).bytes() == old(self).bytes(),
            old(self).wf() ==> final(self).wf(),
    {
        self.confidence = c;
    }

    /// Changes the encoding and, if it differs from the current one, decodes
    /// the bytes again in the new encoding (see `force_set_encoding`).
    pub fn set_encoding(&mut self, e: Encoding)
        requires
            old(self).wf(),
            e == Encoding::UTF8 ==> valid_utf8(old(self).bytes()),
        ensures
            final(self).wf(),
            old(self).encoding == e ==> *final(self) == *old(self),
            old(self).encoding != e ==> final(self).reencoded(&*old(self), e),
    {
        // Don't convert if the encoding is the same as it already is
        if self.encoding == e {
            return;
        }
        self.force_set_encoding(e)
    }

    /// `self` is `old` with its bytes decoded again in encoding `e`: the
    /// offset stays where it was, or moves back to the new end of the
    /// stream, and no EOF has been read.
    pub open spec fn reencoded(&self, old: &InputStream, e: Encoding) -> bool {
        let elems = decode_elements(e, old.bytes());
        let off = if old.position.offset <= elems.len() {
            old.position.offset as int
        } else {
            elems.len() as int
        };
        &&& self.encoding == e
        &&& self.confidence == old.confidence
        &&& self.bytes() == old.bytes()
        &&& self.elements() == elems
        &&& self.length == elems.len()
        &&& self.position == position_at(elems, off)
        &&& !self.has_read_eof
    }

    /// Sets the encoding of this stream, and decodes the bytes into elements
    /// in that encoding.
    pub fn force_set_encoding(&mut self, e: Encoding)
        requires
            old(self).wf(),
            e == Encoding::UTF8 ==> valid_utf8(old(self).bytes()),
        ensures
            final(self).wf(),
            final(self).reencoded(&*old(self), e),
    {
        let ghost old_self = *self;
        let buf = match e {
            Encoding::UTF8 => decode_utf8_elements(&self.u8_buffer),
            Encoding::ASCII => self.normalize_newlines_and_ascii(&self.u8_buffer),
        };
        let len = buf.len();
        let off: usize = if (self.position.offset as usize) <= len {
            self.position.offset as usize
        } else {
            len
        };
        self.buffer = buf;
        self.length = len;
        self.encoding = e;
        self.has_read_eof = false;
        let mut line_offsets: Vec<usize> = Vec::new();
        line_offsets.push(0);
        self.line_offsets = line_offsets;
        self.lines_scanned = 0;
        self.position = Position { offset: 0, line: 1, col: 1 };
        proof {
            assert(line_starts(self.elements(), 0) =~= seq![0int]);
        }
        let p = self.get_position(off as i64);
        self.position = p;
    }

    /// Reads the bytes as ASCII into elements (see `ascii_elements`).
    fn normalize_newlines_and_ascii(&self, buffer: &Vec<u8>) -> (r: Vec<Element>)
        ensures
            r@ == ascii_elements(buffer@),
            r@.len() <= buffer@.len(),
            all_chars(r@),
    {
        let mut result: Vec<Element> = Vec::with_capacity(buffer.len());
        let mut i: usize = 0;
        while i < buffer.len()
            invariant
                i <= buffer.len(),
                result@ == ascii_elements_upto(buffer@, i as int),
                result@.len() <= i,
                all_chars(result@),
            decreases buffer.len() - i,
        {
            if buffer[i] == 0x0Du8 {
                // convert CR to LF, or CRLF to LF
                if i + 1 < buffer.len() && buffer[i + 1] == 0x0Au8 {
                    i += 1;
                    assert(result@ =~= ascii_elements_upto(buffer@, i as int));
                    continue;
                }
                result.push(Element::Utf8('\n'));
            } else if buffer[i] >= 0x80 {
                // Convert high ascii to ?
                result.push(Element::Utf8('?'));
            } else {
                // everything else is ok
                result.push(Element::Utf8(buffer[i] as char));
            }
            i += 1;
            assert(result@ =~= ascii_elements_upto(buffer@, i as int));
        }
        result
    }

    /// Populates the stream with the contents of the string `s`, decoded in
    /// the given encoding (UTF-8 when none is given), and moves to its start.
    pub fn read_from_str(&mut self, s: &str, e: Option<Encoding>)
        requires
            old(self).wf(),
            s.spec_bytes().len() < stream_limit(),
        ensures
            final(self).wf(),
            final(self).bytes() == s.spec_bytes(),
            final(self).encoding == (match e {
                Some(enc) => enc,
                None => Encoding::UTF8,
            }),
            final(self).confidence == old(self).confidence,
            final(self).elements() == decode_elements(final(self).encoding, s.spec_bytes()),
            final(self).length == final(self).elements().len(),
            final(self).position == (Position { offset: 0, line: 1, col: 1 }),
            !final(self).has_read_eof,
    {
        let bytes = s.as_bytes();
        let mut v: Vec<u8> = Vec::with_capacity(bytes.len());
        let mut i: usize = 0;
        while i < bytes.len()
            invariant
                i <= bytes.len(),
                v@ == bytes@.take(i as int),
            decreases bytes.len() - i,
        {
            v.push(bytes[i]);
            i += 1;
            assert(v@ =~= bytes@.take(i as int));
        }
        assert(v@ =~= s.spec_bytes());
        proof {
            vstd::utf8::encode_utf8_valid_utf8(s@);
        }
        self.read_from_bytes(v, e);
    }

    /// Populates the stream with the given bytes, decoded in the given
    /// encoding (UTF-8 when none is given), and moves to its start. Bytes to
    /// be read as UTF-8 must be valid UTF-8.
    pub fn read_from_bytes(&mut self, v: Vec<u8>, e: Option<Encoding>)
        requires
            old(self).wf(),
            v@.len() < stream_limit(),
            !(e matches Some(Encoding::ASCII)) ==> valid_utf8(v@),
        ensures
            final(self).wf(),
            final(self).bytes() == v@,
            final(self).encoding == (match e {
                Some(enc) => enc,
                None => Encoding::UTF8,
            }),
            final(self).confidence == old(self).confidence,
            final(self).elements() == decode_elements(final(self).encoding, v@),
            final(self).length == final(self).elements().len(),
            final(self).position == (Position { offset: 0, line: 1, col: 1 }),
            !final(self).has_read_eof,
    {
        self.u8_buffer = v;
        // the old elements no longer match the bytes: start from an empty stream
        self.buffer = Vec::new();
        self.length = 0;
        self.encoding = Encoding::ASCII;
        self.has_read_eof = false;
        let mut line_offsets: Vec<usize> = Vec::new();
        line_offsets.push(0);
        self.line_offsets = line_offsets;
        self.lines_scanned = 0;
        self.position = Position { offset: 0, line: 1, col: 1 };
        let enc = match e {
            Some(enc) => enc,
            None => Encoding::UTF8,
        };
        self.force_set_encoding_from_scratch(enc);
        self.reset();
    }

    /// Decodes the bytes in encoding `e`, with the position at the start.
    fn force_set_encoding_from_scratch(&mut self, e: Encoding)
        requires
            e == Encoding::UTF8 ==> valid_utf8(old(self).bytes()),
            old(self).bytes().len() < stream_limit(),
        ensures
            final(self).wf(),
            final(self).encoding == e,
            final(self).confidence == old(self).confidence,
            final(self).bytes() == old(self).bytes(),
            final(self).elements() == decode_elements(e, old(self).bytes()),
            final(self).length == final(self).elements().len(),
    {
        let buf = match e {
            Encoding::UTF8 => decode_utf8_elements(&self.u8_buffer),
            Encoding::ASCII => self.normalize_newlines_and_ascii(&self.u8_buffer),
        };
        self.length = buf.len();
        self.buffer = buf;
        self.encoding = e;
        self.has_read_eof = false;
        let mut line_offsets: Vec<usize> = Vec::new();
        line_offsets.push(0);
        self.line_offsets = line_offsets;
        self.lines_scanned = 0;
        self.position = Position { offset: 0, line: 1, col: 1 };
        proof {
            assert(line_starts(self.elements(), 0) =~= seq![0int]);
        }
    }

    /// Returns the number of characters left in the buffer.
    pub fn chars_left(&self) -> (r: usize)
        requires
            self.wf(),
        ensures
            r == self.length - self.position.offset,
    {
        if self.position.offset < 0 {
            return self.length;
        }
        self.length - self.position.offset as usize
    }

    /// Reads the next element and moves past it; at the end of the stream
    /// this gives `Eof`, stays in place, and marks that EOF was read.
    pub fn read_char(&mut self) -> (r: Element)
        requires
            old(self).wf(),
        ensures
            final(self).wf(),
            final(self).read_from(&*old(self), r),
    {
        // Return EOF if we already have read EOF
        if self.has_read_eof {
            return Element::Eof;
        }
        // If we still can move forward in the stream, move forwards
        if self.position.offset < (self.length as i64) {
            let c = self.buffer[self.position.offset as usize];
            let p = self.get_position(self.position.offset + 1);
            self.position = p;
            c
        } else {
            // otherwise, we have reached the end of the stream
            self.has_read_eof = true;
            Element::Eof
        }
    }

    /// `self` is `old` after reading the element `r`.
    pub open spec fn read_from(&self, old: &InputStream, r: Element) -> bool {
        &&& self.encoding == old.encoding
        &&& self.confidence == old.confidence
        &&& self.length == old.length
        &&& self.elements() == old.elements()
        &&& self.bytes() == old.bytes()
        &&& if !old.has_read_eof && old.position.offset < old.length {
            &&& r == old.elements()[old.position.offset as int]
            &&& self.position == position_at(old.elements(), old.position.offset + 1)
            &&& !self.has_read_eof
        } else {
            &&& r == Element::Eof
            &&& self.position == old.position
            &&& self.has_read_eof
        }
    }

    /// Steps back one element: after reading EOF this only forgets that EOF
    /// was read; otherwise it moves back one character (not before the start).
    pub fn unread(&mut self)
        requires
            old(self).wf(),
        ensures
            final(self).wf(),
            final(self).unread_from(&*old(self)),
    {
        // We already read eof, so "unread" the eof by unsetting the flag
        if self.has_read_eof {
            self.has_read_eof = false;
            return;
        }
        // If we can track back from the offset, we can do so
        if self.position.offset > 0 {
            let p = self.get_position(self.position.offset - 1);
            self.position = p;
        }
    }

    /// `self` is `old` after stepping back one element.
    pub open spec fn unread_from(&self, old: &InputStream) -> bool {
        &&& self.encoding == old.encoding
        &&& self.confidence == old.confidence
        &&& self.length == old.length
        &&& self.elements() == old.elements()
        &&& self.bytes() == old.bytes()
        &&& !self.has_read_eof
        &&& if old.has_read_eof {
            self.position == old.position
        } else if old.position.offset > 0 {
            self.position == position_at(old.elements(), old.position.offset - 1)
        } else {
            self.position == old.position
        }
    }

    /// Looks ahead in the stream and returns the text of (at most) the next
    /// `len` elements.
    pub fn look_ahead_slice(&self, len: usize) -> (r: String)
        requires
            self.wf(),
        ensures
            r@ == elements_text(
                self.elements(),
                self.position.offset as int,
                if len < self.length - self.position.offset {
                    self.position.offset + len
                } else {
                    self.length as int
                },
            ),
    {
        let start = self.position.offset as usize;
        let end_pos = if len < self.length - start {
            start + len
        } else {
            self.length
        };
        let mut s = String::new();
        let mut i = start;
        while i < end_pos
            invariant
                self.wf(),
                start == self.position.offset,
                start <= i <= end_pos <= self.length,
                s@ == elements_text(self.elements(), start as int, i as int),
            decreases end_pos - i,
        {
            let piece = self.buffer[i].to_string();
            push_str(&mut s, piece.as_str());
            i += 1;
        }
        s
    }

    /// Looks at the element `idx` places from the current offset (which may
    /// be negative), or `Eof` when that place is outside the stream.
    pub fn look_ahead(&self, idx: i32) -> (r: Element)
        requires
            self.wf(),
        ensures
            r == if 0 <= self.position.offset + idx < self.length {
                self.elements()[self.position.offset + idx]
            } else {
                Element::Eof
            },
    {
        // Trying to look after the stream
        if self.position.offset + idx as i64 >= self.length as i64 {
            return Element::Eof;
        }
        // Trying to look before the stream
        if self.position.offset + (idx as i64) < 0 {
            return Element::Eof;
        }
        self.buffer[(self.position.offset + (idx as i64)) as usize]
    }

    /// Populates the line starts up to (at least) the given offset.
    fn read_line_endings_until(&mut self, seek_offset: usize)
        requires
            old(self).wf(),
            seek_offset <= old(self).length,
        ensures
            final(self).wf(),
            final(self).same_stream(&*old(self)),
            seek_offset <= final(self).lines_scanned,
    {
        let ghost buf = self.elements();
        while self.lines_scanned < seek_offset
            invariant
                self.wf(),
                self.same_stream(&*old(self)),
                buf == self.elements(),
                seek_offset <= self.length,
            decreases seek_offset - self.lines_scanned,
        {
            let at = self.lines_scanned;
            // Check the next char to see if it's a '\n'
            let c = self.buffer[at];
            if c == Element::Utf8('\n') {
                self.line_offsets.push(at + 1);
            }
            self.lines_scanned = at + 1;
            proof {
                let ls = line_starts(buf, at + 1);
                assert(self.line_offsets@.len() == ls.len());
                assert forall|i: int| 0 <= i < ls.len() implies self.line_offsets@[i] as int
                    == #[trigger] ls[i] by {
                    if i < line_starts(buf, at as int).len() {
                        assert(ls[i] == line_starts(buf, at as int)[i]);
                    }
                }
            }
        }
    }
}


/// Reading an element and then stepping back returns the stream to where it
/// was: the same position, with no EOF marked as read.
pub proof fn lemma_read_then_unread(s0: InputStream, s1: InputStream, s2: InputStream, r: Element)
    requires
        s0.wf(),
        !s0.has_read_eof,
        s1.read_from(&s0, r),
        s2.unread_from(&s1),
    ensures
        s2.position == s0.position,
        !s2.has_read_eof,
        s2.elements() == s0.elements(),
{
    if s0.position.offset < s0.length {
        s0.lemma_position_bounds(s0.position.offset + 1);
        assert(s1.position.offset == s0.position.offset + 1);
    }
}

/// Once the end of the stream has been read, every further read gives EOF
/// and leaves the position where it is.
pub proof fn lemma_eof_is_sticky(s0: InputStream, s1: InputStream, r: Element)
    requires
        s0.wf(),
        s0.has_read_eof || s0.position.offset >= s0.length,
        s1.read_from(&s0, r),
    ensures
        r == Element::Eof,
        s1.has_read_eof,
        s1.position == s0.position,
{
}

/// Reading an element before the end moves the offset forward by one and
/// gives the element at the old offset.
pub proof fn lemma_read_advances(s0: InputStream, s1: InputStream, r: Element)
    requires
        s0.wf(),
        !s0.has_read_eof,
        s0.position.offset < s0.length,
        s1.read_from(&s0, r),
    ensures
        r == s0.elements()[s0.position.offset as int],
        s1.position.offset == s0.position.offset + 1,
{
    s0.lemma_position_bounds(s0.position.offset + 1);
}

/// Seeking to an offset within the stream puts the read position exactly
/// there; seeking past the end stops at the last element.
pub proof fn lemma_seek_offset(s: InputStream, off: int)
    requires
        s.wf(),
    ensures
        0 <= off <= s.length ==> position_at(s.elements(), clamp_offset(off, s.length as int)).offset
            == off,
        off > s.length ==> clamp_offset(off, s.length as int) == (if s.length == 0 {
            0
        } else {
            s.length - 1
        }),
{
    let c = clamp_offset(off, s.length as int);
    if 0 <= c <= s.length {
        s.lemma_position_bounds(c);
    }
}

} // verus!
