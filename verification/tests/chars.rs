use rustty::chars::{next_char, push_char, utf8_char_width, CharStream, CharStreamError};
use rustty::cursor::Cursor;

#[test]
fn width_goes_by_the_first_byte() {
    assert_eq!(utf8_char_width(b'a'), 1);
    assert_eq!(utf8_char_width(0x7F), 1);
    assert_eq!(utf8_char_width(0x80), 0);
    assert_eq!(utf8_char_width(0xBF), 0);
    assert_eq!(utf8_char_width(0xC1), 0);
    assert_eq!(utf8_char_width(0xC2), 2);
    assert_eq!(utf8_char_width(0xDF), 2);
    assert_eq!(utf8_char_width(0xE0), 3);
    assert_eq!(utf8_char_width(0xEF), 3);
    assert_eq!(utf8_char_width(0xF0), 4);
    assert_eq!(utf8_char_width(0xF4), 4);
    assert_eq!(utf8_char_width(0xF5), 0);
    assert_eq!(utf8_char_width(0xFF), 0);
}

#[test]
fn push_char_appends_the_utf8_encoding() {
    for c in ['a', '\0', '\u{7f}', 'é', '\u{7ff}', '€', '\u{ffff}', '😀', '\u{10ffff}', '┌'] {
        let mut buf = vec![b'>'];
        push_char(&mut buf, c);
        let mut want = vec![b'>'];
        want.extend_from_slice(c.to_string().as_bytes());
        assert_eq!(buf, want);
    }
}

#[test]
fn stream_reads_characters_of_every_width() {
    let text = "aé€😀z";
    let mut stream = CharStream::from_reader(text.as_bytes().to_vec());
    for c in text.chars() {
        assert_eq!(stream.next(), Some(Ok(c)));
    }
    assert_eq!(stream.next(), None);
    assert_eq!(stream.next(), None);
}

#[test]
fn stream_reports_what_is_not_utf8() {
    // A byte that begins no encoding is taken alone.
    let mut stream = CharStream::from_reader(vec![0x80, b'a']);
    assert_eq!(stream.next(), Some(Err(CharStreamError::NotUtf8)));
    assert_eq!(stream.next(), Some(Ok('a')));
    assert_eq!(stream.next(), None);
    // An encoding that is cut short takes all that is left.
    let mut stream = CharStream::from_reader(vec![0xE2, 0x82]);
    assert_eq!(stream.next(), Some(Err(CharStreamError::NotUtf8)));
    assert_eq!(stream.next(), None);
    // A malformed encoding takes the bytes that its first byte announces.
    let mut stream = CharStream::from_reader(vec![0xC3, b'(', b'b']);
    assert_eq!(stream.next(), Some(Err(CharStreamError::NotUtf8)));
    assert_eq!(stream.next(), Some(Ok('b')));
    // Overlong encodings and surrogates are no characters.
    let mut stream = CharStream::from_reader(vec![0xE0, 0x80, 0x80, 0xED, 0xA0, 0x80, 0xF4, 0x90, 0x80, 0x80]);
    assert_eq!(stream.next(), Some(Err(CharStreamError::NotUtf8)));
    assert_eq!(stream.next(), Some(Err(CharStreamError::NotUtf8)));
    assert_eq!(stream.next(), Some(Err(CharStreamError::NotUtf8)));
    assert_eq!(stream.next(), None);
}

#[test]
fn next_char_agrees_with_the_standard_decoder() {
    let text = "x\u{80}\u{7ff}\u{800}\u{d7ff}\u{e000}\u{ffff}\u{10000}\u{10ffff}";
    let bytes = text.as_bytes().to_vec();
    let mut pos = 0;
    let mut read = String::new();
    while let Some((c, next)) = next_char(&bytes, pos) {
        read.push(c.unwrap());
        pos = next;
    }
    assert_eq!(read, text);
    assert_eq!(pos, bytes.len());
}

#[test]
fn cursor_moves_one_column_right() {
    assert_eq!(Cursor::Valid(3, 7).next(), Cursor::Valid(4, 7));
    assert_eq!(Cursor::Invalid.next(), Cursor::Invalid);
    assert!(Cursor::Valid(0, 0).is_valid());
    assert!(!Cursor::Invalid.is_valid());
}
