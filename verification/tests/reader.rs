use protocol_spec::error::ParserError;
use protocol_spec::reader::{
    convert_io_error, is_eof_error, token_expected_error, MarkAndRead, PlaceHolderRead, ProtocolBuffReader,
    ReadBytesSize,
};
use protocol_spec::error::IoFailure;

fn reader(text: &str, closed: bool) -> ProtocolBuffReader {
    ProtocolBuffReader::new(text.as_bytes().to_vec(), closed)
}

#[test]
fn read_until_gives_bytes_before_delimiter() {
    let mut r = reader("GET /index HTTP/1.1\r\n", true);
    let first = r.read_placeholder_until(" ".to_string()).unwrap().unwrap();
    assert_eq!(first, b"GET".to_vec());
    let second = r.read_placeholder_until(" ".to_string()).unwrap().unwrap();
    assert_eq!(second, b"/index".to_vec());
    let third = r.read_placeholder_until("\r\n".to_string()).unwrap().unwrap();
    assert_eq!(third, b"HTTP/1.1".to_vec());
}

#[test]
fn read_until_finds_first_occurrence() {
    let mut r = reader("a: b: c\n", true);
    let key = r.read_placeholder_until(": ".to_string()).unwrap().unwrap();
    assert_eq!(key, b"a".to_vec());
    let rest = r.read_placeholder_until("\n".to_string()).unwrap().unwrap();
    assert_eq!(rest, b"b: c".to_vec());
}

#[test]
fn read_until_missing_delimiter_on_closed_stream_is_io_eof() {
    let mut r = reader("no delimiter here", true);
    match r.read_placeholder_until("\r\n".to_string()) {
        Err(ParserError::IOError { error }) => assert!(error.unexpected_eof),
        other => panic!("unexpected {:?}", other),
    }
}

#[test]
fn read_until_missing_delimiter_on_open_stream_is_end_of_stream() {
    let mut r = reader("no delimiter here", false);
    match r.read_placeholder_until("\r\n".to_string()) {
        Err(ParserError::EndOfStream) => {},
        other => panic!("unexpected {:?}", other),
    }
}

#[test]
fn read_exact_string_matches_and_moves_on() {
    let mut r = reader("\r\nrest", true);
    let got = r.read_placeholder_as_string("\r\n".to_string()).unwrap().unwrap();
    assert_eq!(got, b"\r\n".to_vec());
    let rest = r.read_bytes(ReadBytesSize::Fixed(4)).unwrap().unwrap();
    assert_eq!(rest, b"rest".to_vec());
}

#[test]
fn read_exact_string_mismatch_is_token_expected() {
    let mut r = reader("abcdef", true);
    match r.read_placeholder_as_string("abd".to_string()) {
        Err(ParserError::TokenExpected { line_index, char_index, .. }) => {
            assert_eq!(line_index, 0);
            assert_eq!(char_index, 1);
        },
        other => panic!("unexpected {:?}", other),
    }
}

#[test]
fn read_exact_string_on_short_stream_is_end_of_stream() {
    let mut r = reader("ab", true);
    match r.read_placeholder_as_string("abcd".to_string()) {
        Err(ParserError::EndOfStream) => {},
        other => panic!("unexpected {:?}", other),
    }
}

#[test]
fn read_bytes_does_not_move() {
    let mut r = reader("\x00\x00\x00\x2a", true);
    let a = r.read_bytes(ReadBytesSize::Fixed(4)).unwrap().unwrap();
    let b = r.read_bytes(ReadBytesSize::Fixed(4)).unwrap().unwrap();
    assert_eq!(a, vec![0, 0, 0, 42]);
    assert_eq!(a, b);
    assert_eq!(r.position(), 0);
}

#[test]
fn read_bytes_one_short_is_token_expected() {
    let mut r = reader("abc", true);
    match r.read_bytes(ReadBytesSize::Fixed(4)) {
        Err(ParserError::TokenExpected { .. }) => {},
        other => panic!("unexpected {:?}", other),
    }
}

#[test]
fn read_bytes_two_short_is_end_of_stream() {
    let mut r = reader("ab", true);
    match r.read_bytes(ReadBytesSize::Fixed(4)) {
        Err(ParserError::EndOfStream) => {},
        other => panic!("unexpected {:?}", other),
    }
}

#[test]
fn read_full_on_open_stream_gives_everything() {
    let mut r = reader("all of it", false);
    let all = r.read_bytes(ReadBytesSize::Full).unwrap().unwrap();
    assert_eq!(all, b"all of it".to_vec());
}

#[test]
fn read_full_on_closed_stream_gives_everything() {
    let mut r = reader("Hello", true);
    let all = r.read_bytes(ReadBytesSize::Full).unwrap().unwrap();
    assert_eq!(all, b"Hello".to_vec());
    let mut empty = reader("", true);
    assert_eq!(empty.read_bytes(ReadBytesSize::Full).unwrap().unwrap(), Vec::<u8>::new());
}

#[test]
fn mark_then_reset_reads_again() {
    let mut r = reader("one two three", true);
    let m = r.mark();
    let a = r.read_placeholder_until(" ".to_string()).unwrap().unwrap();
    r.reset(&m).unwrap();
    let b = r.read_placeholder_until(" ".to_string()).unwrap().unwrap();
    assert_eq!(a, b);
    assert!(!r.has_markers());
}

#[test]
fn mark_then_unmark_keeps_position() {
    let mut r = reader("one two three", true);
    let m = r.mark();
    assert!(r.has_markers());
    let _ = r.read_placeholder_until(" ".to_string()).unwrap();
    r.unmark(&m).unwrap();
    assert!(!r.has_markers());
    let next = r.read_placeholder_until(" ".to_string()).unwrap().unwrap();
    assert_eq!(next, b"two".to_vec());
}

#[test]
fn reset_with_stale_marker_is_invalid_marker() {
    let mut r = reader("one two three", true);
    let outer = r.mark();
    let _ = r.read_placeholder_until(" ".to_string()).unwrap();
    let _inner = r.mark();
    match r.reset(&outer) {
        Err(ParserError::InvalidMarker { line_index, char_index, .. }) => {
            assert_eq!(line_index, 0);
            assert_eq!(char_index, 1);
        },
        other => panic!("unexpected {:?}", other),
    }
    assert!(r.is_valid_marker(&outer).is_err());
}

#[test]
fn drained_reader_keeps_reading() {
    let mut r = reader("aa bb cc dd ", true);
    for expected in ["aa", "bb", "cc", "dd"] {
        let got = r.read_placeholder_until(" ".to_string()).unwrap().unwrap();
        assert_eq!(got, expected.as_bytes().to_vec());
    }
    assert_eq!(r.unread_count(), 0);
}

#[test]
fn io_errors_convert() {
    assert!(matches!(
        convert_io_error(IoFailure { unexpected_eof: true, message: "eof".to_string() }),
        ParserError::EndOfStream
    ));
    match convert_io_error(IoFailure { unexpected_eof: false, message: "reset".to_string() }) {
        ParserError::IOError { error } => assert_eq!(error.message, "reset"),
        other => panic!("unexpected {:?}", other),
    }
    assert!(is_eof_error(&ParserError::EndOfStream));
    assert!(is_eof_error(&ParserError::IOError { error: IoFailure { unexpected_eof: true, message: String::new() } }));
    assert!(!is_eof_error(&ParserError::MissingKey("k".to_string())));
    match token_expected_error(3, 7) {
        ParserError::TokenExpected { line_index, char_index, message } => {
            assert_eq!((line_index, char_index), (3, 7));
            assert_eq!(message, "Expected token not found, EOF reached");
        },
        other => panic!("unexpected {:?}", other),
    }
}

#[test]
fn read_until_splits_at_the_first_delimiter() {
    let mut r = reader("key::value::rest", true);
    assert_eq!(r.read_placeholder_until("::".to_string()).unwrap().unwrap(), b"key".to_vec());
    assert_eq!(r.unread_count(), "value::rest".len() as u128);
    let mut missing = reader("no delimiter", true);
    assert!(missing.read_placeholder_until("::".to_string()).is_err());
    assert_eq!(missing.unread_count(), "no delimiter".len() as u128);
}

#[test]
fn reset_after_several_reads_reads_again() {
    let mut r = reader("GET / HTTP/1.1\r\n", true);
    let marker = r.mark();
    assert_eq!(r.read_placeholder_until(" ".to_string()).unwrap().unwrap(), b"GET".to_vec());
    assert_eq!(r.read_placeholder_as_string("/".to_string()).unwrap().unwrap(), b"/".to_vec());
    assert_eq!(r.read_placeholder_as_string(" ".to_string()).unwrap().unwrap(), b" ".to_vec());
    r.reset(&marker).unwrap();
    assert!(!r.has_markers());
    assert_eq!(r.unread_count(), "GET / HTTP/1.1\r\n".len() as u128);
    assert_eq!(r.read_placeholder_until(" ".to_string()).unwrap().unwrap(), b"GET".to_vec());
}

#[test]
fn zero_byte_read_gives_nothing_read() {
    let mut r = reader("abc", true);
    assert_eq!(r.read_bytes(ReadBytesSize::Fixed(0)).unwrap().unwrap(), Vec::<u8>::new());
    assert_eq!(r.unread_count(), 3);
}
