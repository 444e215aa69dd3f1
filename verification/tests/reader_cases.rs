use protocol_spec::error::ParserError;
use protocol_spec::reader::{MarkAndRead, PlaceHolderRead, ProtoStream, ProtocolBuffReader};

/// A reader over `data`, a stream that ends after it.
fn reader_of(data: &[u8]) -> ProtocolBuffReader {
    ProtocolBuffReader::new(data.to_vec(), true)
}

fn assert_result_has_string(result: Result<Option<Vec<u8>>, ParserError>, data: &str) {
    match result {
        Ok(Some(bytes)) => assert_eq!(String::from_utf8(bytes).unwrap(), data.to_string()),
        Ok(None) => panic!("no value read"),
        Err(e) => panic!("error {}", e.describe()),
    }
}

fn read_string_until() {
    let mut protocol_reader = reader_of(b"Hello World::");
    let bytes = protocol_reader.read_placeholder_until("::".to_string()).unwrap().unwrap();
    assert_eq!(String::from_utf8(bytes).unwrap(), "Hello World".to_string());
}

fn read_string_until_delimiter_missing() {
    let mut protocol_reader = reader_of(b"Hello World");
    let result = protocol_reader.read_placeholder_until("::".to_string());
    assert!(result.is_err());
}

fn read_string_until_delimiter_as_prefix() {
    let mut protocol_reader = reader_of(b"::Hello World");
    let result = protocol_reader.read_placeholder_until("::".to_string());
    assert_result_has_string(result, "");
}

fn read_string_until_space_as_delimiter() {
    let mut protocol_reader = reader_of(b"Hello World\n");
    let result = protocol_reader.read_placeholder_until(" ".to_string());
    assert_result_has_string(result, "Hello");
    let result = protocol_reader.read_placeholder_until("\n".to_string());
    assert_result_has_string(result, "World");
}

fn read_string() {
    let mut protocol_reader = reader_of(b"Hello World\n");
    let result = protocol_reader.read_placeholder_as_string("Hello".to_string());
    assert_result_has_string(result, "Hello");
    let result = protocol_reader.read_placeholder_as_string(" ".to_string());
    assert_result_has_string(result, " ");
    let result = protocol_reader.read_placeholder_as_string("World".to_string());
    assert_result_has_string(result, "World");
    let result = protocol_reader.read_placeholder_as_string("\n".to_string());
    assert_result_has_string(result, "\n");
}

#[test]
fn test_read_string_until() {
    read_string_until();
}

#[test]
fn protocol_reader_test_read_string_until() {
    read_string_until();
}

#[test]
fn test_read_string_until_delimiter_missing() {
    read_string_until_delimiter_missing();
}

#[test]
fn protocol_reader_test_read_string_until_delimiter_missing() {
    read_string_until_delimiter_missing();
}

#[test]
fn test_read_string_until_delimiter_as_prefix() {
    read_string_until_delimiter_as_prefix();
}

#[test]
fn protocol_reader_test_read_string_until_delimiter_as_prefix() {
    read_string_until_delimiter_as_prefix();
}

#[test]
fn test_read_string_until_space_asdelimiter() {
    read_string_until_space_as_delimiter();
}

#[test]
fn protocol_reader_test_read_string_until_space_asdelimiter() {
    read_string_until_space_as_delimiter();
}

#[test]
fn test_read_string() {
    read_string();
}

#[test]
fn protocol_reader_test_read_string() {
    read_string();
}

#[test]
fn test_proto_reader_mark_reset() {
    let mut protocol_reader = reader_of(b"Hello World\n");
    let marker = protocol_reader.mark();
    protocol_reader.read_placeholder_as_string("Hello".to_string()).unwrap();
    protocol_reader.reset(&marker).unwrap();
    let value = protocol_reader.read_placeholder_as_string("Hello".to_string()).unwrap();
    let _ = protocol_reader.reset(&marker);
    match value {
        Some(value) => {
            let str_value = String::from_utf8(value).unwrap();
            assert!(str_value == "Hello".to_string());
        },
        None => panic!("no value read"),
    }
}

fn proto_reader_stream_conversion() {
    let mut protocol_reader = reader_of(b"Hello World\n");
    protocol_reader.read_placeholder_as_string("Hello".to_string()).unwrap();
    let mut stream = ProtoStream::new(protocol_reader);
    for expected in b" World\n" {
        assert_eq!(stream.poll_next().unwrap(), Some(*expected));
    }
    let eof = stream.poll_next();
    match eof {
        Err(ParserError::IOError { error }) => assert!(error.unexpected_eof, "Expected eof error, found {:?}", error),
        other => panic!("Expected eof error, found {:?}", other),
    }
}

fn stream_to_proto_reader_conversion(marked: bool) {
    let mut protocol_reader = reader_of(b"Hello World\n");
    if marked {
        let _ = protocol_reader.mark();
    }
    protocol_reader.read_placeholder_as_string("Hello".to_string()).unwrap();
    let mut stream = ProtoStream::new(protocol_reader);
    assert_eq!(stream.poll_next().unwrap(), Some(b' '));
    assert_eq!(stream.poll_next().unwrap(), Some(b'W'));
    assert_eq!(stream.poll_next().unwrap(), Some(b'o'));
    assert_eq!(stream.poll_next().unwrap(), Some(b'r'));
    let mut proco_reader = stream.into_buff_reader();
    let data = proco_reader.read_placeholder_as_string("ld\n".to_string()).unwrap();
    match data {
        Some(value) => assert!(String::from_utf8(value).unwrap() == "ld\n".to_string()),
        None => panic!("no value read"),
    }
}

#[test]
fn test_stream_to_proto_reader_conversion() {
    stream_to_proto_reader_conversion(true);
}

#[test]
fn protocol_reader_test_stream_to_proto_reader_conversion() {
    stream_to_proto_reader_conversion(false);
}

#[test]
fn test_proto_reader_stream_conversion() {
    proto_reader_stream_conversion();
}

#[test]
fn protocol_reader_test_proto_reader_stream_conversion() {
    proto_reader_stream_conversion();
}
