use protocol_spec::error::{IoFailure, ParserError};
use protocol_spec::value::{Value, ValueExtractor, ValueType};
use protocol_spec::utils::pop_newline;

#[test]
fn parse_values() {
    assert!(matches!(ValueType::parse(&ValueType::String, b"hello"), Value::String(s) if s == "hello"));
    assert!(matches!(
        ValueType::parse(&ValueType::UnSignedNumber32, &[0, 0, 1, 2]),
        Value::UnSignedNumber32(258)
    ));
    assert!(matches!(
        ValueType::parse(&ValueType::SignedNumber16, &[0xff, 0xfe]),
        Value::SignedNumber16(-2)
    ));
    assert!(matches!(
        ValueType::parse(&ValueType::UnSignedNumber64, &[0, 0, 0, 0, 0, 0, 1, 0]),
        Value::UnSignedNumber64(256)
    ));
    assert!(matches!(ValueType::parse(&ValueType::U8Vec, &[1, 2, 3]), Value::U8Vec(v) if v == vec![1, 2, 3]));
    assert!(matches!(ValueType::parse(&ValueType::NoValue, &[1]), Value::NoValue));
}

#[test]
fn extract_values() {
    let v = Value::UnSignedNumber16(512);
    assert_eq!(v.get_string_value(), Some("512".to_string()));
    assert_eq!(v.get_unsigned_num_16_value(), Some(512));
    assert_eq!(v.get_unsigned_num_32_value(), None);
    let s = Value::String("77".to_string());
    assert_eq!(s.get_unsigned_num_32_value(), Some(77));
    assert_eq!(Value::SignedNumber64(-5).get_string_value(), Some("-5".to_string()));
    assert!(matches!(Value::NoValue.get_string_value_unchecked(), Err(ParserError::MissingValue(_))));
    assert_eq!(Value::U8Vec(vec![9]).get_u8_vec(), Some(&vec![9]));
}

#[test]
fn describe_errors() {
    let e = ParserError::TokenExpected { line_index: 2, char_index: 5, message: "m".to_string() };
    assert_eq!(e.describe(), "Token expected at line 2 char_pos 5 m");
    assert_eq!(
        ParserError::NoValidListConstituents("list".to_string()).describe(),
        "No consituent of the list spec list has valid value"
    );
    assert_eq!(
        ParserError::IOError { error: IoFailure { unexpected_eof: true, message: "gone".to_string() } }.describe(),
        "IO Error gone"
    );
    assert!(ParserError::EndOfStream.is_eof());
    assert!(!ParserError::MissingKey("k".to_string()).is_eof());
}

#[test]
fn pop_newline_removes_one_newline() {
    let mut line = "text\n\n".to_string();
    pop_newline(&mut line);
    assert_eq!(line, "text\n");
    pop_newline(&mut line);
    assert_eq!(line, "text");
    pop_newline(&mut line);
    assert_eq!(line, "text");
}
