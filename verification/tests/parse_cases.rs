use protocol_spec::builders::{
    new_spec_builder, CompositeBuilder, DelimitedStringSpecBuilder, DelimiterBuilder, InlineValueBuilder,
    KeySpecBuilder, ProtoSpecBuilder, RepeatBuilder, StringSpecBuilder, ValueBuilder,
};
use protocol_spec::error::ParserError;
use protocol_spec::info::InfoProvider;
use protocol_spec::names::{Separator, SpecName};
use protocol_spec::server::DefaultSerializer;
use protocol_spec::spec::{ListSpec, SpecNode};
use protocol_spec::test_utils::TestRequestInfo;
use protocol_spec::traverse::traverse_spec;
use protocol_spec::value::Value;

/// Information whose mapper holds the templates of `spec`.
fn info_for(spec: &SpecNode) -> TestRequestInfo {
    let mut request_info = TestRequestInfo::new();
    assert!(traverse_spec(spec, request_info.get_mapper_mut()).is_ok());
    request_info
}

/// Deserializes all of `data`, a stream that ends after it, into `info`.
fn parse(info: &mut TestRequestInfo, data: &[u8], spec: &SpecNode) -> Result<(), ParserError> {
    DefaultSerializer.deserialize_from(info, data.to_vec(), true, spec)
}

/// The value stored for the protocol name `name`.
fn value_of<'a>(info: &'a TestRequestInfo, name: &str) -> Option<&'a Value> {
    info.get_info(&name.to_string())
}

#[test]
fn parse_composite_test() {
    let spec_builder = new_spec_builder(SpecName::Name("root".to_string()));

    let request_line_placeholder = new_spec_builder(SpecName::NoName)
        .inline_value_follows(SpecName::NoName, false)
        .expect_one_of_string(
            SpecName::Name("request_method".to_owned()),
            false,
            vec!["GET".to_string(), "POST".to_string(), "DELETE".to_string(), "PUT".to_string(), "OPTIONS".to_string()],
        )
        .delimited_by_space()
        .inline_value_follows(SpecName::NoName, false)
        .expect_string(SpecName::Name("request_uri".to_string()), false)
        .delimited_by_space()
        .inline_value_follows(SpecName::NoName, false)
        .expect_string(SpecName::Name("protocol_version".to_string()), false)
        .delimited_by_newline()
        .build();

    let header_place_holder = new_spec_builder(SpecName::Name("header".to_string()))
        .key_follows(SpecName::Name("header_name".to_owned()), true)
        .expect_string(SpecName::NoName, false)
        .delimited_by(": ".to_string())
        .value_follows(SpecName::Name("header_value".to_owned()), false)
        .expect_string(SpecName::NoName, false)
        .delimited_by_newline()
        .build();

    let spec_builder = spec_builder.expect_composite(request_line_placeholder);
    let spec_builder = spec_builder.expect_newline();
    let spec_builder =
        spec_builder.repeat_many(SpecName::NoName, false, Separator::Delimiter("\r\n".to_owned()), header_place_holder);
    let spec_builder = spec_builder
        .inline_value_follows(SpecName::NoName, false)
        .expect_exact_string(SpecName::Name("data".to_string()), "test123".to_string(), false);
    let spec_builder = spec_builder.expect_newline();
    let spec: ListSpec = spec_builder.build();
    let spec = SpecNode::List(spec);

    let mut request_info = info_for(&spec);
    let result = parse(
        &mut request_info,
        b"GET /index.html HTTP/1.1\r\n\r\nname: value\r\nname2: value2\r\n\r\ntest123\r\n",
        &spec,
    );
    assert!(result.is_ok());
    match request_info.get_info(&"request_method".to_string()) {
        Some(Value::String(value)) => assert!(value == "GET"),
        other => panic!("unexpected {:?}", other),
    }
    match request_info.get_key_value_info_by_spec_name("name".to_owned(), &"header_name".to_owned()) {
        Some(Value::String(value)) => assert!(*value == "value"),
        other => panic!("unexpected {:?}", other),
    }
    match request_info.get_key_value_info_by_spec_name("name2".to_owned(), &"header_name".to_owned()) {
        Some(Value::String(value)) => assert!(*value == "value2"),
        other => panic!("unexpected {:?}", other),
    }
    match value_of(&request_info, "data") {
        Some(Value::String(value)) => assert!(*value == "test123"),
        other => panic!("unexpected {:?}", other),
    }
}

#[test]
fn test_read_unexpected_token_error() {
    let root = new_spec_builder(SpecName::NoName)
        .inline_value_follows(SpecName::NoName, false)
        .expect_string(SpecName::Name("first_word".to_string()), false)
        .delimited_by_space()
        .inline_value_follows(SpecName::NoName, false)
        .expect_exact_string(SpecName::Name("second_word".to_string()), "World".to_string(), false)
        .expect_space()
        .build();
    let root = SpecNode::List(root);
    let mut request_info = info_for(&root);
    let result = parse(&mut request_info, b"Hello World\n", &root);
    assert!(result.is_err(), "expected unexpected token error, but got success");
    if let Err(ParserError::TokenExpected { message, .. }) = result {
        assert!(message.contains("Expected token not found"));
    }
}

#[test]
fn test_read_token_eof_error() {
    let root = new_spec_builder(SpecName::NoName)
        .inline_value_follows(SpecName::NoName, false)
        .expect_string(SpecName::Name("first_word".to_string()), false)
        .delimited_by_space()
        .inline_value_follows(SpecName::NoName, false)
        .expect_exact_string(SpecName::Name("second_word".to_string()), "World".to_string(), false)
        .expect_newline()
        .expect_newline()
        .build();
    let root = SpecNode::List(root);
    let mut request_info = info_for(&root);
    let result = parse(&mut request_info, b"Hello World\r\n", &root);
    assert!(result.is_err(), "expected unexpected token error, but got success");
    if let Err(e) = result {
        assert!(matches!(e, ParserError::EndOfStream), "expected EndOfStream error, but got different error {:?}", e);
    }
}

#[test]
fn test_proto_optional_test() {
    let spec = new_spec_builder(SpecName::NoName)
        .inline_value_follows(SpecName::Name("first_word".to_string()), false)
        .expect_string(SpecName::NoName, false)
        .delimited_by_space()
        .inline_value_follows(SpecName::Name("second_word".to_string()), true)
        .expect_exact_string(SpecName::NoName, "World".to_string(), true)
        .build();
    let spec = SpecNode::List(spec);
    let mut request_info = info_for(&spec);
    let result = parse(&mut request_info, b"Hello \r\n", &spec);
    assert!(result.is_ok(), "expected success, but got error {:?}", result.err());
    match value_of(&request_info, "first_word") {
        Some(Value::String(value)) => assert!(*value == "Hello"),
        other => panic!("expected a string value, but received {:?}", other),
    }
    assert!(value_of(&request_info, "second_word").is_none());
}

#[test]
fn token_error_message_is_stated() {
    let root = new_spec_builder(SpecName::NoName)
        .inline_value_follows(SpecName::NoName, false)
        .expect_exact_string(SpecName::Name("word".to_string()), "World".to_string(), false)
        .build();
    let root = SpecNode::List(root);
    let mut request_info = info_for(&root);
    match parse(&mut request_info, b"Hello", &root) {
        Err(ParserError::TokenExpected { message, .. }) => assert_eq!(message, "Expected token not found, EOF reached"),
        other => panic!("unexpected {:?}", other),
    }
}
