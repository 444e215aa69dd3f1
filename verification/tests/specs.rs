use protocol_spec::builders::{
    new_mandatory_spec_builder, BuildFromScratch, DelimitedStringSpecBuilder, DelimiterBuilder, InlineValueBuilder,
    KeySpecBuilder, NumberSpecBuilder, ProtoSpecBuilder, ProtoSpecBuilderData, RepeatBuilder, StringSpecBuilder,
    ValueBuilder,
};
use protocol_spec::deser::SpecDeserialize;
use protocol_spec::info::InfoProvider;
use protocol_spec::mapper::DefaultMapper;
use protocol_spec::names::{Separator, SpecName};
use protocol_spec::reader::{MarkAndRead, ProtocolBuffReader};
use protocol_spec::spec::SpecNode;
use protocol_spec::traverse::{traverse_spec, SpecTraverse};
use protocol_spec::value::Value;
use protocol_spec::error::ParserError;
use protocol_spec::http::HttpRequestInfo;

fn greeting_spec() -> protocol_spec::spec::ListSpec {
    let spec_builder = ProtoSpecBuilderData::<BuildFromScratch>::new();
    spec_builder
        .inline_value_follows(SpecName::NoName, true)
        .expect_string(SpecName::Name("greeting".to_string()), false)
        .delimited_by_space()
        .inline_value_follows(SpecName::NoName, true)
        .expect_string(SpecName::Name("who".to_string()), false)
        .delimited_by_space()
        .build()
}

#[test]
fn readme_greeting_builds_two_inline_values() {
    let spec = greeting_spec();
    assert_eq!(spec.constituents.len(), 2);
    for c in &spec.constituents {
        match c {
            SpecNode::InlineKeyWithValue(i) => match &*i.0 {
                SpecNode::DelimitedString(d) => {
                    assert!(matches!(&d.until, Separator::Delimiter(s) if s == " "));
                },
                _ => panic!("not a delimited string"),
            },
            _ => panic!("not an inline value"),
        }
    }
}

#[test]
fn traversal_makes_templates() {
    let spec = SpecNode::List(greeting_spec());
    let mut mapper = DefaultMapper::new();
    traverse_spec(&spec, &mut mapper).unwrap();
    assert_eq!(mapper.get_template("greeting").map(|s| s.clone()), Some("$.Default.NoName.greeting".to_string()));
    assert_eq!(mapper.get_template("who").map(|s| s.clone()), Some("$.Default.NoName.who".to_string()));
    assert!(mapper.current_path().as_str() == "$");
    let mut again = DefaultMapper::new();
    assert!(spec.traverse(&mut again).is_ok());
}

#[test]
fn greeting_is_deserialized_without_update() {
    let spec = SpecNode::List(greeting_spec());
    let mut info = HttpRequestInfo::default();
    let mut reader = ProtocolBuffReader::new(b"hello world ".to_vec(), true);
    let v = spec.deserialize(&mut info, &mut reader, false).unwrap();
    assert!(matches!(v, Value::NoValue));
    assert_eq!(reader.unread_count(), 0);
}

#[test]
fn end_of_stream_on_optional_spec_gives_no_value() {
    let spec = SpecNode::List(greeting_spec());
    let mut info = HttpRequestInfo::default();
    let mut reader = ProtocolBuffReader::new(b"hello".to_vec(), false);
    let v = spec.deserialize(&mut info, &mut reader, false).unwrap();
    assert!(matches!(v, Value::NoValue));
    assert_eq!(reader.unread_count(), 5);
    assert!(!reader.has_markers());
}

#[test]
fn list_where_nothing_succeeds_fails() {
    let spec = SpecNode::List(greeting_spec());
    let mut info = HttpRequestInfo::default();
    let mut reader = ProtocolBuffReader::new(b"x".to_vec(), true);
    match spec.deserialize(&mut info, &mut reader, false) {
        Err(ParserError::NoValidListConstituents(name)) => assert_eq!(name, "Default"),
        Ok(_) => panic!("expected an error"),
        Err(e) => panic!("unexpected {:?}", e),
    }
    assert_eq!(reader.unread_count(), 1);
    assert!(!reader.has_markers());
}

#[test]
fn key_value_and_numbers_build() {
    let numbers = new_mandatory_spec_builder(SpecName::Transient("numbers".to_string()))
        .inline_value_follows(SpecName::Name("count".to_string()), false)
        .expect_u32(SpecName::NoName, false)
        .key_follows(SpecName::Name("k".to_string()), false)
        .expect_string(SpecName::NoName, false)
        .delimited_by("=".to_string())
        .value_follows(SpecName::Name("v".to_string()), false)
        .expect_u16(SpecName::NoName, false)
        .build();
    assert_eq!(numbers.constituents.len(), 2);
    assert!(matches!(&numbers.constituents[1], SpecNode::KeyValue(kv) if matches!(&kv.spec_metadata.name, SpecName::Transient(t) if t == "key-value-spec")));
    let repeated = ProtoSpecBuilderData::<BuildFromScratch>::new()
        .repeat_n_times(SpecName::Name("pairs".to_string()), false, 3, numbers)
        .expect_newline()
        .build();
    assert_eq!(repeated.constituents.len(), 2);
    assert!(matches!(&repeated.constituents[1], SpecNode::ExactString(e) if e.input == "\r\n"));
}

#[test]
fn inline_number_is_read_as_big_endian() {
    let spec = SpecNode::List(
        new_mandatory_spec_builder(SpecName::Transient("n".to_string()))
            .inline_value_follows(SpecName::Name("request_uri".to_string()), false)
            .expect_u32(SpecName::NoName, false)
            .build(),
    );
    let mut mapper = DefaultMapper::new();
    traverse_spec(&spec, &mut mapper).unwrap();
    let mut info = HttpRequestInfo::default();
    *info.get_mapper_mut() = mapper;
    let mut reader = ProtocolBuffReader::new(vec![0, 0, 1, 0], true);
    spec.deserialize(&mut info, &mut reader, true).unwrap();
    assert!(matches!(info.get_info(&"request_uri".to_string()), Some(Value::UnSignedNumber32(256))));
}

fn read_number(spec: protocol_spec::spec::ListSpec, bytes: Vec<u8>) -> Option<Value> {
    let spec = SpecNode::List(spec);
    let mut info = protocol_spec::test_utils::TestRequestInfo::new();
    traverse_spec(&spec, info.get_mapper_mut()).unwrap();
    let mut reader = ProtocolBuffReader::new(bytes, true);
    spec.deserialize(&mut info, &mut reader, true).unwrap();
    info.get_info(&"n".to_string()).cloned()
}

#[test]
fn sixteen_bit_numbers_read_two_bytes() {
    let unsigned = new_mandatory_spec_builder(SpecName::Transient("t".to_string()))
        .inline_value_follows(SpecName::Name("n".to_string()), false)
        .expect_u16(SpecName::NoName, false)
        .build();
    assert!(matches!(read_number(unsigned, vec![0, 5, 0, 0]), Some(Value::UnSignedNumber16(5))));
    let signed = new_mandatory_spec_builder(SpecName::Transient("t".to_string()))
        .inline_value_follows(SpecName::Name("n".to_string()), false)
        .expect_i16(SpecName::NoName, false)
        .build();
    assert!(matches!(read_number(signed, vec![0xff, 0xfe]), Some(Value::SignedNumber16(-2))));
}

#[test]
fn skipped_optional_spec_leaves_no_marker() {
    let spec = SpecNode::List(
        new_mandatory_spec_builder(SpecName::Transient("t".to_string()))
            .inline_value_follows(SpecName::Name("maybe".to_string()), true)
            .expect_exact_string(SpecName::NoName, "A".to_string(), true)
            .inline_value_follows(SpecName::Name("must".to_string()), false)
            .expect_exact_string(SpecName::NoName, "BB".to_string(), false)
            .build(),
    );
    let mut info = protocol_spec::test_utils::TestRequestInfo::new();
    traverse_spec(&spec, info.get_mapper_mut()).unwrap();
    let mut reader = ProtocolBuffReader::new(Vec::new(), false);
    assert!(matches!(spec.deserialize(&mut info, &mut reader, true), Err(ParserError::EndOfStream)));
    assert!(!reader.has_markers());
    assert_eq!(reader.unread_count(), 0);
}
