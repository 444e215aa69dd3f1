use protocol_spec::context::{
    get_context_from_qualified_name, normalize_repeater, normalize_repeater_with_count, MapperContext,
    RepeaterContext,
};
use protocol_spec::error::ParserError;
use protocol_spec::mapper::{DefaultMapper, Mapper};
use protocol_spec::names::{RepeatCount, Separator, SpecName, SpecType};
use protocol_spec::value::Value;

fn text(v: Option<&Value>) -> Option<String> {
    match v {
        Some(Value::String(s)) => Some(s.clone()),
        _ => None,
    }
}

#[test]
fn simple_data_is_read_back() {
    let mut m = DefaultMapper::new();
    m.add_mapping_template("status_code".to_string(), "$.line.status_code".to_string());
    m.add_simple_data("status_code".to_string(), Value::String("200".to_string())).unwrap();
    assert_eq!(text(m.get_value_by_key("status_code")), Some("200".to_string()));
    assert_eq!(text(m.get_spec_value("$.line.status_code")), Some("200".to_string()));
}

#[test]
fn simple_data_without_template_is_missing_key() {
    let mut m = DefaultMapper::new();
    match m.add_simple_data("nowhere".to_string(), Value::String("x".to_string())) {
        Err(ParserError::MissingKey(msg)) => assert_eq!(msg, "template lookup failed for key nowhere"),
        other => panic!("unexpected {:?}", other),
    }
    assert!(m.get_value_by_key("nowhere").is_none());
}

fn header_mapper() -> DefaultMapper {
    let mut m = DefaultMapper::new();
    m.add_mapping_template("header_name".to_string(), "$.headers.{}.header_name".to_string());
    m.add_mapping_template("header_value".to_string(), "$.headers.{}.header_value".to_string());
    m
}

#[test]
fn key_value_entries_are_read_back() {
    let mut m = header_mapper();
    m.add_to_key_value_list(
        "Content-Type".to_string(),
        Value::String("text/plain".to_string()),
        "header_name".to_string(),
        "header_value".to_string(),
    )
    .unwrap();
    m.add_to_key_value_list(
        "Host".to_string(),
        Value::String("example.org".to_string()),
        "header_name".to_string(),
        "header_value".to_string(),
    )
    .unwrap();
    assert_eq!(
        text(m.get_value_from_key_value_list("Content-Type".to_string(), "header_name")),
        Some("text/plain".to_string())
    );
    assert_eq!(
        text(m.get_value_from_key_value_list("Host".to_string(), "header_name")),
        Some("example.org".to_string())
    );
    assert_eq!(text(m.get_spec_value("$.headers.0.header_name")), Some("Content-Type".to_string()));
    assert_eq!(text(m.get_spec_value("$.headers.1.header_value")), Some("example.org".to_string()));
    assert!(m.get_value_from_key_value_list("Accept".to_string(), "header_name").is_none());
}

#[test]
fn key_value_without_template_is_missing_data() {
    let mut m = header_mapper();
    match m.add_to_key_value_list(
        "Host".to_string(),
        Value::String("x".to_string()),
        "header_name".to_string(),
        "header-value".to_string(),
    ) {
        Err(ParserError::MissingData(msg)) => {
            assert_eq!(msg, "qualified lookup name missing in spec template for header-value")
        },
        other => panic!("unexpected {:?}", other),
    }
}

#[test]
fn qualified_name_and_context() {
    let m = header_mapper();
    assert_eq!(m.get_qualified_name("header_name").unwrap(), "$.headers.{}.header_name");
    assert_eq!(m.get_context_from_lookup_name("header_name").unwrap(), "$.headers.{}");
    assert!(matches!(m.get_qualified_name("other"), Err(ParserError::MissingData(_))));
}

#[test]
fn repeater_names_are_normalized() {
    let mut rc = RepeaterContext::new();
    assert_eq!(rc.get_count(), 0);
    assert_eq!(rc.next(), 1);
    let name = "$.A.B.{}.C".to_string();
    assert_eq!(normalize_repeater(&name, &rc), "$.A.B.1.C");
    assert_eq!(normalize_repeater_with_count(&name, 42), "$.A.B.42.C");
    assert_eq!(get_context_from_qualified_name("$.headers.{}.header_name", "header_name"), "$.headers.{}");
}

#[test]
fn context_paths() {
    let mut c = MapperContext::new();
    c.start_spec_type(SpecType::Simple(SpecName::Name("A".to_string())));
    c.start_spec_type(SpecType::RepeatMany(
        SpecName::Name("B".to_string()),
        RepeatCount::Delimited(Separator::Delimiter("\r\n".to_string())),
        0,
    ));
    c.start_spec_type(SpecType::Simple(SpecName::Name("C".to_string())));
    assert_eq!(c.get_current_spec_path_template(), "$.A.B.{}.C");
    assert_eq!(c.get_current_spec_path(), "$.A.B.0.C");
    assert_eq!(c.get_last_available_spec_name(), Some("C".to_string()));
    c.end_current_spec();
    c.increment_current_repeat_spec();
    assert_eq!(c.get_current_spec_path(), "$.A.B.1");
    let mismatch = SpecType::Simple(SpecName::Name("X".to_string()));
    assert!(matches!(c.end_spec(&mismatch), Err(ParserError::InvalidMarker { line_index: 0, char_index: 0, .. })));
    let b = SpecType::RepeatMany(SpecName::Name("B".to_string()), RepeatCount::Fixed(2), 5);
    assert!(c.end_spec(&b).is_ok());
    assert_eq!(c.get_current_spec_path(), "$.A");
}

#[test]
fn last_name_skips_transient_and_unnamed() {
    let mut c = MapperContext::new();
    assert_eq!(c.get_last_available_spec_name(), None);
    c.start_spec_type(SpecType::Simple(SpecName::Name("header_name".to_string())));
    c.start_spec_type(SpecType::Simple(SpecName::Transient("t".to_string())));
    c.start_spec_type(SpecType::Simple(SpecName::NoName));
    assert_eq!(c.get_last_available_spec_name(), Some("header_name".to_string()));
    assert_eq!(c.get_current_spec_path(), "$.header_name.t.NoName");
}
