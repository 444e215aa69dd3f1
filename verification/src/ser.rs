//! Serialization: writing protocol data with a spec, from the values that the
//! protocol information holds.
//!
//! What serializing a spec writes is stated by the spec functions of this
//! module over the context of spec types and the bytes written; the
//! executable functions are proved to do exactly that.
use vstd::prelude::*;
use vstd::utf8::*;

use crate::context::{incremented, last_name, path_of, MapperContext};
use crate::error::{ErrorKind, ParserError, kind_of};
use crate::info::{InfoProvider, KeyRoute, info_of, value_of};
use crate::mapper::MapperView;
use crate::names::{same_spec_type, RepeatCount, Separator, SpecType, ToSpecType};
use crate::spec::{Key, ListSpec, RepeatManySpec, Spec, SpecNode, ValueSpec, node_meta, node_type};
use crate::text::be_bytes;
use crate::value::{Value, ValueView, ValueExtractor};
use crate::writer::{PlaceHolderWrite, ProtocolBuffWriter, value_bytes};

verus! {

/// State that serialization works on: the context of spec types and the bytes written.
pub struct SState {
    pub types: Seq<SpecType>,
    pub out: Seq<u8>,
}

/// Outcome of a serialization: the kind of its error, if any, and the state after it.
pub type Serialized = (Option<ErrorKind>, SState);

/// Writing a value found for a spec: a value is written as its bytes (a value
/// that holds nothing cannot be), a missing value is an error unless the spec
/// is optional.
pub open spec fn data_written(value: Option<ValueView>, optional: bool, out: Seq<u8>) -> (Option<ErrorKind>, Seq<u8>) {
    match value {
        Some(v) => if v is Nothing {
            (Some(ErrorKind::MissingData), out)
        } else {
            (None, out + value_bytes(v))
        },
        None => if optional {
            (None, out)
        } else {
            (Some(ErrorKind::MissingData), out)
        },
    }
}

/// The value kept under the path of the context.
pub open spec fn value_at_path(m: MapperView, types: Seq<SpecType>) -> Option<ValueView> {
    if m.spec_data.contains_key(path_of(types)) {
        Some(m.spec_data[path_of(types)])
    } else {
        None
    }
}

/// The state after leaving the spec type `t`, as `MapperContext::end_spec` does.
pub open spec fn ended(types: Seq<SpecType>, t: SpecType) -> (Option<ErrorKind>, Seq<SpecType>) {
    if types.len() == 0 {
        (None, types)
    } else if same_spec_type(t@, types.last()@) {
        (None, types.drop_last())
    } else {
        (Some(ErrorKind::InvalidMarker { line_index: 0, char_index: 0 }), types)
    }
}

/// The bytes after a separator is written.
pub open spec fn separator_written(sep: Separator, out: Seq<u8>) -> Seq<u8> {
    match sep {
        Separator::Delimiter(d) => out + encode_utf8(d@),
        Separator::NBytes(n) => out + be_bytes(n as nat, 4),
        Separator::EndOfStream => out,
    }
}

/// The bytes after the count of a repeat is written: a delimiting separator
/// is written, a fixed count is not.
pub open spec fn count_written(c: RepeatCount, out: Seq<u8>) -> Seq<u8> {
    match c {
        RepeatCount::Fixed(_) => out,
        RepeatCount::Delimited(sep) => separator_written(sep, out),
    }
}

/// The delimiter that a delimited leaf spec writes after its value.
pub open spec fn delimiter_written(sep: Separator, out: Seq<u8>) -> Seq<u8> {
    separator_written(sep, out)
}

/// Serializing a spec that writes one placeholder.
pub open spec fn ser_leaf<I: KeyRoute>(n: SpecNode, m: MapperView, s: SState) -> Serialized {
    match n {
        SpecNode::DelimitedString(d) => {
            let (e, out) = data_written(value_at_path(m, s.types), d.spec_meta_data.optional, s.out);
            match e {
                Some(k) => (Some(k), SState { out, ..s }),
                None => (None, SState { out: delimiter_written(d.until, out), ..s }),
            }
        },
        SpecNode::ExactString(x) => {
            let value = if x.spec_meta_data.name is Delimiter {
                Some(ValueView::Text(x.input@))
            } else {
                info_of::<I>(m, path_of(s.types))
            };
            let (e, out) = data_written(value, x.spec_meta_data.optional, s.out);
            (e, SState { out, ..s })
        },
        SpecNode::OneOf(o) => {
            let (e, out) = data_written(value_at_path(m, s.types), o.spec_meta_data.optional, s.out);
            match e {
                Some(k) => (Some(k), SState { out, ..s }),
                None => (None, SState {
                    out: match o.until {
                        Separator::Delimiter(d) => out + encode_utf8(d@),
                        _ => out,
                    },
                    ..s
                }),
            }
        },
        SpecNode::Body(_) => match last_name(s.types) {
            Some(name) => match info_of::<I>(m, name) {
                Some(ValueView::Bytes(b)) => (None, SState { out: s.out + b, ..s }),
                Some(_) => (Some(ErrorKind::MissingData), s),
                None => (None, s),
            },
            None => (None, s),
        },
        _ => {
            let (e, out) = data_written(value_at_path(m, s.types), node_meta(n).optional, s.out);
            (e, SState { out, ..s })
        },
    }
}

/// Serializing a spec under its own type: the type is entered, the spec
/// serialized, and the type left; the spec's error comes first.
pub open spec fn ser_wrapped<I: KeyRoute>(n: SpecNode, m: MapperView, s: SState) -> Serialized
    decreases n, 1nat, 0nat,
{
    let t = node_type(n);
    let (e, s2) = ser_node::<I>(n, m, SState { types: s.types.push(t), ..s });
    let (e2, types) = ended(s2.types, t);
    (if e is Some { e } else { e2 }, SState { types, ..s2 })
}

/// Serializing the key of a key-value spec under the key's type.
pub open spec fn ser_key<I: KeyRoute>(k: Key, m: MapperView, s: SState) -> Serialized
    decreases k, 1nat, 0nat,
{
    let t = SpecType::Simple(k.1.name);
    let (e, s2) = ser_wrapped::<I>(*k.0, m, SState { types: s.types.push(t), ..s });
    let (e2, types) = ended(s2.types, t);
    (if e is Some { e } else { e2 }, SState { types, ..s2 })
}

/// Serializing the value of a key-value spec under the value's type.
pub open spec fn ser_value<I: KeyRoute>(v: ValueSpec, m: MapperView, s: SState) -> Serialized
    decreases v, 1nat, 0nat,
{
    let t = SpecType::Simple(v.1.name);
    let (e, s2) = ser_wrapped::<I>(*v.0, m, SState { types: s.types.push(t), ..s });
    let (e2, types) = ended(s2.types, t);
    (if e is Some { e } else { e2 }, SState { types, ..s2 })
}

/// Serializing a list spec under its own type.
pub open spec fn ser_list_wrapped<I: KeyRoute>(ls: ListSpec, m: MapperView, s: SState) -> Serialized
    decreases ls, 1nat, 0nat,
{
    let t = SpecType::Simple(ls.spec_meta_data.name);
    let (e, s2) = ser_list_from::<I>(ls, 0, m, SState { types: s.types.push(t), ..s });
    let (e2, types) = ended(s2.types, t);
    (if e is Some { e } else { e2 }, SState { types, ..s2 })
}

/// Serializing the constituents of a list from the `i`th on: a failing
/// mandatory constituent fails the list.
pub open spec fn ser_list_from<I: KeyRoute>(ls: ListSpec, i: nat, m: MapperView, s: SState) -> Serialized
    decreases ls, 0nat, ls.constituents@.len() - i,
{
    if i >= ls.constituents@.len() {
        (None, s)
    } else {
        let c = ls.constituents@[i as int];
        let (e, s2) = ser_wrapped::<I>(c, m, s);
        if e is Some && !node_meta(c).optional {
            (e, s2)
        } else {
            ser_list_from::<I>(ls, i + 1, m, s2)
        }
    }
}

/// The most iterations a repeat is serialized for: one per index of its context.
pub open spec fn repeat_limit() -> nat {
    0x10000
}

/// Serializing a repeat from its `k`th iteration, `succeeded` telling whether one
/// succeeded: it repeats while its constituents can be written, then writes
/// its count; it fails when none could be written and it is not optional.
pub open spec fn ser_repeat_from<I: KeyRoute>(rm: RepeatManySpec, k: nat, succeeded: bool, m: MapperView, s: SState) -> Serialized
    decreases rm, 0nat, repeat_limit() - k,
{
    if k >= repeat_limit() {
        (None, SState { out: count_written(rm.repeat_count, s.out), ..s })
    } else {
        let (e, s2) = ser_list_wrapped::<I>(rm.constituents, m, s);
        if e is None {
            ser_repeat_from::<I>(rm, k + 1, true, m, SState { types: incremented(s2.types), ..s2 })
        } else {
            let s3 = SState { out: count_written(rm.repeat_count, s2.out), ..s2 };
            if !succeeded && !rm.spec_meta_data.optional {
                (e, s3)
            } else {
                (None, s3)
            }
        }
    }
}

/// Serializing a spec.
pub open spec fn ser_node<I: KeyRoute>(n: SpecNode, m: MapperView, s: SState) -> Serialized
    decreases n, 0nat, 0nat,
{
    match n {
        SpecNode::List(ls) => ser_list_from::<I>(ls, 0, m, s),
        SpecNode::RepeatMany(rm) => ser_repeat_from::<I>(rm, 0, false, m, s),
        SpecNode::KeyValue(kv) => {
            let (e, s2) = ser_key::<I>(kv.key, m, s);
            if e is Some {
                (e, s2)
            } else {
                ser_value::<I>(kv.value, m, s2)
            }
        },
        SpecNode::Key(k) => ser_wrapped::<I>(*k.0, m, s),
        SpecNode::Value(v) => ser_wrapped::<I>(*v.0, m, s),
        SpecNode::InlineKeyWithValue(i) => {
            let (e, s2) = ser_wrapped::<I>(*i.0, m, s);
            if !i.1.optional && e is Some {
                (e, s2)
            } else {
                (None, s2)
            }
        },
        _ => ser_leaf::<I>(n, m, s),
    }
}

/// Writes a value found for a spec.
pub fn write_data(name: String, value: Option<&Value>, optional: bool, writer: &mut ProtocolBuffWriter) -> (r: Result<(), ParserError>)
    ensures
        ({
            let (e, out) = data_written(value_of(value), optional, old(writer)@);
            &&& r is Ok <==> e is None
            &&& r matches Err(x) ==> e == Some(kind_of(x))
            &&& final(writer)@ == out
        }),
{
    match value {
        Some(v) => {
            if let Value::NoValue = v {
                return Err(ParserError::MissingData(name));
            }
            crate::writer::write(v, writer)
        },
        None => if !optional {
            Err(ParserError::MissingData(name))
        } else {
            Ok(())
        },
    }
}

/// Writes the separator `sep`.
fn write_separator(sep: &Separator, writer: &mut ProtocolBuffWriter)
    ensures
        final(writer)@ == separator_written(*sep, old(writer)@),
{
    match sep {
        Separator::Delimiter(d) => {
            let _ = writer.write_data_bytes(d.as_str().as_bytes());
        },
        Separator::NBytes(n) => {
            let _ = writer.write_data_u32(*n);
        },
        Separator::EndOfStream => {},
    }
}

impl RepeatCount {
    /// Serializer for RepeatCount
    pub fn serialize(&self, writer: &mut ProtocolBuffWriter) -> (r: Result<(), ParserError>)
        ensures
            r is Ok,
            final(writer)@ == count_written(*self, old(writer)@),
    {
        match self {
            RepeatCount::Delimited(separator) => write_separator(separator, writer),
            RepeatCount::Fixed(_) => {},
        }
        Ok(())
    }
}

/// Serializes a spec that writes one placeholder.
pub fn serialize_leaf<I: InfoProvider>(
    spec: &SpecNode,
    info: &I,
    mapper_context: &mut MapperContext,
    writer: &mut ProtocolBuffWriter,
) -> (r: Result<(), ParserError>)
    ensures
        ({
            let (e, s2) = ser_leaf::<I>(*spec, info.mapper_view(), SState { types: old(mapper_context).types@, out: old(writer)@ });
            &&& r is Ok <==> e is None
            &&& r matches Err(x) ==> e == Some(kind_of(x))
            &&& final(mapper_context).types@ == s2.types
            &&& final(writer)@ == s2.out
        }),
{
    match spec {
        SpecNode::DelimitedString(d) => {
            let name = d.spec_meta_data.name.to_name_string();
            let value = info.get_info_by_spec_path(&mapper_context.get_current_spec_path());
            write_data(name, value, d.spec_meta_data.optional, writer)?;
            write_separator(&d.until, writer);
            Ok(())
        },
        SpecNode::ExactString(x) => {
            let name = x.spec_meta_data.name.to_name_string();
            if x.spec_meta_data.name.is_delimiter() {
                let v = Value::String(x.input.clone());
                write_data(name, Some(&v), x.spec_meta_data.optional, writer)
            } else {
                let value = info.get_info(&mapper_context.get_current_spec_path());
                write_data(name, value, x.spec_meta_data.optional, writer)
            }
        },
        SpecNode::OneOf(o) => {
            let name = o.spec_meta_data.name.to_name_string();
            let value = info.get_info_by_spec_path(&mapper_context.get_current_spec_path());
            write_data(name, value, o.spec_meta_data.optional, writer)?;
            match &o.until {
                Separator::Delimiter(d) => {
                    let _ = writer.write_data_bytes(d.as_str().as_bytes());
                },
                _ => {},
            }
            Ok(())
        },
        SpecNode::Body(_) => match mapper_context.get_last_available_spec_name() {
            Some(spec_name) => match info.get_info(&spec_name) {
                Some(value) => match value {
                    Value::U8Vec(bytes) => writer.write_data_bytes(bytes.as_slice()),
                    _ => Err(ParserError::MissingData(spec_name)),
                },
                None => Ok(()),
            },
            None => Ok(()),
        },
        _ => {
            let name = spec.get_meta_data().name.to_name_string();
            let value = info.get_info_by_spec_path(&mapper_context.get_current_spec_path());
            write_data(name, value, spec.get_meta_data().optional, writer)
        },
    }
}

/// Serializes a spec under its own type: the type is entered, the spec
/// serialized, and the type left.
pub fn serialize<I: InfoProvider>(
    spec: &SpecNode,
    info: &I,
    writer: &mut ProtocolBuffWriter,
    mapper_context: &mut MapperContext,
) -> (r: Result<(), ParserError>)
    ensures
        ({
            let (e, s2) = ser_wrapped::<I>(*spec, info.mapper_view(), SState { types: old(mapper_context).types@, out: old(writer)@ });
            &&& r is Ok <==> e is None
            &&& r matches Err(x) ==> e == Some(kind_of(x))
            &&& final(mapper_context).types@ == s2.types
            &&& final(writer)@ == s2.out
        }),
    decreases spec, 1nat, 0nat,
{
    mapper_context.start_spec(spec);
    let result = serialize_node(spec, info, mapper_context, writer);
    let end_spec_result = mapper_context.end_spec(spec);
    if result.is_err() {
        return result;
    }
    end_spec_result
}

/// Serializes the key of a key-value spec under the key's type.
fn serialize_key<I: InfoProvider>(
    k: &Key,
    info: &I,
    writer: &mut ProtocolBuffWriter,
    mapper_context: &mut MapperContext,
) -> (r: Result<(), ParserError>)
    ensures
        ({
            let (e, s2) = ser_key::<I>(*k, info.mapper_view(), SState { types: old(mapper_context).types@, out: old(writer)@ });
            &&& r is Ok <==> e is None
            &&& r matches Err(x) ==> e == Some(kind_of(x))
            &&& final(mapper_context).types@ == s2.types
            &&& final(writer)@ == s2.out
        }),
    decreases k, 1nat, 0nat,
{
    mapper_context.start_spec(k);
    let result = serialize(&*k.0, info, writer, mapper_context);
    let end_spec_result = mapper_context.end_spec(k);
    if result.is_err() {
        return result;
    }
    end_spec_result
}

/// Serializes the value of a key-value spec under the value's type.
fn serialize_value<I: InfoProvider>(
    v: &ValueSpec,
    info: &I,
    writer: &mut ProtocolBuffWriter,
    mapper_context: &mut MapperContext,
) -> (r: Result<(), ParserError>)
    ensures
        ({
            let (e, s2) = ser_value::<I>(*v, info.mapper_view(), SState { types: old(mapper_context).types@, out: old(writer)@ });
            &&& r is Ok <==> e is None
            &&& r matches Err(x) ==> e == Some(kind_of(x))
            &&& final(mapper_context).types@ == s2.types
            &&& final(writer)@ == s2.out
        }),
    decreases v, 1nat, 0nat,
{
    mapper_context.start_spec(v);
    let result = serialize(&*v.0, info, writer, mapper_context);
    let end_spec_result = mapper_context.end_spec(v);
    if result.is_err() {
        return result;
    }
    end_spec_result
}

/// Serializes a list spec under its own type.
fn serialize_list_wrapped<I: InfoProvider>(
    ls: &ListSpec,
    info: &I,
    writer: &mut ProtocolBuffWriter,
    mapper_context: &mut MapperContext,
) -> (r: Result<(), ParserError>)
    ensures
        ({
            let (e, s2) = ser_list_wrapped::<I>(*ls, info.mapper_view(), SState { types: old(mapper_context).types@, out: old(writer)@ });
            &&& r is Ok <==> e is None
            &&& r matches Err(x) ==> e == Some(kind_of(x))
            &&& final(mapper_context).types@ == s2.types
            &&& final(writer)@ == s2.out
        }),
    decreases ls, 1nat, 0nat,
{
    mapper_context.start_spec(ls);
    let result = serialize_list(ls, info, mapper_context, writer);
    let end_spec_result = mapper_context.end_spec(ls);
    if result.is_err() {
        return result;
    }
    end_spec_result
}

/// Serializes the constituents of a list.
pub fn serialize_list<I: InfoProvider>(
    ls: &ListSpec,
    info: &I,
    mapper_context: &mut MapperContext,
    writer: &mut ProtocolBuffWriter,
) -> (r: Result<(), ParserError>)
    ensures
        ({
            let (e, s2) = ser_list_from::<I>(*ls, 0, info.mapper_view(), SState { types: old(mapper_context).types@, out: old(writer)@ });
            &&& r is Ok <==> e is None
            &&& r matches Err(x) ==> e == Some(kind_of(x))
            &&& final(mapper_context).types@ == s2.types
            &&& final(writer)@ == s2.out
        }),
    decreases ls, 0nat, 0nat,
{
    let ghost target = ser_list_from::<I>(*ls, 0, info.mapper_view(), SState { types: mapper_context.types@, out: writer@ });
    let mut i: usize = 0;
    while i < ls.constituents.len()
        invariant
            i <= ls.constituents@.len(),
            ser_list_from::<I>(*ls, i as nat, info.mapper_view(), SState { types: mapper_context.types@, out: writer@ }) == target,
            target == ser_list_from::<I>(*ls, 0, info.mapper_view(), SState { types: old(mapper_context).types@, out: old(writer)@ }),
        decreases ls.constituents@.len() - i,
    {
        let constituent = &ls.constituents[i];
        let result = serialize(constituent, info, writer, mapper_context);
        if result.is_err() && !constituent.get_meta_data().optional {
            return result;
        }
        i = i + 1;
    }
    Ok(())
}

/// Serializes a repeat: its constituents while they can be written, then its count.
pub fn serialize_repeat<I: InfoProvider>(
    rm: &RepeatManySpec,
    info: &I,
    mapper_context: &mut MapperContext,
    writer: &mut ProtocolBuffWriter,
) -> (r: Result<(), ParserError>)
    ensures
        ({
            let (e, s2) = ser_repeat_from::<I>(*rm, 0, false, info.mapper_view(), SState { types: old(mapper_context).types@, out: old(writer)@ });
            &&& r is Ok <==> e is None
            &&& r matches Err(x) ==> e == Some(kind_of(x))
            &&& final(mapper_context).types@ == s2.types
            &&& final(writer)@ == s2.out
        }),
    decreases rm, 0nat, 0nat,
{
    let ghost target = ser_repeat_from::<I>(*rm, 0, false, info.mapper_view(), SState { types: mapper_context.types@, out: writer@ });
    let mut has_one_success = false;
    let mut k: u32 = 0;
    while k < 0x10000
        invariant
            k <= 0x10000,
            ser_repeat_from::<I>(*rm, k as nat, has_one_success, info.mapper_view(), SState { types: mapper_context.types@, out: writer@ }) == target,
            target == ser_repeat_from::<I>(*rm, 0, false, info.mapper_view(), SState { types: old(mapper_context).types@, out: old(writer)@ }),
        decreases 0x10000 - k,
    {
        let result = serialize_list_wrapped(&rm.constituents, info, writer, mapper_context);
        if result.is_ok() {
            has_one_success = true;
            mapper_context.increment_current_repeat_spec();
            k = k + 1;
        } else {
            let _ = rm.repeat_count.serialize(writer);
            if !has_one_success && !rm.spec_meta_data.optional {
                return result;
            }
            return Ok(());
        }
    }
    let _ = rm.repeat_count.serialize(writer);
    Ok(())
}

/// Serializes a spec.
pub fn serialize_node<I: InfoProvider>(
    spec: &SpecNode,
    info: &I,
    mapper_context: &mut MapperContext,
    writer: &mut ProtocolBuffWriter,
) -> (r: Result<(), ParserError>)
    ensures
        ({
            let (e, s2) = ser_node::<I>(*spec, info.mapper_view(), SState { types: old(mapper_context).types@, out: old(writer)@ });
            &&& r is Ok <==> e is None
            &&& r matches Err(x) ==> e == Some(kind_of(x))
            &&& final(mapper_context).types@ == s2.types
            &&& final(writer)@ == s2.out
        }),
    decreases spec, 0nat, 0nat,
{
    match spec {
        SpecNode::List(ls) => serialize_list(ls, info, mapper_context, writer),
        SpecNode::RepeatMany(rm) => serialize_repeat(rm, info, mapper_context, writer),
        SpecNode::KeyValue(kv) => {
            serialize_key(&kv.key, info, writer, mapper_context)?;
            serialize_value(&kv.value, info, writer, mapper_context)
        },
        SpecNode::Key(k) => serialize(&*k.0, info, writer, mapper_context),
        SpecNode::Value(v) => serialize(&*v.0, info, writer, mapper_context),
        SpecNode::InlineKeyWithValue(i) => {
            let result = serialize(&*i.0, info, writer, mapper_context);
            if !i.1.optional && result.is_err() {
                return result;
            }
            Ok(())
        },
        _ => serialize_leaf(spec, info, mapper_context, writer),
    }
}

/// trait to represent serialization behaviour
pub trait SpecSerialize {
    /// serializes current spec into `writer` using the info_provider and `mapper_context`
    fn serialize<I: InfoProvider>(
        &self,
        info_provider: &I,
        mapper_context: &mut MapperContext,
        writer: &mut ProtocolBuffWriter,
    ) -> Result<(), ParserError>;
}

impl SpecSerialize for SpecNode {
    fn serialize<I: InfoProvider>(
        &self,
        info_provider: &I,
        mapper_context: &mut MapperContext,
        writer: &mut ProtocolBuffWriter,
    ) -> (r: Result<(), ParserError>)
        ensures
            ({
                let (e, s2) = ser_node::<I>(*self, info_provider.mapper_view(), SState { types: old(mapper_context).types@, out: old(writer)@ });
                &&& r is Ok <==> e is None
                &&& r matches Err(x) ==> e == Some(kind_of(x))
                &&& final(mapper_context).types@ == s2.types
                &&& final(writer)@ == s2.out
            }),
    {
        serialize_node(self, info_provider, mapper_context, writer)
    }
}

impl SpecSerialize for ListSpec {
    fn serialize<I: InfoProvider>(
        &self,
        info_provider: &I,
        mapper_context: &mut MapperContext,
        writer: &mut ProtocolBuffWriter,
    ) -> (r: Result<(), ParserError>)
        ensures
            ({
                let (e, s2) = ser_list_from::<I>(*self, 0, info_provider.mapper_view(), SState { types: old(mapper_context).types@, out: old(writer)@ });
                &&& r is Ok <==> e is None
                &&& r matches Err(x) ==> e == Some(kind_of(x))
                &&& final(mapper_context).types@ == s2.types
                &&& final(writer)@ == s2.out
            }),
    {
        serialize_list(self, info_provider, mapper_context, writer)
    }
}

} // verus!
