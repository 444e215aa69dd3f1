//! Deserialization: reading protocol data with a spec, and storing what is
//! read in the protocol information.
//!
//! What deserializing a spec does is stated by the spec functions of this
//! module over the reader and the mapper of the information; the executable
//! functions are proved to do exactly that.
use vstd::prelude::*;
use vstd::slice::*;
use vstd::utf8::*;

use crate::context::{incremented, last_name, path_of};
use crate::error::{ErrorKind, ParserError, kind_of, token_message_stated};
use crate::info::{InfoProvider, KeyRoute, info_added, info_of, info_refused};
use crate::mapper::{MapperView, key_value_added, Mapper};
use crate::names::{name_path, RepeatCount, Separator, SpecMetaData, SpecName, SpecType, ToSpecType};
use crate::reader::{
    MarkAndRead, PlaceHolderRead, ProtocolBuffReader, ReadBytesSize, ReadResult, ReaderView,
    lemma_reads_keep_stream, marked, marker_kind, outcome_of, read_exact, read_sized, read_until, reset_to_marker,
    stream_from, unmarked, Marker,
};
use crate::spec::{
    ExactStringSpec, Key, ListSpec, NBytesSpec, NumberU32Spec, RepeatManySpec, SpecNode, ValueSpec,
    KeyValueSpec, node_meta, node_type, Spec,
};
use crate::text::{parse_u32, parse_u32_text, string_from_utf8};
use crate::value::{Value, ValueType, ValueView, ValueExtractor, parse_accepts, parsed_value, string_of, u32_of};

verus! {

/// State that deserialization works on: the reader and the mapper of the information.
pub struct DState {
    pub r: ReaderView,
    pub m: MapperView,
}

/// Outcome of deserializing a spec: the value it gives, or the kind of its error.
pub enum Outcome {
    Done(ValueView),
    Failed(ErrorKind),
}

/// The outcome a result stands for.
pub open spec fn outcome_of_result(r: Result<Value, ParserError>) -> Outcome {
    match r {
        Ok(v) => Outcome::Done(v@),
        Err(e) => Outcome::Failed(kind_of(e)),
    }
}

/// Reading up to a separator: a delimiter, a number of bytes, or the end of the stream.
pub open spec fn separator_read(sep: Separator, r: ReaderView) -> (ReadResult, ReaderView) {
    match sep {
        Separator::Delimiter(d) => read_until(r, encode_utf8(d@)),
        Separator::NBytes(n) => read_sized(r, ReadBytesSize::Fixed(n)),
        Separator::EndOfStream => read_sized(r, ReadBytesSize::Full),
    }
}

/// The value that read bytes give as `value_type`; bytes it cannot take
/// (text that is not UTF-8, a number of the wrong width) are a missing value.
pub open spec fn parsed_read(value_type: ValueType, res: ReadResult) -> Outcome {
    match res {
        ReadResult::Bytes(b) => if parse_accepts(value_type, b) {
            Outcome::Done(parsed_value(value_type, b))
        } else {
            Outcome::Failed(ErrorKind::MissingValue)
        },
        ReadResult::Nothing => Outcome::Failed(ErrorKind::MissingValue),
        ReadResult::Failed(k) => Outcome::Failed(k),
    }
}

/// Storing `value` under the innermost name of the context, if there is one:
/// the error of the information that refused it, and the mapper after.
pub open spec fn stored<I: KeyRoute>(m: MapperView, value: ValueView) -> (Option<ErrorKind>, MapperView) {
    match last_name(m.types) {
        Some(name) => match info_added::<I>(m, name, value) {
            Some(m2) => (None, m2),
            None => (Some(info_refused::<I>(name)), m),
        },
        None => (None, m),
    }
}

/// A value read by a simple spec: when the information is updated it is
/// stored and `Nothing` is given, else the value itself.
pub open spec fn kept<I: KeyRoute>(o: Outcome, s: DState, upd: bool) -> (Outcome, DState) {
    match o {
        Outcome::Failed(k) => (Outcome::Failed(k), s),
        Outcome::Done(v) => if upd {
            let (e, m2) = stored::<I>(s.m, v);
            match e {
                Some(k) => (Outcome::Failed(k), s),
                None => (Outcome::Done(ValueView::Nothing), DState { m: m2, ..s }),
            }
        } else {
            (Outcome::Done(v), s)
        },
    }
}

/// Reading `size` bytes for a spec with metadata `meta`: they are stored as
/// bytes when the information is updated, and given as a value of the spec's type.
pub open spec fn nbytes_read<I: KeyRoute>(meta: SpecMetaData, size: u32, s: DState, upd: bool) -> (Outcome, DState) {
    let (res, r2) = read_sized(s.r, ReadBytesSize::Fixed(size));
    let s2 = DState { r: r2, ..s };
    match res {
        ReadResult::Bytes(b) => {
            let (e, m2) = if upd { stored::<I>(s2.m, ValueView::Bytes(b)) } else { (None, s2.m) };
            match e {
                Some(k) => (Outcome::Failed(k), s2),
                None => (parsed_read(meta.value_type, ReadResult::Bytes(b)), DState { m: m2, ..s2 }),
            }
        },
        _ => (parsed_read(meta.value_type, res), s2),
    }
}

/// Reading a number of `width` bytes as `value_type`.
pub open spec fn number_read<I: KeyRoute>(value_type: ValueType, width: u32, s: DState, upd: bool) -> (Outcome, DState) {
    let (res, r2) = read_sized(s.r, ReadBytesSize::Fixed(width));
    kept::<I>(parsed_read(value_type, res), DState { r: r2, ..s }, upd)
}

/// Whether `text` is one of `values`.
pub open spec fn one_of(values: Seq<String>, text: Seq<char>) -> bool {
    exists|i: int| 0 <= i < values.len() && #[trigger] values[i]@ == text
}

/// The protocol name of the body length.
pub open spec fn content_length_name() -> Seq<char> {
    "Content-Length"@
}

/// Deserializing a spec that reads one placeholder.
pub open spec fn deser_leaf<I: KeyRoute>(n: SpecNode, s: DState, upd: bool) -> (Outcome, DState) {
    match n {
        SpecNode::DelimitedString(d) => {
            let (res, r2) = separator_read(d.until, s.r);
            kept::<I>(parsed_read(d.spec_meta_data.value_type, res), DState { r: r2, ..s }, upd)
        },
        SpecNode::ExactString(e) => {
            let (res, r2) = read_exact(s.r, encode_utf8(e.input@));
            let s2 = DState { r: r2, ..s };
            match parsed_read(e.spec_meta_data.value_type, res) {
                Outcome::Failed(k) => (Outcome::Failed(k), s2),
                Outcome::Done(v) => if upd && !(e.spec_meta_data.name is Delimiter) {
                    let (err, m2) = stored::<I>(s2.m, v);
                    match err {
                        Some(k) => (Outcome::Failed(k), s2),
                        None => (Outcome::Done(v), DState { m: m2, ..s2 }),
                    }
                } else {
                    (Outcome::Done(v), s2)
                },
            }
        },
        SpecNode::OneOf(o) => {
            let (res, r2) = separator_read(o.until, s.r);
            let s2 = DState { r: r2, ..s };
            match parsed_read(o.spec_meta_data.value_type, res) {
                Outcome::Failed(k) => (Outcome::Failed(k), s2),
                Outcome::Done(v) => match string_of(v) {
                    Some(t) => if one_of(o.values@, t) {
                        if upd {
                            kept::<I>(Outcome::Done(ValueView::Text(t)), s2, true)
                        } else {
                            (Outcome::Done(v), s2)
                        }
                    } else {
                        (Outcome::Failed(ErrorKind::MissingValue), s2)
                    },
                    None => (Outcome::Failed(ErrorKind::MissingValue), s2),
                },
            }
        },
        SpecNode::NBytes(b) => nbytes_read::<I>(b.spec_meta_data, b.size, s, upd),
        SpecNode::AllBytes(a) => {
            let (res, r2) = read_sized(s.r, ReadBytesSize::Full);
            let s2 = DState { r: r2, ..s };
            match res {
                ReadResult::Bytes(b) => if upd {
                    kept::<I>(Outcome::Done(ValueView::Bytes(b)), s2, true)
                } else {
                    (parsed_read(a.spec_meta_data.value_type, res), s2)
                },
                _ => (parsed_read(a.spec_meta_data.value_type, res), s2),
            }
        },
        SpecNode::U64(_) => number_read::<I>(ValueType::UnSignedNumber64, 8, s, upd),
        SpecNode::I64(_) => number_read::<I>(ValueType::SignedNumber64, 8, s, upd),
        SpecNode::U32(_) => number_read::<I>(ValueType::UnSignedNumber32, 4, s, upd),
        SpecNode::U16(_) => number_read::<I>(ValueType::UnSignedNumber16, 2, s, upd),
        SpecNode::I16(_) => number_read::<I>(ValueType::SignedNumber16, 2, s, upd),
        SpecNode::Body(b) => match info_of::<I>(s.m, content_length_name()) {
            None => (Outcome::Done(ValueView::Nothing), s),
            Some(v) => match string_of(v) {
                None => (Outcome::Failed(ErrorKind::MissingValue), s),
                Some(t) => match parse_u32_text(t) {
                    None => (Outcome::Failed(ErrorKind::MissingValue), s),
                    Some(len) => nbytes_read::<I>(
                        SpecMetaData::new_spec(b.spec_meta_data.name, ValueType::U8Vec, b.spec_meta_data.optional),
                        len,
                        s,
                        upd,
                    ),
                },
            },
        },
        _ => (Outcome::Failed(ErrorKind::MissingValue), s),
    }
}

/// The state after entering a spec type.
pub open spec fn entered(s: DState, t: SpecType) -> DState {
    DState { m: s.m.with_types(s.m.types.push(t)), ..s }
}

/// The state after leaving the innermost spec type.
pub open spec fn left(s: DState) -> DState {
    DState {
        m: s.m.with_types(if s.m.types.len() > 0 { s.m.types.drop_last() } else { s.m.types }),
        ..s
    }
}

/// The end of an undoable deserialization that marked the reader at `pos`:
/// a success forgets the marker; the end of the stream on an optional spec
/// goes back to the marker and gives `Nothing`, the spec being skipped; any
/// other failure goes back to the marker. A marker that is not the innermost
/// one is an error.
pub open spec fn undo(pos: nat, o: Outcome, s: DState, optional: bool) -> (Outcome, DState) {
    let innermost = s.r.markers.len() > 0 && s.r.markers.last() == pos;
    match o {
        Outcome::Done(v) => if innermost {
            (Outcome::Done(v), DState { r: unmarked(s.r), ..s })
        } else {
            (Outcome::Failed(marker_kind()), s)
        },
        Outcome::Failed(k) => if !innermost {
            (Outcome::Failed(marker_kind()), s)
        } else if k == ErrorKind::EndOfStream && optional {
            (Outcome::Done(ValueView::Nothing), DState { r: reset_to_marker(s.r), ..s })
        } else {
            (Outcome::Failed(k), DState { r: reset_to_marker(s.r), ..s })
        },
    }
}

/// The state with the reader marked.
pub open spec fn with_mark(s: DState) -> DState {
    DState { r: marked(s.r), ..s }
}

/// Undoable deserialization of a leaf spec.
pub open spec fn undoable_leaf<I: KeyRoute>(n: SpecNode, s: DState, upd: bool) -> (Outcome, DState) {
    let (o, s2) = deser_leaf::<I>(n, entered(with_mark(s), node_type(n)), upd);
    undo(s.r.pos, o, left(s2), node_meta(n).optional)
}

/// Deserializing a leaf spec, then going back to where the reader was.
pub open spec fn peek_leaf<I: KeyRoute>(n: SpecNode, s: DState, upd: bool) -> (Outcome, DState) {
    let (o, s2) = deser_leaf::<I>(n, with_mark(s), upd);
    if s2.r.markers.len() > 0 && s2.r.markers.last() == s.r.pos {
        (o, DState { r: reset_to_marker(s2.r), ..s2 })
    } else {
        (Outcome::Failed(marker_kind()), s2)
    }
}

/// The name found and the path of the context, with two spec types entered.
pub open spec fn extracted(types: Seq<SpecType>, outer: SpecType, inner: SpecType) -> (Option<Seq<char>>, Seq<char>) {
    (last_name(types.push(outer).push(inner)), path_of(types.push(outer).push(inner)))
}

/// The spec that checks for the delimiter of a repeat.
pub open spec fn delimiter_spec(d: String) -> SpecNode {
    SpecNode::ExactString(ExactStringSpec {
        input: d,
        spec_meta_data: SpecMetaData::new_spec(SpecName::Delimiter, ValueType::String, false),
    })
}

/// The spec that checks for the count that ends a repeat.
pub open spec fn count_spec() -> SpecNode {
    SpecNode::U32(NumberU32Spec(SpecMetaData::new_spec(SpecName::Delimiter, ValueType::UnSignedNumber32, false)))
}

/// The spec that checks for the end of the stream after a repeat.
pub open spec fn one_byte_spec() -> SpecNode {
    SpecNode::NBytes(NBytesSpec {
        spec_meta_data: SpecMetaData::new_spec(SpecName::Delimiter, ValueType::U8Vec, false),
        size: 1,
    })
}

/// What bounds the iterations of a repeat that has made `rc` of them from state `s`.
pub open spec fn repeat_measure(rm: RepeatManySpec, rc: u32, s: DState) -> nat {
    match rm.repeat_count {
        RepeatCount::Fixed(count) => if count >= rc { (count - rc) as nat } else { 0 },
        RepeatCount::Delimited(_) => s.r.remaining().len(),
    }
}

/// Deserializing a spec.
pub open spec fn deser<I: KeyRoute>(n: SpecNode, s: DState, upd: bool) -> (Outcome, DState)
    decreases n, 0nat, 0nat, 0nat,
{
    match n {
        SpecNode::List(ls) => list_from::<I>(ls, 0, false, s, upd),
        SpecNode::RepeatMany(rm) => repeat_from::<I>(rm, 0, s, upd),
        SpecNode::KeyValue(kv) => deser_key_value::<I>(kv, s, upd),
        SpecNode::Key(k) => undoable::<I>(*k.0, s, upd),
        SpecNode::Value(v) => undoable::<I>(*v.0, s, upd),
        SpecNode::InlineKeyWithValue(i) => {
            let (o, s2) = undoable::<I>(*i.0, s, upd);
            match o {
                Outcome::Done(v) => (Outcome::Done(if upd { ValueView::Nothing } else { v }), s2),
                Outcome::Failed(k) => (Outcome::Failed(k), s2),
            }
        },
        _ => deser_leaf::<I>(n, s, upd),
    }
}

/// Undoable deserialization of a spec: the reader is marked, the spec's type
/// entered, the spec deserialized, its type left, and the marker resolved.
pub open spec fn undoable<I: KeyRoute>(n: SpecNode, s: DState, upd: bool) -> (Outcome, DState)
    decreases n, 1nat, 0nat, 0nat,
{
    let (o, s2) = deser::<I>(n, entered(with_mark(s), node_type(n)), upd);
    undo(s.r.pos, o, left(s2), node_meta(n).optional)
}

/// Deserializing the constituents of a list from the `i`th on, `success`
/// telling whether one before succeeded: a failing mandatory constituent
/// fails the list, and a list where none succeeded fails too.
pub open spec fn list_from<I: KeyRoute>(ls: ListSpec, i: nat, success: bool, s: DState, upd: bool) -> (Outcome, DState)
    decreases ls, 2nat, ls.constituents@.len() - i, 0nat,
{
    if i >= ls.constituents@.len() {
        if success {
            (Outcome::Done(ValueView::Nothing), s)
        } else {
            (Outcome::Failed(ErrorKind::NoValidListConstituents(name_path(ls.spec_meta_data.name@))), s)
        }
    } else {
        let c = ls.constituents@[i as int];
        let (o, s2) = undoable::<I>(c, s, upd);
        match o {
            Outcome::Done(_) => list_from::<I>(ls, i + 1, true, s2, upd),
            Outcome::Failed(k) => if node_meta(c).optional {
                list_from::<I>(ls, i + 1, success, s2, upd)
            } else {
                (Outcome::Failed(k), s2)
            },
        }
    }
}

/// Deserializing the key of a key-value spec, undoably under the key's type.
pub open spec fn undoable_key<I: KeyRoute>(k: Key, s: DState, upd: bool) -> (Outcome, DState)
    decreases k, 1nat, 0nat, 0nat,
{
    let (o, s2) = undoable::<I>(*k.0, entered(with_mark(s), SpecType::Simple(k.1.name)), upd);
    undo(s.r.pos, o, left(s2), k.1.optional)
}

/// Deserializing the value of a key-value spec, undoably under the value's type.
pub open spec fn undoable_value<I: KeyRoute>(v: ValueSpec, s: DState, upd: bool) -> (Outcome, DState)
    decreases v, 1nat, 0nat, 0nat,
{
    let (o, s2) = undoable::<I>(*v.0, entered(with_mark(s), SpecType::Simple(v.1.name)), upd);
    undo(s.r.pos, o, left(s2), v.1.optional)
}

/// Deserializing a key-value spec: its key and its value are read without
/// updating the information; when it is updated, the pair is added to the
/// repeated key-value list named by the key and value specs.
pub open spec fn deser_key_value<I: KeyRoute>(kv: KeyValueSpec, s: DState, upd: bool) -> (Outcome, DState)
    decreases kv, 1nat, 0nat, 0nat,
{
    let (kname, _kpath) = extracted(s.m.types, SpecType::Simple(kv.key.1.name), node_type(*kv.key.0));
    let (ko, s1) = undoable_key::<I>(kv.key, s, false);
    match ko {
        Outcome::Failed(e) => (Outcome::Failed(e), s1),
        Outcome::Done(kval) => {
            let (vname, _vpath) = extracted(s1.m.types, SpecType::Simple(kv.value.1.name), node_type(*kv.value.0));
            let (vo, s2) = undoable_value::<I>(kv.value, s1, false);
            match vo {
                Outcome::Failed(e) => (Outcome::Failed(e), s2),
                Outcome::Done(vval) => if upd {
                    match string_of(kval) {
                        Some(kt) => match (kname, vname) {
                            (Some(kn), Some(vn)) => match key_value_added(s2.m, kt, vval, kn, vn) {
                                Some(m3) => (Outcome::Done(ValueView::Nothing), DState { m: m3, ..s2 }),
                                None => (Outcome::Failed(ErrorKind::MissingData), s2),
                            },
                            _ => (Outcome::Failed(ErrorKind::MissingKey), s2),
                        },
                        None => (Outcome::Failed(ErrorKind::MissingValue), s2),
                    }
                } else {
                    (Outcome::Done(ValueView::Nothing), s2)
                },
            }
        },
    }
}

/// What one iteration of a repeat decides: to stop with an outcome, or to go
/// on after the given number of successful iterations.
pub enum RepeatStep {
    Stop(Outcome),
    Again(u32),
}

/// One iteration of a repeat after `rc` successful ones: the constituents are
/// deserialized, and the repeat's count or separator decides whether it goes on.
pub open spec fn repeat_step<I: KeyRoute>(rm: RepeatManySpec, rc: u32, s: DState, upd: bool) -> (RepeatStep, DState)
    decreases rm, 2nat, repeat_measure(rm, rc, s), 1nat,
{
    let s1 = DState { m: s.m.with_types(incremented(s.m.types)), ..s };
    let (res, s2) = list_from::<I>(rm.constituents, 0, false, s1, upd);
    let rc2: u32 = if res is Done && rc < u32::MAX { (rc + 1) as u32 } else { rc };
    match rm.repeat_count {
        RepeatCount::Fixed(count) => {
            if res is Failed && rc2 < count {
                (RepeatStep::Stop(res), s2)
            } else if rc2 >= count {
                (RepeatStep::Stop(Outcome::Done(ValueView::Nothing)), s2)
            } else {
                (RepeatStep::Again(rc2), s2)
            }
        },
        RepeatCount::Delimited(sep) => match sep {
            Separator::Delimiter(d) => {
                let (dres, s3) = undoable_leaf::<I>(delimiter_spec(d), s2, false);
                if dres is Done {
                    (RepeatStep::Stop(Outcome::Done(ValueView::Nothing)), s3)
                } else if res is Failed {
                    (RepeatStep::Stop(res), s3)
                } else {
                    (RepeatStep::Again(rc2), s3)
                }
            },
            Separator::NBytes(n) => {
                let (nres, s3) = undoable_leaf::<I>(count_spec(), s2, false);
                match nres {
                    Outcome::Done(v) => if u32_of(v) == Some(n) {
                        (RepeatStep::Stop(Outcome::Done(ValueView::Nothing)), s3)
                    } else {
                        (RepeatStep::Again(rc2), s3)
                    },
                    Outcome::Failed(_) => if res is Failed {
                        (RepeatStep::Stop(res), s3)
                    } else {
                        (RepeatStep::Again(rc2), s3)
                    },
                }
            },
            Separator::EndOfStream => {
                let (pres, s3) = peek_leaf::<I>(one_byte_spec(), s2, upd);
                match pres {
                    Outcome::Failed(k) => if k == ErrorKind::EndOfStream {
                        (RepeatStep::Stop(Outcome::Done(ValueView::Nothing)), s3)
                    } else {
                        (RepeatStep::Again(rc2), s3)
                    },
                    Outcome::Done(_) => if res is Failed {
                        (RepeatStep::Stop(res), s3)
                    } else {
                        (RepeatStep::Again(rc2), s3)
                    },
                }
            },
        },
    }
}

/// Deserializing a repeat after `rc` successful iterations. An iteration that
/// would go on without getting closer to the end (for a delimited repeat:
/// without reading anything) would repeat forever, and fails the repeat.
pub open spec fn repeat_from<I: KeyRoute>(rm: RepeatManySpec, rc: u32, s: DState, upd: bool) -> (Outcome, DState)
    decreases rm, 2nat, repeat_measure(rm, rc, s), 2nat,
{
    let (step, s3) = repeat_step::<I>(rm, rc, s, upd);
    match step {
        RepeatStep::Stop(o) => (o, s3),
        RepeatStep::Again(rc2) => if repeat_measure(rm, rc2, s3) < repeat_measure(rm, rc, s) {
            repeat_from::<I>(rm, rc2, s3, upd)
        } else {
            (Outcome::Failed(ErrorKind::NoValidListConstituents(name_path(rm.spec_meta_data.name@))), s3)
        },
    }
}

/// The error of a value that could not be read.
fn missing_value_error() -> (e: ParserError)
    ensures
        kind_of(e) == ErrorKind::MissingValue,
        e matches ParserError::MissingValue(m) && m@ == "Unable to read value for placeholder"@,
{
    proof {
        reveal_strlit("Unable to read value for placeholder");
    }
    ParserError::MissingValue(String::from_str("Unable to read value for placeholder"))
}

/// The error of a name that is missing from the context.
fn missing_key_error() -> (e: ParserError)
    ensures
        kind_of(e) == ErrorKind::MissingKey,
        e matches ParserError::MissingKey(m) && m@ == "no name for the key-value spec"@,
{
    proof {
        reveal_strlit("no name for the key-value spec");
    }
    ParserError::MissingKey(String::from_str("no name for the key-value spec"))
}

/// The value that bytes give as `value_type`, when it can take them.
fn parse_checked(value_type: &ValueType, b: &[u8]) -> (r: Option<Value>)
    ensures
        r is Some <==> parse_accepts(*value_type, b@),
        r matches Some(v) ==> v@ == parsed_value(*value_type, b@),
{
    match value_type {
        ValueType::String => match string_from_utf8(slice_to_vec(b)) {
            Some(text) => Some(Value::String(text)),
            None => None,
        },
        ValueType::SignedNumber64 | ValueType::UnSignedNumber64 => if b.len() == 8 {
            Some(ValueType::parse(value_type, b))
        } else {
            None
        },
        ValueType::UnSignedNumber32 => if b.len() == 4 {
            Some(ValueType::parse(value_type, b))
        } else {
            None
        },
        ValueType::SignedNumber16 | ValueType::UnSignedNumber16 => if b.len() == 2 {
            Some(ValueType::parse(value_type, b))
        } else {
            None
        },
        _ => Some(ValueType::parse(value_type, b)),
    }
}

/// The value a read gives as `value_type`.
fn read_parsed(res: Result<Option<Vec<u8>>, ParserError>, value_type: &ValueType) -> (r: Result<Value, ParserError>)
    requires
        res matches Err(e) ==> token_message_stated(e),
    ensures
        r matches Err(e) ==> token_message_stated(e),
        outcome_of_result(r) == parsed_read(*value_type, outcome_of(res)),
{
    match res {
        Ok(Some(b)) => match parse_checked(value_type, b.as_slice()) {
            Some(v) => Ok(v),
            None => Err(missing_value_error()),
        },
        Ok(None) => Err(missing_value_error()),
        Err(e) => Err(e),
    }
}

/// Stores `value` under the innermost name of the context, if there is one.
fn store<I: InfoProvider>(info: &mut I, value: Value) -> (r: Option<ParserError>)
    ensures
        r matches Some(e) ==> token_message_stated(e),
        ({
            let (e, m2) = stored::<I>(old(info).mapper_view(), value@);
            &&& r is Some <==> e is Some
            &&& r matches Some(x) ==> e == Some(kind_of(x))
            &&& final(info).mapper_view() == m2
        }),
{
    match info.get_mapper().last_spec_name() {
        Some(name) => match info.add_info(name, value) {
            Ok(()) => None,
            Err(e) => Some(e),
        },
        None => None,
    }
}

/// A value read by a simple spec, stored when the information is updated.
fn keep<I: InfoProvider>(res: Result<Value, ParserError>, info: &mut I, upd: bool) -> (r: Result<Value, ParserError>)
    requires
        res matches Err(e) ==> token_message_stated(e),
    ensures
        r matches Err(e) ==> token_message_stated(e),
        ({
            let s = DState { r: ReaderView { buf: Seq::empty(), pos: 0, markers: Seq::empty(), incoming: Seq::empty(), closed: false }, m: old(info).mapper_view() };
            let (o, s2) = kept::<I>(outcome_of_result(res), s, upd);
            &&& outcome_of_result(r) == o
            &&& final(info).mapper_view() == s2.m
        }),
{
    match res {
        Err(e) => Err(e),
        Ok(v) => if upd {
            match store(info, v) {
                Some(e) => Err(e),
                None => Ok(Value::NoValue),
            }
        } else {
            Ok(v)
        },
    }
}

/// Reads up to a separator.
fn read_separator(sep: &Separator, reader: &mut ProtocolBuffReader) -> (r: Result<Option<Vec<u8>>, ParserError>)
    requires
        old(reader)@.wf(),
    ensures
        r matches Err(e) ==> token_message_stated(e),
        final(reader)@.wf(),
        outcome_of(r) == separator_read(*sep, old(reader)@).0,
        final(reader)@ == separator_read(*sep, old(reader)@).1,
{
    match sep {
        Separator::Delimiter(d) => reader.read_placeholder_until(d.clone()),
        Separator::NBytes(n) => reader.read_bytes(ReadBytesSize::Fixed(*n)),
        Separator::EndOfStream => reader.read_bytes(ReadBytesSize::Full),
    }
}

/// Whether `text` is one of `values`.
fn contains_text(values: &Vec<String>, text: &String) -> (r: bool)
    ensures
        r == one_of(values@, text@),
{
    let mut i: usize = 0;
    while i < values.len()
        invariant
            i <= values@.len(),
            forall|j: int| 0 <= j < i ==> values@[j]@ != text@,
        decreases values@.len() - i,
    {
        if values[i].eq(text) {
            assert(values@[i as int]@ == text@);
            return true;
        }
        i = i + 1;
    }
    false
}

/// Reads `size` bytes for a spec with metadata `meta`.
fn deserialize_nbytes<I: InfoProvider>(
    meta: &SpecMetaData,
    size: u32,
    info: &mut I,
    reader: &mut ProtocolBuffReader,
    upd: bool,
) -> (r: Result<Value, ParserError>)
    requires
        old(reader)@.wf(),
    ensures
        r matches Err(e) ==> token_message_stated(e),
        final(reader)@.wf(),
        ({
            let (o, s2) = nbytes_read::<I>(*meta, size, DState { r: old(reader)@, m: old(info).mapper_view() }, upd);
            &&& outcome_of_result(r) == o
            &&& final(reader)@ == s2.r
            &&& final(info).mapper_view() == s2.m
        }),
{
    let res = reader.read_bytes(ReadBytesSize::Fixed(size));
    match res {
        Ok(Some(b)) => {
            if upd {
                match store(info, Value::U8Vec(slice_to_vec(b.as_slice()))) {
                    Some(e) => {
                        return Err(e);
                    },
                    None => {},
                }
            }
            read_parsed(Ok(Some(b)), &meta.value_type)
        },
        _ => read_parsed(res, &meta.value_type),
    }
}

/// Reads a number of `width` bytes as `value_type`.
fn deserialize_number<I: InfoProvider>(
    value_type: &ValueType,
    width: u32,
    info: &mut I,
    reader: &mut ProtocolBuffReader,
    upd: bool,
) -> (r: Result<Value, ParserError>)
    requires
        old(reader)@.wf(),
    ensures
        r matches Err(e) ==> token_message_stated(e),
        final(reader)@.wf(),
        ({
            let (o, s2) = number_read::<I>(*value_type, width, DState { r: old(reader)@, m: old(info).mapper_view() }, upd);
            &&& outcome_of_result(r) == o
            &&& final(reader)@ == s2.r
            &&& final(info).mapper_view() == s2.m
        }),
{
    let res = reader.read_bytes(ReadBytesSize::Fixed(width));
    let parsed = read_parsed(res, value_type);
    keep(parsed, info, upd)
}

/// Deserializes a spec that reads one placeholder.
pub fn deserialize_leaf<I: InfoProvider>(
    n: &SpecNode,
    info: &mut I,
    reader: &mut ProtocolBuffReader,
    upd: bool,
) -> (r: Result<Value, ParserError>)
    requires
        old(reader)@.wf(),
    ensures
        r matches Err(e) ==> token_message_stated(e),
        final(reader)@.wf(),
        ({
            let (o, s2) = deser_leaf::<I>(*n, DState { r: old(reader)@, m: old(info).mapper_view() }, upd);
            &&& outcome_of_result(r) == o
            &&& final(reader)@ == s2.r
            &&& final(info).mapper_view() == s2.m
        }),
{
    match n {
        SpecNode::DelimitedString(d) => {
            let res = read_separator(&d.until, reader);
            let parsed = read_parsed(res, &d.spec_meta_data.value_type);
            keep(parsed, info, upd)
        },
        SpecNode::ExactString(e) => {
            let res = reader.read_placeholder_as_string(e.input.clone());
            match read_parsed(res, &e.spec_meta_data.value_type) {
                Err(x) => Err(x),
                Ok(v) => if upd && !e.spec_meta_data.name.is_delimiter() {
                    match store(info, v.clone()) {
                        Some(x) => Err(x),
                        None => Ok(v),
                    }
                } else {
                    Ok(v)
                },
            }
        },
        SpecNode::OneOf(o) => {
            let res = read_separator(&o.until, reader);
            match read_parsed(res, &o.spec_meta_data.value_type) {
                Err(x) => Err(x),
                Ok(v) => match v.get_string_value() {
                    Some(t) => if contains_text(&o.values, &t) {
                        if upd {
                            keep(Ok(Value::String(t)), info, true)
                        } else {
                            Ok(v)
                        }
                    } else {
                        Err(missing_value_error())
                    },
                    None => Err(missing_value_error()),
                },
            }
        },
        SpecNode::NBytes(b) => deserialize_nbytes(&b.spec_meta_data, b.size, info, reader, upd),
        SpecNode::AllBytes(a) => {
            let res = reader.read_bytes(ReadBytesSize::Full);
            match res {
                Ok(Some(b)) => if upd {
                    keep(Ok(Value::U8Vec(b)), info, true)
                } else {
                    read_parsed(Ok(Some(b)), &a.spec_meta_data.value_type)
                },
                _ => read_parsed(res, &a.spec_meta_data.value_type),
            }
        },
        SpecNode::U64(_) => deserialize_number(&ValueType::UnSignedNumber64, 8, info, reader, upd),
        SpecNode::I64(_) => deserialize_number(&ValueType::SignedNumber64, 8, info, reader, upd),
        SpecNode::U32(_) => deserialize_number(&ValueType::UnSignedNumber32, 4, info, reader, upd),
        SpecNode::U16(_) => deserialize_number(&ValueType::UnSignedNumber16, 2, info, reader, upd),
        SpecNode::I16(_) => deserialize_number(&ValueType::SignedNumber16, 2, info, reader, upd),
        SpecNode::Body(b) => {
            let key = String::from_str("Content-Length");
            let length: Option<Option<u32>> = match info.get_info(&key) {
                None => None,
                Some(v) => match v.get_string_value() {
                    None => Some(None),
                    Some(t) => Some(parse_u32(t.as_str())),
                },
            };
            match length {
                None => Ok(Value::NoValue),
                Some(None) => Err(missing_value_error()),
                Some(Some(len)) => {
                    let meta = SpecMetaData::new(
                        b.spec_meta_data.name.clone(),
                        ValueType::U8Vec,
                        b.spec_meta_data.optional,
                    );
                    deserialize_nbytes(&meta, len, info, reader, upd)
                },
            }
        },
        _ => Err(missing_value_error()),
    }
}


/// Resolves the marker of an undoable deserialization: a success forgets it,
/// a failure goes back to it; the end of the stream on an optional spec then
/// gives no value.
fn undo_end(
    reader: &mut ProtocolBuffReader,
    marker: Marker,
    res: Result<Value, ParserError>,
    optional: bool,
) -> (r: Result<Value, ParserError>)
    requires
        old(reader)@.wf(),
        res matches Err(e) ==> token_message_stated(e),
    ensures
        r matches Err(e) ==> token_message_stated(e),
        final(reader)@.wf(),
        ({
            let (o, s2) = undo(marker.pos as nat, outcome_of_result(res), DState { r: old(reader)@, m: MapperView::empty() }, optional);
            &&& outcome_of_result(r) == o
            &&& final(reader)@ == s2.r
        }),
{
    match res {
        Ok(v) => match reader.unmark(&marker) {
            Ok(()) => Ok(v),
            Err(e) => Err(e),
        },
        Err(e) => match reader.reset(&marker) {
            Ok(()) => if e.is_eof() && optional {
                Ok(Value::NoValue)
            } else {
                Err(e)
            },
            Err(e2) => Err(e2),
        },
    }
}

/// Parses delimited string from reader
fn parse_delimited_string_spec(
    until: &Separator,
    value_type: &ValueType,
    reader: &mut ProtocolBuffReader,
) -> (r: Result<Value, ParserError>)
    requires
        old(reader)@.wf(),
    ensures
        r matches Err(e) ==> token_message_stated(e),
        final(reader)@.wf(),
        outcome_of_result(r) == parsed_read(*value_type, separator_read(*until, old(reader)@).0),
        final(reader)@ == separator_read(*until, old(reader)@).1,
{
    let res = read_separator(until, reader);
    read_parsed(res, value_type)
}

/// Undoable deserialization of a leaf spec.
fn undoable_leaf_deserialize<I: InfoProvider>(
    n: &SpecNode,
    info: &mut I,
    reader: &mut ProtocolBuffReader,
    upd: bool,
) -> (r: Result<Value, ParserError>)
    requires
        old(reader)@.wf(),
    ensures
        r matches Err(e) ==> token_message_stated(e),
        final(reader)@.wf(),
        ({
            let (o, s2) = undoable_leaf::<I>(*n, DState { r: old(reader)@, m: old(info).mapper_view() }, upd);
            &&& outcome_of_result(r) == o
            &&& final(reader)@ == s2.r
            &&& final(info).mapper_view() == s2.m
        }),
{
    let marker = reader.mark();
    info.get_mapper_mut().enter(n.to_spec_type());
    let res = deserialize_leaf(n, info, reader, upd);
    info.get_mapper_mut().leave();
    undo_end(reader, marker, res, n.get_meta_data().optional)
}

/// The function peek ahead into the reader and tries to perform deserialization.
///  The reader is reset to last known state after deserialization
fn peek_ahead_and_deserialize<I: InfoProvider>(
    n: &SpecNode,
    info: &mut I,
    reader: &mut ProtocolBuffReader,
    upd: bool,
) -> (r: Result<Value, ParserError>)
    requires
        old(reader)@.wf(),
    ensures
        r matches Err(e) ==> token_message_stated(e),
        final(reader)@.wf(),
        ({
            let (o, s2) = peek_leaf::<I>(*n, DState { r: old(reader)@, m: old(info).mapper_view() }, upd);
            &&& outcome_of_result(r) == o
            &&& final(reader)@ == s2.r
            &&& final(info).mapper_view() == s2.m
        }),
{
    let marker = reader.mark();
    let result = deserialize_leaf(n, info, reader, upd);
    match result {
        Ok(v) => match reader.reset(&marker) {
            Ok(()) => Ok(v),
            Err(e) => Err(e),
        },
        Err(e) => match reader.reset(&marker) {
            Ok(()) => Err(e),
            Err(e2) => Err(e2),
        },
    }
}

/// The name found and the path (or path template) of the context with two
/// spec types entered; the context is left as it was.
pub fn extract_name_and_spec_path(
    mapper: &mut crate::mapper::DefaultMapper,
    outer: SpecType,
    inner: SpecType,
    template: bool,
) -> (r: (Option<String>, String))
    ensures
        final(mapper)@ == old(mapper)@,
        ({
            let types = old(mapper)@.types.push(outer).push(inner);
            &&& r.0 is Some <==> last_name(types) is Some
            &&& r.0 matches Some(n) ==> n@ == last_name(types).unwrap()
            &&& r.1@ == (if template { crate::context::path_template(types) } else { path_of(types) })
        }),
{
    mapper.enter(outer);
    mapper.enter(inner);
    let name = mapper.last_spec_name();
    let path = if template { mapper.current_path_template() } else { mapper.current_path() };
    mapper.leave();
    mapper.leave();
    proof {
        let types = old(mapper)@.types.push(outer).push(inner);
        assert(types.drop_last().drop_last() =~= old(mapper)@.types);
        assert(mapper@.types =~= old(mapper)@.types);
    }
    (name, path)
}

/// Undoable deserialization of a spec: the reader is marked, the spec's type
/// entered, the spec deserialized, its type left, and the marker resolved.
pub fn undoable_deserialize<I: InfoProvider>(
    n: &SpecNode,
    info: &mut I,
    reader: &mut ProtocolBuffReader,
    upd: bool,
) -> (r: Result<Value, ParserError>)
    requires
        old(reader)@.wf(),
    ensures
        r matches Err(e) ==> token_message_stated(e),
        final(reader)@.wf(),
        ({
            let (o, s2) = undoable::<I>(*n, DState { r: old(reader)@, m: old(info).mapper_view() }, upd);
            &&& outcome_of_result(r) == o
            &&& final(reader)@ == s2.r
            &&& final(info).mapper_view() == s2.m
        }),
    decreases n, 1nat, 0nat, 0nat,
{
    let marker = reader.mark();
    info.get_mapper_mut().enter(n.to_spec_type());
    let res = deserialize_node(n, info, reader, upd);
    info.get_mapper_mut().leave();
    undo_end(reader, marker, res, n.get_meta_data().optional)
}

/// Deserializes a spec, storing what it reads in `info` when `upd`.
pub fn deserialize_node<I: InfoProvider>(
    n: &SpecNode,
    info: &mut I,
    reader: &mut ProtocolBuffReader,
    upd: bool,
) -> (r: Result<Value, ParserError>)
    requires
        old(reader)@.wf(),
    ensures
        r matches Err(e) ==> token_message_stated(e),
        final(reader)@.wf(),
        ({
            let (o, s2) = deser::<I>(*n, DState { r: old(reader)@, m: old(info).mapper_view() }, upd);
            &&& outcome_of_result(r) == o
            &&& final(reader)@ == s2.r
            &&& final(info).mapper_view() == s2.m
        }),
    decreases n, 0nat, 0nat, 0nat,
{
    match n {
        SpecNode::List(ls) => deserialize_list(ls, info, reader, upd),
        SpecNode::RepeatMany(rm) => deserialize_repeat(rm, info, reader, upd),
        SpecNode::KeyValue(kv) => deserialize_key_value(kv, info, reader, upd),
        SpecNode::Key(k) => undoable_deserialize(&*k.0, info, reader, upd),
        SpecNode::Value(v) => undoable_deserialize(&*v.0, info, reader, upd),
        SpecNode::InlineKeyWithValue(i) => match undoable_deserialize(&*i.0, info, reader, upd) {
            Ok(v) => if upd {
                Ok(Value::NoValue)
            } else {
                Ok(v)
            },
            Err(e) => Err(e),
        },
        _ => deserialize_leaf(n, info, reader, upd),
    }
}

/// Deserializes the constituents of a list.
pub fn deserialize_list<I: InfoProvider>(
    ls: &ListSpec,
    info: &mut I,
    reader: &mut ProtocolBuffReader,
    upd: bool,
) -> (r: Result<Value, ParserError>)
    requires
        old(reader)@.wf(),
    ensures
        r matches Err(e) ==> token_message_stated(e),
        final(reader)@.wf(),
        ({
            let (o, s2) = list_from::<I>(*ls, 0, false, DState { r: old(reader)@, m: old(info).mapper_view() }, upd);
            &&& outcome_of_result(r) == o
            &&& final(reader)@ == s2.r
            &&& final(info).mapper_view() == s2.m
        }),
    decreases ls, 2nat, 0nat, 0nat,
{
    let ghost target = list_from::<I>(*ls, 0, false, DState { r: reader@, m: info.mapper_view() }, upd);
    let mut success = false;
    let mut i: usize = 0;
    while i < ls.constituents.len()
        invariant
            reader@.wf(),
            i <= ls.constituents@.len(),
            list_from::<I>(*ls, i as nat, success, DState { r: reader@, m: info.mapper_view() }, upd) == target,
            target == list_from::<I>(*ls, 0, false, DState { r: old(reader)@, m: old(info).mapper_view() }, upd),
        decreases ls.constituents@.len() - i,
    {
        let c = &ls.constituents[i];
        let res = undoable_deserialize(c, info, reader, upd);
        match res {
            Ok(_) => {
                success = true;
            },
            Err(e) => {
                if !c.get_meta_data().optional {
                    return Err(e);
                }
            },
        }
        i = i + 1;
    }
    if !success {
        return Err(ParserError::NoValidListConstituents(ls.spec_meta_data.name.to_path_string()));
    }
    Ok(Value::NoValue)
}

/// Deserializes a key-value spec.
pub fn deserialize_key_value<I: InfoProvider>(
    kv: &KeyValueSpec,
    info: &mut I,
    reader: &mut ProtocolBuffReader,
    upd: bool,
) -> (r: Result<Value, ParserError>)
    requires
        old(reader)@.wf(),
    ensures
        r matches Err(e) ==> token_message_stated(e),
        final(reader)@.wf(),
        ({
            let (o, s2) = deser_key_value::<I>(*kv, DState { r: old(reader)@, m: old(info).mapper_view() }, upd);
            &&& outcome_of_result(r) == o
            &&& final(reader)@ == s2.r
            &&& final(info).mapper_view() == s2.m
        }),
    decreases kv, 1nat, 0nat, 0nat,
{
    let (key_name, _key_path) = extract_name_and_spec_path(info.get_mapper_mut(), kv.key.to_spec_type(), kv.key.0.to_spec_type(), false);
    let key = match deserialize_key_undoably(&kv.key, info, reader, false) {
        Ok(v) => v,
        Err(e) => {
            return Err(e);
        },
    };
    let (value_name, _value_path) = extract_name_and_spec_path(info.get_mapper_mut(), kv.value.to_spec_type(), kv.value.0.to_spec_type(), false);
    let value = match deserialize_value_undoably(&kv.value, info, reader, false) {
        Ok(v) => v,
        Err(e) => {
            return Err(e);
        },
    };
    if upd {
        match key.get_string_value() {
            Some(key_text) => match (key_name, value_name) {
                (Some(kn), Some(vn)) => match info.get_mapper_mut().add_to_key_value_list(key_text, value, kn, vn) {
                    Ok(()) => Ok(Value::NoValue),
                    Err(e) => Err(e),
                },
                _ => Err(missing_key_error()),
            },
            None => Err(missing_value_error()),
        }
    } else {
        Ok(Value::NoValue)
    }
}

/// Undoable deserialization of the key of a key-value spec.
fn deserialize_key_undoably<I: InfoProvider>(
    k: &Key,
    info: &mut I,
    reader: &mut ProtocolBuffReader,
    upd: bool,
) -> (r: Result<Value, ParserError>)
    requires
        old(reader)@.wf(),
    ensures
        r matches Err(e) ==> token_message_stated(e),
        final(reader)@.wf(),
        ({
            let (o, s2) = undoable_key::<I>(*k, DState { r: old(reader)@, m: old(info).mapper_view() }, upd);
            &&& outcome_of_result(r) == o
            &&& final(reader)@ == s2.r
            &&& final(info).mapper_view() == s2.m
        }),
    decreases k, 1nat, 0nat, 0nat,
{
    let marker = reader.mark();
    info.get_mapper_mut().enter(k.to_spec_type());
    let res = undoable_deserialize(&*k.0, info, reader, upd);
    info.get_mapper_mut().leave();
    undo_end(reader, marker, res, k.1.optional)
}

/// Undoable deserialization of the value of a key-value spec.
fn deserialize_value_undoably<I: InfoProvider>(
    v: &ValueSpec,
    info: &mut I,
    reader: &mut ProtocolBuffReader,
    upd: bool,
) -> (r: Result<Value, ParserError>)
    requires
        old(reader)@.wf(),
    ensures
        r matches Err(e) ==> token_message_stated(e),
        final(reader)@.wf(),
        ({
            let (o, s2) = undoable_value::<I>(*v, DState { r: old(reader)@, m: old(info).mapper_view() }, upd);
            &&& outcome_of_result(r) == o
            &&& final(reader)@ == s2.r
            &&& final(info).mapper_view() == s2.m
        }),
    decreases v, 1nat, 0nat, 0nat,
{
    let marker = reader.mark();
    info.get_mapper_mut().enter(v.to_spec_type());
    let res = undoable_deserialize(&*v.0, info, reader, upd);
    info.get_mapper_mut().leave();
    undo_end(reader, marker, res, v.1.optional)
}

/// What one iteration of a repeat decided.
enum RepeatAction {
    Stop(Result<Value, ParserError>),
    Again(u32),
}

spec fn action_view(a: RepeatAction) -> RepeatStep {
    match a {
        RepeatAction::Stop(r) => RepeatStep::Stop(outcome_of_result(r)),
        RepeatAction::Again(n) => RepeatStep::Again(n),
    }
}

/// One iteration of a repeat after `rc` successful ones.
#[verifier::rlimit(100)]
#[verifier::spinoff_prover]
fn repeat_iteration<I: InfoProvider>(
    rm: &RepeatManySpec,
    rc: u32,
    info: &mut I,
    reader: &mut ProtocolBuffReader,
    upd: bool,
) -> (r: RepeatAction)
    requires
        old(reader)@.wf(),
    ensures
        r matches RepeatAction::Stop(Err(e)) ==> token_message_stated(e),
        final(reader)@.wf(),
        ({
            let (step, s2) = repeat_step::<I>(*rm, rc, DState { r: old(reader)@, m: old(info).mapper_view() }, upd);
            &&& action_view(r) == step
            &&& final(reader)@ == s2.r
            &&& final(info).mapper_view() == s2.m
        }),
    decreases rm, 2nat, 0nat, 1nat,
{
    info.get_mapper_mut().next_repeat();
    let res = deserialize_list(&rm.constituents, info, reader, upd);
    let is_ok = res.is_ok();
    let rc2: u32 = if is_ok && rc < u32::MAX { rc + 1 } else { rc };
    match &rm.repeat_count {
        RepeatCount::Fixed(count) => {
            if !is_ok && rc2 < *count {
                RepeatAction::Stop(res)
            } else if rc2 >= *count {
                RepeatAction::Stop(Ok(Value::NoValue))
            } else {
                RepeatAction::Again(rc2)
            }
        },
        RepeatCount::Delimited(sep) => match sep {
            Separator::Delimiter(d) => {
                let spec = SpecNode::ExactString(ExactStringSpec::new(SpecName::Delimiter, d.clone(), false));
                let dres = undoable_leaf_deserialize(&spec, info, reader, false);
                if dres.is_ok() {
                    RepeatAction::Stop(Ok(Value::NoValue))
                } else if !is_ok {
                    RepeatAction::Stop(res)
                } else {
                    RepeatAction::Again(rc2)
                }
            },
            Separator::NBytes(n) => {
                let spec = SpecNode::U32(NumberU32Spec(SpecMetaData::new(SpecName::Delimiter, ValueType::UnSignedNumber32, false)));
                let nres = undoable_leaf_deserialize(&spec, info, reader, false);
                match nres {
                    Ok(v) => if v.get_unsigned_num_32_value() == Some(*n) {
                        RepeatAction::Stop(Ok(Value::NoValue))
                    } else {
                        RepeatAction::Again(rc2)
                    },
                    Err(_) => if !is_ok {
                        RepeatAction::Stop(res)
                    } else {
                        RepeatAction::Again(rc2)
                    },
                }
            },
            Separator::EndOfStream => {
                let spec = SpecNode::NBytes(NBytesSpec::new(SpecName::Delimiter, 1, false));
                let pres = peek_ahead_and_deserialize(&spec, info, reader, upd);
                match pres {
                    Err(e) => if e.is_eof() {
                        RepeatAction::Stop(Ok(Value::NoValue))
                    } else {
                        RepeatAction::Again(rc2)
                    },
                    Ok(_) => if !is_ok {
                        RepeatAction::Stop(res)
                    } else {
                        RepeatAction::Again(rc2)
                    },
                }
            },
        },
    }
}

/// What bounds the iterations of a repeat.
fn repeat_bound(rm: &RepeatManySpec, rc: u32, reader: &ProtocolBuffReader) -> (r: u128)
    requires
        reader@.wf(),
    ensures
        r == repeat_measure(*rm, rc, DState { r: reader@, m: MapperView::empty() }),
{
    match &rm.repeat_count {
        RepeatCount::Fixed(count) => if *count >= rc {
            (*count - rc) as u128
        } else {
            0
        },
        RepeatCount::Delimited(_) => reader.unread_count(),
    }
}

/// Deserializes a repeat.
pub fn deserialize_repeat<I: InfoProvider>(
    rm: &RepeatManySpec,
    info: &mut I,
    reader: &mut ProtocolBuffReader,
    upd: bool,
) -> (r: Result<Value, ParserError>)
    requires
        old(reader)@.wf(),
    ensures
        r matches Err(e) ==> token_message_stated(e),
        final(reader)@.wf(),
        ({
            let (o, s2) = repeat_from::<I>(*rm, 0, DState { r: old(reader)@, m: old(info).mapper_view() }, upd);
            &&& outcome_of_result(r) == o
            &&& final(reader)@ == s2.r
            &&& final(info).mapper_view() == s2.m
        }),
    decreases rm, 2nat, 0nat, 2nat,
{
    let ghost target = repeat_from::<I>(*rm, 0, DState { r: reader@, m: info.mapper_view() }, upd);
    let mut rc: u32 = 0;
    loop
        invariant
            reader@.wf(),
            repeat_from::<I>(*rm, rc, DState { r: reader@, m: info.mapper_view() }, upd) == target,
            target == repeat_from::<I>(*rm, 0, DState { r: old(reader)@, m: old(info).mapper_view() }, upd),
        decreases repeat_measure(*rm, rc, DState { r: reader@, m: info.mapper_view() }),
    {
        let before = repeat_bound(rm, rc, reader);
        let step = repeat_iteration(rm, rc, info, reader, upd);
        match step {
            RepeatAction::Stop(res) => {
                return res;
            },
            RepeatAction::Again(rc2) => {
                let after = repeat_bound(rm, rc2, reader);
                if after >= before {
                    return Err(ParserError::NoValidListConstituents(rm.spec_meta_data.name.to_path_string()));
                }
                rc = rc2;
            },
        }
    }
}

///Trait represending deserialization behaviour
pub trait SpecDeserialize {
    /// deserializes protocol data from reader using the spec and populates info_provider
    /// * info_provider - populates the info_provider param after deserializing it. Populating it is optional based on `update_info` flag
    /// * reader - Underlying Reader
    /// * update_info - flag to populate info_provider(info provider is updated if the value is true)
    fn deserialize<I: InfoProvider>(
        &self,
        info_provider: &mut I,
        reader: &mut ProtocolBuffReader,
        update_info: bool,
    ) -> (r: Result<Value, ParserError>)
        requires
            old(reader)@.wf(),
        ensures
            r matches Err(e) ==> token_message_stated(e),
            final(reader)@.wf(),
    ;
}

impl SpecDeserialize for SpecNode {
    fn deserialize<I: InfoProvider>(
        &self,
        info_provider: &mut I,
        reader: &mut ProtocolBuffReader,
        update_info: bool,
    ) -> (r: Result<Value, ParserError>)
        ensures
            ({
                let (o, s2) = deser::<I>(*self, DState { r: old(reader)@, m: old(info_provider).mapper_view() }, update_info);
                &&& outcome_of_result(r) == o
                &&& final(reader)@ == s2.r
                &&& final(info_provider).mapper_view() == s2.m
            }),
    {
        deserialize_node(self, info_provider, reader, update_info)
    }
}

impl SpecDeserialize for ListSpec {
    fn deserialize<I: InfoProvider>(
        &self,
        info_provider: &mut I,
        reader: &mut ProtocolBuffReader,
        update_info: bool,
    ) -> (r: Result<Value, ParserError>)
        ensures
            ({
                let (o, s2) = list_from::<I>(*self, 0, false, DState { r: old(reader)@, m: old(info_provider).mapper_view() }, update_info);
                &&& outcome_of_result(r) == o
                &&& final(reader)@ == s2.r
                &&& final(info_provider).mapper_view() == s2.m
            }),
    {
        deserialize_list(self, info_provider, reader, update_info)
    }
}

/// With a marker held, deserializing a leaf spec keeps the markers, and the
/// stream as it was from any position not past the reader's own.
#[verifier::rlimit(80)]
proof fn lemma_leaf_keeps_stream<I: KeyRoute>(n: SpecNode, s: DState, upd: bool, p: nat)
    requires
        s.r.wf(),
        s.r.markers.len() > 0,
        p <= s.r.pos,
    ensures
        deser_leaf::<I>(n, s, upd).1.r.markers == s.r.markers,
        deser_leaf::<I>(n, s, upd).1.r.wf(),
        p <= deser_leaf::<I>(n, s, upd).1.r.pos,
        stream_from(deser_leaf::<I>(n, s, upd).1.r, p) == stream_from(s.r, p),
{
    let empty = Seq::<u8>::empty();
    match n {
        SpecNode::DelimitedString(d) => match d.until {
            Separator::Delimiter(x) => lemma_reads_keep_stream(s.r, p, encode_utf8(x@), ReadBytesSize::Full),
            Separator::NBytes(k) => lemma_reads_keep_stream(s.r, p, empty, ReadBytesSize::Fixed(k)),
            Separator::EndOfStream => lemma_reads_keep_stream(s.r, p, empty, ReadBytesSize::Full),
        },
        SpecNode::OneOf(o) => match o.until {
            Separator::Delimiter(x) => lemma_reads_keep_stream(s.r, p, encode_utf8(x@), ReadBytesSize::Full),
            Separator::NBytes(k) => lemma_reads_keep_stream(s.r, p, empty, ReadBytesSize::Fixed(k)),
            Separator::EndOfStream => lemma_reads_keep_stream(s.r, p, empty, ReadBytesSize::Full),
        },
        SpecNode::ExactString(e) => lemma_reads_keep_stream(s.r, p, encode_utf8(e.input@), ReadBytesSize::Full),
        SpecNode::NBytes(b) => lemma_reads_keep_stream(s.r, p, empty, ReadBytesSize::Fixed(b.size)),
        SpecNode::AllBytes(_) => lemma_reads_keep_stream(s.r, p, empty, ReadBytesSize::Full),
        SpecNode::U64(_) => lemma_reads_keep_stream(s.r, p, empty, ReadBytesSize::Fixed(8)),
        SpecNode::I64(_) => lemma_reads_keep_stream(s.r, p, empty, ReadBytesSize::Fixed(8)),
        SpecNode::U32(_) => lemma_reads_keep_stream(s.r, p, empty, ReadBytesSize::Fixed(4)),
        SpecNode::U16(_) => lemma_reads_keep_stream(s.r, p, empty, ReadBytesSize::Fixed(2)),
        SpecNode::I16(_) => lemma_reads_keep_stream(s.r, p, empty, ReadBytesSize::Fixed(2)),
        SpecNode::Body(_) => {
            match info_of::<I>(s.m, content_length_name()) {
                Some(v) => match string_of(v) {
                    Some(t) => match parse_u32_text(t) {
                        Some(len) => lemma_reads_keep_stream(s.r, p, empty, ReadBytesSize::Fixed(len)),
                        None => {},
                    },
                    None => {},
                },
                None => {},
            }
        },
        _ => {},
    }
}

/// Peeking at a leaf spec leaves the reader where it was: the same bytes are
/// still to be read, and the same markers are held.
pub proof fn lemma_peek_restores<I: KeyRoute>(n: SpecNode, s: DState, upd: bool)
    requires
        s.r.wf(),
    ensures
        peek_leaf::<I>(n, s, upd).1.r.remaining() == s.r.remaining(),
        peek_leaf::<I>(n, s, upd).1.r.markers == s.r.markers,
{
    let s1 = with_mark(s);
    assert(s1.r.wf()) by {
        assert forall|i: int| 0 <= i < s1.r.markers.len() implies #[trigger] s1.r.markers[i] <= s1.r.buf.len() by {
            if i < s.r.markers.len() {
                assert(s1.r.markers[i] == s.r.markers[i]);
            }
        }
    }
    lemma_leaf_keeps_stream::<I>(n, s1, upd, s.r.pos);
    let s2 = deser_leaf::<I>(n, s1, upd).1;
    assert(s2.r.markers.last() == s.r.pos);
    assert(s2.r.markers.drop_last() =~= s.r.markers);
    assert(stream_from(s1.r, s.r.pos) =~= s.r.remaining());
}

/// An undoable deserialization of a leaf spec that fails reads nothing: the
/// same bytes are still to be read, and the same markers are held.
pub proof fn lemma_failed_leaf_reads_nothing<I: KeyRoute>(n: SpecNode, s: DState, upd: bool)
    requires
        s.r.wf(),
    ensures
        undoable_leaf::<I>(n, s, upd).0 is Failed ==> undoable_leaf::<I>(n, s, upd).1.r.remaining() == s.r.remaining()
            && undoable_leaf::<I>(n, s, upd).1.r.markers == s.r.markers,
{
    let s1 = entered(with_mark(s), node_type(n));
    assert(s1.r.wf()) by {
        assert forall|i: int| 0 <= i < s1.r.markers.len() implies #[trigger] s1.r.markers[i] <= s1.r.buf.len() by {
            if i < s.r.markers.len() {
                assert(s1.r.markers[i] == s.r.markers[i]);
            }
        }
    }
    lemma_leaf_keeps_stream::<I>(n, s1, upd, s.r.pos);
    let s2 = deser_leaf::<I>(n, s1, upd).1;
    assert(s2.r.markers.last() == s.r.pos);
    assert(s2.r.markers.drop_last() =~= s.r.markers);
    assert(stream_from(s1.r, s.r.pos) =~= s.r.remaining());
}

/// Whether the reader `b` keeps the markers of `a`, is well formed, has not
/// gone back before `p`, and holds the same stream from `p` on.
pub open spec fn keeps_stream(a: ReaderView, b: ReaderView, p: nat) -> bool {
    &&& b.markers == a.markers
    &&& b.wf()
    &&& p <= b.pos
    &&& stream_from(b, p) == stream_from(a, p)
}

/// The reader marked is well formed when the reader is.
proof fn lemma_marked_wf(r: ReaderView)
    requires
        r.wf(),
    ensures
        marked(r).wf(),
        marked(r).markers.len() > 0,
        marked(r).markers.last() == r.pos,
        marked(r).markers.drop_last() == r.markers,
{
    let m = marked(r);
    assert forall|i: int| 0 <= i < m.markers.len() implies #[trigger] m.markers[i] <= m.buf.len() by {
        if i < r.markers.len() {
            assert(m.markers[i] == r.markers[i]);
        }
    }
    assert(m.markers.drop_last() =~= r.markers);
}

/// Resolving the marker set at `s.pos` on a reader that kept the markers and
/// the stream of the marked one gives back the markers of `s`.
proof fn lemma_undo_keeps(pos: nat, o: Outcome, r0: ReaderView, s2: DState, optional: bool, p: nat)
    requires
        r0.wf(),
        pos == r0.pos,
        p <= r0.pos,
        keeps_stream(marked(r0), s2.r, r0.pos),
        keeps_stream(marked(r0), s2.r, p),
    ensures
        keeps_stream(r0, undo(pos, o, s2, optional).1.r, p),
{
    lemma_marked_wf(r0);
    assert(s2.r.markers.last() == pos);
    assert(s2.r.markers.drop_last() == r0.markers);
    let u = undo(pos, o, s2, optional).1.r;
    assert(stream_from(marked(r0), p) =~= stream_from(r0, p));
    if o is Failed {
        assert(u == reset_to_marker(s2.r));
        assert(s2.r.markers[s2.r.markers.len() - 1] <= s2.r.buf.len());
        assert forall|i: int| 0 <= i < u.markers.len() implies #[trigger] u.markers[i] <= u.buf.len() by {
            assert(u.markers[i] == s2.r.markers[i]);
        }
    } else {
        assert forall|i: int| 0 <= i < u.markers.len() implies #[trigger] u.markers[i] <= u.buf.len() by {
            assert(u.markers[i] == s2.r.markers[i]);
        }
    }
}

/// Undoable deserialization of a leaf keeps the reader's markers and stream.
proof fn lemma_undoable_leaf_keeps<I: KeyRoute>(n: SpecNode, s: DState, upd: bool, p: nat)
    requires
        s.r.wf(),
        p <= s.r.pos,
    ensures
        keeps_stream(s.r, undoable_leaf::<I>(n, s, upd).1.r, p),
{
    lemma_marked_wf(s.r);
    let s1 = entered(with_mark(s), node_type(n));
    lemma_leaf_keeps_stream::<I>(n, s1, upd, s.r.pos);
    lemma_leaf_keeps_stream::<I>(n, s1, upd, p);
    let (o, s2) = deser_leaf::<I>(n, s1, upd);
    lemma_undo_keeps(s.r.pos, o, s.r, left(s2), node_meta(n).optional, p);
}

/// Peeking at a leaf keeps the reader's markers and stream.
proof fn lemma_peek_keeps<I: KeyRoute>(n: SpecNode, s: DState, upd: bool, p: nat)
    requires
        s.r.wf(),
        p <= s.r.pos,
    ensures
        keeps_stream(s.r, peek_leaf::<I>(n, s, upd).1.r, p),
{
    lemma_marked_wf(s.r);
    let s1 = with_mark(s);
    lemma_leaf_keeps_stream::<I>(n, s1, upd, s.r.pos);
    lemma_leaf_keeps_stream::<I>(n, s1, upd, p);
    let (o, s2) = deser_leaf::<I>(n, s1, upd);
    lemma_undo_keeps(s.r.pos, Outcome::Failed(ErrorKind::EndOfStream), s.r, s2, false, p);
    assert(undo(s.r.pos, Outcome::Failed(ErrorKind::EndOfStream), s2, false).1.r == reset_to_marker(s2.r));
}

/// Deserializing a spec with a marker held keeps the markers, and the stream
/// from any position not past the reader's own.
proof fn lemma_deser_keeps<I: KeyRoute>(n: SpecNode, s: DState, upd: bool, p: nat)
    requires
        s.r.wf(),
        s.r.markers.len() > 0,
        p <= s.r.pos,
    ensures
        keeps_stream(s.r, deser::<I>(n, s, upd).1.r, p),
    decreases n, 0nat, 0nat, 0nat,
{
    match n {
        SpecNode::List(ls) => lemma_list_keeps::<I>(ls, 0, false, s, upd, p),
        SpecNode::RepeatMany(rm) => lemma_repeat_keeps::<I>(rm, 0, s, upd, p),
        SpecNode::KeyValue(kv) => lemma_key_value_keeps::<I>(kv, s, upd, p),
        SpecNode::Key(k) => lemma_undoable_keeps::<I>(*k.0, s, upd, p),
        SpecNode::Value(v) => lemma_undoable_keeps::<I>(*v.0, s, upd, p),
        SpecNode::InlineKeyWithValue(i) => lemma_undoable_keeps::<I>(*i.0, s, upd, p),
        _ => lemma_leaf_keeps_stream::<I>(n, s, upd, p),
    }
}

/// Undoable deserialization keeps the reader's markers, and its stream from
/// any position not past the reader's own.
proof fn lemma_undoable_keeps<I: KeyRoute>(n: SpecNode, s: DState, upd: bool, p: nat)
    requires
        s.r.wf(),
        p <= s.r.pos,
    ensures
        keeps_stream(s.r, undoable::<I>(n, s, upd).1.r, p),
    decreases n, 1nat, 0nat, 0nat,
{
    lemma_marked_wf(s.r);
    let s1 = entered(with_mark(s), node_type(n));
    lemma_deser_keeps::<I>(n, s1, upd, s.r.pos);
    lemma_deser_keeps::<I>(n, s1, upd, p);
    let (o, s2) = deser::<I>(n, s1, upd);
    lemma_undo_keeps(s.r.pos, o, s.r, left(s2), node_meta(n).optional, p);
}

/// Deserializing the constituents of a list keeps the reader's markers and stream.
proof fn lemma_list_keeps<I: KeyRoute>(ls: ListSpec, i: nat, success: bool, s: DState, upd: bool, p: nat)
    requires
        s.r.wf(),
        p <= s.r.pos,
    ensures
        keeps_stream(s.r, list_from::<I>(ls, i, success, s, upd).1.r, p),
    decreases ls, 2nat, ls.constituents@.len() - i, 0nat,
{
    if i < ls.constituents@.len() {
        let c = ls.constituents@[i as int];
        lemma_undoable_keeps::<I>(c, s, upd, p);
        let (o, s2) = undoable::<I>(c, s, upd);
        match o {
            Outcome::Done(_) => lemma_list_keeps::<I>(ls, i + 1, true, s2, upd, p),
            Outcome::Failed(_) => if node_meta(c).optional {
                lemma_list_keeps::<I>(ls, i + 1, success, s2, upd, p);
            },
        }
    }
}

/// Deserializing the key of a key-value spec keeps the reader's markers and stream.
proof fn lemma_undoable_key_keeps<I: KeyRoute>(k: Key, s: DState, upd: bool, p: nat)
    requires
        s.r.wf(),
        p <= s.r.pos,
    ensures
        keeps_stream(s.r, undoable_key::<I>(k, s, upd).1.r, p),
    decreases k, 1nat, 0nat, 0nat,
{
    lemma_marked_wf(s.r);
    let s1 = entered(with_mark(s), SpecType::Simple(k.1.name));
    lemma_undoable_keeps::<I>(*k.0, s1, upd, s.r.pos);
    lemma_undoable_keeps::<I>(*k.0, s1, upd, p);
    let (o, s2) = undoable::<I>(*k.0, s1, upd);
    lemma_undo_keeps(s.r.pos, o, s.r, left(s2), k.1.optional, p);
}

/// Deserializing the value of a key-value spec keeps the reader's markers and stream.
proof fn lemma_undoable_value_keeps<I: KeyRoute>(v: ValueSpec, s: DState, upd: bool, p: nat)
    requires
        s.r.wf(),
        p <= s.r.pos,
    ensures
        keeps_stream(s.r, undoable_value::<I>(v, s, upd).1.r, p),
    decreases v, 1nat, 0nat, 0nat,
{
    lemma_marked_wf(s.r);
    let s1 = entered(with_mark(s), SpecType::Simple(v.1.name));
    lemma_undoable_keeps::<I>(*v.0, s1, upd, s.r.pos);
    lemma_undoable_keeps::<I>(*v.0, s1, upd, p);
    let (o, s2) = undoable::<I>(*v.0, s1, upd);
    lemma_undo_keeps(s.r.pos, o, s.r, left(s2), v.1.optional, p);
}

/// Deserializing a key-value spec keeps the reader's markers and stream.
proof fn lemma_key_value_keeps<I: KeyRoute>(kv: KeyValueSpec, s: DState, upd: bool, p: nat)
    requires
        s.r.wf(),
        p <= s.r.pos,
    ensures
        keeps_stream(s.r, deser_key_value::<I>(kv, s, upd).1.r, p),
    decreases kv, 1nat, 0nat, 0nat,
{
    lemma_undoable_key_keeps::<I>(kv.key, s, false, p);
    let (ko, s1) = undoable_key::<I>(kv.key, s, false);
    if ko is Done {
        lemma_undoable_value_keeps::<I>(kv.value, s1, false, p);
    }
}

/// One iteration of a repeat keeps the reader's markers and stream.
proof fn lemma_repeat_step_keeps<I: KeyRoute>(rm: RepeatManySpec, rc: u32, s: DState, upd: bool, p: nat)
    requires
        s.r.wf(),
        p <= s.r.pos,
    ensures
        keeps_stream(s.r, repeat_step::<I>(rm, rc, s, upd).1.r, p),
    decreases rm, 2nat, repeat_measure(rm, rc, s), 1nat,
{
    let s1 = DState { m: s.m.with_types(incremented(s.m.types)), ..s };
    lemma_list_keeps::<I>(rm.constituents, 0, false, s1, upd, p);
    let (res, s2) = list_from::<I>(rm.constituents, 0, false, s1, upd);
    match rm.repeat_count {
        RepeatCount::Fixed(_) => {},
        RepeatCount::Delimited(sep) => match sep {
            Separator::Delimiter(d) => lemma_undoable_leaf_keeps::<I>(delimiter_spec(d), s2, false, p),
            Separator::NBytes(_) => lemma_undoable_leaf_keeps::<I>(count_spec(), s2, false, p),
            Separator::EndOfStream => lemma_peek_keeps::<I>(one_byte_spec(), s2, upd, p),
        },
    }
}

/// Deserializing a repeat keeps the reader's markers and stream.
proof fn lemma_repeat_keeps<I: KeyRoute>(rm: RepeatManySpec, rc: u32, s: DState, upd: bool, p: nat)
    requires
        s.r.wf(),
        p <= s.r.pos,
    ensures
        keeps_stream(s.r, repeat_from::<I>(rm, rc, s, upd).1.r, p),
    decreases rm, 2nat, repeat_measure(rm, rc, s), 2nat,
{
    lemma_repeat_step_keeps::<I>(rm, rc, s, upd, p);
    let (step, s3) = repeat_step::<I>(rm, rc, s, upd);
    match step {
        RepeatStep::Stop(_) => {},
        RepeatStep::Again(rc2) => if repeat_measure(rm, rc2, s3) < repeat_measure(rm, rc, s) {
            lemma_repeat_keeps::<I>(rm, rc2, s3, upd, p);
        },
    }
}

/// An undoable deserialization keeps the markers the reader holds; one whose
/// spec failed (a skipped optional spec among them) reads nothing: the same
/// bytes are still to be read.
pub proof fn lemma_undoable_restores<I: KeyRoute>(n: SpecNode, s: DState, upd: bool)
    requires
        s.r.wf(),
    ensures
        undoable::<I>(n, s, upd).1.r.markers == s.r.markers,
        deser::<I>(n, entered(with_mark(s), node_type(n)), upd).0 is Failed
            ==> undoable::<I>(n, s, upd).1.r.remaining() == s.r.remaining(),
{
    lemma_undoable_keeps::<I>(n, s, upd, s.r.pos);
    lemma_marked_wf(s.r);
    let s1 = entered(with_mark(s), node_type(n));
    lemma_deser_keeps::<I>(n, s1, upd, s.r.pos);
    let (o, s2) = deser::<I>(n, s1, upd);
    if o is Failed {
        let u = undoable::<I>(n, s, upd).1.r;
        assert(u == reset_to_marker(left(s2).r));
        assert(u.pos == s.r.pos);
        assert(u.remaining() =~= stream_from(u, s.r.pos));
        assert(stream_from(s.r, s.r.pos) =~= s.r.remaining());
    }
}

/// The outcome of the `j`th constituent of a list, deserialized undoably from state `t`.
pub open spec fn constituent_outcome<I: KeyRoute>(ls: ListSpec, j: int, t: DState, upd: bool) -> Outcome {
    undoable::<I>(ls.constituents@[j], t, upd).0
}

/// What a list gives, constituent by constituent from the `i`th on: it
/// succeeds only when every mandatory constituent tried succeeded and one
/// succeeded (or one before did); it fails with the error of a mandatory
/// constituent, or because none succeeded.
pub proof fn lemma_list_law<I: KeyRoute>(ls: ListSpec, i: nat, success: bool, s: DState, upd: bool)
    ensures
        list_from::<I>(ls, i, success, s, upd).0 is Done ==> {
            &&& success || exists|j: int, t: DState| i <= j < ls.constituents@.len()
                && #[trigger] constituent_outcome::<I>(ls, j, t, upd) is Done
            &&& forall|j: int| i <= j < ls.constituents@.len() && !node_meta(ls.constituents@[j]).optional
                ==> exists|t: DState| #[trigger] constituent_outcome::<I>(ls, j, t, upd) is Done
        },
        list_from::<I>(ls, i, success, s, upd).0 matches Outcome::Failed(k) ==> {
            ||| (k == ErrorKind::NoValidListConstituents(name_path(ls.spec_meta_data.name@)) && !success)
            ||| exists|j: int, t: DState| i <= j < ls.constituents@.len()
                && !node_meta(ls.constituents@[j]).optional
                && #[trigger] constituent_outcome::<I>(ls, j, t, upd) == Outcome::Failed(k)
        },
    decreases ls.constituents@.len() - i,
{
    if i < ls.constituents@.len() {
        let c = ls.constituents@[i as int];
        let (o, s2) = undoable::<I>(c, s, upd);
        assert(constituent_outcome::<I>(ls, i as int, s, upd) == o);
        match o {
            Outcome::Done(_) => {
                lemma_list_law::<I>(ls, i + 1, true, s2, upd);
            },
            Outcome::Failed(k) => if node_meta(c).optional {
                lemma_list_law::<I>(ls, i + 1, success, s2, upd);
            },
        }
    }
}

} // verus!
