//! What the reading and writing of values mean, stated over the bytes and
//! values themselves: a number read is the number whose bytes were read, of
//! the type its spec declares; a one-of value read is one of its values; a
//! delimited value written is followed by its delimiter; a repeat of a fixed
//! count that succeeds ran that many times.
use vstd::prelude::*;
use vstd::utf8::*;

use crate::context::incremented;
use crate::deser::{DState, Outcome, deser_leaf, list_from, repeat_from, repeat_step, repeat_measure, RepeatStep, separator_read, stored};
use crate::error::ErrorKind;
use crate::info::KeyRoute;
use crate::mapper::MapperView;
use crate::names::{RepeatCount, Separator};
use crate::ser::{SState, ser_leaf, value_at_path};
use crate::reader::{ReadBytesSize, ReadResult, read_sized};
use crate::spec::{DelimitedStringSpec, OneOfSpec, RepeatManySpec, SpecNode};
use crate::text::{be_bytes, be_value, lemma_be_value_bound, pow256};
use crate::value::{ValueType, ValueView, parse_accepts, parsed_value, string_of};
use crate::writer::value_bytes;

verus! {

/// The type of value that a value is.
pub open spec fn value_type_of(v: ValueView) -> ValueType {
    match v {
        ValueView::Text(_) => ValueType::String,
        ValueView::I64(_) => ValueType::SignedNumber64,
        ValueView::U64(_) => ValueType::UnSignedNumber64,
        ValueView::U32(_) => ValueType::UnSignedNumber32,
        ValueView::I16(_) => ValueType::SignedNumber16,
        ValueView::U16(_) => ValueType::UnSignedNumber16,
        ValueView::Bytes(_) => ValueType::U8Vec,
        ValueView::Nothing => ValueType::NoValue,
    }
}

/// Whether `vt` is one of the number types.
pub open spec fn is_number_type(vt: ValueType) -> bool {
    ||| vt == ValueType::SignedNumber64
    ||| vt == ValueType::UnSignedNumber64
    ||| vt == ValueType::UnSignedNumber32
    ||| vt == ValueType::SignedNumber16
    ||| vt == ValueType::UnSignedNumber16
}

/// The big-endian bytes of a number are the bytes whose value it is.
proof fn lemma_be_bytes_of_value(s: Seq<u8>)
    ensures
        be_bytes(be_value(s), s.len()) == s,
    decreases s.len(),
{
    if s.len() > 0 {
        let t = s.drop_last();
        lemma_be_bytes_of_value(t);
        let a = be_value(t);
        let b = s.last() as nat;
        let v = be_value(s);
        assert(v == a * 256 + b);
        assert(v / 256 == a && v % 256 == b) by (nonlinear_arith)
            requires
                v == a * 256 + b,
                b < 256,
        ;
        assert(be_bytes(v, s.len()) =~= s);
    }
}

/// Parsing bytes as a type gives a value of that very type, text and bytes
/// being what was read, and a number being one whose big-endian bytes (two's
/// complement for a signed one) are the bytes read.
pub proof fn lemma_parse_gives_declared_type(vt: ValueType, b: Seq<u8>)
    requires
        parse_accepts(vt, b),
        vt != ValueType::NoValue,
        vt != ValueType::CompositeMap,
        vt != ValueType::CompositeList,
    ensures
        value_type_of(parsed_value(vt, b)) == vt,
        is_number_type(vt) ==> value_bytes(parsed_value(vt, b)) == b,
        vt == ValueType::U8Vec ==> parsed_value(vt, b) == ValueView::Bytes(b),
        vt == ValueType::String ==> parsed_value(vt, b) == ValueView::Text(decode_utf8(b)),
        vt == ValueType::UnSignedNumber64 ==> parsed_value(vt, b) == ValueView::U64(be_value(b) as u64) && be_value(b) < pow256(8),
{
    lemma_be_value_bound(b);
    lemma_be_bytes_of_value(b);
    reveal_with_fuel(pow256, 9);
    let x = be_value(b);
    match vt {
        ValueType::SignedNumber64 => {
            let v: u64 = x as u64;
            assert((v as i64) as u64 == v) by (bit_vector);
            assert(((x as i64) as u64) as nat == x);
        },
        ValueType::SignedNumber16 => {
            let v: u16 = x as u16;
            assert((v as i16) as u16 == v) by (bit_vector);
            assert(((x as i16) as u16) as nat == x);
        },
        _ => {},
    }
}

/// Parsing the bytes that a number is written as gives that number back.
pub proof fn lemma_parse_of_written_number(v: ValueView)
    requires
        is_number_type(value_type_of(v)),
    ensures
        parse_accepts(value_type_of(v), value_bytes(v)),
        parsed_value(value_type_of(v), value_bytes(v)) == v,
{
    reveal_with_fuel(pow256, 9);
    match v {
        ValueView::I64(n) => {
            let u: u64 = n as u64;
            crate::text::lemma_be_roundtrip(u as nat, 8);
            assert(pow256(8) == 0x1_0000_0000_0000_0000);
            vstd::arithmetic::div_mod::lemma_small_mod(u as nat, pow256(8));
            assert(value_bytes(v) == be_bytes(u as nat, 8));
            assert(be_value(value_bytes(v)) == u as nat);
            assert((u as i64) == n) by (bit_vector)
                requires
                    u == n as u64,
            ;
            assert((be_value(value_bytes(v)) as i64) == (u as i64));
            assert(value_bytes(v).len() == 8);
            assert(parse_accepts(ValueType::SignedNumber64, value_bytes(v)));
            assert(parsed_value(ValueType::SignedNumber64, value_bytes(v)) == ValueView::I64(be_value(value_bytes(v)) as i64));
            assert(parsed_value(ValueType::SignedNumber64, value_bytes(v)) == v);
        },
        ValueView::U64(n) => {
            crate::text::lemma_be_roundtrip(n as nat, 8);
            assert(pow256(8) == 0x1_0000_0000_0000_0000);
            vstd::arithmetic::div_mod::lemma_small_mod(n as nat, pow256(8));
        },
        ValueView::U32(n) => {
            crate::text::lemma_be_roundtrip(n as nat, 4);
            assert(pow256(4) == 0x1_0000_0000);
            vstd::arithmetic::div_mod::lemma_small_mod(n as nat, pow256(4));
        },
        ValueView::I16(n) => {
            let u: u16 = n as u16;
            crate::text::lemma_be_roundtrip(u as nat, 2);
            assert(pow256(2) == 0x1_0000);
            vstd::arithmetic::div_mod::lemma_small_mod(u as nat, pow256(2));
            assert(value_bytes(v) == be_bytes(u as nat, 2));
            assert(be_value(value_bytes(v)) == u as nat);
            assert((u as i16) == n) by (bit_vector)
                requires
                    u == n as u16,
            ;
            assert((be_value(value_bytes(v)) as i16) == (u as i16));
        },
        ValueView::U16(n) => {
            crate::text::lemma_be_roundtrip(n as nat, 2);
            assert(pow256(2) == 0x1_0000);
            vstd::arithmetic::div_mod::lemma_small_mod(n as nat, pow256(2));
        },
        _ => {},
    }
}

/// The type and the width in bytes of the number that a number spec declares.
pub open spec fn number_field(n: SpecNode) -> Option<(ValueType, u32)> {
    match n {
        SpecNode::U64(_) => Some((ValueType::UnSignedNumber64, 8)),
        SpecNode::I64(_) => Some((ValueType::SignedNumber64, 8)),
        SpecNode::U32(_) => Some((ValueType::UnSignedNumber32, 4)),
        SpecNode::U16(_) => Some((ValueType::UnSignedNumber16, 2)),
        SpecNode::I16(_) => Some((ValueType::SignedNumber16, 2)),
        _ => None,
    }
}

/// Reading a number spec over the bytes of its width gives a number of the
/// type it declares, whose bytes are those read; the bytes stay unread. With
/// the information updated, that number is what is stored under the
/// innermost name.
pub proof fn lemma_number_field_read<I: KeyRoute>(n: SpecNode, s: DState)
    requires
        number_field(n) is Some,
        read_sized(s.r, ReadBytesSize::Fixed(number_field(n).unwrap().1)).0 is Bytes,
    ensures
        ({
            let (vt, w) = number_field(n).unwrap();
            let (res, r2) = read_sized(s.r, ReadBytesSize::Fixed(w));
            let b = res->Bytes_0;
            let (o, s2) = deser_leaf::<I>(n, s, false);
            let (ou, su) = deser_leaf::<I>(n, s, true);
            &&& o matches Outcome::Done(v) && value_type_of(v) == vt && value_bytes(v) == b
            &&& s2 == DState { r: r2, ..s }
            &&& su.r == r2
            &&& stored::<I>(s.m, o->Done_0).0 is None ==> ou == Outcome::Done(ValueView::Nothing)
                && su.m == stored::<I>(s.m, o->Done_0).1
            &&& stored::<I>(s.m, o->Done_0).0 matches Some(k) ==> ou == Outcome::Failed(k) && su.m == s.m
        }),
{
    let (vt, w) = number_field(n).unwrap();
    let b = read_sized(s.r, ReadBytesSize::Fixed(w)).0->Bytes_0;
    assert(b.len() == w);
    lemma_parse_gives_declared_type(vt, b);
}

/// Whether `text` is one of `values`.
pub open spec fn in_values(values: Seq<String>, text: Seq<char>) -> bool {
    exists|i: int| 0 <= i < values.len() && #[trigger] values[i]@ == text
}

/// The text that a read gives as a value of type `vt`, if it gives one.
pub open spec fn read_text(vt: ValueType, res: ReadResult) -> Option<Seq<char>> {
    match res {
        ReadResult::Bytes(b) => if parse_accepts(vt, b) {
            string_of(parsed_value(vt, b))
        } else {
            None
        },
        _ => None,
    }
}

/// A one-of spec succeeds only on a value whose text is one of its values,
/// whether the information is updated or not, and a text that is none of its
/// values is refused; without updating, the value read is what it gives.
pub proof fn lemma_one_of_reads_only_its_values<I: KeyRoute>(o: OneOfSpec, s: DState, upd: bool)
    ensures
        ({
            let res = separator_read(o.until, s.r).0;
            let vt = o.spec_meta_data.value_type;
            let out = deser_leaf::<I>(SpecNode::OneOf(o), s, upd).0;
            &&& out is Done ==> (read_text(vt, res) matches Some(t) && in_values(o.values@, t))
            &&& (read_text(vt, res) matches Some(t) && !in_values(o.values@, t))
                ==> out == Outcome::Failed(ErrorKind::MissingValue)
            &&& (!upd && out is Done) ==> out == Outcome::Done(parsed_value(vt, res->Bytes_0))
        }),
{
    let res = separator_read(o.until, s.r).0;
    let vt = o.spec_meta_data.value_type;
    if res is Bytes && parse_accepts(vt, res->Bytes_0) {
        match string_of(parsed_value(vt, res->Bytes_0)) {
            Some(t) => {
                if in_values(o.values@, t) {
                    let i = choose|i: int| 0 <= i < o.values@.len() && #[trigger] o.values@[i]@ == t;
                    assert(crate::deser::one_of(o.values@, t));
                } else {
                    if crate::deser::one_of(o.values@, t) {
                        let i = choose|i: int| 0 <= i < o.values@.len() && #[trigger] o.values@[i]@ == t;
                        assert(in_values(o.values@, t));
                    }
                }
            },
            None => {},
        }
    }
}

/// The optionality and the separator of a spec read up to a separator: a
/// delimited string or a one-of.
pub open spec fn delimited_leaf(n: SpecNode) -> Option<(bool, Separator)> {
    match n {
        SpecNode::DelimitedString(d) => Some((d.spec_meta_data.optional, d.until)),
        SpecNode::OneOf(o) => Some((o.spec_meta_data.optional, o.until)),
        _ => None,
    }
}

/// Writing a delimited string or a one-of whose value is known writes the
/// value's bytes, then the bytes of its delimiter; a mandatory one whose
/// value is unknown is missing data, and nothing is written.
pub proof fn lemma_delimited_leaf_written<I: KeyRoute>(n: SpecNode, m: MapperView, s: SState)
    requires
        delimited_leaf(n) is Some,
    ensures
        ({
            let (optional, sep) = delimited_leaf(n).unwrap();
            let value = value_at_path(m, s.types);
            &&& (value matches Some(v) && !(v is Nothing) && sep matches Separator::Delimiter(d))
                ==> ser_leaf::<I>(n, m, s) == (None::<ErrorKind>, SState { out: s.out + value_bytes(value->Some_0) + encode_utf8(sep->Delimiter_0@), ..s })
            &&& (value is None && !optional) ==> ser_leaf::<I>(n, m, s) == (Some(ErrorKind::MissingData), s)
        }),
{
    let (optional, sep) = delimited_leaf(n).unwrap();
    match n {
        SpecNode::DelimitedString(d) => {
            assert(d.until == sep);
        },
        SpecNode::OneOf(o) => {
            assert(o.until == sep);
        },
        _ => {},
    }
    let value = value_at_path(m, s.types);
    if value is None && !optional {
        assert(SState { out: s.out, ..s } == s);
    }
}

/// `k` successful runs of the constituents of a repeat, one after another,
/// lead from state `s` to state `t`.
pub open spec fn runs<I: KeyRoute>(rm: RepeatManySpec, k: nat, s: DState, t: DState, upd: bool) -> bool
    decreases k,
{
    if k == 0 {
        s == t
    } else {
        let s1 = DState { m: s.m.with_types(incremented(s.m.types)), ..s };
        let (res, s2) = list_from::<I>(rm.constituents, 0, false, s1, upd);
        res is Done && runs::<I>(rm, (k - 1) as nat, s2, t, upd)
    }
}

/// A repeat of a fixed count that succeeds ran its constituents successfully
/// exactly as many times as the count says (counting those it had run).
pub proof fn lemma_fixed_repeat_runs<I: KeyRoute>(rm: RepeatManySpec, rc: u32, s: DState, upd: bool)
    requires
        rm.repeat_count matches RepeatCount::Fixed(count) && rc < count,
    ensures
        repeat_from::<I>(rm, rc, s, upd).0 is Done ==> runs::<I>(
            rm,
            (rm.repeat_count->Fixed_0 - rc) as nat,
            s,
            repeat_from::<I>(rm, rc, s, upd).1,
            upd,
        ),
    decreases repeat_measure(rm, rc, s),
{
    let count = rm.repeat_count->Fixed_0;
    let s1 = DState { m: s.m.with_types(incremented(s.m.types)), ..s };
    let (res, s2) = list_from::<I>(rm.constituents, 0, false, s1, upd);
    let (step, s3) = repeat_step::<I>(rm, rc, s, upd);
    if res is Done {
        let rc2 = (rc + 1) as u32;
        if rc2 >= count {
            assert(runs::<I>(rm, 0, s2, s2, upd));
        } else {
            assert(step == RepeatStep::Again(rc2));
            assert(repeat_measure(rm, rc2, s3) < repeat_measure(rm, rc, s));
            lemma_fixed_repeat_runs::<I>(rm, rc2, s3, upd);
            assert((count - rc) as nat - 1 == (count - rc2) as nat);
        }
    }
}

/// Reading a delimited string gives the value of its declared type that the
/// bytes up to its separator denote, and moves past what the separator read
/// moved past; bytes its type cannot take are a missing value.
pub proof fn lemma_delimited_string_read<I: KeyRoute>(d: DelimitedStringSpec, s: DState)
    ensures
        ({
            let (res, r2) = separator_read(d.until, s.r);
            let vt = d.spec_meta_data.value_type;
            let (o, s2) = deser_leaf::<I>(SpecNode::DelimitedString(d), s, false);
            &&& s2 == DState { r: r2, ..s }
            &&& (res matches ReadResult::Bytes(b) && parse_accepts(vt, b))
                ==> o == Outcome::Done(parsed_value(vt, res->Bytes_0))
            &&& (res matches ReadResult::Bytes(b) && !parse_accepts(vt, b))
                ==> o == Outcome::Failed(ErrorKind::MissingValue)
            &&& (res matches ReadResult::Failed(k)) ==> o == Outcome::Failed(res->Failed_0)
        }),
{
}

} // verus!
