//! Protocol values, their types, and the conversions between bytes and values.
use vstd::prelude::*;
use vstd::utf8::*;
use vstd::slice::*;

use crate::error::ParserError;
use crate::text::{be_to_u64, be_value, decimal, lemma_be_value_bound, parse_u32, parse_u32_text, pow256, signed_decimal, signed_to_string, string_from_utf8, unsigned_to_string, concat2, concat3};

verus! {

/// Value wraps underlying data. It is wrapper for string, number and bytes
#[derive(Debug)]
pub enum Value {
    String(String),
    SignedNumber64(i64),
    UnSignedNumber64(u64),
    UnSignedNumber32(u32),
    SignedNumber16(i16),
    UnSignedNumber16(u16),
    U8Vec(Vec<u8>),
    NoValue,
}

/// Mathematical content of a [`Value`].
pub enum ValueView {
    Text(Seq<char>),
    I64(i64),
    U64(u64),
    U32(u32),
    I16(i16),
    U16(u16),
    Bytes(Seq<u8>),
    Nothing,
}

impl View for Value {
    type V = ValueView;

    open spec fn view(&self) -> ValueView {
        match self {
            Value::String(s) => ValueView::Text(s@),
            Value::SignedNumber64(n) => ValueView::I64(*n),
            Value::UnSignedNumber64(n) => ValueView::U64(*n),
            Value::UnSignedNumber32(n) => ValueView::U32(*n),
            Value::SignedNumber16(n) => ValueView::I16(*n),
            Value::UnSignedNumber16(n) => ValueView::U16(*n),
            Value::U8Vec(v) => ValueView::Bytes(v@),
            Value::NoValue => ValueView::Nothing,
        }
    }
}

impl Clone for Value {
    fn clone(&self) -> (r: Value)
        ensures
            r@ == self@,
    {
        match self {
            Value::String(s) => Value::String(s.clone()),
            Value::SignedNumber64(n) => Value::SignedNumber64(*n),
            Value::UnSignedNumber64(n) => Value::UnSignedNumber64(*n),
            Value::UnSignedNumber32(n) => Value::UnSignedNumber32(*n),
            Value::SignedNumber16(n) => Value::SignedNumber16(*n),
            Value::UnSignedNumber16(n) => Value::UnSignedNumber16(*n),
            Value::U8Vec(v) => Value::U8Vec(slice_to_vec(v.as_slice())),
            Value::NoValue => Value::NoValue,
        }
    }
}

/// Value Type enum list various types used to represent underlying protocol data
#[derive(PartialEq, Eq, Structural, Clone, Copy, Debug)]
pub enum ValueType {
    String,
    SignedNumber64,
    UnSignedNumber64,
    UnSignedNumber32,
    SignedNumber16,
    UnSignedNumber16,
    U8Vec,
    NoValue,
    CompositeMap,
    CompositeList,
}

/// Whether `ValueType::parse` accepts `bytes` for `value_type`: text must be
/// UTF-8, and a number must come as exactly as many bytes as its width.
pub open spec fn parse_accepts(value_type: ValueType, bytes: Seq<u8>) -> bool {
    match value_type {
        ValueType::String => valid_utf8(bytes),
        ValueType::SignedNumber64 | ValueType::UnSignedNumber64 => bytes.len() == 8,
        ValueType::UnSignedNumber32 => bytes.len() == 4,
        ValueType::SignedNumber16 | ValueType::UnSignedNumber16 => bytes.len() == 2,
        _ => true,
    }
}

/// The value that `bytes` denote as `value_type`; numbers are big-endian.
pub open spec fn parsed_value(value_type: ValueType, bytes: Seq<u8>) -> ValueView {
    match value_type {
        ValueType::String => ValueView::Text(decode_utf8(bytes)),
        ValueType::SignedNumber64 => ValueView::I64(be_value(bytes) as i64),
        ValueType::UnSignedNumber64 => ValueView::U64(be_value(bytes) as u64),
        ValueType::UnSignedNumber32 => ValueView::U32(be_value(bytes) as u32),
        ValueType::SignedNumber16 => ValueView::I16(be_value(bytes) as i16),
        ValueType::UnSignedNumber16 => ValueView::U16(be_value(bytes) as u16),
        ValueType::U8Vec => ValueView::Bytes(bytes),
        _ => ValueView::Nothing,
    }
}

impl ValueType {
    /// Converts slice into Value based on value type
    pub fn parse(value_type: &ValueType, value: &[u8]) -> (r: Value)
        requires
            parse_accepts(*value_type, value@),
        ensures
            r@ == parsed_value(*value_type, value@),
    {
        match value_type {
            ValueType::String => {
                let text = string_from_utf8(slice_to_vec(value));
                match text {
                    Some(s) => Value::String(s),
                    None => Value::NoValue,
                }
            },
            ValueType::SignedNumber64 => {
                let v = be_to_u64(value);
                Value::SignedNumber64(v as i64)
            },
            ValueType::UnSignedNumber64 => Value::UnSignedNumber64(be_to_u64(value)),
            ValueType::UnSignedNumber32 => {
                let v = be_to_u64(value);
                proof {
                    lemma_be_value_bound(value@);
                    reveal_with_fuel(pow256, 5);
                }
                Value::UnSignedNumber32(v as u32)
            },
            ValueType::SignedNumber16 => {
                let v = be_to_u64(value);
                Value::SignedNumber16(v as i16)
            },
            ValueType::UnSignedNumber16 => {
                let v = be_to_u64(value);
                proof {
                    lemma_be_value_bound(value@);
                    reveal_with_fuel(pow256, 3);
                }
                Value::UnSignedNumber16(v as u16)
            },
            ValueType::U8Vec => Value::U8Vec(slice_to_vec(value)),
            _ => Value::NoValue,
        }
    }
}

/// Text that `get_string_value` gives for a value, if any.
pub open spec fn string_of(v: ValueView) -> Option<Seq<char>> {
    match v {
        ValueView::Text(s) => Some(s),
        ValueView::U16(n) => Some(decimal(n as nat)),
        ValueView::U32(n) => Some(decimal(n as nat)),
        ValueView::U64(n) => Some(decimal(n as nat)),
        ValueView::I16(n) => Some(signed_decimal(n as int)),
        ValueView::I64(n) => Some(signed_decimal(n as int)),
        _ => None,
    }
}

/// Whether `get_unsigned_num_32_value` can read a value without failing:
/// text must be a decimal `u32`.
pub open spec fn u32_readable(v: ValueView) -> bool {
    v matches ValueView::Text(s) ==> parse_u32_text(s) is Some
}

/// The `u32` that `get_unsigned_num_32_value` gives for a value, if any.
pub open spec fn u32_of(v: ValueView) -> Option<u32> {
    match v {
        ValueView::U32(n) => Some(n),
        ValueView::Text(s) => parse_u32_text(s),
        _ => None,
    }
}

///Extractor to retrieve underlying data from Value
pub trait ValueExtractor {
    /// Gets underlying string value wrapped in Result
    fn get_string_value_unchecked(&self) -> Result<String, ParserError>;

    /// Gets underlying i64 value  wrapped in Result
    fn get_signed_num_64_value_unchecked(&self) -> Result<i64, ParserError>;

    /// Gets underlying u64 value  wrapped in Result
    fn get_unsigned_num_64_value_unchecked(&self) -> Result<u64, ParserError>;

    /// Gets underlying u32 value  wrapped in Result
    fn get_unsigned_num_32_value_unchecked(&self) -> Result<u32, ParserError>
        requires
            self.extractor_u32_readable(),
    ;

    /// Gets underlying i16 value  wrapped in Result
    fn get_signed_num_16_value_unchecked(&self) -> Result<i16, ParserError>;

    /// Gets underlying u16 value  wrapped in Result
    fn get_unsigned_num_16_value_unchecked(&self) -> Result<u16, ParserError>;

    /// Gets underlying u8 value  wrapped in Result
    fn get_u8_vec_unchecked(&self) -> Result<&Vec<u8>, ParserError>;

    /// Gets underlying string value as Option
    fn get_string_value(&self) -> Option<String>;

    /// Gets underlying i64 value as Option
    fn get_signed_num_64_value(&self) -> Option<i64>;

    /// Gets underlying u64 value as Option
    fn get_unsigned_num_64_value(&self) -> Option<u64>;

    /// Gets underlying u32 value as Option
    fn get_unsigned_num_32_value(&self) -> Option<u32>
        requires
            self.extractor_u32_readable(),
    ;

    /// Gets underlying i16 value as Option
    fn get_signed_num_16_value(&self) -> Option<i16>;

    /// Gets underlying u16 value as Option
    fn get_unsigned_num_16_value(&self) -> Option<u16>;

    /// Gets underlying data Vec<u8> Option
    fn get_u8_vec(&self) -> Option<&Vec<u8>>;

    /// Whether reading a `u32` out of this value cannot fail.
    spec fn extractor_u32_readable(&self) -> bool;
}

/// The text that describes a value: its kind, then its content in brackets
/// (numbers in decimal, bytes by their count).
pub open spec fn value_text(v: ValueView) -> Seq<char> {
    match v {
        ValueView::Text(t) => "String("@ + t + ")"@,
        ValueView::I64(n) => "SignedNumber64("@ + signed_decimal(n as int) + ")"@,
        ValueView::U64(n) => "UnSignedNumber64("@ + decimal(n as nat) + ")"@,
        ValueView::U32(n) => "UnSignedNumber32("@ + decimal(n as nat) + ")"@,
        ValueView::I16(n) => "SignedNumber16("@ + signed_decimal(n as int) + ")"@,
        ValueView::U16(n) => "UnSignedNumber16("@ + decimal(n as nat) + ")"@,
        ValueView::Bytes(b) => "U8Vec("@ + decimal(b.len()) + " bytes)"@,
        ValueView::Nothing => "NoValue"@,
    }
}

impl Value {
    /// The text that describes the value, as error messages show it.
    pub fn describe(&self) -> (s: String)
        ensures
            s@ == value_text(self@),
    {
        match self {
            Value::String(t) => concat3("String(", t.as_str(), ")"),
            Value::SignedNumber64(n) => {
                let d = signed_to_string(*n);
                concat3("SignedNumber64(", d.as_str(), ")")
            },
            Value::UnSignedNumber64(n) => {
                let d = unsigned_to_string(*n);
                concat3("UnSignedNumber64(", d.as_str(), ")")
            },
            Value::UnSignedNumber32(n) => {
                let d = unsigned_to_string(*n as u64);
                concat3("UnSignedNumber32(", d.as_str(), ")")
            },
            Value::SignedNumber16(n) => {
                let d = signed_to_string(*n as i64);
                concat3("SignedNumber16(", d.as_str(), ")")
            },
            Value::UnSignedNumber16(n) => {
                let d = unsigned_to_string(*n as u64);
                concat3("UnSignedNumber16(", d.as_str(), ")")
            },
            Value::U8Vec(b) => {
                let d = unsigned_to_string(b.len() as u64);
                concat3("U8Vec(", d.as_str(), " bytes)")
            },
            Value::NoValue => String::from_str("NoValue"),
        }
    }
}

/// Message for a value that does not hold the kind of data asked for.
fn missing_value_message(prefix: &str, value: &Value) -> (s: String)
    ensures
        s@ == prefix@ + value_text(value@),
{
    let d = value.describe();
    concat2(prefix, d.as_str())
}

impl ValueExtractor for Value {
    open spec fn extractor_u32_readable(&self) -> bool {
        u32_readable(self@)
    }

    fn get_string_value(&self) -> (r: Option<String>)
        ensures
            r is Some <==> string_of(self@) is Some,
            r matches Some(s) ==> s@ == string_of(self@).unwrap(),
    {
        match self {
            Value::String(data) => Some(data.clone()),
            Value::UnSignedNumber16(data) => Some(unsigned_to_string(*data as u64)),
            Value::UnSignedNumber32(data) => Some(unsigned_to_string(*data as u64)),
            Value::UnSignedNumber64(data) => Some(unsigned_to_string(*data)),
            Value::SignedNumber16(data) => Some(signed_to_string(*data as i64)),
            Value::SignedNumber64(data) => Some(signed_to_string(*data)),
            _ => None,
        }
    }

    fn get_signed_num_64_value(&self) -> (r: Option<i64>)
        ensures
            r == (match self@ {
                ValueView::I64(n) => Some(n),
                _ => None,
            }),
    {
        match self {
            Value::SignedNumber64(data) => Some(*data),
            _ => None,
        }
    }

    fn get_unsigned_num_64_value(&self) -> (r: Option<u64>)
        ensures
            r == (match self@ {
                ValueView::U64(n) => Some(n),
                _ => None,
            }),
    {
        match self {
            Value::UnSignedNumber64(data) => Some(*data),
            _ => None,
        }
    }

    fn get_unsigned_num_32_value(&self) -> (r: Option<u32>)
        ensures
            r == u32_of(self@),
    {
        match self {
            Value::UnSignedNumber32(data) => Some(*data),
            Value::String(data) => {
                let parsed = parse_u32(data.as_str());
                match parsed {
                    Some(n) => Some(n),
                    None => None,
                }
            },
            _ => None,
        }
    }

    fn get_signed_num_16_value(&self) -> (r: Option<i16>)
        ensures
            r == (match self@ {
                ValueView::I16(n) => Some(n),
                _ => None,
            }),
    {
        match self {
            Value::SignedNumber16(data) => Some(*data),
            _ => None,
        }
    }

    fn get_unsigned_num_16_value(&self) -> (r: Option<u16>)
        ensures
            r == (match self@ {
                ValueView::U16(n) => Some(n),
                _ => None,
            }),
    {
        match self {
            Value::UnSignedNumber16(data) => Some(*data),
            _ => None,
        }
    }

    fn get_u8_vec(&self) -> (r: Option<&Vec<u8>>)
        ensures
            r is Some <==> self@ is Bytes,
            r matches Some(v) ==> self@ == ValueView::Bytes(v@),
    {
        match self {
            Value::U8Vec(data) => Some(data),
            _ => None,
        }
    }

    fn get_string_value_unchecked(&self) -> (r: Result<String, ParserError>)
        ensures
            r is Ok <==> string_of(self@) is Some,
            r matches Ok(s) ==> s@ == string_of(self@).unwrap(),
            r matches Err(e) ==> e is MissingValue,
    {
        match self.get_string_value() {
            Some(data) => Ok(data),
            None => Err(ParserError::MissingValue(missing_value_message("unable to get String value from ", self))),
        }
    }

    fn get_signed_num_64_value_unchecked(&self) -> (r: Result<i64, ParserError>)
        ensures
            r is Ok <==> self@ is I64,
            r matches Ok(n) ==> self@ == ValueView::I64(n),
            r matches Err(e) ==> e is MissingValue,
    {
        match self.get_signed_num_64_value() {
            Some(data) => Ok(data),
            None => Err(ParserError::MissingValue(missing_value_message("unable to get signed 64 value from ", self))),
        }
    }

    fn get_unsigned_num_64_value_unchecked(&self) -> (r: Result<u64, ParserError>)
        ensures
            r is Ok <==> self@ is U64,
            r matches Ok(n) ==> self@ == ValueView::U64(n),
            r matches Err(e) ==> e is MissingValue,
    {
        match self.get_unsigned_num_64_value() {
            Some(data) => Ok(data),
            None => Err(ParserError::MissingValue(missing_value_message("unable to get unsigned 64 value from ", self))),
        }
    }

    fn get_unsigned_num_32_value_unchecked(&self) -> (r: Result<u32, ParserError>)
        ensures
            r is Ok <==> u32_of(self@) is Some,
            r matches Ok(n) ==> u32_of(self@) == Some(n),
            r matches Err(e) ==> e is MissingValue,
    {
        match self.get_unsigned_num_32_value() {
            Some(data) => Ok(data),
            None => Err(ParserError::MissingValue(missing_value_message("unable to get unsigned 32 value from ", self))),
        }
    }

    fn get_signed_num_16_value_unchecked(&self) -> (r: Result<i16, ParserError>)
        ensures
            r is Ok <==> self@ is I16,
            r matches Ok(n) ==> self@ == ValueView::I16(n),
            r matches Err(e) ==> e is MissingValue,
    {
        match self.get_signed_num_16_value() {
            Some(data) => Ok(data),
            None => Err(ParserError::MissingValue(missing_value_message("unable to get signed 64 value from ", self))),
        }
    }

    fn get_unsigned_num_16_value_unchecked(&self) -> (r: Result<u16, ParserError>)
        ensures
            r is Ok <==> self@ is U16,
            r matches Ok(n) ==> self@ == ValueView::U16(n),
            r matches Err(e) ==> e is MissingValue,
    {
        match self.get_unsigned_num_16_value() {
            Some(data) => Ok(data),
            None => Err(ParserError::MissingValue(missing_value_message("unable to get unsigned 64 value from ", self))),
        }
    }

    fn get_u8_vec_unchecked(&self) -> (r: Result<&Vec<u8>, ParserError>)
        ensures
            r is Ok <==> self@ is Bytes,
            r matches Ok(v) ==> self@ == ValueView::Bytes(v@),
            r matches Err(e) ==> e is MissingValue,
    {
        match self.get_u8_vec() {
            Some(data) => Ok(data),
            None => Err(ParserError::MissingValue(missing_value_message("unable to get vec of bytes value from ", self))),
        }
    }
}

} // verus!
