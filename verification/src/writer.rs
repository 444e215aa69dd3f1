//! The protocol writer: collects the bytes that a spec serializes to.
use vstd::prelude::*;
use vstd::utf8::*;

use crate::error::ParserError;
use crate::text::{be_bytes, u64_to_be};
use crate::value::{Value, ValueView};

verus! {

/// The bytes that a value is written as: text as UTF-8, numbers big-endian
/// in their width (signed ones in two's complement), bytes as they are.
pub open spec fn value_bytes(v: ValueView) -> Seq<u8> {
    match v {
        ValueView::Text(s) => encode_utf8(s),
        ValueView::I64(n) => be_bytes((n as u64) as nat, 8),
        ValueView::U64(n) => be_bytes(n as nat, 8),
        ValueView::U32(n) => be_bytes(n as nat, 4),
        ValueView::I16(n) => be_bytes((n as u16) as nat, 2),
        ValueView::U16(n) => be_bytes(n as nat, 2),
        ValueView::Bytes(b) => b,
        ValueView::Nothing => Seq::empty(),
    }
}

/// Writing protocol placeholders.
pub trait PlaceHolderWrite {
    fn write_string(&mut self, data: String) -> Result<(), ParserError>;

    fn write_data_u8(&mut self, data: u8) -> Result<(), ParserError>;

    fn write_data_u16(&mut self, data: u16) -> Result<(), ParserError>;

    fn write_data_u32(&mut self, data: u32) -> Result<(), ParserError>;

    fn write_data_u64(&mut self, data: u64) -> Result<(), ParserError>;

    fn write_data_i8(&mut self, data: i8) -> Result<(), ParserError>;

    fn write_data_i16(&mut self, data: i16) -> Result<(), ParserError>;

    fn write_data_i32(&mut self, data: i32) -> Result<(), ParserError>;

    fn write_data_i64(&mut self, data: i64) -> Result<(), ParserError>;

    fn write_data_bytes(&mut self, data: &[u8]) -> Result<(), ParserError>;
}

/// Marker Trait for writing spec
pub trait SpecWrite: PlaceHolderWrite {
}

/// Writer that collects the serialized bytes.
pub struct ProtocolBuffWriter {
    out: Vec<u8>,
}

impl View for ProtocolBuffWriter {
    type V = Seq<u8>;

    closed spec fn view(&self) -> Seq<u8> {
        self.out@
    }
}

impl ProtocolBuffWriter {
    pub fn new() -> (w: Self)
        ensures
            w@ == Seq::<u8>::empty(),
    {
        ProtocolBuffWriter { out: Vec::new() }
    }

    /// The bytes written so far.
    pub fn get_bytes(&self) -> (r: &Vec<u8>)
        ensures
            r@ == self@,
    {
        &self.out
    }

    /// The bytes written, taking the writer.
    pub fn into_bytes(self) -> (r: Vec<u8>)
        ensures
            r@ == self@,
    {
        self.out
    }

    fn append_bytes(&mut self, data: &[u8])
        ensures
            final(self)@ == old(self)@ + data@,
    {
        let mut i: usize = 0;
        while i < data.len()
            invariant
                i <= data@.len(),
                self@ == old(self)@ + data@.subrange(0, i as int),
            decreases data@.len() - i,
        {
            self.out.push(data[i]);
            assert(data@.subrange(0, i + 1) =~= data@.subrange(0, i as int).push(data@[i as int]));
            i = i + 1;
        }
        assert(data@.subrange(0, data@.len() as int) =~= data@);
    }

    fn append_be(&mut self, v: u64, width: usize)
        requires
            width <= 8,
        ensures
            final(self)@ == old(self)@ + be_bytes(v as nat, width as nat),
    {
        let bytes = u64_to_be(v, width);
        self.append_bytes(bytes.as_slice());
    }
}

impl PlaceHolderWrite for ProtocolBuffWriter {
    fn write_string(&mut self, data: String) -> (r: Result<(), ParserError>)
        ensures
            r is Ok,
            final(self)@ == old(self)@ + encode_utf8(data@),
    {
        self.append_bytes(data.as_str().as_bytes());
        Ok(())
    }

    fn write_data_u8(&mut self, data: u8) -> (r: Result<(), ParserError>)
        ensures
            r is Ok,
            final(self)@ == old(self)@ + be_bytes(data as nat, 1),
    {
        self.append_be(data as u64, 1);
        Ok(())
    }

    fn write_data_u16(&mut self, data: u16) -> (r: Result<(), ParserError>)
        ensures
            r is Ok,
            final(self)@ == old(self)@ + be_bytes(data as nat, 2),
    {
        self.append_be(data as u64, 2);
        Ok(())
    }

    fn write_data_u32(&mut self, data: u32) -> (r: Result<(), ParserError>)
        ensures
            r is Ok,
            final(self)@ == old(self)@ + be_bytes(data as nat, 4),
    {
        self.append_be(data as u64, 4);
        Ok(())
    }

    fn write_data_u64(&mut self, data: u64) -> (r: Result<(), ParserError>)
        ensures
            r is Ok,
            final(self)@ == old(self)@ + be_bytes(data as nat, 8),
    {
        self.append_be(data, 8);
        Ok(())
    }

    fn write_data_i8(&mut self, data: i8) -> (r: Result<(), ParserError>)
        ensures
            r is Ok,
            final(self)@ == old(self)@ + be_bytes((data as u8) as nat, 1),
    {
        self.append_be((data as u8) as u64, 1);
        Ok(())
    }

    fn write_data_i16(&mut self, data: i16) -> (r: Result<(), ParserError>)
        ensures
            r is Ok,
            final(self)@ == old(self)@ + be_bytes((data as u16) as nat, 2),
    {
        self.append_be((data as u16) as u64, 2);
        Ok(())
    }

    fn write_data_i32(&mut self, data: i32) -> (r: Result<(), ParserError>)
        ensures
            r is Ok,
            final(self)@ == old(self)@ + be_bytes((data as u32) as nat, 4),
    {
        self.append_be((data as u32) as u64, 4);
        Ok(())
    }

    fn write_data_i64(&mut self, data: i64) -> (r: Result<(), ParserError>)
        ensures
            r is Ok,
            final(self)@ == old(self)@ + be_bytes((data as u64) as nat, 8),
    {
        self.append_be(data as u64, 8);
        Ok(())
    }

    fn write_data_bytes(&mut self, data: &[u8]) -> (r: Result<(), ParserError>)
        ensures
            r is Ok,
            final(self)@ == old(self)@ + data@,
    {
        self.append_bytes(data);
        Ok(())
    }
}

impl SpecWrite for ProtocolBuffWriter {
}

/// Serializes `Value` to the writer.
pub fn write(value: &Value, writer: &mut ProtocolBuffWriter) -> (r: Result<(), ParserError>)
    requires
        !(value@ is Nothing),
    ensures
        r is Ok,
        final(writer)@ == old(writer)@ + value_bytes(value@),
{
    match value {
        Value::String(s) => writer.write_data_bytes(s.as_str().as_bytes()),
        Value::SignedNumber64(n) => writer.write_data_i64(*n),
        Value::UnSignedNumber64(n) => writer.write_data_u64(*n),
        Value::UnSignedNumber32(n) => writer.write_data_u32(*n),
        Value::U8Vec(data) => writer.write_data_bytes(data.as_slice()),
        Value::SignedNumber16(n) => writer.write_data_i16(*n),
        Value::UnSignedNumber16(n) => writer.write_data_u16(*n),
        Value::NoValue => Ok(()),
    }
}

} // verus!
