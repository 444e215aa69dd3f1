//! The specs a protocol is described with: leaf specs that read one
//! placeholder, and composite specs made of other specs.
use vstd::prelude::*;

use crate::http::BodySpec;
use crate::names::{RepeatCount, Separator, SpecMetaData, SpecName, SpecType, ToSpecType};
use crate::value::ValueType;
use crate::deser::SpecDeserialize;
use crate::ser::SpecSerialize;
use crate::traverse::{SpecMapper, SpecTraverse};

verus! {

///Base trait Spec which is implemented by all specs. Spec contains metadata
pub trait Spec {
    /// The metadata of this spec.
    spec fn meta(&self) -> SpecMetaData;

    fn get_meta_data(&self) -> (r: &SpecMetaData)
        ensures
            *r == self.meta(),
    ;
}

/// trait to represent simple value spec. simple value could be string, numbers(u16,i16 etc), array of bytes
pub trait SimpleValueSpec: Spec + ToSpecType {
}

/// trait to represent string spec that is delimited by a value(could be another string)
pub trait DelimitedSpec: SimpleValueSpec + Sized {
    /// The spec, delimited by `delimiter`, as a spec of a protocol.
    spec fn node_with(self, delimiter: Separator) -> SpecNode;

    fn set_delimiter(&mut self, delimiter: Separator);

    fn get_delimiter(&self) -> &Separator;

    /// The spec, delimited by `delimiter`, as a spec of a protocol.
    fn into_node_with(self, delimiter: Separator) -> (r: SpecNode)
        ensures
            r == self.node_with(delimiter),
    ;
}

/// trait to represent string spec
pub trait StringSpec: SimpleValueSpec {
}

/// struct to store Spec that contains delimited string.
/// e.g http request method can be represented using the spec where separator is space character
pub struct DelimitedStringSpec {
    pub spec_meta_data: SpecMetaData,
    pub until: Separator,
}

/// Spec that knows the exact string that appears in the protocol. This could be delimiter like space
/// or newline or one of the known values like request method in http request line
pub struct ExactStringSpec {
    pub input: String,
    pub spec_meta_data: SpecMetaData,
}

/// Spec to represent bytes of data with fixed size. e.g request body/payload
pub struct NBytesSpec {
    pub spec_meta_data: SpecMetaData,
    pub size: u32,
}

/// Spec to represent bytes of data that is available till the end of stream. e.g request body/payload
pub struct AllBytesSpec {
    pub spec_meta_data: SpecMetaData,
}

/// Spec to represent string data that matches two or more fixed values e.g request_method in http should have values GET,POST,PUT,DELETE
pub struct OneOfSpec {
    pub spec_meta_data: SpecMetaData,
    pub values: Vec<String>,
    pub until: Separator,
}

/// Spec to represent composite spec i.e Spec containing List of constituent specs
pub struct ListSpec {
    pub spec_meta_data: SpecMetaData,
    pub constituents: Vec<SpecNode>,
}

/// Repeat many spec struct.
/// Nested RepeatSpecs are not supported currently. constituents field cannot contain another repeat spec
pub struct RepeatManySpec {
    pub spec_meta_data: SpecMetaData,
    pub repeat_count: RepeatCount,
    pub constituents: ListSpec,
}

///Key value spec. It is a composite spec(it contains other Spec) containing Key and Value Spec
pub struct KeyValueSpec {
    pub spec_metadata: SpecMetaData,
    pub key: Key,
    pub value: ValueSpec,
}

/// Spec to represent key of KeyValueSpec
pub struct Key(pub Box<SpecNode>, pub SpecMetaData);

/// Spec to represent Value Spec of KeyValueSpec
pub struct ValueSpec(pub Box<SpecNode>, pub SpecMetaData);

/// Spec to represent fixed key from the Spec itself and value from protocol payload
pub struct InlineKeyWithValue(pub Box<SpecNode>, pub SpecMetaData);

/// Represents u64 number spec
pub struct NumberU64Spec(pub SpecMetaData);

/// Represents i64 number spec
pub struct NumberI64Spec(pub SpecMetaData);

/// Represents u32 number spec
pub struct NumberU32Spec(pub SpecMetaData);

/// Represents u16 number spec
pub struct NumberU16Spec(pub SpecMetaData);

/// Represents i16 number spec
pub struct NumberI16Spec(pub SpecMetaData);

/// Any spec of a protocol description.
pub enum SpecNode {
    DelimitedString(DelimitedStringSpec),
    ExactString(ExactStringSpec),
    OneOf(OneOfSpec),
    NBytes(NBytesSpec),
    AllBytes(AllBytesSpec),
    U64(NumberU64Spec),
    I64(NumberI64Spec),
    U32(NumberU32Spec),
    U16(NumberU16Spec),
    I16(NumberI16Spec),
    Body(BodySpec),
    List(ListSpec),
    RepeatMany(RepeatManySpec),
    KeyValue(KeyValueSpec),
    Key(Key),
    Value(ValueSpec),
    InlineKeyWithValue(InlineKeyWithValue),
}

/// The metadata of a spec.
pub open spec fn node_meta(n: SpecNode) -> SpecMetaData {
    match n {
        SpecNode::DelimitedString(s) => s.spec_meta_data,
        SpecNode::ExactString(s) => s.spec_meta_data,
        SpecNode::OneOf(s) => s.spec_meta_data,
        SpecNode::NBytes(s) => s.spec_meta_data,
        SpecNode::AllBytes(s) => s.spec_meta_data,
        SpecNode::U64(s) => s.0,
        SpecNode::I64(s) => s.0,
        SpecNode::U32(s) => s.0,
        SpecNode::U16(s) => s.0,
        SpecNode::I16(s) => s.0,
        SpecNode::Body(s) => s.spec_meta_data,
        SpecNode::List(s) => s.spec_meta_data,
        SpecNode::RepeatMany(s) => s.spec_meta_data,
        SpecNode::KeyValue(s) => s.spec_metadata,
        SpecNode::Key(s) => s.1,
        SpecNode::Value(s) => s.1,
        SpecNode::InlineKeyWithValue(s) => s.1,
    }
}

/// The spec type a spec is entered with: a repeat with its count and index 0,
/// any other spec as a simple one of its name.
pub open spec fn node_type(n: SpecNode) -> SpecType {
    match n {
        SpecNode::RepeatMany(s) => SpecType::RepeatMany(s.spec_meta_data.name, s.repeat_count, 0),
        _ => SpecType::Simple(node_meta(n).name),
    }
}

impl Spec for SpecNode {
    open spec fn meta(&self) -> SpecMetaData {
        node_meta(*self)
    }

    fn get_meta_data(&self) -> (r: &SpecMetaData) {
        match self {
            SpecNode::DelimitedString(s) => &s.spec_meta_data,
            SpecNode::ExactString(s) => &s.spec_meta_data,
            SpecNode::OneOf(s) => &s.spec_meta_data,
            SpecNode::NBytes(s) => &s.spec_meta_data,
            SpecNode::AllBytes(s) => &s.spec_meta_data,
            SpecNode::U64(s) => &s.0,
            SpecNode::I64(s) => &s.0,
            SpecNode::U32(s) => &s.0,
            SpecNode::U16(s) => &s.0,
            SpecNode::I16(s) => &s.0,
            SpecNode::Body(s) => &s.spec_meta_data,
            SpecNode::List(s) => &s.spec_meta_data,
            SpecNode::RepeatMany(s) => &s.spec_meta_data,
            SpecNode::KeyValue(s) => &s.spec_metadata,
            SpecNode::Key(s) => &s.1,
            SpecNode::Value(s) => &s.1,
            SpecNode::InlineKeyWithValue(s) => &s.1,
        }
    }
}

impl ToSpecType for SpecNode {
    open spec fn spec_type_of(&self) -> SpecType {
        node_type(*self)
    }

    fn to_spec_type(&self) -> (r: SpecType) {
        match self {
            SpecNode::RepeatMany(s) => SpecType::RepeatMany(
                s.spec_meta_data.name.clone(),
                s.repeat_count.clone(),
                0,
            ),
            _ => SpecType::Simple(self.get_meta_data().name.clone()),
        }
    }
}

impl Spec for Key {
    open spec fn meta(&self) -> SpecMetaData {
        self.1
    }

    fn get_meta_data(&self) -> (r: &SpecMetaData) {
        &self.1
    }
}

impl ToSpecType for Key {
    open spec fn spec_type_of(&self) -> SpecType {
        SpecType::Simple(self.1.name)
    }

    fn to_spec_type(&self) -> (r: SpecType) {
        SpecType::Simple(self.1.name.clone())
    }
}

impl Spec for ValueSpec {
    open spec fn meta(&self) -> SpecMetaData {
        self.1
    }

    fn get_meta_data(&self) -> (r: &SpecMetaData) {
        &self.1
    }
}

impl ToSpecType for ValueSpec {
    open spec fn spec_type_of(&self) -> SpecType {
        SpecType::Simple(self.1.name)
    }

    fn to_spec_type(&self) -> (r: SpecType) {
        SpecType::Simple(self.1.name.clone())
    }
}

impl Spec for InlineKeyWithValue {
    open spec fn meta(&self) -> SpecMetaData {
        self.1
    }

    fn get_meta_data(&self) -> (r: &SpecMetaData) {
        &self.1
    }
}

impl Spec for ListSpec {
    open spec fn meta(&self) -> SpecMetaData {
        self.spec_meta_data
    }

    fn get_meta_data(&self) -> (r: &SpecMetaData) {
        &self.spec_meta_data
    }
}

impl ToSpecType for ListSpec {
    open spec fn spec_type_of(&self) -> SpecType {
        SpecType::Simple(self.spec_meta_data.name)
    }

    fn to_spec_type(&self) -> (r: SpecType) {
        SpecType::Simple(self.spec_meta_data.name.clone())
    }
}

impl Spec for RepeatManySpec {
    open spec fn meta(&self) -> SpecMetaData {
        self.spec_meta_data
    }

    fn get_meta_data(&self) -> (r: &SpecMetaData) {
        &self.spec_meta_data
    }
}

impl ToSpecType for RepeatManySpec {
    open spec fn spec_type_of(&self) -> SpecType {
        SpecType::RepeatMany(self.spec_meta_data.name, self.repeat_count, 0)
    }

    fn to_spec_type(&self) -> (r: SpecType) {
        SpecType::RepeatMany(self.spec_meta_data.name.clone(), self.repeat_count.clone(), 0)
    }
}

impl Spec for DelimitedStringSpec {
    open spec fn meta(&self) -> SpecMetaData {
        self.spec_meta_data
    }

    fn get_meta_data(&self) -> (r: &SpecMetaData) {
        &self.spec_meta_data
    }
}

impl ToSpecType for DelimitedStringSpec {
    open spec fn spec_type_of(&self) -> SpecType {
        SpecType::Simple(self.spec_meta_data.name)
    }

    fn to_spec_type(&self) -> (r: SpecType) {
        SpecType::Simple(self.spec_meta_data.name.clone())
    }
}

impl SimpleValueSpec for DelimitedStringSpec {
}

impl StringSpec for DelimitedStringSpec {
}

impl DelimitedSpec for DelimitedStringSpec {
    open spec fn node_with(self, delimiter: Separator) -> SpecNode {
        SpecNode::DelimitedString(DelimitedStringSpec { until: delimiter, ..self })
    }

    fn into_node_with(self, delimiter: Separator) -> (r: SpecNode) {
        let mut s = self;
        s.until = delimiter;
        SpecNode::DelimitedString(s)
    }

    fn set_delimiter(&mut self, delimiter: Separator)
        ensures
            final(self).until == delimiter,
            final(self).spec_meta_data == old(self).spec_meta_data,
    {
        self.until = delimiter;
    }

    fn get_delimiter(&self) -> (r: &Separator)
        ensures
            *r == self.until,
    {
        &self.until
    }
}

impl DelimitedStringSpec {
    /// A delimited string spec that reads text up to the end of the stream.
    pub fn new(name: SpecName, optional: bool) -> (r: Self)
        ensures
            r.spec_meta_data == SpecMetaData::new_spec(name, ValueType::String, optional),
            r.until == Separator::EndOfStream,
    {
        DelimitedStringSpec {
            spec_meta_data: SpecMetaData::new(name, ValueType::String, optional),
            until: Separator::EndOfStream,
        }
    }
}

impl Spec for ExactStringSpec {
    open spec fn meta(&self) -> SpecMetaData {
        self.spec_meta_data
    }

    fn get_meta_data(&self) -> (r: &SpecMetaData) {
        &self.spec_meta_data
    }
}

impl ToSpecType for ExactStringSpec {
    open spec fn spec_type_of(&self) -> SpecType {
        SpecType::Simple(self.spec_meta_data.name)
    }

    fn to_spec_type(&self) -> (r: SpecType) {
        SpecType::Simple(self.spec_meta_data.name.clone())
    }
}

impl SimpleValueSpec for ExactStringSpec {
}

impl StringSpec for ExactStringSpec {
}

impl ExactStringSpec {
    pub fn new(name: SpecName, input: String, optional: bool) -> (r: Self)
        ensures
            r.input == input,
            r.spec_meta_data == SpecMetaData::new_spec(name, ValueType::String, optional),
    {
        ExactStringSpec { input, spec_meta_data: SpecMetaData::new(name, ValueType::String, optional) }
    }
}

impl Spec for NBytesSpec {
    open spec fn meta(&self) -> SpecMetaData {
        self.spec_meta_data
    }

    fn get_meta_data(&self) -> (r: &SpecMetaData) {
        &self.spec_meta_data
    }
}

impl ToSpecType for NBytesSpec {
    open spec fn spec_type_of(&self) -> SpecType {
        SpecType::Simple(self.spec_meta_data.name)
    }

    fn to_spec_type(&self) -> (r: SpecType) {
        SpecType::Simple(self.spec_meta_data.name.clone())
    }
}

impl SimpleValueSpec for NBytesSpec {
}

impl NBytesSpec {
    pub fn new(name: SpecName, size: u32, optional: bool) -> (r: Self)
        ensures
            r.size == size,
            r.spec_meta_data == SpecMetaData::new_spec(name, ValueType::U8Vec, optional),
    {
        NBytesSpec { spec_meta_data: SpecMetaData::new(name, ValueType::U8Vec, optional), size }
    }
}

impl Spec for AllBytesSpec {
    open spec fn meta(&self) -> SpecMetaData {
        self.spec_meta_data
    }

    fn get_meta_data(&self) -> (r: &SpecMetaData) {
        &self.spec_meta_data
    }
}

impl ToSpecType for AllBytesSpec {
    open spec fn spec_type_of(&self) -> SpecType {
        SpecType::Simple(self.spec_meta_data.name)
    }

    fn to_spec_type(&self) -> (r: SpecType) {
        SpecType::Simple(self.spec_meta_data.name.clone())
    }
}

impl SimpleValueSpec for AllBytesSpec {
}

impl AllBytesSpec {
    pub fn new(name: SpecName, optional: bool) -> (r: Self)
        ensures
            r.spec_meta_data == SpecMetaData::new_spec(name, ValueType::U8Vec, optional),
    {
        AllBytesSpec { spec_meta_data: SpecMetaData::new(name, ValueType::U8Vec, optional) }
    }
}

impl Spec for OneOfSpec {
    open spec fn meta(&self) -> SpecMetaData {
        self.spec_meta_data
    }

    fn get_meta_data(&self) -> (r: &SpecMetaData) {
        &self.spec_meta_data
    }
}

impl ToSpecType for OneOfSpec {
    open spec fn spec_type_of(&self) -> SpecType {
        SpecType::Simple(self.spec_meta_data.name)
    }

    fn to_spec_type(&self) -> (r: SpecType) {
        SpecType::Simple(self.spec_meta_data.name.clone())
    }
}

impl SimpleValueSpec for OneOfSpec {
}

impl StringSpec for OneOfSpec {
}

impl DelimitedSpec for OneOfSpec {
    open spec fn node_with(self, delimiter: Separator) -> SpecNode {
        SpecNode::OneOf(OneOfSpec { until: delimiter, ..self })
    }

    fn into_node_with(self, delimiter: Separator) -> (r: SpecNode) {
        let mut s = self;
        s.until = delimiter;
        SpecNode::OneOf(s)
    }

    fn set_delimiter(&mut self, delimiter: Separator)
        ensures
            final(self).until == delimiter,
            final(self).values == old(self).values,
            final(self).spec_meta_data == old(self).spec_meta_data,
    {
        self.until = delimiter;
    }

    fn get_delimiter(&self) -> (r: &Separator)
        ensures
            *r == self.until,
    {
        &self.until
    }
}

impl OneOfSpec {
    pub fn new(name: SpecName, optional: bool, values: Vec<String>) -> (r: Self)
        ensures
            r.spec_meta_data == SpecMetaData::new_spec(name, ValueType::String, optional),
            r.values == values,
            r.until == Separator::EndOfStream,
    {
        OneOfSpec {
            spec_meta_data: SpecMetaData::new(name, ValueType::String, optional),
            values,
            until: Separator::EndOfStream,
        }
    }

    pub fn add_value(&mut self, value: String)
        ensures
            final(self).values@ == old(self).values@.push(value),
            final(self).until == old(self).until,
            final(self).spec_meta_data == old(self).spec_meta_data,
    {
        self.values.push(value);
    }

    pub fn set_delimiter(&mut self, delimiter: Separator)
        ensures
            final(self).until == delimiter,
            final(self).values == old(self).values,
            final(self).spec_meta_data == old(self).spec_meta_data,
    {
        self.until = delimiter;
    }

    pub fn get_values(&self) -> (r: &Vec<String>)
        ensures
            *r == self.values,
    {
        &self.values
    }
}

impl ListSpec {
    pub fn new(name: SpecName, value_type: ValueType, optional: bool) -> (r: Self)
        ensures
            r.spec_meta_data == SpecMetaData::new_spec(name, value_type, optional),
            r.constituents@ == Seq::<SpecNode>::empty(),
    {
        ListSpec { spec_meta_data: SpecMetaData::new(name, value_type, optional), constituents: Vec::new() }
    }

    pub fn add_spec(&mut self, constituent: SpecNode)
        ensures
            final(self).constituents@ == old(self).constituents@.push(constituent),
            final(self).spec_meta_data == old(self).spec_meta_data,
    {
        self.constituents.push(constituent);
    }
}

impl KeyValueSpec {
    pub fn new(key: Key, value: ValueSpec, spec_metadata: SpecMetaData) -> (r: Self)
        ensures
            r.key == key,
            r.value == value,
            r.spec_metadata == spec_metadata,
    {
        KeyValueSpec { spec_metadata, key, value }
    }
}

impl Spec for KeyValueSpec {
    open spec fn meta(&self) -> SpecMetaData {
        self.spec_metadata
    }

    fn get_meta_data(&self) -> (r: &SpecMetaData) {
        &self.spec_metadata
    }
}

/// Marker trait that specifies super trait bounds for Serialiable Spec
pub trait SerializableSpec: Spec + SpecSerialize + SpecDeserialize + ToSpecType {
}

/// Marker trait that specifies super trait bounds for Mappable Spec
pub trait MappableSpec: Spec + SpecTraverse + SpecMapper + ToSpecType {
}

/// Marker trait that specifies super trait bounds for Protocol Spec(Any Serializable and Mappable Spec)
pub trait ProtocolSpec: SerializableSpec + MappableSpec {
}

impl SerializableSpec for SpecNode {
}

impl MappableSpec for SpecNode {
}

impl ProtocolSpec for SpecNode {
}

impl SerializableSpec for ListSpec {
}

impl MappableSpec for ListSpec {
}

impl ProtocolSpec for ListSpec {
}

impl Spec for NumberU64Spec {
    open spec fn meta(&self) -> SpecMetaData {
        self.0
    }

    fn get_meta_data(&self) -> (r: &SpecMetaData) {
        &self.0
    }
}

impl Spec for NumberI64Spec {
    open spec fn meta(&self) -> SpecMetaData {
        self.0
    }

    fn get_meta_data(&self) -> (r: &SpecMetaData) {
        &self.0
    }
}

impl Spec for NumberU32Spec {
    open spec fn meta(&self) -> SpecMetaData {
        self.0
    }

    fn get_meta_data(&self) -> (r: &SpecMetaData) {
        &self.0
    }
}

impl Spec for NumberU16Spec {
    open spec fn meta(&self) -> SpecMetaData {
        self.0
    }

    fn get_meta_data(&self) -> (r: &SpecMetaData) {
        &self.0
    }
}

impl Spec for NumberI16Spec {
    open spec fn meta(&self) -> SpecMetaData {
        self.0
    }

    fn get_meta_data(&self) -> (r: &SpecMetaData) {
        &self.0
    }
}

impl Spec for BodySpec {
    open spec fn meta(&self) -> SpecMetaData {
        self.spec_meta_data
    }

    fn get_meta_data(&self) -> (r: &SpecMetaData) {
        &self.spec_meta_data
    }
}

impl ToSpecType for InlineKeyWithValue {
    open spec fn spec_type_of(&self) -> SpecType {
        SpecType::Simple(self.1.name)
    }

    fn to_spec_type(&self) -> (r: SpecType) {
        SpecType::Simple(self.1.name.clone())
    }
}

impl ToSpecType for KeyValueSpec {
    open spec fn spec_type_of(&self) -> SpecType {
        SpecType::Simple(self.spec_metadata.name)
    }

    fn to_spec_type(&self) -> (r: SpecType) {
        SpecType::Simple(self.spec_metadata.name.clone())
    }
}

impl Default for ListSpec {
    fn default() -> (r: Self)
        ensures
            r.spec_meta_data == SpecMetaData::new_spec(SpecName::NoName, ValueType::NoValue, false),
            r.constituents@ == Seq::<SpecNode>::empty(),
    {
        ListSpec::new(SpecName::NoName, ValueType::NoValue, false)
    }
}

impl Default for DelimitedStringSpec {
    fn default() -> (r: Self)
        ensures
            r.spec_meta_data == SpecMetaData::new_spec(SpecName::NoName, ValueType::NoValue, false),
            r.until == Separator::EndOfStream,
    {
        DelimitedStringSpec {
            spec_meta_data: SpecMetaData::new(SpecName::NoName, ValueType::NoValue, false),
            until: Separator::EndOfStream,
        }
    }
}

impl Default for OneOfSpec {
    fn default() -> (r: Self)
        ensures
            r.spec_meta_data == SpecMetaData::new_spec(SpecName::NoName, ValueType::NoValue, false),
            r.values@ == Seq::<String>::empty(),
            r.until == Separator::EndOfStream,
    {
        OneOfSpec {
            spec_meta_data: SpecMetaData::new(SpecName::NoName, ValueType::NoValue, false),
            values: Vec::new(),
            until: Separator::EndOfStream,
        }
    }
}

} // verus!
