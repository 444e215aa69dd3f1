//! Module to build type safe DSL style builders required to form the protocol spec.
//! Each builder state allows the steps that make sense after it: a key must be
//! followed by its value, a string by its delimiter.
use core::marker::PhantomData;
use vstd::prelude::*;

use crate::names::{RepeatCount, Separator, SpecMetaData, SpecName, SpecNameView};
use crate::spec::{
    DelimitedSpec, DelimitedStringSpec, ExactStringSpec, InlineKeyWithValue, Key, KeyValueSpec, ListSpec,
    NumberI16Spec, NumberI64Spec, NumberU16Spec, NumberU32Spec, NumberU64Spec, OneOfSpec, RepeatManySpec,
    SpecNode, ValueSpec,
};
use crate::value::ValueType;

verus! {

/// trait represents the current state of the builder
pub trait BuilderState: Sized {
    /// The state a builder starts in.
    fn initial() -> Self;
}

/// trait represents the current state of the string builder
pub trait BuildGenericString: BuilderState {
}

/// struct to represent the initial state of builder and a stating start for moving to other states
pub struct BuildFromScratch {}

/// struct to represent the initial state to produce KeyValueSpec i.e building the key
pub struct BuildKey {
    pub key_spec_metadata: SpecMetaData,
}

/// struct to represent KeyValue Spec state where key is already specified and available
pub struct BuildKeyAvailable {
    pub key: Key,
}

/// struct to represent KeyValue Spec state where Value is ready to be built
pub struct BuildValue {
    pub key: Key,
    pub value_spec_metadata: SpecMetaData,
}

/// struct to represent state which allows building InlineKeyValue Spec.
pub struct BuildInlineValue {
    pub value_spec_metadata: SpecMetaData,
}

/// struct to represent state which allows building DelimitedStringSpec.
pub struct BuildDelimiter<D, B> {
    pub delimiter_spec: D,
    pub parent_builder_state: B,
}

impl BuilderState for BuildFromScratch {
    fn initial() -> (r: Self) {
        BuildFromScratch {}
    }
}

impl BuildGenericString for BuildFromScratch {
}

impl BuilderState for BuildKey {
    fn initial() -> (r: Self)
        ensures
            r.key_spec_metadata == SpecMetaData::new_spec(SpecName::NoName, ValueType::NoValue, false),
    {
        BuildKey { key_spec_metadata: SpecMetaData::new(SpecName::NoName, ValueType::NoValue, false) }
    }
}

impl BuilderState for BuildInlineValue {
    fn initial() -> (r: Self)
        ensures
            r.value_spec_metadata == SpecMetaData::new_spec(SpecName::NoName, ValueType::NoValue, false),
    {
        BuildInlineValue { value_spec_metadata: SpecMetaData::new(SpecName::NoName, ValueType::NoValue, false) }
    }
}

/// The key a builder state starts with: unnamed text up to the end of the
/// stream, with unnamed mandatory metadata.
pub open spec fn default_key_spec() -> Key {
    Key(
        Box::new(SpecNode::DelimitedString(DelimitedStringSpec {
            spec_meta_data: SpecMetaData::new_spec(SpecName::NoName, ValueType::NoValue, false),
            until: Separator::EndOfStream,
        })),
        SpecMetaData::new_spec(SpecName::NoName, ValueType::NoValue, false),
    )
}

/// A key that reads text up to the end of the stream, with default metadata.
fn default_key() -> (r: Key)
    ensures
        r == default_key_spec(),
{
    Key(Box::new(SpecNode::DelimitedString(DelimitedStringSpec::default())), SpecMetaData::new(SpecName::NoName, ValueType::NoValue, false))
}

impl BuilderState for BuildKeyAvailable {
    fn initial() -> (r: Self)
        ensures
            r.key == default_key_spec(),
    {
        BuildKeyAvailable { key: default_key() }
    }
}

impl BuilderState for BuildValue {
    fn initial() -> (r: Self)
        ensures
            r.key == default_key_spec(),
            r.value_spec_metadata == SpecMetaData::new_spec(SpecName::NoName, ValueType::NoValue, false),
    {
        BuildValue { key: default_key(), value_spec_metadata: SpecMetaData::new(SpecName::NoName, ValueType::NoValue, false) }
    }
}

impl<D: DelimitedSpec + Default, B: BuilderState> BuilderState for BuildDelimiter<D, B> {
    /// A default delimited spec, over the initial state of the parent builder.
    fn initial() -> (r: Self)
        ensures
            call_ensures(D::default, (), r.delimiter_spec),
            call_ensures(B::initial, (), r.parent_builder_state),
    {
        BuildDelimiter { delimiter_spec: D::default(), parent_builder_state: B::initial() }
    }
}

/// Struct that implements implementing ProtoSpecBuilder
pub struct ProtoSpecBuilderData<S> {
    ///  ListSpec that contains Specs added by builder
    composite_spec: ListSpec,
    ///Current Spec Builder state
    state: S,
}

/// Wrapper that contains another ProtoSpecBuilder and some arbitrary intermediate data
pub struct BuilderWrapperWithData<B, D, BS>(pub B, pub D, pub PhantomData<BS>);

///Wrapper that contains another ProtoSpecBuilder
pub struct BuilderWrapper<B, BS>(pub B, pub PhantomData<BS>);

impl<S> ProtoSpecBuilderData<S> {
    /// The list spec built so far.
    pub closed spec fn composite(&self) -> ListSpec {
        self.composite_spec
    }

    /// The state of the builder.
    pub closed spec fn current_state(&self) -> S {
        self.state
    }

    pub fn new_with_state(state: S, name: SpecName, optional: bool) -> (r: Self)
        ensures
            r.composite().spec_meta_data == SpecMetaData::new_spec(name, ValueType::NoValue, optional),
            r.composite().constituents@ == Seq::<SpecNode>::empty(),
            r.current_state() == state,
    {
        ProtoSpecBuilderData { composite_spec: ListSpec::new(name, ValueType::NoValue, optional), state }
    }

    /// The builder with `spec` added to the list.
    fn with_spec(self, spec: SpecNode) -> (r: Self)
        ensures
            r.composite().spec_meta_data == self.composite().spec_meta_data,
            r.composite().constituents@ == self.composite().constituents@.push(spec),
            r.current_state() == self.current_state(),
    {
        let mut b = self;
        b.composite_spec.add_spec(spec);
        b
    }

    /// The builder moved to `state`, with the same list.
    fn moved_to<T>(self, state: T) -> (r: ProtoSpecBuilderData<T>)
        ensures
            r.composite() == self.composite(),
            r.current_state() == state,
    {
        ProtoSpecBuilderData { composite_spec: self.composite_spec, state }
    }

    /// The builder taken apart: its list and its state.
    fn into_parts(self) -> (r: (ListSpec, S))
        ensures
            r.0 == self.composite(),
            r.1 == self.current_state(),
    {
        (self.composite_spec, self.state)
    }
}

impl<S: BuilderState> ProtoSpecBuilderData<S> {
    pub fn new() -> (r: Self)
        ensures
            r.composite().spec_meta_data.name@ == SpecNameView::Name("Default"@),
            r.composite().spec_meta_data.value_type == ValueType::NoValue,
            r.composite().spec_meta_data.optional,
            r.composite().constituents@ == Seq::<SpecNode>::empty(),
    {
        ProtoSpecBuilderData::new_with_state(S::initial(), SpecName::Name(String::from_str("Default")), true)
    }

    pub fn new_with(name: SpecName, optional: bool) -> (r: Self)
        ensures
            r.composite().spec_meta_data == SpecMetaData::new_spec(name, ValueType::NoValue, optional),
            r.composite().constituents@ == Seq::<SpecNode>::empty(),
    {
        ProtoSpecBuilderData::new_with_state(S::initial(), name, optional)
    }

    pub fn new_from_scratch(name: SpecName, optional: bool) -> (r: ProtoSpecBuilderData<BuildFromScratch>)
        ensures
            r.composite().spec_meta_data == SpecMetaData::new_spec(name, ValueType::NoValue, optional),
            r.composite().constituents@ == Seq::<SpecNode>::empty(),
    {
        ProtoSpecBuilderData::new_with_state(BuildFromScratch {}, name, optional)
    }
}

/// A builder of specs that starts from scratch, whose list is optional.
pub fn new_spec_builder(name: SpecName) -> (r: ProtoSpecBuilderData<BuildFromScratch>)
    ensures
        r.composite().spec_meta_data == SpecMetaData::new_spec(name, ValueType::NoValue, true),
        r.composite().constituents@ == Seq::<SpecNode>::empty(),
{
    ProtoSpecBuilderData::<BuildFromScratch>::new_with(name, true)
}

/// A builder of specs that starts from scratch, whose list is mandatory.
pub fn new_mandatory_spec_builder(name: SpecName) -> (r: ProtoSpecBuilderData<BuildFromScratch>)
    ensures
        r.composite().spec_meta_data == SpecMetaData::new_spec(name, ValueType::NoValue, false),
        r.composite().constituents@ == Seq::<SpecNode>::empty(),
{
    ProtoSpecBuilderData::<BuildFromScratch>::new_with(name, false)
}

//Proto Spec Builder with current state as generic parameter
pub trait ProtoSpecBuilder<S>: Sized {
    fn build(self) -> ListSpec;

    fn add_spec(&mut self, spec: SpecNode);

    fn set_state(&mut self, s: S);

    fn set_spec(&mut self, composite_spec: ListSpec);

    fn wrap_with_data<D>(self, data: D) -> BuilderWrapperWithData<Self, D, S>;

    fn wrap(self) -> BuilderWrapper<Self, S>;
}

impl<S> ProtoSpecBuilder<S> for ProtoSpecBuilderData<S> {
    fn build(self) -> (r: ListSpec)
        ensures
            r == self.composite(),
    {
        self.composite_spec
    }

    fn add_spec(&mut self, spec: SpecNode)
        ensures
            final(self).composite().spec_meta_data == old(self).composite().spec_meta_data,
            final(self).composite().constituents@ == old(self).composite().constituents@.push(spec),
            final(self).current_state() == old(self).current_state(),
    {
        self.composite_spec.add_spec(spec);
    }

    fn set_state(&mut self, s: S)
        ensures
            final(self).composite() == old(self).composite(),
            final(self).current_state() == s,
    {
        self.state = s;
    }

    fn set_spec(&mut self, composite_spec: ListSpec)
        ensures
            final(self).composite() == composite_spec,
            final(self).current_state() == old(self).current_state(),
    {
        self.composite_spec = composite_spec;
    }

    fn wrap_with_data<D>(self, data: D) -> (r: BuilderWrapperWithData<Self, D, S>)
        ensures
            r.0 == self,
            r.1 == data,
    {
        BuilderWrapperWithData(self, data, PhantomData)
    }

    fn wrap(self) -> (r: BuilderWrapper<Self, S>)
        ensures
            r.0 == self,
    {
        BuilderWrapper(self, PhantomData)
    }
}

/// The metadata of a spec of `value_type` named `name`.
pub open spec fn meta_of(name: SpecName, value_type: ValueType, optional: bool) -> SpecMetaData {
    SpecMetaData::new_spec(name, value_type, optional)
}

//Generators
///Creates various types of number spec e.g NumberU16Spec, NumberI16Spec
pub trait NumberSpecGenerator {
    fn get_u16_spec(&self, name: SpecName, optional: bool) -> (r: NumberU16Spec)
        ensures
            r.0 == meta_of(name, ValueType::UnSignedNumber16, optional),
    {
        NumberU16Spec(SpecMetaData::new(name, ValueType::UnSignedNumber16, optional))
    }

    fn get_u32_spec(&self, name: SpecName, optional: bool) -> (r: NumberU32Spec)
        ensures
            r.0 == meta_of(name, ValueType::UnSignedNumber32, optional),
    {
        NumberU32Spec(SpecMetaData::new(name, ValueType::UnSignedNumber32, optional))
    }

    fn get_u64_spec(&self, name: SpecName, optional: bool) -> (r: NumberU64Spec)
        ensures
            r.0 == meta_of(name, ValueType::UnSignedNumber64, optional),
    {
        NumberU64Spec(SpecMetaData::new(name, ValueType::UnSignedNumber64, optional))
    }

    fn get_i16_spec(&self, name: SpecName, optional: bool) -> (r: NumberI16Spec)
        ensures
            r.0 == meta_of(name, ValueType::SignedNumber16, optional),
    {
        NumberI16Spec(SpecMetaData::new(name, ValueType::SignedNumber16, optional))
    }

    fn get_i64_spec(&self, name: SpecName, optional: bool) -> (r: NumberI64Spec)
        ensures
            r.0 == meta_of(name, ValueType::SignedNumber64, optional),
    {
        NumberI64Spec(SpecMetaData::new(name, ValueType::SignedNumber64, optional))
    }
}

/// Creates String spec e.g DelimitedStringSpec
pub trait StringSpecGenerator {
    fn get_string_spec(&self, name: SpecName, optional: bool) -> (r: DelimitedStringSpec)
        ensures
            r.spec_meta_data == meta_of(name, ValueType::String, optional),
            r.until == Separator::EndOfStream,
    {
        DelimitedStringSpec {
            spec_meta_data: SpecMetaData::new(name, ValueType::String, optional),
            until: Separator::EndOfStream,
        }
    }
}

/// Marks builders that can start a key.
pub trait KeySpecGenerator {
}

impl<S> StringSpecGenerator for ProtoSpecBuilderData<S> {
}

impl KeySpecGenerator for ProtoSpecBuilderData<BuildFromScratch> {
}

impl<S> NumberSpecGenerator for ProtoSpecBuilderData<S> {
}

/// The text of a delimiter separator.
pub open spec fn delimiter_text(sep: Separator) -> Option<Seq<char>> {
    match sep {
        Separator::Delimiter(d) => Some(d@),
        _ => None,
    }
}

/// trait that allows adding delimiters
pub trait DelimiterGenerator {
    fn get_newline(&self) -> (r: Separator)
        ensures
            delimiter_text(r) == Some("\r\n"@),
    {
        Separator::Delimiter(String::from_str("\r\n"))
    }

    fn get_delimiter(&self, delimiter: String) -> (r: Separator)
        ensures
            r == Separator::Delimiter(delimiter),
    {
        Separator::Delimiter(delimiter)
    }

    fn get_space(&self) -> (r: Separator)
        ensures
            delimiter_text(r) == Some(" "@),
    {
        Separator::Delimiter(String::from_str(" "))
    }
}

impl<S> DelimiterGenerator for ProtoSpecBuilderData<S> {
}

/// The metadata of the key-value spec made of a key and a value: named
/// `key-value-spec`, optional as its key is.
pub open spec fn key_value_meta(m: SpecMetaData, key: Key, transient: bool) -> bool {
    &&& m.value_type == ValueType::NoValue
    &&& m.optional == key.1.optional
    &&& if transient {
        m.name matches SpecName::Transient(t) && t@ == "key-value-spec"@
    } else {
        m.name matches SpecName::Name(t) && t@ == "key-value-spec"@
    }
}

/// The builder `r` is `b` with `spec` added, in the state `BuildFromScratch`.
pub open spec fn added<S>(r: ProtoSpecBuilderData<BuildFromScratch>, b: ProtoSpecBuilderData<S>, spec: SpecNode) -> bool {
    &&& r.composite().spec_meta_data == b.composite().spec_meta_data
    &&& r.composite().constituents@ == b.composite().constituents@.push(spec)
}

/// The builder `r` is `b` with a key-value spec of `key`, and of a value
/// `value` with metadata `value_meta`, added.
pub open spec fn key_value_added_to<S>(
    r: ProtoSpecBuilderData<BuildFromScratch>,
    b: ProtoSpecBuilderData<S>,
    key: Key,
    value: SpecNode,
    value_meta: SpecMetaData,
    transient: bool,
) -> bool {
    &&& r.composite().spec_meta_data == b.composite().spec_meta_data
    &&& r.composite().constituents@.len() == b.composite().constituents@.len() + 1
    &&& r.composite().constituents@.drop_last() == b.composite().constituents@
    &&& r.composite().constituents@.last() matches SpecNode::KeyValue(kv)
        && kv.key == key
        && kv.value == ValueSpec(Box::new(value), value_meta)
        && key_value_meta(kv.spec_metadata, key, transient)
}

/// Adds a key-value spec to a builder.
fn add_key_value<S>(
    b: ProtoSpecBuilderData<S>,
    key: Key,
    value: SpecNode,
    value_meta: SpecMetaData,
    transient: bool,
) -> (r: ProtoSpecBuilderData<BuildFromScratch>)
    ensures
        key_value_added_to(r, b, key, value, value_meta, transient),
{
    let ghost b0 = b;
    let optional = key.1.optional;
    let text = String::from_str("key-value-spec");
    let name = if transient { SpecName::Transient(text) } else { SpecName::Name(text) };
    let key_value = KeyValueSpec::new(key, ValueSpec(Box::new(value), value_meta), SpecMetaData::new(name, ValueType::NoValue, optional));
    let r = b.with_spec(SpecNode::KeyValue(key_value)).moved_to(BuildFromScratch {});
    proof {
        assert(r.composite().constituents@.drop_last() =~= b0.composite().constituents@);
    }
    r
}

/// Build that allows custom spec to be added into the Spec tree
pub trait CustomSpecBuilder<IBS>: ProtoSpecBuilder<IBS> {
    fn use_spec(self, spec: SpecNode) -> Self;
}

impl CustomSpecBuilder<BuildFromScratch> for ProtoSpecBuilderData<BuildFromScratch> {
    fn use_spec(self, spec: SpecNode) -> (r: Self)
        ensures
            added(r, self, spec),
    {
        self.with_spec(spec)
    }
}

/// Builder of number specs.
pub trait NumberSpecBuilder<IBS, OBS>: NumberSpecGenerator + ProtoSpecBuilder<IBS> {
    fn expect_u16(self, name: SpecName, optional: bool) -> ProtoSpecBuilderData<OBS>;

    fn expect_u32(self, name: SpecName, optional: bool) -> ProtoSpecBuilderData<OBS>;

    fn expect_u64(self, name: SpecName, optional: bool) -> ProtoSpecBuilderData<OBS>;

    fn expect_i16(self, name: SpecName, optional: bool) -> ProtoSpecBuilderData<OBS>;

    fn expect_i64(self, name: SpecName, optional: bool) -> ProtoSpecBuilderData<OBS>;
}

impl NumberSpecBuilder<BuildValue, BuildFromScratch> for ProtoSpecBuilderData<BuildValue> {
    fn expect_u16(self, name: SpecName, optional: bool) -> (r: ProtoSpecBuilderData<BuildFromScratch>)
        ensures
            key_value_added_to(r, self, self.current_state().key,
                SpecNode::U16(NumberU16Spec(meta_of(name, ValueType::UnSignedNumber16, optional))),
                self.current_state().value_spec_metadata, true),
    {
        let spec = self.get_u16_spec(name, optional);
        let (list, state) = self.into_parts();
        add_key_value(ProtoSpecBuilderData { composite_spec: list, state: BuildFromScratch {} }, state.key, SpecNode::U16(spec), state.value_spec_metadata, true)
    }

    fn expect_u32(self, name: SpecName, optional: bool) -> (r: ProtoSpecBuilderData<BuildFromScratch>)
        ensures
            key_value_added_to(r, self, self.current_state().key,
                SpecNode::U32(NumberU32Spec(meta_of(name, ValueType::UnSignedNumber32, optional))),
                self.current_state().value_spec_metadata, true),
    {
        let spec = self.get_u32_spec(name, optional);
        let (list, state) = self.into_parts();
        add_key_value(ProtoSpecBuilderData { composite_spec: list, state: BuildFromScratch {} }, state.key, SpecNode::U32(spec), state.value_spec_metadata, true)
    }

    fn expect_u64(self, name: SpecName, optional: bool) -> (r: ProtoSpecBuilderData<BuildFromScratch>)
        ensures
            key_value_added_to(r, self, self.current_state().key,
                SpecNode::U64(NumberU64Spec(meta_of(name, ValueType::UnSignedNumber64, optional))),
                self.current_state().value_spec_metadata, true),
    {
        let spec = self.get_u64_spec(name, optional);
        let (list, state) = self.into_parts();
        add_key_value(ProtoSpecBuilderData { composite_spec: list, state: BuildFromScratch {} }, state.key, SpecNode::U64(spec), state.value_spec_metadata, true)
    }

    fn expect_i16(self, name: SpecName, optional: bool) -> (r: ProtoSpecBuilderData<BuildFromScratch>)
        ensures
            key_value_added_to(r, self, self.current_state().key,
                SpecNode::I16(NumberI16Spec(meta_of(name, ValueType::SignedNumber16, optional))),
                self.current_state().value_spec_metadata, true),
    {
        let spec = self.get_i16_spec(name, optional);
        let (list, state) = self.into_parts();
        add_key_value(ProtoSpecBuilderData { composite_spec: list, state: BuildFromScratch {} }, state.key, SpecNode::I16(spec), state.value_spec_metadata, true)
    }

    fn expect_i64(self, name: SpecName, optional: bool) -> (r: ProtoSpecBuilderData<BuildFromScratch>)
        ensures
            key_value_added_to(r, self, self.current_state().key,
                SpecNode::I64(NumberI64Spec(meta_of(name, ValueType::SignedNumber64, optional))),
                self.current_state().value_spec_metadata, true),
    {
        let spec = self.get_i64_spec(name, optional);
        let (list, state) = self.into_parts();
        add_key_value(ProtoSpecBuilderData { composite_spec: list, state: BuildFromScratch {} }, state.key, SpecNode::I64(spec), state.value_spec_metadata, true)
    }
}

/// Adds an inline key with value to a builder.
fn add_inline<S>(b: ProtoSpecBuilderData<S>, value: SpecNode, value_meta: SpecMetaData) -> (r: ProtoSpecBuilderData<BuildFromScratch>)
    ensures
        added(r, b, SpecNode::InlineKeyWithValue(InlineKeyWithValue(Box::new(value), value_meta))),
{
    b.with_spec(SpecNode::InlineKeyWithValue(InlineKeyWithValue(Box::new(value), value_meta))).moved_to(BuildFromScratch {})
}

impl NumberSpecBuilder<BuildInlineValue, BuildFromScratch> for ProtoSpecBuilderData<BuildInlineValue> {
    fn expect_u16(self, name: SpecName, optional: bool) -> (r: ProtoSpecBuilderData<BuildFromScratch>)
        ensures
            added(r, self, SpecNode::InlineKeyWithValue(InlineKeyWithValue(
                Box::new(SpecNode::U16(NumberU16Spec(meta_of(name, ValueType::UnSignedNumber16, optional)))),
                self.current_state().value_spec_metadata,
            ))),
    {
        let spec = self.get_u16_spec(name, optional);
        let meta = self.state.value_spec_metadata.clone();
        add_inline(self, SpecNode::U16(spec), meta)
    }

    fn expect_u32(self, name: SpecName, optional: bool) -> (r: ProtoSpecBuilderData<BuildFromScratch>)
        ensures
            added(r, self, SpecNode::InlineKeyWithValue(InlineKeyWithValue(
                Box::new(SpecNode::U32(NumberU32Spec(meta_of(name, ValueType::UnSignedNumber32, optional)))),
                self.current_state().value_spec_metadata,
            ))),
    {
        let spec = self.get_u32_spec(name, optional);
        let meta = self.state.value_spec_metadata.clone();
        add_inline(self, SpecNode::U32(spec), meta)
    }

    fn expect_u64(self, name: SpecName, optional: bool) -> (r: ProtoSpecBuilderData<BuildFromScratch>)
        ensures
            added(r, self, SpecNode::InlineKeyWithValue(InlineKeyWithValue(
                Box::new(SpecNode::U64(NumberU64Spec(meta_of(name, ValueType::UnSignedNumber64, optional)))),
                self.current_state().value_spec_metadata,
            ))),
    {
        let spec = self.get_u64_spec(name, optional);
        let meta = self.state.value_spec_metadata.clone();
        add_inline(self, SpecNode::U64(spec), meta)
    }

    fn expect_i16(self, name: SpecName, optional: bool) -> (r: ProtoSpecBuilderData<BuildFromScratch>)
        ensures
            added(r, self, SpecNode::InlineKeyWithValue(InlineKeyWithValue(
                Box::new(SpecNode::I16(NumberI16Spec(meta_of(name, ValueType::SignedNumber16, optional)))),
                self.current_state().value_spec_metadata,
            ))),
    {
        let spec = self.get_i16_spec(name, optional);
        let meta = self.state.value_spec_metadata.clone();
        add_inline(self, SpecNode::I16(spec), meta)
    }

    fn expect_i64(self, name: SpecName, optional: bool) -> (r: ProtoSpecBuilderData<BuildFromScratch>)
        ensures
            added(r, self, SpecNode::InlineKeyWithValue(InlineKeyWithValue(
                Box::new(SpecNode::I64(NumberI64Spec(meta_of(name, ValueType::SignedNumber64, optional)))),
                self.current_state().value_spec_metadata,
            ))),
    {
        let spec = self.get_i64_spec(name, optional);
        let meta = self.state.value_spec_metadata.clone();
        add_inline(self, SpecNode::I64(spec), meta)
    }
}

/// Builder of inline values: a value whose key is known from the spec.
pub trait InlineValueBuilder<IBS, OBS>: StringSpecGenerator + ProtoSpecBuilder<IBS> {
    fn inline_value_follows(self, key_name: SpecName, optional: bool) -> ProtoSpecBuilderData<OBS>;
}

impl InlineValueBuilder<BuildFromScratch, BuildInlineValue> for ProtoSpecBuilderData<BuildFromScratch> {
    fn inline_value_follows(self, key_name: SpecName, optional: bool) -> (r: ProtoSpecBuilderData<BuildInlineValue>)
        ensures
            r.composite() == self.composite(),
            r.current_state().value_spec_metadata == meta_of(key_name, ValueType::NoValue, optional),
    {
        self.moved_to(BuildInlineValue { value_spec_metadata: SpecMetaData::new(key_name, ValueType::NoValue, optional) })
    }
}

/// Builder of the value of a key-value spec.
pub trait ValueBuilder<IBS>: ProtoSpecBuilder<IBS> {
    fn value_follows(self, name: SpecName, optional: bool) -> ProtoSpecBuilderData<BuildValue>;
}

impl ValueBuilder<BuildKeyAvailable> for ProtoSpecBuilderData<BuildKeyAvailable> {
    fn value_follows(self, name: SpecName, optional: bool) -> (r: ProtoSpecBuilderData<BuildValue>)
        ensures
            r.composite() == self.composite(),
            r.current_state().key == self.current_state().key,
            r.current_state().value_spec_metadata == meta_of(name, ValueType::NoValue, optional),
    {
        let (list, state) = self.into_parts();
        ProtoSpecBuilderData {
            composite_spec: list,
            state: BuildValue { key: state.key, value_spec_metadata: SpecMetaData::new(name, ValueType::NoValue, optional) },
        }
    }
}

/// Trait that allows to adding ListSpec to Spec Builder
pub trait CompositeBuilder<IBS, OBS>: ProtoSpecBuilder<IBS> {
    fn expect_composite(self, spec: ListSpec) -> ProtoSpecBuilderData<OBS>;
}

impl CompositeBuilder<BuildFromScratch, BuildFromScratch> for ProtoSpecBuilderData<BuildFromScratch> {
    fn expect_composite(self, spec: ListSpec) -> (r: ProtoSpecBuilderData<BuildFromScratch>)
        ensures
            added(r, self, SpecNode::List(spec)),
    {
        self.with_spec(SpecNode::List(spec))
    }
}

/// Builder of repeats.
pub trait RepeatBuilder<IBS, OBS>: ProtoSpecBuilder<IBS> {
    fn repeat_many(self, name: SpecName, optional: bool, separator: Separator, spec: ListSpec) -> ProtoSpecBuilderData<OBS>;

    fn repeat_n_times(self, name: SpecName, optional: bool, number_of_times: u32, spec: ListSpec) -> ProtoSpecBuilderData<OBS>;
}

impl RepeatBuilder<BuildFromScratch, BuildFromScratch> for ProtoSpecBuilderData<BuildFromScratch> {
    fn repeat_many(self, name: SpecName, optional: bool, separator: Separator, spec: ListSpec) -> (r: ProtoSpecBuilderData<BuildFromScratch>)
        ensures
            added(r, self, SpecNode::RepeatMany(RepeatManySpec {
                spec_meta_data: meta_of(name, ValueType::NoValue, optional),
                repeat_count: RepeatCount::Delimited(separator),
                constituents: spec,
            })),
    {
        let repeat_spec = RepeatManySpec {
            spec_meta_data: SpecMetaData::new(name, ValueType::NoValue, optional),
            repeat_count: RepeatCount::Delimited(separator),
            constituents: spec,
        };
        self.with_spec(SpecNode::RepeatMany(repeat_spec))
    }

    fn repeat_n_times(self, name: SpecName, optional: bool, number_of_times: u32, spec: ListSpec) -> (r: ProtoSpecBuilderData<BuildFromScratch>)
        ensures
            added(r, self, SpecNode::RepeatMany(RepeatManySpec {
                spec_meta_data: meta_of(name, ValueType::NoValue, optional),
                repeat_count: RepeatCount::Fixed(number_of_times),
                constituents: spec,
            })),
    {
        let repeat_spec = RepeatManySpec {
            spec_meta_data: SpecMetaData::new(name, ValueType::NoValue, optional),
            repeat_count: RepeatCount::Fixed(number_of_times),
            constituents: spec,
        };
        self.with_spec(SpecNode::RepeatMany(repeat_spec))
    }
}

/// Moves a builder to the state where a delimited spec waits for its delimiter.
fn await_delimiter<D, S>(b: ProtoSpecBuilderData<S>, spec: D) -> (r: ProtoSpecBuilderData<BuildDelimiter<D, S>>)
    ensures
        r.composite() == b.composite(),
        r.current_state().delimiter_spec == spec,
        r.current_state().parent_builder_state == b.current_state(),
{
    let (list, state) = b.into_parts();
    ProtoSpecBuilderData { composite_spec: list, state: BuildDelimiter { delimiter_spec: spec, parent_builder_state: state } }
}

/// Trait that allows to adding delimited string spec to Spec Builder
pub trait DelimitedStringSpecBuilder<IBS>: StringSpecGenerator + ProtoSpecBuilder<IBS> {
    fn expect_string(self, name: SpecName, optional: bool) -> ProtoSpecBuilderData<BuildDelimiter<DelimitedStringSpec, IBS>>;

    fn expect_one_of_string(self, name: SpecName, optional: bool, options: Vec<String>) -> ProtoSpecBuilderData<BuildDelimiter<OneOfSpec, IBS>>;
}

impl<IBS: BuilderState> DelimitedStringSpecBuilder<IBS> for ProtoSpecBuilderData<IBS> {
    fn expect_string(self, name: SpecName, optional: bool) -> (r: ProtoSpecBuilderData<BuildDelimiter<DelimitedStringSpec, IBS>>)
        ensures
            r.composite() == self.composite(),
            r.current_state().parent_builder_state == self.current_state(),
            r.current_state().delimiter_spec.spec_meta_data == meta_of(name, ValueType::String, optional),
            r.current_state().delimiter_spec.until == Separator::EndOfStream,
    {
        let spec = self.get_string_spec(name, optional);
        await_delimiter(self, spec)
    }

    fn expect_one_of_string(self, name: SpecName, optional: bool, options: Vec<String>) -> (r: ProtoSpecBuilderData<BuildDelimiter<OneOfSpec, IBS>>)
        ensures
            r.composite() == self.composite(),
            r.current_state().parent_builder_state == self.current_state(),
            r.current_state().delimiter_spec.spec_meta_data == meta_of(name, ValueType::String, optional),
            r.current_state().delimiter_spec.values == options,
            r.current_state().delimiter_spec.until == Separator::EndOfStream,
    {
        let one_of_spec = OneOfSpec::new(name, optional, options);
        await_delimiter(self, one_of_spec)
    }
}

/// The exact string spec of `input` named `name`.
pub open spec fn exact_string(name: SpecName, input: String, optional: bool) -> SpecNode {
    SpecNode::ExactString(ExactStringSpec { input, spec_meta_data: meta_of(name, ValueType::String, optional) })
}

/// Trait that allows to adding known string spec to Spec Builder
pub trait StringSpecBuilder<IBS, OBS>: StringSpecGenerator + ProtoSpecBuilder<IBS> {
    /// Whether `r` is the builder after the exact string spec `spec` is taken.
    spec fn after_exact(self, spec: SpecNode, r: ProtoSpecBuilderData<OBS>) -> bool;

    fn expect_exact_string(self, name: SpecName, input: String, optional: bool) -> (r: ProtoSpecBuilderData<OBS>)
        ensures
            self.after_exact(exact_string(name, input, optional), r),
    ;

    fn expect_newline(self) -> (r: ProtoSpecBuilderData<OBS>)
        ensures
            exists|input: String| input@ == "\r\n"@ && self.after_exact(exact_string(SpecName::Delimiter, input, false), r),
    {
        let input = String::from_str("\r\n");
        let ghost i = input;
        let r = self.expect_exact_string(SpecName::Delimiter, input, false);
        assert(i@ == "\r\n"@ && self.after_exact(exact_string(SpecName::Delimiter, i, false), r));
        r
    }

    fn expect_space(self) -> (r: ProtoSpecBuilderData<OBS>)
        ensures
            exists|input: String| input@ == " "@ && self.after_exact(exact_string(SpecName::Delimiter, input, false), r),
    {
        let input = String::from_str(" ");
        let ghost i = input;
        let r = self.expect_exact_string(SpecName::Delimiter, input, false);
        assert(i@ == " "@ && self.after_exact(exact_string(SpecName::Delimiter, i, false), r));
        r
    }
}

impl StringSpecBuilder<BuildFromScratch, BuildFromScratch> for ProtoSpecBuilderData<BuildFromScratch> {
    open spec fn after_exact(self, spec: SpecNode, r: ProtoSpecBuilderData<BuildFromScratch>) -> bool {
        added(r, self, spec)
    }

    fn expect_exact_string(self, name: SpecName, input: String, optional: bool) -> (r: ProtoSpecBuilderData<BuildFromScratch>) {
        self.with_spec(SpecNode::ExactString(ExactStringSpec::new(name, input, optional)))
    }
}

impl StringSpecBuilder<BuildKey, BuildKeyAvailable> for ProtoSpecBuilderData<BuildKey> {
    open spec fn after_exact(self, spec: SpecNode, r: ProtoSpecBuilderData<BuildKeyAvailable>) -> bool {
        &&& r.composite() == self.composite()
        &&& r.current_state().key == Key(Box::new(spec), self.current_state().key_spec_metadata)
    }

    fn expect_exact_string(self, name: SpecName, input: String, optional: bool) -> (r: ProtoSpecBuilderData<BuildKeyAvailable>) {
        let spec = SpecNode::ExactString(ExactStringSpec::new(name, input, optional));
        let (list, state) = self.into_parts();
        ProtoSpecBuilderData { composite_spec: list, state: BuildKeyAvailable { key: Key(Box::new(spec), state.key_spec_metadata) } }
    }
}

impl StringSpecBuilder<BuildValue, BuildFromScratch> for ProtoSpecBuilderData<BuildValue> {
    open spec fn after_exact(self, spec: SpecNode, r: ProtoSpecBuilderData<BuildFromScratch>) -> bool {
        key_value_added_to(r, self, self.current_state().key, spec, self.current_state().value_spec_metadata, true)
    }

    fn expect_exact_string(self, name: SpecName, input: String, optional: bool) -> (r: ProtoSpecBuilderData<BuildFromScratch>) {
        let spec = SpecNode::ExactString(ExactStringSpec::new(name, input, optional));
        let (list, state) = self.into_parts();
        add_key_value(ProtoSpecBuilderData { composite_spec: list, state: BuildFromScratch {} }, state.key, spec, state.value_spec_metadata, true)
    }
}

impl StringSpecBuilder<BuildInlineValue, BuildFromScratch> for ProtoSpecBuilderData<BuildInlineValue> {
    open spec fn after_exact(self, spec: SpecNode, r: ProtoSpecBuilderData<BuildFromScratch>) -> bool {
        added(r, self, SpecNode::InlineKeyWithValue(InlineKeyWithValue(Box::new(spec), self.current_state().value_spec_metadata)))
    }

    fn expect_exact_string(self, name: SpecName, input: String, optional: bool) -> (r: ProtoSpecBuilderData<BuildFromScratch>) {
        let spec = SpecNode::ExactString(ExactStringSpec::new(name, input, optional));
        let meta = self.state.value_spec_metadata.clone();
        add_inline(self, spec, meta)
    }
}

/// Builder of keys.
pub trait KeySpecBuilder<IBS>: KeySpecGenerator + ProtoSpecBuilder<IBS> {
    fn key_follows(self, name: SpecName, optional: bool) -> ProtoSpecBuilderData<BuildKey>;
}

impl KeySpecBuilder<BuildFromScratch> for ProtoSpecBuilderData<BuildFromScratch> {
    fn key_follows(self, name: SpecName, optional: bool) -> (r: ProtoSpecBuilderData<BuildKey>)
        ensures
            r.composite() == self.composite(),
            r.current_state().key_spec_metadata == meta_of(name, ValueType::NoValue, optional),
    {
        self.moved_to(BuildKey { key_spec_metadata: SpecMetaData::new(name, ValueType::NoValue, optional) })
    }
}

/// DelimiterBuilder that allows adding delimiter for any input -> output state
/// IBS - Input Builder State
/// OBS - Output Builder State
/// D - DelimitedSpec implementation e.g DelimitedStringSpec or OneOfSpec
pub trait DelimiterBuilder<D, IBS, OBS>: ProtoSpecBuilder<BuildDelimiter<D, IBS>> + DelimiterGenerator {
    /// Whether `r` is the builder after the waiting spec took the delimiter `delimiter`.
    spec fn after_delimiter(self, delimiter: String, r: ProtoSpecBuilderData<OBS>) -> bool;

    fn create_delimiter(self, delimiter: String) -> (r: ProtoSpecBuilderData<OBS>)
        ensures
            self.after_delimiter(delimiter, r),
    ;

    fn delimited_by_newline(self) -> (r: ProtoSpecBuilderData<OBS>)
        ensures
            exists|d: String| d@ == "\r\n"@ && self.after_delimiter(d, r),
    {
        let d = String::from_str("\r\n");
        let ghost g = d;
        let r = self.create_delimiter(d);
        assert(g@ == "\r\n"@ && self.after_delimiter(g, r));
        r
    }

    fn delimited_by_space(self) -> (r: ProtoSpecBuilderData<OBS>)
        ensures
            exists|d: String| d@ == " "@ && self.after_delimiter(d, r),
    {
        let d = String::from_str(" ");
        let ghost g = d;
        let r = self.create_delimiter(d);
        assert(g@ == " "@ && self.after_delimiter(g, r));
        r
    }

    fn delimited_by(self, delimiter: String) -> (r: ProtoSpecBuilderData<OBS>)
        ensures
            self.after_delimiter(delimiter, r),
    {
        self.create_delimiter(delimiter)
    }
}

impl<D: DelimitedSpec> DelimiterBuilder<D, BuildFromScratch, BuildFromScratch> for ProtoSpecBuilderData<BuildDelimiter<D, BuildFromScratch>> {
    open spec fn after_delimiter(self, delimiter: String, r: ProtoSpecBuilderData<BuildFromScratch>) -> bool {
        added(r, self, self.current_state().delimiter_spec.node_with(Separator::Delimiter(delimiter)))
    }

    fn create_delimiter(self, delimiter: String) -> (r: ProtoSpecBuilderData<BuildFromScratch>) {
        let (list, state) = self.into_parts();
        let spec = state.delimiter_spec.into_node_with(Separator::Delimiter(delimiter));
        ProtoSpecBuilderData { composite_spec: list, state: BuildFromScratch {} }.with_spec(spec)
    }
}

impl<D: DelimitedSpec> DelimiterBuilder<D, BuildKey, BuildKeyAvailable> for ProtoSpecBuilderData<BuildDelimiter<D, BuildKey>> {
    open spec fn after_delimiter(self, delimiter: String, r: ProtoSpecBuilderData<BuildKeyAvailable>) -> bool {
        &&& r.composite() == self.composite()
        &&& r.current_state().key == Key(
            Box::new(self.current_state().delimiter_spec.node_with(Separator::Delimiter(delimiter))),
            self.current_state().parent_builder_state.key_spec_metadata,
        )
    }

    fn create_delimiter(self, delimiter: String) -> (r: ProtoSpecBuilderData<BuildKeyAvailable>) {
        let (list, state) = self.into_parts();
        let spec = state.delimiter_spec.into_node_with(Separator::Delimiter(delimiter));
        ProtoSpecBuilderData {
            composite_spec: list,
            state: BuildKeyAvailable { key: Key(Box::new(spec), state.parent_builder_state.key_spec_metadata) },
        }
    }
}

impl<D: DelimitedSpec> DelimiterBuilder<D, BuildValue, BuildFromScratch> for ProtoSpecBuilderData<BuildDelimiter<D, BuildValue>> {
    open spec fn after_delimiter(self, delimiter: String, r: ProtoSpecBuilderData<BuildFromScratch>) -> bool {
        key_value_added_to(
            r,
            self,
            self.current_state().parent_builder_state.key,
            self.current_state().delimiter_spec.node_with(Separator::Delimiter(delimiter)),
            self.current_state().parent_builder_state.value_spec_metadata,
            false,
        )
    }

    fn create_delimiter(self, delimiter: String) -> (r: ProtoSpecBuilderData<BuildFromScratch>) {
        let (list, state) = self.into_parts();
        let spec = state.delimiter_spec.into_node_with(Separator::Delimiter(delimiter));
        let parent = state.parent_builder_state;
        add_key_value(ProtoSpecBuilderData { composite_spec: list, state: BuildFromScratch {} }, parent.key, spec, parent.value_spec_metadata, false)
    }
}

impl<D: DelimitedSpec> DelimiterBuilder<D, BuildInlineValue, BuildFromScratch> for ProtoSpecBuilderData<BuildDelimiter<D, BuildInlineValue>> {
    open spec fn after_delimiter(self, delimiter: String, r: ProtoSpecBuilderData<BuildFromScratch>) -> bool {
        added(r, self, SpecNode::InlineKeyWithValue(InlineKeyWithValue(
            Box::new(self.current_state().delimiter_spec.node_with(Separator::Delimiter(delimiter))),
            self.current_state().parent_builder_state.value_spec_metadata,
        )))
    }

    fn create_delimiter(self, delimiter: String) -> (r: ProtoSpecBuilderData<BuildFromScratch>) {
        let (list, state) = self.into_parts();
        let spec = state.delimiter_spec.into_node_with(Separator::Delimiter(delimiter));
        add_inline(ProtoSpecBuilderData { composite_spec: list, state: BuildFromScratch {} }, spec, state.parent_builder_state.value_spec_metadata)
    }
}

} // verus!
