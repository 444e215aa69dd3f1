//! The items most protocol descriptions use, in one place.
pub use crate::builders::{
    new_mandatory_spec_builder, new_spec_builder, BuildFromScratch, CompositeBuilder, CustomSpecBuilder,
    DelimitedStringSpecBuilder, DelimiterBuilder, InlineValueBuilder, KeySpecBuilder, NumberSpecBuilder,
    ProtoSpecBuilder, ProtoSpecBuilderData, RepeatBuilder, StringSpecBuilder, ValueBuilder,
};
pub use crate::context::MapperContext;
pub use crate::deser::SpecDeserialize;
pub use crate::error::ParserError;
pub use crate::info::{InfoProvider, KeyRoute, RequestInfo, ResponseInfo};
pub use crate::mapper::{DefaultMapper, Mapper};
pub use crate::names::{Separator, SpecMetaData, SpecName, ToSpecType};
pub use crate::reader::SpecRead;
pub use crate::ser::SpecSerialize;
pub use crate::server::{
    DefaultSerializer, RequestErrorHandler, RequestFactory, RequestHandler, ResponseErrorHandler, ResponseFactory,
    ResponseHandler,
};
pub use crate::spec::{
    AllBytesSpec, DelimitedSpec, DelimitedStringSpec, ListSpec, NBytesSpec, NumberI16Spec, NumberI64Spec,
    NumberU16Spec, NumberU32Spec, NumberU64Spec, OneOfSpec, ProtocolSpec, RepeatManySpec, SimpleValueSpec, Spec,
    SpecNode,
};
pub use crate::traverse::{traverse_spec, SpecMapper, SpecTraverse};
pub use crate::value::{Value, ValueExtractor, ValueType};
pub use crate::writer::SpecWrite;
