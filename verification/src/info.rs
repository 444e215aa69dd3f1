//! Protocol information: what a request or a response holds, kept in a mapper.
use vstd::prelude::*;

use crate::context::MapperContext;
use crate::error::{ErrorKind, ParserError, kind_of};
use crate::mapper::{
    DefaultMapper, Mapper, MapperView, key_value_added, lemma_key_value_read_back,
    lemma_simple_data_read_back, quick_lookup, simple_data_added, value_by_key,
    value_from_key_value_list,
};
use crate::value::{Value, ValueView};

verus! {

/// What an optional value reference denotes.
pub open spec fn value_of(r: Option<&Value>) -> Option<ValueView> {
    match r {
        Some(v) => Some(v@),
        None => None,
    }
}

/// The value that the information `I` holds for the protocol name `key`.
pub open spec fn info_of<I: KeyRoute>(m: MapperView, key: Seq<char>) -> Option<ValueView> {
    match I::route(key) {
        None => value_by_key(m, key),
        Some((key_lookup, _value_lookup)) => value_from_key_value_list(m, key, key_lookup),
    }
}

/// The mapper of the information `I` after it took `value` for the protocol
/// name `key`, if it could.
pub open spec fn info_added<I: KeyRoute>(m: MapperView, key: Seq<char>, value: ValueView) -> Option<MapperView> {
    match I::route(key) {
        None => simple_data_added(m, key, value),
        Some((key_lookup, value_lookup)) => key_value_added(m, key, value, key_lookup, value_lookup),
    }
}

/// The error of information that could not take a value for `key`.
pub open spec fn info_refused<I: KeyRoute>(key: Seq<char>) -> ErrorKind {
    match I::route(key) {
        None => ErrorKind::MissingKey,
        Some(_) => ErrorKind::MissingData,
    }
}

/// Where information keeps the values of each protocol name.
pub trait KeyRoute {
    /// Where the values of the protocol name `key` are kept: `None` for a
    /// simple value, or the lookup names of the key and of the value of the
    /// repeated key-value list that holds it.
    spec fn route(key: Seq<char>) -> Option<(Seq<char>, Seq<char>)>;

    /// Where the values of the protocol name `key` are kept.
    fn key_route(&self, key: &str) -> (r: Option<(String, String)>)
        ensures
            r is None <==> Self::route(key@) is None,
            r matches Some(p) ==> Self::route(key@) == Some((p.0@, p.1@)),
    ;
}

/// The trait provides methods to get deserialized protocol data.
pub trait InfoProvider: KeyRoute + Sized {
    /// The mapper that holds the information.
    spec fn mapper_view(&self) -> MapperView;

    /// Gets mutable mapper reference
    fn get_mapper_mut(&mut self) -> (r: &mut DefaultMapper)
        ensures
            r@ == old(self).mapper_view(),
            final(self).mapper_view() == final(r)@,
    ;

    /// Gets shared mapper reference
    fn get_mapper(&self) -> (r: &DefaultMapper)
        ensures
            r@ == self.mapper_view(),
    ;

    /// Gets the data using key as lookup
    fn get_info(&self, key: &String) -> (r: Option<&Value>)
        ensures
            value_of(r) == info_of::<Self>(self.mapper_view(), key@),
    {
        match self.key_route(key.as_str()) {
            None => self.get_mapper().get_value_by_key(key.as_str()),
            Some((key_lookup, _value_lookup)) => self.get_mapper().get_value_from_key_value_list(
                key.clone(),
                key_lookup.as_str(),
            ),
        }
    }

    /// Gets the data using spec path as lookup
    fn get_info_by_spec_path(&self, spec_path: &String) -> (r: Option<&Value>)
        ensures
            r is Some <==> self.mapper_view().spec_data.contains_key(spec_path@),
            r matches Some(v) ==> v@ == self.mapper_view().spec_data[spec_path@],
    {
        self.get_mapper().get_spec_value(spec_path.as_str())
    }

    /// Gets the data using key and spec name. This is used when querying Keyvalue pair that is generated using RepeatMany Spec
    fn get_key_value_info_by_spec_name(&self, key: String, spec_name: &String) -> (r: Option<&Value>)
        ensures
            value_of(r) == value_from_key_value_list(self.mapper_view(), key@, spec_name@),
    {
        self.get_mapper().get_value_from_key_value_list(key, spec_name.as_str())
    }

    /// Adds simple key and a value
    fn add_info(&mut self, key: String, value: Value) -> (r: Result<(), ParserError>)
        ensures
            r is Ok <==> info_added::<Self>(old(self).mapper_view(), key@, value@) is Some,
            r is Ok ==> final(self).mapper_view() == info_added::<Self>(old(self).mapper_view(), key@, value@).unwrap(),
            r matches Err(e) ==> kind_of(e) == info_refused::<Self>(key@)
                && final(self).mapper_view() == old(self).mapper_view(),
    {
        match self.key_route(key.as_str()) {
            None => self.get_mapper_mut().add_simple_data(key, value),
            Some((key_lookup, value_lookup)) => self.get_mapper_mut().add_to_key_value_list(
                key,
                value,
                key_lookup,
                value_lookup,
            ),
        }
    }

    /// Adds info by using key, key spec name, value and value spec_name
    fn add_info_by_spec_path(&mut self, key: String, key_spec_name: String, value: Value, value_spec_name: String)
        ensures
            key_value_added(old(self).mapper_view(), key@, value@, key_spec_name@, value_spec_name@) is Some
                ==> final(self).mapper_view() == key_value_added(
                old(self).mapper_view(),
                key@,
                value@,
                key_spec_name@,
                value_spec_name@,
            ).unwrap(),
            key_value_added(old(self).mapper_view(), key@, value@, key_spec_name@, value_spec_name@) is None
                ==> final(self).mapper_view() == old(self).mapper_view(),
    {
        let _ = self.get_mapper_mut().add_to_key_value_list(key, value, key_spec_name, value_spec_name);
    }

    /// Gets mapper context
    fn get_mapper_context(&mut self) -> (r: &mut MapperContext)
        ensures
            r.types@ == old(self).mapper_view().types,
            final(self).mapper_view() == old(self).mapper_view().with_types(final(r).types@),
    {
        self.get_mapper_mut().get_mapper_context_mut()
    }
}

/// trait to represent protocol request information
pub trait RequestInfo: InfoProvider {
}

/// trait to represent protocol response information
pub trait ResponseInfo: InfoProvider {
    /// Whether the mapper `after` is `before` with the values every response starts with.
    spec fn defaults_added(before: MapperView, after: MapperView) -> bool;

    /// Whether the values every response starts with can be added to the mapper `before`.
    spec fn defaults_accepted(before: MapperView) -> bool;

    /// Adds the values every response starts with.
    fn add_defaults(&mut self) -> (r: Result<(), ParserError>)
        ensures
            r is Ok <==> Self::defaults_accepted(old(self).mapper_view()),
            r is Ok ==> Self::defaults_added(old(self).mapper_view(), final(self).mapper_view()),
    ;
}

/// What information takes for a protocol name is what it then gives back for
/// that name, as long as, for a name kept in a repeated key-value list, the
/// quick lookup path of the new entry is not the key lookup name itself.
pub proof fn lemma_info_read_back<I: InfoProvider>(m: MapperView, key: Seq<char>, value: ValueView)
    requires
        info_added::<I>(m, key, value) is Some,
        I::route(key) matches Some((key_lookup, _v)) ==> quick_lookup(m.template[key_lookup], key) != key_lookup,
    ensures
        info_of::<I>(info_added::<I>(m, key, value).unwrap(), key) == Some(value),
{
    match I::route(key) {
        None => {
            lemma_simple_data_read_back(m, key, value);
        },
        Some((key_lookup, value_lookup)) => {
            lemma_key_value_read_back(m, key, value, key_lookup, value_lookup);
        },
    }
}

} // verus!
