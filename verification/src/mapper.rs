//! The mapper: where deserialized values are stored by spec path, and the
//! templates that lead from protocol names to spec paths.
use vstd::prelude::*;
use vstd::hash_map::StringHashMap;
use vstd::string::*;

use crate::context::{context_of, get_context_from_qualified_name, normalize_repeater_with_count, normalized, MapperContext, RepeaterContext};
use crate::error::ParserError;
use crate::names::SpecType;
use crate::text::{concat2, concat3};
use crate::value::{Value, ValueView};

verus! {

/// Mathematical content of a mapper.
pub struct MapperView {
    /// key spec path of a repeated entry -> value spec path of that entry
    pub data: Map<Seq<char>, Seq<char>>,
    /// protocol name (or quick lookup path) -> spec path template
    pub template: Map<Seq<char>, Seq<char>>,
    /// spec path -> value
    pub spec_data: Map<Seq<char>, ValueView>,
    /// repeat context name -> number of entries added so far
    pub repeaters: Map<Seq<char>, u32>,
    /// stack of spec types currently entered
    pub types: Seq<SpecType>,
}

impl MapperView {
    pub open spec fn empty() -> MapperView {
        MapperView {
            data: Map::empty(),
            template: Map::empty(),
            spec_data: Map::empty(),
            repeaters: Map::empty(),
            types: Seq::empty(),
        }
    }

    pub open spec fn with_types(self, types: Seq<SpecType>) -> MapperView {
        MapperView { types, ..self }
    }
}

/// The value stored for the protocol name `name`: its template gives the spec
/// path under which the value was stored.
pub open spec fn value_by_key(m: MapperView, name: Seq<char>) -> Option<ValueView> {
    if m.template.contains_key(name) && m.spec_data.contains_key(m.template[name]) {
        Some(m.spec_data[m.template[name]])
    } else {
        None
    }
}

/// Quick lookup path of `key` in the key-value list whose key spec path is
/// `key_path`: `key_path.key`.
pub open spec fn quick_lookup(key_path: Seq<char>, key: Seq<char>) -> Seq<char> {
    key_path + "."@ + key
}

/// The value stored for `key` in the repeated key-value list whose keys are
/// found under the lookup name `spec_name`.
pub open spec fn value_from_key_value_list(m: MapperView, key: Seq<char>, spec_name: Seq<char>) -> Option<ValueView> {
    if m.template.contains_key(spec_name) {
        let q = quick_lookup(m.template[spec_name], key);
        if m.template.contains_key(q) && m.spec_data.contains_key(m.template[q]) {
            Some(m.spec_data[m.template[q]])
        } else {
            None
        }
    } else {
        None
    }
}

/// The mapper after storing `value` under the template of `key`, if there is one.
pub open spec fn simple_data_added(m: MapperView, key: Seq<char>, value: ValueView) -> Option<MapperView> {
    if m.template.contains_key(key) {
        Some(MapperView { spec_data: m.spec_data.insert(m.template[key], value), ..m })
    } else {
        None
    }
}

/// The number of entries added so far to the repeat context `name`.
pub open spec fn repeat_count_of(m: MapperView, name: Seq<char>) -> u32 {
    if m.repeaters.contains_key(name) {
        m.repeaters[name]
    } else {
        0
    }
}

/// One more than `n`, wrapping at `u32::MAX`.
pub open spec fn next_count(n: u32) -> u32 {
    if n == u32::MAX {
        0
    } else {
        (n + 1) as u32
    }
}

/// The mapper after adding the entry `key: value` to the repeated key-value
/// list whose key and value lookup names are `key_lookup` and `value_lookup`,
/// if both lookup names have templates.
pub open spec fn key_value_added(
    m: MapperView,
    key: Seq<char>,
    value: ValueView,
    key_lookup: Seq<char>,
    value_lookup: Seq<char>,
) -> Option<MapperView> {
    if m.template.contains_key(key_lookup) && m.template.contains_key(value_lookup) {
        let key_spec = m.template[key_lookup];
        let value_spec = m.template[value_lookup];
        let context = context_of(key_spec, key_lookup);
        let count = repeat_count_of(m, context);
        let key_path = normalized(key_spec, count);
        let value_path = normalized(value_spec, count);
        Some(MapperView {
            data: m.data.insert(key_path, value_path),
            template: m.template.insert(quick_lookup(key_spec, key), value_path),
            spec_data: m.spec_data.insert(key_path, ValueView::Text(key)).insert(value_path, value),
            repeaters: m.repeaters.insert(context, next_count(count)),
            types: m.types,
        })
    } else {
        None
    }
}

/// Contents of a map of strings, by view.
pub open spec fn text_map(m: Map<Seq<char>, String>) -> Map<Seq<char>, Seq<char>> {
    m.map_values(|s: String| s@)
}

/// Message of a failed template lookup.
fn missing_template_message(name: &str) -> (s: String)
    ensures
        s@ == "qualified lookup name missing in spec template for "@ + name@,
{
    concat2("qualified lookup name missing in spec template for ", name)
}

/// Message of a failed key lookup.
fn missing_key_message(name: &str) -> (s: String)
    ensures
        s@ == "template lookup failed for key "@ + name@,
{
    concat2("template lookup failed for key ", name)
}

///Mapper trait contains method to add and retrieve information from Mapper object
pub trait Mapper: Sized {
    /// Gets the Some(value) by `spec_name`. Returns None if the `spec_name` is not recognized
    fn get_value_by_key(&self, spec_name: &str) -> Option<&Value>;

    /// Gets the Some(value) by `spec_name` and key.This is used for querying information from RepeatMany key-value pairs
    fn get_value_from_key_value_list(&self, key: String, spec_name: &str) -> Option<&Value>;

    /// gets the context name(string) from lookup name
    fn get_context_from_lookup_name(&self, lookup_name: &str) -> Result<String, ParserError>;

    /// gets the qualified name(string) from lookup name
    fn get_qualified_name(&self, lookup_name: &str) -> Result<String, ParserError>;

    /// Add data into mapper using simple key and value
    fn add_simple_data(&mut self, key: String, value: Value) -> Result<(), ParserError>;

    /// Add data into mapper using key, key_lookup_name, value and value_lookup_name
    fn add_to_key_value_list(
        &mut self,
        key: String,
        value: Value,
        key_lookup_name: String,
        value_lookup_name: String,
    ) -> Result<(), ParserError>;

    /// add mapping template data, proto_name -> `protocol_version`, spec_name could be `$.request_line.protocol_version`
    fn add_mapping_template(&mut self, proto_name: String, spec_name: String);

    /// Gets the shared reference to hash map containing mapping template data
    fn get_mapping_data_template(&self) -> &StringHashMap<String>;

    /// Gets the shared reference to hash map containing mapping data
    fn get_mapping_data(&self) -> &StringHashMap<String>;

    /// Gets the shared reference to hash map containing spec data
    fn get_spec_data(&self) -> &StringHashMap<Value>;

    /// Gets the mutable reference to mapper context
    fn get_mapper_context_mut(&mut self) -> &mut MapperContext;

    /// Gets the shared reference to mapper context
    fn get_mapper_context(&self) -> &MapperContext;
}

/// The mapper used by the framework: hash maps keyed by protocol names and spec paths.
pub struct DefaultMapper {
    protocol_to_spec_field_map: StringHashMap<String>,
    protocol_to_spec_template_map: StringHashMap<String>,
    spec_data_map: StringHashMap<Value>,
    mapper_context: MapperContext,
    repeater_context_map: StringHashMap<RepeaterContext>,
}

impl View for DefaultMapper {
    type V = MapperView;

    closed spec fn view(&self) -> MapperView {
        MapperView {
            data: text_map(self.protocol_to_spec_field_map@),
            template: text_map(self.protocol_to_spec_template_map@),
            spec_data: self.spec_data_map@.map_values(|v: Value| v@),
            repeaters: self.repeater_context_map@.map_values(|c: RepeaterContext| c.count),
            types: self.mapper_context.types@,
        }
    }
}

impl DefaultMapper {
    pub fn new() -> (r: Self)
        ensures
            r@ == MapperView::empty(),
    {
        let r = DefaultMapper {
            protocol_to_spec_field_map: StringHashMap::new(),
            protocol_to_spec_template_map: StringHashMap::new(),
            spec_data_map: StringHashMap::new(),
            mapper_context: MapperContext::new(),
            repeater_context_map: StringHashMap::new(),
        };
        assert(r@.data =~= Map::empty());
        assert(r@.template =~= Map::empty());
        assert(r@.spec_data =~= Map::empty());
        assert(r@.repeaters =~= Map::empty());
        r
    }

    /// Value stored under a spec path.
    pub fn get_spec_value(&self, spec_path: &str) -> (r: Option<&Value>)
        ensures
            r is Some <==> self@.spec_data.contains_key(spec_path@),
            r matches Some(v) ==> v@ == self@.spec_data[spec_path@],
    {
        self.spec_data_map.get(spec_path)
    }

    /// Template stored for a protocol name or lookup path.
    pub fn get_template(&self, name: &str) -> (r: Option<&String>)
        ensures
            r is Some <==> self@.template.contains_key(name@),
            r matches Some(s) ==> s@ == self@.template[name@],
    {
        self.protocol_to_spec_template_map.get(name)
    }

    /// Stores a value under a spec path.
    pub fn insert_spec_value(&mut self, spec_path: String, value: Value)
        ensures
            final(self)@ == (MapperView { spec_data: old(self)@.spec_data.insert(spec_path@, value@), ..old(self)@ }),
    {
        self.spec_data_map.insert(spec_path, value);
        assert(self@.spec_data =~= old(self)@.spec_data.insert(spec_path@, value@));
    }

    /// Pushes a spec type onto the context.
    pub fn enter(&mut self, spec_type: SpecType)
        ensures
            final(self)@ == old(self)@.with_types(old(self)@.types.push(spec_type)),
    {
        self.mapper_context.start_spec_type(spec_type);
    }

    /// Removes the innermost spec type from the context.
    pub fn leave(&mut self)
        ensures
            final(self)@ == old(self)@.with_types(
                if old(self)@.types.len() > 0 { old(self)@.types.drop_last() } else { old(self)@.types },
            ),
    {
        self.mapper_context.end_current_spec();
    }

    /// Counts one more iteration of the innermost repeat of the context.
    pub fn next_repeat(&mut self)
        ensures
            final(self)@ == old(self)@.with_types(crate::context::incremented(old(self)@.types)),
    {
        self.mapper_context.increment_current_repeat_spec();
    }

    /// Path template of the context.
    pub fn current_path_template(&self) -> (s: String)
        ensures
            s@ == crate::context::path_template(self@.types),
    {
        self.mapper_context.get_current_spec_path_template()
    }

    /// Path of the context.
    pub fn current_path(&self) -> (s: String)
        ensures
            s@ == crate::context::path_of(self@.types),
    {
        self.mapper_context.get_current_spec_path()
    }

    /// Innermost name of the context.
    pub fn last_spec_name(&self) -> (r: Option<String>)
        ensures
            r is Some <==> crate::context::last_name(self@.types) is Some,
            r matches Some(s) ==> s@ == crate::context::last_name(self@.types).unwrap(),
    {
        self.mapper_context.get_last_available_spec_name()
    }
}

impl Default for DefaultMapper {
    fn default() -> (r: Self)
        ensures
            r@ == MapperView::empty(),
    {
        DefaultMapper::new()
    }
}

impl Mapper for DefaultMapper {
    fn get_value_by_key(&self, spec_name: &str) -> (r: Option<&Value>)
        ensures
            r is Some <==> value_by_key(self@, spec_name@) is Some,
            r matches Some(v) ==> v@ == value_by_key(self@, spec_name@).unwrap(),
    {
        match self.protocol_to_spec_template_map.get(spec_name) {
            Some(value_path) => self.spec_data_map.get(value_path.as_str()),
            None => None,
        }
    }

    fn get_value_from_key_value_list(&self, key: String, spec_name: &str) -> (r: Option<&Value>)
        ensures
            r is Some <==> value_from_key_value_list(self@, key@, spec_name@) is Some,
            r matches Some(v) ==> v@ == value_from_key_value_list(self@, key@, spec_name@).unwrap(),
    {
        match self.protocol_to_spec_template_map.get(spec_name) {
            Some(spec_path) => {
                proof {
                    reveal_strlit(".");
                }
                let quick = concat3(spec_path.as_str(), ".", key.as_str());
                match self.protocol_to_spec_template_map.get(quick.as_str()) {
                    Some(value_path) => self.spec_data_map.get(value_path.as_str()),
                    None => None,
                }
            },
            None => None,
        }
    }

    fn get_context_from_lookup_name(&self, lookup_name: &str) -> (r: Result<String, ParserError>)
        ensures
            r is Ok <==> self@.template.contains_key(lookup_name@),
            r matches Ok(s) ==> s@ == context_of(self@.template[lookup_name@], lookup_name@),
            r matches Err(e) ==> e is MissingData,
    {
        let qualified_name = self.get_qualified_name(lookup_name)?;
        Ok(get_context_from_qualified_name(qualified_name.as_str(), lookup_name))
    }

    fn get_qualified_name(&self, lookup_name: &str) -> (r: Result<String, ParserError>)
        ensures
            r is Ok <==> self@.template.contains_key(lookup_name@),
            r matches Ok(s) ==> s@ == self@.template[lookup_name@],
            r matches Err(e) ==> e is MissingData,
    {
        match self.protocol_to_spec_template_map.get(lookup_name) {
            Some(q) => Ok(q.clone()),
            None => Err(ParserError::MissingData(missing_template_message(lookup_name))),
        }
    }

    fn add_simple_data(&mut self, key: String, value: Value) -> (r: Result<(), ParserError>)
        ensures
            r is Ok <==> simple_data_added(old(self)@, key@, value@) is Some,
            r is Ok ==> final(self)@ == simple_data_added(old(self)@, key@, value@).unwrap(),
            r matches Err(e) ==> e is MissingKey && final(self)@ == old(self)@,
    {
        match self.protocol_to_spec_template_map.get(key.as_str()) {
            Some(template) => {
                let t = template.clone();
                self.spec_data_map.insert(t, value);
                assert(self@.spec_data =~= old(self)@.spec_data.insert(old(self)@.template[key@], value@));
                Ok(())
            },
            None => Err(ParserError::MissingKey(missing_key_message(key.as_str()))),
        }
    }

    fn add_to_key_value_list(
        &mut self,
        key: String,
        value: Value,
        key_lookup_name: String,
        value_lookup_name: String,
    ) -> (r: Result<(), ParserError>)
        ensures
            r is Ok <==> key_value_added(old(self)@, key@, value@, key_lookup_name@, value_lookup_name@) is Some,
            r is Ok ==> final(self)@ == key_value_added(
                old(self)@,
                key@,
                value@,
                key_lookup_name@,
                value_lookup_name@,
            ).unwrap(),
            r matches Err(e) ==> e is MissingData && final(self)@ == old(self)@,
    {
        let key_spec_name = self.get_qualified_name(key_lookup_name.as_str())?;
        let value_spec_name = self.get_qualified_name(value_lookup_name.as_str())?;
        let context_name = get_context_from_qualified_name(key_spec_name.as_str(), key_lookup_name.as_str());
        let count: u32 = match self.repeater_context_map.get(context_name.as_str()) {
            Some(c) => c.count,
            None => 0,
        };
        let normalized_key_spec_name = normalize_repeater_with_count(&key_spec_name, count);
        let normalized_value_spec_name = normalize_repeater_with_count(&value_spec_name, count);
        let mut repeater_context = RepeaterContext { count };
        repeater_context.next();
        self.repeater_context_map.insert(context_name, repeater_context);
        self.protocol_to_spec_field_map.insert(normalized_key_spec_name.clone(), normalized_value_spec_name.clone());
        self.spec_data_map.insert(normalized_key_spec_name, Value::String(key.clone()));
        self.spec_data_map.insert(normalized_value_spec_name.clone(), value);
        proof {
            reveal_strlit(".");
        }
        let key_quick_lookup_name = concat3(key_spec_name.as_str(), ".", key.as_str());
        self.protocol_to_spec_template_map.insert(key_quick_lookup_name, normalized_value_spec_name);
        proof {
            let ghost m = old(self)@;
            let ghost expected = key_value_added(m, key@, value@, key_lookup_name@, value_lookup_name@).unwrap();
            assert(self@.data =~= expected.data);
            assert(self@.template =~= expected.template);
            assert(self@.spec_data =~= expected.spec_data);
            assert(self@.repeaters =~= expected.repeaters);
        }
        Ok(())
    }

    fn add_mapping_template(&mut self, proto_name: String, spec_name: String)
        ensures
            final(self)@ == (MapperView { template: old(self)@.template.insert(proto_name@, spec_name@), ..old(self)@ }),
    {
        self.protocol_to_spec_template_map.insert(proto_name, spec_name);
        assert(self@.template =~= old(self)@.template.insert(proto_name@, spec_name@));
    }

    fn get_mapping_data_template(&self) -> (r: &StringHashMap<String>)
        ensures
            text_map(r@) == self@.template,
    {
        &self.protocol_to_spec_template_map
    }

    fn get_mapping_data(&self) -> (r: &StringHashMap<String>)
        ensures
            text_map(r@) == self@.data,
    {
        &self.protocol_to_spec_field_map
    }

    fn get_spec_data(&self) -> (r: &StringHashMap<Value>)
        ensures
            r@.map_values(|v: Value| v@) == self@.spec_data,
    {
        &self.spec_data_map
    }

    fn get_mapper_context_mut(&mut self) -> (r: &mut MapperContext)
        ensures
            r.types@ == old(self)@.types,
            final(self)@ == old(self)@.with_types(final(r).types@),
    {
        &mut self.mapper_context
    }

    fn get_mapper_context(&self) -> (r: &MapperContext)
        ensures
            r.types@ == self@.types,
    {
        &self.mapper_context
    }
}

/// A value added under a protocol name is what a lookup of that name gives back.
pub proof fn lemma_simple_data_read_back(m: MapperView, key: Seq<char>, value: ValueView)
    requires
        simple_data_added(m, key, value) is Some,
    ensures
        value_by_key(simple_data_added(m, key, value).unwrap(), key) == Some(value),
{
}

/// An entry added to a repeated key-value list is what a lookup of its key,
/// under the key lookup name, gives back, as long as the quick lookup path of
/// the new entry is not itself the key lookup name.
pub proof fn lemma_key_value_read_back(
    m: MapperView,
    key: Seq<char>,
    value: ValueView,
    key_lookup: Seq<char>,
    value_lookup: Seq<char>,
)
    requires
        key_value_added(m, key, value, key_lookup, value_lookup) is Some,
        quick_lookup(m.template[key_lookup], key) != key_lookup,
    ensures
        value_from_key_value_list(key_value_added(m, key, value, key_lookup, value_lookup).unwrap(), key, key_lookup)
            == Some(value),
{
}

/// The spec paths of the key and of the value of the next entry of the
/// repeated key-value list whose lookup names are `key_lookup` and `value_lookup`.
pub open spec fn next_entry_paths(m: MapperView, key_lookup: Seq<char>, value_lookup: Seq<char>) -> (Seq<char>, Seq<char>) {
    let key_spec = m.template[key_lookup];
    let count = repeat_count_of(m, context_of(key_spec, key_lookup));
    (normalized(key_spec, count), normalized(m.template[value_lookup], count))
}

/// Quick lookup paths of different keys in one list differ.
proof fn lemma_quick_lookup_injective(key_path: Seq<char>, a: Seq<char>, b: Seq<char>)
    requires
        a != b,
    ensures
        quick_lookup(key_path, a) != quick_lookup(key_path, b),
{
    let p = key_path + "."@;
    if quick_lookup(key_path, a) == quick_lookup(key_path, b) {
        assert((p + a).subrange(p.len() as int, (p + a).len() as int) =~= a);
        assert((p + b).subrange(p.len() as int, (p + b).len() as int) =~= b);
    }
}

/// Adding an entry to a repeated key-value list keeps what the other keys of
/// the list give back, as long as the quick lookup path of the new entry is
/// not the key lookup name itself and an earlier entry does not sit at the
/// spec paths of the new one.
pub proof fn lemma_key_value_keeps_others(
    m: MapperView,
    key: Seq<char>,
    value: ValueView,
    key_lookup: Seq<char>,
    value_lookup: Seq<char>,
    other: Seq<char>,
)
    requires
        key_value_added(m, key, value, key_lookup, value_lookup) is Some,
        other != key,
        quick_lookup(m.template[key_lookup], key) != key_lookup,
        m.template.contains_key(quick_lookup(m.template[key_lookup], other)) ==> {
            let p = m.template[quick_lookup(m.template[key_lookup], other)];
            &&& p != next_entry_paths(m, key_lookup, value_lookup).0
            &&& p != next_entry_paths(m, key_lookup, value_lookup).1
        },
    ensures
        value_from_key_value_list(key_value_added(m, key, value, key_lookup, value_lookup).unwrap(), other, key_lookup)
            == value_from_key_value_list(m, other, key_lookup),
{
    lemma_quick_lookup_injective(m.template[key_lookup], key, other);
}

/// A template added for a protocol name is the qualified name found for it.
pub proof fn lemma_template_read_back(m: MapperView, proto_name: Seq<char>, spec_name: Seq<char>)
    ensures
        (MapperView { template: m.template.insert(proto_name, spec_name), ..m }).template[proto_name] == spec_name,
{
}

} // verus!
