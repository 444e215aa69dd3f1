//! Traversal of a spec: the mapping templates that lead from the protocol
//! names of a spec to the paths where their values are kept.
use vstd::prelude::*;

use crate::context::{last_name, path_template};
use crate::deser::extract_name_and_spec_path;
use crate::error::{ErrorKind, ParserError, kind_of};
use crate::mapper::{DefaultMapper, Mapper, MapperView};
use crate::names::{same_spec_type, SpecType, ToSpecType};
use crate::spec::{KeyValueSpec, ListSpec, SpecNode, node_type};

verus! {

/// Outcome of a traversal: the kind of its error, if any, and the mapper after it.
pub type Traversed = (Option<ErrorKind>, MapperView);

/// The mapper after leaving the spec type `t`: an empty context stays as it
/// is, a context that ends with another type is an error.
pub open spec fn left_type(m: MapperView, t: SpecType) -> Traversed {
    if m.types.len() == 0 {
        (None, m)
    } else if same_spec_type(t@, m.types.last()@) {
        (None, m.with_types(m.types.drop_last()))
    } else {
        (Some(ErrorKind::InvalidMarker { line_index: 0, char_index: 0 }), m)
    }
}

/// The template a leaf spec adds: from the innermost name of the context to
/// the path template of the context.
pub open spec fn leaf_template(m: MapperView) -> MapperView {
    match last_name(m.types) {
        Some(k) => MapperView { template: m.template.insert(k, path_template(m.types)), ..m },
        None => m,
    }
}

/// The name found and the path template of the context with two spec types entered.
pub open spec fn extracted_template(types: Seq<SpecType>, outer: SpecType, inner: SpecType) -> (Option<Seq<char>>, Seq<char>) {
    (last_name(types.push(outer).push(inner)), path_template(types.push(outer).push(inner)))
}

/// The mapper with a template from `name`, when there is a name, to `path`.
pub open spec fn with_template(m: MapperView, name: Option<Seq<char>>, path: Seq<char>) -> MapperView {
    match name {
        Some(n) => MapperView { template: m.template.insert(n, path), ..m },
        None => m,
    }
}

/// The templates of a key-value spec: from the key's name to the key's path,
/// from the value's name to the value's path, and from the key's path to the
/// value's path.
pub open spec fn key_value_template(kv: KeyValueSpec, m: MapperView) -> MapperView {
    let (kn, kp) = extracted_template(m.types, SpecType::Simple(kv.key.1.name), node_type(*kv.key.0));
    let m1 = with_template(m, kn, kp);
    let (vn, vp) = extracted_template(m1.types, SpecType::Simple(kv.value.1.name), node_type(*kv.value.0));
    let m2 = with_template(m1, vn, vp);
    MapperView { template: m2.template.insert(kp, vp), ..m2 }
}

/// Traversing a spec: its type is entered, its templates added, and its type left.
pub open spec fn traversed(n: SpecNode, m: MapperView) -> Traversed
    decreases n, 1nat, 0nat,
{
    let t = node_type(n);
    let (e, m2) = templates_of(n, m.with_types(m.types.push(t)));
    match e {
        Some(k) => (Some(k), m2),
        None => left_type(m2, t),
    }
}

/// Traversing a list spec as a spec of its own.
pub open spec fn traversed_list(ls: ListSpec, m: MapperView) -> Traversed
    decreases ls, 1nat, 0nat,
{
    let t = SpecType::Simple(ls.spec_meta_data.name);
    let (e, m2) = list_templates_from(ls, 0, m.with_types(m.types.push(t)));
    match e {
        Some(k) => (Some(k), m2),
        None => left_type(m2, t),
    }
}

/// The templates of the constituents of a list from the `i`th on; the first
/// error ends the traversal.
pub open spec fn list_templates_from(ls: ListSpec, i: nat, m: MapperView) -> Traversed
    decreases ls, 0nat, ls.constituents@.len() - i,
{
    if i >= ls.constituents@.len() {
        (None, m)
    } else {
        let (e, m2) = traversed(ls.constituents@[i as int], m);
        match e {
            Some(k) => (Some(k), m2),
            None => list_templates_from(ls, i + 1, m2),
        }
    }
}

/// The templates a spec adds, its type being entered.
pub open spec fn templates_of(n: SpecNode, m: MapperView) -> Traversed
    decreases n, 0nat, 0nat,
{
    match n {
        SpecNode::InlineKeyWithValue(i) => traversed(*i.0, m),
        SpecNode::RepeatMany(rm) => traversed_list(rm.constituents, m),
        SpecNode::Value(v) => traversed(*v.0, m),
        SpecNode::Key(k) => traversed(*k.0, m),
        SpecNode::KeyValue(kv) => (None, key_value_template(kv, m)),
        SpecNode::List(ls) => list_templates_from(ls, 0, m),
        _ => (None, leaf_template(m)),
    }
}

/// Removes the spec type `t` from the context when it is the innermost one.
fn end_spec_type(mapper: &mut DefaultMapper, t: &SpecType) -> (r: Result<(), ParserError>)
    ensures
        ({
            let (e, m2) = left_type(old(mapper)@, *t);
            &&& r is Ok <==> e is None
            &&& r matches Err(x) ==> e == Some(kind_of(x))
            &&& final(mapper)@ == m2
        }),
{
    mapper.get_mapper_context_mut().end_spec(t)
}

/// Adds the template of a leaf spec.
fn add_leaf_template(mapper: &mut DefaultMapper)
    ensures
        final(mapper)@ == leaf_template(old(mapper)@),
{
    match mapper.last_spec_name() {
        Some(key_name) => {
            let path = mapper.current_path_template();
            mapper.add_mapping_template(key_name, path);
        },
        None => {},
    }
}

/// Adds the templates of a key-value spec.
fn add_key_value_template(kv: &KeyValueSpec, mapper: &mut DefaultMapper)
    ensures
        final(mapper)@ == key_value_template(*kv, old(mapper)@),
{
    let (key_name, key_path) = extract_name_and_spec_path(mapper, kv.key.to_spec_type(), kv.key.0.to_spec_type(), true);
    match key_name {
        Some(name) => mapper.add_mapping_template(name, key_path.clone()),
        None => {},
    }
    let (value_name, value_path) = extract_name_and_spec_path(mapper, kv.value.to_spec_type(), kv.value.0.to_spec_type(), true);
    match value_name {
        Some(name) => mapper.add_mapping_template(name, value_path.clone()),
        None => {},
    }
    mapper.add_mapping_template(key_path, value_path);
}

/// Traverses a spec: its type is entered, its templates added, and its type left.
pub fn traverse_spec(spec: &SpecNode, mapper: &mut DefaultMapper) -> (r: Result<(), ParserError>)
    ensures
        ({
            let (e, m2) = traversed(*spec, old(mapper)@);
            &&& r is Ok <==> e is None
            &&& r matches Err(x) ==> e == Some(kind_of(x))
            &&& final(mapper)@ == m2
        }),
    decreases spec, 1nat, 0nat,
{
    let t = spec.to_spec_type();
    mapper.enter(t.clone());
    add_mapping_template_of(spec, mapper)?;
    end_spec_type(mapper, &t)
}

/// Traverses a list spec as a spec of its own.
pub fn traverse_list(ls: &ListSpec, mapper: &mut DefaultMapper) -> (r: Result<(), ParserError>)
    ensures
        ({
            let (e, m2) = traversed_list(*ls, old(mapper)@);
            &&& r is Ok <==> e is None
            &&& r matches Err(x) ==> e == Some(kind_of(x))
            &&& final(mapper)@ == m2
        }),
    decreases ls, 1nat, 0nat,
{
    let t = ls.to_spec_type();
    mapper.enter(t.clone());
    add_list_templates(ls, mapper)?;
    end_spec_type(mapper, &t)
}

/// Adds the templates of the constituents of a list.
fn add_list_templates(ls: &ListSpec, mapper: &mut DefaultMapper) -> (r: Result<(), ParserError>)
    ensures
        ({
            let (e, m2) = list_templates_from(*ls, 0, old(mapper)@);
            &&& r is Ok <==> e is None
            &&& r matches Err(x) ==> e == Some(kind_of(x))
            &&& final(mapper)@ == m2
        }),
    decreases ls, 0nat, 0nat,
{
    let ghost target = list_templates_from(*ls, 0, mapper@);
    let mut i: usize = 0;
    while i < ls.constituents.len()
        invariant
            i <= ls.constituents@.len(),
            list_templates_from(*ls, i as nat, mapper@) == target,
            target == list_templates_from(*ls, 0, old(mapper)@),
        decreases ls.constituents@.len() - i,
    {
        let c = &ls.constituents[i];
        traverse_spec(c, mapper)?;
        i = i + 1;
    }
    Ok(())
}

/// Adds the templates of a spec, its type being entered.
pub fn add_mapping_template_of(spec: &SpecNode, mapper: &mut DefaultMapper) -> (r: Result<(), ParserError>)
    ensures
        ({
            let (e, m2) = templates_of(*spec, old(mapper)@);
            &&& r is Ok <==> e is None
            &&& r matches Err(x) ==> e == Some(kind_of(x))
            &&& final(mapper)@ == m2
        }),
    decreases spec, 0nat, 0nat,
{
    match spec {
        SpecNode::InlineKeyWithValue(i) => traverse_spec(&*i.0, mapper),
        SpecNode::RepeatMany(rm) => traverse_list(&rm.constituents, mapper),
        SpecNode::Value(v) => traverse_spec(&*v.0, mapper),
        SpecNode::Key(k) => traverse_spec(&*k.0, mapper),
        SpecNode::KeyValue(kv) => {
            add_key_value_template(kv, mapper);
            Ok(())
        },
        SpecNode::List(ls) => add_list_templates(ls, mapper),
        _ => {
            add_leaf_template(mapper);
            Ok(())
        },
    }
}

/// Traversing a spec never fails, leaves the context of the mapper as it
/// was, and changes nothing but the templates: the stored values, the
/// mapping data and the repeat counters stay as they were.
pub proof fn lemma_traversal_balanced(n: SpecNode, m: MapperView)
    ensures
        traversed(n, m).0 is None,
        traversed(n, m).1.types == m.types,
        traversed(n, m).1.data == m.data,
        traversed(n, m).1.spec_data == m.spec_data,
        traversed(n, m).1.repeaters == m.repeaters,
    decreases n, 1nat, 0nat,
{
    let t = node_type(n);
    let m1 = m.with_types(m.types.push(t));
    lemma_templates_keep_context(n, m1);
    let m2 = templates_of(n, m1).1;
    assert(m2.types.drop_last() =~= m.types);
}

/// Traversing a list spec never fails, and leaves the context as it was.
pub proof fn lemma_list_traversal_balanced(ls: ListSpec, m: MapperView)
    ensures
        traversed_list(ls, m).0 is None,
        traversed_list(ls, m).1.types == m.types,
        traversed_list(ls, m).1.data == m.data,
        traversed_list(ls, m).1.spec_data == m.spec_data,
        traversed_list(ls, m).1.repeaters == m.repeaters,
    decreases ls, 1nat, 0nat,
{
    let t = SpecType::Simple(ls.spec_meta_data.name);
    let m1 = m.with_types(m.types.push(t));
    lemma_list_templates_keep_context(ls, 0, m1);
    let m2 = list_templates_from(ls, 0, m1).1;
    assert(m2.types.drop_last() =~= m.types);
}

/// The templates of the constituents of a list never fail to be added, and
/// leave the context as it was.
pub proof fn lemma_list_templates_keep_context(ls: ListSpec, i: nat, m: MapperView)
    ensures
        list_templates_from(ls, i, m).0 is None,
        list_templates_from(ls, i, m).1.types == m.types,
        list_templates_from(ls, i, m).1.data == m.data,
        list_templates_from(ls, i, m).1.spec_data == m.spec_data,
        list_templates_from(ls, i, m).1.repeaters == m.repeaters,
    decreases ls, 0nat, ls.constituents@.len() - i,
{
    if i < ls.constituents@.len() {
        lemma_traversal_balanced(ls.constituents@[i as int], m);
        let m2 = traversed(ls.constituents@[i as int], m).1;
        lemma_list_templates_keep_context(ls, i + 1, m2);
    }
}

/// The templates of a spec never fail to be added, and leave the context as it was.
pub proof fn lemma_templates_keep_context(n: SpecNode, m: MapperView)
    ensures
        templates_of(n, m).0 is None,
        templates_of(n, m).1.types == m.types,
        templates_of(n, m).1.data == m.data,
        templates_of(n, m).1.spec_data == m.spec_data,
        templates_of(n, m).1.repeaters == m.repeaters,
    decreases n, 0nat, 0nat,
{
    match n {
        SpecNode::InlineKeyWithValue(i) => lemma_traversal_balanced(*i.0, m),
        SpecNode::RepeatMany(rm) => lemma_list_traversal_balanced(rm.constituents, m),
        SpecNode::Value(v) => lemma_traversal_balanced(*v.0, m),
        SpecNode::Key(k) => lemma_traversal_balanced(*k.0, m),
        SpecNode::List(ls) => lemma_list_templates_keep_context(ls, 0, m),
        _ => {},
    }
}

/// Traversal of a spec into a mapper.
pub trait SpecTraverse {
    fn traverse(&self, mapper: &mut DefaultMapper) -> Result<(), ParserError>;
}

/// SpecMapper allows adding metadata required to perform serialization and deserialization of the spec
/// SpecMapper for leaf spec (e.g SimpleValueSpec) simply adds the metadata to mapper. Composite Specs(e.g RepeatManySpec, ListSpec)
/// traverses its consituent until it reaches its leaf node.
pub trait SpecMapper {
    fn add_mapping_template(&self, mapper: &mut DefaultMapper) -> Result<(), ParserError>;
}

impl SpecTraverse for SpecNode {
    fn traverse(&self, mapper: &mut DefaultMapper) -> (r: Result<(), ParserError>)
        ensures
            ({
                let (e, m2) = traversed(*self, old(mapper)@);
                &&& r is Ok <==> e is None
                &&& r matches Err(x) ==> e == Some(kind_of(x))
                &&& final(mapper)@ == m2
            }),
    {
        traverse_spec(self, mapper)
    }
}

impl SpecMapper for SpecNode {
    fn add_mapping_template(&self, mapper: &mut DefaultMapper) -> (r: Result<(), ParserError>)
        ensures
            ({
                let (e, m2) = templates_of(*self, old(mapper)@);
                &&& r is Ok <==> e is None
                &&& r matches Err(x) ==> e == Some(kind_of(x))
                &&& final(mapper)@ == m2
            }),
    {
        add_mapping_template_of(self, mapper)
    }
}

impl SpecTraverse for ListSpec {
    fn traverse(&self, mapper: &mut DefaultMapper) -> (r: Result<(), ParserError>)
        ensures
            ({
                let (e, m2) = traversed_list(*self, old(mapper)@);
                &&& r is Ok <==> e is None
                &&& r matches Err(x) ==> e == Some(kind_of(x))
                &&& final(mapper)@ == m2
            }),
    {
        traverse_list(self, mapper)
    }
}

impl SpecMapper for ListSpec {
    fn add_mapping_template(&self, mapper: &mut DefaultMapper) -> (r: Result<(), ParserError>)
        ensures
            ({
                let (e, m2) = list_templates_from(*self, 0, old(mapper)@);
                &&& r is Ok <==> e is None
                &&& r matches Err(x) ==> e == Some(kind_of(x))
                &&& final(mapper)@ == m2
            }),
    {
        add_list_templates(self, mapper)
    }
}

} // verus!
