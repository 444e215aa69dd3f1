//! The stack of spec types that leads to the spec being traversed, and the
//! repeat counters kept per repeated key-value list.
use vstd::prelude::*;
use vstd::string::*;

use crate::error::ParserError;
use crate::names::{name_of_type, type_path, type_template, type_text, same_spec_type, SpecNameView, SpecType, SpecTypeView, ToSpecType};
use crate::text::{decimal, replace_all, replace_str, unsigned_to_string, concat2};

verus! {

/// Path template of a stack of spec types: `$` followed by one `.segment` per
/// type, a repeat standing as `name.{}`.
pub open spec fn path_template(types: Seq<SpecType>) -> Seq<char>
    decreases types.len(),
{
    if types.len() == 0 {
        "$"@
    } else {
        path_template(types.drop_last()) + "."@ + type_template(types.last()@)
    }
}

/// Path of a stack of spec types: `$` followed by one `.segment` per type, a
/// repeat standing as `name.index`.
pub open spec fn path_of(types: Seq<SpecType>) -> Seq<char>
    decreases types.len(),
{
    if types.len() == 0 {
        "$"@
    } else {
        path_of(types.drop_last()) + "."@ + type_path(types.last()@)
    }
}

/// The text of the innermost `SpecName::Name` in a stack of spec types.
pub open spec fn last_name(types: Seq<SpecType>) -> Option<Seq<char>>
    decreases types.len(),
{
    if types.len() == 0 {
        None
    } else {
        match name_of_type(types.last()@) {
            SpecNameView::Name(s) => Some(s),
            _ => last_name(types.drop_last()),
        }
    }
}

/// The stack after one more iteration of the innermost repeat: the index of
/// the last type grows by one (wrapping at `u16::MAX`) when it is a repeat.
pub open spec fn incremented(types: Seq<SpecType>) -> Seq<SpecType> {
    if types.len() > 0 {
        match types.last() {
            SpecType::RepeatMany(n, c, i) =>
                types.drop_last().push(SpecType::RepeatMany(n, c, (if i == u16::MAX { 0 } else { (i + 1) as u16 }))),
            _ => types,
        }
    } else {
        types
    }
}

/// Mapper object holds information about Specs leading upto the current spec that are currently traverse.
/// Spec could be collection of nested specs. types field contains the SpecType leading upto the current spec that is traversed/serialized/deserialized
#[derive(Debug)]
pub struct MapperContext {
    pub types: Vec<SpecType>,
}

/// Message for a spec type that does not match the innermost one.
pub open spec fn mismatch_text(expected: SpecTypeView, found: SpecTypeView) -> Seq<char> {
    "expected spec type "@ + type_text(expected) + " to be removed, but found "@ + type_text(found)
}

/// Message for a spec type that does not match the innermost one.
fn mismatch_message(expected: &SpecType, found: &SpecType) -> (s: String)
    ensures
        s@ == mismatch_text(expected@, found@),
{
    let e = expected.describe();
    let f = found.describe();
    let mut s = crate::text::concat3("expected spec type ", e.as_str(), " to be removed, but found ");
    s.append(f.as_str());
    s
}

impl Clone for MapperContext {
    fn clone(&self) -> (r: MapperContext)
        ensures
            r.types@ == self.types@,
    {
        let mut types: Vec<SpecType> = Vec::new();
        let n = self.types.len();
        let mut i: usize = 0;
        while i < n
            invariant
                i <= n,
                n == self.types@.len(),
                types@ == self.types@.take(i as int),
            decreases n - i,
        {
            types.push(self.types[i].clone());
            assert(self.types@.take(i + 1) =~= self.types@.take(i as int).push(self.types@[i as int]));
            i = i + 1;
        }
        assert(self.types@.take(n as int) =~= self.types@);
        MapperContext { types }
    }
}

impl Default for MapperContext {
    fn default() -> (r: MapperContext)
        ensures
            r.types@ == Seq::<SpecType>::empty(),
    {
        MapperContext::new()
    }
}

impl MapperContext {
    pub fn new() -> (r: MapperContext)
        ensures
            r.types@ == Seq::<SpecType>::empty(),
    {
        MapperContext { types: Vec::new() }
    }

    /// Adds given spec ojbect to spec types
    pub fn start_spec<S: ToSpecType>(&mut self, spec: &S)
        ensures
            final(self).types@ == old(self).types@.push(spec.spec_type_of()),
    {
        self.start_spec_type(spec.to_spec_type());
    }

    /// Adds given spec ojbect to spec types
    pub fn start_spec_type(&mut self, spec_type: SpecType)
        ensures
            final(self).types@ == old(self).types@.push(spec_type),
    {
        self.types.push(spec_type);
    }

    /// removes the last spec object
    pub fn end_current_spec(&mut self)
        ensures
            final(self).types@ == (if old(self).types@.len() > 0 {
                old(self).types@.drop_last()
            } else {
                old(self).types@
            }),
    {
        let _ = self.types.pop();
    }

    /// removes the given spec object, if it is the last spec
    pub fn end_spec<S: ToSpecType>(&mut self, in_spec: &S) -> (r: Result<(), ParserError>)
        ensures
            old(self).types@.len() == 0 ==> r is Ok && final(self).types@ == old(self).types@,
            old(self).types@.len() > 0 && same_spec_type(in_spec.spec_type_of()@, old(self).types@.last()@)
                ==> r is Ok && final(self).types@ == old(self).types@.drop_last(),
            old(self).types@.len() > 0 && !same_spec_type(in_spec.spec_type_of()@, old(self).types@.last()@)
                ==> (r matches Err(ParserError::InvalidMarker { line_index, char_index, .. })
                    && line_index == 0 && char_index == 0) && final(self).types@ == old(self).types@,
    {
        let n = self.types.len();
        if n > 0 {
            let spec_type = in_spec.to_spec_type();
            if spec_type == self.types[n - 1] {
                let _ = self.types.pop();
                return Ok(());
            } else {
                let message = mismatch_message(&spec_type, &self.types[n - 1]);
                return Err(ParserError::InvalidMarker { line_index: 0, char_index: 0, message });
            }
        }
        Ok(())
    }

    /// Increments the repeat index in the last known repeatspec
    pub fn increment_current_repeat_spec(&mut self)
        ensures
            final(self).types@ == incremented(old(self).types@),
    {
        let n = self.types.len();
        if n > 0 {
            let is_repeat = match &self.types[n - 1] {
                SpecType::RepeatMany(_, _, _) => true,
                _ => false,
            };
            if is_repeat {
                let last = self.types.pop().unwrap();
                match last {
                    SpecType::RepeatMany(name, count, current_index) => {
                        let next = if current_index == u16::MAX { 0 } else { current_index + 1 };
                        self.types.push(SpecType::RepeatMany(name, count, next));
                    },
                    other => {
                        self.types.push(other);
                    },
                }
            }
        }
    }

    /// Get the path of current spec .e.g if ListSpec with name 'A' contains RepeatMany spec with name B and
    /// RepeatManySpec contains StringSpec with name 'C', the method returns $.A.B.{}.C
    /// here '{}' is the placeholder for the repeatmany loop index
    pub fn get_current_spec_path_template(&self) -> (s: String)
        ensures
            s@ == path_template(self.types@),
    {
        proof {
            reveal_strlit("$");
            reveal_strlit(".");
        }
        let mut spec_template = String::from_str("$");
        let n = self.types.len();
        let mut i: usize = 0;
        while i < n
            invariant
                i <= n,
                n == self.types@.len(),
                spec_template@ == path_template(self.types@.take(i as int)),
            decreases n - i,
        {
            let ghost pre = self.types@.take(i as int);
            assert(self.types@.take(i + 1).drop_last() =~= pre);
            let seg = self.types[i].to_path_template_string();
            spec_template.append(".");
            spec_template.append(seg.as_str());
            i = i + 1;
        }
        assert(self.types@.take(n as int) =~= self.types@);
        spec_template
    }

    /// Get the path of current spec .e.g if ListSpec with name 'A' contains RepeatMany spec with name B and
    /// RepeatManySpec contains StringSpec with name 'C' and current iteration of RepeatManySpec is 5 , the method returns $.A.B.5.C
    pub fn get_current_spec_path(&self) -> (s: String)
        ensures
            s@ == path_of(self.types@),
    {
        proof {
            reveal_strlit("$");
            reveal_strlit(".");
        }
        let mut spec_path = String::from_str("$");
        let n = self.types.len();
        let mut i: usize = 0;
        while i < n
            invariant
                i <= n,
                n == self.types@.len(),
                spec_path@ == path_of(self.types@.take(i as int)),
            decreases n - i,
        {
            let ghost pre = self.types@.take(i as int);
            assert(self.types@.take(i + 1).drop_last() =~= pre);
            let seg = self.types[i].to_path_string();
            spec_path.append(".");
            spec_path.append(seg.as_str());
            i = i + 1;
        }
        assert(self.types@.take(n as int) =~= self.types@);
        spec_path
    }

    /// returns the String data from last available enum SpecName::Name.
    /// MapperContext contains list of Spec that are traversed. this method returns the last known spec name with SpecName::Name(data)
    pub fn get_last_available_spec_name(&self) -> (r: Option<String>)
        ensures
            r is Some <==> last_name(self.types@) is Some,
            r matches Some(s) ==> s@ == last_name(self.types@).unwrap(),
    {
        let mut i: usize = self.types.len();
        assert(self.types@.take(i as int) =~= self.types@);
        while i > 0
            invariant
                i <= self.types@.len(),
                last_name(self.types@) == last_name(self.types@.take(i as int)),
            decreases i,
        {
            let ghost t = self.types@.take(i as int);
            assert(t.drop_last() =~= self.types@.take(i - 1));
            let name = match &self.types[i - 1] {
                SpecType::Composite(name)
                | SpecType::Key(name)
                | SpecType::Value(name)
                | SpecType::Simple(name)
                | SpecType::RepeatMany(name, _, _) => name,
            };
            match name {
                crate::names::SpecName::Name(text) => {
                    return Some(text.clone());
                },
                _ => {},
            }
            i = i - 1;
        }
        assert(self.types@.take(0) =~= Seq::<SpecType>::empty());
        None
    }
}

/// Represents Contextual data of RepeatManySpec e.g holds current count
#[derive(Clone, Copy, Debug)]
pub struct RepeaterContext {
    pub count: u32,
}

impl RepeaterContext {
    pub fn new() -> (r: Self)
        ensures
            r.count == 0,
    {
        Self { count: 0 }
    }

    pub fn get_count(&self) -> (r: u32)
        ensures
            r == self.count,
    {
        self.count
    }

    /// Moves to the next count (wrapping at `u32::MAX`) and returns it.
    pub fn next(&mut self) -> (r: u32)
        ensures
            final(self).count == (if old(self).count == u32::MAX { 0 } else { (old(self).count + 1) as u32 }),
            r == final(self).count,
    {
        self.count = if self.count == u32::MAX { 0 } else { self.count + 1 };
        self.count
    }
}

/// `{}` replaced by the decimal count.
pub open spec fn normalized(spec_name: Seq<char>, count: u32) -> Seq<char> {
    replace_all(spec_name, "{}"@, decimal(count as nat))
}

/// The qualified name with every `.lookup_name` taken out.
pub open spec fn context_of(qualified_name: Seq<char>, lookup_name: Seq<char>) -> Seq<char> {
    replace_all(qualified_name, "."@ + lookup_name, Seq::empty())
}

/// Converts repeater template to repeater path string. e.g spec_name is A.B.{}.C returns A.B.1.C. here 1 is the current index
pub fn normalize_repeater(spec_name: &String, repeater_context: &RepeaterContext) -> (r: String)
    ensures
        r@ == normalized(spec_name@, repeater_context.count),
{
    normalize_repeater_with_count(spec_name, repeater_context.get_count())
}

/// Converts repeater template to repeater path string. e.g spec_name is A.B.{}.C returns A.B.1.C. here 1 is the current index
pub fn normalize_repeater_with_count(spec_name: &String, count: u32) -> (r: String)
    ensures
        r@ == normalized(spec_name@, count),
{
    proof {
        reveal_strlit("{}");
    }
    let count_text = unsigned_to_string(count as u64);
    replace_str(spec_name.as_str(), "{}", count_text.as_str())
}

/// Removes the `lookup_name` from the qualified name
pub fn get_context_from_qualified_name(qualified_name: &str, lookup_name: &str) -> (r: String)
    ensures
        r@ == context_of(qualified_name@, lookup_name@),
{
    proof {
        reveal_strlit(".");
        reveal_strlit("");
        assert(""@ =~= Seq::<char>::empty());
    }
    let pattern = concat2(".", lookup_name);
    replace_str(qualified_name, pattern.as_str(), "")
}

} // verus!
