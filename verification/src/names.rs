//! Spec names, separators, repeat counts, spec metadata and spec types.
use vstd::prelude::*;
use vstd::string::*;

use crate::value::ValueType;

verus! {

/// Each spec in crate is provided with a optional name. The name can be different types
/// This enum list different name types
#[derive(Debug)]
pub enum SpecName {
    /// NoName - name is absent
    NoName,
    /// Name that is of significance and holds valid protocol data
    Name(String),
    /// Name that is of no significance and holds no valid protocol data and it can be only used for debuggin purposes
    Transient(String),
    ///The spec is a delimiter
    Delimiter,
}

/// Mathematical content of a [`SpecName`].
pub enum SpecNameView {
    NoName,
    Name(Seq<char>),
    Transient(Seq<char>),
    Delimiter,
}

impl View for SpecName {
    type V = SpecNameView;

    open spec fn view(&self) -> SpecNameView {
        match self {
            SpecName::NoName => SpecNameView::NoName,
            SpecName::Name(s) => SpecNameView::Name(s@),
            SpecName::Transient(s) => SpecNameView::Transient(s@),
            SpecName::Delimiter => SpecNameView::Delimiter,
        }
    }
}

impl Clone for SpecName {
    fn clone(&self) -> (r: SpecName)
        ensures
            r == *self,
    {
        match self {
            SpecName::NoName => SpecName::NoName,
            SpecName::Name(s) => SpecName::Name(s.clone()),
            SpecName::Transient(s) => SpecName::Transient(s.clone()),
            SpecName::Delimiter => SpecName::Delimiter,
        }
    }
}

impl PartialEq for SpecName {
    fn eq(&self, other: &SpecName) -> (r: bool) {
        match (self, other) {
            (SpecName::NoName, SpecName::NoName) => true,
            (SpecName::Name(a), SpecName::Name(b)) => a.eq(b),
            (SpecName::Transient(a), SpecName::Transient(b)) => a.eq(b),
            (SpecName::Delimiter, SpecName::Delimiter) => true,
            _ => false,
        }
    }
}

impl vstd::std_specs::cmp::PartialEqSpecImpl for SpecName {
    open spec fn obeys_eq_spec() -> bool {
        true
    }

    open spec fn eq_spec(&self, other: &SpecName) -> bool {
        self@ == other@
    }
}

/// The path segment a name stands for.
pub open spec fn name_path(n: SpecNameView) -> Seq<char> {
    match n {
        SpecNameView::Name(s) => s,
        SpecNameView::Transient(s) => s,
        SpecNameView::NoName => "NoName"@,
        SpecNameView::Delimiter => "Delimiter"@,
    }
}

/// SpecName to string converesion.
impl SpecName {
    pub fn to_path_string(&self) -> (s: String)
        ensures
            s@ == name_path(self@),
    {
        proof {
            reveal_strlit("NoName");
            reveal_strlit("Delimiter");
        }
        match self {
            SpecName::Name(name) => name.clone(),
            SpecName::Transient(name) => name.clone(),
            SpecName::NoName => String::from_str("NoName"),
            SpecName::Delimiter => String::from_str("Delimiter"),
        }
    }

    pub fn is_delimiter(&self) -> (b: bool)
        ensures
            b == (self is Delimiter),
    {
        match self {
            SpecName::Delimiter => true,
            _ => false,
        }
    }

    /// Name as text (the path segment of the name).
    pub fn to_name_string(&self) -> (s: String)
        ensures
            s@ == name_path(self@),
    {
        self.to_path_string()
    }
}

/// Enum for different types of separator.
#[derive(Debug)]
pub enum Separator {
    /// String separator
    Delimiter(String),
    /// Byte serparator
    NBytes(u32),
    ///End of stream as separator
    EndOfStream,
}

/// Mathematical content of a [`Separator`].
pub enum SeparatorView {
    Delimiter(Seq<char>),
    NBytes(u32),
    EndOfStream,
}

impl View for Separator {
    type V = SeparatorView;

    open spec fn view(&self) -> SeparatorView {
        match self {
            Separator::Delimiter(s) => SeparatorView::Delimiter(s@),
            Separator::NBytes(n) => SeparatorView::NBytes(*n),
            Separator::EndOfStream => SeparatorView::EndOfStream,
        }
    }
}

impl Clone for Separator {
    fn clone(&self) -> (r: Separator)
        ensures
            r == *self,
    {
        match self {
            Separator::Delimiter(s) => Separator::Delimiter(s.clone()),
            Separator::NBytes(n) => Separator::NBytes(*n),
            Separator::EndOfStream => Separator::EndOfStream,
        }
    }
}

impl Default for Separator {
    fn default() -> (r: Separator)
        ensures
            r == Separator::EndOfStream,
    {
        Separator::EndOfStream
    }
}

/// enum to represent the repeatcount for RepeatMany Spec. RepeatCount specifies when to stop the Repeat Count
/// repeatition will be stopped when particular count is reached or when delimiter is found
#[derive(Debug)]
pub enum RepeatCount {
    /// Fixed count
    Fixed(u32),
    /// Stop repatition when the delimiter is found
    Delimited(Separator),
}

/// Mathematical content of a [`RepeatCount`].
pub enum RepeatCountView {
    Fixed(u32),
    Delimited(SeparatorView),
}

impl View for RepeatCount {
    type V = RepeatCountView;

    open spec fn view(&self) -> RepeatCountView {
        match self {
            RepeatCount::Fixed(n) => RepeatCountView::Fixed(*n),
            RepeatCount::Delimited(s) => RepeatCountView::Delimited(s@),
        }
    }
}

impl Clone for RepeatCount {
    fn clone(&self) -> (r: RepeatCount)
        ensures
            r == *self,
    {
        match self {
            RepeatCount::Fixed(n) => RepeatCount::Fixed(*n),
            RepeatCount::Delimited(s) => RepeatCount::Delimited(s.clone()),
        }
    }
}

impl Default for RepeatCount {
    fn default() -> (r: RepeatCount)
        ensures
            r == RepeatCount::Fixed(2),
    {
        RepeatCount::Fixed(2)
    }
}

/// type to store metadata of spec. Metadata contains name of spec(SpecName), data type of value represented by spec
/// and optionality flag
#[derive(Debug)]
pub struct SpecMetaData {
    pub name: SpecName,
    pub value_type: ValueType,
    pub optional: bool,
}

impl Default for SpecMetaData {
    fn default() -> (r: SpecMetaData)
        ensures
            r.name == SpecName::NoName,
            r.value_type == ValueType::NoValue,
            !r.optional,
    {
        SpecMetaData { name: SpecName::NoName, value_type: ValueType::NoValue, optional: false }
    }
}

impl Clone for SpecMetaData {
    fn clone(&self) -> (r: SpecMetaData)
        ensures
            r == *self,
    {
        SpecMetaData { name: self.name.clone(), value_type: self.value_type, optional: self.optional }
    }
}

impl SpecMetaData {
    /// The metadata that `new` makes.
    pub open spec fn new_spec(name: SpecName, value_type: ValueType, optional: bool) -> SpecMetaData {
        SpecMetaData { name, value_type, optional }
    }

    pub fn new(name: SpecName, value_type: ValueType, optional: bool) -> (r: Self)
        ensures
            r.name == name,
            r.value_type == value_type,
            r.optional == optional,
    {
        SpecMetaData { name, value_type, optional }
    }

    pub fn get_name(&self) -> (r: &SpecName)
        ensures
            *r == self.name,
    {
        &self.name
    }

    pub fn get_value_type(&self) -> (r: &ValueType)
        ensures
            *r == self.value_type,
    {
        &self.value_type
    }

    pub fn is_optional(&self) -> (r: bool)
        ensures
            r == self.optional,
    {
        self.optional
    }
}

/// Enum for different type of specs supported. Currently only Composite, RepeatMany and Simple spec are used
#[derive(Debug)]
pub enum SpecType {
    Composite(SpecName),
    RepeatMany(SpecName, RepeatCount, u16),
    Key(SpecName),
    Value(SpecName),
    Simple(SpecName),
}

/// Mathematical content of a [`SpecType`].
pub enum SpecTypeView {
    Composite(SpecNameView),
    RepeatMany(SpecNameView, RepeatCountView, u16),
    Key(SpecNameView),
    Value(SpecNameView),
    Simple(SpecNameView),
}

impl View for SpecType {
    type V = SpecTypeView;

    open spec fn view(&self) -> SpecTypeView {
        match self {
            SpecType::Composite(n) => SpecTypeView::Composite(n@),
            SpecType::RepeatMany(n, c, i) => SpecTypeView::RepeatMany(n@, c@, *i),
            SpecType::Key(n) => SpecTypeView::Key(n@),
            SpecType::Value(n) => SpecTypeView::Value(n@),
            SpecType::Simple(n) => SpecTypeView::Simple(n@),
        }
    }
}

impl Clone for SpecType {
    fn clone(&self) -> (r: SpecType)
        ensures
            r == *self,
    {
        match self {
            SpecType::Composite(n) => SpecType::Composite(n.clone()),
            SpecType::RepeatMany(n, c, i) => SpecType::RepeatMany(n.clone(), c.clone(), *i),
            SpecType::Key(n) => SpecType::Key(n.clone()),
            SpecType::Value(n) => SpecType::Value(n.clone()),
            SpecType::Simple(n) => SpecType::Simple(n.clone()),
        }
    }
}

/// The name a spec type carries.
pub open spec fn name_of_type(t: SpecTypeView) -> SpecNameView {
    match t {
        SpecTypeView::Composite(n) => n,
        SpecTypeView::RepeatMany(n, _, _) => n,
        SpecTypeView::Key(n) => n,
        SpecTypeView::Value(n) => n,
        SpecTypeView::Simple(n) => n,
    }
}

/// Two spec types are the same when they are the same kind of type with the
/// same name (a repeat's count and index do not matter).
pub open spec fn same_spec_type(a: SpecTypeView, b: SpecTypeView) -> bool {
    match (a, b) {
        (SpecTypeView::Composite(x), SpecTypeView::Composite(y)) => x == y,
        (SpecTypeView::RepeatMany(x, _, _), SpecTypeView::RepeatMany(y, _, _)) => x == y,
        (SpecTypeView::Key(x), SpecTypeView::Key(y)) => x == y,
        (SpecTypeView::Value(x), SpecTypeView::Value(y)) => x == y,
        (SpecTypeView::Simple(x), SpecTypeView::Simple(y)) => x == y,
        _ => false,
    }
}

/// PartialEq implementation for SpecType based on SpecName
impl PartialEq for SpecType {
    fn eq(&self, other: &SpecType) -> (r: bool) {
        match (self, other) {
            (SpecType::Composite(l0), SpecType::Composite(r0)) => l0 == r0,
            (SpecType::RepeatMany(l0, _l1, _l2), SpecType::RepeatMany(r0, _r1, _r2)) => l0 == r0,
            (SpecType::Key(l0), SpecType::Key(r0)) => l0 == r0,
            (SpecType::Value(l0), SpecType::Value(r0)) => l0 == r0,
            (SpecType::Simple(l0), SpecType::Simple(r0)) => l0 == r0,
            _ => false,
        }
    }
}

impl vstd::std_specs::cmp::PartialEqSpecImpl for SpecType {
    open spec fn obeys_eq_spec() -> bool {
        true
    }

    open spec fn eq_spec(&self, other: &SpecType) -> bool {
        same_spec_type(self@, other@)
    }
}

/// The segment of a path template that a spec type stands for: a repeat
/// leaves a `{}` placeholder for its index.
pub open spec fn type_template(t: SpecTypeView) -> Seq<char> {
    match t {
        SpecTypeView::RepeatMany(n, _, _) => name_path(n) + ".{}"@,
        _ => name_path(name_of_type(t)),
    }
}

/// The segment of a path that a spec type stands for: a repeat adds its
/// current index.
pub open spec fn type_path(t: SpecTypeView) -> Seq<char> {
    match t {
        SpecTypeView::RepeatMany(n, _, i) => name_path(n) + "."@ + crate::text::decimal(i as nat),
        _ => name_path(name_of_type(t)),
    }
}

/// The text that describes a spec type: its kind, then its path in brackets.
pub open spec fn type_text(t: SpecTypeView) -> Seq<char> {
    match t {
        SpecTypeView::Composite(_) => "Composite("@ + type_path(t) + ")"@,
        SpecTypeView::RepeatMany(_, _, _) => "RepeatMany("@ + type_path(t) + ")"@,
        SpecTypeView::Key(_) => "Key("@ + type_path(t) + ")"@,
        SpecTypeView::Value(_) => "Value("@ + type_path(t) + ")"@,
        SpecTypeView::Simple(_) => "Simple("@ + type_path(t) + ")"@,
    }
}

impl SpecType {
    /// returns the template used to lookup the spectype. Spec Name is returned except for RepeatMany where the name with place holder for count is returned e.g header_name.{}
    pub fn to_path_template_string(&self) -> (s: String)
        ensures
            s@ == type_template(self@),
    {
        proof {
            reveal_strlit(".{}");
        }
        match self {
            SpecType::RepeatMany(spec_name, _, _) => {
                let mut s = spec_name.to_path_string();
                s.append(".{}");
                s
            },
            SpecType::Composite(spec_name)
            | SpecType::Key(spec_name)
            | SpecType::Value(spec_name)
            | SpecType::Simple(spec_name) => spec_name.to_path_string(),
        }
    }

    /// The text that describes the spec type, as error messages show it.
    pub fn describe(&self) -> (s: String)
        ensures
            s@ == type_text(self@),
    {
        let path = self.to_path_string();
        match self {
            SpecType::Composite(_) => crate::text::concat3("Composite(", path.as_str(), ")"),
            SpecType::RepeatMany(_, _, _) => crate::text::concat3("RepeatMany(", path.as_str(), ")"),
            SpecType::Key(_) => crate::text::concat3("Key(", path.as_str(), ")"),
            SpecType::Value(_) => crate::text::concat3("Value(", path.as_str(), ")"),
            SpecType::Simple(_) => crate::text::concat3("Simple(", path.as_str(), ")"),
        }
    }

    /// returns the path used to lookup the spectype. Spec Name is returned except for RepeatMany where the name with current count/index is returned e.g header_name.0
    pub fn to_path_string(&self) -> (s: String)
        ensures
            s@ == type_path(self@),
    {
        proof {
            reveal_strlit(".");
        }
        match self {
            SpecType::RepeatMany(name, _, current_index) => {
                let mut s = name.to_name_string();
                s.append(".");
                crate::text::push_decimal(&mut s, *current_index as u64);
                s
            },
            SpecType::Composite(spec_name)
            | SpecType::Key(spec_name)
            | SpecType::Value(spec_name)
            | SpecType::Simple(spec_name) => spec_name.to_path_string(),
        }
    }
}

/// Specs that know the spec type under which they are traversed and (de)serialized.
pub trait ToSpecType {
    /// The spec type of this spec.
    spec fn spec_type_of(&self) -> SpecType;

    fn to_spec_type(&self) -> (r: SpecType)
        ensures
            r == self.spec_type_of(),
    ;
}

impl ToSpecType for SpecType {
    open spec fn spec_type_of(&self) -> SpecType {
        *self
    }

    fn to_spec_type(&self) -> (r: SpecType) {
        self.clone()
    }
}

} // verus!
