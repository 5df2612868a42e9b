use vstd::prelude::*;

verus! {

use crate::attributes::{
    AttrMap, Class, Id, IntoAttribute, Style, get_attr, insert_attr, into_spec_of, obeys_into,
    render_attrs, write_attributes,
};
use vstd::string::StringExecFns;

/// The `<input>` tag.
#[derive(Debug)]
pub struct Input {
    attrs: AttrMap,
}

/// Creates a new `Input` tag; functionally equivalent to `Input::new()`,
/// but easier to type.
pub fn input() -> (r: Input)
    ensures
        r.attr_seq() == Seq::<(Seq<char>, Seq<char>)>::empty(),
{
    Input::new()
}

impl Default for Input {
    /// An empty `<input>` tag, with no attributes set.
    fn default() -> (r: Self)
        ensures
            r.attr_seq() == Seq::<(Seq<char>, Seq<char>)>::empty(),
    {
        Input { attrs: AttrMap::new() }
    }
}

impl Clone for Input {
    /// A copy with the same attributes; it renders identically to the
    /// original.
    fn clone(&self) -> (res: Self)
        ensures
            res.attr_seq() == self.attr_seq(),
    {
        Input { attrs: self.attrs.clone() }
    }
}

impl Input {
    /// The attributes set on this tag, in the order they were first set.
    pub closed spec fn attr_seq(self) -> Seq<(Seq<char>, Seq<char>)> {
        self.attrs@
    }

    /// The markup this tag renders to: a self-closing tag holding its
    /// attributes.
    pub open spec fn render_spec(self) -> Seq<char> {
        "<input"@ + render_attrs(self.attr_seq()) + "/>"@
    }

    /// Create a new `<input>` tag with no attributes set.
    pub fn new() -> (r: Self)
        ensures
            r.attr_seq() == Seq::<(Seq<char>, Seq<char>)>::empty(),
    {
        Self::default()
    }

    /// Attach a new attribute to this tag, overwriting any previous value
    /// set under the same name.
    pub fn attribute<A: Into<InputAttr>>(self, attribute: A) -> (r: Self)
        ensures
            obeys_into::<A, InputAttr>() ==> ({
                let pair = into_spec_of::<A, InputAttr>(attribute).attr_pair();
                r.attr_seq() == insert_attr(self.attr_seq(), pair.0, pair.1)
            }),
    {
        let mut s = self;
        let grouped: InputAttr = attribute.into();
        let (key, value) = grouped.into_attribute();
        s.attrs.insert(key, value);
        s
    }

    /// Read an attribute that has been set.
    pub fn read_attribute<'a>(&'a self, attribute: &str) -> (r: Option<&'a String>)
        ensures
            match r {
                Some(v) => get_attr(self.attr_seq(), attribute@) == Some(v@),
                None => get_attr(self.attr_seq(), attribute@) is None,
            },
    {
        self.attrs.get(attribute)
    }

    /// Apply a function to this tag.
    pub fn map<F: FnOnce(Self) -> Self>(self, mapping: F) -> (r: Self)
        requires
            call_requires(mapping, (self,)),
        ensures
            call_ensures(mapping, (self,), r),
    {
        mapping(self)
    }

    /// Render this tag to its markup text.
    pub fn render(&self) -> (r: String)
        ensures
            r@ == self.render_spec(),
    {
        let mut out = String::new();
        self.render_into(&mut out);
        out
    }

    pub(crate) fn render_into(&self, out: &mut String)
        ensures
            final(out)@ == old(out)@ + self.render_spec(),
    {
        out.append("<input");
        write_attributes(&self.attrs, out);
        out.append("/>");
    }
}

/// The `name` attribute.
#[derive(Debug, Clone)]
pub struct Name(String);

impl Name {
    /// The value this attribute was created with.
    pub closed spec fn value_view(self) -> Seq<char> {
        self.0@
    }

    /// Create a new instance of this attribute with the specified value.
    pub fn new(value: &str) -> (r: Self)
        ensures
            r.value_view() == value@,
    {
        Name(value.to_owned())
    }
}

impl IntoAttribute for Name {
    open spec fn attr_pair(self) -> (Seq<char>, Seq<char>) {
        ("name"@, self.value_view())
    }

    fn into_attribute(self) -> (r: (String, String)) {
        ("name".to_owned(), self.0)
    }
}

/// The `placeholder` attribute.
#[derive(Debug, Clone)]
pub struct Placeholder(String);

impl Placeholder {
    /// The value this attribute was created with.
    pub closed spec fn value_view(self) -> Seq<char> {
        self.0@
    }

    /// Create a new instance of this attribute with the specified value.
    pub fn new(value: &str) -> (r: Self)
        ensures
            r.value_view() == value@,
    {
        Placeholder(value.to_owned())
    }
}

impl IntoAttribute for Placeholder {
    open spec fn attr_pair(self) -> (Seq<char>, Seq<char>) {
        ("placeholder"@, self.value_view())
    }

    fn into_attribute(self) -> (r: (String, String)) {
        ("placeholder".to_owned(), self.0)
    }
}

/// The `value` attribute.
#[derive(Debug, Clone)]
pub struct Value(String);

impl Value {
    /// The value this attribute was created with.
    pub closed spec fn value_view(self) -> Seq<char> {
        self.0@
    }

    /// Create a new instance of this attribute with the specified value.
    pub fn new(value: &str) -> (r: Self)
        ensures
            r.value_view() == value@,
    {
        Value(value.to_owned())
    }
}

impl IntoAttribute for Value {
    open spec fn attr_pair(self) -> (Seq<char>, Seq<char>) {
        ("value"@, self.value_view())
    }

    fn into_attribute(self) -> (r: (String, String)) {
        ("value".to_owned(), self.0)
    }
}

/// The `type` attribute for an input.
#[derive(Debug, Clone)]
#[allow(missing_docs)]
pub enum Type {
    Text,
    Email,
    Password,
    Textarea,
    Submit,
    Hidden,
    DateTimeLocal,
    Checkbox,
}

impl IntoAttribute for Type {
    open spec fn attr_pair(self) -> (Seq<char>, Seq<char>) {
        (
            "type"@,
            match self {
                Type::Text => "text"@,
                Type::Email => "email"@,
                Type::Password => "password"@,
                Type::Textarea => "textarea"@,
                Type::Submit => "submit"@,
                Type::Hidden => "hidden"@,
                Type::DateTimeLocal => "datetime-local"@,
                Type::Checkbox => "checkbox"@,
            },
        )
    }

    fn into_attribute(self) -> (r: (String, String)) {
        let value: &str = match self {
            Type::Text => "text",
            Type::Email => "email",
            Type::Password => "password",
            Type::Textarea => "textarea",
            Type::Submit => "submit",
            Type::Hidden => "hidden",
            Type::DateTimeLocal => "datetime-local",
            Type::Checkbox => "checkbox",
        };
        ("type".to_owned(), value.to_owned())
    }
}

/// The possible attributes which can be attached to an input item.
#[derive(Debug, Clone)]
#[allow(missing_docs)]
pub enum InputAttr {
    Type(Type),
    Name(Name),
    Placeholder(Placeholder),
    Id(Id),
    Class(Class),
    Value(Value),
    Style(Style),
}

impl IntoAttribute for InputAttr {
    open spec fn attr_pair(self) -> (Seq<char>, Seq<char>) {
        match self {
            InputAttr::Type(x) => x.attr_pair(),
            InputAttr::Name(x) => x.attr_pair(),
            InputAttr::Placeholder(x) => x.attr_pair(),
            InputAttr::Id(x) => x.attr_pair(),
            InputAttr::Class(x) => x.attr_pair(),
            InputAttr::Value(x) => x.attr_pair(),
            InputAttr::Style(x) => x.attr_pair(),
        }
    }

    fn into_attribute(self) -> (r: (String, String)) {
        match self {
            InputAttr::Type(x) => x.into_attribute(),
            InputAttr::Name(x) => x.into_attribute(),
            InputAttr::Placeholder(x) => x.into_attribute(),
            InputAttr::Id(x) => x.into_attribute(),
            InputAttr::Class(x) => x.into_attribute(),
            InputAttr::Value(x) => x.into_attribute(),
            InputAttr::Style(x) => x.into_attribute(),
        }
    }
}

impl From<Type> for InputAttr {
    fn from(t: Type) -> (r: InputAttr) {
        InputAttr::Type(t)
    }
}

impl vstd::std_specs::convert::FromSpecImpl<Type> for InputAttr {
    open spec fn obeys_from_spec() -> bool {
        true
    }

    open spec fn from_spec(t: Type) -> InputAttr {
        InputAttr::Type(t)
    }
}

impl From<Name> for InputAttr {
    fn from(t: Name) -> (r: InputAttr) {
        InputAttr::Name(t)
    }
}

impl vstd::std_specs::convert::FromSpecImpl<Name> for InputAttr {
    open spec fn obeys_from_spec() -> bool {
        true
    }

    open spec fn from_spec(t: Name) -> InputAttr {
        InputAttr::Name(t)
    }
}

impl From<Placeholder> for InputAttr {
    fn from(t: Placeholder) -> (r: InputAttr) {
        InputAttr::Placeholder(t)
    }
}

impl vstd::std_specs::convert::FromSpecImpl<Placeholder> for InputAttr {
    open spec fn obeys_from_spec() -> bool {
        true
    }

    open spec fn from_spec(t: Placeholder) -> InputAttr {
        InputAttr::Placeholder(t)
    }
}

impl From<Id> for InputAttr {
    fn from(t: Id) -> (r: InputAttr) {
        InputAttr::Id(t)
    }
}

impl vstd::std_specs::convert::FromSpecImpl<Id> for InputAttr {
    open spec fn obeys_from_spec() -> bool {
        true
    }

    open spec fn from_spec(t: Id) -> InputAttr {
        InputAttr::Id(t)
    }
}

impl From<Class> for InputAttr {
    fn from(t: Class) -> (r: InputAttr) {
        InputAttr::Class(t)
    }
}

impl vstd::std_specs::convert::FromSpecImpl<Class> for InputAttr {
    open spec fn obeys_from_spec() -> bool {
        true
    }

    open spec fn from_spec(t: Class) -> InputAttr {
        InputAttr::Class(t)
    }
}

impl From<Value> for InputAttr {
    fn from(t: Value) -> (r: InputAttr) {
        InputAttr::Value(t)
    }
}

impl vstd::std_specs::convert::FromSpecImpl<Value> for InputAttr {
    open spec fn obeys_from_spec() -> bool {
        true
    }

    open spec fn from_spec(t: Value) -> InputAttr {
        InputAttr::Value(t)
    }
}

impl From<Style> for InputAttr {
    fn from(t: Style) -> (r: InputAttr) {
        InputAttr::Style(t)
    }
}

impl vstd::std_specs::convert::FromSpecImpl<Style> for InputAttr {
    open spec fn obeys_from_spec() -> bool {
        true
    }

    open spec fn from_spec(t: Style) -> InputAttr {
        InputAttr::Style(t)
    }
}

} // verus!
