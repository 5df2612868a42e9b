use vstd::prelude::*;

verus! {

use crate::attributes::{
    AttrMap, Id, IntoAttribute, get_attr, insert_attr, into_spec_of, obeys_into, render_attrs,
    write_attributes,
};
use crate::render::{contains_seq, lemma_concat_contains_middle};
use crate::sanitize::{clean, clean_of};
use crate::tags::input::{Name, Value};
use vstd::string::StringExecFns;

/// The `<option>` tag.
#[derive(Debug)]
pub struct SelectOption {
    attrs: AttrMap,
    text: String,
}

/// Creates a new `SelectOption` tag; functionally equivalent to `SelectOption::new()`,
/// but easier to type.
pub fn select_option() -> (r: SelectOption)
    ensures
        r.attr_seq() == Seq::<(Seq<char>, Seq<char>)>::empty(),
        r.text_view() == Seq::<char>::empty(),
{
    SelectOption::new()
}

impl Default for SelectOption {
    /// An empty `<option>` tag: no attributes and no text.
    fn default() -> (r: Self)
        ensures
            r.attr_seq() == Seq::<(Seq<char>, Seq<char>)>::empty(),
            r.text_view() == Seq::<char>::empty(),
    {
        SelectOption { attrs: AttrMap::new(), text: String::new() }
    }
}

impl Clone for SelectOption {
    /// A copy with the same attributes and the same text; it renders
    /// identically to the original.
    fn clone(&self) -> (res: Self)
        ensures
            res.attr_seq() == self.attr_seq(),
            res.text_view() == self.text_view(),
    {
        SelectOption { attrs: self.attrs.clone(), text: self.text.clone() }
    }
}

impl SelectOption {
    /// The attributes set on this tag, in the order they were first set.
    pub closed spec fn attr_seq(self) -> Seq<(Seq<char>, Seq<char>)> {
        self.attrs@
    }

    /// The text this tag holds.
    pub closed spec fn text_view(self) -> Seq<char> {
        self.text@
    }

    /// The markup this tag renders to.
    pub open spec fn render_spec(self) -> Seq<char> {
        "<option"@ + render_attrs(self.attr_seq()) + ">"@ + self.text_view() + "</option>"@
    }

    /// Create a new `<option>` tag: no attributes and no text.
    pub fn new() -> (r: Self)
        ensures
            r.attr_seq() == Seq::<(Seq<char>, Seq<char>)>::empty(),
            r.text_view() == Seq::<char>::empty(),
    {
        Self::default()
    }

    /// Adds the supplied text to this node, overwriting the previously
    /// existing text.  The text is sanitized first; if you are certain your
    /// text is safe and want it stored verbatim, use `text_unsanitized`.
    pub fn text(self, text: &str) -> (r: Self)
        ensures
            r.attr_seq() == self.attr_seq(),
            r.text_view() == clean_of(text@),
    {
        let mut s = self;
        s.text = clean(text);
        s
    }

    /// Adds the supplied text to this node **without sanitizing it**,
    /// overwriting the previously existing text.
    ///
    /// WARNING: do not use this method with unescaped user-supplied text:
    /// it will be rendered verbatim.  If in doubt, use the `text` method.
    pub fn text_unsanitized(self, text: &str) -> (r: Self)
        ensures
            r.attr_seq() == self.attr_seq(),
            r.text_view() == text@,
    {
        let mut s = self;
        s.text = text.to_owned();
        s
    }

    /// Attach a new attribute to this tag, overwriting any previous value
    /// set under the same name.
    pub fn attribute<A: Into<SelectOptionAttr>>(self, attribute: A) -> (r: Self)
        ensures
            obeys_into::<A, SelectOptionAttr>() ==> ({
                let pair = into_spec_of::<A, SelectOptionAttr>(attribute).attr_pair();
                r.attr_seq() == insert_attr(self.attr_seq(), pair.0, pair.1)
                    && r.text_view() == self.text_view()
            }),
    {
        let mut s = self;
        let grouped: SelectOptionAttr = attribute.into();
        let (key, value) = grouped.into_attribute();
        s.attrs.insert(key, value);
        s
    }

    /// Attach an attribute to this tag from the provided raw data.
    ///
    /// Note that if you can, you should use the `attribute` method, because
    /// it takes better advantage of Rust's type system.
    pub fn raw_attribute(self, key: &str, value: &str) -> (r: Self)
        ensures
            r.attr_seq() == insert_attr(self.attr_seq(), key@, value@),
            r.text_view() == self.text_view(),
    {
        let mut s = self;
        s.attrs.insert(key.to_owned(), value.to_owned());
        s
    }

    /// Read an attribute that has been set.
    pub fn read_attribute<'a>(&'a self, attribute: &str) -> (r: Option<&'a String>)
        ensures
            match r {
                Some(v) => get_attr(self.attr_seq(), attribute@) == Some(v@),
                None => get_attr(self.attr_seq(), attribute@) is None,
            },
    {
        self.attrs.get(attribute)
    }

    /// Render this tag to its markup text.
    pub fn render(&self) -> (r: String)
        ensures
            r@ == self.render_spec(),
    {
        let mut out = String::new();
        self.render_into(&mut out);
        out
    }

    pub(crate) fn render_into(&self, out: &mut String)
        ensures
            final(out)@ == old(out)@ + self.render_spec(),
    {
        out.append("<option");
        write_attributes(&self.attrs, out);
        out.append(">");
        out.append(self.text.as_str());
        out.append("</option>");
    }
}

/// Text stored through the unchecked path is rendered verbatim: the markup
/// of a `SelectOption` tag contains its text unchanged.
pub proof fn lemma_select_option_renders_text_verbatim(t: SelectOption)
    ensures
        contains_seq(t.render_spec(), t.text_view()),
{
    lemma_concat_contains_middle(
        "<option"@ + render_attrs(t.attr_seq()) + ">"@,
        t.text_view(),
        "</option>"@,
    );
}

/// An attribute for the `<option>` tag.
#[derive(Debug, Clone)]
#[allow(missing_docs)]
pub enum SelectOptionAttr {
    Value(Value),
    Id(Id),
    Name(Name),
}

impl IntoAttribute for SelectOptionAttr {
    open spec fn attr_pair(self) -> (Seq<char>, Seq<char>) {
        match self {
            SelectOptionAttr::Value(x) => x.attr_pair(),
            SelectOptionAttr::Id(x) => x.attr_pair(),
            SelectOptionAttr::Name(x) => x.attr_pair(),
        }
    }

    fn into_attribute(self) -> (r: (String, String)) {
        match self {
            SelectOptionAttr::Value(x) => x.into_attribute(),
            SelectOptionAttr::Id(x) => x.into_attribute(),
            SelectOptionAttr::Name(x) => x.into_attribute(),
        }
    }
}

impl From<Value> for SelectOptionAttr {
    fn from(t: Value) -> (r: SelectOptionAttr) {
        SelectOptionAttr::Value(t)
    }
}

impl vstd::std_specs::convert::FromSpecImpl<Value> for SelectOptionAttr {
    open spec fn obeys_from_spec() -> bool {
        true
    }

    open spec fn from_spec(t: Value) -> SelectOptionAttr {
        SelectOptionAttr::Value(t)
    }
}

impl From<Id> for SelectOptionAttr {
    fn from(t: Id) -> (r: SelectOptionAttr) {
        SelectOptionAttr::Id(t)
    }
}

impl vstd::std_specs::convert::FromSpecImpl<Id> for SelectOptionAttr {
    open spec fn obeys_from_spec() -> bool {
        true
    }

    open spec fn from_spec(t: Id) -> SelectOptionAttr {
        SelectOptionAttr::Id(t)
    }
}

impl From<Name> for SelectOptionAttr {
    fn from(t: Name) -> (r: SelectOptionAttr) {
        SelectOptionAttr::Name(t)
    }
}

impl vstd::std_specs::convert::FromSpecImpl<Name> for SelectOptionAttr {
    open spec fn obeys_from_spec() -> bool {
        true
    }

    open spec fn from_spec(t: Name) -> SelectOptionAttr {
        SelectOptionAttr::Name(t)
    }
}

} // verus!
