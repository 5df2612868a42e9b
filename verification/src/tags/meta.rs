use vstd::prelude::*;

verus! {

use crate::attributes::{
    AttrMap, IntoAttribute, get_attr, insert_attr, into_spec_of, obeys_into, render_attrs,
    write_attributes,
};
use vstd::string::StringExecFns;

/// The `<meta>` tag.
#[derive(Debug)]
pub struct Meta {
    attrs: AttrMap,
}

/// Creates a new `Meta` tag; functionally equivalent to `Meta::new()`,
/// but easier to type.
pub fn meta() -> (r: Meta)
    ensures
        r.attr_seq() == Seq::<(Seq<char>, Seq<char>)>::empty(),
{
    Meta::new()
}

impl Default for Meta {
    /// An empty `<meta>` tag, with no attributes set.
    fn default() -> (r: Self)
        ensures
            r.attr_seq() == Seq::<(Seq<char>, Seq<char>)>::empty(),
    {
        Meta { attrs: AttrMap::new() }
    }
}

impl Clone for Meta {
    /// A copy with the same attributes; it renders identically to the
    /// original.
    fn clone(&self) -> (res: Self)
        ensures
            res.attr_seq() == self.attr_seq(),
    {
        Meta { attrs: self.attrs.clone() }
    }
}

impl Meta {
    /// The attributes set on this tag, in the order they were first set.
    pub closed spec fn attr_seq(self) -> Seq<(Seq<char>, Seq<char>)> {
        self.attrs@
    }

    /// The markup this tag renders to: a self-closing tag holding its
    /// attributes.
    pub open spec fn render_spec(self) -> Seq<char> {
        "<meta"@ + render_attrs(self.attr_seq()) + "/>"@
    }

    /// Create a new `<meta>` tag with no attributes set.
    pub fn new() -> (r: Self)
        ensures
            r.attr_seq() == Seq::<(Seq<char>, Seq<char>)>::empty(),
    {
        Self::default()
    }

    /// Attach a new attribute to this tag, overwriting any previous value
    /// set under the same name.
    pub fn attribute<A: Into<MetaAttr>>(self, attribute: A) -> (r: Self)
        ensures
            obeys_into::<A, MetaAttr>() ==> ({
                let pair = into_spec_of::<A, MetaAttr>(attribute).attr_pair();
                r.attr_seq() == insert_attr(self.attr_seq(), pair.0, pair.1)
            }),
    {
        let mut s = self;
        let grouped: MetaAttr = attribute.into();
        let (key, value) = grouped.into_attribute();
        s.attrs.insert(key, value);
        s
    }

    /// Read an attribute that has been set.
    pub fn read_attribute<'a>(&'a self, attribute: &str) -> (r: Option<&'a String>)
        ensures
            match r {
                Some(v) => get_attr(self.attr_seq(), attribute@) == Some(v@),
                None => get_attr(self.attr_seq(), attribute@) is None,
            },
    {
        self.attrs.get(attribute)
    }

    /// Attach an attribute to this tag from the provided raw data.
    ///
    /// Note that if you can, you should use the `attribute` method, because
    /// it takes better advantage of Rust's type system.
    pub fn raw_attribute(self, key: &str, value: &str) -> (r: Self)
        ensures
            r.attr_seq() == insert_attr(self.attr_seq(), key@, value@),
    {
        let mut s = self;
        s.attrs.insert(key.to_owned(), value.to_owned());
        s
    }

    /// Render this tag to its markup text.
    pub fn render(&self) -> (r: String)
        ensures
            r@ == self.render_spec(),
    {
        let mut out = String::new();
        self.render_into(&mut out);
        out
    }

    pub(crate) fn render_into(&self, out: &mut String)
        ensures
            final(out)@ == old(out)@ + self.render_spec(),
    {
        out.append("<meta");
        write_attributes(&self.attrs, out);
        out.append("/>");
    }
}

/// The `content` attribute.
#[derive(Debug, Clone)]
pub struct Content(String);

impl Content {
    /// The value this attribute was created with.
    pub closed spec fn value_view(self) -> Seq<char> {
        self.0@
    }

    /// Create a new instance of this attribute with the specified value.
    pub fn new(value: &str) -> (r: Self)
        ensures
            r.value_view() == value@,
    {
        Content(value.to_owned())
    }
}

impl IntoAttribute for Content {
    open spec fn attr_pair(self) -> (Seq<char>, Seq<char>) {
        ("content"@, self.value_view())
    }

    fn into_attribute(self) -> (r: (String, String)) {
        ("content".to_owned(), self.0)
    }
}

/// The "name" attribute for meta tags.  This is called `MetaName` to
/// disambiguate it from other tags' "name" attributes.
#[derive(Debug, Clone)]
#[allow(missing_docs)]
pub enum MetaName {
    Charset,
    Viewport,
}

impl IntoAttribute for MetaName {
    open spec fn attr_pair(self) -> (Seq<char>, Seq<char>) {
        (
            "name"@,
            match self {
                MetaName::Charset => "charset"@,
                MetaName::Viewport => "viewport"@,
            },
        )
    }

    fn into_attribute(self) -> (r: (String, String)) {
        let value: &str = match self {
            MetaName::Charset => "charset",
            MetaName::Viewport => "viewport",
        };
        ("name".to_owned(), value.to_owned())
    }
}

/// An attribute which may be attached to a `<meta>` tag.
#[derive(Debug, Clone)]
#[allow(missing_docs)]
pub enum MetaAttr {
    Content(Content),
    MetaName(MetaName),
}

impl IntoAttribute for MetaAttr {
    open spec fn attr_pair(self) -> (Seq<char>, Seq<char>) {
        match self {
            MetaAttr::Content(x) => x.attr_pair(),
            MetaAttr::MetaName(x) => x.attr_pair(),
        }
    }

    fn into_attribute(self) -> (r: (String, String)) {
        match self {
            MetaAttr::Content(x) => x.into_attribute(),
            MetaAttr::MetaName(x) => x.into_attribute(),
        }
    }
}

impl From<Content> for MetaAttr {
    fn from(t: Content) -> (r: MetaAttr) {
        MetaAttr::Content(t)
    }
}

impl vstd::std_specs::convert::FromSpecImpl<Content> for MetaAttr {
    open spec fn obeys_from_spec() -> bool {
        true
    }

    open spec fn from_spec(t: Content) -> MetaAttr {
        MetaAttr::Content(t)
    }
}

impl From<MetaName> for MetaAttr {
    fn from(t: MetaName) -> (r: MetaAttr) {
        MetaAttr::MetaName(t)
    }
}

impl vstd::std_specs::convert::FromSpecImpl<MetaName> for MetaAttr {
    open spec fn obeys_from_spec() -> bool {
        true
    }

    open spec fn from_spec(t: MetaName) -> MetaAttr {
        MetaAttr::MetaName(t)
    }
}

} // verus!
