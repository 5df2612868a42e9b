use vstd::prelude::*;

verus! {

use crate::attributes::{
    AttrMap, IntoAttribute, get_attr, insert_attr, into_spec_of, obeys_into, render_attrs,
    write_attributes,
};
use vstd::string::StringExecFns;

/// The `<img>` tag.
#[derive(Debug)]
pub struct Img {
    attrs: AttrMap,
}

/// Creates a new `Img` tag; functionally equivalent to `Img::new()`,
/// but easier to type.
pub fn img() -> (r: Img)
    ensures
        r.attr_seq() == Seq::<(Seq<char>, Seq<char>)>::empty(),
{
    Img::new()
}

impl Default for Img {
    /// An empty `<img>` tag, with no attributes set.
    fn default() -> (r: Self)
        ensures
            r.attr_seq() == Seq::<(Seq<char>, Seq<char>)>::empty(),
    {
        Img { attrs: AttrMap::new() }
    }
}

impl Clone for Img {
    /// A copy with the same attributes; it renders identically to the
    /// original.
    fn clone(&self) -> (res: Self)
        ensures
            res.attr_seq() == self.attr_seq(),
    {
        Img { attrs: self.attrs.clone() }
    }
}

impl Img {
    /// The attributes set on this tag, in the order they were first set.
    pub closed spec fn attr_seq(self) -> Seq<(Seq<char>, Seq<char>)> {
        self.attrs@
    }

    /// The markup this tag renders to: a self-closing tag holding its
    /// attributes.
    pub open spec fn render_spec(self) -> Seq<char> {
        "<img"@ + render_attrs(self.attr_seq()) + "/>"@
    }

    /// Create a new `<img>` tag with no attributes set.
    pub fn new() -> (r: Self)
        ensures
            r.attr_seq() == Seq::<(Seq<char>, Seq<char>)>::empty(),
    {
        Self::default()
    }

    /// Attach a new attribute to this tag, overwriting any previous value
    /// set under the same name.
    pub fn attribute<A: Into<ImgAttr>>(self, attribute: A) -> (r: Self)
        ensures
            obeys_into::<A, ImgAttr>() ==> ({
                let pair = into_spec_of::<A, ImgAttr>(attribute).attr_pair();
                r.attr_seq() == insert_attr(self.attr_seq(), pair.0, pair.1)
            }),
    {
        let mut s = self;
        let grouped: ImgAttr = attribute.into();
        let (key, value) = grouped.into_attribute();
        s.attrs.insert(key, value);
        s
    }

    /// Read an attribute that has been set.
    pub fn read_attribute<'a>(&'a self, attribute: &str) -> (r: Option<&'a String>)
        ensures
            match r {
                Some(v) => get_attr(self.attr_seq(), attribute@) == Some(v@),
                None => get_attr(self.attr_seq(), attribute@) is None,
            },
    {
        self.attrs.get(attribute)
    }

    /// Render this tag to its markup text.
    pub fn render(&self) -> (r: String)
        ensures
            r@ == self.render_spec(),
    {
        let mut out = String::new();
        self.render_into(&mut out);
        out
    }

    pub(crate) fn render_into(&self, out: &mut String)
        ensures
            final(out)@ == old(out)@ + self.render_spec(),
    {
        out.append("<img");
        write_attributes(&self.attrs, out);
        out.append("/>");
    }
}

/// The `alt` attribute.
#[derive(Debug, Clone)]
pub struct Alt(String);

impl Alt {
    /// The value this attribute was created with.
    pub closed spec fn value_view(self) -> Seq<char> {
        self.0@
    }

    /// Create a new instance of this attribute with the specified value.
    pub fn new(value: &str) -> (r: Self)
        ensures
            r.value_view() == value@,
    {
        Alt(value.to_owned())
    }
}

impl IntoAttribute for Alt {
    open spec fn attr_pair(self) -> (Seq<char>, Seq<char>) {
        ("alt"@, self.value_view())
    }

    fn into_attribute(self) -> (r: (String, String)) {
        ("alt".to_owned(), self.0)
    }
}

/// The `src` attribute.
#[derive(Debug, Clone)]
pub struct Src(String);

impl Src {
    /// The value this attribute was created with.
    pub closed spec fn value_view(self) -> Seq<char> {
        self.0@
    }

    /// Create a new instance of this attribute with the specified value.
    pub fn new(value: &str) -> (r: Self)
        ensures
            r.value_view() == value@,
    {
        Src(value.to_owned())
    }
}

impl IntoAttribute for Src {
    open spec fn attr_pair(self) -> (Seq<char>, Seq<char>) {
        ("src"@, self.value_view())
    }

    fn into_attribute(self) -> (r: (String, String)) {
        ("src".to_owned(), self.0)
    }
}

/// An attribute which may be attached to an `<img>` tag.
#[derive(Debug, Clone)]
#[allow(missing_docs)]
pub enum ImgAttr {
    Alt(Alt),
    Src(Src),
}

impl IntoAttribute for ImgAttr {
    open spec fn attr_pair(self) -> (Seq<char>, Seq<char>) {
        match self {
            ImgAttr::Alt(x) => x.attr_pair(),
            ImgAttr::Src(x) => x.attr_pair(),
        }
    }

    fn into_attribute(self) -> (r: (String, String)) {
        match self {
            ImgAttr::Alt(x) => x.into_attribute(),
            ImgAttr::Src(x) => x.into_attribute(),
        }
    }
}

impl From<Alt> for ImgAttr {
    fn from(t: Alt) -> (r: ImgAttr) {
        ImgAttr::Alt(t)
    }
}

impl vstd::std_specs::convert::FromSpecImpl<Alt> for ImgAttr {
    open spec fn obeys_from_spec() -> bool {
        true
    }

    open spec fn from_spec(t: Alt) -> ImgAttr {
        ImgAttr::Alt(t)
    }
}

impl From<Src> for ImgAttr {
    fn from(t: Src) -> (r: ImgAttr) {
        ImgAttr::Src(t)
    }
}

impl vstd::std_specs::convert::FromSpecImpl<Src> for ImgAttr {
    open spec fn obeys_from_spec() -> bool {
        true
    }

    open spec fn from_spec(t: Src) -> ImgAttr {
        ImgAttr::Src(t)
    }
}

} // verus!
