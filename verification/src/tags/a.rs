use vstd::prelude::*;

verus! {

use crate::attributes::{
    AttrMap, Id, IntoAttribute, Style, get_attr, insert_attr, into_spec_of, obeys_into,
    render_attrs, write_attributes,
};
use crate::render::{contains_seq, lemma_concat_contains_middle};
use crate::sanitize::{clean, clean_of};
use vstd::string::StringExecFns;

/// The `<a>` tag.
#[derive(Debug)]
pub struct A {
    attrs: AttrMap,
    text: String,
}

/// Creates a new `A` tag; functionally equivalent to `A::new()`,
/// but easier to type.
pub fn a() -> (r: A)
    ensures
        r.attr_seq() == Seq::<(Seq<char>, Seq<char>)>::empty(),
        r.text_view() == Seq::<char>::empty(),
{
    A::new()
}

impl Default for A {
    /// An empty `<a>` tag: no attributes and no text.
    fn default() -> (r: Self)
        ensures
            r.attr_seq() == Seq::<(Seq<char>, Seq<char>)>::empty(),
            r.text_view() == Seq::<char>::empty(),
    {
        A { attrs: AttrMap::new(), text: String::new() }
    }
}

impl Clone for A {
    /// A copy with the same attributes and the same text; it renders
    /// identically to the original.
    fn clone(&self) -> (res: Self)
        ensures
            res.attr_seq() == self.attr_seq(),
            res.text_view() == self.text_view(),
    {
        A { attrs: self.attrs.clone(), text: self.text.clone() }
    }
}

impl A {
    /// The attributes set on this tag, in the order they were first set.
    pub closed spec fn attr_seq(self) -> Seq<(Seq<char>, Seq<char>)> {
        self.attrs@
    }

    /// The text this tag holds.
    pub closed spec fn text_view(self) -> Seq<char> {
        self.text@
    }

    /// The markup this tag renders to.
    pub open spec fn render_spec(self) -> Seq<char> {
        "<a"@ + render_attrs(self.attr_seq()) + ">"@ + self.text_view() + "</a>"@
    }

    /// Create a new `<a>` tag: no attributes and no text.
    pub fn new() -> (r: Self)
        ensures
            r.attr_seq() == Seq::<(Seq<char>, Seq<char>)>::empty(),
            r.text_view() == Seq::<char>::empty(),
    {
        Self::default()
    }

    /// Adds the supplied text to this node, overwriting the previously
    /// existing text.  The text is sanitized first; if you are certain your
    /// text is safe and want it stored verbatim, use `text_unsanitized`.
    pub fn text(self, text: &str) -> (r: Self)
        ensures
            r.attr_seq() == self.attr_seq(),
            r.text_view() == clean_of(text@),
    {
        let mut s = self;
        s.text = clean(text);
        s
    }

    /// Adds the supplied text to this node **without sanitizing it**,
    /// overwriting the previously existing text.
    ///
    /// WARNING: do not use this method with unescaped user-supplied text:
    /// it will be rendered verbatim.  If in doubt, use the `text` method.
    pub fn text_unsanitized(self, text: &str) -> (r: Self)
        ensures
            r.attr_seq() == self.attr_seq(),
            r.text_view() == text@,
    {
        let mut s = self;
        s.text = text.to_owned();
        s
    }

    /// Attach a new attribute to this tag, overwriting any previous value
    /// set under the same name.
    pub fn attribute<I: Into<AAttr>>(self, attribute: I) -> (r: Self)
        ensures
            obeys_into::<I, AAttr>() ==> ({
                let pair = into_spec_of::<I, AAttr>(attribute).attr_pair();
                r.attr_seq() == insert_attr(self.attr_seq(), pair.0, pair.1)
                    && r.text_view() == self.text_view()
            }),
    {
        let mut s = self;
        let grouped: AAttr = attribute.into();
        let (key, value) = grouped.into_attribute();
        s.attrs.insert(key, value);
        s
    }

    /// Read an attribute that has been set.
    pub fn read_attribute<'a>(&'a self, attribute: &str) -> (r: Option<&'a String>)
        ensures
            match r {
                Some(v) => get_attr(self.attr_seq(), attribute@) == Some(v@),
                None => get_attr(self.attr_seq(), attribute@) is None,
            },
    {
        self.attrs.get(attribute)
    }

    /// Attach a new `href` attribute to this tag.  This method is a shortcut
    /// for attaching an `Href` attribute built from the given value.
    pub fn href(self, href: &str) -> (r: Self)
        ensures
            r.attr_seq() == insert_attr(self.attr_seq(), "href"@, href@),
            r.text_view() == self.text_view(),
    {
        self.attribute(Href::new(href))
    }

    /// Attach a new `id` attribute to this tag.  This method is a shortcut
    /// for attaching an `Id` attribute built from the given value.
    pub fn id(self, id: &str) -> (r: Self)
        ensures
            r.attr_seq() == insert_attr(self.attr_seq(), "id"@, id@),
            r.text_view() == self.text_view(),
    {
        self.attribute(Id::new(id))
    }

    /// Render this tag to its markup text.
    pub fn render(&self) -> (r: String)
        ensures
            r@ == self.render_spec(),
    {
        let mut out = String::new();
        self.render_into(&mut out);
        out
    }

    pub(crate) fn render_into(&self, out: &mut String)
        ensures
            final(out)@ == old(out)@ + self.render_spec(),
    {
        out.append("<a");
        write_attributes(&self.attrs, out);
        out.append(">");
        out.append(self.text.as_str());
        out.append("</a>");
    }
}

/// Text stored through the unchecked path is rendered verbatim: the markup
/// of a `A` tag contains its text unchanged.
pub proof fn lemma_a_renders_text_verbatim(t: A)
    ensures
        contains_seq(t.render_spec(), t.text_view()),
{
    lemma_concat_contains_middle(
        "<a"@ + render_attrs(t.attr_seq()) + ">"@,
        t.text_view(),
        "</a>"@,
    );
}

/// The `href` attribute.
#[derive(Debug, Clone)]
pub struct Href(String);

impl Href {
    /// The value this attribute was created with.
    pub closed spec fn value_view(self) -> Seq<char> {
        self.0@
    }

    /// Create a new instance of this attribute with the specified value.
    pub fn new(value: &str) -> (r: Self)
        ensures
            r.value_view() == value@,
    {
        Href(value.to_owned())
    }
}

impl IntoAttribute for Href {
    open spec fn attr_pair(self) -> (Seq<char>, Seq<char>) {
        ("href"@, self.value_view())
    }

    fn into_attribute(self) -> (r: (String, String)) {
        ("href".to_owned(), self.0)
    }
}

/// The `download` attribute.
#[derive(Debug, Clone)]
pub struct Download(String);

impl Download {
    /// The value this attribute was created with.
    pub closed spec fn value_view(self) -> Seq<char> {
        self.0@
    }

    /// Create a new instance of this attribute with the specified value.
    pub fn new(value: &str) -> (r: Self)
        ensures
            r.value_view() == value@,
    {
        Download(value.to_owned())
    }
}

impl IntoAttribute for Download {
    open spec fn attr_pair(self) -> (Seq<char>, Seq<char>) {
        ("download"@, self.value_view())
    }

    fn into_attribute(self) -> (r: (String, String)) {
        ("download".to_owned(), self.0)
    }
}

/// The "target" attribute for a link.
#[derive(Debug, Clone)]
#[allow(missing_docs)]
pub enum Target {
    Blank,
}

impl IntoAttribute for Target {
    open spec fn attr_pair(self) -> (Seq<char>, Seq<char>) {
        (
            "target"@,
            match self {
                Target::Blank => "_blank"@,
            },
        )
    }

    fn into_attribute(self) -> (r: (String, String)) {
        let value: &str = match self {
            Target::Blank => "_blank",
        };
        ("target".to_owned(), value.to_owned())
    }
}

/// An attribute for the `<a>` tag.
#[derive(Debug, Clone)]
#[allow(missing_docs)]
pub enum AAttr {
    Href(Href),
    Download(Download),
    Target(Target),
    Id(Id),
    Style(Style),
}

impl IntoAttribute for AAttr {
    open spec fn attr_pair(self) -> (Seq<char>, Seq<char>) {
        match self {
            AAttr::Href(x) => x.attr_pair(),
            AAttr::Download(x) => x.attr_pair(),
            AAttr::Target(x) => x.attr_pair(),
            AAttr::Id(x) => x.attr_pair(),
            AAttr::Style(x) => x.attr_pair(),
        }
    }

    fn into_attribute(self) -> (r: (String, String)) {
        match self {
            AAttr::Href(x) => x.into_attribute(),
            AAttr::Download(x) => x.into_attribute(),
            AAttr::Target(x) => x.into_attribute(),
            AAttr::Id(x) => x.into_attribute(),
            AAttr::Style(x) => x.into_attribute(),
        }
    }
}

impl From<Href> for AAttr {
    fn from(t: Href) -> (r: AAttr) {
        AAttr::Href(t)
    }
}

impl vstd::std_specs::convert::FromSpecImpl<Href> for AAttr {
    open spec fn obeys_from_spec() -> bool {
        true
    }

    open spec fn from_spec(t: Href) -> AAttr {
        AAttr::Href(t)
    }
}

impl From<Download> for AAttr {
    fn from(t: Download) -> (r: AAttr) {
        AAttr::Download(t)
    }
}

impl vstd::std_specs::convert::FromSpecImpl<Download> for AAttr {
    open spec fn obeys_from_spec() -> bool {
        true
    }

    open spec fn from_spec(t: Download) -> AAttr {
        AAttr::Download(t)
    }
}

impl From<Target> for AAttr {
    fn from(t: Target) -> (r: AAttr) {
        AAttr::Target(t)
    }
}

impl vstd::std_specs::convert::FromSpecImpl<Target> for AAttr {
    open spec fn obeys_from_spec() -> bool {
        true
    }

    open spec fn from_spec(t: Target) -> AAttr {
        AAttr::Target(t)
    }
}

impl From<Id> for AAttr {
    fn from(t: Id) -> (r: AAttr) {
        AAttr::Id(t)
    }
}

impl vstd::std_specs::convert::FromSpecImpl<Id> for AAttr {
    open spec fn obeys_from_spec() -> bool {
        true
    }

    open spec fn from_spec(t: Id) -> AAttr {
        AAttr::Id(t)
    }
}

impl From<Style> for AAttr {
    fn from(t: Style) -> (r: AAttr) {
        AAttr::Style(t)
    }
}

impl vstd::std_specs::convert::FromSpecImpl<Style> for AAttr {
    open spec fn obeys_from_spec() -> bool {
        true
    }

    open spec fn from_spec(t: Style) -> AAttr {
        AAttr::Style(t)
    }
}

} // verus!
