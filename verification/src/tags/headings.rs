use vstd::prelude::*;

verus! {

use crate::attributes::{
    AttrMap, Class, Id, IntoAttribute, Style, get_attr, insert_attr, into_spec_of, obeys_into,
    render_attrs, write_attributes,
};
use crate::render::{contains_seq, lemma_concat_contains_middle};
use crate::sanitize::{clean, clean_of};
use vstd::string::StringExecFns;

/// An attribute for a heading tag.
#[derive(Debug, Clone)]
#[allow(missing_docs)]
pub enum HeadingAttr {
    Class(Class),
    Id(Id),
    Style(Style),
}

impl IntoAttribute for HeadingAttr {
    open spec fn attr_pair(self) -> (Seq<char>, Seq<char>) {
        match self {
            HeadingAttr::Class(x) => x.attr_pair(),
            HeadingAttr::Id(x) => x.attr_pair(),
            HeadingAttr::Style(x) => x.attr_pair(),
        }
    }

    fn into_attribute(self) -> (r: (String, String)) {
        match self {
            HeadingAttr::Class(x) => x.into_attribute(),
            HeadingAttr::Id(x) => x.into_attribute(),
            HeadingAttr::Style(x) => x.into_attribute(),
        }
    }
}

impl From<Class> for HeadingAttr {
    fn from(t: Class) -> (r: HeadingAttr) {
        HeadingAttr::Class(t)
    }
}

impl vstd::std_specs::convert::FromSpecImpl<Class> for HeadingAttr {
    open spec fn obeys_from_spec() -> bool {
        true
    }

    open spec fn from_spec(t: Class) -> HeadingAttr {
        HeadingAttr::Class(t)
    }
}

impl From<Id> for HeadingAttr {
    fn from(t: Id) -> (r: HeadingAttr) {
        HeadingAttr::Id(t)
    }
}

impl vstd::std_specs::convert::FromSpecImpl<Id> for HeadingAttr {
    open spec fn obeys_from_spec() -> bool {
        true
    }

    open spec fn from_spec(t: Id) -> HeadingAttr {
        HeadingAttr::Id(t)
    }
}

impl From<Style> for HeadingAttr {
    fn from(t: Style) -> (r: HeadingAttr) {
        HeadingAttr::Style(t)
    }
}

impl vstd::std_specs::convert::FromSpecImpl<Style> for HeadingAttr {
    open spec fn obeys_from_spec() -> bool {
        true
    }

    open spec fn from_spec(t: Style) -> HeadingAttr {
        HeadingAttr::Style(t)
    }
}

/// The <h1> tag.
#[derive(Debug)]
pub struct H1 {
    text: String,
    attrs: AttrMap,
}

/// Creates a new `H1` tag holding the given (sanitized) text; functionally
/// equivalent to `H1::new(<text>)`, but easier to type.
pub fn h1(text: &str) -> (r: H1)
    ensures
        r.text_view() == clean_of(text@),
        r.attr_seq() == Seq::<(Seq<char>, Seq<char>)>::empty(),
{
    H1::new(text)
}

impl Clone for H1 {
    /// A copy with the same attributes and the same text; it renders
    /// identically to the original.
    fn clone(&self) -> (res: Self)
        ensures
            res.attr_seq() == self.attr_seq(),
            res.text_view() == self.text_view(),
    {
        H1 { attrs: self.attrs.clone(), text: self.text.clone() }
    }
}

impl H1 {
    /// The text this tag holds.
    pub closed spec fn text_view(self) -> Seq<char> {
        self.text@
    }

    /// The attributes set on this tag, in the order they were first set.
    pub closed spec fn attr_seq(self) -> Seq<(Seq<char>, Seq<char>)> {
        self.attrs@
    }

    /// The markup this tag renders to.
    pub open spec fn render_spec(self) -> Seq<char> {
        "<h1"@ + render_attrs(self.attr_seq()) + ">"@ + self.text_view() + "</h1>"@
    }

    /// Create a new item of this type, sanitizing the given text first.
    pub fn new(text: &str) -> (r: Self)
        ensures
            r.text_view() == clean_of(text@),
            r.attr_seq() == Seq::<(Seq<char>, Seq<char>)>::empty(),
    {
        H1 { text: clean(text), attrs: AttrMap::new() }
    }

    /// Create a new item of this type **without first sanitizing the text**.
    /// You only want this if you are certain that the text in question is
    /// safe (i.e. will not execute malicious Javascript when rendered).
    pub fn new_unchecked(text: &str) -> (r: Self)
        ensures
            r.text_view() == text@,
            r.attr_seq() == Seq::<(Seq<char>, Seq<char>)>::empty(),
    {
        H1 { text: text.to_owned(), attrs: AttrMap::new() }
    }

    /// Attach a new attribute to this node, overwriting any previous value
    /// set under the same name.
    pub fn attribute<A: Into<HeadingAttr>>(self, a: A) -> (r: Self)
        ensures
            obeys_into::<A, HeadingAttr>() ==> ({
                let pair = into_spec_of::<A, HeadingAttr>(a).attr_pair();
                r.text_view() == self.text_view() && r.attr_seq() == insert_attr(
                    self.attr_seq(),
                    pair.0,
                    pair.1,
                )
            }),
    {
        let mut s = self;
        let grouped: HeadingAttr = a.into();
        let (key, value) = grouped.into_attribute();
        s.attrs.insert(key, value);
        s
    }

    /// Attach an attribute to this tag from the provided raw data.
    ///
    /// Note that if you can, you should use the `attribute` method, because
    /// it takes better advantage of Rust's type system.
    pub fn raw_attribute(self, key: &str, value: &str) -> (r: Self)
        ensures
            r.text_view() == self.text_view(),
            r.attr_seq() == insert_attr(self.attr_seq(), key@, value@),
    {
        let mut s = self;
        s.attrs.insert(key.to_owned(), value.to_owned());
        s
    }

    /// Read an attribute that has been set.
    pub fn read_attribute<'a>(&'a self, a: &str) -> (r: Option<&'a String>)
        ensures
            match r {
                Some(v) => get_attr(self.attr_seq(), a@) == Some(v@),
                None => get_attr(self.attr_seq(), a@) is None,
            },
    {
        self.attrs.get(a)
    }

    /// Applies the provided function to this item.
    pub fn map<F: FnOnce(Self) -> Self>(self, mapping: F) -> (r: Self)
        requires
            call_requires(mapping, (self,)),
        ensures
            call_ensures(mapping, (self,), r),
    {
        mapping(self)
    }

    /// Render this tag to its markup text.
    pub fn render(&self) -> (r: String)
        ensures
            r@ == self.render_spec(),
    {
        let mut out = String::new();
        self.render_into(&mut out);
        out
    }

    pub(crate) fn render_into(&self, out: &mut String)
        ensures
            final(out)@ == old(out)@ + self.render_spec(),
    {
        out.append("<h1");
        write_attributes(&self.attrs, out);
        out.append(">");
        out.append(self.text.as_str());
        out.append("</h1>");
    }
}

/// Text stored through the unchecked path is rendered verbatim: the markup
/// of a `H1` tag contains its text unchanged.
pub proof fn lemma_h1_renders_text_verbatim(h: H1)
    ensures
        contains_seq(h.render_spec(), h.text_view()),
{
    lemma_concat_contains_middle(
        "<h1"@ + render_attrs(h.attr_seq()) + ">"@,
        h.text_view(),
        "</h1>"@,
    );
}

/// The <h2> tag.
#[derive(Debug)]
pub struct H2 {
    text: String,
    attrs: AttrMap,
}

/// Creates a new `H2` tag holding the given (sanitized) text; functionally
/// equivalent to `H2::new(<text>)`, but easier to type.
pub fn h2(text: &str) -> (r: H2)
    ensures
        r.text_view() == clean_of(text@),
        r.attr_seq() == Seq::<(Seq<char>, Seq<char>)>::empty(),
{
    H2::new(text)
}

impl Clone for H2 {
    /// A copy with the same attributes and the same text; it renders
    /// identically to the original.
    fn clone(&self) -> (res: Self)
        ensures
            res.attr_seq() == self.attr_seq(),
            res.text_view() == self.text_view(),
    {
        H2 { attrs: self.attrs.clone(), text: self.text.clone() }
    }
}

impl H2 {
    /// The text this tag holds.
    pub closed spec fn text_view(self) -> Seq<char> {
        self.text@
    }

    /// The attributes set on this tag, in the order they were first set.
    pub closed spec fn attr_seq(self) -> Seq<(Seq<char>, Seq<char>)> {
        self.attrs@
    }

    /// The markup this tag renders to.
    pub open spec fn render_spec(self) -> Seq<char> {
        "<h2"@ + render_attrs(self.attr_seq()) + ">"@ + self.text_view() + "</h2>"@
    }

    /// Create a new item of this type, sanitizing the given text first.
    pub fn new(text: &str) -> (r: Self)
        ensures
            r.text_view() == clean_of(text@),
            r.attr_seq() == Seq::<(Seq<char>, Seq<char>)>::empty(),
    {
        H2 { text: clean(text), attrs: AttrMap::new() }
    }

    /// Create a new item of this type **without first sanitizing the text**.
    /// You only want this if you are certain that the text in question is
    /// safe (i.e. will not execute malicious Javascript when rendered).
    pub fn new_unchecked(text: &str) -> (r: Self)
        ensures
            r.text_view() == text@,
            r.attr_seq() == Seq::<(Seq<char>, Seq<char>)>::empty(),
    {
        H2 { text: text.to_owned(), attrs: AttrMap::new() }
    }

    /// Attach a new attribute to this node, overwriting any previous value
    /// set under the same name.
    pub fn attribute<A: Into<HeadingAttr>>(self, a: A) -> (r: Self)
        ensures
            obeys_into::<A, HeadingAttr>() ==> ({
                let pair = into_spec_of::<A, HeadingAttr>(a).attr_pair();
                r.text_view() == self.text_view() && r.attr_seq() == insert_attr(
                    self.attr_seq(),
                    pair.0,
                    pair.1,
                )
            }),
    {
        let mut s = self;
        let grouped: HeadingAttr = a.into();
        let (key, value) = grouped.into_attribute();
        s.attrs.insert(key, value);
        s
    }

    /// Attach an attribute to this tag from the provided raw data.
    ///
    /// Note that if you can, you should use the `attribute` method, because
    /// it takes better advantage of Rust's type system.
    pub fn raw_attribute(self, key: &str, value: &str) -> (r: Self)
        ensures
            r.text_view() == self.text_view(),
            r.attr_seq() == insert_attr(self.attr_seq(), key@, value@),
    {
        let mut s = self;
        s.attrs.insert(key.to_owned(), value.to_owned());
        s
    }

    /// Read an attribute that has been set.
    pub fn read_attribute<'a>(&'a self, a: &str) -> (r: Option<&'a String>)
        ensures
            match r {
                Some(v) => get_attr(self.attr_seq(), a@) == Some(v@),
                None => get_attr(self.attr_seq(), a@) is None,
            },
    {
        self.attrs.get(a)
    }

    /// Applies the provided function to this item.
    pub fn map<F: FnOnce(Self) -> Self>(self, mapping: F) -> (r: Self)
        requires
            call_requires(mapping, (self,)),
        ensures
            call_ensures(mapping, (self,), r),
    {
        mapping(self)
    }

    /// Render this tag to its markup text.
    pub fn render(&self) -> (r: String)
        ensures
            r@ == self.render_spec(),
    {
        let mut out = String::new();
        self.render_into(&mut out);
        out
    }

    pub(crate) fn render_into(&self, out: &mut String)
        ensures
            final(out)@ == old(out)@ + self.render_spec(),
    {
        out.append("<h2");
        write_attributes(&self.attrs, out);
        out.append(">");
        out.append(self.text.as_str());
        out.append("</h2>");
    }
}

/// Text stored through the unchecked path is rendered verbatim: the markup
/// of a `H2` tag contains its text unchanged.
pub proof fn lemma_h2_renders_text_verbatim(h: H2)
    ensures
        contains_seq(h.render_spec(), h.text_view()),
{
    lemma_concat_contains_middle(
        "<h2"@ + render_attrs(h.attr_seq()) + ">"@,
        h.text_view(),
        "</h2>"@,
    );
}

/// The <h3> tag.
#[derive(Debug)]
pub struct H3 {
    text: String,
    attrs: AttrMap,
}

/// Creates a new `H3` tag holding the given (sanitized) text; functionally
/// equivalent to `H3::new(<text>)`, but easier to type.
pub fn h3(text: &str) -> (r: H3)
    ensures
        r.text_view() == clean_of(text@),
        r.attr_seq() == Seq::<(Seq<char>, Seq<char>)>::empty(),
{
    H3::new(text)
}

impl Clone for H3 {
    /// A copy with the same attributes and the same text; it renders
    /// identically to the original.
    fn clone(&self) -> (res: Self)
        ensures
            res.attr_seq() == self.attr_seq(),
            res.text_view() == self.text_view(),
    {
        H3 { attrs: self.attrs.clone(), text: self.text.clone() }
    }
}

impl H3 {
    /// The text this tag holds.
    pub closed spec fn text_view(self) -> Seq<char> {
        self.text@
    }

    /// The attributes set on this tag, in the order they were first set.
    pub closed spec fn attr_seq(self) -> Seq<(Seq<char>, Seq<char>)> {
        self.attrs@
    }

    /// The markup this tag renders to.
    pub open spec fn render_spec(self) -> Seq<char> {
        "<h3"@ + render_attrs(self.attr_seq()) + ">"@ + self.text_view() + "</h3>"@
    }

    /// Create a new item of this type, sanitizing the given text first.
    pub fn new(text: &str) -> (r: Self)
        ensures
            r.text_view() == clean_of(text@),
            r.attr_seq() == Seq::<(Seq<char>, Seq<char>)>::empty(),
    {
        H3 { text: clean(text), attrs: AttrMap::new() }
    }

    /// Create a new item of this type **without first sanitizing the text**.
    /// You only want this if you are certain that the text in question is
    /// safe (i.e. will not execute malicious Javascript when rendered).
    pub fn new_unchecked(text: &str) -> (r: Self)
        ensures
            r.text_view() == text@,
            r.attr_seq() == Seq::<(Seq<char>, Seq<char>)>::empty(),
    {
        H3 { text: text.to_owned(), attrs: AttrMap::new() }
    }

    /// Attach a new attribute to this node, overwriting any previous value
    /// set under the same name.
    pub fn attribute<A: Into<HeadingAttr>>(self, a: A) -> (r: Self)
        ensures
            obeys_into::<A, HeadingAttr>() ==> ({
                let pair = into_spec_of::<A, HeadingAttr>(a).attr_pair();
                r.text_view() == self.text_view() && r.attr_seq() == insert_attr(
                    self.attr_seq(),
                    pair.0,
                    pair.1,
                )
            }),
    {
        let mut s = self;
        let grouped: HeadingAttr = a.into();
        let (key, value) = grouped.into_attribute();
        s.attrs.insert(key, value);
        s
    }

    /// Attach an attribute to this tag from the provided raw data.
    ///
    /// Note that if you can, you should use the `attribute` method, because
    /// it takes better advantage of Rust's type system.
    pub fn raw_attribute(self, key: &str, value: &str) -> (r: Self)
        ensures
            r.text_view() == self.text_view(),
            r.attr_seq() == insert_attr(self.attr_seq(), key@, value@),
    {
        let mut s = self;
        s.attrs.insert(key.to_owned(), value.to_owned());
        s
    }

    /// Read an attribute that has been set.
    pub fn read_attribute<'a>(&'a self, a: &str) -> (r: Option<&'a String>)
        ensures
            match r {
                Some(v) => get_attr(self.attr_seq(), a@) == Some(v@),
                None => get_attr(self.attr_seq(), a@) is None,
            },
    {
        self.attrs.get(a)
    }

    /// Applies the provided function to this item.
    pub fn map<F: FnOnce(Self) -> Self>(self, mapping: F) -> (r: Self)
        requires
            call_requires(mapping, (self,)),
        ensures
            call_ensures(mapping, (self,), r),
    {
        mapping(self)
    }

    /// Render this tag to its markup text.
    pub fn render(&self) -> (r: String)
        ensures
            r@ == self.render_spec(),
    {
        let mut out = String::new();
        self.render_into(&mut out);
        out
    }

    pub(crate) fn render_into(&self, out: &mut String)
        ensures
            final(out)@ == old(out)@ + self.render_spec(),
    {
        out.append("<h3");
        write_attributes(&self.attrs, out);
        out.append(">");
        out.append(self.text.as_str());
        out.append("</h3>");
    }
}

/// Text stored through the unchecked path is rendered verbatim: the markup
/// of a `H3` tag contains its text unchanged.
pub proof fn lemma_h3_renders_text_verbatim(h: H3)
    ensures
        contains_seq(h.render_spec(), h.text_view()),
{
    lemma_concat_contains_middle(
        "<h3"@ + render_attrs(h.attr_seq()) + ">"@,
        h.text_view(),
        "</h3>"@,
    );
}

/// The <h4> tag.
#[derive(Debug)]
pub struct H4 {
    text: String,
    attrs: AttrMap,
}

/// Creates a new `H4` tag holding the given (sanitized) text; functionally
/// equivalent to `H4::new(<text>)`, but easier to type.
pub fn h4(text: &str) -> (r: H4)
    ensures
        r.text_view() == clean_of(text@),
        r.attr_seq() == Seq::<(Seq<char>, Seq<char>)>::empty(),
{
    H4::new(text)
}

impl Clone for H4 {
    /// A copy with the same attributes and the same text; it renders
    /// identically to the original.
    fn clone(&self) -> (res: Self)
        ensures
            res.attr_seq() == self.attr_seq(),
            res.text_view() == self.text_view(),
    {
        H4 { attrs: self.attrs.clone(), text: self.text.clone() }
    }
}

impl H4 {
    /// The text this tag holds.
    pub closed spec fn text_view(self) -> Seq<char> {
        self.text@
    }

    /// The attributes set on this tag, in the order they were first set.
    pub closed spec fn attr_seq(self) -> Seq<(Seq<char>, Seq<char>)> {
        self.attrs@
    }

    /// The markup this tag renders to.
    pub open spec fn render_spec(self) -> Seq<char> {
        "<h4"@ + render_attrs(self.attr_seq()) + ">"@ + self.text_view() + "</h4>"@
    }

    /// Create a new item of this type, sanitizing the given text first.
    pub fn new(text: &str) -> (r: Self)
        ensures
            r.text_view() == clean_of(text@),
            r.attr_seq() == Seq::<(Seq<char>, Seq<char>)>::empty(),
    {
        H4 { text: clean(text), attrs: AttrMap::new() }
    }

    /// Create a new item of this type **without first sanitizing the text**.
    /// You only want this if you are certain that the text in question is
    /// safe (i.e. will not execute malicious Javascript when rendered).
    pub fn new_unchecked(text: &str) -> (r: Self)
        ensures
            r.text_view() == text@,
            r.attr_seq() == Seq::<(Seq<char>, Seq<char>)>::empty(),
    {
        H4 { text: text.to_owned(), attrs: AttrMap::new() }
    }

    /// Attach a new attribute to this node, overwriting any previous value
    /// set under the same name.
    pub fn attribute<A: Into<HeadingAttr>>(self, a: A) -> (r: Self)
        ensures
            obeys_into::<A, HeadingAttr>() ==> ({
                let pair = into_spec_of::<A, HeadingAttr>(a).attr_pair();
                r.text_view() == self.text_view() && r.attr_seq() == insert_attr(
                    self.attr_seq(),
                    pair.0,
                    pair.1,
                )
            }),
    {
        let mut s = self;
        let grouped: HeadingAttr = a.into();
        let (key, value) = grouped.into_attribute();
        s.attrs.insert(key, value);
        s
    }

    /// Attach an attribute to this tag from the provided raw data.
    ///
    /// Note that if you can, you should use the `attribute` method, because
    /// it takes better advantage of Rust's type system.
    pub fn raw_attribute(self, key: &str, value: &str) -> (r: Self)
        ensures
            r.text_view() == self.text_view(),
            r.attr_seq() == insert_attr(self.attr_seq(), key@, value@),
    {
        let mut s = self;
        s.attrs.insert(key.to_owned(), value.to_owned());
        s
    }

    /// Read an attribute that has been set.
    pub fn read_attribute<'a>(&'a self, a: &str) -> (r: Option<&'a String>)
        ensures
            match r {
                Some(v) => get_attr(self.attr_seq(), a@) == Some(v@),
                None => get_attr(self.attr_seq(), a@) is None,
            },
    {
        self.attrs.get(a)
    }

    /// Applies the provided function to this item.
    pub fn map<F: FnOnce(Self) -> Self>(self, mapping: F) -> (r: Self)
        requires
            call_requires(mapping, (self,)),
        ensures
            call_ensures(mapping, (self,), r),
    {
        mapping(self)
    }

    /// Render this tag to its markup text.
    pub fn render(&self) -> (r: String)
        ensures
            r@ == self.render_spec(),
    {
        let mut out = String::new();
        self.render_into(&mut out);
        out
    }

    pub(crate) fn render_into(&self, out: &mut String)
        ensures
            final(out)@ == old(out)@ + self.render_spec(),
    {
        out.append("<h4");
        write_attributes(&self.attrs, out);
        out.append(">");
        out.append(self.text.as_str());
        out.append("</h4>");
    }
}

/// Text stored through the unchecked path is rendered verbatim: the markup
/// of a `H4` tag contains its text unchanged.
pub proof fn lemma_h4_renders_text_verbatim(h: H4)
    ensures
        contains_seq(h.render_spec(), h.text_view()),
{
    lemma_concat_contains_middle(
        "<h4"@ + render_attrs(h.attr_seq()) + ">"@,
        h.text_view(),
        "</h4>"@,
    );
}

/// The <h5> tag.
#[derive(Debug)]
pub struct H5 {
    text: String,
    attrs: AttrMap,
}

/// Creates a new `H5` tag holding the given (sanitized) text; functionally
/// equivalent to `H5::new(<text>)`, but easier to type.
pub fn h5(text: &str) -> (r: H5)
    ensures
        r.text_view() == clean_of(text@),
        r.attr_seq() == Seq::<(Seq<char>, Seq<char>)>::empty(),
{
    H5::new(text)
}

impl Clone for H5 {
    /// A copy with the same attributes and the same text; it renders
    /// identically to the original.
    fn clone(&self) -> (res: Self)
        ensures
            res.attr_seq() == self.attr_seq(),
            res.text_view() == self.text_view(),
    {
        H5 { attrs: self.attrs.clone(), text: self.text.clone() }
    }
}

impl H5 {
    /// The text this tag holds.
    pub closed spec fn text_view(self) -> Seq<char> {
        self.text@
    }

    /// The attributes set on this tag, in the order they were first set.
    pub closed spec fn attr_seq(self) -> Seq<(Seq<char>, Seq<char>)> {
        self.attrs@
    }

    /// The markup this tag renders to.
    pub open spec fn render_spec(self) -> Seq<char> {
        "<h5"@ + render_attrs(self.attr_seq()) + ">"@ + self.text_view() + "</h5>"@
    }

    /// Create a new item of this type, sanitizing the given text first.
    pub fn new(text: &str) -> (r: Self)
        ensures
            r.text_view() == clean_of(text@),
            r.attr_seq() == Seq::<(Seq<char>, Seq<char>)>::empty(),
    {
        H5 { text: clean(text), attrs: AttrMap::new() }
    }

    /// Create a new item of this type **without first sanitizing the text**.
    /// You only want this if you are certain that the text in question is
    /// safe (i.e. will not execute malicious Javascript when rendered).
    pub fn new_unchecked(text: &str) -> (r: Self)
        ensures
            r.text_view() == text@,
            r.attr_seq() == Seq::<(Seq<char>, Seq<char>)>::empty(),
    {
        H5 { text: text.to_owned(), attrs: AttrMap::new() }
    }

    /// Attach a new attribute to this node, overwriting any previous value
    /// set under the same name.
    pub fn attribute<A: Into<HeadingAttr>>(self, a: A) -> (r: Self)
        ensures
            obeys_into::<A, HeadingAttr>() ==> ({
                let pair = into_spec_of::<A, HeadingAttr>(a).attr_pair();
                r.text_view() == self.text_view() && r.attr_seq() == insert_attr(
                    self.attr_seq(),
                    pair.0,
                    pair.1,
                )
            }),
    {
        let mut s = self;
        let grouped: HeadingAttr = a.into();
        let (key, value) = grouped.into_attribute();
        s.attrs.insert(key, value);
        s
    }

    /// Attach an attribute to this tag from the provided raw data.
    ///
    /// Note that if you can, you should use the `attribute` method, because
    /// it takes better advantage of Rust's type system.
    pub fn raw_attribute(self, key: &str, value: &str) -> (r: Self)
        ensures
            r.text_view() == self.text_view(),
            r.attr_seq() == insert_attr(self.attr_seq(), key@, value@),
    {
        let mut s = self;
        s.attrs.insert(key.to_owned(), value.to_owned());
        s
    }

    /// Read an attribute that has been set.
    pub fn read_attribute<'a>(&'a self, a: &str) -> (r: Option<&'a String>)
        ensures
            match r {
                Some(v) => get_attr(self.attr_seq(), a@) == Some(v@),
                None => get_attr(self.attr_seq(), a@) is None,
            },
    {
        self.attrs.get(a)
    }

    /// Applies the provided function to this item.
    pub fn map<F: FnOnce(Self) -> Self>(self, mapping: F) -> (r: Self)
        requires
            call_requires(mapping, (self,)),
        ensures
            call_ensures(mapping, (self,), r),
    {
        mapping(self)
    }

    /// Render this tag to its markup text.
    pub fn render(&self) -> (r: String)
        ensures
            r@ == self.render_spec(),
    {
        let mut out = String::new();
        self.render_into(&mut out);
        out
    }

    pub(crate) fn render_into(&self, out: &mut String)
        ensures
            final(out)@ == old(out)@ + self.render_spec(),
    {
        out.append("<h5");
        write_attributes(&self.attrs, out);
        out.append(">");
        out.append(self.text.as_str());
        out.append("</h5>");
    }
}

/// Text stored through the unchecked path is rendered verbatim: the markup
/// of a `H5` tag contains its text unchanged.
pub proof fn lemma_h5_renders_text_verbatim(h: H5)
    ensures
        contains_seq(h.render_spec(), h.text_view()),
{
    lemma_concat_contains_middle(
        "<h5"@ + render_attrs(h.attr_seq()) + ">"@,
        h.text_view(),
        "</h5>"@,
    );
}

/// The <h6> tag.
#[derive(Debug)]
pub struct H6 {
    text: String,
    attrs: AttrMap,
}

/// Creates a new `H6` tag holding the given (sanitized) text; functionally
/// equivalent to `H6::new(<text>)`, but easier to type.
pub fn h6(text: &str) -> (r: H6)
    ensures
        r.text_view() == clean_of(text@),
        r.attr_seq() == Seq::<(Seq<char>, Seq<char>)>::empty(),
{
    H6::new(text)
}

impl Clone for H6 {
    /// A copy with the same attributes and the same text; it renders
    /// identically to the original.
    fn clone(&self) -> (res: Self)
        ensures
            res.attr_seq() == self.attr_seq(),
            res.text_view() == self.text_view(),
    {
        H6 { attrs: self.attrs.clone(), text: self.text.clone() }
    }
}

impl H6 {
    /// The text this tag holds.
    pub closed spec fn text_view(self) -> Seq<char> {
        self.text@
    }

    /// The attributes set on this tag, in the order they were first set.
    pub closed spec fn attr_seq(self) -> Seq<(Seq<char>, Seq<char>)> {
        self.attrs@
    }

    /// The markup this tag renders to.
    pub open spec fn render_spec(self) -> Seq<char> {
        "<h6"@ + render_attrs(self.attr_seq()) + ">"@ + self.text_view() + "</h6>"@
    }

    /// Create a new item of this type, sanitizing the given text first.
    pub fn new(text: &str) -> (r: Self)
        ensures
            r.text_view() == clean_of(text@),
            r.attr_seq() == Seq::<(Seq<char>, Seq<char>)>::empty(),
    {
        H6 { text: clean(text), attrs: AttrMap::new() }
    }

    /// Create a new item of this type **without first sanitizing the text**.
    /// You only want this if you are certain that the text in question is
    /// safe (i.e. will not execute malicious Javascript when rendered).
    pub fn new_unchecked(text: &str) -> (r: Self)
        ensures
            r.text_view() == text@,
            r.attr_seq() == Seq::<(Seq<char>, Seq<char>)>::empty(),
    {
        H6 { text: text.to_owned(), attrs: AttrMap::new() }
    }

    /// Attach a new attribute to this node, overwriting any previous value
    /// set under the same name.
    pub fn attribute<A: Into<HeadingAttr>>(self, a: A) -> (r: Self)
        ensures
            obeys_into::<A, HeadingAttr>() ==> ({
                let pair = into_spec_of::<A, HeadingAttr>(a).attr_pair();
                r.text_view() == self.text_view() && r.attr_seq() == insert_attr(
                    self.attr_seq(),
                    pair.0,
                    pair.1,
                )
            }),
    {
        let mut s = self;
        let grouped: HeadingAttr = a.into();
        let (key, value) = grouped.into_attribute();
        s.attrs.insert(key, value);
        s
    }

    /// Attach an attribute to this tag from the provided raw data.
    ///
    /// Note that if you can, you should use the `attribute` method, because
    /// it takes better advantage of Rust's type system.
    pub fn raw_attribute(self, key: &str, value: &str) -> (r: Self)
        ensures
            r.text_view() == self.text_view(),
            r.attr_seq() == insert_attr(self.attr_seq(), key@, value@),
    {
        let mut s = self;
        s.attrs.insert(key.to_owned(), value.to_owned());
        s
    }

    /// Read an attribute that has been set.
    pub fn read_attribute<'a>(&'a self, a: &str) -> (r: Option<&'a String>)
        ensures
            match r {
                Some(v) => get_attr(self.attr_seq(), a@) == Some(v@),
                None => get_attr(self.attr_seq(), a@) is None,
            },
    {
        self.attrs.get(a)
    }

    /// Applies the provided function to this item.
    pub fn map<F: FnOnce(Self) -> Self>(self, mapping: F) -> (r: Self)
        requires
            call_requires(mapping, (self,)),
        ensures
            call_ensures(mapping, (self,), r),
    {
        mapping(self)
    }

    /// Render this tag to its markup text.
    pub fn render(&self) -> (r: String)
        ensures
            r@ == self.render_spec(),
    {
        let mut out = String::new();
        self.render_into(&mut out);
        out
    }

    pub(crate) fn render_into(&self, out: &mut String)
        ensures
            final(out)@ == old(out)@ + self.render_spec(),
    {
        out.append("<h6");
        write_attributes(&self.attrs, out);
        out.append(">");
        out.append(self.text.as_str());
        out.append("</h6>");
    }
}

/// Text stored through the unchecked path is rendered verbatim: the markup
/// of a `H6` tag contains its text unchanged.
pub proof fn lemma_h6_renders_text_verbatim(h: H6)
    ensures
        contains_seq(h.render_spec(), h.text_view()),
{
    lemma_concat_contains_middle(
        "<h6"@ + render_attrs(h.attr_seq()) + ">"@,
        h.text_view(),
        "</h6>"@,
    );
}

} // verus!
