use vstd::prelude::*;

verus! {

use crate::attributes::{
    AttrMap, IntoAttribute, get_attr, insert_attr, into_spec_of, obeys_into, render_attrs,
    write_attributes,
};
use crate::render::{contains_seq, lemma_concat_contains_middle};
use crate::sanitize::{clean, clean_of};
use crate::tags::headings::HeadingAttr;
use vstd::string::StringExecFns;

/// The <label> tag.
#[derive(Debug)]
pub struct Label {
    text: String,
    attrs: AttrMap,
}

/// Creates a new `Label` tag holding the given (sanitized) text; functionally
/// equivalent to `Label::new(<text>)`, but easier to type.
pub fn label(text: &str) -> (r: Label)
    ensures
        r.text_view() == clean_of(text@),
        r.attr_seq() == Seq::<(Seq<char>, Seq<char>)>::empty(),
{
    Label::new(text)
}

impl Clone for Label {
    /// A copy with the same attributes and the same text; it renders
    /// identically to the original.
    fn clone(&self) -> (res: Self)
        ensures
            res.attr_seq() == self.attr_seq(),
            res.text_view() == self.text_view(),
    {
        Label { attrs: self.attrs.clone(), text: self.text.clone() }
    }
}

impl Label {
    /// The text this tag holds.
    pub closed spec fn text_view(self) -> Seq<char> {
        self.text@
    }

    /// The attributes set on this tag, in the order they were first set.
    pub closed spec fn attr_seq(self) -> Seq<(Seq<char>, Seq<char>)> {
        self.attrs@
    }

    /// The markup this tag renders to.
    pub open spec fn render_spec(self) -> Seq<char> {
        "<label"@ + render_attrs(self.attr_seq()) + ">"@ + self.text_view() + "</label>"@
    }

    /// Create a new item of this type, sanitizing the given text first.
    pub fn new(text: &str) -> (r: Self)
        ensures
            r.text_view() == clean_of(text@),
            r.attr_seq() == Seq::<(Seq<char>, Seq<char>)>::empty(),
    {
        Label { text: clean(text), attrs: AttrMap::new() }
    }

    /// Create a new item of this type **without first sanitizing the text**.
    /// You only want this if you are certain that the text in question is
    /// safe (i.e. will not execute malicious Javascript when rendered).
    pub fn new_unchecked(text: &str) -> (r: Self)
        ensures
            r.text_view() == text@,
            r.attr_seq() == Seq::<(Seq<char>, Seq<char>)>::empty(),
    {
        Label { text: text.to_owned(), attrs: AttrMap::new() }
    }

    /// Attach a new attribute to this node, overwriting any previous value
    /// set under the same name.
    pub fn attribute<A: Into<HeadingAttr>>(self, a: A) -> (r: Self)
        ensures
            obeys_into::<A, HeadingAttr>() ==> ({
                let pair = into_spec_of::<A, HeadingAttr>(a).attr_pair();
                r.text_view() == self.text_view() && r.attr_seq() == insert_attr(
                    self.attr_seq(),
                    pair.0,
                    pair.1,
                )
            }),
    {
        let mut s = self;
        let grouped: HeadingAttr = a.into();
        let (key, value) = grouped.into_attribute();
        s.attrs.insert(key, value);
        s
    }

    /// Attach an attribute to this tag from the provided raw data.
    ///
    /// Note that if you can, you should use the `attribute` method, because
    /// it takes better advantage of Rust's type system.
    pub fn raw_attribute(self, key: &str, value: &str) -> (r: Self)
        ensures
            r.text_view() == self.text_view(),
            r.attr_seq() == insert_attr(self.attr_seq(), key@, value@),
    {
        let mut s = self;
        s.attrs.insert(key.to_owned(), value.to_owned());
        s
    }

    /// Read an attribute that has been set.
    pub fn read_attribute<'a>(&'a self, a: &str) -> (r: Option<&'a String>)
        ensures
            match r {
                Some(v) => get_attr(self.attr_seq(), a@) == Some(v@),
                None => get_attr(self.attr_seq(), a@) is None,
            },
    {
        self.attrs.get(a)
    }

    /// Applies the provided function to this item.
    pub fn map<F: FnOnce(Self) -> Self>(self, mapping: F) -> (r: Self)
        requires
            call_requires(mapping, (self,)),
        ensures
            call_ensures(mapping, (self,), r),
    {
        mapping(self)
    }

    /// Render this tag to its markup text.
    pub fn render(&self) -> (r: String)
        ensures
            r@ == self.render_spec(),
    {
        let mut out = String::new();
        self.render_into(&mut out);
        out
    }

    pub(crate) fn render_into(&self, out: &mut String)
        ensures
            final(out)@ == old(out)@ + self.render_spec(),
    {
        out.append("<label");
        write_attributes(&self.attrs, out);
        out.append(">");
        out.append(self.text.as_str());
        out.append("</label>");
    }
}

/// Text stored through the unchecked path is rendered verbatim: the markup
/// of a `Label` tag contains its text unchanged.
pub proof fn lemma_label_renders_text_verbatim(h: Label)
    ensures
        contains_seq(h.render_spec(), h.text_view()),
{
    lemma_concat_contains_middle(
        "<label"@ + render_attrs(h.attr_seq()) + ">"@,
        h.text_view(),
        "</label>"@,
    );
}

} // verus!
