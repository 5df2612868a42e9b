use vstd::prelude::*;

verus! {

use crate::attributes::{
    AttrMap, IntoAttribute, get_attr, insert_attr, into_spec_of, obeys_into,
};
use crate::render::contains_seq;
use crate::sanitize::{clean, clean_of};
use crate::tags::headings::HeadingAttr;
use vstd::string::StringExecFns;

/// A text node.  It renders to exactly the text it holds: no tag is emitted
/// around it, and its attributes (which the builder API lets you set for
/// uniformity with the other nodes) do not appear in the rendered markup.
#[derive(Debug)]
pub struct Text {
    text: String,
    attrs: AttrMap,
}

/// Creates a new `Text` node holding the given (sanitized) text;
/// functionally equivalent to `Text::new(<text>)`, but easier to type.
pub fn text(t: &str) -> (r: Text)
    ensures
        r.text_view() == clean_of(t@),
        r.attr_seq() == Seq::<(Seq<char>, Seq<char>)>::empty(),
{
    Text::new(t)
}

impl Clone for Text {
    /// A copy with the same attributes and the same text; it renders
    /// identically to the original.
    fn clone(&self) -> (res: Self)
        ensures
            res.attr_seq() == self.attr_seq(),
            res.text_view() == self.text_view(),
    {
        Text { attrs: self.attrs.clone(), text: self.text.clone() }
    }
}

impl Text {
    /// The text this node holds.
    pub closed spec fn text_view(self) -> Seq<char> {
        self.text@
    }

    /// The attributes set on this node, in the order they were first set.
    pub closed spec fn attr_seq(self) -> Seq<(Seq<char>, Seq<char>)> {
        self.attrs@
    }

    /// The markup this node renders to: its text, verbatim.
    pub open spec fn render_spec(self) -> Seq<char> {
        self.text_view()
    }

    /// Create a new text node, sanitizing the given text first.
    pub fn new(text: &str) -> (r: Self)
        ensures
            r.text_view() == clean_of(text@),
            r.attr_seq() == Seq::<(Seq<char>, Seq<char>)>::empty(),
    {
        Text { text: clean(text), attrs: AttrMap::new() }
    }

    /// Create a new text node **without first sanitizing the text**.  You
    /// only want this if you are certain that the text in question is safe
    /// (i.e. will not execute malicious Javascript when rendered).
    pub fn new_unchecked(text: &str) -> (r: Self)
        ensures
            r.text_view() == text@,
            r.attr_seq() == Seq::<(Seq<char>, Seq<char>)>::empty(),
    {
        Text { text: text.to_owned(), attrs: AttrMap::new() }
    }

    /// Attach a new attribute to this node, overwriting any previous value
    /// set under the same name.
    pub fn attribute<A: Into<HeadingAttr>>(self, a: A) -> (r: Self)
        ensures
            obeys_into::<A, HeadingAttr>() ==> ({
                let pair = into_spec_of::<A, HeadingAttr>(a).attr_pair();
                r.text_view() == self.text_view() && r.attr_seq() == insert_attr(
                    self.attr_seq(),
                    pair.0,
                    pair.1,
                )
            }),
    {
        let mut s = self;
        let grouped: HeadingAttr = a.into();
        let (key, value) = grouped.into_attribute();
        s.attrs.insert(key, value);
        s
    }

    /// Attach an attribute to this node from the provided raw data.
    pub fn raw_attribute(self, key: &str, value: &str) -> (r: Self)
        ensures
            r.text_view() == self.text_view(),
            r.attr_seq() == insert_attr(self.attr_seq(), key@, value@),
    {
        let mut s = self;
        s.attrs.insert(key.to_owned(), value.to_owned());
        s
    }

    /// Read an attribute that has been set.
    pub fn read_attribute<'a>(&'a self, a: &str) -> (r: Option<&'a String>)
        ensures
            match r {
                Some(v) => get_attr(self.attr_seq(), a@) == Some(v@),
                None => get_attr(self.attr_seq(), a@) is None,
            },
    {
        self.attrs.get(a)
    }

    /// Applies the provided function to this item.
    pub fn map<F: FnOnce(Self) -> Self>(self, mapping: F) -> (r: Self)
        requires
            call_requires(mapping, (self,)),
        ensures
            call_ensures(mapping, (self,), r),
    {
        mapping(self)
    }

    /// Render this node to its markup text.
    pub fn render(&self) -> (r: String)
        ensures
            r@ == self.render_spec(),
    {
        let mut out = String::new();
        self.render_into(&mut out);
        out
    }

    pub(crate) fn render_into(&self, out: &mut String)
        ensures
            final(out)@ == old(out)@ + self.render_spec(),
    {
        out.append(self.text.as_str());
    }
}

/// Text stored through the unchecked path is rendered verbatim: the markup
/// of a `Text` node contains its text unchanged.
pub proof fn lemma_text_renders_text_verbatim(t: Text)
    ensures
        contains_seq(t.render_spec(), t.text_view()),
{
    assert(t.render_spec().subrange(0, 0 + t.text_view().len() as int) =~= t.text_view());
}

} // verus!
