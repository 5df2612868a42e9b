use vstd::prelude::*;

verus! {

use crate::attributes::{
    AttrMap, Class, Id, IntoAttribute, get_attr, insert_attr, into_spec_of, obeys_into,
    render_attrs, write_attributes,
};
use crate::render::{contains_seq, lemma_concat_contains_middle};
use crate::sanitize::{clean, clean_of};
use crate::tags::body_node::{BodyNode, render_nodes};
use crate::text::Text;
use vstd::string::StringExecFns;

/// The `<p>` tag.  It holds its own text, and after the text an ordered
/// sequence of child nodes.
#[derive(Debug)]
pub struct P {
    attrs: AttrMap,
    text: String,
    children: Vec<BodyNode>,
}

/// Creates a new `P` tag; functionally equivalent to `P::default()`, but
/// easier to type.
pub fn p() -> (r: P)
    ensures
        r.attr_seq() == Seq::<(Seq<char>, Seq<char>)>::empty(),
        r.text_view() == Seq::<char>::empty(),
        r.child_seq() == Seq::<BodyNode>::empty(),
{
    P::default()
}

impl Default for P {
    /// An empty paragraph: no attributes, no text, no children.
    fn default() -> (r: Self)
        ensures
            r.attr_seq() == Seq::<(Seq<char>, Seq<char>)>::empty(),
            r.text_view() == Seq::<char>::empty(),
            r.child_seq() == Seq::<BodyNode>::empty(),
    {
        let r = P { attrs: AttrMap::new(), text: String::new(), children: Vec::new() };
        proof {
            assert(r.child_seq() =~= Seq::<BodyNode>::empty());
        }
        r
    }
}

impl Clone for P {
    /// A deep copy of this tag, with the same attributes, the same text, and
    /// child-for-child copies of its children; it renders identically to the
    /// original.
    #[verifier::loop_isolation(false)]
    fn clone(&self) -> (res: Self)
        ensures
            res.attr_seq() == self.attr_seq(),
            res.text_view() == self.text_view(),
            res.render_spec() == self.render_spec(),
        decreases *self,
    {
        let mut children: Vec<BodyNode> = Vec::new();
        let mut i: usize = 0;
        while i < self.children.len()
            invariant
                0 <= i <= self.children.len(),
                render_nodes(children@) == render_nodes(self.children@.take(i as int)),
            decreases self.children.len() - i,
        {
            proof {
                assert(self.children@.take(i + 1).drop_last() =~= self.children@.take(i as int));
                assert(self.children@.take(i + 1).last() == self.children@[i as int]);
            }
            let c = self.children[i].clone();
            let ghost prev = children@;
            children.push(c);
            proof {
                assert(children@.drop_last() =~= prev);
                assert(children@.last() == c);
            }
            i = i + 1;
        }
        proof {
            assert(self.children@.take(self.children.len() as int) =~= self.children@);
        }
        P { attrs: self.attrs.clone(), text: self.text.clone(), children }
    }
}

impl P {
    /// The attributes set on this tag, in the order they were first set.
    pub closed spec fn attr_seq(self) -> Seq<(Seq<char>, Seq<char>)> {
        self.attrs@
    }

    /// The text this tag holds, emitted before its children.
    pub closed spec fn text_view(self) -> Seq<char> {
        self.text@
    }

    /// The children of this tag, in insertion order.
    pub closed spec fn child_seq(self) -> Seq<BodyNode> {
        self.children@
    }

    /// The markup this tag renders to: its attributes, its own text, then
    /// every child in insertion order.
    pub open spec fn render_spec(self) -> Seq<char>
        decreases self,
        via Self::render_spec_decreases
    {
        "<p"@ + render_attrs(self.attr_seq()) + ">"@ + self.text_view() + render_nodes(
            self.child_seq(),
        ) + "</p>"@
    }

    #[via_fn]
    proof fn render_spec_decreases(self) {
        assert(decreases_to!(self => self.children));
        assert(decreases_to!(self.children => self.children@));
        assert(self.child_seq() == self.children@);
    }

    /// Create a new paragraph with the provided text, sanitizing it first.
    pub fn new(text: &str) -> (r: Self)
        ensures
            r.attr_seq() == Seq::<(Seq<char>, Seq<char>)>::empty(),
            r.text_view() == clean_of(text@),
            r.child_seq() == Seq::<BodyNode>::empty(),
    {
        Self::with_text(text)
    }

    /// A method to construct a paragraph containing the supplied text,
    /// sanitized first.
    pub fn with_text(text: &str) -> (r: Self)
        ensures
            r.attr_seq() == Seq::<(Seq<char>, Seq<char>)>::empty(),
            r.text_view() == clean_of(text@),
            r.child_seq() == Seq::<BodyNode>::empty(),
    {
        let r = P { attrs: AttrMap::new(), text: clean(text), children: Vec::new() };
        proof {
            assert(r.child_seq() =~= Seq::<BodyNode>::empty());
        }
        r
    }

    /// Create a new `<p>` tag **without sanitizing the text first**.  You
    /// only want this if you are certain that the text in question is safe.
    pub fn new_unchecked(text: &str) -> (r: Self)
        ensures
            r.attr_seq() == Seq::<(Seq<char>, Seq<char>)>::empty(),
            r.text_view() == text@,
            r.child_seq() == Seq::<BodyNode>::empty(),
    {
        let r = P { attrs: AttrMap::new(), text: text.to_owned(), children: Vec::new() };
        proof {
            assert(r.child_seq() =~= Seq::<BodyNode>::empty());
        }
        r
    }

    /// Attach a new child to this tag, after every existing child.
    pub fn child<C: Into<BodyNode>>(self, child: C) -> (r: Self)
        ensures
            obeys_into::<C, BodyNode>() ==> (r.attr_seq() == self.attr_seq() && r.text_view()
                == self.text_view() && r.child_seq() == self.child_seq().push(
                into_spec_of::<C, BodyNode>(child),
            )),
    {
        let mut s = self;
        let n: BodyNode = child.into();
        s.children.push(n);
        s
    }

    /// Append new children to this tag, preserving their order.
    pub fn children(self, children: Vec<BodyNode>) -> (r: Self)
        ensures
            r.attr_seq() == self.attr_seq(),
            r.text_view() == self.text_view(),
            r.child_seq() == self.child_seq() + children@,
    {
        let mut s = self;
        let mut given = children;
        s.children.append(&mut given);
        s
    }

    /// Append a text node holding the supplied text, sanitized first.
    pub fn text(self, text: &str) -> (r: Self)
        ensures
            r.attr_seq() == self.attr_seq(),
            r.text_view() == self.text_view(),
            r.child_seq().len() == self.child_seq().len() + 1,
            r.child_seq().take(self.child_seq().len() as int) == self.child_seq(),
            (r.child_seq().last() matches BodyNode::Text(t) && t.text_view() == clean_of(text@)),
    {
        self.child(Text::new(text))
    }

    /// Append a text node holding the supplied text **without sanitizing
    /// it**.
    ///
    /// WARNING: do not use this method with unescaped user-supplied text:
    /// it will be rendered verbatim.  If in doubt, use the `text` method.
    pub fn text_unsanitized(self, text: &str) -> (r: Self)
        ensures
            r.attr_seq() == self.attr_seq(),
            r.text_view() == self.text_view(),
            r.child_seq().len() == self.child_seq().len() + 1,
            r.child_seq().take(self.child_seq().len() as int) == self.child_seq(),
            (r.child_seq().last() matches BodyNode::Text(t) && t.text_view() == text@),
    {
        self.child(Text::new_unchecked(text))
    }

    /// Set the specified attribute on this `P` tag, overwriting any previous
    /// value set under the same name.
    pub fn attribute<A: Into<PAttr>>(self, attr: A) -> (r: Self)
        ensures
            obeys_into::<A, PAttr>() ==> ({
                let pair = into_spec_of::<A, PAttr>(attr).attr_pair();
                r.attr_seq() == insert_attr(self.attr_seq(), pair.0, pair.1) && r.text_view()
                    == self.text_view() && r.child_seq() == self.child_seq()
            }),
    {
        let mut s = self;
        let grouped: PAttr = attr.into();
        let (key, value) = grouped.into_attribute();
        s.attrs.insert(key, value);
        s
    }

    /// Read an attribute from this tag, if it exists.
    pub fn read_attribute<'a>(&'a self, key: &str) -> (r: Option<&'a String>)
        ensures
            match r {
                Some(v) => get_attr(self.attr_seq(), key@) == Some(v@),
                None => get_attr(self.attr_seq(), key@) is None,
            },
    {
        self.attrs.get(key)
    }

    /// Render this tag to its markup text.
    pub fn render(&self) -> (r: String)
        ensures
            r@ == self.render_spec(),
    {
        let mut out = String::new();
        self.render_into(&mut out);
        out
    }

    #[verifier::loop_isolation(false)]
    pub(crate) fn render_into(&self, out: &mut String)
        ensures
            final(out)@ == old(out)@ + self.render_spec(),
        decreases *self,
    {
        out.append("<p");
        write_attributes(&self.attrs, out);
        out.append(">");
        out.append(self.text.as_str());
        let ghost base = out@;
        let mut i: usize = 0;
        while i < self.children.len()
            invariant
                0 <= i <= self.children.len(),
                out@ == base + render_nodes(self.children@.take(i as int)),
            decreases self.children.len() - i,
        {
            proof {
                assert(self.children@.take(i + 1).drop_last() =~= self.children@.take(i as int));
                assert(self.children@.take(i + 1).last() == self.children@[i as int]);
            }
            self.children[i].render_into(out);
            i = i + 1;
        }
        proof {
            assert(self.children@.take(self.children.len() as int) =~= self.children@);
        }
        out.append("</p>");
    }
}

/// Text stored through the unchecked path is rendered verbatim: the markup
/// of a `P` tag contains its own text unchanged.
pub proof fn lemma_p_renders_text_verbatim(t: P)
    ensures
        contains_seq(t.render_spec(), t.text_view()),
{
    lemma_concat_contains_middle(
        "<p"@ + render_attrs(t.attr_seq()) + ">"@,
        t.text_view(),
        render_nodes(t.child_seq()) + "</p>"@,
    );
    assert("<p"@ + render_attrs(t.attr_seq()) + ">"@ + t.text_view() + (render_nodes(t.child_seq())
        + "</p>"@) =~= t.render_spec());
}

/// An attribute which may be attached to a `<p>` tag.
#[derive(Debug, Clone)]
#[allow(missing_docs)]
pub enum PAttr {
    Id(Id),
    Class(Class),
}

impl IntoAttribute for PAttr {
    open spec fn attr_pair(self) -> (Seq<char>, Seq<char>) {
        match self {
            PAttr::Id(x) => x.attr_pair(),
            PAttr::Class(x) => x.attr_pair(),
        }
    }

    fn into_attribute(self) -> (r: (String, String)) {
        match self {
            PAttr::Id(x) => x.into_attribute(),
            PAttr::Class(x) => x.into_attribute(),
        }
    }
}

impl From<Id> for PAttr {
    fn from(t: Id) -> (r: PAttr) {
        PAttr::Id(t)
    }
}

impl vstd::std_specs::convert::FromSpecImpl<Id> for PAttr {
    open spec fn obeys_from_spec() -> bool {
        true
    }

    open spec fn from_spec(t: Id) -> PAttr {
        PAttr::Id(t)
    }
}

impl From<Class> for PAttr {
    fn from(t: Class) -> (r: PAttr) {
        PAttr::Class(t)
    }
}

impl vstd::std_specs::convert::FromSpecImpl<Class> for PAttr {
    open spec fn obeys_from_spec() -> bool {
        true
    }

    open spec fn from_spec(t: Class) -> PAttr {
        PAttr::Class(t)
    }
}

} // verus!
