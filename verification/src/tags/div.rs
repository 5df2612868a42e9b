use vstd::prelude::*;

verus! {

use crate::attributes::{
    AttrMap, Class, Id, IntoAttribute, Style, convert_all, get_attr, insert_attr, into_spec_of,
    obeys_into, render_attrs, write_attributes,
};
use crate::sanitize::clean_of;
use crate::tags::body_node::{BodyNode, render_nodes};
use crate::tags::headings::{H1, H2, H3, H4, H5, H6};
use vstd::string::StringExecFns;

/// The `<div>` tag: a container holding an ordered sequence of child
/// nodes, plus its own attributes.
#[derive(Debug)]
pub struct Div {
    children: Vec<BodyNode>,
    attrs: AttrMap,
}

/// Creates a new `Div` tag; functionally equivalent to `Div::new()`,
/// but easier to type.
pub fn div() -> (r: Div)
    ensures
        r.attr_seq() == Seq::<(Seq<char>, Seq<char>)>::empty(),
        r.child_seq() == Seq::<BodyNode>::empty(),
{
    Div::new()
}

impl Default for Div {
    /// An empty `<div>` tag: no attributes and no children.
    fn default() -> (r: Self)
        ensures
            r.attr_seq() == Seq::<(Seq<char>, Seq<char>)>::empty(),
            r.child_seq() == Seq::<BodyNode>::empty(),
    {
        let r = Div { children: Vec::new(), attrs: AttrMap::new() };
        proof {
            assert(r.child_seq() =~= Seq::<BodyNode>::empty());
        }
        r
    }
}

impl Clone for Div {
    /// A deep copy of this tag, with the same attributes and
    /// child-for-child copies of its children; it renders identically to the
    /// original.
    #[verifier::loop_isolation(false)]
    fn clone(&self) -> (res: Self)
        ensures
            res.attr_seq() == self.attr_seq(),
            res.render_spec() == self.render_spec(),
        decreases *self,
    {
        let mut children: Vec<BodyNode> = Vec::new();
        let mut i: usize = 0;
        while i < self.children.len()
            invariant
                0 <= i <= self.children.len(),
                render_nodes(children@) == render_nodes(self.children@.take(i as int)),
            decreases self.children.len() - i,
        {
            proof {
                assert(self.children@.take(i + 1).drop_last() =~= self.children@.take(i as int));
                assert(self.children@.take(i + 1).last() == self.children@[i as int]);
            }
            let c = self.children[i].clone();
            let ghost prev = children@;
            children.push(c);
            proof {
                assert(children@.drop_last() =~= prev);
                assert(children@.last() == c);
            }
            i = i + 1;
        }
        proof {
            assert(self.children@.take(self.children.len() as int) =~= self.children@);
        }
        Div { children, attrs: self.attrs.clone() }
    }
}

impl Div {
    /// The attributes set on this tag, in the order they were first set.
    pub closed spec fn attr_seq(self) -> Seq<(Seq<char>, Seq<char>)> {
        self.attrs@
    }

    /// The children of this tag, in insertion order.
    pub closed spec fn child_seq(self) -> Seq<BodyNode> {
        self.children@
    }

    /// The markup this tag renders to: its attributes, then every child in
    /// insertion order.
    pub open spec fn render_spec(self) -> Seq<char>
        decreases self,
        via Self::render_spec_decreases

    {
        "<div"@ + render_attrs(self.attr_seq()) + ">"@ + render_nodes(self.child_seq())
            + "</div>"@
    }

    #[via_fn]
    proof fn render_spec_decreases(self) {
        assert(decreases_to!(self => self.children));
        assert(decreases_to!(self.children => self.children@));
        assert(self.child_seq() == self.children@);
    }

    /// Create a new `<div>` tag with no attributes and no children.
    pub fn new() -> (r: Self)
        ensures
            r.attr_seq() == Seq::<(Seq<char>, Seq<char>)>::empty(),
            r.child_seq() == Seq::<BodyNode>::empty(),
    {
        Self::default()
    }

    /// Attach a single child to this tag, after every existing child.
    pub fn child<C: Into<BodyNode>>(self, child: C) -> (r: Self)
        ensures
            obeys_into::<C, BodyNode>() ==> (r.attr_seq() == self.attr_seq() && r.child_seq()
                == self.child_seq().push(into_spec_of::<C, BodyNode>(child))),
    {
        let mut s = self;
        let n: BodyNode = child.into();
        s.children.push(n);
        s
    }

    /// Append any number of children to this tag, preserving their order.
    pub fn children<C: Into<BodyNode>>(self, children: Vec<C>) -> (r: Self)
        ensures
            obeys_into::<C, BodyNode>() ==> (r.attr_seq() == self.attr_seq() && r.child_seq()
                == self.child_seq() + children@.map_values(
                (|c: C| into_spec_of::<C, BodyNode>(c)),
            )),
    {
        let mut s = self;
        let mut converted = convert_all(children);
        s.children.append(&mut converted);
        s
    }

    /// Attach a single attribute to this tag, overwriting any previous
    /// value set under the same name.
    pub fn attribute<A: Into<DivAttr>>(self, attribute: A) -> (r: Self)
        ensures
            obeys_into::<A, DivAttr>() ==> ({
                let pair = into_spec_of::<A, DivAttr>(attribute).attr_pair();
                r.attr_seq() == insert_attr(self.attr_seq(), pair.0, pair.1) && r.child_seq()
                    == self.child_seq()
            }),
    {
        let mut s = self;
        let grouped: DivAttr = attribute.into();
        let (key, value) = grouped.into_attribute();
        s.attrs.insert(key, value);
        s
    }

    /// Attach an attribute to this tag from the provided raw data.
    ///
    /// Note that if you can, you should use the `attribute` method, because
    /// it takes better advantage of Rust's type system.
    pub fn raw_attribute(self, key: &str, value: &str) -> (r: Self)
        ensures
            r.attr_seq() == insert_attr(self.attr_seq(), key@, value@),
            r.child_seq() == self.child_seq(),
    {
        let mut s = self;
        s.attrs.insert(key.to_owned(), value.to_owned());
        s
    }

    /// Read an attribute that has been set.
    pub fn read_attribute<'a>(&'a self, attribute: &str) -> (r: Option<&'a String>)
        ensures
            match r {
                Some(v) => get_attr(self.attr_seq(), attribute@) == Some(v@),
                None => get_attr(self.attr_seq(), attribute@) is None,
            },
    {
        self.attrs.get(attribute)
    }

    /// Apply a function to this tag.
    pub fn map<F: FnOnce(Self) -> Self>(self, mapping: F) -> (r: Self)
        requires
            call_requires(mapping, (self,)),
        ensures
            call_ensures(mapping, (self,), r),
    {
        mapping(self)
    }

    /// Attach a new `H1` heading holding the given (sanitized) text.  This
    /// is a convenience wrapper, functionally equivalent to passing
    /// `H1::new` the text and attaching the result with `child`.
    pub fn h1(self, c: &str) -> (r: Self)
        ensures
            r.attr_seq() == self.attr_seq(),
            r.child_seq().len() == self.child_seq().len() + 1,
            r.child_seq().take(self.child_seq().len() as int) == self.child_seq(),
            (r.child_seq().last() matches BodyNode::H1(h) && h.text_view() == clean_of(c@)
                && h.attr_seq() == Seq::<(Seq<char>, Seq<char>)>::empty()),
    {
        self.child(H1::new(c))
    }

    /// Attach a new `H2` heading holding the given (sanitized) text.  This
    /// is a convenience wrapper, functionally equivalent to passing
    /// `H2::new` the text and attaching the result with `child`.
    pub fn h2(self, c: &str) -> (r: Self)
        ensures
            r.attr_seq() == self.attr_seq(),
            r.child_seq().len() == self.child_seq().len() + 1,
            r.child_seq().take(self.child_seq().len() as int) == self.child_seq(),
            (r.child_seq().last() matches BodyNode::H2(h) && h.text_view() == clean_of(c@)
                && h.attr_seq() == Seq::<(Seq<char>, Seq<char>)>::empty()),
    {
        self.child(H2::new(c))
    }

    /// Attach a new `H3` heading holding the given (sanitized) text.  This
    /// is a convenience wrapper, functionally equivalent to passing
    /// `H3::new` the text and attaching the result with `child`.
    pub fn h3(self, c: &str) -> (r: Self)
        ensures
            r.attr_seq() == self.attr_seq(),
            r.child_seq().len() == self.child_seq().len() + 1,
            r.child_seq().take(self.child_seq().len() as int) == self.child_seq(),
            (r.child_seq().last() matches BodyNode::H3(h) && h.text_view() == clean_of(c@)
                && h.attr_seq() == Seq::<(Seq<char>, Seq<char>)>::empty()),
    {
        self.child(H3::new(c))
    }

    /// Attach a new `H4` heading holding the given (sanitized) text.  This
    /// is a convenience wrapper, functionally equivalent to passing
    /// `H4::new` the text and attaching the result with `child`.
    pub fn h4(self, c: &str) -> (r: Self)
        ensures
            r.attr_seq() == self.attr_seq(),
            r.child_seq().len() == self.child_seq().len() + 1,
            r.child_seq().take(self.child_seq().len() as int) == self.child_seq(),
            (r.child_seq().last() matches BodyNode::H4(h) && h.text_view() == clean_of(c@)
                && h.attr_seq() == Seq::<(Seq<char>, Seq<char>)>::empty()),
    {
        self.child(H4::new(c))
    }

    /// Attach a new `H5` heading holding the given (sanitized) text.  This
    /// is a convenience wrapper, functionally equivalent to passing
    /// `H5::new` the text and attaching the result with `child`.
    pub fn h5(self, c: &str) -> (r: Self)
        ensures
            r.attr_seq() == self.attr_seq(),
            r.child_seq().len() == self.child_seq().len() + 1,
            r.child_seq().take(self.child_seq().len() as int) == self.child_seq(),
            (r.child_seq().last() matches BodyNode::H5(h) && h.text_view() == clean_of(c@)
                && h.attr_seq() == Seq::<(Seq<char>, Seq<char>)>::empty()),
    {
        self.child(H5::new(c))
    }

    /// Attach a new `H6` heading holding the given (sanitized) text.  This
    /// is a convenience wrapper, functionally equivalent to passing
    /// `H6::new` the text and attaching the result with `child`.
    pub fn h6(self, c: &str) -> (r: Self)
        ensures
            r.attr_seq() == self.attr_seq(),
            r.child_seq().len() == self.child_seq().len() + 1,
            r.child_seq().take(self.child_seq().len() as int) == self.child_seq(),
            (r.child_seq().last() matches BodyNode::H6(h) && h.text_view() == clean_of(c@)
                && h.attr_seq() == Seq::<(Seq<char>, Seq<char>)>::empty()),
    {
        self.child(H6::new(c))
    }

    /// Render this tag to its markup text.
    pub fn render(&self) -> (r: String)
        ensures
            r@ == self.render_spec(),
    {
        let mut out = String::new();
        self.render_into(&mut out);
        out
    }

    #[verifier::loop_isolation(false)]
    pub(crate) fn render_into(&self, out: &mut String)
        ensures
            final(out)@ == old(out)@ + self.render_spec(),
        decreases *self,
    {
        out.append("<div");
        write_attributes(&self.attrs, out);
        out.append(">");
        let ghost base = out@;
        let mut i: usize = 0;
        while i < self.children.len()
            invariant
                0 <= i <= self.children.len(),
                out@ == base + render_nodes(self.children@.take(i as int)),
            decreases self.children.len() - i,
        {
            proof {
                assert(self.children@.take(i + 1).drop_last() =~= self.children@.take(i as int));
                assert(self.children@.take(i + 1).last() == self.children@[i as int]);
            }
            self.children[i].render_into(out);
            i = i + 1;
        }
        proof {
            assert(self.children@.take(self.children.len() as int) =~= self.children@);
        }
        out.append("</div>");
    }
}

/// An attribute which may be attached to a `<div>` tag.
#[derive(Debug, Clone)]
#[allow(missing_docs)]
pub enum DivAttr {
    Id(Id),
    Class(Class),
    Style(Style),
}

impl IntoAttribute for DivAttr {
    open spec fn attr_pair(self) -> (Seq<char>, Seq<char>) {
        match self {
            DivAttr::Id(x) => x.attr_pair(),
            DivAttr::Class(x) => x.attr_pair(),
            DivAttr::Style(x) => x.attr_pair(),
        }
    }

    fn into_attribute(self) -> (r: (String, String)) {
        match self {
            DivAttr::Id(x) => x.into_attribute(),
            DivAttr::Class(x) => x.into_attribute(),
            DivAttr::Style(x) => x.into_attribute(),
        }
    }
}

impl From<Id> for DivAttr {
    fn from(t: Id) -> (r: DivAttr) {
        DivAttr::Id(t)
    }
}

impl vstd::std_specs::convert::FromSpecImpl<Id> for DivAttr {
    open spec fn obeys_from_spec() -> bool {
        true
    }

    open spec fn from_spec(t: Id) -> DivAttr {
        DivAttr::Id(t)
    }
}

impl From<Class> for DivAttr {
    fn from(t: Class) -> (r: DivAttr) {
        DivAttr::Class(t)
    }
}

impl vstd::std_specs::convert::FromSpecImpl<Class> for DivAttr {
    open spec fn obeys_from_spec() -> bool {
        true
    }

    open spec fn from_spec(t: Class) -> DivAttr {
        DivAttr::Class(t)
    }
}

impl From<Style> for DivAttr {
    fn from(t: Style) -> (r: DivAttr) {
        DivAttr::Style(t)
    }
}

impl vstd::std_specs::convert::FromSpecImpl<Style> for DivAttr {
    open spec fn obeys_from_spec() -> bool {
        true
    }

    open spec fn from_spec(t: Style) -> DivAttr {
        DivAttr::Style(t)
    }
}

} // verus!
