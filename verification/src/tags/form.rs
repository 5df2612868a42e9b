use vstd::prelude::*;

verus! {

use crate::attributes::{
    AttrMap, IntoAttribute, convert_all, get_attr, insert_attr, into_spec_of, obeys_into,
    render_attrs, write_attributes,
};
use crate::sanitize::clean_of;
use crate::tags::body_node::{BodyNode, render_nodes};
use crate::attributes::Style;
use crate::tags::headings::{H1, H2, H3, H4, H5, H6};
use vstd::string::StringExecFns;

/// The `<form>` tag: a container holding an ordered sequence of child
/// nodes, plus its own attributes.
#[derive(Debug)]
pub struct Form {
    children: Vec<BodyNode>,
    attrs: AttrMap,
}

/// Creates a new `Form` tag; functionally equivalent to `Form::new()`,
/// but easier to type.
pub fn form() -> (r: Form)
    ensures
        r.attr_seq() == Seq::<(Seq<char>, Seq<char>)>::empty(),
        r.child_seq() == Seq::<BodyNode>::empty(),
{
    Form::new()
}

impl Default for Form {
    /// An empty `<form>` tag: no attributes and no children.
    fn default() -> (r: Self)
        ensures
            r.attr_seq() == Seq::<(Seq<char>, Seq<char>)>::empty(),
            r.child_seq() == Seq::<BodyNode>::empty(),
    {
        let r = Form { children: Vec::new(), attrs: AttrMap::new() };
        proof {
            assert(r.child_seq() =~= Seq::<BodyNode>::empty());
        }
        r
    }
}

impl Clone for Form {
    /// A deep copy of this tag, with the same attributes and
    /// child-for-child copies of its children; it renders identically to the
    /// original.
    #[verifier::loop_isolation(false)]
    fn clone(&self) -> (res: Self)
        ensures
            res.attr_seq() == self.attr_seq(),
            res.render_spec() == self.render_spec(),
        decreases *self,
    {
        let mut children: Vec<BodyNode> = Vec::new();
        let mut i: usize = 0;
        while i < self.children.len()
            invariant
                0 <= i <= self.children.len(),
                render_nodes(children@) == render_nodes(self.children@.take(i as int)),
            decreases self.children.len() - i,
        {
            proof {
                assert(self.children@.take(i + 1).drop_last() =~= self.children@.take(i as int));
                assert(self.children@.take(i + 1).last() == self.children@[i as int]);
            }
            let c = self.children[i].clone();
            let ghost prev = children@;
            children.push(c);
            proof {
                assert(children@.drop_last() =~= prev);
                assert(children@.last() == c);
            }
            i = i + 1;
        }
        proof {
            assert(self.children@.take(self.children.len() as int) =~= self.children@);
        }
        Form { children, attrs: self.attrs.clone() }
    }
}

impl Form {
    /// The attributes set on this tag, in the order they were first set.
    pub closed spec fn attr_seq(self) -> Seq<(Seq<char>, Seq<char>)> {
        self.attrs@
    }

    /// The children of this tag, in insertion order.
    pub closed spec fn child_seq(self) -> Seq<BodyNode> {
        self.children@
    }

    /// The markup this tag renders to: its attributes, then every child in
    /// insertion order.
    pub open spec fn render_spec(self) -> Seq<char>
        decreases self,
        via Self::render_spec_decreases

    {
        "<form"@ + render_attrs(self.attr_seq()) + ">"@ + render_nodes(self.child_seq())
            + "</form>"@
    }

    #[via_fn]
    proof fn render_spec_decreases(self) {
        assert(decreases_to!(self => self.children));
        assert(decreases_to!(self.children => self.children@));
        assert(self.child_seq() == self.children@);
    }

    /// Create a new `<form>` tag with no attributes and no children.
    pub fn new() -> (r: Self)
        ensures
            r.attr_seq() == Seq::<(Seq<char>, Seq<char>)>::empty(),
            r.child_seq() == Seq::<BodyNode>::empty(),
    {
        Self::default()
    }

    /// Attach a single child to this tag, after every existing child.
    pub fn child<C: Into<BodyNode>>(self, child: C) -> (r: Self)
        ensures
            obeys_into::<C, BodyNode>() ==> (r.attr_seq() == self.attr_seq() && r.child_seq()
                == self.child_seq().push(into_spec_of::<C, BodyNode>(child))),
    {
        let mut s = self;
        let n: BodyNode = child.into();
        s.children.push(n);
        s
    }

    /// Append any number of children to this tag, preserving their order.
    pub fn children<C: Into<BodyNode>>(self, children: Vec<C>) -> (r: Self)
        ensures
            obeys_into::<C, BodyNode>() ==> (r.attr_seq() == self.attr_seq() && r.child_seq()
                == self.child_seq() + children@.map_values(
                (|c: C| into_spec_of::<C, BodyNode>(c)),
            )),
    {
        let mut s = self;
        let mut converted = convert_all(children);
        s.children.append(&mut converted);
        s
    }

    /// Attach a single attribute to this tag, overwriting any previous
    /// value set under the same name.
    pub fn attribute<A: Into<FormAttr>>(self, attribute: A) -> (r: Self)
        ensures
            obeys_into::<A, FormAttr>() ==> ({
                let pair = into_spec_of::<A, FormAttr>(attribute).attr_pair();
                r.attr_seq() == insert_attr(self.attr_seq(), pair.0, pair.1) && r.child_seq()
                    == self.child_seq()
            }),
    {
        let mut s = self;
        let grouped: FormAttr = attribute.into();
        let (key, value) = grouped.into_attribute();
        s.attrs.insert(key, value);
        s
    }

    /// Read an attribute that has been set.
    pub fn read_attribute<'a>(&'a self, attribute: &str) -> (r: Option<&'a String>)
        ensures
            match r {
                Some(v) => get_attr(self.attr_seq(), attribute@) == Some(v@),
                None => get_attr(self.attr_seq(), attribute@) is None,
            },
    {
        self.attrs.get(attribute)
    }

    /// Attach a new `H1` heading holding the given (sanitized) text.  This
    /// is a convenience wrapper, functionally equivalent to passing
    /// `H1::new` the text and attaching the result with `child`.
    pub fn h1(self, c: &str) -> (r: Self)
        ensures
            r.attr_seq() == self.attr_seq(),
            r.child_seq().len() == self.child_seq().len() + 1,
            r.child_seq().take(self.child_seq().len() as int) == self.child_seq(),
            (r.child_seq().last() matches BodyNode::H1(h) && h.text_view() == clean_of(c@)
                && h.attr_seq() == Seq::<(Seq<char>, Seq<char>)>::empty()),
    {
        self.child(H1::new(c))
    }

    /// Attach a new `H2` heading holding the given (sanitized) text.  This
    /// is a convenience wrapper, functionally equivalent to passing
    /// `H2::new` the text and attaching the result with `child`.
    pub fn h2(self, c: &str) -> (r: Self)
        ensures
            r.attr_seq() == self.attr_seq(),
            r.child_seq().len() == self.child_seq().len() + 1,
            r.child_seq().take(self.child_seq().len() as int) == self.child_seq(),
            (r.child_seq().last() matches BodyNode::H2(h) && h.text_view() == clean_of(c@)
                && h.attr_seq() == Seq::<(Seq<char>, Seq<char>)>::empty()),
    {
        self.child(H2::new(c))
    }

    /// Attach a new `H3` heading holding the given (sanitized) text.  This
    /// is a convenience wrapper, functionally equivalent to passing
    /// `H3::new` the text and attaching the result with `child`.
    pub fn h3(self, c: &str) -> (r: Self)
        ensures
            r.attr_seq() == self.attr_seq(),
            r.child_seq().len() == self.child_seq().len() + 1,
            r.child_seq().take(self.child_seq().len() as int) == self.child_seq(),
            (r.child_seq().last() matches BodyNode::H3(h) && h.text_view() == clean_of(c@)
                && h.attr_seq() == Seq::<(Seq<char>, Seq<char>)>::empty()),
    {
        self.child(H3::new(c))
    }

    /// Attach a new `H4` heading holding the given (sanitized) text.  This
    /// is a convenience wrapper, functionally equivalent to passing
    /// `H4::new` the text and attaching the result with `child`.
    pub fn h4(self, c: &str) -> (r: Self)
        ensures
            r.attr_seq() == self.attr_seq(),
            r.child_seq().len() == self.child_seq().len() + 1,
            r.child_seq().take(self.child_seq().len() as int) == self.child_seq(),
            (r.child_seq().last() matches BodyNode::H4(h) && h.text_view() == clean_of(c@)
                && h.attr_seq() == Seq::<(Seq<char>, Seq<char>)>::empty()),
    {
        self.child(H4::new(c))
    }

    /// Attach a new `H5` heading holding the given (sanitized) text.  This
    /// is a convenience wrapper, functionally equivalent to passing
    /// `H5::new` the text and attaching the result with `child`.
    pub fn h5(self, c: &str) -> (r: Self)
        ensures
            r.attr_seq() == self.attr_seq(),
            r.child_seq().len() == self.child_seq().len() + 1,
            r.child_seq().take(self.child_seq().len() as int) == self.child_seq(),
            (r.child_seq().last() matches BodyNode::H5(h) && h.text_view() == clean_of(c@)
                && h.attr_seq() == Seq::<(Seq<char>, Seq<char>)>::empty()),
    {
        self.child(H5::new(c))
    }

    /// Attach a new `H6` heading holding the given (sanitized) text.  This
    /// is a convenience wrapper, functionally equivalent to passing
    /// `H6::new` the text and attaching the result with `child`.
    pub fn h6(self, c: &str) -> (r: Self)
        ensures
            r.attr_seq() == self.attr_seq(),
            r.child_seq().len() == self.child_seq().len() + 1,
            r.child_seq().take(self.child_seq().len() as int) == self.child_seq(),
            (r.child_seq().last() matches BodyNode::H6(h) && h.text_view() == clean_of(c@)
                && h.attr_seq() == Seq::<(Seq<char>, Seq<char>)>::empty()),
    {
        self.child(H6::new(c))
    }

    /// Render this tag to its markup text.
    pub fn render(&self) -> (r: String)
        ensures
            r@ == self.render_spec(),
    {
        let mut out = String::new();
        self.render_into(&mut out);
        out
    }

    #[verifier::loop_isolation(false)]
    pub(crate) fn render_into(&self, out: &mut String)
        ensures
            final(out)@ == old(out)@ + self.render_spec(),
        decreases *self,
    {
        out.append("<form");
        write_attributes(&self.attrs, out);
        out.append(">");
        let ghost base = out@;
        let mut i: usize = 0;
        while i < self.children.len()
            invariant
                0 <= i <= self.children.len(),
                out@ == base + render_nodes(self.children@.take(i as int)),
            decreases self.children.len() - i,
        {
            proof {
                assert(self.children@.take(i + 1).drop_last() =~= self.children@.take(i as int));
                assert(self.children@.take(i + 1).last() == self.children@[i as int]);
            }
            self.children[i].render_into(out);
            i = i + 1;
        }
        proof {
            assert(self.children@.take(self.children.len() as int) =~= self.children@);
        }
        out.append("</form>");
    }
}

/// The "action" attribute for a form.
#[derive(Debug, Clone)]
pub struct Action(String);

impl Action {
    /// The value this attribute was created with.
    pub closed spec fn value_view(self) -> Seq<char> {
        self.0@
    }

    /// Create a new "action" attribute.
    pub fn new(input: &str) -> (r: Self)
        ensures
            r.value_view() == input@,
    {
        Action(input.to_owned())
    }
}

impl IntoAttribute for Action {
    open spec fn attr_pair(self) -> (Seq<char>, Seq<char>) {
        ("action"@, self.value_view())
    }

    fn into_attribute(self) -> (r: (String, String)) {
        ("action".to_owned(), self.0)
    }
}

/// The "method" attribute for a form.
#[derive(Debug, Clone)]
#[allow(missing_docs)]
pub enum Method {
    Post,
    Get,
}

impl IntoAttribute for Method {
    open spec fn attr_pair(self) -> (Seq<char>, Seq<char>) {
        (
            "method"@,
            match self {
                Method::Post => "post"@,
                Method::Get => "get"@,
            },
        )
    }

    fn into_attribute(self) -> (r: (String, String)) {
        let value: &str = match self {
            Method::Post => "post",
            Method::Get => "get",
        };
        ("method".to_owned(), value.to_owned())
    }
}

/// A form attribute.
#[derive(Debug, Clone)]
#[allow(missing_docs)]
pub enum FormAttr {
    Method(Method),
    Action(Action),
    Style(Style),
}

impl IntoAttribute for FormAttr {
    open spec fn attr_pair(self) -> (Seq<char>, Seq<char>) {
        match self {
            FormAttr::Method(x) => x.attr_pair(),
            FormAttr::Action(x) => x.attr_pair(),
            FormAttr::Style(x) => x.attr_pair(),
        }
    }

    fn into_attribute(self) -> (r: (String, String)) {
        match self {
            FormAttr::Method(x) => x.into_attribute(),
            FormAttr::Action(x) => x.into_attribute(),
            FormAttr::Style(x) => x.into_attribute(),
        }
    }
}

impl From<Method> for FormAttr {
    fn from(t: Method) -> (r: FormAttr) {
        FormAttr::Method(t)
    }
}

impl vstd::std_specs::convert::FromSpecImpl<Method> for FormAttr {
    open spec fn obeys_from_spec() -> bool {
        true
    }

    open spec fn from_spec(t: Method) -> FormAttr {
        FormAttr::Method(t)
    }
}

impl From<Action> for FormAttr {
    fn from(t: Action) -> (r: FormAttr) {
        FormAttr::Action(t)
    }
}

impl vstd::std_specs::convert::FromSpecImpl<Action> for FormAttr {
    open spec fn obeys_from_spec() -> bool {
        true
    }

    open spec fn from_spec(t: Action) -> FormAttr {
        FormAttr::Action(t)
    }
}

impl From<Style> for FormAttr {
    fn from(t: Style) -> (r: FormAttr) {
        FormAttr::Style(t)
    }
}

impl vstd::std_specs::convert::FromSpecImpl<Style> for FormAttr {
    open spec fn obeys_from_spec() -> bool {
        true
    }

    open spec fn from_spec(t: Style) -> FormAttr {
        FormAttr::Style(t)
    }
}

} // verus!
