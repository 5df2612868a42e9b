use vstd::prelude::*;

verus! {

use crate::attributes::{
    AttrMap, Class, Id, IntoAttribute, convert_all, get_attr, insert_attr, into_spec_of,
    obeys_into, render_attrs, write_attributes,
};
use crate::tags::input::Name;
use crate::tags::option::SelectOption;
use vstd::string::StringExecFns;

/// The `<select>` tag: a container whose children are `<option>` tags.
#[derive(Debug)]
pub struct Select {
    attrs: AttrMap,
    children: Vec<SelectOption>,
}

/// Creates a new `Select` tag; functionally equivalent to `Select::new()`,
/// but easier to type.
pub fn select() -> (r: Select)
    ensures
        r.attr_seq() == Seq::<(Seq<char>, Seq<char>)>::empty(),
        r.child_seq() == Seq::<SelectOption>::empty(),
{
    Select::new()
}

/// The markup a sequence of options renders to: each option's markup in
/// order, with nothing in between.
pub open spec fn render_options(s: Seq<SelectOption>) -> Seq<char>
    decreases s.len(),
{
    if s.len() == 0 {
        Seq::empty()
    } else {
        render_options(s.drop_last()) + s.last().render_spec()
    }
}

impl Default for Select {
    /// An empty `<select>` tag: no attributes and no options.
    fn default() -> (r: Self)
        ensures
            r.attr_seq() == Seq::<(Seq<char>, Seq<char>)>::empty(),
            r.child_seq() == Seq::<SelectOption>::empty(),
    {
        let r = Select { attrs: AttrMap::new(), children: Vec::new() };
        proof {
            assert(r.child_seq() =~= Seq::<SelectOption>::empty());
        }
        r
    }
}

impl Clone for Select {
    /// A deep copy of this tag, with the same attributes and option-for-
    /// option copies of its options; it renders identically to the original.
    fn clone(&self) -> (res: Self)
        ensures
            res.attr_seq() == self.attr_seq(),
            res.render_spec() == self.render_spec(),
    {
        let mut children: Vec<SelectOption> = Vec::new();
        let mut i: usize = 0;
        while i < self.children.len()
            invariant
                0 <= i <= self.children.len(),
                render_options(children@) == render_options(self.children@.take(i as int)),
            decreases self.children.len() - i,
        {
            proof {
                assert(self.children@.take(i + 1).drop_last() =~= self.children@.take(i as int));
                assert(self.children@.take(i + 1).last() == self.children@[i as int]);
            }
            let c = self.children[i].clone();
            let ghost prev = children@;
            children.push(c);
            proof {
                assert(children@.drop_last() =~= prev);
                assert(children@.last() == c);
            }
            i = i + 1;
        }
        proof {
            assert(self.children@.take(self.children.len() as int) =~= self.children@);
        }
        Select { attrs: self.attrs.clone(), children }
    }
}

impl Select {
    /// The attributes set on this tag, in the order they were first set.
    pub closed spec fn attr_seq(self) -> Seq<(Seq<char>, Seq<char>)> {
        self.attrs@
    }

    /// The options of this tag, in insertion order.
    pub closed spec fn child_seq(self) -> Seq<SelectOption> {
        self.children@
    }

    /// The markup this tag renders to: its attributes, then every option in
    /// insertion order.
    pub open spec fn render_spec(self) -> Seq<char> {
        "<select"@ + render_attrs(self.attr_seq()) + ">"@ + render_options(self.child_seq())
            + "</select>"@
    }

    /// Create a new `<select>` tag with no attributes and no options.
    pub fn new() -> (r: Self)
        ensures
            r.attr_seq() == Seq::<(Seq<char>, Seq<char>)>::empty(),
            r.child_seq() == Seq::<SelectOption>::empty(),
    {
        Self::default()
    }

    /// Add a single option to this tag, after every existing option.
    pub fn child<C: Into<SelectOption>>(self, child: C) -> (r: Self)
        ensures
            obeys_into::<C, SelectOption>() ==> (r.attr_seq() == self.attr_seq() && r.child_seq()
                == self.child_seq().push(into_spec_of::<C, SelectOption>(child))),
    {
        let mut s = self;
        let n: SelectOption = child.into();
        s.children.push(n);
        s
    }

    /// Append any number of options to this tag, preserving their order.
    pub fn children<C: Into<SelectOption>>(self, children: Vec<C>) -> (r: Self)
        ensures
            obeys_into::<C, SelectOption>() ==> (r.attr_seq() == self.attr_seq() && r.child_seq()
                == self.child_seq() + children@.map_values(
                (|c: C| into_spec_of::<C, SelectOption>(c)),
            )),
    {
        let mut s = self;
        let mut converted = convert_all(children);
        s.children.append(&mut converted);
        s
    }

    /// Add an attribute to the select in question, overwriting any previous
    /// value set under the same name.
    pub fn attribute<A: Into<SelectAttr>>(self, attr: A) -> (r: Self)
        ensures
            obeys_into::<A, SelectAttr>() ==> ({
                let pair = into_spec_of::<A, SelectAttr>(attr).attr_pair();
                r.attr_seq() == insert_attr(self.attr_seq(), pair.0, pair.1) && r.child_seq()
                    == self.child_seq()
            }),
    {
        let mut s = self;
        let grouped: SelectAttr = attr.into();
        let (key, value) = grouped.into_attribute();
        s.attrs.insert(key, value);
        s
    }

    /// Attach an attribute to this tag from the provided raw data.
    ///
    /// Note that if you can, you should use the `attribute` method, because
    /// it takes better advantage of Rust's type system.
    pub fn raw_attribute(self, key: &str, value: &str) -> (r: Self)
        ensures
            r.attr_seq() == insert_attr(self.attr_seq(), key@, value@),
            r.child_seq() == self.child_seq(),
    {
        let mut s = self;
        s.attrs.insert(key.to_owned(), value.to_owned());
        s
    }

    /// Read an attribute that has been set.
    pub fn read_attribute<'a>(&'a self, attribute: &str) -> (r: Option<&'a String>)
        ensures
            match r {
                Some(v) => get_attr(self.attr_seq(), attribute@) == Some(v@),
                None => get_attr(self.attr_seq(), attribute@) is None,
            },
    {
        self.attrs.get(attribute)
    }

    /// Render this tag to its markup text.
    pub fn render(&self) -> (r: String)
        ensures
            r@ == self.render_spec(),
    {
        let mut out = String::new();
        self.render_into(&mut out);
        out
    }

    pub(crate) fn render_into(&self, out: &mut String)
        ensures
            final(out)@ == old(out)@ + self.render_spec(),
    {
        out.append("<select");
        write_attributes(&self.attrs, out);
        out.append(">");
        let ghost base = out@;
        let mut i: usize = 0;
        while i < self.children.len()
            invariant
                0 <= i <= self.children.len(),
                out@ == base + render_options(self.children@.take(i as int)),
            decreases self.children.len() - i,
        {
            proof {
                assert(self.children@.take(i + 1).drop_last() =~= self.children@.take(i as int));
                assert(self.children@.take(i + 1).last() == self.children@[i as int]);
            }
            self.children[i].render_into(out);
            i = i + 1;
        }
        proof {
            assert(self.children@.take(self.children.len() as int) =~= self.children@);
        }
        out.append("</select>");
    }
}

/// An attribute which may be attached to a `<select>` tag.
#[derive(Debug, Clone)]
#[allow(missing_docs)]
pub enum SelectAttr {
    Name(Name),
    Class(Class),
    Id(Id),
}

impl IntoAttribute for SelectAttr {
    open spec fn attr_pair(self) -> (Seq<char>, Seq<char>) {
        match self {
            SelectAttr::Name(x) => x.attr_pair(),
            SelectAttr::Class(x) => x.attr_pair(),
            SelectAttr::Id(x) => x.attr_pair(),
        }
    }

    fn into_attribute(self) -> (r: (String, String)) {
        match self {
            SelectAttr::Name(x) => x.into_attribute(),
            SelectAttr::Class(x) => x.into_attribute(),
            SelectAttr::Id(x) => x.into_attribute(),
        }
    }
}

impl From<Name> for SelectAttr {
    fn from(t: Name) -> (r: SelectAttr) {
        SelectAttr::Name(t)
    }
}

impl vstd::std_specs::convert::FromSpecImpl<Name> for SelectAttr {
    open spec fn obeys_from_spec() -> bool {
        true
    }

    open spec fn from_spec(t: Name) -> SelectAttr {
        SelectAttr::Name(t)
    }
}

impl From<Class> for SelectAttr {
    fn from(t: Class) -> (r: SelectAttr) {
        SelectAttr::Class(t)
    }
}

impl vstd::std_specs::convert::FromSpecImpl<Class> for SelectAttr {
    open spec fn obeys_from_spec() -> bool {
        true
    }

    open spec fn from_spec(t: Class) -> SelectAttr {
        SelectAttr::Class(t)
    }
}

impl From<Id> for SelectAttr {
    fn from(t: Id) -> (r: SelectAttr) {
        SelectAttr::Id(t)
    }
}

impl vstd::std_specs::convert::FromSpecImpl<Id> for SelectAttr {
    open spec fn obeys_from_spec() -> bool {
        true
    }

    open spec fn from_spec(t: Id) -> SelectAttr {
        SelectAttr::Id(t)
    }
}

} // verus!
