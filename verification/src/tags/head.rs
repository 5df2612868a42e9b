use vstd::prelude::*;

verus! {

use crate::attributes::{convert_all, into_spec_of, obeys_into};
use crate::tags::head_node::{HeadNode, render_head_nodes};
use vstd::string::StringExecFns;

/// The `<head>` tag: a container for the document's metadata nodes.
#[derive(Debug)]
pub struct Head {
    children: Vec<HeadNode>,
}

/// Creates a new `Head` tag; functionally equivalent to `Head::new()`, but
/// easier to type.
pub fn head() -> (r: Head)
    ensures
        r.child_seq() == Seq::<HeadNode>::empty(),
{
    Head::new()
}

impl Default for Head {
    /// An empty `<head>` tag.
    fn default() -> (r: Self)
        ensures
            r.child_seq() == Seq::<HeadNode>::empty(),
    {
        let r = Head { children: Vec::new() };
        proof {
            assert(r.child_seq() =~= Seq::<HeadNode>::empty());
        }
        r
    }
}

impl Clone for Head {
    /// A deep copy of this tag, with child-for-child copies of its
    /// children; it renders identically to the original.
    fn clone(&self) -> (res: Self)
        ensures
            res.render_spec() == self.render_spec(),
    {
        let mut children: Vec<HeadNode> = Vec::new();
        let mut i: usize = 0;
        while i < self.children.len()
            invariant
                0 <= i <= self.children.len(),
                render_head_nodes(children@) == render_head_nodes(self.children@.take(i as int)),
            decreases self.children.len() - i,
        {
            proof {
                assert(self.children@.take(i + 1).drop_last() =~= self.children@.take(i as int));
                assert(self.children@.take(i + 1).last() == self.children@[i as int]);
            }
            let c = self.children[i].clone();
            let ghost prev = children@;
            children.push(c);
            proof {
                assert(children@.drop_last() =~= prev);
                assert(children@.last() == c);
            }
            i = i + 1;
        }
        proof {
            assert(self.children@.take(self.children.len() as int) =~= self.children@);
        }
        Head { children }
    }
}

impl Head {
    /// The children of this tag, in insertion order.
    pub closed spec fn child_seq(self) -> Seq<HeadNode> {
        self.children@
    }

    /// The markup this tag renders to: every child in insertion order.
    pub open spec fn render_spec(self) -> Seq<char> {
        "<head>"@ + render_head_nodes(self.child_seq()) + "</head>"@
    }

    /// Create a new `<head>` tag with no children.
    pub fn new() -> (r: Self)
        ensures
            r.child_seq() == Seq::<HeadNode>::empty(),
    {
        Self::default()
    }

    /// Add a single child to this `<head>` tag, after every existing child.
    pub fn child<C: Into<HeadNode>>(self, child: C) -> (r: Self)
        ensures
            obeys_into::<C, HeadNode>() ==> r.child_seq() == self.child_seq().push(
                into_spec_of::<C, HeadNode>(child),
            ),
    {
        let mut s = self;
        let n: HeadNode = child.into();
        s.children.push(n);
        s
    }

    /// Append any number of children to this tag, preserving their order.
    pub fn children<C: Into<HeadNode>>(self, children: Vec<C>) -> (r: Self)
        ensures
            obeys_into::<C, HeadNode>() ==> r.child_seq() == self.child_seq() + children@
                .map_values((|c: C| into_spec_of::<C, HeadNode>(c))),
    {
        let mut s = self;
        let mut converted = convert_all(children);
        s.children.append(&mut converted);
        s
    }

    /// Render this tag to its markup text.
    pub fn render(&self) -> (r: String)
        ensures
            r@ == self.render_spec(),
    {
        let mut out = String::new();
        self.render_into(&mut out);
        out
    }

    pub(crate) fn render_into(&self, out: &mut String)
        ensures
            final(out)@ == old(out)@ + self.render_spec(),
    {
        out.append("<head>");
        let ghost base = out@;
        let mut i: usize = 0;
        while i < self.children.len()
            invariant
                0 <= i <= self.children.len(),
                out@ == base + render_head_nodes(self.children@.take(i as int)),
            decreases self.children.len() - i,
        {
            proof {
                assert(self.children@.take(i + 1).drop_last() =~= self.children@.take(i as int));
                assert(self.children@.take(i + 1).last() == self.children@[i as int]);
            }
            self.children[i].render_into(out);
            i = i + 1;
        }
        proof {
            assert(self.children@.take(self.children.len() as int) =~= self.children@);
        }
        out.append("</head>");
    }
}

} // verus!
