use vstd::prelude::*;

verus! {

use crate::tags::meta::Meta;
use crate::tags::style::StyleTag;
use crate::tags::title::Title;

/// A node which can be attached to the `<head>` tag.  This is the closed
/// list of node types that are legal in head position.
#[derive(Debug)]
#[allow(missing_docs)]
pub enum HeadNode {
    Title(Title),
    Meta(Meta),
    StyleTag(StyleTag),
}

/// The markup a head node renders to.
pub open spec fn render_head_node(n: HeadNode) -> Seq<char> {
    match n {
        HeadNode::Title(t) => t.render_spec(),
        HeadNode::Meta(t) => t.render_spec(),
        HeadNode::StyleTag(t) => t.render_spec(),
    }
}

/// The markup a sequence of head nodes renders to: each node's markup in
/// order, with nothing in between.
pub open spec fn render_head_nodes(s: Seq<HeadNode>) -> Seq<char>
    decreases s.len(),
{
    if s.len() == 0 {
        Seq::empty()
    } else {
        render_head_nodes(s.drop_last()) + render_head_node(s.last())
    }
}

impl Clone for HeadNode {
    /// A deep copy of this node; it renders identically to the original.
    fn clone(&self) -> (res: Self)
        ensures
            render_head_node(res) == render_head_node(*self),
    {
        match self {
            HeadNode::Title(t) => HeadNode::Title(t.clone()),
            HeadNode::Meta(t) => HeadNode::Meta(t.clone()),
            HeadNode::StyleTag(t) => HeadNode::StyleTag(t.clone()),
        }
    }
}

impl HeadNode {
    /// Render this node to its markup text.
    pub fn render(&self) -> (r: String)
        ensures
            r@ == render_head_node(*self),
    {
        let mut out = String::new();
        self.render_into(&mut out);
        out
    }

    pub(crate) fn render_into(&self, out: &mut String)
        ensures
            final(out)@ == old(out)@ + render_head_node(*self),
    {
        match self {
            HeadNode::Title(t) => t.render_into(out),
            HeadNode::Meta(t) => t.render_into(out),
            HeadNode::StyleTag(t) => t.render_into(out),
        }
    }
}

impl From<Title> for HeadNode {
    fn from(t: Title) -> (r: HeadNode) {
        HeadNode::Title(t)
    }
}

impl vstd::std_specs::convert::FromSpecImpl<Title> for HeadNode {
    open spec fn obeys_from_spec() -> bool {
        true
    }

    open spec fn from_spec(t: Title) -> HeadNode {
        HeadNode::Title(t)
    }
}

impl From<Meta> for HeadNode {
    fn from(t: Meta) -> (r: HeadNode) {
        HeadNode::Meta(t)
    }
}

impl vstd::std_specs::convert::FromSpecImpl<Meta> for HeadNode {
    open spec fn obeys_from_spec() -> bool {
        true
    }

    open spec fn from_spec(t: Meta) -> HeadNode {
        HeadNode::Meta(t)
    }
}

impl From<StyleTag> for HeadNode {
    fn from(t: StyleTag) -> (r: HeadNode) {
        HeadNode::StyleTag(t)
    }
}

impl vstd::std_specs::convert::FromSpecImpl<StyleTag> for HeadNode {
    open spec fn obeys_from_spec() -> bool {
        true
    }

    open spec fn from_spec(t: StyleTag) -> HeadNode {
        HeadNode::StyleTag(t)
    }
}

} // verus!
