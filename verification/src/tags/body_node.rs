use vstd::prelude::*;

verus! {

use crate::tags::a::A;
use crate::tags::br::Br;
use crate::tags::div::Div;
use crate::tags::form::Form;
use crate::tags::headings::{H1, H2, H3, H4, H5, H6};
use crate::tags::img::Img;
use crate::tags::input::Input;
use crate::tags::label::Label;
use crate::tags::noscript::NoScript;
use crate::tags::p::P;
use crate::tags::select::Select;
use crate::text::Text;

/// A node which can be mounted to the `<body>` tag (or to any of the
/// container tags that may appear under it).  This is the closed list of
/// node types that are legal in body position; the renderer dispatches on
/// this tag alone.
#[derive(Debug)]
#[allow(missing_docs)]
pub enum BodyNode {
    H1(H1),
    H2(H2),
    H3(H3),
    H4(H4),
    H5(H5),
    H6(H6),
    P(P),
    Text(Text),
    Form(Form),
    Br(Br),
    Div(Div),
    A(A),
    Input(Input),
    Label(Label),
    Select(Select),
    NoScript(NoScript),
    Img(Img),
}

/// The markup a body node renders to.
pub open spec fn render_node(n: BodyNode) -> Seq<char>
    decreases n,
{
    match n {
        BodyNode::H1(t) => t.render_spec(),
        BodyNode::H2(t) => t.render_spec(),
        BodyNode::H3(t) => t.render_spec(),
        BodyNode::H4(t) => t.render_spec(),
        BodyNode::H5(t) => t.render_spec(),
        BodyNode::H6(t) => t.render_spec(),
        BodyNode::P(t) => t.render_spec(),
        BodyNode::Text(t) => t.render_spec(),
        BodyNode::Form(t) => t.render_spec(),
        BodyNode::Br(t) => t.render_spec(),
        BodyNode::Div(t) => t.render_spec(),
        BodyNode::A(t) => t.render_spec(),
        BodyNode::Input(t) => t.render_spec(),
        BodyNode::Label(t) => t.render_spec(),
        BodyNode::Select(t) => t.render_spec(),
        BodyNode::NoScript(t) => t.render_spec(),
        BodyNode::Img(t) => t.render_spec(),
    }
}

/// The markup a sequence of sibling nodes renders to: each node's markup in
/// order, with nothing in between.
pub open spec fn render_nodes(s: Seq<BodyNode>) -> Seq<char>
    decreases s,
{
    if s.len() == 0 {
        Seq::empty()
    } else {
        render_nodes(s.drop_last()) + render_node(s.last())
    }
}

/// Sibling sequences render piecewise: the markup of a concatenation is the
/// concatenation of the markups.
pub proof fn lemma_render_nodes_append(s1: Seq<BodyNode>, s2: Seq<BodyNode>)
    ensures
        render_nodes(s1 + s2) == render_nodes(s1) + render_nodes(s2),
    decreases s2.len(),
{
    if s2.len() == 0 {
        assert(s1 + s2 =~= s1);
        assert(render_nodes(s1) + render_nodes(s2) =~= render_nodes(s1));
    } else {
        lemma_render_nodes_append(s1, s2.drop_last());
        assert((s1 + s2).drop_last() =~= s1 + s2.drop_last());
        assert((s1 + s2).last() == s2.last());
        assert(render_nodes(s1) + render_nodes(s2) =~= render_nodes(s1) + render_nodes(
            s2.drop_last(),
        ) + render_node(s2.last()));
    }
}

/// Container ordering: children placed in the order `c1`, `c2`, `c3` render
/// to `c1`'s markup, then `c2`'s, then `c3`'s, in that order.
pub proof fn lemma_children_render_in_order(c1: BodyNode, c2: BodyNode, c3: BodyNode)
    ensures
        render_nodes(seq![c1, c2, c3]) == render_node(c1) + render_node(c2) + render_node(c3),
{
    let s3 = seq![c1, c2, c3];
    let s2 = seq![c1, c2];
    let s1 = seq![c1];
    assert(s3.drop_last() =~= s2);
    assert(s3.last() == c3);
    assert(render_nodes(s3) == render_nodes(s2) + render_node(c3));
    assert(s2.drop_last() =~= s1);
    assert(s2.last() == c2);
    assert(render_nodes(s2) == render_nodes(s1) + render_node(c2));
    assert(s1.drop_last() =~= Seq::<BodyNode>::empty());
    assert(s1.last() == c1);
    assert(render_nodes(Seq::<BodyNode>::empty()) == Seq::<char>::empty());
    assert(render_nodes(s1) == Seq::<char>::empty() + render_node(c1));
    assert(Seq::<char>::empty() + render_node(c1) =~= render_node(c1));
    assert(render_nodes(s3) =~= render_node(c1) + render_node(c2) + render_node(c3));
}

impl Clone for BodyNode {
    /// A deep copy of this node; it renders identically to the original.
    fn clone(&self) -> (res: Self)
        ensures
            render_node(res) == render_node(*self),
        decreases *self,
    {
        match self {
            BodyNode::H1(t) => BodyNode::H1(t.clone()),
            BodyNode::H2(t) => BodyNode::H2(t.clone()),
            BodyNode::H3(t) => BodyNode::H3(t.clone()),
            BodyNode::H4(t) => BodyNode::H4(t.clone()),
            BodyNode::H5(t) => BodyNode::H5(t.clone()),
            BodyNode::H6(t) => BodyNode::H6(t.clone()),
            BodyNode::P(t) => BodyNode::P(t.clone()),
            BodyNode::Text(t) => BodyNode::Text(t.clone()),
            BodyNode::Form(t) => BodyNode::Form(t.clone()),
            BodyNode::Br(t) => BodyNode::Br(t.clone()),
            BodyNode::Div(t) => BodyNode::Div(t.clone()),
            BodyNode::A(t) => BodyNode::A(t.clone()),
            BodyNode::Input(t) => BodyNode::Input(t.clone()),
            BodyNode::Label(t) => BodyNode::Label(t.clone()),
            BodyNode::Select(t) => BodyNode::Select(t.clone()),
            BodyNode::NoScript(t) => BodyNode::NoScript(t.clone()),
            BodyNode::Img(t) => BodyNode::Img(t.clone()),
        }
    }
}

impl BodyNode {
    /// Render this node to its markup text.
    pub fn render(&self) -> (r: String)
        ensures
            r@ == render_node(*self),
    {
        let mut out = String::new();
        self.render_into(&mut out);
        out
    }

    pub(crate) fn render_into(&self, out: &mut String)
        ensures
            final(out)@ == old(out)@ + render_node(*self),
        decreases *self,
    {
        match self {
            BodyNode::H1(t) => t.render_into(out),
            BodyNode::H2(t) => t.render_into(out),
            BodyNode::H3(t) => t.render_into(out),
            BodyNode::H4(t) => t.render_into(out),
            BodyNode::H5(t) => t.render_into(out),
            BodyNode::H6(t) => t.render_into(out),
            BodyNode::P(t) => t.render_into(out),
            BodyNode::Text(t) => t.render_into(out),
            BodyNode::Form(t) => t.render_into(out),
            BodyNode::Br(t) => t.render_into(out),
            BodyNode::Div(t) => t.render_into(out),
            BodyNode::A(t) => t.render_into(out),
            BodyNode::Input(t) => t.render_into(out),
            BodyNode::Label(t) => t.render_into(out),
            BodyNode::Select(t) => t.render_into(out),
            BodyNode::NoScript(t) => t.render_into(out),
            BodyNode::Img(t) => t.render_into(out),
        }
    }

    /// The inner `H1`, if this node is a `H1` node.
    pub fn as_h1(&self) -> (r: Option<&H1>)
        ensures
            r.is_some() <==> (*self matches BodyNode::H1(_)),
            *self matches BodyNode::H1(t) ==> r == Some(&t),
    {
        if let Self::H1(v) = self {
            Some(v)
        } else {
            None
        }
    }

    /// The inner `H2`, if this node is a `H2` node.
    pub fn as_h2(&self) -> (r: Option<&H2>)
        ensures
            r.is_some() <==> (*self matches BodyNode::H2(_)),
            *self matches BodyNode::H2(t) ==> r == Some(&t),
    {
        if let Self::H2(v) = self {
            Some(v)
        } else {
            None
        }
    }

    /// The inner `H3`, if this node is a `H3` node.
    pub fn as_h3(&self) -> (r: Option<&H3>)
        ensures
            r.is_some() <==> (*self matches BodyNode::H3(_)),
            *self matches BodyNode::H3(t) ==> r == Some(&t),
    {
        if let Self::H3(v) = self {
            Some(v)
        } else {
            None
        }
    }

    /// The inner `H4`, if this node is a `H4` node.
    pub fn as_h4(&self) -> (r: Option<&H4>)
        ensures
            r.is_some() <==> (*self matches BodyNode::H4(_)),
            *self matches BodyNode::H4(t) ==> r == Some(&t),
    {
        if let Self::H4(v) = self {
            Some(v)
        } else {
            None
        }
    }

    /// The inner `H5`, if this node is a `H5` node.
    pub fn as_h5(&self) -> (r: Option<&H5>)
        ensures
            r.is_some() <==> (*self matches BodyNode::H5(_)),
            *self matches BodyNode::H5(t) ==> r == Some(&t),
    {
        if let Self::H5(v) = self {
            Some(v)
        } else {
            None
        }
    }

    /// The inner `H6`, if this node is a `H6` node.
    pub fn as_h6(&self) -> (r: Option<&H6>)
        ensures
            r.is_some() <==> (*self matches BodyNode::H6(_)),
            *self matches BodyNode::H6(t) ==> r == Some(&t),
    {
        if let Self::H6(v) = self {
            Some(v)
        } else {
            None
        }
    }

    /// The inner `P`, if this node is a `P` node.
    pub fn as_p(&self) -> (r: Option<&P>)
        ensures
            r.is_some() <==> (*self matches BodyNode::P(_)),
            *self matches BodyNode::P(t) ==> r == Some(&t),
    {
        if let Self::P(v) = self {
            Some(v)
        } else {
            None
        }
    }

    /// The inner `Text`, if this node is a `Text` node.
    pub fn as_text(&self) -> (r: Option<&Text>)
        ensures
            r.is_some() <==> (*self matches BodyNode::Text(_)),
            *self matches BodyNode::Text(t) ==> r == Some(&t),
    {
        if let Self::Text(v) = self {
            Some(v)
        } else {
            None
        }
    }

    /// The inner `Form`, if this node is a `Form` node.
    pub fn as_form(&self) -> (r: Option<&Form>)
        ensures
            r.is_some() <==> (*self matches BodyNode::Form(_)),
            *self matches BodyNode::Form(t) ==> r == Some(&t),
    {
        if let Self::Form(v) = self {
            Some(v)
        } else {
            None
        }
    }

    /// The inner `Br`, if this node is a `Br` node.
    pub fn as_br(&self) -> (r: Option<&Br>)
        ensures
            r.is_some() <==> (*self matches BodyNode::Br(_)),
            *self matches BodyNode::Br(t) ==> r == Some(&t),
    {
        if let Self::Br(v) = self {
            Some(v)
        } else {
            None
        }
    }

    /// The inner `Div`, if this node is a `Div` node.
    pub fn as_div(&self) -> (r: Option<&Div>)
        ensures
            r.is_some() <==> (*self matches BodyNode::Div(_)),
            *self matches BodyNode::Div(t) ==> r == Some(&t),
    {
        if let Self::Div(v) = self {
            Some(v)
        } else {
            None
        }
    }

    /// The inner `A`, if this node is a `A` node.
    pub fn as_a(&self) -> (r: Option<&A>)
        ensures
            r.is_some() <==> (*self matches BodyNode::A(_)),
            *self matches BodyNode::A(t) ==> r == Some(&t),
    {
        if let Self::A(v) = self {
            Some(v)
        } else {
            None
        }
    }

    /// The inner `Input`, if this node is a `Input` node.
    pub fn as_input(&self) -> (r: Option<&Input>)
        ensures
            r.is_some() <==> (*self matches BodyNode::Input(_)),
            *self matches BodyNode::Input(t) ==> r == Some(&t),
    {
        if let Self::Input(v) = self {
            Some(v)
        } else {
            None
        }
    }

    /// The inner `Label`, if this node is a `Label` node.
    pub fn as_label(&self) -> (r: Option<&Label>)
        ensures
            r.is_some() <==> (*self matches BodyNode::Label(_)),
            *self matches BodyNode::Label(t) ==> r == Some(&t),
    {
        if let Self::Label(v) = self {
            Some(v)
        } else {
            None
        }
    }

    /// The inner `Select`, if this node is a `Select` node.
    pub fn as_select(&self) -> (r: Option<&Select>)
        ensures
            r.is_some() <==> (*self matches BodyNode::Select(_)),
            *self matches BodyNode::Select(t) ==> r == Some(&t),
    {
        if let Self::Select(v) = self {
            Some(v)
        } else {
            None
        }
    }

    /// The inner `NoScript`, if this node is a `NoScript` node.
    pub fn as_no_script(&self) -> (r: Option<&NoScript>)
        ensures
            r.is_some() <==> (*self matches BodyNode::NoScript(_)),
            *self matches BodyNode::NoScript(t) ==> r == Some(&t),
    {
        if let Self::NoScript(v) = self {
            Some(v)
        } else {
            None
        }
    }

    /// The inner `Img`, if this node is a `Img` node.
    pub fn as_img(&self) -> (r: Option<&Img>)
        ensures
            r.is_some() <==> (*self matches BodyNode::Img(_)),
            *self matches BodyNode::Img(t) ==> r == Some(&t),
    {
        if let Self::Img(v) = self {
            Some(v)
        } else {
            None
        }
    }
}

impl From<H1> for BodyNode {
    fn from(t: H1) -> (r: BodyNode) {
        BodyNode::H1(t)
    }
}

impl vstd::std_specs::convert::FromSpecImpl<H1> for BodyNode {
    open spec fn obeys_from_spec() -> bool {
        true
    }

    open spec fn from_spec(t: H1) -> BodyNode {
        BodyNode::H1(t)
    }
}

impl From<H2> for BodyNode {
    fn from(t: H2) -> (r: BodyNode) {
        BodyNode::H2(t)
    }
}

impl vstd::std_specs::convert::FromSpecImpl<H2> for BodyNode {
    open spec fn obeys_from_spec() -> bool {
        true
    }

    open spec fn from_spec(t: H2) -> BodyNode {
        BodyNode::H2(t)
    }
}

impl From<H3> for BodyNode {
    fn from(t: H3) -> (r: BodyNode) {
        BodyNode::H3(t)
    }
}

impl vstd::std_specs::convert::FromSpecImpl<H3> for BodyNode {
    open spec fn obeys_from_spec() -> bool {
        true
    }

    open spec fn from_spec(t: H3) -> BodyNode {
        BodyNode::H3(t)
    }
}

impl From<H4> for BodyNode {
    fn from(t: H4) -> (r: BodyNode) {
        BodyNode::H4(t)
    }
}

impl vstd::std_specs::convert::FromSpecImpl<H4> for BodyNode {
    open spec fn obeys_from_spec() -> bool {
        true
    }

    open spec fn from_spec(t: H4) -> BodyNode {
        BodyNode::H4(t)
    }
}

impl From<H5> for BodyNode {
    fn from(t: H5) -> (r: BodyNode) {
        BodyNode::H5(t)
    }
}

impl vstd::std_specs::convert::FromSpecImpl<H5> for BodyNode {
    open spec fn obeys_from_spec() -> bool {
        true
    }

    open spec fn from_spec(t: H5) -> BodyNode {
        BodyNode::H5(t)
    }
}

impl From<H6> for BodyNode {
    fn from(t: H6) -> (r: BodyNode) {
        BodyNode::H6(t)
    }
}

impl vstd::std_specs::convert::FromSpecImpl<H6> for BodyNode {
    open spec fn obeys_from_spec() -> bool {
        true
    }

    open spec fn from_spec(t: H6) -> BodyNode {
        BodyNode::H6(t)
    }
}

impl From<P> for BodyNode {
    fn from(t: P) -> (r: BodyNode) {
        BodyNode::P(t)
    }
}

impl vstd::std_specs::convert::FromSpecImpl<P> for BodyNode {
    open spec fn obeys_from_spec() -> bool {
        true
    }

    open spec fn from_spec(t: P) -> BodyNode {
        BodyNode::P(t)
    }
}

impl From<Text> for BodyNode {
    fn from(t: Text) -> (r: BodyNode) {
        BodyNode::Text(t)
    }
}

impl vstd::std_specs::convert::FromSpecImpl<Text> for BodyNode {
    open spec fn obeys_from_spec() -> bool {
        true
    }

    open spec fn from_spec(t: Text) -> BodyNode {
        BodyNode::Text(t)
    }
}

impl From<Form> for BodyNode {
    fn from(t: Form) -> (r: BodyNode) {
        BodyNode::Form(t)
    }
}

impl vstd::std_specs::convert::FromSpecImpl<Form> for BodyNode {
    open spec fn obeys_from_spec() -> bool {
        true
    }

    open spec fn from_spec(t: Form) -> BodyNode {
        BodyNode::Form(t)
    }
}

impl From<Br> for BodyNode {
    fn from(t: Br) -> (r: BodyNode) {
        BodyNode::Br(t)
    }
}

impl vstd::std_specs::convert::FromSpecImpl<Br> for BodyNode {
    open spec fn obeys_from_spec() -> bool {
        true
    }

    open spec fn from_spec(t: Br) -> BodyNode {
        BodyNode::Br(t)
    }
}

impl From<Div> for BodyNode {
    fn from(t: Div) -> (r: BodyNode) {
        BodyNode::Div(t)
    }
}

impl vstd::std_specs::convert::FromSpecImpl<Div> for BodyNode {
    open spec fn obeys_from_spec() -> bool {
        true
    }

    open spec fn from_spec(t: Div) -> BodyNode {
        BodyNode::Div(t)
    }
}

impl From<A> for BodyNode {
    fn from(t: A) -> (r: BodyNode) {
        BodyNode::A(t)
    }
}

impl vstd::std_specs::convert::FromSpecImpl<A> for BodyNode {
    open spec fn obeys_from_spec() -> bool {
        true
    }

    open spec fn from_spec(t: A) -> BodyNode {
        BodyNode::A(t)
    }
}

impl From<Input> for BodyNode {
    fn from(t: Input) -> (r: BodyNode) {
        BodyNode::Input(t)
    }
}

impl vstd::std_specs::convert::FromSpecImpl<Input> for BodyNode {
    open spec fn obeys_from_spec() -> bool {
        true
    }

    open spec fn from_spec(t: Input) -> BodyNode {
        BodyNode::Input(t)
    }
}

impl From<Label> for BodyNode {
    fn from(t: Label) -> (r: BodyNode) {
        BodyNode::Label(t)
    }
}

impl vstd::std_specs::convert::FromSpecImpl<Label> for BodyNode {
    open spec fn obeys_from_spec() -> bool {
        true
    }

    open spec fn from_spec(t: Label) -> BodyNode {
        BodyNode::Label(t)
    }
}

impl From<Select> for BodyNode {
    fn from(t: Select) -> (r: BodyNode) {
        BodyNode::Select(t)
    }
}

impl vstd::std_specs::convert::FromSpecImpl<Select> for BodyNode {
    open spec fn obeys_from_spec() -> bool {
        true
    }

    open spec fn from_spec(t: Select) -> BodyNode {
        BodyNode::Select(t)
    }
}

impl From<NoScript> for BodyNode {
    fn from(t: NoScript) -> (r: BodyNode) {
        BodyNode::NoScript(t)
    }
}

impl vstd::std_specs::convert::FromSpecImpl<NoScript> for BodyNode {
    open spec fn obeys_from_spec() -> bool {
        true
    }

    open spec fn from_spec(t: NoScript) -> BodyNode {
        BodyNode::NoScript(t)
    }
}

impl From<Img> for BodyNode {
    fn from(t: Img) -> (r: BodyNode) {
        BodyNode::Img(t)
    }
}

impl vstd::std_specs::convert::FromSpecImpl<Img> for BodyNode {
    open spec fn obeys_from_spec() -> bool {
        true
    }

    open spec fn from_spec(t: Img) -> BodyNode {
        BodyNode::Img(t)
    }
}

} // verus!
