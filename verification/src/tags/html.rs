use vstd::prelude::*;

verus! {

use crate::tags::body::Body;
use crate::tags::head::Head;
use vstd::string::StringExecFns;

/// The document root: one `<head>` collection and one `<body>` collection.
/// If you are trying to render a whole document to a string, this is what
/// you want to use.
#[derive(Debug)]
pub struct Html {
    head: Head,
    body: Body,
}

/// Creates a new `Html` tag; functionally equivalent to `Html::new()`, but
/// easier to type.
pub fn html() -> (r: Html)
    ensures
        r.head_part().child_seq() == Seq::<crate::tags::head_node::HeadNode>::empty(),
        r.body_part().attr_seq() == Seq::<(Seq<char>, Seq<char>)>::empty(),
        r.body_part().child_seq() == Seq::<crate::tags::body_node::BodyNode>::empty(),
{
    Html::new()
}

impl Default for Html {
    /// A document with an empty head and an empty body.
    fn default() -> (r: Self)
        ensures
            r.head_part().child_seq() == Seq::<crate::tags::head_node::HeadNode>::empty(),
            r.body_part().attr_seq() == Seq::<(Seq<char>, Seq<char>)>::empty(),
            r.body_part().child_seq() == Seq::<crate::tags::body_node::BodyNode>::empty(),
    {
        Html { head: Head::new(), body: Body::new() }
    }
}

impl Clone for Html {
    /// A deep copy of this document, for use as an independent tree: the
    /// copy renders to exactly the same markup as the original.
    fn clone(&self) -> (res: Self)
        ensures
            res.render_spec() == self.render_spec(),
    {
        Html { head: self.head.clone(), body: self.body.clone() }
    }
}

impl Html {
    /// The head collection of this document.
    pub closed spec fn head_part(self) -> Head {
        self.head
    }

    /// The body collection of this document.
    pub closed spec fn body_part(self) -> Body {
        self.body
    }

    /// The markup this document renders to: a fixed document-type
    /// declaration, then the head and the body inside an `<html>` tag.
    pub open spec fn render_spec(self) -> Seq<char> {
        "<!DOCTYPE html>"@ + "<html>"@ + self.head_part().render_spec()
            + self.body_part().render_spec() + "</html>"@
    }

    /// Create a new document with an empty head and an empty body.  This is
    /// exactly the same as `Html::default()`, but shorter to type.
    pub fn new() -> (r: Self)
        ensures
            r.head_part().child_seq() == Seq::<crate::tags::head_node::HeadNode>::empty(),
            r.body_part().attr_seq() == Seq::<(Seq<char>, Seq<char>)>::empty(),
            r.body_part().child_seq() == Seq::<crate::tags::body_node::BodyNode>::empty(),
    {
        Self::default()
    }

    /// Attach a `<head>` tag to this document, replacing the previous head
    /// collection wholesale.
    pub fn head(self, head: Head) -> (r: Self)
        ensures
            r.head_part() == head,
            r.body_part() == self.body_part(),
    {
        let mut s = self;
        s.head = head;
        s
    }

    /// Attach a `<body>` tag to this document, replacing the previous body
    /// collection wholesale.
    pub fn body(self, body: Body) -> (r: Self)
        ensures
            r.head_part() == self.head_part(),
            r.body_part() == body,
    {
        let mut s = self;
        s.body = body;
        s
    }

    /// Render this document to its markup text.
    pub fn render(&self) -> (r: String)
        ensures
            r@ == self.render_spec(),
    {
        let mut out = String::new();
        out.append("<!DOCTYPE html>");
        out.append("<html>");
        self.head.render_into(&mut out);
        self.body.render_into(&mut out);
        out.append("</html>");
        out
    }
}

} // verus!
