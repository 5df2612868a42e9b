use vstd::prelude::*;

verus! {

use crate::render::{contains_seq, lemma_concat_contains_middle};
use vstd::string::StringExecFns;

/// The `<noscript>` tag.  The contents of this tag will be shown to people
/// whose browsers don't support Javascript, or who don't have Javascript
/// enabled.
///
/// The text is stored verbatim: it is intended to hold markup of the page
/// author's own making, so it is the caller's responsibility not to place
/// untrusted text here.
#[derive(Debug)]
pub struct NoScript {
    text: String,
}

/// Creates a new `NoScript` tag; functionally equivalent to
/// `NoScript::new(<text>)`, but easier to type.
pub fn noscript(text: &str) -> (r: NoScript)
    ensures
        r.text_view() == text@,
{
    NoScript::new(text)
}

impl Clone for NoScript {
    /// A copy with the same text; it renders identically to the original.
    fn clone(&self) -> (res: Self)
        ensures
            res.text_view() == self.text_view(),
    {
        NoScript { text: self.text.clone() }
    }
}

impl NoScript {
    /// The text this tag holds.
    pub closed spec fn text_view(self) -> Seq<char> {
        self.text@
    }

    /// The markup this tag renders to.
    pub open spec fn render_spec(self) -> Seq<char> {
        "<noscript>"@ + self.text_view() + "</noscript>"@
    }

    /// Construct a new `<noscript>` tag holding the given text verbatim.
    pub fn new(text: &str) -> (r: Self)
        ensures
            r.text_view() == text@,
    {
        NoScript { text: text.to_owned() }
    }

    /// Render this tag to its markup text.
    pub fn render(&self) -> (r: String)
        ensures
            r@ == self.render_spec(),
    {
        let mut out = String::new();
        self.render_into(&mut out);
        out
    }

    pub(crate) fn render_into(&self, out: &mut String)
        ensures
            final(out)@ == old(out)@ + self.render_spec(),
    {
        out.append("<noscript>");
        out.append(self.text.as_str());
        out.append("</noscript>");
    }
}

/// The stored text is rendered verbatim: the markup of a `NoScript` tag
/// contains its text unchanged.
pub proof fn lemma_noscript_renders_text_verbatim(t: NoScript)
    ensures
        contains_seq(t.render_spec(), t.text_view()),
{
    lemma_concat_contains_middle("<noscript>"@, t.text_view(), "</noscript>"@);
}

} // verus!
