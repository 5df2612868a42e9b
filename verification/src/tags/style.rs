use vstd::prelude::*;

verus! {

use crate::render::{contains_seq, lemma_concat_contains_middle};
use vstd::string::StringExecFns;

/// The `<style>` tag, useful for embedding CSS styling inside HTML
/// documents.
///
/// The text is stored verbatim: CSS is free-form trusted input which the
/// library deliberately does not validate or rewrite, so it is the caller's
/// responsibility not to place untrusted text here.
#[derive(Debug)]
#[must_use]
pub struct StyleTag {
    text: String,
}

/// Creates a new `StyleTag`; functionally equivalent to
/// `StyleTag::new(<text>)`, but easier to type.
pub fn style(text: &str) -> (r: StyleTag)
    ensures
        r.text_view() == text@,
{
    StyleTag::new(text)
}

impl Clone for StyleTag {
    /// A copy with the same text; it renders identically to the original.
    fn clone(&self) -> (res: Self)
        ensures
            res.text_view() == self.text_view(),
    {
        StyleTag { text: self.text.clone() }
    }
}

impl StyleTag {
    /// The text this tag holds.
    pub closed spec fn text_view(self) -> Seq<char> {
        self.text@
    }

    /// The markup this tag renders to.
    pub open spec fn render_spec(self) -> Seq<char> {
        "<style>"@ + self.text_view() + "</style>"@
    }

    /// Create a new style tag holding the given text verbatim.
    pub fn new(text: &str) -> (r: Self)
        ensures
            r.text_view() == text@,
    {
        StyleTag { text: text.to_owned() }
    }

    /// Render this tag to its markup text.
    pub fn render(&self) -> (r: String)
        ensures
            r@ == self.render_spec(),
    {
        let mut out = String::new();
        self.render_into(&mut out);
        out
    }

    pub(crate) fn render_into(&self, out: &mut String)
        ensures
            final(out)@ == old(out)@ + self.render_spec(),
    {
        out.append("<style>");
        out.append(self.text.as_str());
        out.append("</style>");
    }
}

/// The stored text is rendered verbatim: the markup of a `StyleTag`
/// contains its text unchanged.
pub proof fn lemma_style_renders_text_verbatim(t: StyleTag)
    ensures
        contains_seq(t.render_spec(), t.text_view()),
{
    lemma_concat_contains_middle("<style>"@, t.text_view(), "</style>"@);
}

} // verus!
