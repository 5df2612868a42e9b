use vstd::prelude::*;

verus! {

/// A new line: the `<br>` tag.
///
/// It carries no attributes and no children, so it renders to exactly
/// `<br/>` however it was built.
#[derive(Debug, Clone)]
pub struct Br;

impl Br {
    /// The markup this tag renders to: exactly `<br/>`.
    pub open spec fn render_spec(self) -> Seq<char> {
        "<br/>"@
    }

    /// Render this tag to its markup text: exactly `<br/>`.
    pub fn render(&self) -> (r: String)
        ensures
            r@ == self.render_spec(),
            r@ == "<br/>"@,
    {
        let mut out = String::new();
        self.render_into(&mut out);
        out
    }

    pub(crate) fn render_into(&self, out: &mut String)
        ensures
            final(out)@ == old(out)@ + self.render_spec(),
    {
        vstd::string::StringExecFns::append(out, "<br/>");
    }
}

} // verus!
