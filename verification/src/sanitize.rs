use vstd::prelude::*;

verus! {

/// The text that the sanitizer returns for a given input.
///
/// The sanitizer's exact output is a fixed (if intricate) function of its
/// input text alone, so the contracts of this crate refer to it by this name
/// rather than spelling it out.
pub uninterp spec fn clean_of(text: Seq<char>) -> Seq<char>;

/// Relies on `ammonia::clean`: given untrusted text it returns text with
/// active markup (scripts, disallowed tags and attributes) stripped or
/// escaped.  The result depends on the input text alone.
#[verifier::external_body]
pub(crate) fn clean(text: &str) -> (r: String)
    ensures
        r@ == clean_of(text@),
{
    ammonia::clean(text)
}

} // verus!
