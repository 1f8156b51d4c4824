use crate::error::Error;
use vstd::prelude::*;

verus! {

/// The HTML that the markdown converter produces for a text.
pub uninterp spec fn markdown_html(md: Seq<char>) -> Seq<char>;

/// Relies on pulldown_cmark's `Parser::new` (no extensions) and
/// `html::push_html`: the HTML depends on the markdown text alone.
#[verifier::external_body]
pub(crate) fn push_html_of(md: &str) -> (r: String)
    ensures
        r@ == markdown_html(md@),
{
    let mut out = String::new();
    pulldown_cmark::html::push_html(&mut out, pulldown_cmark::Parser::new(md));
    out
}

/// Converts markdown text to HTML. The conversion never fails.
pub fn markdown_to_html(md: &str) -> (r: Result<String, Error>)
    ensures
        r matches Ok(h) && h@ == markdown_html(md@),
{
    Ok(push_html_of(md))
}

} // verus!
