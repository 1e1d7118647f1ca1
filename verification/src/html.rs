//! Image references of an HTML document, taken from the `select` crate.

use vstd::prelude::*;

verus! {

/// The `src` attributes of the `img` tags of an HTML document, in
/// document order, skipping `img` tags that carry no `src` attribute.
/// Parsing is a function of the text alone.
pub uninterp spec fn img_srcs_of(html: Seq<char>) -> Seq<Seq<char>>;

/// Relies on select::document::Document::from, Document::find with
/// select::predicate::Name("img") and Node::attr("src"): lists each
/// `img` tag's `src` attribute in document order, skipping `img` tags
/// without one.
#[verifier::external_body]
pub(crate) fn extract_img_srcs(html: &str) -> (r: Vec<String>)
    ensures
        r.deep_view() == img_srcs_of(html@),
{
    select::document::Document::from(html)
        .find(select::predicate::Name("img"))
        .filter_map(|node| node.attr("src"))
        .map(|s| s.to_string())
        .collect()
}

} // verus!
