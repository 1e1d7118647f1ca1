//! The host of a URL string, taken from the `url` crate.

use vstd::prelude::*;

verus! {

/// The host of a URL string as the `url` crate reports it, or `None`
/// when the string does not parse as an absolute URL or has no host.
/// Parsing is a function of the string alone.
pub uninterp spec fn parsed_host(s: Seq<char>) -> Option<Seq<char>>;

/// Relies on url::Url::parse and url::Url::host_str: the host part of an
/// absolute URL, or `None` when the string does not parse or the URL has
/// no host.
#[verifier::external_body]
pub(crate) fn url_host(s: &str) -> (r: Option<String>)
    ensures
        match r {
            Some(h) => parsed_host(s@) == Some(h@),
            None => parsed_host(s@) is None,
        },
{
    match url::Url::parse(s) {
        Ok(u) => u.host_str().map(|h| h.to_string()),
        Err(_) => None,
    }
}

} // verus!
