//! Resolving an image reference against the page's base URL.
//!
//! A reference that already carries an `http://` or `https://` scheme is
//! used unchanged; any other reference is appended to the base URL after
//! stripping the base's trailing slashes. This is a textual heuristic:
//! root-relative and parent-relative references get no special handling.

use vstd::prelude::*;
use crate::text::{is_prefix_of, str_starts_with};

verus! {

pub open spec fn http_prefix() -> Seq<char> {
    seq!['h', 't', 't', 'p', ':', '/', '/']
}

pub open spec fn https_prefix() -> Seq<char> {
    seq!['h', 't', 't', 'p', 's', ':', '/', '/']
}

/// An image reference that already carries its own scheme.
pub open spec fn is_absolute_ref(r: Seq<char>) -> bool {
    is_prefix_of(http_prefix(), r) || is_prefix_of(https_prefix(), r)
}

/// `s` with every trailing `/` removed.
pub open spec fn trim_trailing_slashes(s: Seq<char>) -> Seq<char>
    decreases s.len(),
{
    if s.len() > 0 && s[s.len() - 1] == '/' {
        trim_trailing_slashes(s.drop_last())
    } else {
        s
    }
}

/// The absolute URL an image reference resolves to.
pub open spec fn spec_resolve(base: Seq<char>, reference: Seq<char>) -> Seq<char> {
    if is_absolute_ref(reference) {
        reference
    } else {
        trim_trailing_slashes(base) + seq!['/'] + reference
    }
}

fn trim_base(s: &str) -> (r: &str)
    ensures
        r@ == trim_trailing_slashes(s@),
{
    let n = s.unicode_len();
    let mut end = n;
    assert(s@.subrange(0, n as int) =~= s@);
    while end > 0 && s.get_char(end - 1) == '/'
        invariant
            end <= n,
            n == s@.len(),
            trim_trailing_slashes(s@) == trim_trailing_slashes(s@.subrange(0, end as int)),
        decreases end,
    {
        proof {
            assert(s@.subrange(0, end as int).drop_last() =~= s@.subrange(0, end - 1));
        }
        end -= 1;
    }
    assert(trim_trailing_slashes(s@.subrange(0, end as int)) == s@.subrange(0, end as int));
    s.substring_char(0, end)
}

/// Resolves an image reference against the page's base URL: a reference
/// that already starts with `http://` or `https://` is returned
/// unchanged, and any other reference is appended to the base URL with a
/// single `/` after stripping the base's trailing slashes.
pub fn resolve_image_url(base: &str, reference: &str) -> (r: String)
    ensures
        r@ == spec_resolve(base@, reference@),
        is_absolute_ref(reference@) ==> r@ == reference@,
        !is_absolute_ref(reference@) ==> r@ == trim_trailing_slashes(base@) + seq!['/']
            + reference@,
{
    proof {
        reveal_strlit("http://");
        reveal_strlit("https://");
        reveal_strlit("/");
        assert(("http://")@ =~= http_prefix());
        assert(("https://")@ =~= https_prefix());
        assert(("/")@ =~= seq!['/']);
    }
    if str_starts_with(reference, "http://") || str_starts_with(reference, "https://") {
        reference.to_owned()
    } else {
        let trimmed = trim_base(base);
        let mut out = trimmed.to_owned();
        out.append("/");
        out.append(reference);
        out
    }
}

} // verus!
