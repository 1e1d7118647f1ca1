//! Filename sanitization: every character outside ASCII alphanumerics,
//! `.` and `_` is replaced by an underscore.

use vstd::prelude::*;
use crate::text::push_char;

verus! {

/// A character that a sanitized filename keeps: an ASCII digit, an
/// ASCII letter, `.` or `_`.
pub open spec fn keeps_char(c: char) -> bool {
    (48 <= c as u32 && c as u32 <= 57)  // '0' ..= '9'
    || (65 <= c as u32 && c as u32 <= 90)  // 'A' ..= 'Z'
    || (97 <= c as u32 && c as u32 <= 122)  // 'a' ..= 'z'
    || c == '.'
    || c == '_'
}

/// What one character of a filename becomes.
pub open spec fn sanitize_char(c: char) -> char {
    if keeps_char(c) {
        c
    } else {
        '_'
    }
}

/// The sanitized form of a whole name.
pub open spec fn sanitized(s: Seq<char>) -> Seq<char> {
    s.map_values(|c: char| sanitize_char(c))
}

fn keep_char(c: char) -> (r: bool)
    ensures
        r == keeps_char(c),
{
    let u = c as u32;
    (48 <= u && u <= 57) || (65 <= u && u <= 90) || (97 <= u && u <= 122) || c == '.' || c == '_'
}

/// Replaces every character outside ASCII alphanumerics, `.` and `_`
/// with an underscore.
pub fn sanitize_filename(name: &str) -> (r: String)
    ensures
        r@ == sanitized(name@),
{
    let n = name.unicode_len();
    let mut out = String::new();
    let mut i: usize = 0;
    while i < n
        invariant
            i <= n,
            n == name@.len(),
            out@ == sanitized(name@.subrange(0, i as int)),
        decreases n - i,
    {
        let c = name.get_char(i);
        if keep_char(c) {
            push_char(&mut out, c);
        } else {
            push_char(&mut out, '_');
        }
        proof {
            assert(name@.subrange(0, i + 1 as int) =~= name@.subrange(0, i as int).push(
                name@[i as int],
            ));
            assert(sanitized(name@.subrange(0, i + 1 as int)) =~= sanitized(
                name@.subrange(0, i as int),
            ).push(sanitize_char(name@[i as int])));
        }
        i += 1;
    }
    assert(name@.subrange(0, n as int) =~= name@);
    out
}

/// Sanitizing is idempotent: a name that is already sanitized
/// sanitizes to itself.
pub proof fn lemma_sanitize_idempotent(s: Seq<char>)
    ensures
        sanitized(sanitized(s)) == sanitized(s),
{
    assert(sanitized(sanitized(s)) =~= sanitized(s));
}

} // verus!
