//! Deriving where an image is written: the site name is the first
//! dot-delimited label of the page's host, the raw filename is the last
//! `/`-delimited segment of the image reference, and each image lands
//! under `<docroot>/PicHarvest/<site name>`.

use vstd::prelude::*;

verus! {

/// The prefix of `s` before its first `.`, or all of `s` when it has
/// none.
pub open spec fn first_label(s: Seq<char>) -> Seq<char>
    decreases s.len(),
{
    if s.len() == 0 {
        s
    } else if s[0] == '.' {
        Seq::empty()
    } else {
        seq![s[0]] + first_label(s.subrange(1, s.len() as int))
    }
}

/// The suffix of `s` after its last `/`, or all of `s` when it has
/// none.
pub open spec fn last_segment(s: Seq<char>) -> Seq<char>
    decreases s.len(),
{
    if s.len() == 0 {
        s
    } else if s[s.len() - 1] == '/' {
        Seq::<char>::empty()
    } else {
        last_segment(s.drop_last()).push(s[s.len() - 1])
    }
}

proof fn lemma_first_label_take(s: Seq<char>, k: int)
    requires
        0 <= k <= s.len(),
        forall|j: int| 0 <= j < k ==> s[j] != '.',
        k == s.len() || s[k] == '.',
    ensures
        first_label(s) == s.take(k),
    decreases s.len(),
{
    if s.len() == 0 {
        assert(s.take(0) =~= s);
    } else if s[0] == '.' {
        assert(k == 0);
        assert(s.take(0) =~= Seq::<char>::empty());
    } else {
        assert(k >= 1);
        let tail = s.subrange(1, s.len() as int);
        lemma_first_label_take(tail, k - 1);
        assert(seq![s[0]] + tail.take(k - 1) =~= s.take(k));
    }
}

proof fn lemma_last_segment_skip(s: Seq<char>, k: int)
    requires
        0 <= k <= s.len(),
        forall|j: int| k <= j < s.len() ==> s[j] != '/',
        k == 0 || s[k - 1] == '/',
    ensures
        last_segment(s) == s.skip(k),
    decreases s.len(),
{
    if s.len() == 0 {
        assert(s.skip(0) =~= s);
    } else if s[s.len() - 1] == '/' {
        assert(k == s.len());
        assert(s.skip(k) =~= Seq::<char>::empty());
    } else {
        assert(k < s.len());
        lemma_last_segment_skip(s.drop_last(), k);
        assert(s.drop_last().skip(k).push(s[s.len() - 1]) =~= s.skip(k));
    }
}

/// The site name of a host: its first dot-delimited label.
pub fn site_name(host: &str) -> (r: String)
    ensures
        r@ == first_label(host@),
{
    let n = host.unicode_len();
    let mut i: usize = 0;
    while i < n && host.get_char(i) != '.'
        invariant
            i <= n,
            n == host@.len(),
            forall|j: int| 0 <= j < i ==> host@[j] != '.',
        decreases n - i,
    {
        i += 1;
    }
    proof {
        lemma_first_label_take(host@, i as int);
    }
    let label = host.substring_char(0, i);
    assert(host@.subrange(0, i as int) =~= host@.take(i as int));
    label.to_owned()
}

/// The raw filename of an image reference: its last `/`-delimited
/// segment.
pub fn image_file_name(reference: &str) -> (r: String)
    ensures
        r@ == last_segment(reference@),
{
    let n = reference.unicode_len();
    let mut start = n;
    while start > 0 && reference.get_char(start - 1) != '/'
        invariant
            start <= n,
            n == reference@.len(),
            forall|j: int| start <= j < n ==> reference@[j] != '/',
        decreases start,
    {
        start -= 1;
    }
    proof {
        lemma_last_segment_skip(reference@, start as int);
    }
    let segment = reference.substring_char(start, n);
    assert(reference@.subrange(start as int, n as int) =~= reference@.skip(start as int));
    segment.to_owned()
}

/// The fixed folder under the documents root that holds every harvested
/// site.
pub open spec fn harvest_folder() -> Seq<char> {
    seq!['P', 'i', 'c', 'H', 'a', 'r', 'v', 'e', 's', 't']
}

/// The destination directory of a run: `<docroot>/PicHarvest/<site>`,
/// where the site is the host's first dot-delimited label.
pub open spec fn spec_dest_dir(docroot: Seq<char>, host: Seq<char>) -> Seq<char> {
    docroot + seq!['/'] + harvest_folder() + seq!['/'] + first_label(host)
}

/// Builds the destination directory for a run.
pub fn dest_dir(docroot: &str, host: &str) -> (r: String)
    ensures
        r@ == spec_dest_dir(docroot@, host@),
{
    proof {
        reveal_strlit("/PicHarvest/");
        assert(("/PicHarvest/")@ =~= seq!['/'] + harvest_folder() + seq!['/']);
    }
    let mut out = docroot.to_owned();
    out.append("/PicHarvest/");
    let site = site_name(host);
    out.append(site.as_str());
    assert(out@ =~= spec_dest_dir(docroot@, host@));
    out
}

/// Joins a directory and a filename with a single `/`.
pub fn join_path(dir: &str, name: &str) -> (r: String)
    ensures
        r@ == dir@ + seq!['/'] + name@,
{
    proof {
        reveal_strlit("/");
        assert(("/")@ =~= seq!['/']);
    }
    let mut out = dir.to_owned();
    out.append("/");
    out.append(name);
    out
}

} // verus!
