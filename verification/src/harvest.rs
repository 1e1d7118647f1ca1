//! The harvesting plan of a run: which URL each image reference is
//! fetched from and which local path its bytes are written to.
//!
//! The plan is pure: network and filesystem work happens outside the
//! library, one fetch and one write per planned item.

use vstd::prelude::*;
use crate::host::{parsed_host, url_host};
use crate::html::{extract_img_srcs, img_srcs_of};
use crate::paths::{dest_dir, image_file_name, join_path, last_segment, spec_dest_dir};
use crate::resolve::{resolve_image_url, spec_resolve};
use crate::sanitize::{sanitize_filename, sanitized};

verus! {

/// One image to fetch and the file its bytes go to.
#[derive(Debug)]
pub struct PlannedDownload {
    /// The absolute URL to fetch.
    pub url: String,
    /// The file the response body is written to.
    pub file_path: String,
}

/// Everything a run writes: the destination directory to create and the
/// downloads to perform, in document order.
#[derive(Debug)]
pub struct HarvestPlan {
    /// The directory that holds every file of the run.
    pub dir: String,
    /// The downloads, in document order.
    pub items: Vec<PlannedDownload>,
}

/// Why no plan could be derived.
#[derive(Debug, PartialEq, Eq, Structural)]
pub enum HarvestError {
    /// The page URL does not parse as an absolute URL with a host.
    NoHost,
}

/// The file a reference's image is written to, under the run's
/// destination directory: its last segment, sanitized.
pub open spec fn spec_item_path(docroot: Seq<char>, host: Seq<char>, reference: Seq<char>) -> Seq<
    char,
> {
    spec_dest_dir(docroot, host) + seq!['/'] + sanitized(last_segment(reference))
}

/// Turns the image references of a page into a harvesting plan.
///
/// Fails exactly when the page URL has no host; otherwise every
/// reference yields one item, in order: its resolved URL, and a file
/// named by its sanitized last segment under the run's destination
/// directory.
pub fn plan_downloads(page_url: &str, docroot: &str, refs: &Vec<String>) -> (r: Result<
    HarvestPlan,
    HarvestError,
>)
    ensures
        r is Ok <==> parsed_host(page_url@) is Some,
        r is Err ==> r == Result::<HarvestPlan, HarvestError>::Err(HarvestError::NoHost),
        r is Ok ==> {
            let plan = r->Ok_0;
            let host = parsed_host(page_url@)->Some_0;
            &&& plan.dir@ == spec_dest_dir(docroot@, host)
            &&& plan.items@.len() == refs@.len()
            &&& forall|i: int|
                0 <= i < refs@.len() ==> {
                    &&& (#[trigger] plan.items@[i]).url@ == spec_resolve(page_url@, refs@[i]@)
                    &&& plan.items@[i].file_path@ == spec_item_path(docroot@, host, refs@[i]@)
                }
        },
{
    let host = match url_host(page_url) {
        Some(h) => h,
        None => {
            return Err(HarvestError::NoHost);
        },
    };
    let dir = dest_dir(docroot, host.as_str());
    let mut items: Vec<PlannedDownload> = Vec::new();
    let mut i: usize = 0;
    while i < refs.len()
        invariant
            i <= refs@.len(),
            parsed_host(page_url@) == Some(host@),
            dir@ == spec_dest_dir(docroot@, host@),
            items@.len() == i,
            forall|j: int|
                0 <= j < i ==> {
                    &&& (#[trigger] items@[j]).url@ == spec_resolve(page_url@, refs@[j]@)
                    &&& items@[j].file_path@ == spec_item_path(docroot@, host@, refs@[j]@)
                },
        decreases refs@.len() - i,
    {
        let reference = &refs[i];
        let resolved = resolve_image_url(page_url, reference.as_str());
        let raw_name = image_file_name(reference.as_str());
        let name = sanitize_filename(raw_name.as_str());
        let path = join_path(dir.as_str(), name.as_str());
        items.push(PlannedDownload { url: resolved, file_path: path });
        i += 1;
    }
    Ok(HarvestPlan { dir, items })
}

/// Derives the whole plan of a run from the page's URL, its HTML text
/// and the documents root: one item per `img` tag with a `src`
/// attribute, in document order.
pub fn harvest_page(page_url: &str, html: &str, docroot: &str) -> (r: Result<
    HarvestPlan,
    HarvestError,
>)
    ensures
        r is Ok <==> parsed_host(page_url@) is Some,
        r is Err ==> r == Result::<HarvestPlan, HarvestError>::Err(HarvestError::NoHost),
        r is Ok ==> {
            let plan = r->Ok_0;
            let host = parsed_host(page_url@)->Some_0;
            let srcs = img_srcs_of(html@);
            &&& plan.dir@ == spec_dest_dir(docroot@, host)
            &&& plan.items@.len() == srcs.len()
            &&& forall|i: int|
                0 <= i < srcs.len() ==> {
                    &&& (#[trigger] plan.items@[i]).url@ == spec_resolve(page_url@, srcs[i])
                    &&& plan.items@[i].file_path@ == spec_item_path(docroot@, host, srcs[i])
                }
        },
{
    let refs = extract_img_srcs(html);
    assert(refs@.len() == img_srcs_of(html@).len());
    assert(forall|i: int| 0 <= i < refs@.len() ==> (#[trigger] refs@[i])@ == img_srcs_of(html@)[i]);
    plan_downloads(page_url, docroot, &refs)
}

} // verus!
