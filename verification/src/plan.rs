//! The downloads that a category's page calls for.

use crate::error::DownloadError;
use crate::page::{elements_view, selection, ImageElement, ImageElementView, Page};
use crate::resolve::{element_resolution, resolution_view, ResolvedDownload, ResolvedDownloadView};
use crate::target::{Target, TargetConfig};
use vstd::prelude::*;

verus! {

/// The outcome of resolving each element of a list, in order.
pub open spec fn resolutions(elements: Seq<ImageElementView>) -> Seq<
    Result<ResolvedDownloadView, DownloadError>,
> {
    elements.map_values(|e: ImageElementView| element_resolution(e))
}

/// The plan of a category for a page: one entry for each selected element,
/// in the order of the selection, or the reason why nothing was selected.
pub open spec fn plan_of(target: Target, page: Seq<char>) -> Result<
    Seq<Result<ResolvedDownloadView, DownloadError>>,
    DownloadError,
> {
    match selection(target, page) {
        Ok(elements) => Ok(resolutions(elements)),
        Err(e) => Err(e),
    }
}

/// The mathematical content of a plan.
pub open spec fn plan_view(plan: Seq<Result<ResolvedDownload, DownloadError>>) -> Seq<
    Result<ResolvedDownloadView, DownloadError>,
> {
    plan.map_values(|r: Result<ResolvedDownload, DownloadError>| resolution_view(r))
}

/// Resolves each element on its own: an element that cannot be resolved
/// keeps its place in the list, with the reason.
pub fn resolve_all(elements: &Vec<ImageElement>) -> (plan: Vec<
    Result<ResolvedDownload, DownloadError>,
>)
    ensures
        plan_view(plan@) == resolutions(elements_view(elements@)),
{
    let mut plan: Vec<Result<ResolvedDownload, DownloadError>> = Vec::new();
    let mut i: usize = 0;
    while i < elements.len()
        invariant
            i <= elements.len(),
            plan.len() == i,
            forall|k: int|
                0 <= k < i ==> resolution_view(#[trigger] plan@[k]) == element_resolution(
                    elements@[k]@,
                ),
        decreases elements.len() - i,
    {
        plan.push(elements[i].resolve());
        i = i + 1;
    }
    assert(plan_view(plan@) =~= resolutions(elements_view(elements@)));
    plan
}

impl TargetConfig {
    /// The downloads that `page` calls for in this category. The outer
    /// error says why nothing could be selected; an entry's error says why
    /// that element has no download.
    pub fn download(&self, page: &Page) -> (plan: Result<
        Vec<Result<ResolvedDownload, DownloadError>>,
        DownloadError,
    >)
        ensures
            match plan {
                Ok(entries) => plan_of(self.target, page@) == Ok::<_, DownloadError>(
                    plan_view(entries@),
                ),
                Err(e) => plan_of(self.target, page@) == Err::<
                    Seq<Result<ResolvedDownloadView, DownloadError>>,
                    _,
                >(e),
            },
    {
        match self.select_elemtens(page) {
            Ok(elements) => Ok(resolve_all(&elements)),
            Err(e) => Err(e),
        }
    }
}

} // verus!
