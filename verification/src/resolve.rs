//! From a selected element to the address and the file name of its image.

use crate::error::DownloadError;
use crate::filename::{extension_of, file_extension, sanitize_filename, sanitized};
use crate::page::{ImageElement, ImageElementView};
use url::Url;
use vstd::prelude::*;

verus! {

/// The address against which the sources of all images are resolved: the
/// root of the site, whatever page an image was found on.
pub const BASE_URL: &'static str = "https://arknights.wikiru.jp/";

/// An element that has both its attributes.
#[derive(Clone, Debug, PartialEq, Eq)]
pub struct ImageCandidate {
    /// The deferred source, relative or absolute.
    pub raw_src: String,
    /// The display title.
    pub title: String,
}

/// The mathematical content of an [`ImageCandidate`].
pub struct ImageCandidateView {
    pub raw_src: Seq<char>,
    pub title: Seq<char>,
}

impl View for ImageCandidate {
    type V = ImageCandidateView;

    open spec fn view(&self) -> ImageCandidateView {
        ImageCandidateView { raw_src: self.raw_src@, title: self.title@ }
    }
}

/// An image that is ready to be fetched and stored.
#[derive(Clone, Debug, PartialEq, Eq)]
pub struct ResolvedDownload {
    /// The absolute address of the image.
    pub absolute_url: String,
    /// The sanitized display title.
    pub filename: String,
    /// The extension of the source, without its dot.
    pub extension: String,
}

/// The mathematical content of a [`ResolvedDownload`].
pub struct ResolvedDownloadView {
    pub absolute_url: Seq<char>,
    pub filename: Seq<char>,
    pub extension: Seq<char>,
}

impl View for ResolvedDownload {
    type V = ResolvedDownloadView;

    open spec fn view(&self) -> ResolvedDownloadView {
        ResolvedDownloadView {
            absolute_url: self.absolute_url@,
            filename: self.filename@,
            extension: self.extension@,
        }
    }
}

/// The mathematical content of the outcome of resolving one element.
pub open spec fn resolution_view(r: Result<ResolvedDownload, DownloadError>) -> Result<
    ResolvedDownloadView,
    DownloadError,
> {
    match r {
        Ok(d) => Ok(d@),
        Err(e) => Err(e),
    }
}

#[verifier::external_type_specification]
#[verifier::external_body]
pub struct ExUrlParseError(url::ParseError);

/// The address that a reference denotes relative to a base: `None` where
/// `base` is not an absolute address or `reference` cannot be resolved
/// against it, else the serialization of the resolved address.
pub uninterp spec fn url_joined(base: Seq<char>, reference: Seq<char>) -> Option<Seq<char>>;

/// Parses `base` with `url::Url::parse`, resolves `reference` against it
/// with `url::Url::join` and takes the serialization of the result. The
/// contract claims that the outcome is a function of the two texts alone
/// and that it is an error exactly where one of the two calls fails.
#[verifier::external_body]
fn join_url(base: &str, reference: &str) -> (joined: Result<String, url::ParseError>)
    ensures
        match joined {
            Ok(address) => url_joined(base@, reference@) == Some(address@),
            Err(_) => url_joined(base@, reference@).is_none(),
        },
{
    Ok(String::from(Url::parse(base)?.join(reference)?))
}

/// The candidate that an element yields: it needs both attributes.
pub open spec fn candidate_of(element: ImageElementView) -> Result<
    ImageCandidateView,
    DownloadError,
> {
    match (element.source, element.title) {
        (Some(raw_src), Some(title)) => Ok(ImageCandidateView { raw_src, title }),
        _ => Err(DownloadError::MissingAttribute),
    }
}

/// The download that a candidate yields once its address is known: the
/// file is named by the sanitized title and the extension of the source.
pub open spec fn resolved_with(candidate: ImageCandidateView, address: Seq<char>) -> Result<
    ResolvedDownloadView,
    DownloadError,
> {
    match extension_of(candidate.raw_src) {
        Some(extension) => Ok(
            ResolvedDownloadView {
                absolute_url: address,
                filename: sanitized(candidate.title),
                extension,
            },
        ),
        None => Err(DownloadError::MissingExtension),
    }
}

/// The download that a candidate yields: its source is resolved against
/// [`BASE_URL`] first.
pub open spec fn resolution_of(candidate: ImageCandidateView) -> Result<
    ResolvedDownloadView,
    DownloadError,
> {
    match url_joined(BASE_URL@, candidate.raw_src) {
        Some(address) => resolved_with(candidate, address),
        None => Err(DownloadError::UrlError),
    }
}

/// The download that an element yields, or the first reason why it yields
/// none: a missing attribute, then a source that does not resolve, then a
/// source without extension.
pub open spec fn element_resolution(element: ImageElementView) -> Result<
    ResolvedDownloadView,
    DownloadError,
> {
    match candidate_of(element) {
        Ok(candidate) => resolution_of(candidate),
        Err(e) => Err(e),
    }
}

/// The path of the file that receives a download below `dir`.
pub open spec fn destination_path(dir: Seq<char>, download: ResolvedDownloadView) -> Seq<char> {
    dir + "/"@ + download.filename + "."@ + download.extension
}

/// What is done with the outcome of resolving: the address is handed on,
/// and a failure is a [`DownloadError::UrlError`].
pub fn resolved_address(joined: Result<String, url::ParseError>) -> (address: Result<
    String,
    DownloadError,
>)
    ensures
        match address {
            Ok(a) => joined matches Ok(b) && a == b,
            Err(e) => joined is Err && e == DownloadError::UrlError,
        },
{
    match joined {
        Ok(a) => Ok(a),
        Err(_) => Err(DownloadError::UrlError),
    }
}

/// Resolves `reference` against [`BASE_URL`].
pub fn resolve_url(reference: &str) -> (address: Result<String, DownloadError>)
    ensures
        match address {
            Ok(a) => url_joined(BASE_URL@, reference@) == Some(a@),
            Err(e) => url_joined(BASE_URL@, reference@).is_none() && e == DownloadError::UrlError,
        },
{
    resolved_address(join_url(BASE_URL, reference))
}

impl ImageElement {
    /// The candidate of this element, which needs both its attributes.
    pub fn candidate(&self) -> (candidate: Result<ImageCandidate, DownloadError>)
        ensures
            match candidate {
                Ok(c) => candidate_of(self@) == Ok::<_, DownloadError>(c@),
                Err(e) => candidate_of(self@) == Err::<ImageCandidateView, _>(e),
            },
    {
        match (&self.source, &self.title) {
            (Some(raw_src), Some(title)) => Ok(
                ImageCandidate { raw_src: raw_src.clone(), title: title.clone() },
            ),
            _ => Err(DownloadError::MissingAttribute),
        }
    }

    /// The download of this element, or the reason why it has none.
    pub fn resolve(&self) -> (download: Result<ResolvedDownload, DownloadError>)
        ensures
            resolution_view(download) == element_resolution(self@),
    {
        match self.candidate() {
            Ok(candidate) => candidate.resolve(),
            Err(e) => Err(e),
        }
    }
}

impl ImageCandidate {
    /// The download of this candidate at the address `absolute_url`.
    pub fn with_url(&self, absolute_url: String) -> (download: Result<
        ResolvedDownload,
        DownloadError,
    >)
        ensures
            resolution_view(download) == resolved_with(self@, absolute_url@),
    {
        match file_extension(self.raw_src.as_str()) {
            Some(extension) => Ok(
                ResolvedDownload {
                    absolute_url,
                    filename: sanitize_filename(self.title.as_str()),
                    extension,
                },
            ),
            None => Err(DownloadError::MissingExtension),
        }
    }

    /// The download of this candidate.
    pub fn resolve(&self) -> (download: Result<ResolvedDownload, DownloadError>)
        ensures
            resolution_view(download) == resolution_of(self@),
    {
        match resolve_url(self.raw_src.as_str()) {
            Ok(address) => self.with_url(address),
            Err(e) => Err(e),
        }
    }
}

impl ResolvedDownload {
    /// The path of the file below `dir`: `dir/filename.extension`.
    pub fn destination(&self, dir: &str) -> (path: String)
        ensures
            path@ == destination_path(dir@, self@),
    {
        let mut path = dir.to_owned();
        path.append("/");
        path.append(self.filename.as_str());
        path.append(".");
        path.append(self.extension.as_str());
        path
    }
}

} // verus!
