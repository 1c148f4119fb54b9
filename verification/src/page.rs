//! Catalogue pages and the image elements selected on them.

use crate::error::DownloadError;
use crate::rule::{
    range_selector, range_selector_text, rule_of, selector_of, tables_selector, SelectionRule,
};
use crate::target::{Target, TargetConfig};
use scraper::{Html, Selector};
use vstd::prelude::*;
use vstd::utf8::encode_utf8;

verus! {

/// The greatest length, in bytes, of a page that is parsed. The parser
/// keeps text in buffers that grow in powers of two and cannot pass
/// `2^31` bytes, and it may write a character of three bytes for one byte
/// of the page; so three times the length of a page must stay within
/// `2^31`.
pub const MAX_PAGE_BYTES: usize = 0x2AAA_AAAA;

/// The attribute of an image element that holds its deferred source.
pub const SOURCE_ATTRIBUTE: &'static str = "data-src";

/// The attribute of an image element that holds its display title.
pub const TITLE_ATTRIBUTE: &'static str = "title";

/// The text of a fetched page, of at most [`MAX_PAGE_BYTES`] bytes.
#[derive(Debug)]
pub struct Page {
    text: String,
}

impl View for Page {
    type V = Seq<char>;

    closed spec fn view(&self) -> Seq<char> {
        self.text@
    }
}

impl Page {
    #[verifier::type_invariant]
    spec fn bounded(self) -> bool {
        encode_utf8(self.text@).len() <= MAX_PAGE_BYTES
    }

    /// Takes the text of a page, unless it is longer than
    /// [`MAX_PAGE_BYTES`] bytes.
    pub fn new(text: String) -> (page: Option<Page>)
        ensures
            page.is_some() <==> encode_utf8(text@).len() <= MAX_PAGE_BYTES,
            page matches Some(p) ==> p@ == text@,
    {
        if text.as_str().as_bytes().len() <= MAX_PAGE_BYTES {
            Some(Page { text })
        } else {
            None
        }
    }

    /// The text of the page.
    pub fn text(&self) -> (text: &str)
        ensures
            text@ == self@,
    {
        self.text.as_str()
    }

    /// The lazily loaded images of the page inside the sortable tables
    /// numbered `first` to `last`, each with its source and its title as
    /// far as it has them. An empty range has no well-formed selector and
    /// is a [`DownloadError::ParseError`].
    pub fn select_tables(&self, first: u32, last: u32) -> (found: Result<
        Vec<ImageElement>,
        DownloadError,
    >)
        ensures
            match found {
                Ok(elements) => rule_selection(self@, range_selector(first, last)) == Ok::<
                    _,
                    DownloadError,
                >(elements_view(elements@)),
                Err(e) => rule_selection(self@, range_selector(first, last)) == Err::<
                    Seq<ImageElementView>,
                    _,
                >(e),
            },
    {
        proof {
            use_type_invariant(self);
        }
        let rule = range_selector_text(first, last);
        proof {
            if first <= last {
                assert(rule@ == tables_selector(first as nat, (last - first + 1) as nat));
            } else {
                assert(rule@ == tables_selector(0, 0));
            }
        }
        selected(select_attributes(self.text(), rule.as_str(), SOURCE_ATTRIBUTE, TITLE_ATTRIBUTE))
    }
}

/// What was read from one selected element: its deferred source and its
/// display title, each as far as the element has the attribute.
#[derive(Clone, Debug, PartialEq, Eq)]
pub struct ImageElement {
    pub source: Option<String>,
    pub title: Option<String>,
}

/// The mathematical content of an [`ImageElement`].
pub struct ImageElementView {
    pub source: Option<Seq<char>>,
    pub title: Option<Seq<char>>,
}

/// The mathematical content of an optional text.
pub open spec fn text_view(text: Option<String>) -> Option<Seq<char>> {
    match text {
        Some(t) => Some(t@),
        None => None,
    }
}

impl View for ImageElement {
    type V = ImageElementView;

    open spec fn view(&self) -> ImageElementView {
        ImageElementView { source: text_view(self.source), title: text_view(self.title) }
    }
}

/// The mathematical content of a list of elements.
pub open spec fn elements_view(elements: Seq<ImageElement>) -> Seq<ImageElementView> {
    elements.map_values(|e: ImageElement| e@)
}

#[verifier::external_type_specification]
#[verifier::external_body]
pub struct ExSelectorErrorKind(scraper::error::SelectorErrorKind);

/// Whether a text is the selector of a run of sortable tables: a list of
/// selectors that each take a single step, from a table to an image in it.
pub open spec fn is_tables_selector(rule: Seq<char>) -> bool {
    exists|first: nat, count: nat| rule == #[trigger] tables_selector(first, count)
}

/// What a selector finds in a page: `None` where `rule` is not a
/// well-formed selector group, else one entry for each element of the
/// parsed page that `rule` matches, in the order in which the parser
/// inserted these elements into the tree. An entry holds the values of the
/// element's attributes named `source` and `title`.
pub uninterp spec fn css_selection(
    page: Seq<char>,
    rule: Seq<char>,
    source: Seq<char>,
    title: Seq<char>,
) -> Option<Seq<ImageElementView>>;

/// Parses `rule` with `scraper::Selector::parse` and `page` with
/// `scraper::Html::parse_document`, walks the matches of
/// `scraper::Html::select` and reads two attributes of each with
/// `scraper::ElementRef::attr`. The contract claims that the outcome is a
/// function of the four texts alone, that it is an error exactly where the
/// rule does not parse, and that the call returns for every page whose
/// text the parser's buffers can hold and every rule that is a list of
/// table selectors, which matching follows two calls deep at most.
#[verifier::external_body]
fn select_attributes(page: &str, rule: &str, source: &str, title: &str) -> (found: Result<
    Vec<ImageElement>,
    scraper::error::SelectorErrorKind,
>)
    requires
        encode_utf8(page@).len() <= MAX_PAGE_BYTES,
        is_tables_selector(rule@),
    ensures
        match found {
            Ok(elements) => css_selection(page@, rule@, source@, title@) == Some(
                elements_view(elements@),
            ),
            Err(_) => css_selection(page@, rule@, source@, title@).is_none(),
        },
{
    let selector = Selector::parse(rule)?;
    let html = Html::parse_document(page);
    Ok(
        html.select(&selector).map(
            |e| ImageElement {
                source: e.attr(source).map(String::from),
                title: e.attr(title).map(String::from),
            },
        ).collect(),
    )
}

/// What a selector text finds in a page: its matches, each with source
/// and title, or [`DownloadError::ParseError`] where it is not well formed.
pub open spec fn rule_selection(page: Seq<char>, rule: Seq<char>) -> Result<
    Seq<ImageElementView>,
    DownloadError,
> {
    match css_selection(page, rule, SOURCE_ATTRIBUTE@, TITLE_ATTRIBUTE@) {
        Some(elements) => Ok(elements),
        None => Err(DownloadError::ParseError),
    }
}

/// What selecting for a category finds in a page: the matches of the
/// category's rule, or the reason why there are none to be had.
pub open spec fn selection(target: Target, page: Seq<char>) -> Result<
    Seq<ImageElementView>,
    DownloadError,
> {
    match selector_of(rule_of(target)) {
        None => Err(DownloadError::Unimplemented(target)),
        Some(rule) => rule_selection(page, rule),
    }
}

/// What is done with the outcome of the selector: the matches are handed
/// on, and a rule that does not parse is a [`DownloadError::ParseError`].
pub fn selected(
    found: Result<Vec<ImageElement>, scraper::error::SelectorErrorKind>,
) -> (elements: Result<Vec<ImageElement>, DownloadError>)
    ensures
        match elements {
            Ok(v) => found matches Ok(w) && v == w,
            Err(e) => found is Err && e == DownloadError::ParseError,
        },
{
    match found {
        Ok(v) => Ok(v),
        Err(_) => Err(DownloadError::ParseError),
    }
}

impl TargetConfig {
    /// The image elements of this category on `page`. A category without a
    /// rule gives [`DownloadError::Unimplemented`], never an empty list.
    pub fn select_elemtens(&self, page: &Page) -> (found: Result<Vec<ImageElement>, DownloadError>)
        ensures
            match found {
                Ok(elements) => selection(self.target, page@) == Ok::<_, DownloadError>(
                    elements_view(elements@),
                ),
                Err(e) => selection(self.target, page@) == Err::<Seq<ImageElementView>, _>(e),
            },
            rule_of(self.target) == SelectionRule::NotYetSupported ==> found == Err::<
                Vec<ImageElement>,
                _,
            >(DownloadError::Unimplemented(self.target)),
    {
        match self.target.selection_rule() {
            SelectionRule::SortableTables { first, last } => page.select_tables(first, last),
            SelectionRule::NotYetSupported => Err(DownloadError::Unimplemented(self.target)),
        }
    }
}

} // verus!
