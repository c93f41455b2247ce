//! Queries on HTML documents with CSS selectors, answered by the `scraper`
//! crate. An element is seen through its text and one of its attributes.
use vstd::prelude::*;
use crate::text::views;

verus! {

/// An element found by a selector: the concatenation of its descendant text
/// nodes, and the value of the attribute asked for, if it has it.
pub struct ElementInfo {
    pub text: String,
    pub attr: Option<String>,
}

/// `ElementInfo` seen through the views of its fields.
pub struct ElementInfoView {
    pub text: Seq<char>,
    pub attr: Option<Seq<char>>,
}

impl View for ElementInfo {
    type V = ElementInfoView;

    open spec fn view(&self) -> ElementInfoView {
        ElementInfoView { text: self.text@, attr: crate::feeds::opt_view(self.attr) }
    }
}

/// The views of a list of elements.
pub open spec fn infos(v: Seq<ElementInfo>) -> Seq<ElementInfoView> {
    v.map_values(|e: ElementInfo| e@)
}

/// The views of a list of lists of elements.
pub open spec fn info_lists(v: Seq<Vec<ElementInfo>>) -> Seq<Seq<ElementInfoView>> {
    v.map_values(|l: Vec<ElementInfo>| infos(l@))
}

/// The views of a list of lists of lists of elements.
pub open spec fn info_tables(v: Seq<Vec<Vec<ElementInfo>>>) -> Seq<Seq<Seq<ElementInfoView>>> {
    v.map_values(|t: Vec<Vec<ElementInfo>>| info_lists(t@))
}

/// Whether `scraper::Selector::parse(selector)` succeeds.
pub uninterp spec fn css_selector_valid(selector: Seq<char>) -> bool;

/// What `Html::parse_document(html).select(&Selector::parse(selector))`
/// yields, in document order, each element seen through its text and the
/// attribute `attr`.
pub uninterp spec fn css_select(html: Seq<char>, selector: Seq<char>, attr: Seq<char>) -> Seq<
    ElementInfoView,
>;

/// For each element that `Html::select` with `outer` yields from the
/// document `html`, in document order, and for each selector of `inner`, in
/// order: what `ElementRef::select` with that selector yields under the
/// element, each seen through its text and the attribute `attr`.
pub uninterp spec fn css_select_within(
    html: Seq<char>,
    outer: Seq<char>,
    inner: Seq<Seq<char>>,
    attr: Seq<char>,
) -> Seq<Seq<Seq<ElementInfoView>>>;

/// Calls `scraper::Selector::parse(selector)` and reports whether it
/// succeeded. Claimed: the answer depends on `selector` alone.
#[verifier::external_body]
pub(crate) fn selector_valid(selector: &str) -> (b: bool)
    ensures
        b == css_selector_valid(selector@),
{
    scraper::Selector::parse(selector).is_ok()
}

/// Parses `html` with `scraper::Html::parse_document` and lists what
/// `Html::select` yields for `selector`, reading `ElementRef::text` and
/// `ElementRef::attr(attr)` of each element. Claimed: the list depends on
/// the three arguments alone. `requires` leaves out selectors that do not
/// parse.
#[verifier::external_body]
pub(crate) fn select_all(html: &str, selector: &str, attr: &str) -> (r: Vec<ElementInfo>)
    requires
        css_selector_valid(selector@),
    ensures
        infos(r@) == css_select(html@, selector@, attr@),
{
    let doc = scraper::Html::parse_document(html);
    let sel = scraper::Selector::parse(selector).unwrap();
    doc.select(&sel).map(|e| ElementInfo {
        text: e.text().collect(),
        attr: e.attr(attr).map(String::from),
    }).collect()
}

/// Parses `html` with `scraper::Html::parse_document`; for each element
/// that `Html::select` yields for `outer`, runs `ElementRef::select` with
/// each selector of `inner`, reading `ElementRef::text` and
/// `ElementRef::attr(attr)` of each match. Claimed: the result depends on
/// the four arguments alone, and has one list per inner selector for each
/// outer element. `requires` leaves out selectors that do not parse.
#[verifier::external_body]
pub(crate) fn select_within(html: &str, outer: &str, inner: &Vec<String>, attr: &str) -> (r: Vec<
    Vec<Vec<ElementInfo>>,
>)
    requires
        css_selector_valid(outer@),
        forall|i: int| 0 <= i < inner.len() ==> css_selector_valid(#[trigger] inner@[i]@),
    ensures
        info_tables(r@) == css_select_within(html@, outer@, views(inner@), attr@),
        forall|k: int| 0 <= k < r.len() ==> (#[trigger] r@[k]).len() == inner.len(),
{
    let doc = scraper::Html::parse_document(html);
    let outer = scraper::Selector::parse(outer).unwrap();
    let inner: Vec<_> = inner.iter().map(|s| scraper::Selector::parse(s).unwrap()).collect();
    doc.select(&outer).map(|el| inner.iter().map(|sel| el.select(sel).map(|e| ElementInfo {
        text: e.text().collect(),
        attr: e.attr(attr).map(String::from),
    }).collect()).collect()).collect()
}

} // verus!
