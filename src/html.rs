use vstd::prelude::*;
use crate::entity::opt_view;

verus! {

/// One anchor of a listing: its link target, when it has one, and its inner markup.
pub struct Anchor {
    pub href: Option<String>,
    pub text: String,
}

pub open spec fn anchor_view(a: Anchor) -> (Option<Seq<char>>, Seq<char>) {
    (opt_view(a.href), a.text@)
}

pub open spec fn strings_view(v: Vec<String>) -> Seq<Seq<char>> {
    v@.map_values(|s: String| s@)
}

pub open spec fn anchor_lists_view(v: Vec<Vec<Anchor>>) -> Seq<Seq<(Option<Seq<char>>, Seq<char>)>> {
    v@.map_values(|l: Vec<Anchor>| l@.map_values(|a: Anchor| anchor_view(a)))
}

/// Whether scraper's `Selector::parse` accepts the selector text.
pub uninterp spec fn selector_valid(selector: Seq<char>) -> bool;

/// The inner markup of every element that matches the selector in the document
/// parsed from the markup, in document order.
pub uninterp spec fn selected_inner_html(html: Seq<char>, selector: Seq<char>) -> Seq<Seq<char>>;

/// For every element that matches `listing` in the document parsed from the
/// markup, in document order: the elements under it that match `anchor`, each as
/// the value of its attribute `attribute` and its inner markup.
pub uninterp spec fn selected_anchors(
    html: Seq<char>,
    listing: Seq<char>,
    anchor: Seq<char>,
    attribute: Seq<char>,
) -> Seq<Seq<(Option<Seq<char>>, Seq<char>)>>;

/// What fast_html2md's `rewrite_html` makes of the markup, in CommonMark form.
pub uninterp spec fn markdown_of(html: Seq<char>) -> Seq<char>;

/// Relies on scraper's `Selector::parse`, `Html::parse_document`, `Html::select` and
/// `ElementRef::inner_html`: the inner markup of each match, in document order;
/// an error exactly when the selector does not parse.
#[verifier::external_body]
pub(crate) fn select_inner_html(html: &str, selector: &str) -> (r: Result<Vec<String>, String>)
    ensures
        r is Ok == selector_valid(selector@),
        r matches Ok(v) ==> strings_view(v) == selected_inner_html(html@, selector@),
{
    let selector = scraper::Selector::parse(selector).map_err(|e| e.to_string())?;
    let document = scraper::Html::parse_document(html);
    Ok(document.select(&selector).map(|element| element.inner_html()).collect())
}

/// Relies on scraper's `Selector::parse`, `Html::parse_document`, `Html::select`,
/// `ElementRef::select`, `ElementRef::attr` and `ElementRef::inner_html`: the
/// anchors of each listing, in document order; an error exactly when one of the
/// two selectors does not parse.
#[verifier::external_body]
pub(crate) fn select_anchor_lists(html: &str, listing: &str, anchor: &str, attribute: &str) -> (r: Result<Vec<Vec<Anchor>>, String>)
    ensures
        r is Ok == (selector_valid(listing@) && selector_valid(anchor@)),
        r matches Ok(v) ==> anchor_lists_view(v) == selected_anchors(html@, listing@, anchor@, attribute@),
{
    let listing = scraper::Selector::parse(listing).map_err(|e| e.to_string())?;
    let anchor = scraper::Selector::parse(anchor).map_err(|e| e.to_string())?;
    let document = scraper::Html::parse_document(html);
    Ok(document.select(&listing).map(|l| {
        l.select(&anchor).map(|a| Anchor { href: a.attr(attribute).map(|h| h.to_string()), text: a.inner_html() }).collect()
    }).collect())
}

/// Relies on fast_html2md's `rewrite_html` with CommonMark output: it never fails,
/// a conversion error gives an empty text.
#[verifier::external_body]
pub(crate) fn html_to_markdown(html: &str) -> (r: String)
    ensures
        r@ == markdown_of(html@),
{
    html2md::rewrite_html(html, true)
}

} // verus!
