use vstd::prelude::*;
use crate::entity::{Item, ItemView, clone_opt_string};
use crate::error::Error;
use crate::html::{
    Anchor, anchor_view, anchor_lists_view, html_to_markdown, markdown_of, select_anchor_lists,
    select_inner_html, selected_anchors, selected_inner_html, selector_valid, strings_view,
};
use crate::sanitize::{sanitize, sanitize_spec};
use crate::text::{trim, trim_spec};

verus! {

/// Where the documentation pages are served from.
pub const DOCS_BASE: &'static str = "https://docs.rs";

/// The region of a page that holds its substantive content.
pub const MAIN_CONTENT_SELECTOR: &'static str = "section#main-content";

/// The category headings of an "all items" page.
pub const HEADING_SELECTOR: &'static str = "section#main-content > h3";

/// The item listings of an "all items" page.
pub const LISTING_SELECTOR: &'static str = "section#main-content > ul";

/// The anchors of a listing.
pub const ANCHOR_SELECTOR: &'static str = "a";

/// The attribute that holds an anchor's link target.
pub const LINK_ATTRIBUTE: &'static str = "href";

/// The message of a missing content region starts with this text, followed by the selector.
pub const NOT_FOUND_PREFIX: &'static str = "Element not found: ";

/// `{base}/{package}/{version}/{package}{path}`.
pub open spec fn page_url_spec(crate_name: Seq<char>, version: Seq<char>, path: Seq<char>) -> Seq<char> {
    DOCS_BASE@ + "/"@ + crate_name + "/"@ + version + "/"@ + crate_name + path
}

/// The items of one section: one per anchor, in order, under the trimmed heading.
pub open spec fn section_items(heading: Seq<char>, anchors: Seq<(Option<Seq<char>>, Seq<char>)>) -> Seq<ItemView> {
    anchors.map_values(|a: (Option<Seq<char>>, Seq<char>)| section_item(heading, a))
}

pub open spec fn section_item(heading: Seq<char>, a: (Option<Seq<char>>, Seq<char>)) -> ItemView {
    ItemView { item_type: trim_spec(heading), href: a.0, path: if a.1.len() == 0 { None } else { Some(a.1) } }
}

/// The items of the first `n` heading / listing pairs, in document order.
pub open spec fn catalog_upto(
    headings: Seq<Seq<char>>,
    listings: Seq<Seq<(Option<Seq<char>>, Seq<char>)>>,
    n: nat,
) -> Seq<ItemView>
    decreases n,
{
    if n == 0 {
        Seq::empty()
    } else {
        catalog_upto(headings, listings, (n - 1) as nat) + section_items(headings[n - 1], listings[n - 1])
    }
}

/// The catalog: the k-th heading paired with the k-th listing, as long as both last.
pub open spec fn catalog_of(
    headings: Seq<Seq<char>>,
    listings: Seq<Seq<(Option<Seq<char>>, Seq<char>)>>,
) -> Seq<ItemView> {
    catalog_upto(headings, listings, if headings.len() <= listings.len() { headings.len() } else { listings.len() })
}

/// The catalog that an "all items" page holds.
pub open spec fn page_catalog(html: Seq<char>) -> Seq<ItemView> {
    catalog_of(
        selected_inner_html(html, HEADING_SELECTOR@),
        selected_anchors(html, LISTING_SELECTOR@, ANCHOR_SELECTOR@, LINK_ATTRIBUTE@),
    )
}

/// Whether the three built-in catalog selectors parse.
pub open spec fn catalog_selectors_valid() -> bool {
    selector_valid(HEADING_SELECTOR@) && selector_valid(LISTING_SELECTOR@) && selector_valid(ANCHOR_SELECTOR@)
}

pub open spec fn items_view(items: Vec<Item>) -> Seq<ItemView> {
    items@.map_values(|i: Item| i@)
}

/// What extraction returns: the inner markup of the first match; a selector
/// error exactly when the selector does not parse; a not-found error naming the
/// selector exactly when nothing matches.
pub open spec fn extract_spec(html: Seq<char>, selector: Seq<char>, r: Result<String, Error>) -> bool {
    match r {
        Ok(s) => selector_valid(selector)
            && selected_inner_html(html, selector).len() > 0
            && s@ == selected_inner_html(html, selector)[0],
        Err(Error::ScraperSelectorParse(_)) => !selector_valid(selector),
        Err(Error::HtmlMainContentNotFound(msg)) => selector_valid(selector)
            && selected_inner_html(html, selector).len() == 0
            && msg@ == NOT_FOUND_PREFIX@ + selector,
        Err(_) => false,
    }
}

/// With exactly one match for the selector, extraction returns that match's
/// inner markup unchanged.
pub proof fn lemma_extract_single_match(html: Seq<char>, selector: Seq<char>, r: Result<String, Error>)
    requires
        extract_spec(html, selector, r),
        selector_valid(selector),
        selected_inner_html(html, selector).len() == 1,
    ensures
        r matches Ok(s) && s@ == selected_inner_html(html, selector)[0],
{
}

/// With no match for the selector, extraction fails with the not-found error
/// and returns no value.
pub proof fn lemma_extract_no_match(html: Seq<char>, selector: Seq<char>, r: Result<String, Error>)
    requires
        extract_spec(html, selector, r),
        selector_valid(selector),
        selected_inner_html(html, selector).len() == 0,
    ensures
        r matches Err(Error::HtmlMainContentNotFound(_)),
{
}

/// Extraction depends on the markup and the selector alone: two results for the
/// same arguments are equal, but for the text of a selector error, which the
/// selector parser writes.
pub proof fn lemma_extract_deterministic(html: Seq<char>, selector: Seq<char>, r1: Result<String, Error>, r2: Result<String, Error>)
    requires
        extract_spec(html, selector, r1),
        extract_spec(html, selector, r2),
    ensures
        r1 is Ok == r2 is Ok,
        r1 matches Ok(a) ==> r2 matches Ok(b) && a@ == b@,
        r1 matches Err(Error::HtmlMainContentNotFound(m)) ==> r2 matches Err(Error::HtmlMainContentNotFound(n)) && m@ == n@,
        (r1 matches Err(Error::ScraperSelectorParse(_))) == (r2 matches Err(Error::ScraperSelectorParse(_))),
{
}

/// The documentation pipeline: page addresses, content extraction, conversion to
/// markdown, catalog parsing and catalog search.
pub struct DocsUseCase {}

impl DocsUseCase {
    pub fn new() -> (r: DocsUseCase) {
        DocsUseCase {}
    }

    /// The address of a page of a package's documentation.
    pub fn page_url(&self, crate_name: &str, version: &str, path: &str) -> (r: String)
        ensures
            r@ == page_url_spec(crate_name@, version@, path@),
    {
        let mut url = DOCS_BASE.to_owned();
        url.append("/");
        url.append(crate_name);
        url.append("/");
        url.append(version);
        url.append("/");
        url.append(crate_name);
        url.append(path);
        url
    }

    /// The address of a package's top page.
    pub fn index_page_url(&self, crate_name: &str, version: &str) -> (r: String)
        ensures
            r@ == page_url_spec(crate_name@, version@, "/index.html"@),
    {
        self.page_url(crate_name, version, "/index.html")
    }

    /// The address of a package's "all items" page.
    pub fn all_items_url(&self, crate_name: &str, version: &str) -> (r: String)
        ensures
            r@ == page_url_spec(crate_name@, version@, "/all.html"@),
    {
        self.page_url(crate_name, version, "/all.html")
    }

    /// The inner markup of the first element that matches the selector.
    pub fn extract_main_content(&self, html: &str, selector: &str) -> (r: Result<String, Error>)
        ensures
            extract_spec(html@, selector@, r),
    {
        let matches = match select_inner_html(html, selector) {
            Ok(m) => m,
            Err(msg) => return Err(Error::ScraperSelectorParse(msg)),
        };
        if matches.len() == 0 {
            let mut msg = NOT_FOUND_PREFIX.to_owned();
            msg.append(selector);
            return Err(Error::HtmlMainContentNotFound(msg));
        }
        proof {
            assert(strings_view(matches)[0] == matches@[0]@);
        }
        Ok(matches[0].clone())
    }

    /// The content region of a raw page, sanitized and converted to markdown.
    pub fn render_page(&self, html: &str) -> (r: Result<String, Error>)
        ensures
            match r {
                Ok(md) => selector_valid(MAIN_CONTENT_SELECTOR@)
                    && selected_inner_html(html@, MAIN_CONTENT_SELECTOR@).len() > 0
                    && md@ == markdown_of(sanitize_spec(selected_inner_html(html@, MAIN_CONTENT_SELECTOR@)[0])),
                Err(Error::ScraperSelectorParse(_)) => !selector_valid(MAIN_CONTENT_SELECTOR@),
                Err(Error::HtmlMainContentNotFound(_)) => selector_valid(MAIN_CONTENT_SELECTOR@)
                    && selected_inner_html(html@, MAIN_CONTENT_SELECTOR@).len() == 0,
                Err(_) => false,
            },
    {
        let main = self.extract_main_content(html, MAIN_CONTENT_SELECTOR)?;
        let clean = sanitize(main.as_str());
        Ok(html_to_markdown(clean.as_str()))
    }

    /// The catalog of an "all items" page: the k-th category heading paired with
    /// the k-th listing while both last, one item per anchor of the listing; an
    /// anchor with no inner text gives no label.
    pub fn parse_all_items(&self, html: &str) -> (r: Result<Vec<Item>, Error>)
        ensures
            r is Ok == catalog_selectors_valid(),
            r matches Ok(items) ==> items_view(items) == page_catalog(html@),
            r matches Err(e) ==> e is ScraperSelectorParse,
    {
        let headings = match select_inner_html(html, HEADING_SELECTOR) {
            Ok(h) => h,
            Err(msg) => return Err(Error::ScraperSelectorParse(msg)),
        };
        let listings = match select_anchor_lists(html, LISTING_SELECTOR, ANCHOR_SELECTOR, LINK_ATTRIBUTE) {
            Ok(l) => l,
            Err(msg) => return Err(Error::ScraperSelectorParse(msg)),
        };
        let ghost hv = strings_view(headings);
        let ghost lv = anchor_lists_view(listings);
        let n: usize = if headings.len() <= listings.len() { headings.len() } else { listings.len() };
        let mut items: Vec<Item> = Vec::new();
        let mut k: usize = 0;
        while k < n
            invariant
                n <= headings.len(),
                n <= listings.len(),
                k <= n,
                hv == strings_view(headings),
                lv == anchor_lists_view(listings),
                items_view(items) == catalog_upto(hv, lv, k as nat),
            decreases n - k,
        {
            let category = trim(headings[k].as_str());
            let listing = &listings[k];
            let ghost before = items_view(items);
            let ghost section = section_items(hv[k as int], lv[k as int]);
            assert(hv[k as int] == headings@[k as int]@);
            assert(lv[k as int] == listing@.map_values(|a: Anchor| anchor_view(a)));
            let mut j: usize = 0;
            while j < listing.len()
                invariant
                    j <= listing.len(),
                    k < n,
                    n <= listings.len(),
                    listing == &listings@[k as int],
                    category@ == trim_spec(hv[k as int]),
                    section == section_items(hv[k as int], lv[k as int]),
                    lv[k as int] == listing@.map_values(|a: Anchor| anchor_view(a)),
                    items_view(items) == before + section.take(j as int),
                decreases listing.len() - j,
            {
                let anchor = &listing[j];
                let item = Item {
                    item_type: category.clone(),
                    href: clone_opt_string(&anchor.href),
                    path: if anchor.text.as_str().is_empty() { None } else { Some(anchor.text.clone()) },
                };
                let ghost old_items = items_view(items);
                items.push(item);
                proof {
                    assert(section[j as int] == section_item(hv[k as int], anchor_view(*anchor)));
                    assert(section.take(j as int + 1) == section.take(j as int).push(section[j as int]));
                    assert(items_view(items) == old_items.push(item@));
                }
                j = j + 1;
            }
            proof {
                assert(section.take(j as int) == section);
            }
            k = k + 1;
        }
        Ok(items)
    }
}

} // verus!
