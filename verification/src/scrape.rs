//! Queries over raw HTML markup, through the `scraper` crate.

use vstd::prelude::*;
use vstd::string::StringExecFns;

verus! {

/// The value of attribute `attr` on the first element of the markup
/// matching the CSS selector `selector`: `None` when the selector does not
/// parse, no element matches, or the matching element lacks the attribute.
pub uninterp spec fn selected_attr(html: Seq<char>, selector: Seq<char>, attr: Seq<char>) -> Option<
    Seq<char>,
>;

/// The concatenated text of the first element of the markup matching the
/// CSS selector: `None` when the selector does not parse or no element
/// matches.
pub uninterp spec fn selected_text(html: Seq<char>, selector: Seq<char>) -> Option<Seq<char>>;

/// Relies on `scraper::Html::parse_document`, `scraper::Selector::parse`,
/// `scraper::Html::select` and `scraper::node::Element::attr`: the given
/// attribute of the first element matching the selector, a function of the
/// markup, the selector and the attribute name alone.
#[verifier::external_body]
fn select_first_attr(html: &str, selector: &str, attr: &str) -> (r: Option<String>)
    ensures
        r.deep_view() == selected_attr(html@, selector@, attr@),
{
    let document = scraper::Html::parse_document(html);
    let sel = scraper::Selector::parse(selector).ok()?;
    let element = document.select(&sel).next()?;
    element.value().attr(attr).map(|s| s.to_string())
}

/// Relies on `scraper::Html::parse_document`, `scraper::Selector::parse`,
/// `scraper::Html::select` and `scraper::ElementRef::text`: the text of the
/// first element matching the selector, a function of the markup and the
/// selector alone.
#[verifier::external_body]
fn select_first_text(html: &str, selector: &str) -> (r: Option<String>)
    ensures
        r.deep_view() == selected_text(html@, selector@),
{
    let document = scraper::Html::parse_document(html);
    let sel = scraper::Selector::parse(selector).ok()?;
    let element = document.select(&sel).next()?;
    Some(element.text().collect::<String>())
}

/// The CSS selector that picks `meta` elements whose `property` attribute
/// equals `p`.
pub open spec fn meta_property_selector(p: Seq<char>) -> Seq<char> {
    "meta[property=\""@ + p + "\"]"@
}

/// The `content` attribute of the first `meta` element whose `property`
/// attribute equals `p`.
pub open spec fn meta_property_content(html: Seq<char>, p: Seq<char>) -> Option<Seq<char>> {
    selected_attr(html, meta_property_selector(p), "content"@)
}

/// The content of the first `<meta property="..">` tag with the given
/// property name, per `meta_property_content`.
pub fn get_meta_content(html: &str, property: &str) -> (r: Option<String>)
    ensures
        r.deep_view() == meta_property_content(html@, property@),
{
    let mut sel = "meta[property=\"".to_owned();
    sel.append(property);
    sel.append("\"]");
    select_first_attr(html, sel.as_str(), "content")
}

/// The CSS selector that picks `meta` elements whose `name` attribute
/// equals `n`.
pub open spec fn meta_name_selector(n: Seq<char>) -> Seq<char> {
    "meta[name=\""@ + n + "\"]"@
}

/// The `content` attribute of the first `meta` element whose `name`
/// attribute equals `n`.
pub open spec fn meta_name_content(html: Seq<char>, n: Seq<char>) -> Option<Seq<char>> {
    selected_attr(html, meta_name_selector(n), "content"@)
}

/// The content of the first `<meta name="..">` tag with the given name,
/// per `meta_name_content`.
pub fn get_meta_name_content(html: &str, name: &str) -> (r: Option<String>)
    ensures
        r.deep_view() == meta_name_content(html@, name@),
{
    let mut sel = "meta[name=\"".to_owned();
    sel.append(name);
    sel.append("\"]");
    select_first_attr(html, sel.as_str(), "content")
}

/// The CSS selector that picks `link` elements whose `rel` attribute
/// equals `r`.
pub open spec fn link_rel_selector(r: Seq<char>) -> Seq<char> {
    "link[rel=\""@ + r + "\"]"@
}

/// The `href` attribute of the first `link` element whose `rel` attribute
/// equals `r`.
pub open spec fn link_rel_href(html: Seq<char>, r: Seq<char>) -> Option<Seq<char>> {
    selected_attr(html, link_rel_selector(r), "href"@)
}

/// The target of the first `<link rel="..">` tag with the given relation,
/// per `link_rel_href`.
pub fn get_link_href(html: &str, rel: &str) -> (r: Option<String>)
    ensures
        r.deep_view() == link_rel_href(html@, rel@),
{
    let mut sel = "link[rel=\"".to_owned();
    sel.append(rel);
    sel.append("\"]");
    select_first_attr(html, sel.as_str(), "href")
}

/// The text of the first `<title>` element, `None` when the document has
/// none.
pub open spec fn title_text(html: Seq<char>) -> Option<Seq<char>> {
    selected_text(html, "title"@)
}

/// The text of the document's first `<title>` element, per `title_text`.
pub fn get_title_text(html: &str) -> (r: Option<String>)
    ensures
        r.deep_view() == title_text(html@),
{
    select_first_text(html, "title")
}

} // verus!
