//! The metadata extractor: ordered fallback chains over the page markup.

use vstd::prelude::*;
use crate::scrape::get_link_href;
use crate::scrape::get_meta_content;
use crate::scrape::get_meta_name_content;
use crate::scrape::get_title_text;
use crate::scrape::link_rel_href;
use crate::scrape::meta_name_content;
use crate::scrape::meta_property_content;
use crate::scrape::title_text;
use crate::text::spec_trim;
use crate::text::trim_str;
use crate::urls::favicon_fallback;
use crate::urls::favicon_url;
use crate::urls::resolve_candidate;
use crate::urls::resolved;
use crate::urls::url_host;
use crate::urls::url_ok;
use crate::urls::host_of;

verus! {

/// Displayable metadata extracted from one page: the result of the
/// preview path, produced fresh per call and not persisted.
#[derive(Debug, Clone)]
pub struct LinkMetadata {
    /// Page title: the first source whose trimmed content is non-empty,
    /// else the source URL's host, else `Unknown`. Never empty.
    pub title: String,
    /// Page description, trimmed, absent when no source tag matches.
    pub description: Option<String>,
    /// Absolute URL of the page icon, if one could be derived.
    pub icon: Option<String>,
    /// Absolute URL of the preview image, if one could be derived.
    pub image: Option<String>,
}

/// The mathematical image of a `LinkMetadata` value.
pub ghost struct LinkMetadataView {
    pub title: Seq<char>,
    pub description: Option<Seq<char>>,
    pub icon: Option<Seq<char>>,
    pub image: Option<Seq<char>>,
}

impl View for LinkMetadata {
    type V = LinkMetadataView;

    open spec fn view(&self) -> LinkMetadataView {
        LinkMetadataView {
            title: self.title@,
            description: self.description.deep_view(),
            icon: self.icon.deep_view(),
            image: self.image.deep_view(),
        }
    }
}

/// A candidate title source, trimmed: `None` when the source is absent or
/// its content trims to nothing, so that the chain moves on.
pub open spec fn spec_pick(c: Option<Seq<char>>) -> Option<Seq<char>> {
    match c {
        Some(t) => if spec_trim(t).len() > 0 {
            Some(spec_trim(t))
        } else {
            None
        },
        None => None,
    }
}

/// The host fallback of the title chain: the trimmed host of a parseable
/// source URL, or the literal `Unknown` when the URL does not parse, has
/// no host, or its host trims to nothing.
pub open spec fn host_title(url: Seq<char>) -> Seq<char> {
    if url_ok(url) {
        match url_host(url) {
            Some(h) => if spec_trim(h).len() > 0 {
                spec_trim(h)
            } else {
                "Unknown"@
            },
            None => "Unknown"@,
        }
    } else {
        "Unknown"@
    }
}

/// The extracted title: the first source of the chain — `og:title` meta,
/// `twitter:title` meta, `<title>` text — whose trimmed content is
/// non-empty, else the source URL's host, else the literal `Unknown`.
/// Never empty.
pub open spec fn spec_title(html: Seq<char>, url: Seq<char>) -> Seq<char> {
    match spec_pick(meta_property_content(html, "og:title"@)) {
        Some(t) => t,
        None => match spec_pick(meta_property_content(html, "twitter:title"@)) {
            Some(t) => t,
            None => match spec_pick(title_text(html)) {
                Some(t) => t,
                None => host_title(url),
            },
        },
    }
}

/// The description before trimming: `og:description`, else
/// `twitter:description`, else the `description` meta name.
pub open spec fn raw_description(html: Seq<char>) -> Option<Seq<char>> {
    match meta_property_content(html, "og:description"@) {
        Some(d) => Some(d),
        None => match meta_property_content(html, "twitter:description"@) {
            Some(d) => Some(d),
            None => meta_name_content(html, "description"@),
        },
    }
}

/// The extracted description: the first match of the chain, trimmed;
/// absent when no source tag matches.
pub open spec fn spec_description(html: Seq<char>) -> Option<Seq<char>> {
    match raw_description(html) {
        Some(d) => Some(spec_trim(d)),
        None => None,
    }
}

/// The icon candidate: the first of the `apple-touch-icon`, `icon` and
/// `shortcut icon` link relations present in the markup.
pub open spec fn icon_candidate(html: Seq<char>) -> Option<Seq<char>> {
    match link_rel_href(html, "apple-touch-icon"@) {
        Some(h) => Some(h),
        None => match link_rel_href(html, "icon"@) {
            Some(h) => Some(h),
            None => link_rel_href(html, "shortcut icon"@),
        },
    }
}

/// The extracted icon URL: the icon candidate resolved against the source
/// URL; when there is no candidate or resolution fails, the favicon
/// fallback, which is absent in turn when the source URL does not parse.
pub open spec fn spec_icon(html: Seq<char>, url: Seq<char>) -> Option<Seq<char>> {
    let direct = match icon_candidate(html) {
        Some(href) => resolved(url, href),
        None => None,
    };
    match direct {
        Some(u) => Some(u),
        None => favicon_fallback(url),
    }
}

/// The image candidate: `og:image` meta content, else `twitter:image`.
pub open spec fn image_candidate(html: Seq<char>) -> Option<Seq<char>> {
    match meta_property_content(html, "og:image"@) {
        Some(s) => Some(s),
        None => meta_property_content(html, "twitter:image"@),
    }
}

/// The extracted image URL: the image candidate resolved against the
/// source URL; absent when there is no candidate or resolution fails.
pub open spec fn spec_image(html: Seq<char>, url: Seq<char>) -> Option<Seq<char>> {
    match image_candidate(html) {
        Some(src) => resolved(url, src),
        None => None,
    }
}

/// All four metadata fields of a page, as one view.
pub open spec fn spec_metadata(html: Seq<char>, url: Seq<char>) -> LinkMetadataView {
    LinkMetadataView {
        title: spec_title(html, url),
        description: spec_description(html),
        icon: spec_icon(html, url),
        image: spec_image(html, url),
    }
}

/// The trimmed content of a candidate title source, `None` when the
/// source is absent or trims to nothing, per `spec_pick`.
fn picked_title(c: Option<String>) -> (r: Option<String>)
    ensures
        r.deep_view() == spec_pick(c.deep_view()),
{
    match c {
        Some(t) => {
            let tt = trim_str(t.as_str());
            if tt.as_str().is_empty() {
                None
            } else {
                Some(tt)
            }
        },
        None => None,
    }
}

/// Extract title, description, icon URL and image URL from raw markup and
/// the URL it was fetched from, by the ordered fallback chains. Total:
/// malformed markup degrades to the fallbacks, never to a failure.
pub fn parse_metadata(html: &str, url: &str) -> (r: (
    String,
    Option<String>,
    Option<String>,
    Option<String>,
))
    ensures
        r.0@ == spec_title(html@, url@),
        r.1.deep_view() == spec_description(html@),
        r.2.deep_view() == spec_icon(html@, url@),
        r.3.deep_view() == spec_image(html@, url@),
{
    let title = match picked_title(get_meta_content(html, "og:title")) {
        Some(t) => t,
        None => match picked_title(get_meta_content(html, "twitter:title")) {
            Some(t) => t,
            None => match picked_title(get_title_text(html)) {
                Some(t) => t,
                None => match host_of(url) {
                    Some(h) => {
                        let th = trim_str(h.as_str());
                        if th.as_str().is_empty() {
                            "Unknown".to_owned()
                        } else {
                            th
                        }
                    },
                    None => "Unknown".to_owned(),
                },
            },
        },
    };

    let description = match get_meta_content(html, "og:description") {
        Some(d) => Some(d),
        None => match get_meta_content(html, "twitter:description") {
            Some(d) => Some(d),
            None => get_meta_name_content(html, "description"),
        },
    };
    let description = match description {
        Some(d) => Some(trim_str(d.as_str())),
        None => None,
    };

    let candidate = match get_link_href(html, "apple-touch-icon") {
        Some(h) => Some(h),
        None => match get_link_href(html, "icon") {
            Some(h) => Some(h),
            None => get_link_href(html, "shortcut icon"),
        },
    };
    let direct = match candidate {
        Some(href) => resolve_candidate(url, href.as_str()),
        None => None,
    };
    let icon = match direct {
        Some(u) => Some(u),
        None => favicon_url(url),
    };

    let source = match get_meta_content(html, "og:image") {
        Some(s) => Some(s),
        None => get_meta_content(html, "twitter:image"),
    };
    let image = match source {
        Some(src) => resolve_candidate(url, src.as_str()),
        None => None,
    };

    (title, description, icon, image)
}

/// Extract a page's metadata as one `LinkMetadata` value.
pub fn extract_link_metadata(html: &str, url: &str) -> (m: LinkMetadata)
    ensures
        m@ == spec_metadata(html@, url@),
{
    let (title, description, icon, image) = parse_metadata(html, url);
    LinkMetadata { title, description, icon, image }
}

/// The title law for pages carrying an `og:title` meta tag whose content
/// does not trim to nothing: its trimmed content is the title, whatever
/// else the page holds — in particular, whether or not a `<title>`
/// element is present.
pub proof fn lemma_title_prefers_og_title(html: Seq<char>, url: Seq<char>, c: Seq<char>)
    requires
        meta_property_content(html, "og:title"@) == Some(c),
        spec_trim(c).len() > 0,
    ensures
        spec_title(html, url) == spec_trim(c),
{
}

/// The title law for pages with no `og:title`, no `twitter:title` and no
/// `<title>` element, but a parseable source URL whose host is non-empty
/// and carries no surrounding whitespace: the title is that host.
pub proof fn lemma_title_falls_back_to_host(html: Seq<char>, url: Seq<char>, h: Seq<char>)
    requires
        meta_property_content(html, "og:title"@) is None,
        meta_property_content(html, "twitter:title"@) is None,
        title_text(html) is None,
        url_ok(url),
        url_host(url) == Some(h),
        spec_trim(h) == h,
        h.len() > 0,
    ensures
        spec_title(html, url) == h,
{
}

/// The title law for pages with no `og:title`, no `twitter:title` and no
/// `<title>` element, and a source URL that does not parse: the title is
/// the literal `Unknown`.
pub proof fn lemma_title_unknown(html: Seq<char>, url: Seq<char>)
    requires
        meta_property_content(html, "og:title"@) is None,
        meta_property_content(html, "twitter:title"@) is None,
        title_text(html) is None,
        !url_ok(url),
    ensures
        spec_title(html, url) == "Unknown"@,
{
    reveal_strlit("Unknown");
    assert(spec_trim("Unknown"@) == "Unknown"@);
}

/// The title is never empty: a source that trims to nothing is passed
/// over, and the chain ends at a non-empty host or at the literal
/// `Unknown`.
pub proof fn lemma_title_nonempty(html: Seq<char>, url: Seq<char>)
    ensures
        spec_title(html, url).len() > 0,
{
    reveal_strlit("Unknown");
}

} // verus!
