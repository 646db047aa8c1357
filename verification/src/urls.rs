//! URL parsing, joining and candidate resolution, through the `url` crate.

use vstd::prelude::*;
use vstd::string::StringExecFns;
use crate::text::has_http_prefix;
use crate::text::starts_with_http;

verus! {

/// Whether `url::Url::parse` accepts the string as an absolute URL.
pub uninterp spec fn url_ok(s: Seq<char>) -> bool;

/// The host component `url::Url::host_str` reports for the parsed URL,
/// `None` for a URL without a host; meaningful only when `url_ok(s)`.
pub uninterp spec fn url_host(s: Seq<char>) -> Option<Seq<char>>;

/// The scheme `url::Url::scheme` reports for the parsed URL; meaningful
/// only when `url_ok(s)`.
pub uninterp spec fn url_scheme(s: Seq<char>) -> Seq<char>;

/// The serialization of the relative reference `rel` joined against the
/// parsed base URL, `None` when joining fails; meaningful only when
/// `url_ok(base)`.
pub uninterp spec fn url_join(base: Seq<char>, rel: Seq<char>) -> Option<Seq<char>>;

/// Relies on `url::Url::parse` and `url::Url::host_str`: the host component
/// of the parsed URL, `None` when the string does not parse or the URL has
/// no host.
#[verifier::external_body]
pub(crate) fn host_of(s: &str) -> (r: Option<String>)
    ensures
        url_ok(s@) ==> r.deep_view() == url_host(s@),
        !url_ok(s@) ==> r is None,
{
    url::Url::parse(s).ok().and_then(|u| u.host_str().map(|h| h.to_string()))
}

/// Relies on `url::Url::parse` and `url::Url::scheme`: the scheme of the
/// parsed URL, `None` when the string does not parse.
#[verifier::external_body]
pub(crate) fn scheme_of(s: &str) -> (r: Option<String>)
    ensures
        url_ok(s@) ==> r.deep_view() == Some(url_scheme(s@)),
        !url_ok(s@) ==> r is None,
{
    url::Url::parse(s).ok().map(|u| u.scheme().to_string())
}

/// Relies on `url::Url::parse`, `url::Url::join` and the `url` crate's URL
/// serialization: the string form of `rel` joined against `base`, `None`
/// when `base` does not parse or the join fails.
#[verifier::external_body]
pub(crate) fn join_url(base: &str, rel: &str) -> (r: Option<String>)
    ensures
        url_ok(base@) ==> r.deep_view() == url_join(base@, rel@),
        !url_ok(base@) ==> r is None,
{
    url::Url::parse(base).ok().and_then(|b| b.join(rel).ok()).map(|u| u.to_string())
}

/// A candidate reference resolved against a base URL: a candidate that
/// already begins with `http` is kept verbatim, even when what follows
/// makes it no valid URL; any other candidate is joined against the base,
/// and dropped when the base does not parse or the join fails.
pub open spec fn resolved(base: Seq<char>, href: Seq<char>) -> Option<Seq<char>> {
    if starts_with_http(href) {
        Some(href)
    } else if url_ok(base) {
        url_join(base, href)
    } else {
        None
    }
}

/// Resolve a candidate reference against a base URL, per `resolved`.
pub fn resolve_candidate(base: &str, href: &str) -> (r: Option<String>)
    ensures
        r.deep_view() == resolved(base@, href@),
{
    if has_http_prefix(href) {
        Some(href.to_owned())
    } else {
        join_url(base, href)
    }
}

/// The resolution law for absolute-looking candidates: a candidate that
/// begins with `http` is returned verbatim, never joined against the base,
/// whatever the base is.
pub proof fn lemma_resolve_keeps_http_verbatim(base: Seq<char>, href: Seq<char>)
    requires
        starts_with_http(href),
    ensures
        resolved(base, href) == Some(href),
{
}

/// The unconditional icon fallback: `<scheme>://<host>/favicon.ico` built
/// from the source URL, with an empty host part for a URL that has no
/// host; `None` when the source URL does not parse.
pub open spec fn favicon_fallback(url: Seq<char>) -> Option<Seq<char>> {
    if url_ok(url) {
        let host = match url_host(url) {
            Some(h) => h,
            None => Seq::<char>::empty(),
        };
        Some(url_scheme(url) + "://"@ + host + "/favicon.ico"@)
    } else {
        None
    }
}

/// Build the favicon fallback URL for a source URL, per `favicon_fallback`.
pub fn favicon_url(url: &str) -> (r: Option<String>)
    ensures
        r.deep_view() == favicon_fallback(url@),
{
    match scheme_of(url) {
        None => None,
        Some(scheme) => {
            let mut out = scheme;
            out.append("://");
            match host_of(url) {
                Some(h) => out.append(h.as_str()),
                None => {
                    proof {
                        assert(out@ + Seq::<char>::empty() =~= out@);
                    }
                },
            }
            out.append("/favicon.ico");
            Some(out)
        },
    }
}

} // verus!
