//! Tests of the metadata extractor's fallback chains and URL resolution.

use tote::parse_metadata;
use tote::resolve_candidate;

#[test]
fn og_title_wins_over_title_element() {
    let html = "<html><head>\
        <meta property=\"og:title\" content=\"OG Title\">\
        <title>Document Title</title>\
        </head><body></body></html>";
    let (title, _, _, _) = parse_metadata(html, "https://example.com/page");
    assert_eq!(title, "OG Title");
}

#[test]
fn og_title_content_is_trimmed() {
    let html = "<html><head>\
        <meta property=\"og:title\" content=\"  Padded Title \n\">\
        </head></html>";
    let (title, _, _, _) = parse_metadata(html, "https://example.com/");
    assert_eq!(title, "Padded Title");
}

#[test]
fn whitespace_only_og_title_passed_over() {
    let html = "<html><head>\
        <meta property=\"og:title\" content=\"   \">\
        <title>Real Title</title>\
        </head></html>";
    let (title, _, _, _) = parse_metadata(html, "https://example.com/");
    assert_eq!(title, "Real Title");
}

#[test]
fn title_never_empty_when_every_source_is_blank() {
    let html = "<html><head>\
        <meta property=\"og:title\" content=\" \">\
        <meta property=\"twitter:title\" content=\"\">\
        <title>  </title>\
        </head></html>";
    let (title, _, _, _) = parse_metadata(html, "not a url");
    assert_eq!(title, "Unknown");
}

#[test]
fn blank_sources_fall_through_to_host() {
    let html = "<html><head>\
        <meta property=\"og:title\" content=\"\t\">\
        <title> </title>\
        </head></html>";
    let (title, _, _, _) = parse_metadata(html, "https://example.com/page");
    assert_eq!(title, "example.com");
}

#[test]
fn twitter_title_when_no_og_title() {
    let html = "<html><head>\
        <meta property=\"twitter:title\" content=\"Tweeted\">\
        <title>Document Title</title>\
        </head></html>";
    let (title, _, _, _) = parse_metadata(html, "https://example.com/");
    assert_eq!(title, "Tweeted");
}

#[test]
fn title_element_when_no_meta_titles() {
    let html = "<html><head><title> Document Title </title></head></html>";
    let (title, _, _, _) = parse_metadata(html, "https://example.com/");
    assert_eq!(title, "Document Title");
}

#[test]
fn host_when_no_title_sources() {
    let html = "<html><head></head><body><p>hello</p></body></html>";
    let (title, _, _, _) = parse_metadata(html, "https://example.com/page");
    assert_eq!(title, "example.com");
}

#[test]
fn unknown_when_no_title_sources_and_unparseable_url() {
    let html = "<html><head></head><body></body></html>";
    let (title, _, _, _) = parse_metadata(html, "not a url");
    assert_eq!(title, "Unknown");
}

#[test]
fn unknown_when_parseable_url_has_no_host() {
    let html = "<html></html>";
    let (title, _, _, _) = parse_metadata(html, "data:text/plain,Stuff");
    assert_eq!(title, "Unknown");
}

#[test]
fn og_description_wins() {
    let html = "<html><head>\
        <meta property=\"og:description\" content=\" first \">\
        <meta name=\"description\" content=\"second\">\
        </head></html>";
    let (_, description, _, _) = parse_metadata(html, "https://example.com/");
    assert_eq!(description.as_deref(), Some("first"));
}

#[test]
fn meta_name_description_as_last_resort() {
    let html = "<html><head>\
        <meta name=\"description\" content=\"plain description\">\
        </head></html>";
    let (_, description, _, _) = parse_metadata(html, "https://example.com/");
    assert_eq!(description.as_deref(), Some("plain description"));
}

#[test]
fn description_absent_when_no_source_tag() {
    let html = "<html><head><title>t</title></head></html>";
    let (_, description, _, _) = parse_metadata(html, "https://example.com/");
    assert_eq!(description, None);
}

#[test]
fn relative_icon_href_resolves_against_base() {
    let resolved = resolve_candidate("https://example.com/page", "/favicon.png");
    assert_eq!(resolved.as_deref(), Some("https://example.com/favicon.png"));
}

#[test]
fn relative_icon_tag_resolves_against_base() {
    let html = "<html><head>\
        <link rel=\"icon\" href=\"/favicon.png\">\
        </head></html>";
    let (_, _, icon, _) = parse_metadata(html, "https://example.com/page");
    assert_eq!(icon.as_deref(), Some("https://example.com/favicon.png"));
}

#[test]
fn absolute_looking_candidate_kept_verbatim() {
    let resolved = resolve_candidate("https://example.com/page", "httpbroken://x");
    assert_eq!(resolved.as_deref(), Some("httpbroken://x"));
}

#[test]
fn relative_candidate_dropped_when_base_unparseable() {
    let resolved = resolve_candidate("not a url", "/favicon.png");
    assert_eq!(resolved, None);
}

#[test]
fn apple_touch_icon_preferred() {
    let html = "<html><head>\
        <link rel=\"apple-touch-icon\" href=\"https://cdn.example.com/touch.png\">\
        <link rel=\"icon\" href=\"/favicon.ico\">\
        </head></html>";
    let (_, _, icon, _) = parse_metadata(html, "https://example.com/");
    assert_eq!(icon.as_deref(), Some("https://cdn.example.com/touch.png"));
}

#[test]
fn shortcut_icon_as_last_tag() {
    let html = "<html><head>\
        <link rel=\"shortcut icon\" href=\"/old.ico\">\
        </head></html>";
    let (_, _, icon, _) = parse_metadata(html, "https://example.com/");
    assert_eq!(icon.as_deref(), Some("https://example.com/old.ico"));
}

#[test]
fn favicon_fallback_when_no_icon_tags() {
    let html = "<html><head><title>t</title></head><body></body></html>";
    let (_, _, icon, _) = parse_metadata(html, "https://site.org/a/b");
    assert_eq!(icon.as_deref(), Some("https://site.org/favicon.ico"));
}

#[test]
fn icon_absent_when_url_unparseable_and_no_tags() {
    let html = "<html></html>";
    let (_, _, icon, _) = parse_metadata(html, "not a url");
    assert_eq!(icon, None);
}

#[test]
fn og_image_resolved_verbatim_when_absolute() {
    let html = "<html><head>\
        <meta property=\"og:image\" content=\"https://img.example.com/a.jpg\">\
        </head></html>";
    let (_, _, _, image) = parse_metadata(html, "https://example.com/");
    assert_eq!(image.as_deref(), Some("https://img.example.com/a.jpg"));
}

#[test]
fn twitter_image_resolved_relative() {
    let html = "<html><head>\
        <meta property=\"twitter:image\" content=\"pics/cover.jpg\">\
        </head></html>";
    let (_, _, _, image) = parse_metadata(html, "https://example.com/articles/one");
    assert_eq!(image.as_deref(), Some("https://example.com/articles/pics/cover.jpg"));
}

#[test]
fn image_absent_when_no_source_tag() {
    let html = "<html><head><title>t</title></head></html>";
    let (_, _, _, image) = parse_metadata(html, "https://example.com/");
    assert_eq!(image, None);
}

#[test]
fn extractor_total_on_malformed_markup() {
    let html = "<<<not <html at all > <meta property=\"og:title\" content=\"Still Found\"";
    let (title, _, _, _) = parse_metadata(html, "https://example.com/");
    // Parsing degrades gracefully; whatever the tokenizer makes of the noise,
    // the call must return, and the fallback chain must still end somewhere.
    assert!(title == "Still Found" || title == "example.com");
}
