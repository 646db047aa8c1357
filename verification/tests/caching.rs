//! Tests of cache planning: identifiers, paths, extensions, and assembly.

use tote::cache_plan;
use tote::check_id;
use tote::finish_cache;
use tote::infer_extension;
use tote::link_dir;
use tote::trim_str;
use tote::CacheError;

#[test]
fn extension_from_icon_url_with_query() {
    assert_eq!(infer_extension("https://cdn.example.com/img/logo.svg?v=2", "png"), "svg");
}

#[test]
fn extension_defaults_when_no_dot() {
    assert_eq!(infer_extension("no-dots-here", "png"), "png");
}

#[test]
fn extension_for_plain_image_url() {
    assert_eq!(infer_extension("https://example.com/cover.jpeg", "jpg"), "jpeg");
}

#[test]
fn extension_ignores_dots_inside_query() {
    assert_eq!(infer_extension("https://x.com/a.png?v=1.2", "png"), "png");
}

#[test]
fn extension_defaults_for_dotless_path_on_dotted_host() {
    assert_eq!(infer_extension("https://img.server.com/photo", "jpg"), "jpg");
}

#[test]
fn extension_defaults_when_query_hides_the_only_dot() {
    assert_eq!(infer_extension("https://host/path?x=a.b", "png"), "png");
}

#[test]
fn icon_file_name_carries_inferred_extension() {
    let html = "<html><head>\
        <link rel=\"icon\" href=\"https://cdn.example.com/img/logo.svg?v=2\">\
        </head></html>";
    let plan = cache_plan(html, "https://example.com/");
    let icon = plan.icon.expect("icon planned");
    assert_eq!(icon.file_name, "icon.svg");
    assert_eq!(icon.url, "https://cdn.example.com/img/logo.svg?v=2");
}

#[test]
fn image_file_name_defaults_to_jpg() {
    let html = "<html><head>\
        <meta property=\"og:image\" content=\"https://imgserver/photo\">\
        </head></html>";
    let plan = cache_plan(html, "https://example.com/");
    let image = plan.image.expect("image planned");
    assert_eq!(image.file_name, "image.jpg");
}

#[test]
fn safe_and_unsafe_identifiers() {
    assert!(check_id("abc-123"));
    assert!(check_id("..."));
    assert!(!check_id(""));
    assert!(!check_id("a/b"));
    assert!(!check_id("a\\b"));
    assert!(!check_id("."));
    assert!(!check_id(".."));
}

#[test]
fn link_dir_for_safe_id() {
    assert_eq!(link_dir("abc").unwrap(), "links/abc");
}

#[test]
fn link_dir_rejects_traversal() {
    assert_eq!(link_dir(".."), Err(CacheError::InvalidId));
    assert_eq!(link_dir("x/y"), Err(CacheError::InvalidId));
}

#[test]
fn partial_failure_keeps_content_and_image() {
    let html = "<html><head>\
        <meta property=\"og:title\" content=\"A Page\">\
        <link rel=\"icon\" href=\"/favicon.png\">\
        <meta property=\"og:image\" content=\"https://img.example.com/a.jpg\">\
        </head></html>";
    let plan = cache_plan(html, "https://example.com/page");
    // The icon fetch failed; the page and the image both succeeded.
    let result = finish_cache(&plan, "links/abc", false, true);
    assert_eq!(result.content_path, "links/abc/content.html");
    assert_eq!(result.icon_path, None);
    assert_eq!(result.image_path.as_deref(), Some("links/abc/image.jpg"));
    // The remote URLs stay populated either way.
    assert_eq!(result.icon.as_deref(), Some("https://example.com/favicon.png"));
    assert_eq!(result.image.as_deref(), Some("https://img.example.com/a.jpg"));
    assert_eq!(result.title, "A Page");
}

#[test]
fn both_assets_saved() {
    let html = "<html><head>\
        <link rel=\"icon\" href=\"/i.ico\">\
        <meta property=\"og:image\" content=\"/p.png\">\
        </head></html>";
    let plan = cache_plan(html, "https://example.com/");
    let result = finish_cache(&plan, "links/k", true, true);
    assert_eq!(result.icon_path.as_deref(), Some("links/k/icon.ico"));
    assert_eq!(result.image_path.as_deref(), Some("links/k/image.png"));
    assert_eq!(result.content_path, "links/k/content.html");
}

#[test]
fn unplanned_assets_never_get_paths() {
    let html = "<html><head><title>t</title></head></html>";
    let plan = cache_plan(html, "not a url");
    // No icon or image could be derived; claimed success changes nothing.
    let result = finish_cache(&plan, "links/k", true, true);
    assert_eq!(result.icon_path, None);
    assert_eq!(result.image_path, None);
    assert_eq!(result.content_path, "links/k/content.html");
}

#[test]
fn planning_is_repeatable() {
    let html = "<html><head>\
        <link rel=\"icon\" href=\"/favicon.svg\">\
        </head></html>";
    let first = cache_plan(html, "https://example.com/");
    let second = cache_plan(html, "https://example.com/");
    assert_eq!(first.metadata.title, second.metadata.title);
    let a = first.icon.expect("icon planned");
    let b = second.icon.expect("icon planned");
    assert_eq!(a.file_name, b.file_name);
    assert_eq!(a.url, b.url);
}

#[test]
fn trim_removes_surrounding_whitespace() {
    assert_eq!(trim_str("  hello world \t\n"), "hello world");
    assert_eq!(trim_str("\u{a0}wide\u{3000}"), "wide");
    assert_eq!(trim_str("   "), "");
    assert_eq!(trim_str(""), "");
    assert_eq!(trim_str("solid"), "solid");
}
