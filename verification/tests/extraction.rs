use opengraph::handlers::{extract_opengraph_tags, str_starts_with};
use opengraph::OpengraphTag;

fn tags_eq(a: &[OpengraphTag], b: &[(&str, &str)]) -> bool {
    a.len() == b.len()
        && a.iter().zip(b.iter()).all(|(t, (p, c))| t.property == *p && t.content == *c)
}

#[test]
fn og_title_yields_exact_tag() {
    let html = "<html><head><meta property=\"og:title\" content=\"Hello\"></head></html>";
    let tags = extract_opengraph_tags(html);
    assert!(tags_eq(&tags, &[("og:title", "Hello")]));
}

#[test]
fn twitter_title_yields_exact_tag() {
    let html = "<html><head><meta name=\"twitter:title\" content=\"Hi\"></head></html>";
    let tags = extract_opengraph_tags(html);
    assert!(tags_eq(&tags, &[("twitter:title", "Hi")]));
}

#[test]
fn article_prefix_included_fb_prefix_excluded() {
    let html = "<html><head><meta property=\"article:published_time\" content=\"2025-08-30T22:19:15+02:00\"><meta property=\"fb:app_id\" content=\"123\"></head></html>";
    let tags = extract_opengraph_tags(html);
    assert!(tags_eq(&tags, &[("article:published_time", "2025-08-30T22:19:15+02:00")]));
}

#[test]
fn missing_content_becomes_empty_string() {
    let html = "<html><head><meta property=\"og:image\"></head></html>";
    let tags = extract_opengraph_tags(html);
    assert!(tags_eq(&tags, &[("og:image", "")]));
}

#[test]
fn cxenseparse_name_is_included() {
    let html = "<meta name=\"cXenseParse:publishtime\" content=\"2025-08-30T11:04:56.930Z\">";
    let tags = extract_opengraph_tags(html);
    assert!(tags_eq(&tags, &[("cXenseParse:publishtime", "2025-08-30T11:04:56.930Z")]));
}

#[test]
fn property_rule_wins_over_name_rule() {
    let html = "<meta property=\"og:a\" name=\"twitter:b\" content=\"x\">";
    let tags = extract_opengraph_tags(html);
    assert!(tags_eq(&tags, &[("og:a", "x")]));
}

#[test]
fn name_rule_applies_when_property_does_not_qualify() {
    let html = "<meta property=\"fb:x\" name=\"twitter:y\" content=\"z\">";
    let tags = extract_opengraph_tags(html);
    assert!(tags_eq(&tags, &[("twitter:y", "z")]));
}

#[test]
fn document_order_is_kept() {
    let html = "<html><head><meta property=\"og:title\" content=\"first\"><meta name=\"viewport\" content=\"width=device-width\"><meta name=\"twitter:card\" content=\"second\"><meta property=\"og:title\" content=\"third\"></head></html>";
    let tags = extract_opengraph_tags(html);
    assert!(tags_eq(
        &tags,
        &[("og:title", "first"), ("twitter:card", "second"), ("og:title", "third")],
    ));
}

#[test]
fn malformed_markup_degrades_without_failing() {
    let tags = extract_opengraph_tags("<html><<<meta property=og:x <p unclosed");
    assert!(tags.len() <= 1);
    let none = extract_opengraph_tags("");
    assert!(none.is_empty());
    let plain = extract_opengraph_tags("just some text, no markup at all");
    assert!(plain.is_empty());
}

#[test]
fn unicode_content_is_preserved() {
    let html = "<meta property=\"og:title\" content=\"héllo wörld ☺\">";
    let tags = extract_opengraph_tags(html);
    assert!(tags_eq(&tags, &[("og:title", "héllo wörld ☺")]));
}

#[test]
fn extraction_is_idempotent_on_identical_bytes() {
    let html = "<html><head><meta property=\"og:title\" content=\"Hello\"><meta name=\"twitter:site\" content=\"@abc\"></head></html>";
    let first = extract_opengraph_tags(html);
    let second = extract_opengraph_tags(html);
    assert_eq!(first.len(), second.len());
    for (a, b) in first.iter().zip(second.iter()) {
        assert_eq!(a.property, b.property);
        assert_eq!(a.content, b.content);
    }
}

#[test]
fn prefix_check_matches_exact_prefixes() {
    assert!(str_starts_with("og:title", "og:"));
    assert!(str_starts_with("og:", "og:"));
    assert!(!str_starts_with("fb:app_id", "og:"));
    assert!(!str_starts_with("og", "og:"));
    assert!(str_starts_with("anything", ""));
}
