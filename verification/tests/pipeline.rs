use link_preview::document::ParsedDocument;
use link_preview::pipeline::{extract, MetadataResult};
use link_preview::resolver::AbsoluteUrl;

const FULL: &str = "<html><head><title>Plain title</title>\
<meta property=\"og:title\" content=\"A title\">\
<meta property=\"og:description\" content=\"A description\">\
<meta property=\"og:image\" content=\"img/cover.png\">\
<meta property=\"og:url\" content=\"https://canonical.example/post\">\
<meta property=\"og:site_name\" content=\"Example Site\">\
<meta property=\"og:type\" content=\"article\">\
<link rel=\"icon\" href=\"/favicon.ico\">\
</head><body><p>text</p></body></html>";

fn preview(markup: &str, address: &str) -> MetadataResult {
    let dom = ParsedDocument::parse(markup).unwrap();
    let url = AbsoluteUrl::parse(address).unwrap();
    extract(&dom, &url)
}

fn text(value: Option<&String>) -> Option<&str> {
    value.map(|s| s.as_str())
}

#[test]
fn extract_fills_every_field_by_its_rule() {
    let result = preview(FULL, "https://www.example.com/blog/post");
    assert_eq!(text(result.title()), Some("A title"));
    assert_eq!(text(result.description()), Some("A description"));
    assert_eq!(text(result.domain()), Some("example.com"));
    assert_eq!(
        result.favicon().map(|u| u.as_str()),
        Some("https://www.example.com/favicon.ico")
    );
    assert_eq!(
        result.image().map(|u| u.as_str()),
        Some("https://www.example.com/blog/img/cover.png")
    );
    assert_eq!(text(result.canonical_url()), Some("https://canonical.example/post"));
    assert_eq!(text(result.site_name()), Some("Example Site"));
    assert_eq!(text(result.content_type()), Some("article"));
}

#[test]
fn a_page_with_nothing_to_find_gives_an_empty_record() {
    for markup in ["", "just text", "<html><body><p>text</p></body></html>"] {
        let result = preview(markup, "mailto:someone@example.com");
        assert_eq!(result.title(), None);
        assert_eq!(result.description(), None);
        assert_eq!(result.domain(), None);
        assert_eq!(result.favicon(), None);
        assert_eq!(result.image(), None);
        assert_eq!(result.canonical_url(), None);
        assert_eq!(result.site_name(), None);
        assert_eq!(result.content_type(), None);
    }
}

#[test]
fn a_missing_title_leaves_the_other_fields_alone() {
    let markup = "<meta property=\"og:description\" content=\"D\">\
                  <link rel=\"icon\" href=\"/favicon.ico\">";
    let result = preview(markup, "https://example.com/blog/post");
    assert_eq!(result.title(), None);
    assert_eq!(text(result.description()), Some("D"));
    assert_eq!(text(result.domain()), Some("example.com"));
    assert_eq!(result.favicon().map(|u| u.as_str()), Some("https://example.com/favicon.ico"));
}

#[test]
fn a_link_that_cannot_be_resolved_leaves_the_other_fields_alone() {
    let markup = "<title>B</title><meta property=\"og:image\" content=\"http://[::1\">";
    let result = preview(markup, "https://example.com/blog/post");
    assert_eq!(result.image(), None);
    assert_eq!(text(result.title()), Some("B"));
    assert_eq!(text(result.domain()), Some("example.com"));
}

#[test]
fn domain_follows_the_target_and_not_the_page() {
    let disagreeing = "<meta property=\"og:url\" content=\"https://www.other.example/x\">\
                       <meta property=\"og:site_name\" content=\"other.example\">";
    let with_page = preview(disagreeing, "https://www.example.com/blog/post");
    let without_page = preview("", "https://www.example.com/blog/post");
    assert_eq!(text(with_page.domain()), Some("example.com"));
    assert_eq!(with_page.domain(), without_page.domain());
    assert_eq!(text(with_page.canonical_url()), Some("https://www.other.example/x"));
}

#[test]
fn extract_gives_the_same_record_each_time() {
    let first = preview(FULL, "https://example.com/blog/post");
    let second = preview(FULL, "https://example.com/blog/post");
    assert_eq!(first, second);
}

#[test]
fn entries_carry_the_fields_under_their_keys_in_order() {
    let entries = preview(FULL, "https://www.example.com/blog/post").into_entries();
    let expected: Vec<(&str, Option<String>)> = vec![
        ("title", Some("A title".to_string())),
        ("description", Some("A description".to_string())),
        ("domain", Some("example.com".to_string())),
        ("favicon", Some("https://www.example.com/favicon.ico".to_string())),
        ("image", Some("https://www.example.com/blog/img/cover.png".to_string())),
        ("og_url", Some("https://canonical.example/post".to_string())),
        ("sitename", Some("Example Site".to_string())),
        ("type", Some("article".to_string())),
    ];
    assert_eq!(entries, expected);
}

#[test]
fn entries_of_an_empty_record_keep_every_key() {
    let entries = preview("", "data:text/plain,x").into_entries();
    let keys: Vec<&str> = entries.iter().map(|entry| entry.0).collect();
    assert_eq!(
        keys,
        vec!["title", "description", "domain", "favicon", "image", "og_url", "sitename", "type"]
    );
    assert!(entries.iter().all(|entry| entry.1.is_none()));
}

#[test]
fn a_record_holds_what_it_was_made_of() {
    let favicon = AbsoluteUrl::parse("https://example.com/favicon.ico").unwrap();
    let record = MetadataResult::new(
        Some("t".to_string()),
        None,
        Some("example.com".to_string()),
        Some(favicon.clone()),
        None,
        Some("/relative".to_string()),
        None,
        Some("article".to_string()),
    );
    assert_eq!(text(record.title()), Some("t"));
    assert_eq!(record.description(), None);
    assert_eq!(text(record.domain()), Some("example.com"));
    assert_eq!(record.favicon(), Some(&favicon));
    assert_eq!(record.image(), None);
    assert_eq!(text(record.canonical_url()), Some("/relative"));
    assert_eq!(record.site_name(), None);
    assert_eq!(text(record.content_type()), Some("article"));
}

#[test]
fn extract_gives_the_record_of_the_eight_answers() {
    let expected = MetadataResult::new(
        Some("A title".to_string()),
        Some("A description".to_string()),
        Some("example.com".to_string()),
        AbsoluteUrl::parse("https://example.com/favicon.ico"),
        AbsoluteUrl::parse("https://example.com/blog/img/cover.png"),
        Some("https://canonical.example/post".to_string()),
        Some("Example Site".to_string()),
        Some("article".to_string()),
    );
    assert_eq!(preview(FULL, "https://example.com/blog/post"), expected);
}
